//! Server-Sent Events (SSE) helpers.

use crate::headers::{get_header_text, header_text};
use crate::strmap::StringMap;
use crate::text::{contains, contains_pattern, join, join_strings, split_char, split_on};
use vstd::prelude::*;

verus! {

/// MIME type for Server-Sent Events.
pub const SSE_CONTENT_TYPE: &'static str = "text/event-stream";

/// A request advertises an SSE stream when its `accept` or its `content-type`
/// header text mentions `text/event-stream`.
pub open spec fn spec_is_sse_request(headers: Map<Seq<char>, Seq<char>>) -> bool {
    (header_text(headers, "accept"@) matches Some(a) && contains_pattern(a, SSE_CONTENT_TYPE@))
        || (header_text(headers, "content-type"@) matches Some(t) && contains_pattern(
        t,
        SSE_CONTENT_TYPE@,
    ))
}

/// Returns `true` if the request headers advertise an SSE stream.
pub fn is_sse_request(headers: &StringMap) -> (r: bool)
    ensures
        r == spec_is_sse_request(headers@),
        header_text(headers@, "accept"@) matches Some(a) && contains_pattern(a, SSE_CONTENT_TYPE@)
            ==> r,
        header_text(headers@, "content-type"@) matches Some(t) && contains_pattern(
            t,
            SSE_CONTENT_TYPE@,
        ) ==> r,
        r ==> (header_text(headers@, "accept"@) matches Some(a) && contains_pattern(
            a,
            SSE_CONTENT_TYPE@,
        )) || (header_text(headers@, "content-type"@) matches Some(t) && contains_pattern(
            t,
            SSE_CONTENT_TYPE@,
        )),
{
    if let Some(accept) = get_header_text(headers, "accept") {
        if contains(accept.as_str(), SSE_CONTENT_TYPE) {
            return true;
        }
    }
    if let Some(content_type) = get_header_text(headers, "content-type") {
        if contains(content_type.as_str(), SSE_CONTENT_TYPE) {
            return true;
        }
    }
    false
}

/// Each of the two headers decides on its own: an `accept` header that mentions
/// `text/event-stream` makes the request an SSE request whatever its
/// `content-type` says, and so does such a `content-type` whatever `accept`
/// says; when neither mentions it (or neither is text), the request is not SSE.
pub proof fn law_sse_either_header_suffices(headers: Map<Seq<char>, Seq<char>>, a: Seq<char>, t: Seq<char>)
    ensures
        header_text(headers, "accept"@) == Some(a) && contains_pattern(a, SSE_CONTENT_TYPE@)
            ==> spec_is_sse_request(headers),
        header_text(headers, "content-type"@) == Some(t) && contains_pattern(t, SSE_CONTENT_TYPE@)
            ==> spec_is_sse_request(headers),
        spec_is_sse_request(headers) ==> (header_text(headers, "accept"@) matches Some(x)
            && contains_pattern(x, SSE_CONTENT_TYPE@)) || (header_text(headers, "content-type"@) matches Some(y)
            && contains_pattern(y, SSE_CONTENT_TYPE@)),
{
}

/// Sets the headers an SSE response needs: `text/event-stream`, `no-cache`
/// and `keep-alive`.
pub fn apply_sse_headers(headers: &mut StringMap)
    ensures
        final(headers)@ == old(headers)@.insert("content-type"@, SSE_CONTENT_TYPE@).insert(
            "cache-control"@,
            "no-cache"@,
        ).insert("connection"@, "keep-alive"@),
{
    headers.insert(String::from_str("content-type"), String::from_str(SSE_CONTENT_TYPE));
    headers.insert(String::from_str("cache-control"), String::from_str("no-cache"));
    headers.insert(String::from_str("connection"), String::from_str("keep-alive"));
}

/// The data field lines of an event: each line of `data` (lines end at `\n`)
/// behind its own `data: ` prefix, the lines separated by `\n`.
pub open spec fn sse_data_lines(data: Seq<char>) -> Seq<char> {
    join(split_on(data, '\n').map_values(|line: Seq<char>| "data: "@ + line), "\n"@)
}

/// Formats one Server-Sent Event block: `event: <name>`, then one `data: `
/// line for each line of `data`, then the blank line that ends the event. A
/// client reading the block receives `data` whole, line breaks included.
pub fn format_sse_event(event_name: &str, data: &str) -> (r: String)
    ensures
        r@ == "event: "@ + event_name@ + "\n"@ + sse_data_lines(data@) + "\n\n"@,
{
    let lines = split_char(data, '\n');
    let ghost pieces = split_on(data@, '\n');
    let mut prefixed: Vec<String> = Vec::new();
    let mut i: usize = 0;
    while i < lines.len()
        invariant
            i <= lines@.len(),
            lines@.len() == pieces.len(),
            forall|k: int| 0 <= k < lines@.len() ==> #[trigger] lines@[k]@ == pieces[k],
            prefixed@.len() == i,
            forall|k: int|
                0 <= k < i ==> #[trigger] prefixed@[k]@ == "data: "@ + pieces[k],
        decreases lines@.len() - i,
    {
        let mut line = String::from_str("data: ");
        line.append(lines[i].as_str());
        prefixed.push(line);
        i = i + 1;
    }
    assert(prefixed@.map_values(|v: String| v@) =~= pieces.map_values(
        |line: Seq<char>| "data: "@ + line,
    ));
    let body = join_strings(&prefixed, "\n");
    let mut r = String::from_str("event: ");
    r.append(event_name);
    r.append("\n");
    r.append(body.as_str());
    r.append("\n\n");
    r
}

} // verus!
