//! HTTP header rules: which header values are text, which are acceptable, and
//! header lookup on a [`StringMap`] of lowercase header names.

use crate::strmap::StringMap;
use vstd::prelude::*;

verus! {

/// A character that `HeaderValue::to_str` accepts: visible ASCII or a tab.
pub open spec fn is_visible_header_char(c: char) -> bool {
    c == '\t' || (' ' <= c && c <= '~')
}

/// A character that `HeaderValue::from_str` accepts: a tab, or any character
/// from the space upwards except DEL.
pub open spec fn is_header_value_char(c: char) -> bool {
    c == '\t' || (' ' <= c && c != '\x7f')
}

/// Every character of `s` satisfies `is_visible_header_char`.
pub open spec fn is_visible_header_text(s: Seq<char>) -> bool {
    forall|i: int| 0 <= i < s.len() ==> is_visible_header_char(#[trigger] s[i])
}

/// `HeaderValue::from_str(s)` succeeds.
pub open spec fn is_valid_header_value(s: Seq<char>) -> bool {
    forall|i: int| 0 <= i < s.len() ==> is_header_value_char(#[trigger] s[i])
}

/// The text of header `name`, as `headers.get(name).and_then(|v| v.to_str().ok())`
/// gives it.
pub open spec fn header_text(headers: Map<Seq<char>, Seq<char>>, name: Seq<char>) -> Option<
    Seq<char>,
> {
    if headers.dom().contains(name) && is_visible_header_text(headers[name]) {
        Some(headers[name])
    } else {
        None
    }
}

/// Returns whether every character of `s` is visible ASCII or a tab.
pub fn visible_header_text(s: &str) -> (r: bool)
    ensures
        r == is_visible_header_text(s@),
{
    let n = s.unicode_len();
    let mut i: usize = 0;
    while i < n
        invariant
            n == s@.len(),
            i <= n,
            forall|j: int| 0 <= j < i ==> is_visible_header_char(#[trigger] s@[j]),
        decreases n - i,
    {
        let c = s.get_char(i);
        if !(c == '\t' || (' ' <= c && c <= '~')) {
            return false;
        }
        i = i + 1;
    }
    true
}

/// Returns whether `HeaderValue::from_str(s)` would accept `s`.
pub fn valid_header_value(s: &str) -> (r: bool)
    ensures
        r == is_valid_header_value(s@),
{
    let n = s.unicode_len();
    let mut i: usize = 0;
    while i < n
        invariant
            n == s@.len(),
            i <= n,
            forall|j: int| 0 <= j < i ==> is_header_value_char(#[trigger] s@[j]),
        decreases n - i,
    {
        let c = s.get_char(i);
        if !(c == '\t' || (' ' <= c && c != '\x7f')) {
            return false;
        }
        i = i + 1;
    }
    true
}

/// The text of header `name`, if present and made of visible characters.
pub fn get_header_text<'a>(headers: &'a StringMap, name: &str) -> (r: Option<&'a String>)
    ensures
        match header_text(headers@, name@) {
            Some(t) => r matches Some(v) && v@ == t,
            None => r is None,
        },
{
    match headers.get(name) {
        Some(v) => {
            if visible_header_text(v.as_str()) {
                Some(v)
            } else {
                None
            }
        },
        None => None,
    }
}

} // verus!
