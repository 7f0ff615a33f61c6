//! Character-level text utilities with their mathematical meaning.

use vstd::prelude::*;

verus! {

/// `p` is a prefix of `s`.
pub open spec fn is_prefix(p: Seq<char>, s: Seq<char>) -> bool {
    p.len() <= s.len() && s.subrange(0, p.len() as int) == p
}

/// `p` occurs in `s` starting at index `i`.
pub open spec fn occurs_at(s: Seq<char>, p: Seq<char>, i: int) -> bool {
    0 <= i && i + p.len() <= s.len() && s.subrange(i, i + p.len()) == p
}

/// `p` occurs somewhere in `s`.
pub open spec fn contains_pattern(s: Seq<char>, p: Seq<char>) -> bool {
    exists|i: int| occurs_at(s, p, i)
}

/// Returns whether `prefix` is a prefix of `s`.
pub fn starts_with(s: &str, prefix: &str) -> (r: bool)
    ensures
        r == is_prefix(prefix@, s@),
{
    let n = s.unicode_len();
    let m = prefix.unicode_len();
    if m > n {
        return false;
    }
    let mut i: usize = 0;
    while i < m
        invariant
            n == s@.len(),
            m == prefix@.len(),
            m <= n,
            i <= m,
            forall|j: int| 0 <= j < i ==> s@[j] == prefix@[j],
        decreases m - i,
    {
        if s.get_char(i) != prefix.get_char(i) {
            assert(s@.subrange(0, m as int)[i as int] != prefix@[i as int]);
            return false;
        }
        i = i + 1;
    }
    assert(s@.subrange(0, m as int) =~= prefix@);
    true
}

/// Returns whether `pat` occurs in `s` at index `i`.
fn occurs_at_exec(s: &str, n: usize, pat: &str, m: usize, i: usize) -> (r: bool)
    requires
        n == s@.len(),
        m == pat@.len(),
        i + m <= n,
    ensures
        r == occurs_at(s@, pat@, i as int),
{
    let mut j: usize = 0;
    while j < m
        invariant
            n == s@.len(),
            m == pat@.len(),
            i + m <= n,
            j <= m,
            forall|k: int| 0 <= k < j ==> s@[i + k] == pat@[k],
        decreases m - j,
    {
        if s.get_char(i + j) != pat.get_char(j) {
            assert(s@.subrange(i as int, i + m)[j as int] != pat@[j as int]);
            return false;
        }
        j = j + 1;
    }
    assert(s@.subrange(i as int, i + m) =~= pat@);
    true
}

/// Returns whether `pat` occurs anywhere in `s`.
pub fn contains(s: &str, pat: &str) -> (r: bool)
    ensures
        r == contains_pattern(s@, pat@),
{
    let n = s.unicode_len();
    let m = pat.unicode_len();
    if m > n {
        assert forall|i: int| !occurs_at(s@, pat@, i) by {}
        return false;
    }
    if m == 0 {
        assert(s@.subrange(0, 0) =~= pat@);
        assert(occurs_at(s@, pat@, 0));
        return true;
    }
    let mut i: usize = 0;
    let last = n - m;
    while i <= last
        invariant
            n == s@.len(),
            m == pat@.len(),
            m <= n,
            m > 0,
            last == n - m,
            i <= last + 1,
            forall|k: int| 0 <= k < i ==> !occurs_at(s@, pat@, k),
        decreases last + 1 - i,
    {
        if occurs_at_exec(s, n, pat, m, i) {
            return true;
        }
        i = i + 1;
    }
    assert forall|k: int| !occurs_at(s@, pat@, k) by {
        if 0 <= k < i {
        }
    }
    false
}

} // verus!

verus! {

/// The decimal digit character for `d` (`0 <= d < 10`).
pub open spec fn decimal_digit(d: int) -> char {
    seq!['0', '1', '2', '3', '4', '5', '6', '7', '8', '9'][d]
}

/// The lowercase hexadecimal digit character for `d` (`0 <= d < 16`).
pub open spec fn hex_digit_lower(d: int) -> char {
    seq!['0', '1', '2', '3', '4', '5', '6', '7', '8', '9', 'a', 'b', 'c', 'd', 'e', 'f'][d]
}

/// The shortest decimal rendering of `n`, as `u64::to_string` prints it.
pub open spec fn decimal(n: nat) -> Seq<char>
    decreases n,
{
    if n < 10 {
        seq![decimal_digit(n as int)]
    } else {
        decimal(n / 10).push(decimal_digit((n % 10) as int))
    }
}

/// The two-digit lowercase hexadecimal rendering of a byte, as `{:02x}` prints it.
pub open spec fn hex2(b: u8) -> Seq<char> {
    seq![hex_digit_lower((b / 16) as int), hex_digit_lower((b % 16) as int)]
}

/// Value of a hexadecimal digit in either case, as `char::to_digit(16)` reads it.
pub open spec fn hex_digit_value(c: char) -> Option<int> {
    if '0' <= c && c <= '9' {
        Some(c as int - '0' as int)
    } else if 'a' <= c && c <= 'f' {
        Some(c as int - 'a' as int + 10)
    } else if 'A' <= c && c <= 'F' {
        Some(c as int - 'A' as int + 10)
    } else {
        None
    }
}

/// Value of a string of hexadecimal digits (most significant first); `None` if a
/// character is not a hexadecimal digit.
pub open spec fn hex_value(s: Seq<char>) -> Option<int>
    decreases s.len(),
{
    if s.len() == 0 {
        Some(0)
    } else {
        match (hex_value(s.drop_last()), hex_digit_value(s.last())) {
            (Some(v), Some(d)) => Some(v * 16 + d),
            _ => None,
        }
    }
}

/// What `u8::from_str_radix(s, 16)` accepts and returns: an optional `+`,
/// then at least one hexadecimal digit, with a value of at most 255.
pub open spec fn parse_hex_u8(s: Seq<char>) -> Option<u8> {
    let digits = if s.len() > 0 && s[0] == '+' {
        s.drop_first()
    } else {
        s
    };
    if digits.len() == 0 {
        None
    } else {
        match hex_value(digits) {
            Some(v) => if v <= 255 {
                Some(v as u8)
            } else {
                None
            },
            None => None,
        }
    }
}

/// The pieces of `s` between occurrences of `sep`, as `str::split(sep)` yields them.
pub open spec fn split_on(s: Seq<char>, sep: char) -> Seq<Seq<char>>
    decreases s.len(),
{
    if s.len() == 0 {
        seq![Seq::<char>::empty()]
    } else {
        let init = split_on(s.drop_last(), sep);
        if s.last() == sep {
            init.push(Seq::<char>::empty())
        } else {
            init.update(init.len() - 1, init.last().push(s.last()))
        }
    }
}

/// The pieces of `list` joined with `sep` between them, as `[String]::join` builds it.
pub open spec fn join(list: Seq<Seq<char>>, sep: Seq<char>) -> Seq<char>
    decreases list.len(),
{
    if list.len() == 0 {
        Seq::<char>::empty()
    } else if list.len() == 1 {
        list[0]
    } else {
        join(list.drop_last(), sep) + sep + list.last()
    }
}

/// `c` is a lowercase hexadecimal digit.
pub open spec fn is_lower_hex_char(c: char) -> bool {
    ('0' <= c && c <= '9') || ('a' <= c && c <= 'f')
}

/// `s` has no occurrence of `c`.
pub open spec fn lacks_char(s: Seq<char>, c: char) -> bool {
    forall|i: int| 0 <= i < s.len() ==> s[i] != c
}

proof fn lemma_split_never_empty(s: Seq<char>, sep: char)
    ensures
        split_on(s, sep).len() >= 1,
    decreases s.len(),
{
    if s.len() > 0 {
        lemma_split_never_empty(s.drop_last(), sep);
    }
}

/// The single-character string holding decimal digit `d`.
fn decimal_digit_str(d: u64) -> (r: &'static str)
    requires
        d < 10,
    ensures
        r@ == seq![decimal_digit(d as int)],
{
    let digits = "0123456789";
    proof {
        reveal_strlit("0123456789");
    }
    let r = digits.substring_char(d as usize, (d + 1) as usize);
    assert(r@ =~= seq![decimal_digit(d as int)]);
    r
}

/// The single-character string holding lowercase hexadecimal digit `d`.
fn hex_digit_str(d: u8) -> (r: &'static str)
    requires
        d < 16,
    ensures
        r@ == seq![hex_digit_lower(d as int)],
{
    let digits = "0123456789abcdef";
    proof {
        reveal_strlit("0123456789abcdef");
    }
    let r = digits.substring_char(d as usize, (d + 1) as usize);
    assert(r@ =~= seq![hex_digit_lower(d as int)]);
    r
}

/// `v` as a `u64`, or `u64::MAX` when it does not fit, as
/// `u64::try_from(v).unwrap_or(u64::MAX)` gives it.
pub fn saturating_u64(v: u128) -> (r: u64)
    ensures
        r == (if v > u64::MAX as u128 {
            u64::MAX
        } else {
            v as u64
        }),
{
    if v > u64::MAX as u128 {
        u64::MAX
    } else {
        v as u64
    }
}

/// Renders `n` in decimal, as `n.to_string()` does.
pub fn u128_to_decimal(n: u128) -> (r: String)
    ensures
        r@ == decimal(n as nat),
    decreases n,
{
    if n < 10 {
        String::from_str(decimal_digit_str(n as u64))
    } else {
        let mut r = u128_to_decimal(n / 10);
        r.append(decimal_digit_str((n % 10) as u64));
        r
    }
}

/// Renders `n` in decimal, as `n.to_string()` does.
pub fn u64_to_decimal(n: u64) -> (r: String)
    ensures
        r@ == decimal(n as nat),
{
    u128_to_decimal(n as u128)
}

/// Renders a byte as two lowercase hexadecimal digits, as `format!("{:02x}", b)` does.
pub fn u8_to_hex2(b: u8) -> (r: String)
    ensures
        r@ == hex2(b),
{
    let mut r = String::from_str(hex_digit_str(b / 16));
    r.append(hex_digit_str(b % 16));
    r
}

fn hex_digit_value_exec(c: char) -> (r: Option<u32>)
    ensures
        match hex_digit_value(c) {
            Some(d) => r == Some(d as u32),
            None => r is None,
        },
        r matches Some(d) ==> d < 16,
{
    if '0' <= c && c <= '9' {
        Some((c as u32) - ('0' as u32))
    } else if 'a' <= c && c <= 'f' {
        Some((c as u32) - ('a' as u32) + 10)
    } else if 'A' <= c && c <= 'F' {
        Some((c as u32) - ('A' as u32) + 10)
    } else {
        None
    }
}

proof fn lemma_hex_value_nonneg(s: Seq<char>)
    ensures
        hex_value(s) matches Some(v) ==> v >= 0,
    decreases s.len(),
{
    if s.len() > 0 {
        lemma_hex_value_nonneg(s.drop_last());
    }
}

/// Extending a digit string never lowers its value.
proof fn lemma_hex_value_grows(s: Seq<char>, k: int)
    requires
        0 <= k <= s.len(),
    ensures
        hex_value(s.take(k)) matches Some(v) ==> (hex_value(s) matches Some(w) ==> v <= w),
    decreases s.len() - k,
{
    if k < s.len() {
        lemma_hex_value_grows(s, k + 1);
        assert(s.take(k + 1).drop_last() =~= s.take(k));
        lemma_hex_value_nonneg(s.take(k));
        if hex_value(s.take(k + 1)) is None {
            lemma_hex_prefix_none(s, k + 1);
        }
    } else {
        assert(s.take(k) =~= s);
    }
}

/// Parses a byte from hexadecimal text, as `u8::from_str_radix(s, 16).ok()` does.
pub fn parse_hex_u8_exec(s: &str) -> (r: Option<u8>)
    ensures
        r == parse_hex_u8(s@),
{
    let n = s.unicode_len();
    let start: usize = if n > 0 && s.get_char(0) == '+' {
        1
    } else {
        0
    };
    let ghost digits = if s@.len() > 0 && s@[0] == '+' {
        s@.drop_first()
    } else {
        s@
    };
    assert(digits =~= s@.subrange(start as int, n as int));
    if start == n {
        return None;
    }
    let mut acc: u32 = 0;
    let mut i: usize = start;
    assert(digits.take(0) =~= Seq::<char>::empty());
    while i < n
        invariant
            n == s@.len(),
            start <= i <= n,
            digits =~= s@.subrange(start as int, n as int),
            digits == (if s@.len() > 0 && s@[0] == '+' {
                s@.drop_first()
            } else {
                s@
            }),
            digits.len() > 0,
            hex_value(digits.take(i - start)) == Some(acc as int),
            acc <= 255,
        decreases n - i,
    {
        let c = s.get_char(i);
        assert(digits.take(i - start + 1).drop_last() =~= digits.take(i - start));
        assert(digits.take(i - start + 1).last() == c);
        match hex_digit_value_exec(c) {
            None => {
                proof {
                    assert(hex_value(digits.take(i - start + 1)) is None);
                    lemma_hex_prefix_none(digits, i - start + 1);
                }
                return None;
            },
            Some(d) => {
                acc = acc * 16 + d;
                if acc > 255 {
                    proof {
                        assert(hex_value(digits.take(i - start + 1)) == Some(acc as int));
                        lemma_hex_value_grows(digits, i - start + 1);
                    }
                    return None;
                }
            },
        }
        i = i + 1;
    }
    assert(digits.take(n - start) =~= digits);
    Some(acc as u8)
}

/// A digit string with a bad prefix has no value.
proof fn lemma_hex_prefix_none(s: Seq<char>, k: int)
    requires
        0 <= k <= s.len(),
        hex_value(s.take(k)) is None,
    ensures
        hex_value(s) is None,
    decreases s.len() - k,
{
    if k < s.len() {
        assert(s.take(k + 1).drop_last() =~= s.take(k));
        lemma_hex_prefix_none(s, k + 1);
    } else {
        assert(s.take(k) =~= s);
    }
}

/// Splits `s` at every `sep`, as `s.split(sep).map(String::from).collect()` does.
pub fn split_char(s: &str, sep: char) -> (r: Vec<String>)
    ensures
        r@.len() == split_on(s@, sep).len(),
        forall|i: int| 0 <= i < r@.len() ==> #[trigger] r@[i]@ == split_on(s@, sep)[i],
{
    let n = s.unicode_len();
    let mut pieces: Vec<String> = Vec::new();
    let mut start: usize = 0;
    let mut i: usize = 0;
    assert(s@.take(0) =~= Seq::<char>::empty());
    while i < n
        invariant
            n == s@.len(),
            start <= i <= n,
            split_on(s@.take(i as int), sep).len() == pieces@.len() + 1,
            forall|k: int|
                0 <= k < pieces@.len() ==> #[trigger] pieces@[k]@ == split_on(
                    s@.take(i as int),
                    sep,
                )[k],
            split_on(s@.take(i as int), sep).last() == s@.subrange(start as int, i as int),
        decreases n - i,
    {
        let c = s.get_char(i);
        let ghost prev = s@.take(i as int);
        assert(s@.take(i + 1).drop_last() =~= prev);
        assert(s@.take(i + 1).last() == c);
        if c == sep {
            let piece = s.substring_char(start, i);
            pieces.push(String::from_str(piece));
            start = i + 1;
            assert(s@.subrange(start as int, (i + 1) as int) =~= Seq::<char>::empty());
        } else {
            assert(s@.subrange(start as int, (i + 1) as int) =~= s@.subrange(
                start as int,
                i as int,
            ).push(c));
        }
        i = i + 1;
    }
    let last = s.substring_char(start, n);
    pieces.push(String::from_str(last));
    assert(s@.take(n as int) =~= s@);
    proof {
        lemma_split_never_empty(s@, sep);
    }
    pieces
}

/// Joins `list` with `sep` between the pieces, as `list.join(sep)` does.
pub fn join_strings(list: &Vec<String>, sep: &str) -> (r: String)
    ensures
        r@ == join(list@.map_values(|v: String| v@), sep@),
{
    let ghost views = list@.map_values(|v: String| v@);
    let mut r = String::new();
    let mut i: usize = 0;
    assert(views.take(0) =~= Seq::<Seq<char>>::empty());
    while i < list.len()
        invariant
            i <= list@.len(),
            views == list@.map_values(|v: String| v@),
            r@ == join(views.take(i as int), sep@),
        decreases list@.len() - i,
    {
        assert(views.take(i + 1).drop_last() =~= views.take(i as int));
        if i != 0 {
            r.append(sep);
        } else {
            assert(r@ =~= Seq::<char>::empty());
        }
        r.append(list[i].as_str());
        i = i + 1;
    }
    assert(views.take(list@.len() as int) =~= views);
    r
}

} // verus!

verus! {

/// Returns whether two strings are equal.
pub fn str_eq(a: &str, b: &str) -> (r: bool)
    ensures
        r == (a@ == b@),
{
    if a.unicode_len() != b.unicode_len() {
        return false;
    }
    let r = starts_with(a, b);
    proof {
        if r {
            assert(a@ =~= b@);
        }
        if a@ == b@ {
            assert(a@.subrange(0, b@.len() as int) =~= a@);
        }
    }
    r
}

} // verus!

verus! {

/// Appending text without the separator extends the last piece.
pub proof fn lemma_split_extend(x: Seq<char>, y: Seq<char>, sep: char)
    requires
        lacks_char(y, sep),
    ensures
        split_on(x + y, sep) == split_on(x, sep).update(
            split_on(x, sep).len() - 1,
            split_on(x, sep).last() + y,
        ),
        split_on(x, sep).len() >= 1,
    decreases y.len(),
{
    lemma_split_never_empty(x, sep);
    if y.len() == 0 {
        assert(x + y =~= x);
        assert(split_on(x, sep).last() + y =~= split_on(x, sep).last());
        assert(split_on(x, sep).update(split_on(x, sep).len() - 1, split_on(x, sep).last())
            =~= split_on(x, sep));
    } else {
        let y0 = y.drop_last();
        assert(lacks_char(y0, sep)) by {
            assert forall|i: int| 0 <= i < y0.len() implies y0[i] != sep by {
                assert(y0[i] == y[i]);
            }
        }
        lemma_split_extend(x, y0, sep);
        assert((x + y).drop_last() =~= x + y0);
        assert((x + y).last() == y.last());
        assert(y.last() != sep);
        let px = split_on(x, sep);
        assert((px.last() + y0).push(y.last()) =~= px.last() + y);
        assert(split_on(x + y, sep) =~= px.update(px.len() - 1, px.last() + y));
    }
}

/// A separator followed by separator-free text starts a new, final piece.
pub proof fn lemma_split_sep_then(x: Seq<char>, y: Seq<char>, sep: char)
    requires
        lacks_char(y, sep),
    ensures
        split_on(x + seq![sep] + y, sep) == split_on(x, sep).push(y),
{
    let xs = x + seq![sep];
    assert(xs.drop_last() =~= x);
    assert(xs.last() == sep);
    lemma_split_extend(xs, y, sep);
    let p = split_on(x, sep).push(Seq::<char>::empty());
    assert(Seq::<char>::empty() + y =~= y);
    assert(p.update(p.len() - 1, y) =~= split_on(x, sep).push(y));
}

/// Separator-free text is a single piece.
pub proof fn lemma_split_single(y: Seq<char>, sep: char)
    requires
        lacks_char(y, sep),
    ensures
        split_on(y, sep) == seq![y],
{
    lemma_split_extend(Seq::<char>::empty(), y, sep);
    assert(Seq::<char>::empty() + y =~= y);
    assert(Seq::<char>::empty() + y =~= y);
    assert(seq![Seq::<char>::empty()].update(0, y) =~= seq![y]);
}

/// A lowercase hexadecimal digit reads back as its value.
pub proof fn lemma_hex_digit_roundtrip(d: int)
    requires
        0 <= d < 16,
    ensures
        hex_digit_value(hex_digit_lower(d)) == Some(d),
        is_lower_hex_char(hex_digit_lower(d)),
{
    let s = seq!['0', '1', '2', '3', '4', '5', '6', '7', '8', '9', 'a', 'b', 'c', 'd', 'e', 'f'];
    assert(hex_digit_lower(d) == s[d]);
    if d == 0 { assert(s[d] == '0'); }
    else if d == 1 { assert(s[d] == '1'); }
    else if d == 2 { assert(s[d] == '2'); }
    else if d == 3 { assert(s[d] == '3'); }
    else if d == 4 { assert(s[d] == '4'); }
    else if d == 5 { assert(s[d] == '5'); }
    else if d == 6 { assert(s[d] == '6'); }
    else if d == 7 { assert(s[d] == '7'); }
    else if d == 8 { assert(s[d] == '8'); }
    else if d == 9 { assert(s[d] == '9'); }
    else if d == 10 { assert(s[d] == 'a'); }
    else if d == 11 { assert(s[d] == 'b'); }
    else if d == 12 { assert(s[d] == 'c'); }
    else if d == 13 { assert(s[d] == 'd'); }
    else if d == 14 { assert(s[d] == 'e'); }
    else { assert(s[d] == 'f'); }
}

/// Two-digit hexadecimal text reads back as the byte it was made from.
pub proof fn lemma_hex2_roundtrip(b: u8)
    ensures
        parse_hex_u8(hex2(b)) == Some(b),
        forall|i: int| 0 <= i < hex2(b).len() ==> is_lower_hex_char(#[trigger] hex2(b)[i]),
{
    let h = hex2(b);
    lemma_hex_digit_roundtrip((b / 16) as int);
    lemma_hex_digit_roundtrip((b % 16) as int);
    assert(h.drop_last() =~= seq![h[0]]);
    assert(seq![h[0]].drop_last() =~= Seq::<char>::empty());
    assert(h[0] != '+');
    assert(seq![h[0]].last() == h[0]);
    assert(hex_value(Seq::<char>::empty()) == Some(0int));
    assert(hex_value(seq![h[0]]) == Some((b / 16) as int));
    assert(hex_value(h) == Some((b / 16) * 16 + (b % 16)));
}

/// Lowercase hexadecimal text has no `c` unless `c` is a hexadecimal digit.
pub proof fn lemma_lower_hex_lacks(s: Seq<char>, c: char)
    requires
        forall|i: int| 0 <= i < s.len() ==> is_lower_hex_char(#[trigger] s[i]),
        !is_lower_hex_char(c),
    ensures
        lacks_char(s, c),
{
}

} // verus!
