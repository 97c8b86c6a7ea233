use vstd::prelude::*;
use vstd::arithmetic::div_mod::{
    lemma_div_denominator, lemma_fundamental_div_mod, lemma_mod_breakdown,
};
use vstd::slice::slice_subrange;

verus! {

// The encoder reports times as `HH:MM:SS` with an optional fractional part of
// varying precision, e.g. `00:01:30.50`.  Lines are handled as raw bytes:
// the diagnostic stream is not guaranteed to be valid UTF-8, and a line that
// does not match the expected shape is ignored, never fatal.
//
// Byte values used below: '0' = 48, '9' = 57, ':' = 58, '.' = 46,
// ' ' = 32, ',' = 44, CR = 13.

/// Whether `b` is an ASCII decimal digit.
pub open spec fn is_digit(b: u8) -> bool {
    48 <= b && b <= 57
}

/// The value of the digit at position `i`.
pub open spec fn digit(s: Seq<u8>, i: int) -> nat {
    (s[i] - 48) as nat
}

/// The value of the two-digit field starting at position `i`.
pub open spec fn two_digits(s: Seq<u8>, i: int) -> nat {
    10 * digit(s, i) + digit(s, i + 1)
}

/// A well-formed timestamp: `HH:MM:SS`, optionally followed by `.` and at
/// least one fractional digit, with minutes and seconds below 60.
pub open spec fn spec_timestamp_wf(s: Seq<u8>) -> bool {
    &&& s.len() >= 8
    &&& is_digit(s[0]) && is_digit(s[1]) && s[2] == 58
    &&& is_digit(s[3]) && is_digit(s[4]) && s[5] == 58
    &&& is_digit(s[6]) && is_digit(s[7])
    &&& two_digits(s, 3) < 60
    &&& two_digits(s, 6) < 60
    &&& (s.len() == 8 || (s.len() >= 10 && s[8] == 46 && (forall|i: int|
        9 <= i < s.len() ==> is_digit(#[trigger] s[i]))))
}

/// The milliseconds contributed by the fractional part, truncated to
/// millisecond precision whatever precision the encoder chose.
pub open spec fn spec_frac_millis(s: Seq<u8>) -> nat {
    if s.len() == 8 {
        0
    } else if s.len() == 10 {
        100 * digit(s, 9)
    } else if s.len() == 11 {
        100 * digit(s, 9) + 10 * digit(s, 10)
    } else {
        100 * digit(s, 9) + 10 * digit(s, 10) + digit(s, 11)
    }
}

/// The value, in milliseconds, of a well-formed timestamp.
pub open spec fn spec_timestamp_millis(s: Seq<u8>) -> nat {
    3600000 * two_digits(s, 0) + 60000 * two_digits(s, 3) + 1000 * two_digits(s, 6)
        + spec_frac_millis(s)
}

/// What parsing a timestamp yields: its millisecond value when well formed,
/// nothing otherwise.
pub open spec fn spec_parse_timestamp(s: Seq<u8>) -> Option<u64> {
    if spec_timestamp_wf(s) {
        Some(spec_timestamp_millis(s) as u64)
    } else {
        None
    }
}

/// Whether `b` is an ASCII decimal digit.
pub fn is_digit_byte(b: u8) -> (r: bool)
    ensures
        r == is_digit(b),
{
    48 <= b && b <= 57
}

/// Parses an `HH:MM:SS(.f+)?` timestamp into milliseconds.
///
/// Returns the millisecond value exactly when the whole slice is a
/// well-formed timestamp; a malformed slice yields `None`, never a panic.
pub fn parse_timestamp(s: &[u8]) -> (r: Option<u64>)
    ensures
        r == spec_parse_timestamp(s@),
        r matches Some(v) ==> v < 360000000,
{
    proof {
        lemma_parse_timestamp_bound(s@);
    }
    let n = s.len();
    if n < 8 {
        return None;
    }
    if !(is_digit_byte(s[0]) && is_digit_byte(s[1]) && s[2] == 58 && is_digit_byte(s[3])
        && is_digit_byte(s[4]) && s[5] == 58 && is_digit_byte(s[6]) && is_digit_byte(s[7])) {
        return None;
    }
    let hh: u64 = 10 * ((s[0] - 48) as u64) + ((s[1] - 48) as u64);
    let mm: u64 = 10 * ((s[3] - 48) as u64) + ((s[4] - 48) as u64);
    let ss: u64 = 10 * ((s[6] - 48) as u64) + ((s[7] - 48) as u64);
    if mm >= 60 || ss >= 60 {
        return None;
    }
    let mut frac: u64 = 0;
    if n > 8 {
        if n < 10 || s[8] != 46 {
            return None;
        }
        let mut i: usize = 9;
        while i < n
            invariant
                9 <= i <= n,
                n == s@.len(),
                forall|j: int| 9 <= j < i ==> is_digit(#[trigger] s@[j]),
            decreases n - i,
        {
            if !is_digit_byte(s[i]) {
                return None;
            }
            i += 1;
        }
        if n == 10 {
            frac = 100 * ((s[9] - 48) as u64);
        } else if n == 11 {
            frac = 100 * ((s[9] - 48) as u64) + 10 * ((s[10] - 48) as u64);
        } else {
            frac = 100 * ((s[9] - 48) as u64) + 10 * ((s[10] - 48) as u64)
                + ((s[11] - 48) as u64);
        }
    }
    Some(3600000 * hh + 60000 * mm + 1000 * ss + frac)
}

/// Whether `pat` occurs in `s` starting at position `i`.
pub open spec fn matches_at(s: Seq<u8>, pat: Seq<u8>, i: int) -> bool {
    0 <= i && i + pat.len() <= s.len() && s.subrange(i, i + pat.len() as int) == pat
}

/// The first occurrence of `pat` in `s` at or after position `i`.
pub open spec fn spec_find_from(s: Seq<u8>, pat: Seq<u8>, i: int) -> Option<int>
    decreases s.len() - i when 0 <= i <= s.len()
{
    if pat.len() == 0 {
        Some(i)
    } else if i + pat.len() > s.len() {
        None
    } else if matches_at(s, pat, i) {
        Some(i)
    } else {
        spec_find_from(s, pat, i + 1)
    }
}

/// The first occurrence of `pat` in `s`.
pub open spec fn spec_find(s: Seq<u8>, pat: Seq<u8>) -> Option<int> {
    spec_find_from(s, pat, 0)
}

/// A found position is a real match, at or after where the search began.
pub proof fn lemma_find_from_some(s: Seq<u8>, pat: Seq<u8>, i: int, j: int)
    requires
        0 <= i <= s.len(),
        spec_find_from(s, pat, i) == Some(j),
    ensures
        i <= j,
        matches_at(s, pat, j),
    decreases s.len() - i,
{
    if pat.len() == 0 {
        assert(s.subrange(j, j + pat.len()) =~= pat);
    } else if i + pat.len() > s.len() {
    } else if matches_at(s, pat, i) {
    } else {
        lemma_find_from_some(s, pat, i + 1, j);
    }
}

/// Whether `pat` occurs at position `i`, by direct comparison.
fn eq_at(s: &[u8], pat: &[u8], i: usize) -> (r: bool)
    requires
        i + pat@.len() <= s@.len(),
    ensures
        r == matches_at(s@, pat@, i as int),
{
    let n = s.len();
    let m = pat.len();
    let mut j: usize = 0;
    while j < m
        invariant
            j <= m,
            n == s@.len(),
            m == pat@.len(),
            i + m <= n,
            forall|k: int| 0 <= k < j ==> s@[i + k] == pat@[k],
        decreases m - j,
    {
        if s[i + j] != pat[j] {
            proof {
                assert(s@.subrange(i as int, i + pat@.len())[j as int] != pat@[j as int]);
            }
            return false;
        }
        j += 1;
    }
    proof {
        assert(s@.subrange(i as int, i + pat@.len()) =~= pat@);
    }
    true
}

/// Finds the first occurrence of `pat` in `s`.
pub fn find_subslice(s: &[u8], pat: &[u8]) -> (r: Option<usize>)
    ensures
        match r {
            Some(i) => spec_find(s@, pat@) == Some(i as int),
            None => spec_find(s@, pat@) is None,
        },
{
    let n = s.len();
    let m = pat.len();
    if m > n {
        return None;
    }
    if m == 0 {
        proof {
            assert(s@.subrange(0, 0) =~= pat@);
        }
        return Some(0);
    }
    let mut i: usize = 0;
    while i <= n - m
        invariant
            1 <= m <= n,
            n == s@.len(),
            m == pat@.len(),
            i <= n - m + 1,
            spec_find(s@, pat@) == spec_find_from(s@, pat@, i as int),
        decreases n - m + 1 - i,
    {
        if eq_at(s, pat, i) {
            return Some(i);
        }
        i += 1;
    }
    None
}

/// Whether `b` ends a value token on an encoder output line.
pub open spec fn is_token_delim(b: u8) -> bool {
    b == 32 || b == 44 || b == 13
}

/// The end of the value token that starts at position `i`: the first
/// delimiter at or after `i`, or the end of the line.
pub open spec fn spec_token_end(s: Seq<u8>, i: int) -> int
    decreases s.len() - i when 0 <= i <= s.len()
{
    if i >= s.len() {
        i
    } else if is_token_delim(s[i]) {
        i
    } else {
        spec_token_end(s, i + 1)
    }
}

/// Scans forward from `start` to the end of the current value token.
pub fn token_end(s: &[u8], start: usize) -> (r: usize)
    requires
        start <= s@.len(),
    ensures
        r as int == spec_token_end(s@, start as int),
        start <= r <= s@.len(),
{
    let n = s.len();
    let mut i: usize = start;
    while i < n && !(s[i] == 32 || s[i] == 44 || s[i] == 13)
        invariant
            start <= i <= n,
            n == s@.len(),
            spec_token_end(s@, start as int) == spec_token_end(s@, i as int),
        decreases n - i,
    {
        i += 1;
    }
    i
}

/// The tag that introduces the total media duration on a metadata line.
pub open spec fn duration_tag() -> Seq<u8> {
    // "Duration: "
    seq![68u8, 117u8, 114u8, 97u8, 116u8, 105u8, 111u8, 110u8, 58u8, 32u8]
}

/// The tag that introduces the elapsed-time field on a progress line.
pub open spec fn progress_tag() -> Seq<u8> {
    // "time="
    seq![116u8, 105u8, 109u8, 101u8, 61u8]
}

/// The duration tag as bytes.
fn duration_tag_bytes() -> (r: Vec<u8>)
    ensures
        r@ == duration_tag(),
{
    let mut v: Vec<u8> = Vec::new();
    v.push(68u8);
    v.push(117u8);
    v.push(114u8);
    v.push(97u8);
    v.push(116u8);
    v.push(105u8);
    v.push(111u8);
    v.push(110u8);
    v.push(58u8);
    v.push(32u8);
    proof {
        assert(v@ =~= duration_tag());
    }
    v
}

/// The progress tag as bytes.
fn progress_tag_bytes() -> (r: Vec<u8>)
    ensures
        r@ == progress_tag(),
{
    let mut v: Vec<u8> = Vec::new();
    v.push(116u8);
    v.push(105u8);
    v.push(109u8);
    v.push(101u8);
    v.push(61u8);
    proof {
        assert(v@ =~= progress_tag());
    }
    v
}

/// The millisecond value of the timestamp token that follows the first
/// occurrence of `tag` on `line`, if the tag occurs and the token parses.
pub open spec fn spec_tagged_timestamp(line: Seq<u8>, tag: Seq<u8>) -> Option<u64> {
    match spec_find(line, tag) {
        None => None,
        Some(i) => {
            let start = i + tag.len();
            let end = spec_token_end(line, start);
            spec_parse_timestamp(line.subrange(start, end))
        },
    }
}

/// The total media duration announced by `line`, if any.
pub open spec fn spec_duration_of_line(line: Seq<u8>) -> Option<u64> {
    spec_tagged_timestamp(line, duration_tag())
}

/// The elapsed encoding time reported by `line`, if any.
pub open spec fn spec_progress_of_line(line: Seq<u8>) -> Option<u64> {
    spec_tagged_timestamp(line, progress_tag())
}

/// Extracts the timestamp that follows the first occurrence of `tag`.
fn parse_tagged_timestamp(line: &[u8], tag: &Vec<u8>) -> (r: Option<u64>)
    ensures
        r == spec_tagged_timestamp(line@, tag@),
        r matches Some(v) ==> v < 360000000,
{
    proof {
        lemma_tagged_timestamp_bound(line@, tag@);
    }
    match find_subslice(line, tag.as_slice()) {
        None => None,
        Some(i) => {
            proof {
                lemma_find_from_some(line@, tag@, 0, i as int);
            }
            // The line's length bounds the sum below within usize.
            let _line_len = line.len();
            let start = i + tag.len();
            let end = token_end(line, start);
            parse_timestamp(slice_subrange(line, start, end))
        },
    }
}

/// Reads the total media duration off one diagnostic line.
///
/// A line without the duration tag, or whose value token is not a
/// well-formed timestamp, yields `None` and is to be ignored.
pub fn parse_duration_line(line: &[u8]) -> (r: Option<u64>)
    ensures
        r == spec_duration_of_line(line@),
        r matches Some(v) ==> v < 360000000,
{
    let tag = duration_tag_bytes();
    parse_tagged_timestamp(line, &tag)
}

/// Reads the elapsed encoding time off one progress line.
///
/// A line without the progress tag, or whose value token is not a
/// well-formed timestamp, yields `None` and is to be ignored.
pub fn parse_progress_line(line: &[u8]) -> (r: Option<u64>)
    ensures
        r == spec_progress_of_line(line@),
        r matches Some(v) ==> v < 360000000,
{
    let tag = progress_tag_bytes();
    parse_tagged_timestamp(line, &tag)
}

/// The byte of the decimal digit `d % 10`.
pub open spec fn spec_digit_byte(d: nat) -> u8 {
    (48 + (d % 10)) as u8
}

/// A duration rendered as `HH:MM:SS.mmm`.
pub open spec fn spec_format_timestamp(ms: nat) -> Seq<u8> {
    let h = ms / 3600000;
    let m = (ms / 60000) % 60;
    let s = (ms / 1000) % 60;
    let f = ms % 1000;
    seq![
        spec_digit_byte(h / 10),
        spec_digit_byte(h),
        58u8,
        spec_digit_byte(m / 10),
        spec_digit_byte(m),
        58u8,
        spec_digit_byte(s / 10),
        spec_digit_byte(s),
        46u8,
        spec_digit_byte(f / 100),
        spec_digit_byte(f / 10),
        spec_digit_byte(f),
    ]
}

/// The byte of the decimal digit `d % 10`.
fn digit_byte(d: u64) -> (r: u8)
    ensures
        r == spec_digit_byte(d as nat),
{
    48 + ((d % 10) as u8)
}

/// Renders a duration below 100 hours as `HH:MM:SS.mmm`.
pub fn format_timestamp(ms: u64) -> (r: Vec<u8>)
    requires
        ms < 360000000,
    ensures
        r@ == spec_format_timestamp(ms as nat),
{
    let h: u64 = ms / 3600000;
    let m: u64 = (ms / 60000) % 60;
    let s: u64 = (ms / 1000) % 60;
    let f: u64 = ms % 1000;
    let mut v: Vec<u8> = Vec::new();
    v.push(digit_byte(h / 10));
    v.push(digit_byte(h));
    v.push(58u8);
    v.push(digit_byte(m / 10));
    v.push(digit_byte(m));
    v.push(58u8);
    v.push(digit_byte(s / 10));
    v.push(digit_byte(s));
    v.push(46u8);
    v.push(digit_byte(f / 100));
    v.push(digit_byte(f / 10));
    v.push(digit_byte(f));
    proof {
        assert(v@ =~= spec_format_timestamp(ms as nat));
    }
    v
}

/// Every parsed timestamp is below 100 hours in milliseconds: the hour
/// field has two digits, so the renderer accepts every duration the
/// parser can produce.
pub proof fn lemma_parse_timestamp_bound(s: Seq<u8>)
    ensures
        spec_parse_timestamp(s) matches Some(v) ==> v < 360000000,
{
    if spec_timestamp_wf(s) {
        assert(two_digits(s, 0) <= 99);
        assert(two_digits(s, 3) <= 59);
        assert(two_digits(s, 6) <= 59);
        assert(spec_frac_millis(s) <= 999);
    }
}

/// The bound above, carried through the tagged-line readers.
pub proof fn lemma_tagged_timestamp_bound(line: Seq<u8>, tag: Seq<u8>)
    ensures
        spec_tagged_timestamp(line, tag) matches Some(v) ==> v < 360000000,
{
    if let Some(i) = spec_find(line, tag) {
        let start = i + tag.len();
        let end = spec_token_end(line, start);
        lemma_parse_timestamp_bound(line.subrange(start, end));
    }
}

/// Law: rendering a duration and parsing the rendering back is the
/// identity, for every duration the renderer accepts.
pub proof fn lemma_format_parse_round_trip(ms: u64)
    requires
        ms < 360000000,
    ensures
        spec_parse_timestamp(spec_format_timestamp(ms as nat)) == Some(ms),
{
    let n = ms as nat;
    let s = spec_format_timestamp(n);
    let h = n / 3600000;
    let m = (n / 60000) % 60;
    let sec = (n / 1000) % 60;
    let f = n % 1000;
    lemma_fundamental_div_mod(n as int, 3600000);
    assert(h < 100);
    // The twelve places hold digits and the three separators.
    assert(s.len() == 12);
    assert(is_digit(s[0]) && is_digit(s[1]) && is_digit(s[3]) && is_digit(s[4]) && is_digit(s[6])
        && is_digit(s[7]) && is_digit(s[9]) && is_digit(s[10]) && is_digit(s[11]));
    assert(s[2] == 58 && s[5] == 58 && s[8] == 46);
    // Each two-digit field reads back as the field's value.
    lemma_fundamental_div_mod(h as int, 10);
    assert(two_digits(s, 0) == h);
    lemma_fundamental_div_mod(m as int, 10);
    assert(two_digits(s, 3) == m);
    lemma_fundamental_div_mod(sec as int, 10);
    assert(two_digits(s, 6) == sec);
    assert(spec_timestamp_wf(s));
    // The fractional digits read back as the millisecond remainder.
    lemma_mod_breakdown(f as int, 10, 10);
    lemma_fundamental_div_mod(f as int, 100);
    assert(spec_frac_millis(s) == f);
    // Reassembling hours, minutes, seconds and the remainder gives `ms`.
    lemma_fundamental_div_mod(n as int, 1000);
    lemma_div_denominator(n as int, 1000, 60);
    lemma_fundamental_div_mod((n / 1000) as int, 60);
    lemma_div_denominator(n as int, 60000, 60);
    lemma_fundamental_div_mod((n / 60000) as int, 60);
    assert(n / 1000 / 60 == n / 60000);
    assert(n / 60000 / 60 == n / 3600000);
    assert(spec_timestamp_millis(s) == n);
}

} // verus!
