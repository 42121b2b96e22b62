//! Location classification.
//!
//! A raw location string is normalized into one of three shapes: a numeric
//! city identifier, a latitude/longitude pair of decimal literals, or a
//! free-text name. A string is an identifier when the whole of it parses
//! as an unsigned 64-bit number. Otherwise the string is searched, left to
//! right, for two decimal literals of the shape `-?digits.digits`
//! separated by a comma with optional whitespace around it; the leftmost
//! such occurrence yields the pair, captured verbatim. Every other string
//! is a name.

use crate::text::{
    chars_of, digit_val, digits_val, is_digit_char, lemma_digits_val_prefix, seq_all_digits,
    string_of_range,
};
use vstd::prelude::*;
use vstd::string::StringExecFns;

verus! {

/// A normalized location descriptor.
#[derive(Debug, Clone, PartialEq, Eq)]
pub enum LocationSpec {
    /// Numeric city identifier.
    ById(u64),
    /// Latitude and longitude, kept verbatim as captured from the input.
    ByCoordinates { lat: String, lon: String },
    /// Free-text name, possibly with comma-separated state or country.
    ByName(String),
}

/// The string without one leading plus sign, the shape an unsigned
/// decimal parse accepts.
pub open spec fn unsigned_body(s: Seq<char>) -> Seq<char> {
    if s.len() > 0 && s[0] == '+' {
        s.skip(1)
    } else {
        s
    }
}

/// The whole string parses as a `u64`: an optional plus sign, then at
/// least one digit, denoting a value within range.
pub open spec fn is_numeric_id(s: Seq<char>) -> bool {
    let t = unsigned_body(s);
    t.len() > 0 && seq_all_digits(t) && digits_val(t) <= u64::MAX
}

/// The identifier a numeric location string denotes.
pub open spec fn numeric_id_val(s: Seq<char>) -> int {
    digits_val(unsigned_body(s))
}

/// Whitespace as the coordinate pattern accepts it around the comma.
pub open spec fn is_space_char(c: char) -> bool {
    c == ' ' || c == '\t' || c == '\n' || c == '\r' || c == '\u{b}' || c == '\u{c}'
}

/// The end of the maximal run of digits starting at `i`.
pub open spec fn digit_run_end(s: Seq<char>, i: int) -> int
    decreases s.len() - i,
{
    if 0 <= i < s.len() && is_digit_char(s[i]) {
        digit_run_end(s, i + 1)
    } else {
        i
    }
}

/// The end of the maximal run of whitespace starting at `i`.
pub open spec fn space_run_end(s: Seq<char>, i: int) -> int
    decreases s.len() - i,
{
    if 0 <= i < s.len() && is_space_char(s[i]) {
        space_run_end(s, i + 1)
    } else {
        i
    }
}

/// Where a decimal literal `-?digits.digits` starting at `i` ends, taking
/// each digit run maximally, or nothing if no such literal starts at `i`.
pub open spec fn decimal_end(s: Seq<char>, i: int) -> Option<int> {
    let p = if i < s.len() && s[i] == '-' {
        i + 1
    } else {
        i
    };
    let d1 = digit_run_end(s, p);
    if d1 == p {
        None
    } else if d1 < s.len() && s[d1] == '.' {
        let d2 = digit_run_end(s, d1 + 1);
        if d2 == d1 + 1 {
            None
        } else {
            Some(d2)
        }
    } else {
        None
    }
}

/// The string is exactly one decimal literal `-?digits.digits`.
pub open spec fn is_decimal_seq(s: Seq<char>) -> bool {
    decimal_end(s, 0) == Some(s.len() as int)
}

/// A coordinate pair starting at `i`: a decimal literal, optional
/// whitespace, a comma, optional whitespace, and a second decimal
/// literal. Yields the end of the first literal and the bounds of the
/// second.
pub open spec fn pair_match_at(s: Seq<char>, i: int) -> Option<(int, int, int)> {
    match decimal_end(s, i) {
        Some(e1) => {
            let b = space_run_end(s, e1);
            if b < s.len() && s[b] == ',' {
                let c = space_run_end(s, b + 1);
                match decimal_end(s, c) {
                    Some(e2) => Some((e1, c, e2)),
                    None => None,
                }
            } else {
                None
            }
        },
        None => None,
    }
}

/// The leftmost coordinate pair at or after `i`: start and end of the
/// first literal, then start and end of the second.
pub open spec fn pair_search(s: Seq<char>, i: int) -> Option<(int, int, int, int)>
    decreases s.len() - i,
{
    if i >= s.len() {
        None
    } else {
        match pair_match_at(s, i) {
            Some((e1, c, e2)) => Some((i, e1, c, e2)),
            None => pair_search(s, i + 1),
        }
    }
}

/// The two captured decimal literals of the leftmost coordinate pair in
/// the string, if there is one.
pub open spec fn coord_captures(s: Seq<char>) -> Option<(Seq<char>, Seq<char>)> {
    match pair_search(s, 0) {
        Some((s1, e1, s2, e2)) => Some((s.subrange(s1, e1), s.subrange(s2, e2))),
        None => None,
    }
}

/// A digit run stays within the string.
pub proof fn lemma_digit_run_end_bounds(s: Seq<char>, i: int)
    requires
        0 <= i <= s.len(),
    ensures
        i <= digit_run_end(s, i) <= s.len(),
    decreases s.len() - i,
{
    if i < s.len() && is_digit_char(s[i]) {
        lemma_digit_run_end_bounds(s, i + 1);
    }
}

/// A whitespace run stays within the string.
pub proof fn lemma_space_run_end_bounds(s: Seq<char>, i: int)
    requires
        0 <= i <= s.len(),
    ensures
        i <= space_run_end(s, i) <= s.len(),
    decreases s.len() - i,
{
    if i < s.len() && is_space_char(s[i]) {
        lemma_space_run_end_bounds(s, i + 1);
    }
}

/// What the maximal digit run means character by character: digits up to
/// its end, and no digit right after it.
pub proof fn lemma_digit_run_end_chars(s: Seq<char>, i: int)
    requires
        0 <= i <= s.len(),
    ensures
        i <= digit_run_end(s, i) <= s.len(),
        forall|k: int| i <= k < digit_run_end(s, i) ==> is_digit_char(s[k]),
        digit_run_end(s, i) == s.len() || !is_digit_char(s[digit_run_end(s, i)]),
    decreases s.len() - i,
{
    if i < s.len() && is_digit_char(s[i]) {
        lemma_digit_run_end_chars(s, i + 1);
    }
}

/// A position that looks like the end of the maximal digit run is the
/// end of the maximal digit run.
pub proof fn lemma_digit_run_end_is(s: Seq<char>, i: int, e: int)
    requires
        0 <= i <= e <= s.len(),
        forall|k: int| i <= k < e ==> is_digit_char(s[k]),
        e == s.len() || !is_digit_char(s[e]),
    ensures
        digit_run_end(s, i) == e,
    decreases e - i,
{
    if i < e {
        assert(is_digit_char(s[i]));
        lemma_digit_run_end_is(s, i + 1, e);
    } else {
        if i < s.len() {
            assert(!is_digit_char(s[i]));
        }
    }
}

/// A position that looks like the end of the maximal whitespace run is
/// the end of the maximal whitespace run.
pub proof fn lemma_space_run_end_is(s: Seq<char>, i: int, e: int)
    requires
        0 <= i <= e <= s.len(),
        forall|k: int| i <= k < e ==> is_space_char(s[k]),
        e == s.len() || !is_space_char(s[e]),
    ensures
        space_run_end(s, i) == e,
    decreases e - i,
{
    if i < e {
        assert(is_space_char(s[i]));
        lemma_space_run_end_is(s, i + 1, e);
    } else {
        if i < s.len() {
            assert(!is_space_char(s[i]));
        }
    }
}

/// Law: a string that is exactly a decimal pair - a decimal literal,
/// optional whitespace, a comma, optional whitespace, a second decimal
/// literal - is never numeric, and its two literals are captured
/// verbatim as the coordinates.
pub proof fn lemma_pair_input_captured(
    d1: Seq<char>,
    sp1: Seq<char>,
    sp2: Seq<char>,
    d2: Seq<char>,
)
    requires
        is_decimal_seq(d1),
        is_decimal_seq(d2),
        forall|i: int| 0 <= i < sp1.len() ==> is_space_char(sp1[i]),
        forall|i: int| 0 <= i < sp2.len() ==> is_space_char(sp2[i]),
    ensures
        !is_numeric_id(d1 + sp1 + seq![','] + sp2 + d2),
        coord_captures(d1 + sp1 + seq![','] + sp2 + d2) == Some((d1, d2)),
{
    let s = d1 + sp1 + seq![','] + sp2 + d2;
    // the two literals are not empty
    if d1.len() == 0 {
        assert(digit_run_end(d1, 0) == 0);
    }
    if d2.len() == 0 {
        assert(digit_run_end(d2, 0) == 0);
    }
    let n1 = d1.len() as int;
    let b = n1 + sp1.len() as int;  // position of the comma
    let c = b + 1 + sp2.len() as int;  // start of the second literal
    let n = s.len() as int;
    // where each piece sits inside the whole
    assert forall|k: int| 0 <= k < n1 implies s[k] == d1[k] by {}
    assert forall|k: int| n1 <= k < b implies s[k] == sp1[k - n1] by {}
    assert(s[b] == ',');
    assert forall|k: int| b + 1 <= k < c implies s[k] == sp2[k - b - 1] by {}
    assert forall|k: int| c <= k < n implies s[k] == d2[k - c] by {}
    // structure of the first literal
    let p1: int = if d1[0] == '-' {
        1
    } else {
        0
    };
    let r1 = digit_run_end(d1, p1);
    assert(r1 != p1 && r1 < n1 && d1[r1] == '.' && digit_run_end(d1, r1 + 1) == n1 && n1 != r1
        + 1);
    lemma_digit_run_end_chars(d1, p1);
    lemma_digit_run_end_chars(d1, r1 + 1);
    // the same runs, read inside the whole string
    lemma_digit_run_end_is(s, p1, r1);
    assert(s[n1] == ',' || is_space_char(s[n1]));
    lemma_digit_run_end_is(s, r1 + 1, n1);
    assert(decimal_end(s, 0) == Some(n1));
    // whitespace up to the comma
    lemma_space_run_end_is(s, n1, b);
    // whitespace after the comma, up to the second literal
    let p2: int = if d2[0] == '-' {
        1
    } else {
        0
    };
    let r2 = digit_run_end(d2, p2);
    assert(r2 != p2 && r2 < d2.len() && d2[r2] == '.' && digit_run_end(d2, r2 + 1) == d2.len()
        && d2.len() != r2 + 1);
    lemma_digit_run_end_chars(d2, p2);
    lemma_digit_run_end_chars(d2, r2 + 1);
    assert(!is_space_char(s[c])) by {
        if p2 == 1 {
            assert(s[c] == '-');
        } else {
            assert(is_digit_char(d2[0]));
        }
    }
    lemma_space_run_end_is(s, b + 1, c);
    // the second literal, read inside the whole string
    lemma_digit_run_end_is(s, c + p2, c + r2);
    lemma_digit_run_end_is(s, c + r2 + 1, n);
    assert(decimal_end(s, c) == Some(n));
    assert(pair_match_at(s, 0) == Some((n1, c, n)));
    assert(pair_search(s, 0) == Some((0int, n1, c, n)));
    assert(s.subrange(0, n1) =~= d1);
    assert(s.subrange(c, n) =~= d2);
    // a string holding a dot is not numeric
    assert(s[0] != '+') by {
        if p1 == 1 {
            assert(d1[0] == '-');
        } else {
            assert(is_digit_char(d1[0]));
        }
    }
    assert(unsigned_body(s) == s);
    assert(!is_digit_char(s[r1]));
}

/// Whether a character is an ASCII decimal digit.
fn is_digit(c: char) -> (r: bool)
    ensures
        r == is_digit_char(c),
{
    let u = c as u32;
    48 <= u && u <= 57
}

/// Whether a character is whitespace for the coordinate pattern.
fn is_space(c: char) -> (r: bool)
    ensures
        r == is_space_char(c),
{
    c == ' ' || c == '\t' || c == '\n' || c == '\r' || c == '\u{b}' || c == '\u{c}'
}

/// The end of the maximal digit run starting at `start`.
fn find_digit_run_end(v: &Vec<char>, start: usize) -> (r: usize)
    requires
        start <= v@.len(),
    ensures
        r as int == digit_run_end(v@, start as int),
        start <= r <= v@.len(),
{
    let mut i = start;
    while i < v.len() && is_digit(v[i])
        invariant
            start <= i <= v@.len(),
            digit_run_end(v@, start as int) == digit_run_end(v@, i as int),
        decreases v@.len() - i,
    {
        i += 1;
    }
    i
}

/// The end of the maximal whitespace run starting at `start`.
fn find_space_run_end(v: &Vec<char>, start: usize) -> (r: usize)
    requires
        start <= v@.len(),
    ensures
        r as int == space_run_end(v@, start as int),
        start <= r <= v@.len(),
{
    let mut i = start;
    while i < v.len() && is_space(v[i])
        invariant
            start <= i <= v@.len(),
            space_run_end(v@, start as int) == space_run_end(v@, i as int),
        decreases v@.len() - i,
    {
        i += 1;
    }
    i
}

/// The end of a decimal literal starting at `start`, if one starts there.
fn find_decimal_end(v: &Vec<char>, start: usize) -> (r: Option<usize>)
    requires
        start <= v@.len(),
    ensures
        decimal_end(v@, start as int) == (match r {
            Some(e) => Some(e as int),
            None => None::<int>,
        }),
        r matches Some(e) ==> start < e <= v@.len(),
{
    let p = if start < v.len() && v[start] == '-' {
        start + 1
    } else {
        start
    };
    let d1 = find_digit_run_end(v, p);
    if d1 == p {
        None
    } else if d1 < v.len() && v[d1] == '.' {
        let d2 = find_digit_run_end(v, d1 + 1);
        if d2 == d1 + 1 {
            None
        } else {
            Some(d2)
        }
    } else {
        None
    }
}

/// A coordinate pair starting exactly at `i`, if one starts there.
fn try_pair_at(v: &Vec<char>, i: usize) -> (r: Option<(usize, usize, usize)>)
    requires
        i <= v@.len(),
    ensures
        pair_match_at(v@, i as int) == (match r {
            Some((e1, c, e2)) => Some((e1 as int, c as int, e2 as int)),
            None => None::<(int, int, int)>,
        }),
        r matches Some((e1, c, e2)) ==> i < e1 <= c < e2 <= v@.len(),
{
    match find_decimal_end(v, i) {
        Some(e1) => {
            let b = find_space_run_end(v, e1);
            if b < v.len() && v[b] == ',' {
                let c = find_space_run_end(v, b + 1);
                match find_decimal_end(v, c) {
                    Some(e2) => Some((e1, c, e2)),
                    None => None,
                }
            } else {
                None
            }
        },
        None => None,
    }
}

/// The leftmost coordinate pair in the string, if there is one.
fn find_pair(v: &Vec<char>) -> (r: Option<(usize, usize, usize, usize)>)
    ensures
        pair_search(v@, 0) == (match r {
            Some((s1, e1, s2, e2)) => Some((s1 as int, e1 as int, s2 as int, e2 as int)),
            None => None::<(int, int, int, int)>,
        }),
        r matches Some((s1, e1, s2, e2)) ==> s1 <= e1 <= s2 <= e2 <= v@.len(),
{
    let mut i: usize = 0;
    while i < v.len()
        invariant
            i <= v@.len(),
            pair_search(v@, 0) == pair_search(v@, i as int),
        decreases v@.len() - i,
    {
        match try_pair_at(v, i) {
            Some((e1, c, e2)) => {
                return Some((i, e1, c, e2));
            },
            None => {
                i += 1;
            },
        }
    }
    None
}

/// The whole string parsed as a `u64`, mirroring what an unsigned
/// decimal parse accepts: an optional plus sign, then digits, within
/// range.
fn parse_numeric_id(v: &Vec<char>) -> (r: Option<u64>)
    ensures
        match r {
            Some(n) => is_numeric_id(v@) && n as int == numeric_id_val(v@),
            None => !is_numeric_id(v@),
        },
{
    let ghost t = unsigned_body(v@);
    let start: usize = if v.len() > 0 && v[0] == '+' {
        1
    } else {
        0
    };
    proof {
        assert(t =~= v@.skip(start as int));
    }
    if start >= v.len() {
        return None;
    }
    let mut acc: u64 = 0;
    let mut i = start;
    while i < v.len()
        invariant
            start <= i <= v@.len(),
            start < v@.len(),
            t == unsigned_body(v@),
            t == v@.skip(start as int),
            seq_all_digits(t.take(i - start)),
            acc as int == digits_val(t.take(i - start)),
        decreases v@.len() - i,
    {
        let c = v[i];
        proof {
            assert(t[i - start] == v@[i as int]);
        }
        if !is_digit(c) {
            proof {
                assert(0 <= i - start < t.len());
                assert(!is_digit_char(t[i - start]));
            }
            return None;
        }
        let d = (c as u32 - 48) as u64;
        let ghost k = i - start;
        proof {
            assert(t.take(k + 1).drop_last() =~= t.take(k));
            assert(t.take(k + 1).last() == t[k]);
            assert(digits_val(t.take(k + 1)) == digits_val(t.take(k)) * 10 + digit_val(t[k]));
            assert(seq_all_digits(t.take(k + 1)));
        }
        let next = match acc.checked_mul(10) {
            Some(m) => m.checked_add(d),
            None => None,
        };
        match next {
            Some(a) => {
                acc = a;
            },
            None => {
                proof {
                    if is_numeric_id(v@) {
                        lemma_digits_val_prefix(t, k + 1);
                    }
                }
                return None;
            },
        }
        i += 1;
    }
    proof {
        assert(t.take(v@.len() - start) =~= t);
    }
    Some(acc)
}

/// Classify a raw location string, exactly one way for every string:
/// a numeric identifier when the whole string parses as one; else the
/// leftmost coordinate pair, captured verbatim; else the unchanged
/// string as a name.
pub fn classify(location: &str) -> (r: LocationSpec)
    ensures
        is_numeric_id(location@) ==> (r matches LocationSpec::ById(id) && id as int
            == numeric_id_val(location@)),
        !is_numeric_id(location@) ==> (match coord_captures(location@) {
            Some(caps) => r matches LocationSpec::ByCoordinates { lat, lon } && lat@ == caps.0
                && lon@ == caps.1,
            None => r matches LocationSpec::ByName(name) && name@ == location@,
        }),
{
    let v = chars_of(location);
    match parse_numeric_id(&v) {
        Some(id) => LocationSpec::ById(id),
        None => {
            match find_pair(&v) {
                Some((s1, e1, s2, e2)) => LocationSpec::ByCoordinates {
                    lat: string_of_range(&v, s1, e1),
                    lon: string_of_range(&v, s2, e2),
                },
                None => LocationSpec::ByName(String::from_str(location)),
            }
        },
    }
}

} // verus!
