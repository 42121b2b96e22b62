//! Characters, digit sequences and string building.
//!
//! The request builder composes its URL from character sequences, so this
//! module gives the crate a small verified vocabulary for that: what a
//! decimal digit is, what value a digit string denotes, the canonical
//! digit string of a number, and executable helpers that build `String`s
//! character by character.

use vstd::prelude::*;
use vstd::string::StrSliceExecFns;
use vstd::string::StringExecFns;

verus! {

/// Relies on std's `String::push`: appends the given character to the
/// end of the string.
pub assume_specification[ String::push ](s: &mut String, c: char)
    ensures
        final(s)@ == old(s)@.push(c),
;

/// An ASCII decimal digit.
pub open spec fn is_digit_char(c: char) -> bool {
    48 <= c as int && c as int <= 57
}

/// The numeric value of one digit character.
pub open spec fn digit_val(c: char) -> int {
    c as int - 48
}

/// Every character of the sequence is an ASCII decimal digit.
pub open spec fn seq_all_digits(s: Seq<char>) -> bool {
    forall|i: int| 0 <= i < s.len() ==> is_digit_char(s[i])
}

/// The value a digit sequence denotes in base ten.
pub open spec fn digits_val(s: Seq<char>) -> int
    decreases s.len(),
{
    if s.len() == 0 {
        0
    } else {
        digits_val(s.drop_last()) * 10 + digit_val(s.last())
    }
}

/// The digit character of one digit value.
pub open spec fn digit_char(d: int) -> char {
    if d == 0 {
        '0'
    } else if d == 1 {
        '1'
    } else if d == 2 {
        '2'
    } else if d == 3 {
        '3'
    } else if d == 4 {
        '4'
    } else if d == 5 {
        '5'
    } else if d == 6 {
        '6'
    } else if d == 7 {
        '7'
    } else if d == 8 {
        '8'
    } else {
        '9'
    }
}

/// The canonical decimal digit string of a non-negative number: no sign,
/// no leading zero except for the number zero itself.
pub open spec fn canonical_digits(n: int) -> Seq<char>
    decreases n,
{
    if n < 10 {
        seq![digit_char(n)]
    } else {
        canonical_digits(n / 10).push(digit_char(n % 10))
    }
}

/// The value of a one-digit sequence is the value of its digit.
pub proof fn lemma_digits_val_singleton(s: Seq<char>)
    requires
        s.len() == 1,
    ensures
        digits_val(s) == digit_val(s[0]),
{
    assert(s.drop_last().len() == 0);
    assert(digits_val(s.drop_last()) == 0);
    assert(s.last() == s[0]);
}

/// A digit sequence denotes a non-negative value.
pub proof fn lemma_digits_val_nonneg(s: Seq<char>)
    requires
        seq_all_digits(s),
    ensures
        digits_val(s) >= 0,
    decreases s.len(),
{
    if s.len() > 0 {
        assert forall|i: int| 0 <= i < s.drop_last().len() implies is_digit_char(
            s.drop_last()[i],
        ) by {
            assert(s.drop_last()[i] == s[i]);
        }
        lemma_digits_val_nonneg(s.drop_last());
    }
}

/// Dropping trailing digits never increases the denoted value.
pub proof fn lemma_digits_val_prefix(s: Seq<char>, k: int)
    requires
        seq_all_digits(s),
        0 <= k <= s.len(),
    ensures
        digits_val(s.take(k)) <= digits_val(s),
    decreases s.len(),
{
    if k == s.len() {
        assert(s.take(k) =~= s);
    } else {
        assert forall|i: int| 0 <= i < s.drop_last().len() implies is_digit_char(
            s.drop_last()[i],
        ) by {
            assert(s.drop_last()[i] == s[i]);
        }
        assert(s.take(k) =~= s.drop_last().take(k));
        lemma_digits_val_prefix(s.drop_last(), k);
        lemma_digits_val_nonneg(s.drop_last());
    }
}

/// A digit string without a leading zero is the canonical digit string of
/// the value it denotes.
pub proof fn lemma_canonical_digits_of_val(s: Seq<char>)
    requires
        seq_all_digits(s),
        s.len() > 0,
        s.len() == 1 || s[0] != '0',
    ensures
        canonical_digits(digits_val(s)) == s,
    decreases s.len(),
{
    if s.len() == 1 {
        lemma_digits_val_singleton(s);
        assert(canonical_digits(digits_val(s)) =~= s);
    } else {
        let t = s.drop_last();
        assert forall|i: int| 0 <= i < t.len() implies is_digit_char(t[i]) by {
            assert(t[i] == s[i]);
        }
        assert(t.take(1) =~= seq![s[0]]);
        lemma_digits_val_singleton(t.take(1));
        lemma_digits_val_prefix(t, 1);
        assert(digits_val(t) >= digit_val(s[0]) >= 1);
        let n = digits_val(s);
        assert(n == digits_val(t) * 10 + digit_val(s.last()));
        lemma_digits_val_nonneg(t);
        assert(n >= 10);
        assert(n / 10 == digits_val(t) && n % 10 == digit_val(s.last())) by {
            assert(0 <= digit_val(s.last()) < 10);
        }
        lemma_canonical_digits_of_val(t);
        assert(canonical_digits(n) =~= t.push(digit_char(digit_val(s.last()))));
        assert(digit_char(digit_val(s.last())) == s.last());
        assert(t.push(s.last()) =~= s);
    }
}

/// The characters of a string slice, as a vector with constant-time access.
pub fn chars_of(s: &str) -> (v: Vec<char>)
    ensures
        v@ == s@,
{
    let n = s.unicode_len();
    let mut v: Vec<char> = Vec::new();
    let mut i: usize = 0;
    while i < n
        invariant
            i <= n,
            n == s@.len(),
            v@ == s@.take(i as int),
        decreases n - i,
    {
        let c = s.get_char(i);
        v.push(c);
        proof {
            assert(v@ =~= s@.take(i as int + 1));
        }
        i += 1;
    }
    proof {
        assert(s@.take(n as int) =~= s@);
    }
    v
}

/// A `String` holding the given range of a character vector.
pub fn string_of_range(v: &Vec<char>, from: usize, to: usize) -> (r: String)
    requires
        from <= to <= v@.len(),
    ensures
        r@ == v@.subrange(from as int, to as int),
{
    let mut r = String::new();
    let mut i: usize = from;
    while i < to
        invariant
            from <= i <= to <= v@.len(),
            r@ == v@.subrange(from as int, i as int),
        decreases to - i,
    {
        r.push(v[i]);
        proof {
            assert(r@ =~= v@.subrange(from as int, i as int + 1));
        }
        i += 1;
    }
    r
}

/// The one-character string of one digit value.
fn digit_str(d: u64) -> (r: &'static str)
    requires
        d < 10,
    ensures
        r@ == seq![digit_char(d as int)],
{
    proof {
        reveal_strlit("0");
        reveal_strlit("1");
        reveal_strlit("2");
        reveal_strlit("3");
        reveal_strlit("4");
        reveal_strlit("5");
        reveal_strlit("6");
        reveal_strlit("7");
        reveal_strlit("8");
        reveal_strlit("9");
        assert("0"@ =~= seq!['0']);
        assert("1"@ =~= seq!['1']);
        assert("2"@ =~= seq!['2']);
        assert("3"@ =~= seq!['3']);
        assert("4"@ =~= seq!['4']);
        assert("5"@ =~= seq!['5']);
        assert("6"@ =~= seq!['6']);
        assert("7"@ =~= seq!['7']);
        assert("8"@ =~= seq!['8']);
        assert("9"@ =~= seq!['9']);
    }
    if d == 0 {
        "0"
    } else if d == 1 {
        "1"
    } else if d == 2 {
        "2"
    } else if d == 3 {
        "3"
    } else if d == 4 {
        "4"
    } else if d == 5 {
        "5"
    } else if d == 6 {
        "6"
    } else if d == 7 {
        "7"
    } else if d == 8 {
        "8"
    } else {
        "9"
    }
}

/// The canonical decimal rendering of a number.
pub fn u64_to_string(n: u64) -> (r: String)
    ensures
        r@ == canonical_digits(n as int),
    decreases n,
{
    if n < 10 {
        String::from_str(digit_str(n))
    } else {
        let mut s = u64_to_string(n / 10);
        s.append(digit_str(n % 10));
        proof {
            assert(s@ =~= canonical_digits((n / 10) as int).push(digit_char((n % 10) as int)));
        }
        s
    }
}

} // verus!
