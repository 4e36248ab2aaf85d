//! Verified text utilities: equality, suffix handling and decimal
//! rendering, all specified over character sequences.

use vstd::prelude::*;
use vstd::string::*;

verus! {

/// Character-for-character equality of two texts.
pub fn str_eq(a: &str, b: &str) -> (r: bool)
    ensures
        r == (a@ == b@),
{
    let owned_a = a.to_owned();
    let owned_b = b.to_owned();
    owned_a == owned_b
}

/// Whether `s` ends with `suffix`.
pub fn ends_with_str(s: &str, suffix: &str) -> (r: bool)
    ensures
        r == (s@.len() >= suffix@.len() && s@.subrange(
            s@.len() - suffix@.len(),
            s@.len() as int,
        ) == suffix@),
{
    let s_len = s.unicode_len();
    let suffix_len = suffix.unicode_len();
    if s_len < suffix_len {
        return false;
    }
    let tail = s.substring_char(s_len - suffix_len, s_len);
    str_eq(tail, suffix)
}

/// Remove `suffix` from the end of `s`, if present.
pub fn strip_suffix_str(s: &str, suffix: &str) -> (r: Option<String>)
    ensures
        r is Some <==> (s@.len() >= suffix@.len() && s@.subrange(
            s@.len() - suffix@.len(),
            s@.len() as int,
        ) == suffix@),
        r is Some ==> r->Some_0@ == s@.subrange(0, s@.len() - suffix@.len()),
{
    if ends_with_str(s, suffix) {
        let s_len = s.unicode_len();
        let suffix_len = suffix.unicode_len();
        let stem = s.substring_char(0, s_len - suffix_len);
        Some(stem.to_owned())
    } else {
        None
    }
}

/// Whether a text begins with a prefix.
pub open spec fn spec_starts_with(s: Seq<char>, prefix: Seq<char>) -> bool {
    s.len() >= prefix.len() && s.subrange(0, prefix.len() as int) == prefix
}

/// A concatenation starts with its first part.
pub proof fn lemma_concat_starts_with(prefix: Seq<char>, rest: Seq<char>)
    ensures
        spec_starts_with(prefix + rest, prefix),
{
    assert((prefix + rest).subrange(0, prefix.len() as int) =~= prefix);
}

/// The character for a single decimal digit.
pub open spec fn spec_digit_char(d: nat) -> char {
    if d == 0 {
        '0'
    } else if d == 1 {
        '1'
    } else if d == 2 {
        '2'
    } else if d == 3 {
        '3'
    } else if d == 4 {
        '4'
    } else if d == 5 {
        '5'
    } else if d == 6 {
        '6'
    } else if d == 7 {
        '7'
    } else if d == 8 {
        '8'
    } else {
        '9'
    }
}

/// The decimal rendering of a natural number, most significant digit
/// first, with no leading zeros (a single `'0'` for zero).
pub open spec fn spec_dec_str(n: nat) -> Seq<char>
    decreases n,
{
    if n < 10 {
        seq![spec_digit_char(n)]
    } else {
        spec_dec_str(n / 10).push(spec_digit_char(n % 10))
    }
}

/// One decimal digit as a string.
fn digit_str(d: usize) -> (r: String)
    requires
        d < 10,
    ensures
        r@ == seq![spec_digit_char(d as nat)],
{
    let r = match d {
        0 => String::from_str("0"),
        1 => String::from_str("1"),
        2 => String::from_str("2"),
        3 => String::from_str("3"),
        4 => String::from_str("4"),
        5 => String::from_str("5"),
        6 => String::from_str("6"),
        7 => String::from_str("7"),
        8 => String::from_str("8"),
        _ => String::from_str("9"),
    };
    proof {
        reveal_strlit("0");
        reveal_strlit("1");
        reveal_strlit("2");
        reveal_strlit("3");
        reveal_strlit("4");
        reveal_strlit("5");
        reveal_strlit("6");
        reveal_strlit("7");
        reveal_strlit("8");
        reveal_strlit("9");
        assert(r@ =~= seq![spec_digit_char(d as nat)]);
    }
    r
}

/// Render a number in decimal.
pub fn usize_to_string(n: usize) -> (r: String)
    ensures
        r@ == spec_dec_str(n as nat),
    decreases n,
{
    if n < 10 {
        digit_str(n)
    } else {
        let mut front = usize_to_string(n / 10);
        let digit = digit_str(n % 10);
        front.append(digit.as_str());
        front
    }
}

/// Render a number in decimal.
pub fn u64_to_string(n: u64) -> (r: String)
    ensures
        r@ == spec_dec_str(n as nat),
    decreases n,
{
    if n < 10 {
        digit_str((n % 10) as usize)
    } else {
        let mut front = u64_to_string(n / 10);
        let digit = digit_str((n % 10) as usize);
        front.append(digit.as_str());
        front
    }
}

} // verus!
