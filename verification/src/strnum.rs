//! Decimal rendering and parsing of unsigned integers, used for port
//! numbers in normalized host strings and for timestamp query parameters.

use vstd::prelude::*;

verus! {

/// The character for one decimal digit.
pub open spec fn digit_char(d: nat) -> char {
    if d == 0 {
        '0'
    } else if d == 1 {
        '1'
    } else if d == 2 {
        '2'
    } else if d == 3 {
        '3'
    } else if d == 4 {
        '4'
    } else if d == 5 {
        '5'
    } else if d == 6 {
        '6'
    } else if d == 7 {
        '7'
    } else if d == 8 {
        '8'
    } else {
        '9'
    }
}

/// The usual decimal rendering of `n`, without leading zeros (except for 0
/// itself).
pub open spec fn dec_digits(n: nat) -> Seq<char>
    decreases n,
{
    if n < 10 {
        seq![digit_char(n)]
    } else {
        dec_digits(n / 10) + seq![digit_char(n % 10)]
    }
}

/// Whether `c` is a decimal digit.
pub open spec fn is_digit(c: char) -> bool {
    '0' <= c <= '9'
}

/// The numeric value of a digit character.
pub open spec fn digit_of(c: char) -> nat {
    (c as nat - '0' as nat) as nat
}

/// Whether every character of `s` is a decimal digit.
pub open spec fn all_digits(s: Seq<char>) -> bool {
    forall|i: int| 0 <= i < s.len() ==> is_digit(#[trigger] s[i])
}

/// The value of a sequence of decimal digits (most significant first).
pub open spec fn digits_val(s: Seq<char>) -> nat
    decreases s.len(),
{
    if s.len() == 0 {
        0
    } else {
        digits_val(s.drop_last()) * 10 + digit_of(s.last())
    }
}

/// Extending a digit string can only grow its value.
pub proof fn lemma_digits_val_prefix(s: Seq<char>, i: int)
    requires
        0 <= i <= s.len(),
    ensures
        digits_val(s.subrange(0, i)) <= digits_val(s),
    decreases s.len() - i,
{
    if i == s.len() {
        assert(s.subrange(0, i) =~= s);
    } else {
        lemma_digits_val_prefix(s, i + 1);
        let p = s.subrange(0, i + 1);
        assert(p.drop_last() =~= s.subrange(0, i));
        assert(digits_val(p) == digits_val(s.subrange(0, i)) * 10 + digit_of(p.last()));
        assert(digits_val(s.subrange(0, i)) <= digits_val(s.subrange(0, i)) * 10);
    }
}

/// The digit character for a value below ten.
fn digit_str(d: u64) -> (r: &'static str)
    requires
        d < 10,
    ensures
        r@ =~= seq![digit_char(d as nat)],
{
    proof {
        reveal_strlit("0");
        reveal_strlit("1");
        reveal_strlit("2");
        reveal_strlit("3");
        reveal_strlit("4");
        reveal_strlit("5");
        reveal_strlit("6");
        reveal_strlit("7");
        reveal_strlit("8");
        reveal_strlit("9");
    }
    match d {
        0 => "0",
        1 => "1",
        2 => "2",
        3 => "3",
        4 => "4",
        5 => "5",
        6 => "6",
        7 => "7",
        8 => "8",
        _ => "9",
    }
}

/// Renders `n` in decimal.
pub fn u64_to_dec(n: u64) -> (r: String)
    ensures
        r@ == dec_digits(n as nat),
    decreases n,
{
    if n < 10 {
        digit_str(n).to_owned()
    } else {
        let high = u64_to_dec(n / 10);
        let r = high.concat(digit_str(n % 10));
        proof {
            assert(r@ =~= dec_digits((n / 10) as nat) + seq![digit_char((n % 10) as nat)]);
        }
        r
    }
}

} // verus!
