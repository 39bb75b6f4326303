//! Decimal rendering of the integers that appear in error messages: byte
//! lengths, cursor offsets and native result codes.

use vstd::prelude::*;

verus! {

use vstd::string::StringExecFns;

/// The character of one decimal digit.
pub open spec fn spec_digit_char(d: nat) -> char {
    if d == 0 {
        '0'
    } else if d == 1 {
        '1'
    } else if d == 2 {
        '2'
    } else if d == 3 {
        '3'
    } else if d == 4 {
        '4'
    } else if d == 5 {
        '5'
    } else if d == 6 {
        '6'
    } else if d == 7 {
        '7'
    } else if d == 8 {
        '8'
    } else {
        '9'
    }
}

/// The decimal digits of a natural number, most significant first.
pub open spec fn spec_dec(n: nat) -> Seq<char>
    decreases n,
{
    if n < 10 {
        seq![spec_digit_char(n)]
    } else {
        spec_dec(n / 10).push(spec_digit_char(n % 10))
    }
}

/// The decimal rendering of a signed number: a minus sign before the digits
/// of its magnitude when it is negative.
pub open spec fn spec_dec_signed(n: int) -> Seq<char> {
    if n < 0 {
        seq!['-'] + spec_dec((-n) as nat)
    } else {
        spec_dec(n as nat)
    }
}

fn digit_str(d: u64) -> (r: &'static str)
    requires
        d < 10,
    ensures
        r@ =~= seq![spec_digit_char(d as nat)],
{
    let r: &'static str = if d == 0 {
        "0"
    } else if d == 1 {
        "1"
    } else if d == 2 {
        "2"
    } else if d == 3 {
        "3"
    } else if d == 4 {
        "4"
    } else if d == 5 {
        "5"
    } else if d == 6 {
        "6"
    } else if d == 7 {
        "7"
    } else if d == 8 {
        "8"
    } else {
        "9"
    };
    proof {
        reveal_strlit("0");
        reveal_strlit("1");
        reveal_strlit("2");
        reveal_strlit("3");
        reveal_strlit("4");
        reveal_strlit("5");
        reveal_strlit("6");
        reveal_strlit("7");
        reveal_strlit("8");
        reveal_strlit("9");
    }
    r
}

/// Render an unsigned number in decimal.
pub fn dec_of_u64(n: u64) -> (r: String)
    ensures
        r@ == spec_dec(n as nat),
    decreases n,
{
    if n < 10 {
        let mut out = String::new();
        out.append(digit_str(n));
        assert(out@ =~= spec_dec(n as nat));
        out
    } else {
        let mut out = dec_of_u64(n / 10);
        out.append(digit_str(n % 10));
        assert(out@ =~= spec_dec(n as nat));
        out
    }
}

/// Render a byte count or other machine-sized number in decimal.
pub fn dec_of_usize(n: usize) -> (r: String)
    ensures
        r@ == spec_dec(n as nat),
{
    dec_of_u64(n as u64)
}

/// Render a native result code in decimal, with a minus sign when negative.
pub fn dec_of_i32(n: i32) -> (r: String)
    ensures
        r@ == spec_dec_signed(n as int),
{
    if n < 0 {
        let mag: u64 = (-(n as i64)) as u64;
        let mut out = String::new();
        out.append("-");
        proof {
            reveal_strlit("-");
        }
        let digits = dec_of_u64(mag);
        out.append(digits.as_str());
        assert(out@ =~= spec_dec_signed(n as int));
        out
    } else {
        dec_of_u64(n as u64)
    }
}

} // verus!
