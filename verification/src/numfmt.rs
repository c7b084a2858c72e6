//! Decimal rendering of the integers that appear in protocol messages.

use vstd::prelude::*;
use vstd::string::*;

verus! {

/// The decimal digit character for a value below ten.
pub open spec fn digit_char(d: nat) -> char {
    if d == 0 {
        '0'
    } else if d == 1 {
        '1'
    } else if d == 2 {
        '2'
    } else if d == 3 {
        '3'
    } else if d == 4 {
        '4'
    } else if d == 5 {
        '5'
    } else if d == 6 {
        '6'
    } else if d == 7 {
        '7'
    } else if d == 8 {
        '8'
    } else {
        '9'
    }
}

/// Decimal text of an unsigned value, most significant digit first,
/// with no leading zeros (zero itself is the single digit `0`).
pub open spec fn dec_u(n: nat) -> Seq<char>
    decreases n,
{
    if n < 10 {
        seq![digit_char(n)]
    } else {
        dec_u(n / 10) + seq![digit_char(n % 10)]
    }
}

/// Decimal text of a signed value: a minus sign before the magnitude
/// when the value is negative.
pub open spec fn dec_i(n: int) -> Seq<char> {
    if n < 0 {
        seq!['-'] + dec_u((-n) as nat)
    } else {
        dec_u(n as nat)
    }
}

/// The characters a decimal rendering can hold: digits and the minus sign.
pub open spec fn is_dec_char(c: char) -> bool {
    ||| c == '-'
    ||| c == '0'
    ||| c == '1'
    ||| c == '2'
    ||| c == '3'
    ||| c == '4'
    ||| c == '5'
    ||| c == '6'
    ||| c == '7'
    ||| c == '8'
    ||| c == '9'
}

/// Every character of an unsigned decimal rendering is a digit.
pub proof fn lemma_dec_u_chars(n: nat)
    ensures
        forall|k: int| 0 <= k < dec_u(n).len() ==> is_dec_char(#[trigger] dec_u(n)[k]),
    decreases n,
{
    if n >= 10 {
        lemma_dec_u_chars(n / 10);
        assert forall|k: int| 0 <= k < dec_u(n).len() implies is_dec_char(dec_u(n)[k]) by {
            if k < dec_u(n / 10).len() {
                assert(dec_u(n)[k] == dec_u(n / 10)[k]);
            } else {
                assert(dec_u(n)[k] == digit_char(n % 10));
            }
        }
    } else {
        assert(dec_u(n)[0] == digit_char(n));
    }
}

/// Every character of a signed decimal rendering is a digit or the minus sign.
pub proof fn lemma_dec_i_chars(n: int)
    ensures
        forall|k: int| 0 <= k < dec_i(n).len() ==> is_dec_char(#[trigger] dec_i(n)[k]),
{
    if n < 0 {
        lemma_dec_u_chars((-n) as nat);
    } else {
        lemma_dec_u_chars(n as nat);
    }
}

fn digit_str(d: u64) -> (r: &'static str)
    requires
        d < 10,
    ensures
        r@ == seq![digit_char(d as nat)],
{
    let r = match d {
        0 => "0",
        1 => "1",
        2 => "2",
        3 => "3",
        4 => "4",
        5 => "5",
        6 => "6",
        7 => "7",
        8 => "8",
        _ => "9",
    };
    proof {
        reveal_strlit("0");
        reveal_strlit("1");
        reveal_strlit("2");
        reveal_strlit("3");
        reveal_strlit("4");
        reveal_strlit("5");
        reveal_strlit("6");
        reveal_strlit("7");
        reveal_strlit("8");
        reveal_strlit("9");
        assert(r@ =~= seq![digit_char(d as nat)]);
    }
    r
}

/// Renders an unsigned value in decimal.
pub fn u64_to_string(n: u64) -> (s: String)
    ensures
        s@ == dec_u(n as nat),
    decreases n,
{
    let d = digit_str(n % 10);
    if n < 10 {
        let s = String::from_str(d);
        proof {
            assert(s@ =~= dec_u(n as nat));
        }
        s
    } else {
        let front = u64_to_string(n / 10);
        let s = front.concat(d);
        proof {
            assert(s@ =~= dec_u(n as nat));
        }
        s
    }
}

/// Renders a signed value in decimal.
pub fn i64_to_string(n: i64) -> (s: String)
    ensures
        s@ == dec_i(n as int),
{
    if n >= 0 {
        let s = u64_to_string(n as u64);
        s
    } else {
        let mag: u64 = ((-(n + 1)) as u64) + 1;
        proof {
            assert(mag as int == -(n as int));
        }
        let digits = u64_to_string(mag);
        let s = String::from_str("-").concat(digits.as_str());
        proof {
            reveal_strlit("-");
            assert(s@ =~= dec_i(n as int));
        }
        s
    }
}

} // verus!
