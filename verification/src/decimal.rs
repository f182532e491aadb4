//! Decimal rendering of small unsigned integers, used for user-visible
//! status codes in error messages.

use vstd::prelude::*;

verus! {

/// The character for one decimal digit.
pub open spec fn digit_char(d: int) -> char {
    if d == 0 {
        '0'
    } else if d == 1 {
        '1'
    } else if d == 2 {
        '2'
    } else if d == 3 {
        '3'
    } else if d == 4 {
        '4'
    } else if d == 5 {
        '5'
    } else if d == 6 {
        '6'
    } else if d == 7 {
        '7'
    } else if d == 8 {
        '8'
    } else {
        '9'
    }
}

/// The decimal digit string of a non-negative integer, most significant
/// digit first, with no leading zeros except for zero itself.
pub open spec fn dec_digits(n: int) -> Seq<char>
    decreases n,
{
    if n < 10 {
        seq![digit_char(n)]
    } else {
        dec_digits(n / 10) + seq![digit_char(n % 10)]
    }
}

fn digit_str(d: u16) -> (s: &'static str)
    requires
        d < 10,
    ensures
        s@ == seq![digit_char(d as int)],
{
    if d == 0 {
        proof {
            reveal_strlit("0");
        }
        "0"
    } else if d == 1 {
        proof {
            reveal_strlit("1");
        }
        "1"
    } else if d == 2 {
        proof {
            reveal_strlit("2");
        }
        "2"
    } else if d == 3 {
        proof {
            reveal_strlit("3");
        }
        "3"
    } else if d == 4 {
        proof {
            reveal_strlit("4");
        }
        "4"
    } else if d == 5 {
        proof {
            reveal_strlit("5");
        }
        "5"
    } else if d == 6 {
        proof {
            reveal_strlit("6");
        }
        "6"
    } else if d == 7 {
        proof {
            reveal_strlit("7");
        }
        "7"
    } else if d == 8 {
        proof {
            reveal_strlit("8");
        }
        "8"
    } else {
        proof {
            reveal_strlit("9");
        }
        "9"
    }
}

/// Renders an integer as its decimal digit string.
pub fn u16_to_string(n: u16) -> (s: String)
    ensures
        s@ == dec_digits(n as int),
{
    let mut s: String = String::from_str(digit_str(n % 10));
    let mut x: u16 = n / 10;
    proof {
        if x == 0 {
            assert(n < 10 && n % 10 == n);
            assert(s@ =~= dec_digits(n as int));
        } else {
            assert(dec_digits(n as int) =~= dec_digits(x as int) + s@);
        }
    }
    while x > 0
        invariant
            x > 0 ==> dec_digits(n as int) == dec_digits(x as int) + s@,
            x == 0 ==> dec_digits(n as int) == s@,
        decreases x,
    {
        let d = x % 10;
        let ghost prev_s = s@;
        let ghost prev_x = x as int;
        s = String::from_str(digit_str(d)).concat(s.as_str());
        x = x / 10;
        proof {
            if x == 0 {
                assert(prev_x < 10 && prev_x % 10 == prev_x);
                assert(dec_digits(prev_x) =~= seq![digit_char(prev_x)]);
                assert(dec_digits(n as int) =~= s@);
            } else {
                assert(dec_digits(prev_x) =~= dec_digits(x as int) + seq![
                    digit_char(prev_x % 10),
                ]);
                assert(dec_digits(x as int) + (seq![digit_char(prev_x % 10)] + prev_s)
                    =~= (dec_digits(x as int) + seq![digit_char(prev_x % 10)]) + prev_s);
                assert(dec_digits(n as int) =~= dec_digits(x as int) + s@);
            }
        }
    }
    s
}

} // verus!
