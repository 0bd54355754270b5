//! Decimal numerals as verified strings: plain numerals and the two- and
//! four-digit zero-padded forms that calendar notation uses.

use vstd::prelude::*;

verus! {

/// The character for one decimal digit.
pub open spec fn dec_digit(n: int) -> char {
    if n == 0 {
        '0'
    } else if n == 1 {
        '1'
    } else if n == 2 {
        '2'
    } else if n == 3 {
        '3'
    } else if n == 4 {
        '4'
    } else if n == 5 {
        '5'
    } else if n == 6 {
        '6'
    } else if n == 7 {
        '7'
    } else if n == 8 {
        '8'
    } else {
        '9'
    }
}

/// The decimal numeral of `n`: most significant digit first, no sign, no
/// padding, and a single `0` for zero.
pub open spec fn dec_nat(n: nat) -> Seq<char>
    decreases n,
{
    if n < 10 {
        seq![dec_digit(n as int)]
    } else {
        dec_nat(n / 10) + seq![dec_digit((n % 10) as int)]
    }
}

/// The numeral of `n` left-padded with `0` to two places.
pub open spec fn pad2(n: nat) -> Seq<char> {
    if n < 10 {
        seq!['0'] + dec_nat(n)
    } else {
        dec_nat(n)
    }
}

/// The numeral of `n` left-padded with `0` to four places.
pub open spec fn pad4(n: nat) -> Seq<char> {
    if n < 10 {
        seq!['0', '0', '0'] + dec_nat(n)
    } else if n < 100 {
        seq!['0', '0'] + dec_nat(n)
    } else if n < 1000 {
        seq!['0'] + dec_nat(n)
    } else {
        dec_nat(n)
    }
}

/// The string for one decimal digit.
fn digit_str(n: u64) -> (s: &'static str)
    requires
        n < 10,
    ensures
        s@ == seq![dec_digit(n as int)],
{
    if n == 0 {
        let s = "0";
        proof {
            reveal_strlit("0");
            assert(s@ =~= seq![dec_digit(0)]);
        }
        s
    } else if n == 1 {
        let s = "1";
        proof {
            reveal_strlit("1");
            assert(s@ =~= seq![dec_digit(1)]);
        }
        s
    } else if n == 2 {
        let s = "2";
        proof {
            reveal_strlit("2");
            assert(s@ =~= seq![dec_digit(2)]);
        }
        s
    } else if n == 3 {
        let s = "3";
        proof {
            reveal_strlit("3");
            assert(s@ =~= seq![dec_digit(3)]);
        }
        s
    } else if n == 4 {
        let s = "4";
        proof {
            reveal_strlit("4");
            assert(s@ =~= seq![dec_digit(4)]);
        }
        s
    } else if n == 5 {
        let s = "5";
        proof {
            reveal_strlit("5");
            assert(s@ =~= seq![dec_digit(5)]);
        }
        s
    } else if n == 6 {
        let s = "6";
        proof {
            reveal_strlit("6");
            assert(s@ =~= seq![dec_digit(6)]);
        }
        s
    } else if n == 7 {
        let s = "7";
        proof {
            reveal_strlit("7");
            assert(s@ =~= seq![dec_digit(7)]);
        }
        s
    } else if n == 8 {
        let s = "8";
        proof {
            reveal_strlit("8");
            assert(s@ =~= seq![dec_digit(8)]);
        }
        s
    } else {
        let s = "9";
        proof {
            reveal_strlit("9");
            assert(s@ =~= seq![dec_digit(9)]);
        }
        s
    }
}

/// The decimal numeral of `n` as a `String`.
pub fn num_string(n: u64) -> (s: String)
    ensures
        s@ == dec_nat(n as nat),
    decreases n,
{
    let d = digit_str(n % 10);
    if n < 10 {
        String::from_str(d)
    } else {
        let mut s = num_string(n / 10);
        s.append(d);
        s
    }
}

/// The numeral of `n` zero-padded to two places, as a `String`.
pub fn pad2_string(n: u64) -> (s: String)
    ensures
        s@ == pad2(n as nat),
{
    if n < 10 {
        let z = "0";
        proof {
            reveal_strlit("0");
        }
        let mut s = String::from_str(z);
        s.append(digit_str(n));
        proof {
            assert(s@ =~= pad2(n as nat));
        }
        s
    } else {
        num_string(n)
    }
}

/// The numeral of `n` zero-padded to four places, as a `String`.
pub fn pad4_string(n: u64) -> (s: String)
    ensures
        s@ == pad4(n as nat),
{
    if n >= 1000 {
        num_string(n)
    } else {
        let z = if n < 10 {
            let z = "000";
            proof {
                reveal_strlit("000");
                assert(z@ =~= seq!['0', '0', '0']);
            }
            z
        } else if n < 100 {
            let z = "00";
            proof {
                reveal_strlit("00");
                assert(z@ =~= seq!['0', '0']);
            }
            z
        } else {
            let z = "0";
            proof {
                reveal_strlit("0");
                assert(z@ =~= seq!['0']);
            }
            z
        };
        let mut s = String::from_str(z);
        s.append(num_string(n).as_str());
        proof {
            assert(s@ =~= pad4(n as nat));
        }
        s
    }
}

} // verus!
