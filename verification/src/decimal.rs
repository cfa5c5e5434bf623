use vstd::prelude::*;
use vstd::string::StringExecFns;

verus! {

/// The character of decimal digit `d` (0 to 9).
pub open spec fn digit_char(d: int) -> char {
    if d == 0 {
        '0'
    } else if d == 1 {
        '1'
    } else if d == 2 {
        '2'
    } else if d == 3 {
        '3'
    } else if d == 4 {
        '4'
    } else if d == 5 {
        '5'
    } else if d == 6 {
        '6'
    } else if d == 7 {
        '7'
    } else if d == 8 {
        '8'
    } else {
        '9'
    }
}

/// The decimal digits of `n`, most significant first, without leading zeros.
pub open spec fn digits_text(n: nat) -> Seq<char>
    decreases n,
{
    if n < 10 {
        seq![digit_char(n as int)]
    } else {
        digits_text(n / 10).push(digit_char((n % 10) as int))
    }
}

/// The decimal text of an integer: a minus sign for a negative value, then its digits.
pub open spec fn decimal_text(v: int) -> Seq<char> {
    if v < 0 {
        seq!['-'] + digits_text((-v) as nat)
    } else {
        digits_text(v as nat)
    }
}

fn digit_string(d: u128) -> (r: String)
    requires
        d < 10,
    ensures
        r@ == seq![digit_char(d as int)],
{
    match d {
        0 => {
            proof {
                reveal_strlit("0");
            }
            let r = String::from_str("0");
            proof {
                assert(r@ =~= seq!['0']);
            }
            r
        },
        1 => {
            proof {
                reveal_strlit("1");
            }
            let r = String::from_str("1");
            proof {
                assert(r@ =~= seq!['1']);
            }
            r
        },
        2 => {
            proof {
                reveal_strlit("2");
            }
            let r = String::from_str("2");
            proof {
                assert(r@ =~= seq!['2']);
            }
            r
        },
        3 => {
            proof {
                reveal_strlit("3");
            }
            let r = String::from_str("3");
            proof {
                assert(r@ =~= seq!['3']);
            }
            r
        },
        4 => {
            proof {
                reveal_strlit("4");
            }
            let r = String::from_str("4");
            proof {
                assert(r@ =~= seq!['4']);
            }
            r
        },
        5 => {
            proof {
                reveal_strlit("5");
            }
            let r = String::from_str("5");
            proof {
                assert(r@ =~= seq!['5']);
            }
            r
        },
        6 => {
            proof {
                reveal_strlit("6");
            }
            let r = String::from_str("6");
            proof {
                assert(r@ =~= seq!['6']);
            }
            r
        },
        7 => {
            proof {
                reveal_strlit("7");
            }
            let r = String::from_str("7");
            proof {
                assert(r@ =~= seq!['7']);
            }
            r
        },
        8 => {
            proof {
                reveal_strlit("8");
            }
            let r = String::from_str("8");
            proof {
                assert(r@ =~= seq!['8']);
            }
            r
        },
        _ => {
            proof {
                reveal_strlit("9");
            }
            let r = String::from_str("9");
            proof {
                assert(r@ =~= seq!['9']);
            }
            r
        },
    }
}

/// The decimal digits of `n`.
pub fn digits_string(n: u128) -> (r: String)
    ensures
        r@ == digits_text(n as nat),
    decreases n,
{
    if n < 10 {
        digit_string(n)
    } else {
        let s = digits_string(n / 10);
        let d = digit_string(n % 10);
        let r = s.concat(d.as_str());
        proof {
            assert(r@ =~= digits_text((n / 10) as nat).push(digit_char((n % 10) as int)));
        }
        r
    }
}

/// The decimal text of `v`, as integers are displayed.
pub fn decimal_string(v: i128) -> (r: String)
    ensures
        r@ == decimal_text(v as int),
{
    if v < 0 {
        let m: u128 = (-(v + 1)) as u128 + 1;
        proof {
            reveal_strlit("-");
        }
        let r = String::from_str("-").concat(digits_string(m).as_str());
        proof {
            assert(r@ =~= seq!['-'] + digits_text(m as nat));
        }
        r
    } else {
        digits_string(v as u128)
    }
}

} // verus!
