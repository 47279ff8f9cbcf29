//! Decimal rendering of integers and fixed-point values.
use vstd::prelude::*;
use vstd::string::StringExecFns;

verus! {

/// The decimal digit that stands for `d`, for `d` in `0..10`.
pub open spec fn digit_char(d: int) -> char {
    if d == 0 {
        '0'
    } else if d == 1 {
        '1'
    } else if d == 2 {
        '2'
    } else if d == 3 {
        '3'
    } else if d == 4 {
        '4'
    } else if d == 5 {
        '5'
    } else if d == 6 {
        '6'
    } else if d == 7 {
        '7'
    } else if d == 8 {
        '8'
    } else {
        '9'
    }
}

/// Decimal digits of `n`, without leading zeros.
pub open spec fn decimal(n: nat) -> Seq<char>
    decreases n,
{
    if n < 10 {
        seq![digit_char(n as int)]
    } else {
        decimal(n / 10) + seq![digit_char((n % 10) as int)]
    }
}

/// The last `width` decimal digits of `f`, with leading zeros.
pub open spec fn padded(f: nat, width: nat) -> Seq<char>
    decreases width,
{
    if width == 0 {
        Seq::empty()
    } else {
        padded(f / 10, (width - 1) as nat) + seq![digit_char((f % 10) as int)]
    }
}

/// `f`, a fraction of `width` digits, with its trailing zeros removed:
/// the remaining digits and their number.
pub open spec fn trimmed(f: nat, width: nat) -> (nat, nat)
    decreases width,
{
    if width > 0 && f % 10 == 0 {
        trimmed(f / 10, (width - 1) as nat)
    } else {
        (f, width)
    }
}

/// `whole`, then, when the fraction `frac` of `width` digits is not zero, a
/// point and the digits of the fraction without trailing zeros.
pub open spec fn fixed_point(whole: nat, frac: nat, width: nat) -> Seq<char> {
    if frac == 0 {
        decimal(whole)
    } else {
        decimal(whole) + seq!['.'] + padded(trimmed(frac, width).0, trimmed(frac, width).1)
    }
}

fn digit_str(d: u64) -> (r: &'static str)
    requires
        d < 10,
    ensures
        r@ == seq![digit_char(d as int)],
{
    match d {
        0 => {
            proof {
                reveal_strlit("0");
            }
            "0"
        },
        1 => {
            proof {
                reveal_strlit("1");
            }
            "1"
        },
        2 => {
            proof {
                reveal_strlit("2");
            }
            "2"
        },
        3 => {
            proof {
                reveal_strlit("3");
            }
            "3"
        },
        4 => {
            proof {
                reveal_strlit("4");
            }
            "4"
        },
        5 => {
            proof {
                reveal_strlit("5");
            }
            "5"
        },
        6 => {
            proof {
                reveal_strlit("6");
            }
            "6"
        },
        7 => {
            proof {
                reveal_strlit("7");
            }
            "7"
        },
        8 => {
            proof {
                reveal_strlit("8");
            }
            "8"
        },
        _ => {
            proof {
                reveal_strlit("9");
            }
            "9"
        },
    }
}

/// Appends the decimal digits of `n`.
pub fn push_decimal(s: &mut String, n: u64)
    ensures
        final(s)@ == old(s)@ + decimal(n as nat),
    decreases n,
{
    if n >= 10 {
        push_decimal(s, n / 10);
    }
    s.append(digit_str(n % 10));
    proof {
        if n >= 10 {
            assert(old(s)@ + decimal((n / 10) as nat) + seq![digit_char((n % 10) as int)] =~= old(s)@
                + decimal(n as nat));
        } else {
            assert(n % 10 == n);
        }
    }
}

/// Appends the last `width` decimal digits of `f`, with leading zeros.
fn push_padded(s: &mut String, f: u64, width: u32)
    ensures
        final(s)@ == old(s)@ + padded(f as nat, width as nat),
    decreases width,
{
    if width > 0 {
        push_padded(s, f / 10, width - 1);
        s.append(digit_str(f % 10));
        assert(old(s)@ + padded((f / 10) as nat, (width - 1) as nat) + seq![
            digit_char((f % 10) as int),
        ] =~= old(s)@ + padded(f as nat, width as nat));
    } else {
        assert(old(s)@ + padded(f as nat, 0) =~= old(s)@);
    }
}

/// Appends `whole` and, when `frac` is not zero, a point and the `width`
/// digits of `frac` without trailing zeros.
pub fn push_fixed_point(s: &mut String, whole: u64, frac: u64, width: u32)
    ensures
        final(s)@ == old(s)@ + fixed_point(whole as nat, frac as nat, width as nat),
{
    push_decimal(s, whole);
    if frac != 0 {
        let mut f: u64 = frac;
        let mut w: u32 = width;
        while w > 0 && f % 10 == 0
            invariant
                trimmed(f as nat, w as nat) == trimmed(frac as nat, width as nat),
            decreases w,
        {
            f = f / 10;
            w = w - 1;
        }
        proof {
            reveal_strlit(".");
        }
        s.append(".");
        push_padded(s, f, w);
        assert(old(s)@ + decimal(whole as nat) + seq!['.'] + padded(f as nat, w as nat) =~= old(s)@
            + fixed_point(whole as nat, frac as nat, width as nat));
    }
}

} // verus!
