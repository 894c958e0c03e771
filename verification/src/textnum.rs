//! Decimal rendering of integers, for the diagnostic row count.

use vstd::prelude::*;
use vstd::string::StringExecFns;

verus! {

/// The decimal digit character for `d`.
pub open spec fn spec_digit_char(d: nat) -> char {
    if d == 0 {
        '0'
    } else if d == 1 {
        '1'
    } else if d == 2 {
        '2'
    } else if d == 3 {
        '3'
    } else if d == 4 {
        '4'
    } else if d == 5 {
        '5'
    } else if d == 6 {
        '6'
    } else if d == 7 {
        '7'
    } else if d == 8 {
        '8'
    } else {
        '9'
    }
}

/// The decimal digits of `n`, most significant first, no leading zeros
/// (except for `n == 0` itself).
pub open spec fn spec_u64_digits(n: nat) -> Seq<char>
    decreases n,
{
    if n < 10 {
        seq![spec_digit_char(n)]
    } else {
        spec_u64_digits(n / 10) + seq![spec_digit_char(n % 10)]
    }
}

/// The decimal rendering of `n`, with a leading minus sign when negative.
pub open spec fn spec_i64_text(n: int) -> Seq<char> {
    if n < 0 {
        seq!['-'] + spec_u64_digits((-n) as nat)
    } else {
        spec_u64_digits(n as nat)
    }
}

fn push_digit(s: &mut String, d: u64)
    requires
        d < 10,
    ensures
        final(s)@ == old(s)@ + seq![spec_digit_char(d as nat)],
{
    if d == 0 {
        proof {
            reveal_strlit("0");
            assert("0"@ =~= seq![spec_digit_char(d as nat)]);
        }
        s.append("0");
    } else if d == 1 {
        proof {
            reveal_strlit("1");
            assert("1"@ =~= seq![spec_digit_char(d as nat)]);
        }
        s.append("1");
    } else if d == 2 {
        proof {
            reveal_strlit("2");
            assert("2"@ =~= seq![spec_digit_char(d as nat)]);
        }
        s.append("2");
    } else if d == 3 {
        proof {
            reveal_strlit("3");
            assert("3"@ =~= seq![spec_digit_char(d as nat)]);
        }
        s.append("3");
    } else if d == 4 {
        proof {
            reveal_strlit("4");
            assert("4"@ =~= seq![spec_digit_char(d as nat)]);
        }
        s.append("4");
    } else if d == 5 {
        proof {
            reveal_strlit("5");
            assert("5"@ =~= seq![spec_digit_char(d as nat)]);
        }
        s.append("5");
    } else if d == 6 {
        proof {
            reveal_strlit("6");
            assert("6"@ =~= seq![spec_digit_char(d as nat)]);
        }
        s.append("6");
    } else if d == 7 {
        proof {
            reveal_strlit("7");
            assert("7"@ =~= seq![spec_digit_char(d as nat)]);
        }
        s.append("7");
    } else if d == 8 {
        proof {
            reveal_strlit("8");
            assert("8"@ =~= seq![spec_digit_char(d as nat)]);
        }
        s.append("8");
    } else {
        proof {
            reveal_strlit("9");
            assert("9"@ =~= seq![spec_digit_char(d as nat)]);
        }
        s.append("9");
    }
}

fn push_u64(s: &mut String, n: u64)
    ensures
        final(s)@ == old(s)@ + spec_u64_digits(n as nat),
    decreases n,
{
    if n >= 10 {
        push_u64(s, n / 10);
    }
    push_digit(s, n % 10);
    proof {
        if n < 10 {
            assert(s@ =~= old(s)@ + spec_u64_digits(n as nat));
        } else {
            assert(s@ =~= old(s)@ + spec_u64_digits(n as nat));
        }
    }
}

/// Renders `n` in decimal, exactly as [`spec_i64_text`] says.
pub fn i64_to_text(n: i64) -> (r: String)
    ensures
        r@ == spec_i64_text(n as int),
{
    let mut s = String::new();
    if n < 0 {
        proof {
            reveal_strlit("-");
        }
        s.append("-");
        proof {
            assert(s@ =~= seq!['-']);
        }
        let m: u64 = (-(n as i128)) as u64;
        proof {
            assert(m as nat == (-(n as int)) as nat);
        }
        push_u64(&mut s, m);
        proof {
            assert(s@ =~= spec_i64_text(n as int));
        }
    } else {
        push_u64(&mut s, n as u64);
    }
    s
}

} // verus!
