//! Rendering of the query answer: a counter value as a decimal string,
//! prefixed by its parity.

use vstd::prelude::*;
use vstd::string::StringExecFns;

verus! {

/// The character for one decimal digit.
pub open spec fn digit_char(d: int) -> char {
    if d == 0 {
        '0'
    } else if d == 1 {
        '1'
    } else if d == 2 {
        '2'
    } else if d == 3 {
        '3'
    } else if d == 4 {
        '4'
    } else if d == 5 {
        '5'
    } else if d == 6 {
        '6'
    } else if d == 7 {
        '7'
    } else if d == 8 {
        '8'
    } else {
        '9'
    }
}

/// The decimal digits of `n`, most significant first, with no leading
/// zeros (zero itself is the single character `'0'`).
pub open spec fn dec_digits(n: nat) -> Seq<char>
    decreases n,
{
    if n < 10 {
        seq![digit_char(n as int)]
    } else {
        dec_digits(n / 10) + seq![digit_char((n % 10) as int)]
    }
}

/// The decimal rendering of a signed integer: the digits of its
/// magnitude, with a leading `'-'` when it is negative.
pub open spec fn dec_string(c: int) -> Seq<char> {
    if c < 0 {
        seq!['-'] + dec_digits((-c) as nat)
    } else {
        dec_digits(c as nat)
    }
}

/// The query answer for counter value `c`.  A count is even exactly when
/// it is divisible by two; for negative counts this agrees with Rust's
/// truncating remainder, since both name the same set of integers.
pub open spec fn even_odd_string(c: int) -> Seq<char> {
    if c % 2 == 0 {
        "Even Number: "@ + dec_string(c)
    } else {
        "Odd Number: "@ + dec_string(c)
    }
}

/// One decimal digit as a one-character string slice.
fn digit_str(d: u32) -> (s: &'static str)
    requires
        d < 10,
    ensures
        s@ == seq![digit_char(d as int)],
{
    if d == 0 {
        proof {
            reveal_strlit("0");
            assert("0"@ =~= seq![digit_char(d as int)]);
        }
        "0"
    } else if d == 1 {
        proof {
            reveal_strlit("1");
            assert("1"@ =~= seq![digit_char(d as int)]);
        }
        "1"
    } else if d == 2 {
        proof {
            reveal_strlit("2");
            assert("2"@ =~= seq![digit_char(d as int)]);
        }
        "2"
    } else if d == 3 {
        proof {
            reveal_strlit("3");
            assert("3"@ =~= seq![digit_char(d as int)]);
        }
        "3"
    } else if d == 4 {
        proof {
            reveal_strlit("4");
            assert("4"@ =~= seq![digit_char(d as int)]);
        }
        "4"
    } else if d == 5 {
        proof {
            reveal_strlit("5");
            assert("5"@ =~= seq![digit_char(d as int)]);
        }
        "5"
    } else if d == 6 {
        proof {
            reveal_strlit("6");
            assert("6"@ =~= seq![digit_char(d as int)]);
        }
        "6"
    } else if d == 7 {
        proof {
            reveal_strlit("7");
            assert("7"@ =~= seq![digit_char(d as int)]);
        }
        "7"
    } else if d == 8 {
        proof {
            reveal_strlit("8");
            assert("8"@ =~= seq![digit_char(d as int)]);
        }
        "8"
    } else {
        proof {
            reveal_strlit("9");
            assert("9"@ =~= seq![digit_char(d as int)]);
        }
        "9"
    }
}

/// Appends the decimal digits of `n` to `out`.
fn push_digits(n: u32, out: &mut String)
    ensures
        final(out)@ == old(out)@ + dec_digits(n as nat),
    decreases n,
{
    if n >= 10 {
        push_digits(n / 10, out);
    }
    out.append(digit_str(n % 10));
    proof {
        assert(final(out)@ =~= old(out)@ + dec_digits(n as nat));
    }
}

/// The decimal rendering of `c`, as [`dec_string`] describes it.
pub fn render_int(c: i32) -> (s: String)
    ensures
        s@ == dec_string(c as int),
{
    let mut s = String::new();
    let magnitude: u32;
    if c < 0 {
        proof {
            reveal_strlit("-");
        }
        s.append("-");
        magnitude = (-(c as i64)) as u32;
        proof {
            assert(magnitude == -(c as int));
            assert(s@ =~= seq!['-']);
        }
    } else {
        magnitude = c as u32;
    }
    push_digits(magnitude, &mut s);
    proof {
        assert(s@ =~= dec_string(c as int));
    }
    s
}

/// Whether the counter value is even, that is, divisible by two.
pub fn is_even(c: i32) -> (b: bool)
    ensures
        b == (c as int % 2 == 0),
{
    c % 2 == 0
}

/// Renders the query answer for counter value `c`:
/// `"Even Number: <c>"` when `c` is even, `"Odd Number: <c>"` otherwise.
pub fn render_even_odd(c: i32) -> (s: String)
    ensures
        s@ == even_odd_string(c as int),
{
    let mut s = if is_even(c) {
        "Even Number: ".to_owned()
    } else {
        "Odd Number: ".to_owned()
    };
    let digits = render_int(c);
    s.append(digits.as_str());
    s
}

} // verus!
