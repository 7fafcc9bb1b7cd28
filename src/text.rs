//! Decimal rendering of counters for narration and lists.

use vstd::prelude::*;
use vstd::string::*;

verus! {

/// The character of a decimal digit.
pub open spec fn digit_char(d: nat) -> char {
    if d == 0 {
        '0'
    } else if d == 1 {
        '1'
    } else if d == 2 {
        '2'
    } else if d == 3 {
        '3'
    } else if d == 4 {
        '4'
    } else if d == 5 {
        '5'
    } else if d == 6 {
        '6'
    } else if d == 7 {
        '7'
    } else if d == 8 {
        '8'
    } else {
        '9'
    }
}

/// The decimal digits of `n`, most significant first, without leading zeros.
pub open spec fn decimal_text(n: nat) -> Seq<char>
    decreases n,
{
    if n < 10 {
        seq![digit_char(n)]
    } else {
        decimal_text(n / 10).push(digit_char(n % 10))
    }
}

fn digit_str(d: u64) -> (r: &'static str)
    requires
        d < 10,
    ensures
        r@ == seq![digit_char(d as nat)],
{
    proof {
        reveal_strlit("0");
        reveal_strlit("1");
        reveal_strlit("2");
        reveal_strlit("3");
        reveal_strlit("4");
        reveal_strlit("5");
        reveal_strlit("6");
        reveal_strlit("7");
        reveal_strlit("8");
        reveal_strlit("9");
    }
    let r = if d == 0 {
        "0"
    } else if d == 1 {
        "1"
    } else if d == 2 {
        "2"
    } else if d == 3 {
        "3"
    } else if d == 4 {
        "4"
    } else if d == 5 {
        "5"
    } else if d == 6 {
        "6"
    } else if d == 7 {
        "7"
    } else if d == 8 {
        "8"
    } else {
        "9"
    };
    assert(r@ =~= seq![digit_char(d as nat)]);
    r
}

/// Renders `n` in decimal.
pub fn decimal(n: u64) -> (r: String)
    ensures
        r@ == decimal_text(n as nat),
{
    let mut m: u64 = n / 10;
    let mut s = String::from_str(digit_str(n % 10));
    while m > 0
        invariant
            m == 0 ==> decimal_text(n as nat) == s@,
            m > 0 ==> decimal_text(n as nat) == decimal_text(m as nat) + s@,
        decreases m,
    {
        let ghost old_s = s@;
        let d = String::from_str(digit_str(m % 10));
        s = d.concat(s.as_str());
        proof {
            let dm = decimal_text(m as nat);
            if m >= 10 {
                assert(dm == decimal_text((m / 10) as nat).push(digit_char((m % 10) as nat)));
                assert(dm + old_s =~= decimal_text((m / 10) as nat) + s@);
            } else {
                assert(dm + old_s =~= s@);
            }
        }
        m = m / 10;
    }
    s
}

} // verus!
