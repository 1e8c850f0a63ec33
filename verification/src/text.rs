//! Verified decimal rendering of port numbers, used to build URLs and
//! status messages.

use vstd::prelude::*;

verus! {

/// The character for a single decimal digit.
pub open spec fn digit_char(d: nat) -> char {
    if d == 0 {
        '0'
    } else if d == 1 {
        '1'
    } else if d == 2 {
        '2'
    } else if d == 3 {
        '3'
    } else if d == 4 {
        '4'
    } else if d == 5 {
        '5'
    } else if d == 6 {
        '6'
    } else if d == 7 {
        '7'
    } else if d == 8 {
        '8'
    } else {
        '9'
    }
}

/// The usual decimal rendering of `n`: no leading zeros, except that zero
/// itself is rendered "0".
pub open spec fn decimal_chars(n: nat) -> Seq<char>
    decreases n,
{
    if n < 10 {
        seq![digit_char(n)]
    } else {
        decimal_chars((n / 10) as nat) + seq![digit_char((n % 10) as nat)]
    }
}

fn digit_str(d: u16) -> (r: &'static str)
    requires
        d < 10,
    ensures
        r@ == seq![digit_char(d as nat)],
{
    proof {
        reveal_strlit("0");
        reveal_strlit("1");
        reveal_strlit("2");
        reveal_strlit("3");
        reveal_strlit("4");
        reveal_strlit("5");
        reveal_strlit("6");
        reveal_strlit("7");
        reveal_strlit("8");
        reveal_strlit("9");
    }
    if d == 0 {
        assert("0"@ =~= seq![digit_char(d as nat)]);
        "0"
    } else if d == 1 {
        assert("1"@ =~= seq![digit_char(d as nat)]);
        "1"
    } else if d == 2 {
        assert("2"@ =~= seq![digit_char(d as nat)]);
        "2"
    } else if d == 3 {
        assert("3"@ =~= seq![digit_char(d as nat)]);
        "3"
    } else if d == 4 {
        assert("4"@ =~= seq![digit_char(d as nat)]);
        "4"
    } else if d == 5 {
        assert("5"@ =~= seq![digit_char(d as nat)]);
        "5"
    } else if d == 6 {
        assert("6"@ =~= seq![digit_char(d as nat)]);
        "6"
    } else if d == 7 {
        assert("7"@ =~= seq![digit_char(d as nat)]);
        "7"
    } else if d == 8 {
        assert("8"@ =~= seq![digit_char(d as nat)]);
        "8"
    } else {
        assert("9"@ =~= seq![digit_char(d as nat)]);
        "9"
    }
}

/// Render `n` in decimal.
pub fn u16_decimal(n: u16) -> (r: String)
    ensures
        r@ == decimal_chars(n as nat),
{
    let mut rest: u16 = n;
    let mut acc: String = String::new();
    proof {
        assert(decimal_chars(n as nat) =~= decimal_chars(rest as nat) + acc@);
    }
    while rest >= 10
        invariant
            decimal_chars(n as nat) == decimal_chars(rest as nat) + acc@,
        decreases rest,
    {
        let d = rest % 10;
        let ghost prev: nat = rest as nat;
        acc = String::from_str(digit_str(d)).concat(acc.as_str());
        rest = rest / 10;
        proof {
            assert(decimal_chars(prev) == decimal_chars(rest as nat) + seq![
                digit_char(d as nat),
            ]);
            assert(decimal_chars(n as nat) =~= decimal_chars(rest as nat) + acc@);
        }
    }
    let r = String::from_str(digit_str(rest)).concat(acc.as_str());
    proof {
        assert(decimal_chars(rest as nat) =~= seq![digit_char(rest as nat)]);
        assert(r@ =~= decimal_chars(n as nat));
    }
    r
}

} // verus!
