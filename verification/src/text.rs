//! Decimal text for the score display.

use vstd::prelude::*;

verus! {

/// The characters of an optional text.
pub open spec fn text_of(t: Option<String>) -> Option<Seq<char>> {
    match t {
        Some(s) => Some(s@),
        None => None,
    }
}

/// The character of the decimal digit `d`.
pub open spec fn digit(d: nat) -> char {
    if d == 0 {
        '0'
    } else if d == 1 {
        '1'
    } else if d == 2 {
        '2'
    } else if d == 3 {
        '3'
    } else if d == 4 {
        '4'
    } else if d == 5 {
        '5'
    } else if d == 6 {
        '6'
    } else if d == 7 {
        '7'
    } else if d == 8 {
        '8'
    } else {
        '9'
    }
}

/// The decimal digits of `n`, most significant first, with no leading zero
/// but for `0` itself.
pub open spec fn decimal(n: nat) -> Seq<char>
    decreases n,
{
    if n < 10 {
        seq![digit(n)]
    } else {
        decimal(n / 10).push(digit(n % 10))
    }
}

fn digit_str(d: u32) -> (s: &'static str)
    requires
        d < 10,
    ensures
        s@ == seq![digit(d as nat)],
{
    proof {
        reveal_strlit("0");
        reveal_strlit("1");
        reveal_strlit("2");
        reveal_strlit("3");
        reveal_strlit("4");
        reveal_strlit("5");
        reveal_strlit("6");
        reveal_strlit("7");
        reveal_strlit("8");
        reveal_strlit("9");
    }
    let s = match d {
        0 => "0",
        1 => "1",
        2 => "2",
        3 => "3",
        4 => "4",
        5 => "5",
        6 => "6",
        7 => "7",
        8 => "8",
        _ => "9",
    };
    assert(s@ =~= seq![digit(d as nat)]);
    s
}

/// Writes `n` in decimal.
pub fn number_text(n: u32) -> (s: String)
    ensures
        s@ == decimal(n as nat),
{
    let mut s = String::from_str(digit_str(n % 10));
    let mut rest: u32 = n / 10;
    assert(decimal(n as nat) =~= if rest == 0 {
        s@
    } else {
        decimal(rest as nat) + s@
    });
    while rest > 0
        invariant
            decimal(n as nat) == (if rest == 0 {
                s@
            } else {
                decimal(rest as nat) + s@
            }),
        decreases rest,
    {
        let ghost tail = s@;
        let head = String::from_str(digit_str(rest % 10));
        s = head.concat(s.as_str());
        let ghost whole = rest;
        rest = rest / 10;
        assert(decimal(n as nat) =~= if rest == 0 {
            s@
        } else {
            decimal(rest as nat) + s@
        }) by {
            if rest != 0 {
                assert(decimal(whole as nat) == decimal(rest as nat).push(digit((whole % 10) as nat)));
                assert(decimal(rest as nat).push(digit((whole % 10) as nat)) + tail =~= decimal(
                    rest as nat,
                ) + (seq![digit((whole % 10) as nat)] + tail));
            }
        }
    }
    s
}

/// The text shown in place of the title once a session has ended with the
/// score display reading `last_score`.
pub open spec fn final_score_text(last_score: Seq<char>) -> Seq<char> {
    "Your Score: "@ + last_score
}

/// Writes [`final_score_text`].
pub fn final_score(last_score: &str) -> (s: String)
    ensures
        s@ == final_score_text(last_score@),
{
    String::from_str("Your Score: ").concat(last_score)
}

} // verus!
