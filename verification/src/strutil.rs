//! Small verified string helpers: decimal rendering of a port number
//! and space-joining of scope names.

use vstd::prelude::*;
use vstd::string::StringExecFns;

verus! {

/// The character for a single decimal digit.
pub open spec fn digit_char(d: nat) -> char {
    if d == 0 {
        '0'
    } else if d == 1 {
        '1'
    } else if d == 2 {
        '2'
    } else if d == 3 {
        '3'
    } else if d == 4 {
        '4'
    } else if d == 5 {
        '5'
    } else if d == 6 {
        '6'
    } else if d == 7 {
        '7'
    } else if d == 8 {
        '8'
    } else {
        '9'
    }
}

/// The decimal digits of `n`, most significant first, with no leading zero
/// except for `n == 0` itself.
pub open spec fn dec_digits(n: nat) -> Seq<char>
    decreases n,
{
    if n < 10 {
        seq![digit_char(n)]
    } else {
        dec_digits(n / 10).push(digit_char(n % 10))
    }
}

/// A one-character string slice for the digit `d`.
fn digit_str(d: u16) -> (r: &'static str)
    requires
        d < 10,
    ensures
        r@ == seq![digit_char(d as nat)],
{
    proof {
        reveal_strlit("0");
        reveal_strlit("1");
        reveal_strlit("2");
        reveal_strlit("3");
        reveal_strlit("4");
        reveal_strlit("5");
        reveal_strlit("6");
        reveal_strlit("7");
        reveal_strlit("8");
        reveal_strlit("9");
    }
    match d {
        0 => "0",
        1 => "1",
        2 => "2",
        3 => "3",
        4 => "4",
        5 => "5",
        6 => "6",
        7 => "7",
        8 => "8",
        _ => "9",
    }
}

/// Renders `n` in decimal.
pub fn u16_to_decimal(n: u16) -> (r: String)
    ensures
        r@ == dec_digits(n as nat),
    decreases n,
{
    if n < 10 {
        String::from_str(digit_str(n))
    } else {
        let mut s = u16_to_decimal(n / 10);
        s.append(digit_str(n % 10));
        assert(s@ == dec_digits((n / 10) as nat).push(digit_char((n % 10) as nat)));
        s
    }
}

/// The given pieces joined with a single space between neighbours.
pub open spec fn space_joined(xs: Seq<Seq<char>>) -> Seq<char>
    decreases xs.len(),
{
    if xs.len() == 0 {
        Seq::empty()
    } else if xs.len() == 1 {
        xs[0]
    } else {
        space_joined(xs.drop_last()) + seq![' '] + xs.last()
    }
}

/// The views of a sequence of strings.
pub open spec fn views_of(xs: Seq<String>) -> Seq<Seq<char>> {
    xs.map_values(|s: String| s@)
}

/// Joins the strings with single spaces, as scope lists are joined in an
/// authorization request.
pub fn join_with_spaces(xs: &Vec<String>) -> (r: String)
    ensures
        r@ == space_joined(views_of(xs@)),
{
    let mut r = String::new();
    let n = xs.len();
    for i in 0..n
        invariant
            n == xs@.len(),
            r@ == space_joined(views_of(xs@).take(i as int)),
    {
        if i > 0 {
            r.append(" ");
        }
        r.append(xs[i].as_str());
        proof {
            reveal_strlit(" ");
            let pre = views_of(xs@).take(i + 1);
            assert(pre.drop_last() =~= views_of(xs@).take(i as int));
            assert(pre.last() == xs@[i as int]@);
            assert(r@ =~= space_joined(pre));
        }
    }
    proof {
        assert(views_of(xs@).take(n as int) =~= views_of(xs@));
    }
    r
}

} // verus!
