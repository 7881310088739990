//! Rendering a list to text: each value in decimal, head to tail, with
//! `", "` after every value (the last one included), the empty list
//! rendering to the empty string.

use vstd::prelude::*;
use vstd::string::StringExecFns;
use crate::list::{LinkedList, construct_values, values};

verus! {

/// The character for one decimal digit.
pub open spec fn digit_char(d: nat) -> char {
    if d == 0 {
        '0'
    } else if d == 1 {
        '1'
    } else if d == 2 {
        '2'
    } else if d == 3 {
        '3'
    } else if d == 4 {
        '4'
    } else if d == 5 {
        '5'
    } else if d == 6 {
        '6'
    } else if d == 7 {
        '7'
    } else if d == 8 {
        '8'
    } else {
        '9'
    }
}

/// The decimal digits of `n`, most significant first, with no sign and
/// no leading zero (a single `'0'` for zero itself).
pub open spec fn dec_digits(n: nat) -> Seq<char>
    decreases n,
{
    if n < 10 {
        seq![digit_char(n)]
    } else {
        dec_digits(n / 10).push(digit_char(n % 10))
    }
}

/// The decimal rendering of an integer: a leading `'-'` for a negative
/// value, then the digits of its magnitude.
pub open spec fn int_chars(v: int) -> Seq<char> {
    if v < 0 {
        seq!['-'] + dec_digits((-v) as nat)
    } else {
        dec_digits(v as nat)
    }
}

/// The rendering of a whole value sequence: every value followed by a
/// comma and a space, including the last.
pub open spec fn rendered(vals: Seq<i64>) -> Seq<char>
    decreases vals.len(),
{
    if vals.len() == 0 {
        Seq::empty()
    } else {
        int_chars(vals[0] as int) + seq![',', ' '] + rendered(vals.drop_first())
    }
}

/// A list built with length zero renders to the empty string, whatever
/// its start value.
pub proof fn lemma_render_empty_construction(start: int)
    ensures
        rendered(construct_values(0, start)) == Seq::<char>::empty(),
{
}

/// The one-character slice holding one decimal digit.
fn digit_str(d: u64) -> (s: &'static str)
    requires
        d < 10,
    ensures
        s@ == seq![digit_char(d as nat)],
{
    proof {
        reveal_strlit("0");
        reveal_strlit("1");
        reveal_strlit("2");
        reveal_strlit("3");
        reveal_strlit("4");
        reveal_strlit("5");
        reveal_strlit("6");
        reveal_strlit("7");
        reveal_strlit("8");
        reveal_strlit("9");
    }
    let s: &'static str = if d == 0 {
        "0"
    } else if d == 1 {
        "1"
    } else if d == 2 {
        "2"
    } else if d == 3 {
        "3"
    } else if d == 4 {
        "4"
    } else if d == 5 {
        "5"
    } else if d == 6 {
        "6"
    } else if d == 7 {
        "7"
    } else if d == 8 {
        "8"
    } else {
        "9"
    };
    proof {
        assert(s@ =~= seq![digit_char(d as nat)]);
    }
    s
}

/// Appends the decimal digits of `n` to `s`, most significant first.
fn push_decimal(s: &mut String, n: u64)
    ensures
        final(s)@ == old(s)@ + dec_digits(n as nat),
    decreases n,
{
    if n >= 10 {
        push_decimal(s, n / 10);
    }
    let d = n % 10;
    s.append(digit_str(d));
    proof {
        if n < 10 {
            assert(old(s)@ + dec_digits(n as nat) =~= old(s)@ + seq![digit_char(n as nat)]);
        } else {
            assert(old(s)@ + dec_digits((n / 10) as nat).push(digit_char((n % 10) as nat))
                =~= (old(s)@ + dec_digits((n / 10) as nat)) + seq![digit_char((n % 10) as nat)]);
        }
    }
}

/// Renders one value in decimal, with a leading `'-'` when negative.
pub fn value_string(v: i64) -> (s: String)
    ensures
        s@ == int_chars(v as int),
{
    let mut s = String::new();
    if v >= 0 {
        push_decimal(&mut s, v as u64);
    } else {
        s.append("-");
        proof {
            reveal_strlit("-");
            assert(Seq::<char>::empty() + "-"@ =~= seq!['-']);
        }
        let mag: u64 = ((-(v + 1)) as u64) + 1;
        assert(mag == -(v as int));
        push_decimal(&mut s, mag);
        assert(s@ =~= int_chars(v as int));
    }
    s
}

/// Renders the whole list, head to tail, without consuming or changing
/// it: each value in decimal, each followed by `", "`.
pub fn print_list(p: &LinkedList) -> (s: String)
    ensures
        s@ == rendered(values(*p)),
    decreases *p,
{
    match p {
        None => String::new(),
        Some(node) => {
            let mut s = value_string(node.val);
            s.append(", ");
            let rest = print_list(&node.tail);
            s.append(rest.as_str());
            proof {
                reveal_strlit(", ");
                assert(", "@ =~= seq![',', ' ']);
                assert(values(*p).drop_first() =~= values(node.tail));
                assert(s@ =~= rendered(values(*p)));
            }
            s
        },
    }
}

} // verus!
