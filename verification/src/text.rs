//! Text building for the rendered report: single characters, decimal
//! numbers and comma-joined lists appended to a growing string.

use vstd::prelude::*;
use vstd::string::StrSliceExecFns;
use vstd::string::StringExecFns;

verus! {

/// Relies on `String::push`: appends exactly the one character `c` to
/// the end of `s`.
#[verifier::external_body]
pub fn push_char(s: &mut String, c: char)
    ensures
        final (s)@ == old(s)@.push(c),
{
    s.push(c);
}

/// The character of a decimal digit value.
pub open spec fn digit_char(d: int) -> char {
    if d == 0 {
        '0'
    } else if d == 1 {
        '1'
    } else if d == 2 {
        '2'
    } else if d == 3 {
        '3'
    } else if d == 4 {
        '4'
    } else if d == 5 {
        '5'
    } else if d == 6 {
        '6'
    } else if d == 7 {
        '7'
    } else if d == 8 {
        '8'
    } else {
        '9'
    }
}

/// The decimal digits of `n`, most significant first.
pub open spec fn dec_digits(n: nat) -> Seq<char>
    decreases n,
{
    if n < 10 {
        seq![digit_char(n as int)]
    } else {
        dec_digits(n / 10).push(digit_char((n % 10) as int))
    }
}

/// The decimal rendering of `n`, with a leading `-` when negative.
pub open spec fn int_str(n: int) -> Seq<char> {
    if n < 0 {
        seq!['-'] + dec_digits((-n) as nat)
    } else {
        dec_digits(n as nat)
    }
}

/// The character of a digit value, executable twin of [`digit_char`].
fn digit_char_exec(d: u64) -> (r: char)
    requires
        d < 10,
    ensures
        r == digit_char(d as int),
{
    if d == 0 {
        '0'
    } else if d == 1 {
        '1'
    } else if d == 2 {
        '2'
    } else if d == 3 {
        '3'
    } else if d == 4 {
        '4'
    } else if d == 5 {
        '5'
    } else if d == 6 {
        '6'
    } else if d == 7 {
        '7'
    } else if d == 8 {
        '8'
    } else {
        '9'
    }
}

/// Append the decimal digits of `n`.
fn push_u64_digits(out: &mut String, n: u64)
    ensures
        final (out)@ == old(out)@ + dec_digits(n as nat),
    decreases n,
{
    if n < 10 {
        push_char(out, digit_char_exec(n));
        proof {
            assert(final (out)@ =~= old(out)@ + dec_digits(n as nat));
        }
    } else {
        push_u64_digits(out, n / 10);
        push_char(out, digit_char_exec(n % 10));
        proof {
            assert(final (out)@ =~= old(out)@ + dec_digits(n as nat));
        }
    }
}

/// Append the decimal rendering of `n`, sign included.
pub fn push_i64(out: &mut String, n: i64)
    ensures
        final (out)@ == old(out)@ + int_str(n as int),
{
    if n < 0 {
        push_char(out, '-');
        let magnitude: u64 = ((-(n + 1)) as u64) + 1;
        proof {
            assert(magnitude as int == -(n as int));
        }
        push_u64_digits(out, magnitude);
        proof {
            assert(final (out)@ =~= old(out)@ + int_str(n as int));
        }
    } else {
        push_u64_digits(out, n as u64);
    }
}

/// The items joined by a comma and a space.
pub open spec fn join_comma(items: Seq<Seq<char>>) -> Seq<char>
    decreases items.len(),
{
    if items.len() == 0 {
        Seq::empty()
    } else if items.len() == 1 {
        items[0]
    } else {
        join_comma(items.drop_last()) + ", "@ + items.last()
    }
}

/// Append the items joined by a comma and a space.
pub fn push_joined(out: &mut String, items: &Vec<String>)
    ensures
        final (out)@ == old(out)@ + join_comma(items@.map_values(|s: String| s@)),
{
    let ghost views: Seq<Seq<char>> = items@.map_values(|s: String| s@);
    let mut i: usize = 0;
    while i < items.len()
        invariant
            0 <= i <= items.len(),
            views == items@.map_values(|s: String| s@),
            out@ == old(out)@ + join_comma(views.take(i as int)),
        decreases items@.len() - i,
    {
        if i > 0 {
            proof {
                reveal_strlit(", ");
            }
            out.append(", ");
        }
        let item: &String = &items[i];
        out.append(item.as_str());
        proof {
            assert(views.take(i as int + 1).drop_last() =~= views.take(i as int));
            assert(views.take(i as int + 1).last() == views[i as int]);
            if i == 0 {
                assert(join_comma(views.take(1)) == views[0]);
                assert(out@ =~= old(out)@ + join_comma(views.take(i as int + 1)));
            } else {
                assert(out@ =~= old(out)@ + join_comma(views.take(i as int + 1)));
            }
        }
        i = i + 1;
    }
    proof {
        assert(views.take(items@.len() as int) =~= views);
    }
}

} // verus!
