//! Verified text building: decimal rendering of AS numbers and the
//! comma-joined language list.

use vstd::prelude::*;
use vstd::string::StringExecFns;

verus! {

/// The character of one decimal digit.
pub open spec fn digit_char(d: nat) -> char {
    if d == 0 { '0' }
    else if d == 1 { '1' }
    else if d == 2 { '2' }
    else if d == 3 { '3' }
    else if d == 4 { '4' }
    else if d == 5 { '5' }
    else if d == 6 { '6' }
    else if d == 7 { '7' }
    else if d == 8 { '8' }
    else { '9' }
}

/// The decimal rendering of a number: most significant digit first, no
/// leading zeros (a lone zero for 0).
pub open spec fn dec_digits(n: nat) -> Seq<char>
    decreases n,
{
    if n < 10 {
        seq![digit_char(n)]
    } else {
        dec_digits(n / 10).push(digit_char(n % 10))
    }
}

/// Appends the character of one decimal digit.
fn push_digit(s: &mut String, d: u32)
    requires
        d < 10,
    ensures
        final(s)@ == old(s)@.push(digit_char(d as nat)),
{
    proof {
        reveal_strlit("0");
        reveal_strlit("1");
        reveal_strlit("2");
        reveal_strlit("3");
        reveal_strlit("4");
        reveal_strlit("5");
        reveal_strlit("6");
        reveal_strlit("7");
        reveal_strlit("8");
        reveal_strlit("9");
    }
    match d {
        0 => s.append("0"),
        1 => s.append("1"),
        2 => s.append("2"),
        3 => s.append("3"),
        4 => s.append("4"),
        5 => s.append("5"),
        6 => s.append("6"),
        7 => s.append("7"),
        8 => s.append("8"),
        _ => s.append("9"),
    }
    proof {
        assert(final(s)@ =~= old(s)@.push(digit_char(d as nat)));
    }
}

/// Renders a number in decimal.
pub fn u32_dec_string(n: u32) -> (r: String)
    ensures
        r@ == dec_digits(n as nat),
    decreases n,
{
    if n < 10 {
        let mut s = String::new();
        push_digit(&mut s, n);
        proof {
            assert(s@ =~= dec_digits(n as nat));
        }
        s
    } else {
        let mut s = u32_dec_string(n / 10);
        push_digit(&mut s, n % 10);
        proof {
            assert(s@ =~= dec_digits(n as nat));
        }
        s
    }
}

/// The language codes joined with a comma and a space, no trailing
/// separator.
pub open spec fn spec_join_codes(items: Seq<Seq<char>>) -> Seq<char>
    decreases items.len(),
{
    if items.len() == 0 {
        Seq::empty()
    } else if items.len() == 1 {
        items[0]
    } else {
        items[0] + ", "@ + spec_join_codes(items.drop_first())
    }
}

proof fn lemma_join_push(items: Seq<Seq<char>>, last: Seq<char>)
    ensures
        spec_join_codes(items.push(last)) == if items.len() == 0 {
            last
        } else {
            spec_join_codes(items) + ", "@ + last
        },
    decreases items.len(),
{
    let pushed = items.push(last);
    if items.len() == 0 {
        assert(pushed.len() == 1);
        assert(spec_join_codes(pushed) == pushed[0]);
        assert(pushed[0] == last);
    } else if items.len() == 1 {
        assert(pushed.len() == 2);
        assert(pushed.drop_first() =~= items.drop_first().push(last));
        assert(items.drop_first().push(last).len() == 1);
        assert(items.drop_first().push(last)[0] == last);
        assert(spec_join_codes(items.drop_first().push(last)) == last);
        assert(spec_join_codes(pushed) == pushed[0] + ", "@ + spec_join_codes(
            pushed.drop_first(),
        ));
        assert(spec_join_codes(pushed) == pushed[0] + ", "@ + last);
        assert(pushed[0] == items[0]);
        assert(spec_join_codes(items) == items[0]);
    } else {
        assert(pushed.drop_first() =~= items.drop_first().push(last));
        lemma_join_push(items.drop_first(), last);
        assert(spec_join_codes(pushed) == pushed[0] + ", "@ + spec_join_codes(
            items.drop_first().push(last),
        ));
        assert(pushed[0] == items[0]);
        assert(spec_join_codes(items.drop_first().push(last)) == spec_join_codes(
            items.drop_first(),
        ) + ", "@ + last);
        assert(items[0] + ", "@ + (spec_join_codes(items.drop_first()) + ", "@ + last) =~= (items[0]
            + ", "@ + spec_join_codes(items.drop_first())) + ", "@ + last);
    }
}

/// Joins language codes with ", ": the metadata-only output line.
pub fn join_language_codes(codes: &Vec<String>) -> (r: String)
    ensures
        r@ == spec_join_codes(codes@.map_values(|s: String| s@)),
{
    let ghost views = codes@.map_values(|s: String| s@);
    let mut out = String::new();
    let mut i: usize = 0;
    while i < codes.len()
        invariant
            0 <= i <= codes.len(),
            views == codes@.map_values(|s: String| s@),
            out@ == spec_join_codes(views.take(i as int)),
        decreases codes.len() - i,
    {
        if i > 0 {
            out.append(", ");
        }
        out.append(codes[i].as_str());
        proof {
            assert(views.take(i as int).push(views[i as int]) =~= views.take(i + 1 as int));
            lemma_join_push(views.take(i as int), views[i as int]);
            assert(views[i as int] == codes@[i as int]@);
            assert(out@ =~= spec_join_codes(views.take(i + 1 as int)));
        }
        i = i + 1;
    }
    proof {
        assert(views.take(codes@.len() as int) =~= views);
    }
    out
}

} // verus!
