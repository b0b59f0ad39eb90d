use vstd::prelude::*;
use crate::citation::{keys_of, Citations};

verus! {

/// The character of a decimal digit.
pub open spec fn digit_char(d: nat) -> char {
    if d == 0 {
        '0'
    } else if d == 1 {
        '1'
    } else if d == 2 {
        '2'
    } else if d == 3 {
        '3'
    } else if d == 4 {
        '4'
    } else if d == 5 {
        '5'
    } else if d == 6 {
        '6'
    } else if d == 7 {
        '7'
    } else if d == 8 {
        '8'
    } else {
        '9'
    }
}

/// The decimal digits of `n`, most significant first, without leading zeros.
pub open spec fn decimal(n: nat) -> Seq<char>
    decreases n,
{
    if n < 10 {
        seq![digit_char(n)]
    } else {
        decimal(n / 10).push(digit_char(n % 10))
    }
}

/// Relies on the `Display` of `usize` (through `to_string`): its decimal digits.
#[verifier::external_body]
fn decimal_string(n: usize) -> (r: String)
    ensures
        r@ == decimal(n as nat),
{
    n.to_string()
}

/// The lines of the report for the given uncited keys: one confirmation line
/// when there are none; otherwise a line with their count, then each key on
/// a line of its own, in order.
pub open spec fn report(uncited_keys: Seq<Seq<char>>) -> Seq<Seq<char>> {
    if uncited_keys.len() == 0 {
        seq!["All sources cited"@]
    } else {
        seq![decimal(uncited_keys.len()) + " Sources not cited:"@] + uncited_keys
    }
}

/// The lines that report the uncited records `differences`.
pub fn report_lines(differences: &Vec<Citations>) -> (r: Vec<String>)
    ensures
        r.deep_view() == report(keys_of(differences@)),
{
    let mut lines: Vec<String> = Vec::new();
    if differences.len() == 0 {
        lines.push(String::from_str("All sources cited"));
        assert(lines.deep_view() =~= report(keys_of(differences@)));
        return lines;
    }
    let count = decimal_string(differences.len());
    lines.push(count.concat(" Sources not cited:"));
    let ghost head = lines.deep_view();
    let mut i: usize = 0;
    while i < differences.len()
        invariant
            i <= differences.len(),
            head.len() == 1,
            lines.deep_view() == head + keys_of(differences@).subrange(0, i as int),
        decreases differences.len() - i,
    {
        let line = differences[i].to_string();
        let ghost before = lines.deep_view();
        lines.push(line);
        assert(lines.deep_view() =~= before.push(line@)) by {
            assert(lines@.len() == before.len() + 1);
            assert(lines@[before.len() as int] == line);
        }
        assert(lines.deep_view() =~= head + keys_of(differences@).subrange(0, i + 1));
        i += 1;
    }
    assert(keys_of(differences@).subrange(0, differences@.len() as int) =~= keys_of(
        differences@,
    ));
    assert(lines.deep_view() =~= report(keys_of(differences@)));
    lines
}

} // verus!
