//! Names of the working directories of the jobs of a sweep.
//!
//! Every job simulates in a directory of its own, named after the swept leg
//! family, the code and the index of the bias point, so that no two jobs of
//! a sweep write to the same place.

use vstd::prelude::*;
use crate::driver::sweep::{LegKind, SimulationJob};

verus! {

/// The character of a decimal digit.
pub open spec fn digit(d: nat) -> char {
    if d == 0 {
        '0'
    } else if d == 1 {
        '1'
    } else if d == 2 {
        '2'
    } else if d == 3 {
        '3'
    } else if d == 4 {
        '4'
    } else if d == 5 {
        '5'
    } else if d == 6 {
        '6'
    } else if d == 7 {
        '7'
    } else if d == 8 {
        '8'
    } else {
        '9'
    }
}

/// The decimal numeral of `n`, without leading zeros.
pub open spec fn decimal_digits(n: nat) -> Seq<char>
    decreases n,
{
    if n < 10 {
        seq![digit(n)]
    } else {
        decimal_digits(n / 10).push(digit(n % 10))
    }
}

/// The tag of a leg family in a directory name.
pub open spec fn leg_tag(leg: LegKind) -> Seq<char> {
    match leg {
        LegKind::PullUp => seq!['p', 'u'],
        LegKind::PullDown => seq!['p', 'd'],
    }
}

/// The directory name of a job: the tag of its leg family, `_code`, the
/// code, `_vin` and the index of the bias point.
pub open spec fn dir_name_view(job: SimulationJob) -> Seq<char> {
    leg_tag(job.leg) + seq!['_', 'c', 'o', 'd', 'e'] + decimal_digits(job.code as nat) + seq![
        '_',
        'v',
        'i',
        'n',
    ] + decimal_digits(job.bias_index as nat)
}

/// The number that a sequence of digit characters is the decimal numeral of.
pub open spec fn numeral_value(digits: Seq<char>) -> nat
    decreases digits.len(),
{
    if digits.len() == 0 {
        0
    } else {
        10 * numeral_value(digits.drop_last()) + digit_value(digits.last())
    }
}

/// The digit that a character stands for, and ten for any other character.
pub open spec fn digit_value(c: char) -> nat {
    if c == '0' {
        0
    } else if c == '1' {
        1
    } else if c == '2' {
        2
    } else if c == '3' {
        3
    } else if c == '4' {
        4
    } else if c == '5' {
        5
    } else if c == '6' {
        6
    } else if c == '7' {
        7
    } else if c == '8' {
        8
    } else if c == '9' {
        9
    } else {
        10
    }
}

/// A numeral is not empty, consists of digits, and is the numeral of its
/// number only.
pub proof fn lemma_decimal_digits(n: nat)
    ensures
        decimal_digits(n).len() >= 1,
        forall|i: int|
            0 <= i < decimal_digits(n).len() ==> digit_value(#[trigger] decimal_digits(n)[i]) < 10,
        numeral_value(decimal_digits(n)) == n,
    decreases n,
{
    if n < 10 {
        assert(decimal_digits(n).drop_last() =~= Seq::<char>::empty());
        assert(numeral_value(decimal_digits(n).drop_last()) == 0);
    } else {
        lemma_decimal_digits(n / 10);
        assert(decimal_digits(n).drop_last() =~= decimal_digits(n / 10));
        assert forall|i: int| 0 <= i < decimal_digits(n).len() implies digit_value(
            #[trigger] decimal_digits(n)[i],
        ) < 10 by {
            if i < decimal_digits(n / 10).len() {
                assert(decimal_digits(n)[i] == decimal_digits(n / 10)[i]);
            }
        }
    }
}

/// Where the parts of a directory name stand in it.
pub proof fn lemma_dir_name_layout(job: SimulationJob)
    ensures
        ({
            let name = dir_name_view(job);
            let code = decimal_digits(job.code as nat);
            let bias = decimal_digits(job.bias_index as nat);
            let c = code.len() as int;
            &&& name.len() == 11 + c + bias.len()
            &&& name[1] == (if job.leg == LegKind::PullUp {
                'u'
            } else {
                'd'
            })
            &&& name.subrange(7, 7 + c) == code
            &&& name[7 + c] == '_'
            &&& name.subrange(11 + c, name.len() as int) == bias
        }),
{
    let name = dir_name_view(job);
    let code = decimal_digits(job.code as nat);
    let bias = decimal_digits(job.bias_index as nat);
    let c = code.len() as int;
    assert(name.subrange(7, 7 + c) =~= code);
    assert(name.subrange(11 + c, name.len() as int) =~= bias);
}

/// No two jobs share a directory name.
pub proof fn lemma_dir_names_differ(a: SimulationJob, b: SimulationJob)
    requires
        a != b,
    ensures
        dir_name_view(a) != dir_name_view(b),
{
    let name_a = dir_name_view(a);
    let name_b = dir_name_view(b);
    let code_a = decimal_digits(a.code as nat);
    let code_b = decimal_digits(b.code as nat);
    let bias_a = decimal_digits(a.bias_index as nat);
    let bias_b = decimal_digits(b.bias_index as nat);
    let la = code_a.len() as int;
    let lb = code_b.len() as int;
    lemma_dir_name_layout(a);
    lemma_dir_name_layout(b);
    lemma_decimal_digits(a.code as nat);
    lemma_decimal_digits(b.code as nat);
    lemma_decimal_digits(a.bias_index as nat);
    lemma_decimal_digits(b.bias_index as nat);
    if name_a == name_b {
        assert(a.leg == b.leg);
        if la < lb {
            assert(name_b.subrange(7, 7 + lb)[la] == code_b[la]);
            assert(digit_value(name_a[7 + la]) == 10);
            assert(false);
        }
        if lb < la {
            assert(name_a.subrange(7, 7 + la)[lb] == code_a[lb]);
            assert(digit_value(name_b[7 + lb]) == 10);
            assert(false);
        }
        assert(code_a == code_b);
        assert(a.code == b.code);
        assert(bias_a == bias_b);
        assert(a.bias_index == b.bias_index);
        assert(false);
    }
}

/// `String::push` of std: appends one character to the text.
#[verifier::external_body]
fn push_char(text: &mut String, c: char)
    ensures
        final(text)@ == old(text)@.push(c),
{
    text.push(c);
}

fn digit_char(d: usize) -> (c: char)
    requires
        d < 10,
    ensures
        c == digit(d as nat),
{
    if d == 0 {
        '0'
    } else if d == 1 {
        '1'
    } else if d == 2 {
        '2'
    } else if d == 3 {
        '3'
    } else if d == 4 {
        '4'
    } else if d == 5 {
        '5'
    } else if d == 6 {
        '6'
    } else if d == 7 {
        '7'
    } else if d == 8 {
        '8'
    } else {
        '9'
    }
}

/// Appends the decimal numeral of `n` to the text.
pub fn push_decimal(text: &mut String, n: usize)
    ensures
        final(text)@ == old(text)@ + decimal_digits(n as nat),
    decreases n,
{
    if n >= 10 {
        push_decimal(text, n / 10);
    }
    push_char(text, digit_char(n % 10));
    assert(text@ =~= old(text)@ + decimal_digits(n as nat));
}

/// The name of the working directory of a job.
pub fn job_dir_name(job: &SimulationJob) -> (name: String)
    ensures
        name@ == dir_name_view(*job),
{
    let mut name = String::new();
    push_char(&mut name, 'p');
    match job.leg {
        LegKind::PullUp => push_char(&mut name, 'u'),
        LegKind::PullDown => push_char(&mut name, 'd'),
    }
    assert(name@ =~= leg_tag(job.leg));
    push_char(&mut name, '_');
    push_char(&mut name, 'c');
    push_char(&mut name, 'o');
    push_char(&mut name, 'd');
    push_char(&mut name, 'e');
    push_decimal(&mut name, job.code);
    push_char(&mut name, '_');
    push_char(&mut name, 'v');
    push_char(&mut name, 'i');
    push_char(&mut name, 'n');
    push_decimal(&mut name, job.bias_index);
    assert(name@ =~= dir_name_view(*job));
    name
}

} // verus!
