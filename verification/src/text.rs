//! The short text form of a time, `HH-MM-SS`.

use vstd::prelude::*;
use vstd::string::{StrSliceExecFns, StringExecFns};
use crate::clock::Time;
use crate::model::TimeOfDay;

verus! {

/// The decimal digit for `d` in `0..=9`: the character `d` places after `'0'`.
pub open spec fn digit(d: int) -> char {
    ('0' as int + d) as char
}

/// A number in `0..=99` as two decimal digits, with a leading zero where it
/// is below ten.
pub open spec fn two_digits(n: int) -> Seq<char> {
    seq![digit(n / 10), digit(n % 10)]
}

impl TimeOfDay {
    /// Hour, minute and second, two digits each, with a hyphen between
    /// them. The microsecond is not part of the text.
    pub open spec fn text(self) -> Seq<char> {
        two_digits(self.hour) + seq!['-'] + two_digits(self.minute) + seq!['-'] + two_digits(
            self.second,
        )
    }
}

/// The text of a valid reading has eight characters: hyphens at the third
/// and sixth place, decimal digits everywhere else.
pub proof fn lemma_text_is_digits_and_hyphens(t: TimeOfDay)
    requires
        t.in_range(),
    ensures
        t.text().len() == 8,
        forall|i: int|
            0 <= i < 8 ==> if i == 2 || i == 5 {
                #[trigger] t.text()[i] == '-'
            } else {
                '0' <= t.text()[i] <= '9'
            },
{
}

/// The one-character text of a decimal digit.
fn digit_str(d: u8) -> (s: &'static str)
    requires
        d <= 9,
    ensures
        s@ == seq![digit(d as int)],
{
    let digits: &'static str = "0123456789";
    proof {
        reveal_strlit("0123456789");
    }
    let s = digits.substring_ascii(d as usize, d as usize + 1);
    assert(s@ =~= seq![digit(d as int)]);
    s
}

/// Appends `n`, which is below 100, to `out` as two digits.
fn push_two_digits(out: &mut String, n: u8)
    requires
        n <= 99,
    ensures
        final(out)@ == old(out)@ + two_digits(n as int),
{
    out.append(digit_str(n / 10));
    out.append(digit_str(n % 10));
    assert(out@ =~= old(out)@ + two_digits(n as int));
}

impl Time {
    /// The time as `HH-MM-SS`: eight characters, digits and hyphens only.
    pub fn format(&self) -> (s: String)
        ensures
            s@ == self@.text(),
            s@.len() == 8,
    {
        let mut out = String::new();
        push_two_digits(&mut out, self.hour());
        out.append("-");
        push_two_digits(&mut out, self.minute());
        out.append("-");
        push_two_digits(&mut out, self.second());
        proof {
            reveal_strlit("-");
            assert(out@ =~= self@.text());
        }
        out
    }
}

} // verus!
