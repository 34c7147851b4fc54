//! Display-width measurement: the per-character width comes from the
//! `unicode_width` crate; the width of a whole line is the verified sum.

use vstd::prelude::*;

use unicode_width::UnicodeWidthChar;

use crate::model::{char_width, line_width};

verus! {

/// Relies on unicode_width's `UnicodeWidthChar::width`: the displayed
/// width in columns of one character, a pure table lookup that depends
/// on the character alone. A control character (`None` there) counts as
/// zero columns, and the tables assign no character more than three
/// columns.
#[verifier::external_body]
fn char_display_width(c: char) -> (r: usize)
    ensures
        r as nat == char_width(c),
        r <= 3,
{
    UnicodeWidthChar::width(c).unwrap_or(0)
}

/// The display width of a line: the sum of the widths of its characters.
pub fn display_width(line: &Vec<char>) -> (r: usize)
    requires
        line@.len() < usize::MAX / 4,
    ensures
        r as nat == line_width(line@),
{
    let mut total: usize = 0;
    let mut i: usize = 0;
    while i < line.len()
        invariant
            i <= line@.len(),
            line@.len() < usize::MAX / 4,
            total as nat == line_width(line@.take(i as int)),
            total <= 3 * i,
        decreases line@.len() - i,
    {
        let w = char_display_width(line[i]);
        proof {
            assert(line@.take(i + 1).drop_last() =~= line@.take(i as int));
            assert(line@.take(i + 1).last() == line@[i as int]);
        }
        total = total + w;
        i = i + 1;
    }
    proof {
        assert(line@.take(line@.len() as int) =~= line@);
    }
    total
}

} // verus!
