//! The laws of the editor model: the cursor invariant and its
//! preservation by every key, the no-ops at the buffer's boundaries, the
//! newline/backspace round trip, and the line-count laws.

use vstd::prelude::*;

use crate::model::{char_width, line_width, EditorModel, Key};

verus! {

/// Every character of the line occupies exactly one column.
pub open spec fn width_one(s: Seq<char>) -> bool {
    forall|i: int| 0 <= i < s.len() ==> char_width(#[trigger] s[i]) == 1
}

/// If the key carries a character, that character occupies exactly one
/// column.
pub open spec fn key_width_one(key: Key) -> bool {
    key matches Key::Char(c) ==> char_width(c) == 1
}

impl EditorModel {
    /// The vertical half of the cursor invariant: the buffer is never
    /// empty, and the row addresses one of its lines.
    pub open spec fn row_inv(self) -> bool {
        &&& self.lines.len() >= 1
        &&& self.row < self.lines.len()
    }

    /// The cursor invariant: the row addresses a line of the never-empty
    /// buffer, and the column is a valid insertion point of that line,
    /// both against its display width (the horizontal-motion bound) and
    /// against its character count (the mutation-index bound).
    pub open spec fn inv(self) -> bool {
        &&& self.row_inv()
        &&& self.col <= line_width(self.cur_line())
        &&& self.col <= self.cur_line().len()
    }

    /// Every character of every line occupies exactly one column.
    pub open spec fn uniform_width(self) -> bool {
        forall|i: int| 0 <= i < self.lines.len() ==> width_one(#[trigger] self.lines[i])
    }
}

/// A line of one-column characters is exactly as wide as it is long.
pub proof fn lemma_width_one_len(s: Seq<char>)
    requires
        width_one(s),
    ensures
        line_width(s) == s.len(),
    decreases s.len(),
{
    if s.len() > 0 {
        assert forall|i: int| 0 <= i < s.drop_last().len() implies char_width(
            #[trigger] s.drop_last()[i],
        ) == 1 by {
            assert(s.drop_last()[i] == s[i]);
        }
        lemma_width_one_len(s.drop_last());
        assert(char_width(s.last()) == 1);
    }
}

/// The initial state satisfies the cursor invariant, with every line of
/// one-column characters (there are none yet).
pub proof fn lemma_init_inv()
    ensures
        EditorModel::init().inv(),
        EditorModel::init().uniform_width(),
{
    assert(line_width(EditorModel::init().cur_line()) == 0);
}

/// The vertical half of the cursor invariant is preserved by every key
/// in every mode, whatever the characters' widths.
pub proof fn lemma_step_preserves_row_inv(m: EditorModel, key: Key)
    requires
        m.row_inv(),
    ensures
        m.step(key).row_inv(),
{
}

/// Inserting a character of one column preserves the cursor invariant
/// and the one-column-per-character property.
pub proof fn lemma_insert_char_inv(m: EditorModel, c: char)
    requires
        m.inv(),
        m.uniform_width(),
        char_width(c) == 1,
    ensures
        m.insert_char(c).inv(),
        m.insert_char(c).uniform_width(),
{
    let cur = m.cur_line();
    let new_line = cur.insert(m.col as int, c);
    assert forall|i: int| 0 <= i < new_line.len() implies char_width(#[trigger] new_line[i])
        == 1 by {
        if i < m.col {
            assert(new_line[i] == cur[i]);
        } else if i == m.col {
            assert(new_line[i] == c);
        } else {
            assert(new_line[i] == cur[i - 1]);
        }
    }
    lemma_width_one_len(cur);
    lemma_width_one_len(new_line);
    assert(m.insert_char(c).cur_line() == new_line);
}

/// Backspace preserves the cursor invariant and the
/// one-column-per-character property.
pub proof fn lemma_delete_char_inv(m: EditorModel)
    requires
        m.inv(),
        m.uniform_width(),
    ensures
        m.delete_char().inv(),
        m.delete_char().uniform_width(),
{
    let cur = m.cur_line();
    if m.col > 0 {
        let new_line = cur.remove(m.col - 1);
        assert forall|i: int| 0 <= i < new_line.len() implies char_width(#[trigger] new_line[i])
            == 1 by {
            if i < m.col - 1 {
                assert(new_line[i] == cur[i]);
            } else {
                assert(new_line[i] == cur[i + 1]);
            }
        }
        lemma_width_one_len(new_line);
        assert(m.delete_char().cur_line() == new_line);
    } else if m.row > 0 {
        let prev = m.lines[m.row - 1];
        let joined = prev + cur;
        assert forall|i: int| 0 <= i < joined.len() implies char_width(#[trigger] joined[i])
            == 1 by {
            if i < prev.len() {
                assert(joined[i] == prev[i]);
            } else {
                assert(joined[i] == cur[i - prev.len()]);
            }
        }
        lemma_width_one_len(joined);
        let post = m.delete_char();
        assert(post.cur_line() == joined);
        assert forall|i: int| 0 <= i < post.lines.len() implies width_one(
            #[trigger] post.lines[i],
        ) by {
            if i != m.row - 1 {
                if i < m.row {
                    assert(post.lines[i] == m.lines[i]);
                } else {
                    assert(post.lines[i] == m.lines[i + 1]);
                }
            }
        }
    }
}

/// Splitting a line at the cursor preserves the cursor invariant and the
/// one-column-per-character property.
pub proof fn lemma_insert_newline_inv(m: EditorModel)
    requires
        m.inv(),
        m.uniform_width(),
    ensures
        m.insert_newline().inv(),
        m.insert_newline().uniform_width(),
{
    let cur = m.cur_line();
    let before = cur.take(m.col as int);
    let after = cur.skip(m.col as int);
    assert(width_one(before));
    assert(width_one(after));
    let post = m.insert_newline();
    assert(post.cur_line() == after);
    assert forall|i: int| 0 <= i < post.lines.len() implies width_one(
        #[trigger] post.lines[i],
    ) by {
        if i < m.row {
            assert(post.lines[i] == m.lines[i]);
        } else if i == m.row {
            assert(post.lines[i] == before);
        } else if i == m.row + 1 {
            assert(post.lines[i] == after);
        } else {
            assert(post.lines[i] == m.lines[i - 1]);
        }
    }
}

/// The moves preserve the cursor invariant (and leave the buffer, hence
/// the one-column-per-character property, unchanged).
pub proof fn lemma_moves_inv(m: EditorModel)
    requires
        m.inv(),
        m.uniform_width(),
    ensures
        m.move_left().inv(),
        m.move_right().inv(),
        m.move_up().inv(),
        m.move_down().inv(),
{
    lemma_width_one_len(m.cur_line());
    if m.row > 0 {
        lemma_width_one_len(m.lines[m.row - 1]);
    }
    if m.row + 1 < m.lines.len() {
        lemma_width_one_len(m.lines[m.row as int + 1]);
    }
}

/// The cursor invariant of the initial state (`lemma_init_inv`) and of
/// every state reached from it by keys: one step preserves it, as long
/// as every character on hand occupies exactly one column. A character
/// of another width can break the width/count alignment the two index
/// spaces silently share.
pub proof fn lemma_step_preserves_inv(m: EditorModel, key: Key)
    requires
        m.inv(),
        m.uniform_width(),
        key_width_one(key),
    ensures
        m.step(key).inv(),
        m.step(key).uniform_width(),
{
    lemma_moves_inv(m);
    match key {
        Key::Char(c) => {
            lemma_insert_char_inv(m, c);
        },
        Key::Backspace => {
            lemma_delete_char_inv(m);
        },
        Key::Enter => {
            lemma_insert_newline_inv(m);
        },
        _ => {},
    }
}

/// Moving left at column 0, right at the line's end, up at row 0, or
/// down at the last row leaves the state unchanged, so repeating the
/// move does too.
pub proof fn lemma_moves_idempotent_at_bounds(m: EditorModel)
    ensures
        m.col == 0 ==> m.move_left() == m,
        m.col == line_width(m.cur_line()) ==> m.move_right() == m,
        m.row == 0 ==> m.move_up() == m,
        m.row + 1 == m.lines.len() ==> m.move_down() == m,
{
}

/// Round trip: splitting a line at the cursor and immediately deleting
/// from the start of the new line restores the buffer and the cursor.
pub proof fn lemma_newline_backspace_round_trip(m: EditorModel)
    requires
        m.row < m.lines.len(),
        m.col <= m.cur_line().len(),
    ensures
        m.insert_newline().delete_char() == m,
{
    let cur = m.cur_line();
    let before = cur.take(m.col as int);
    let after = cur.skip(m.col as int);
    let mid = m.insert_newline();
    let post = mid.delete_char();
    assert(mid.lines.remove(m.row as int + 1) =~~= m.lines.update(m.row as int, before));
    assert(before + after =~= cur);
    assert(post.lines =~~= m.lines);
    assert(post =~~= m);
}

/// Splitting a line raises the line count by exactly one.
pub proof fn lemma_newline_line_count(m: EditorModel)
    requires
        m.row < m.lines.len(),
    ensures
        m.insert_newline().lines.len() == m.lines.len() + 1,
{
}

/// Backspace at column 0 of a row below the first joins two lines and
/// lowers the line count by exactly one.
pub proof fn lemma_backspace_join_line_count(m: EditorModel)
    requires
        m.col == 0,
        0 < m.row < m.lines.len(),
    ensures
        m.delete_char().lines.len() == m.lines.len() - 1,
{
}

} // verus!
