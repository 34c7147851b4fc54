//! Mathematical model of the editor: the modes, the abstract key events,
//! the display-width measure, and the state-transition functions that the
//! executable operations are proved to implement.

use vstd::prelude::*;

verus! {

/// The active interpretation of keystrokes: `Normal` treats keys as
/// navigation commands, `Insert` treats them as text entry.
#[derive(Clone, Copy, PartialEq, Eq, Structural, Debug)]
pub enum Mode {
    Normal,
    Insert,
}

/// A key event, already classified: a printable character, escape,
/// enter/return, backspace, or anything else (always ignored).
#[derive(Clone, Copy, PartialEq, Eq, Structural, Debug)]
pub enum Key {
    Char(char),
    Esc,
    Enter,
    Backspace,
    Other,
}

/// The number of terminal columns a character occupies.
pub uninterp spec fn char_width(c: char) -> nat;

/// The number of terminal columns a line occupies: the sum of the
/// widths of its characters.
pub open spec fn line_width(s: Seq<char>) -> nat
    decreases s.len(),
{
    if s.len() == 0 {
        0
    } else {
        line_width(s.drop_last()) + char_width(s.last())
    }
}

/// The abstract editor state: the buffer as a sequence of lines of
/// characters, the cursor, the mode, and the termination flag.
#[verifier::ext_equal]
pub struct EditorModel {
    pub lines: Seq<Seq<char>>,
    pub col: nat,
    pub row: nat,
    pub mode: Mode,
    pub quit: bool,
}

impl EditorModel {
    /// The state a fresh session starts in: a single empty line, cursor
    /// at the origin, normal mode, not terminated.
    pub open spec fn init() -> EditorModel {
        EditorModel {
            lines: seq![Seq::empty()],
            col: 0,
            row: 0,
            mode: Mode::Normal,
            quit: false,
        }
    }

    /// The line the cursor is on.
    pub open spec fn cur_line(self) -> Seq<char> {
        self.lines[self.row as int]
    }

    /// The cursor addresses a line of the buffer, and a character slot
    /// of that line: what the mutation operations need in order to index
    /// by the cursor.
    pub open spec fn cursor_ok(self) -> bool {
        &&& self.row < self.lines.len()
        &&& self.col <= self.cur_line().len()
    }

    /// Machine-size bounds: the column fits a `usize` increment, and the
    /// lines a move could measure are short enough for their width sum
    /// to fit in a `usize`. Trivially true of any state a real session
    /// reaches.
    pub open spec fn fits(self) -> bool {
        &&& self.col < usize::MAX
        &&& self.cur_line().len() < usize::MAX / 4
        &&& self.row > 0 ==> self.lines[self.row - 1].len() < usize::MAX / 4
        &&& self.row + 1 < self.lines.len() ==> self.lines[self.row as int + 1].len()
            < usize::MAX / 4
    }

    /// Move the cursor one column left; at column 0 it stays put (no
    /// wrap to the previous line).
    pub open spec fn move_left(self) -> EditorModel {
        if self.col > 0 {
            EditorModel { col: (self.col - 1) as nat, ..self }
        } else {
            self
        }
    }

    /// Move the cursor one column right, bounded by the display width
    /// of the current line; at the line end it stays put (no wrap).
    pub open spec fn move_right(self) -> EditorModel {
        if self.col < line_width(self.cur_line()) {
            EditorModel { col: self.col + 1, ..self }
        } else {
            self
        }
    }

    /// The column after a vertical move onto a line of width `w`:
    /// clamped to `w`, never wrapped or rejected.
    pub open spec fn clamped_col(self, w: nat) -> nat {
        if self.col > w {
            w
        } else {
            self.col
        }
    }

    /// Move the cursor one row up, clamping the column to the display
    /// width of the new line; at row 0 it stays put.
    pub open spec fn move_up(self) -> EditorModel {
        if self.row > 0 {
            let r = (self.row - 1) as nat;
            EditorModel { row: r, col: self.clamped_col(line_width(self.lines[r as int])), ..self }
        } else {
            self
        }
    }

    /// Move the cursor one row down, clamping the column to the display
    /// width of the new line; at the last row it stays put.
    pub open spec fn move_down(self) -> EditorModel {
        if self.row + 1 < self.lines.len() {
            let r = (self.row + 1) as nat;
            EditorModel { row: r, col: self.clamped_col(line_width(self.lines[r as int])), ..self }
        } else {
            self
        }
    }

    /// Insert character `c` at the cursor's character index in the
    /// current line and advance the cursor one column.
    pub open spec fn insert_char(self, c: char) -> EditorModel {
        EditorModel {
            lines: self.lines.update(
                self.row as int,
                self.cur_line().insert(self.col as int, c),
            ),
            col: self.col + 1,
            ..self
        }
    }

    /// Backspace: remove the character before the cursor, or, at column
    /// 0 of a row below the first, join the current line onto the end of
    /// the previous one; at the very origin, do nothing.
    pub open spec fn delete_char(self) -> EditorModel {
        if self.col > 0 {
            EditorModel {
                lines: self.lines.update(
                    self.row as int,
                    self.cur_line().remove(self.col - 1),
                ),
                col: (self.col - 1) as nat,
                ..self
            }
        } else if self.row > 0 {
            EditorModel {
                lines: self.lines.remove(self.row as int).update(
                    self.row - 1,
                    self.lines[self.row - 1] + self.cur_line(),
                ),
                row: (self.row - 1) as nat,
                col: self.lines[self.row - 1].len(),
                ..self
            }
        } else {
            self
        }
    }

    /// Split the current line at the cursor's character index: the part
    /// before stays, the part after becomes a new line just below, and
    /// the cursor moves to the start of that new line.
    pub open spec fn insert_newline(self) -> EditorModel {
        EditorModel {
            lines: self.lines.update(self.row as int, self.cur_line().take(self.col as int))
                .insert(self.row as int + 1, self.cur_line().skip(self.col as int)),
            row: self.row + 1,
            col: 0,
            ..self
        }
    }

    /// Dispatch of one key in normal mode: `q` quits, `i` enters insert
    /// mode, `h`/`j`/`k`/`l` move the cursor, everything else is ignored.
    pub open spec fn step_normal(self, key: Key) -> EditorModel {
        match key {
            Key::Char(c) => if c == 'q' {
                EditorModel { quit: true, ..self }
            } else if c == 'i' {
                EditorModel { mode: Mode::Insert, ..self }
            } else if c == 'h' {
                self.move_left()
            } else if c == 'j' {
                self.move_down()
            } else if c == 'k' {
                self.move_up()
            } else if c == 'l' {
                self.move_right()
            } else {
                self
            },
            _ => self,
        }
    }

    /// Dispatch of one key in insert mode: escape returns to normal
    /// mode, a printable character is inserted (including `q`), enter
    /// splits the line, backspace deletes, everything else is ignored.
    pub open spec fn step_insert(self, key: Key) -> EditorModel {
        match key {
            Key::Esc => EditorModel { mode: Mode::Normal, ..self },
            Key::Char(c) => self.insert_char(c),
            Key::Backspace => self.delete_char(),
            Key::Enter => self.insert_newline(),
            Key::Other => self,
        }
    }

    /// Dispatch of one key event: exactly one of a mode transition, an
    /// engine operation, termination, or a no-op, chosen by the mode.
    pub open spec fn step(self, key: Key) -> EditorModel {
        match self.mode {
            Mode::Normal => self.step_normal(key),
            Mode::Insert => self.step_insert(key),
        }
    }
}

} // verus!
