//! The executable editor state and its operations, each proved to
//! implement the corresponding transition of the abstract model.

use vstd::prelude::*;

use crate::model::{EditorModel, Key, Mode};
use crate::width::display_width;

verus! {

/// The editor session: the line buffer, the cursor, the mode, and the
/// termination flag. The buffer is a sequence of lines, each a sequence
/// of characters.
pub struct Editor {
    pub content: Vec<Vec<char>>,
    pub cursor_x: usize,
    pub cursor_y: usize,
    pub mode: Mode,
    pub quit: bool,
}

impl View for Editor {
    type V = EditorModel;

    open spec fn view(&self) -> EditorModel {
        EditorModel {
            lines: Seq::new(self.content@.len(), |i: int| self.content@[i]@),
            col: self.cursor_x as nat,
            row: self.cursor_y as nat,
            mode: self.mode,
            quit: self.quit,
        }
    }
}

impl Editor {
    /// A fresh session: one empty line, cursor at the origin, normal
    /// mode, not terminated.
    pub fn new() -> (ed: Editor)
        ensures
            ed@ == EditorModel::init(),
    {
        let mut content: Vec<Vec<char>> = Vec::new();
        content.push(Vec::new());
        let ed = Editor { content, cursor_x: 0, cursor_y: 0, mode: Mode::Normal, quit: false };
        proof {
            assert(ed@ =~~= EditorModel::init());
        }
        ed
    }

    /// Move the cursor one column left; a no-op at column 0.
    pub fn move_cursor_left(&mut self)
        ensures
            final(self)@ == old(self)@.move_left(),
    {
        if self.cursor_x > 0 {
            self.cursor_x = self.cursor_x - 1;
        }
        proof {
            assert(self@ =~~= old(self)@.move_left());
        }
    }

    /// Move the cursor one column right, bounded by the display width
    /// of the current line; a no-op at the line end.
    pub fn move_cursor_right(&mut self)
        requires
            old(self)@.row < old(self)@.lines.len(),
            old(self)@.cur_line().len() < usize::MAX / 4,
        ensures
            final(self)@ == old(self)@.move_right(),
    {
        let w = display_width(&self.content[self.cursor_y]);
        if self.cursor_x < w {
            self.cursor_x = self.cursor_x + 1;
        }
        proof {
            assert(self@ =~~= old(self)@.move_right());
        }
    }

    /// Move the cursor one row up, clamping the column to the display
    /// width of the new line; a no-op at row 0.
    pub fn move_cursor_up(&mut self)
        requires
            old(self)@.row < old(self)@.lines.len(),
            old(self)@.row > 0 ==> old(self)@.lines[old(self)@.row - 1].len() < usize::MAX / 4,
        ensures
            final(self)@ == old(self)@.move_up(),
    {
        if self.cursor_y > 0 {
            self.cursor_y = self.cursor_y - 1;
            let w = display_width(&self.content[self.cursor_y]);
            if self.cursor_x > w {
                self.cursor_x = w;
            }
        }
        proof {
            assert(self@ =~~= old(self)@.move_up());
        }
    }

    /// Move the cursor one row down, clamping the column to the display
    /// width of the new line; a no-op at the last row.
    pub fn move_cursor_down(&mut self)
        requires
            old(self)@.row < old(self)@.lines.len(),
            old(self)@.row + 1 < old(self)@.lines.len() ==> old(self)@.lines[old(
                self,
            )@.row as int + 1].len() < usize::MAX / 4,
        ensures
            final(self)@ == old(self)@.move_down(),
    {
        let n = self.content.len();
        if self.cursor_y < n - 1 {
            self.cursor_y = self.cursor_y + 1;
            let w = display_width(&self.content[self.cursor_y]);
            if self.cursor_x > w {
                self.cursor_x = w;
            }
        }
        proof {
            assert(self@ =~~= old(self)@.move_down());
        }
    }

    /// Insert character `c` at the cursor's character index in the
    /// current line and advance the cursor one column.
    pub fn insert_char(&mut self, c: char)
        requires
            old(self)@.cursor_ok(),
            old(self)@.col < usize::MAX,
        ensures
            final(self)@ == old(self)@.insert_char(c),
    {
        let row = self.cursor_y;
        let col = self.cursor_x;
        let line = &mut self.content[row];
        line.insert(col, c);
        self.cursor_x = col + 1;
        proof {
            assert(self@ =~~= old(self)@.insert_char(c));
        }
    }

    /// Backspace: remove the character before the cursor, or, at column
    /// 0 of a row below the first, join the current line onto the end of
    /// the previous one; a no-op at the very origin.
    pub fn delete_char(&mut self)
        requires
            old(self)@.cursor_ok(),
        ensures
            final(self)@ == old(self)@.delete_char(),
    {
        if self.cursor_x > 0 {
            let row = self.cursor_y;
            let col = self.cursor_x;
            let line = &mut self.content[row];
            line.remove(col - 1);
            self.cursor_x = col - 1;
        } else if self.cursor_y > 0 {
            let row = self.cursor_y;
            let mut removed = self.content.remove(row);
            let prev = row - 1;
            self.cursor_y = prev;
            self.cursor_x = self.content[prev].len();
            let line = &mut self.content[prev];
            line.append(&mut removed);
        }
        proof {
            assert(self@ =~~= old(self)@.delete_char());
        }
    }

    /// Split the current line at the cursor's character index: the part
    /// before stays, the part after becomes a new line just below, and
    /// the cursor moves to the start of that new line.
    pub fn insert_newline(&mut self)
        requires
            old(self)@.cursor_ok(),
        ensures
            final(self)@ == old(self)@.insert_newline(),
    {
        proof {
            // The buffer's length fits in a `usize`, so `row + 1` below
            // cannot overflow.
            assert(self.content@.len() <= usize::MAX) by {
                assert(self.content.len() <= usize::MAX);
            }
        }
        let row = self.cursor_y;
        let col = self.cursor_x;
        let line = &mut self.content[row];
        let tail = line.split_off(col);
        self.content.insert(row + 1, tail);
        self.cursor_y = row + 1;
        self.cursor_x = 0;
        proof {
            assert(self@ =~~= old(self)@.insert_newline());
        }
    }

    /// Dispatch one key in normal mode: `q` quits, `i` enters insert
    /// mode, `h`/`j`/`k`/`l` move the cursor, everything else is a no-op.
    pub fn handle_normal_mode(&mut self, key: Key)
        requires
            old(self)@.row < old(self)@.lines.len(),
            old(self)@.fits(),
        ensures
            final(self)@ == old(self)@.step_normal(key),
    {
        match key {
            Key::Char(c) => {
                if c == 'q' {
                    self.quit = true;
                } else if c == 'i' {
                    self.mode = Mode::Insert;
                } else if c == 'h' {
                    self.move_cursor_left();
                } else if c == 'j' {
                    self.move_cursor_down();
                } else if c == 'k' {
                    self.move_cursor_up();
                } else if c == 'l' {
                    self.move_cursor_right();
                }
            },
            _ => {},
        }
        proof {
            assert(self@ =~~= old(self)@.step_normal(key));
        }
    }

    /// Dispatch one key in insert mode: escape returns to normal mode,
    /// a printable character is inserted (including `q`), enter splits
    /// the line, backspace deletes, everything else is a no-op.
    pub fn handle_insert_mode(&mut self, key: Key)
        requires
            old(self)@.cursor_ok(),
            old(self)@.col < usize::MAX,
        ensures
            final(self)@ == old(self)@.step_insert(key),
    {
        match key {
            Key::Esc => {
                self.mode = Mode::Normal;
            },
            Key::Char(c) => {
                self.insert_char(c);
            },
            Key::Backspace => {
                self.delete_char();
            },
            Key::Enter => {
                self.insert_newline();
            },
            Key::Other => {},
        }
        proof {
            assert(self@ =~~= old(self)@.step_insert(key));
        }
    }

    /// Process one key event: route it to the handler of the current
    /// mode. Exactly one of a mode transition, an engine operation,
    /// termination, or a no-op happens.
    pub fn process_key(&mut self, key: Key)
        requires
            old(self)@.row < old(self)@.lines.len(),
            old(self)@.mode == Mode::Normal ==> old(self)@.fits(),
            old(self)@.mode == Mode::Insert ==> old(self)@.cursor_ok() && old(self)@.col
                < usize::MAX,
        ensures
            final(self)@ == old(self)@.step(key),
    {
        match self.mode {
            Mode::Normal => self.handle_normal_mode(key),
            Mode::Insert => self.handle_insert_mode(key),
        }
    }
}

} // verus!
