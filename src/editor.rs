//! The modal editor: key translation, action application and the projection
//! of buffer and cursor onto a terminal of a given size.
use vstd::prelude::*;

use crate::buffer::{error_text, insert_at, remove_at, Buffer, BufferError};
use crate::text::join_lines;

verus! {

#[derive(Clone, Copy, Debug, PartialEq, Eq, Structural)]
pub enum Mode {
    Normal,
    Insert,
}

#[derive(Debug, Clone, PartialEq, Eq)]
pub enum Actions {
    MoveUp,
    MoveDown,
    MoveLeft,
    MoveRight,
    EnterMode(Mode),
    PrintChar(char),
    Backspace,
    NewLine,
    Save,
    SaveAs(String),
    DeleteLine,
}

/// The key of a key press.
#[derive(Clone, Copy, Debug, PartialEq, Eq, Structural)]
pub enum KeyCode {
    Char(char),
    Esc,
    Backspace,
    Enter,
    Other,
}

/// The modifier keys held during a key press.
#[derive(Clone, Copy, Debug, PartialEq, Eq, Structural)]
pub enum Modifiers {
    /// No modifier.
    Plain,
    /// Control alone.
    Control,
    /// Any other combination.
    Other,
}

#[derive(Clone, Copy, Debug, PartialEq, Eq, Structural)]
pub struct KeyPress {
    pub code: KeyCode,
    pub modifiers: Modifiers,
}

/// `r` is what a key press in Normal mode stands for: h, j, k, l move the
/// cursor, i enters Insert mode, Ctrl-s saves, Ctrl-S saves as
/// `new_file.txt`, Ctrl-d deletes the line; any other key stands for nothing.
pub open spec fn normal_translation(key: KeyPress, r: Option<Actions>) -> bool {
    match (key.code, key.modifiers) {
        (KeyCode::Char('h'), Modifiers::Plain) => r == Some(Actions::MoveLeft),
        (KeyCode::Char('j'), Modifiers::Plain) => r == Some(Actions::MoveDown),
        (KeyCode::Char('k'), Modifiers::Plain) => r == Some(Actions::MoveUp),
        (KeyCode::Char('l'), Modifiers::Plain) => r == Some(Actions::MoveRight),
        (KeyCode::Char('i'), Modifiers::Plain) => r == Some(Actions::EnterMode(Mode::Insert)),
        (KeyCode::Char('s'), Modifiers::Control) => r == Some(Actions::Save),
        (KeyCode::Char('S'), Modifiers::Control) => (r matches Some(Actions::SaveAs(p)) && p@
            == "new_file.txt"@),
        (KeyCode::Char('d'), Modifiers::Control) => r == Some(Actions::DeleteLine),
        _ => r is None,
    }
}

/// `r` is what a key press in Insert mode stands for: Esc returns to Normal
/// mode, a character is typed, Backspace and Enter edit; any other key
/// stands for nothing.
pub open spec fn insert_translation(key: KeyPress, r: Option<Actions>) -> bool {
    match key.code {
        KeyCode::Esc => r == Some(Actions::EnterMode(Mode::Normal)),
        KeyCode::Char(c) => r == Some(Actions::PrintChar(c)),
        KeyCode::Backspace => r == Some(Actions::Backspace),
        KeyCode::Enter => r == Some(Actions::NewLine),
        KeyCode::Other => r is None,
    }
}

/// Translates a key press in Normal mode.
pub fn handle_normal_event(key: KeyPress) -> (r: Option<Actions>)
    ensures
        normal_translation(key, r),
{
    match (key.code, key.modifiers) {
        (KeyCode::Char('h'), Modifiers::Plain) => Some(Actions::MoveLeft),
        (KeyCode::Char('j'), Modifiers::Plain) => Some(Actions::MoveDown),
        (KeyCode::Char('k'), Modifiers::Plain) => Some(Actions::MoveUp),
        (KeyCode::Char('l'), Modifiers::Plain) => Some(Actions::MoveRight),
        (KeyCode::Char('i'), Modifiers::Plain) => Some(Actions::EnterMode(Mode::Insert)),
        (KeyCode::Char('s'), Modifiers::Control) => Some(Actions::Save),
        (KeyCode::Char('S'), Modifiers::Control) => {
            Some(Actions::SaveAs(String::from_str("new_file.txt")))
        },
        (KeyCode::Char('d'), Modifiers::Control) => Some(Actions::DeleteLine),
        _ => None,
    }
}

/// Translates a key press in Insert mode.
pub fn handle_insert_event(key: KeyPress) -> (r: Option<Actions>)
    ensures
        insert_translation(key, r),
{
    match key.code {
        KeyCode::Esc => Some(Actions::EnterMode(Mode::Normal)),
        KeyCode::Char(c) => Some(Actions::PrintChar(c)),
        KeyCode::Backspace => Some(Actions::Backspace),
        KeyCode::Enter => Some(Actions::NewLine),
        KeyCode::Other => None,
    }
}

/// Whether a key press ends the session: `q` in Normal mode.
pub fn is_quit(mode: Mode, key: KeyPress) -> (r: bool)
    ensures
        r == (mode == Mode::Normal && key.code == KeyCode::Char('q')),
{
    match (mode, key.code) {
        (Mode::Normal, KeyCode::Char('q')) => true,
        _ => false,
    }
}

/// A write of the buffer's content that the editor asks for; `as_new` tells
/// a save-as from a plain save.
pub struct SaveRequest {
    pub path: String,
    pub content: String,
    pub as_new: bool,
}

pub open spec fn min(a: int, b: int) -> int {
    if a <= b {
        a
    } else {
        b
    }
}

pub struct Editor {
    pub buffer: Buffer,
    pub cx: usize,
    pub cy: usize,
    pub row_offset: usize,
    pub mode: Mode,
    pub status_message: Option<String>,
}

impl Editor {
    /// The cursor addresses a line of a well-formed buffer, at a column from
    /// 0 to that line's length.
    pub open spec fn wf(&self) -> bool {
        &&& self.buffer.wf()
        &&& self.cy < self.buffer.text().len()
        &&& self.cx <= self.buffer.line_len(self.cy as int)
    }

    pub open spec fn text(&self) -> Seq<Seq<char>> {
        self.buffer.text()
    }

    pub open spec fn status_view(&self) -> Option<Seq<char>> {
        match self.status_message {
            Some(m) => Some(m@),
            None => None,
        }
    }

    /// `self` and `other` agree on everything but the cursor.
    pub open spec fn same_but_cursor(&self, other: Editor) -> bool {
        &&& self.buffer == other.buffer
        &&& self.row_offset == other.row_offset
        &&& self.mode == other.mode
        &&& self.status_message == other.status_message
    }

    /// `self` and `other` agree on everything but the cursor and the lines.
    pub open spec fn same_but_edit(&self, other: Editor) -> bool {
        &&& self.buffer.file == other.buffer.file
        &&& self.row_offset == other.row_offset
        &&& self.mode == other.mode
        &&& self.status_message == other.status_message
    }

    pub fn new() -> (r: Editor)
        ensures
            r.wf(),
            r.text() == seq![Seq::<char>::empty()],
            r.buffer.file is None,
            !r.buffer.modified,
            r.cx == 0 && r.cy == 0 && r.row_offset == 0,
            r.mode == Mode::Normal,
            r.status_message is None,
    {
        Editor {
            buffer: Buffer::empty(),
            cx: 0,
            cy: 0,
            row_offset: 0,
            mode: Mode::Normal,
            status_message: None,
        }
    }

    pub fn with_buffer(buffer: Buffer) -> (r: Editor)
        requires
            buffer.wf(),
        ensures
            r.wf(),
            r.buffer == buffer,
            r.cx == 0 && r.cy == 0 && r.row_offset == 0,
            r.mode == Mode::Normal,
            r.status_message is None,
    {
        Editor { buffer, cx: 0, cy: 0, row_offset: 0, mode: Mode::Normal, status_message: None }
    }

    /// Translates a key press by the current mode.
    pub fn handle_event(&self, key: KeyPress) -> (r: Option<Actions>)
        ensures
            self.mode == Mode::Normal ==> normal_translation(key, r),
            self.mode == Mode::Insert ==> insert_translation(key, r),
    {
        match self.mode {
            Mode::Normal => handle_normal_event(key),
            Mode::Insert => handle_insert_event(key),
        }
    }

    /// The length of the cursor's line.
    fn current_line_len(&self) -> (r: usize)
        requires
            self.cy < self.buffer.text().len(),
        ensures
            r == self.buffer.line_len(self.cy as int),
    {
        match self.buffer.line_length(self.cy) {
            Ok(n) => n,
            Err(_) => 0,
        }
    }

    fn set_status(&mut self, s: String)
        ensures
            final(self).status_message == Some(s),
            final(self).buffer == old(self).buffer,
            final(self).cx == old(self).cx,
            final(self).cy == old(self).cy,
            final(self).row_offset == old(self).row_offset,
            final(self).mode == old(self).mode,
    {
        self.status_message = Some(s);
    }

    /// Applies one action to buffer, cursor and mode. A save is not carried
    /// out here: it is returned as a request, to be answered by `finish_save`.
    pub fn apply_action(&mut self, action: Actions) -> (r: Option<SaveRequest>)
        requires
            old(self).wf(),
        ensures
            final(self).wf(),
            !(action is Save || action is SaveAs) ==> r is None,
            ({
                let o = *old(self);
                let f = *final(self);
                let t = o.text();
                let x = o.cx as int;
                let y = o.cy as int;
                match action {
                    Actions::MoveLeft => f.same_but_cursor(o) && f.cy == y && f.cx == if x > 0 {
                        x - 1
                    } else {
                        x
                    },
                    Actions::MoveRight => f.same_but_cursor(o) && f.cy == y && f.cx == min(
                        x + 1,
                        t[y].len() as int,
                    ),
                    Actions::MoveUp => f.same_but_cursor(o) && if y > 0 {
                        f.cy == y - 1 && f.cx == min(x, t[y - 1].len() as int)
                    } else {
                        f.cy == y && f.cx == x
                    },
                    Actions::MoveDown => f.same_but_cursor(o) && if y + 1 < t.len() {
                        f.cy == y + 1 && f.cx == min(x, t[y + 1].len() as int)
                    } else {
                        f.cy == y && f.cx == x
                    },
                    Actions::EnterMode(m) => f.mode == m && f.buffer == o.buffer && f.cx == x
                        && f.cy == y && f.row_offset == o.row_offset && f.status_message
                        == o.status_message,
                    Actions::PrintChar(c) => {
                        &&& f.same_but_edit(o)
                        &&& f.text() == t.update(y, insert_at(t[y], x, c))
                        &&& f.buffer.modified
                        &&& f.cy == y
                        &&& f.cx == x + 1
                    },
                    Actions::Backspace => if x > 0 {
                        &&& f.same_but_edit(o)
                        &&& f.text() == t.update(y, remove_at(t[y], x - 1))
                        &&& f.buffer.modified
                        &&& f.cy == y
                        &&& f.cx == x - 1
                    } else if y > 0 {
                        &&& f.same_but_edit(o)
                        &&& f.text() == t.update(y - 1, t[y - 1] + t[y]).remove(y)
                        &&& f.buffer.modified
                        &&& f.cy == y - 1
                        &&& f.cx == t[y - 1].len()
                    } else {
                        f == o
                    },
                    Actions::NewLine => {
                        &&& f.same_but_edit(o)
                        &&& f.text() == t.update(y, t[y].take(x)).insert(y + 1, t[y].skip(x))
                        &&& f.buffer.modified
                        &&& f.cy == y + 1
                        &&& f.cx == 0
                    },
                    Actions::DeleteLine => {
                        let t2 = if t.len() == 1 {
                            seq![Seq::<char>::empty()]
                        } else {
                            t.remove(y)
                        };
                        let y2 = if y >= t2.len() {
                            t2.len() - 1
                        } else {
                            y
                        };
                        &&& f.buffer.file == o.buffer.file
                        &&& f.row_offset == o.row_offset
                        &&& f.mode == o.mode
                        &&& f.text() == t2
                        &&& f.buffer.modified
                        &&& f.cy == y2
                        &&& f.cx == min(x, t2[y2].len() as int)
                        &&& f.status_view() == Some("Line deleted"@)
                    },
                    Actions::Save => match o.buffer.file {
                        Some(p) => f == o && (r matches Some(q) && q.path == p && q.content@
                            == join_lines(t) && !q.as_new),
                        None => r is None && f.same_but_status(o) && f.status_view() == Some(
                            "Error saving file: "@ + error_text(BufferError::NoFileNameSet),
                        ),
                    },
                    Actions::SaveAs(p) => f == o && (r matches Some(q) && q.path == p
                        && q.content@ == join_lines(t) && q.as_new),
                }
            }),
    {
        match action {
            Actions::MoveLeft => {
                self.move_left();
                None
            },
            Actions::MoveRight => {
                self.move_right();
                None
            },
            Actions::MoveUp => {
                self.move_up();
                None
            },
            Actions::MoveDown => {
                self.move_down();
                None
            },
            Actions::EnterMode(m) => {
                self.mode = m;
                None
            },
            Actions::PrintChar(c) => {
                self.print_char(c);
                None
            },
            Actions::Backspace => {
                self.backspace();
                None
            },
            Actions::NewLine => {
                self.new_line();
                None
            },
            Actions::Save => self.request_save(),
            Actions::SaveAs(path) => {
                let content = self.buffer.contents();
                Some(SaveRequest { path, content, as_new: true })
            },
            Actions::DeleteLine => {
                self.delete_current_line();
                None
            },
        }
    }

    fn move_left(&mut self)
        requires
            old(self).wf(),
        ensures
            final(self).wf(),
            final(self).same_but_cursor(*old(self)),
            final(self).cy == old(self).cy,
            final(self).cx == if old(self).cx > 0 {
                old(self).cx - 1
            } else {
                old(self).cx as int
            },
    {
        if self.cx > 0 {
            self.cx = self.cx - 1;
        }
    }

    fn move_right(&mut self)
        requires
            old(self).wf(),
        ensures
            final(self).wf(),
            final(self).same_but_cursor(*old(self)),
            final(self).cy == old(self).cy,
            final(self).cx == min(old(self).cx + 1, old(self).buffer.line_len(old(self).cy as int)),
    {
        let len = self.current_line_len();
        if self.cx < len {
            self.cx = self.cx + 1;
        }
    }

    fn move_up(&mut self)
        requires
            old(self).wf(),
        ensures
            final(self).wf(),
            final(self).same_but_cursor(*old(self)),
            old(self).cy > 0 ==> final(self).cy == old(self).cy - 1 && final(self).cx == min(
                old(self).cx as int,
                old(self).buffer.line_len(old(self).cy - 1),
            ),
            old(self).cy == 0 ==> final(self).cy == old(self).cy && final(self).cx == old(self).cx,
    {
        if self.cy > 0 {
            self.cy = self.cy - 1;
            let len = self.current_line_len();
            if self.cx > len {
                self.cx = len;
            }
        }
    }

    fn move_down(&mut self)
        requires
            old(self).wf(),
        ensures
            final(self).wf(),
            final(self).same_but_cursor(*old(self)),
            old(self).cy + 1 < old(self).text().len() ==> final(self).cy == old(self).cy + 1
                && final(self).cx == min(
                old(self).cx as int,
                old(self).buffer.line_len(old(self).cy + 1),
            ),
            old(self).cy + 1 >= old(self).text().len() ==> final(self).cy == old(self).cy
                && final(self).cx == old(self).cx,
    {
        if self.cy + 1 < self.buffer.len() {
            self.cy = self.cy + 1;
            let len = self.current_line_len();
            if self.cx > len {
                self.cx = len;
            }
        }
    }

    fn print_char(&mut self, c: char)
        requires
            old(self).wf(),
        ensures
            final(self).wf(),
            final(self).same_but_edit(*old(self)),
            final(self).text() == old(self).text().update(
                old(self).cy as int,
                insert_at(old(self).text()[old(self).cy as int], old(self).cx as int, c),
            ),
            final(self).buffer.modified,
            final(self).cy == old(self).cy,
            final(self).cx == old(self).cx + 1,
    {
        let r = self.buffer.insert_char(self.cy, self.cx, c);
        assert(r is Ok);
        let len = self.current_line_len();
        assert(self.cx + 1 <= len);
        self.cx = self.cx + 1;
    }

    fn backspace(&mut self)
        requires
            old(self).wf(),
        ensures
            final(self).wf(),
            ({
                let o = *old(self);
                let f = *final(self);
                let t = o.text();
                let x = o.cx as int;
                let y = o.cy as int;
                if x > 0 {
                    &&& f.same_but_edit(o)
                    &&& f.text() == t.update(y, remove_at(t[y], x - 1))
                    &&& f.buffer.modified
                    &&& f.cy == y
                    &&& f.cx == x - 1
                } else if y > 0 {
                    &&& f.same_but_edit(o)
                    &&& f.text() == t.update(y - 1, t[y - 1] + t[y]).remove(y)
                    &&& f.buffer.modified
                    &&& f.cy == y - 1
                    &&& f.cx == t[y - 1].len()
                } else {
                    f == o
                }
            }),
    {
        let ghost t = self.text();
        let ghost y = self.cy as int;
        if self.cx > 0 {
            let r = self.buffer.remove_char(self.cy, self.cx - 1);
            assert(r is Ok);
            assert(self.text().len() == t.len());
            assert(self.text()[y].len() == t[y].len() - 1);
            assert(self.buffer.lines.len() == t.len());
            self.cx = self.cx - 1;
        } else if self.cy > 0 {
            let r = self.buffer.join_with_previous_line(self.cy);
            assert(r is Ok);
            assert(self.text().len() == t.len() - 1);
            assert(self.buffer.lines.len() == t.len() - 1);
            assert(self.text()[y - 1] == t[y - 1] + t[y]);
            if let Ok(prev_len) = r {
                self.cy = self.cy - 1;
                self.cx = prev_len;
            }
        }
    }

    fn new_line(&mut self)
        requires
            old(self).wf(),
        ensures
            final(self).wf(),
            final(self).same_but_edit(*old(self)),
            ({
                let t = old(self).text();
                let x = old(self).cx as int;
                let y = old(self).cy as int;
                final(self).text() == t.update(y, t[y].take(x)).insert(y + 1, t[y].skip(x))
            }),
            final(self).buffer.modified,
            final(self).cy == old(self).cy + 1,
            final(self).cx == 0,
    {
        let ghost t = self.text();
        let r = self.buffer.split_line_at(self.cy, self.cx);
        assert(r is Ok);
        assert(self.text().len() == t.len() + 1);
        assert(self.buffer.lines.len() == t.len() + 1);
        self.cy = self.cy + 1;
        self.cx = 0;
    }

    fn request_save(&mut self) -> (r: Option<SaveRequest>)
        requires
            old(self).wf(),
        ensures
            match old(self).buffer.file {
                Some(p) => *final(self) == *old(self) && (r matches Some(q) && q.path == p
                    && q.content@ == join_lines(old(self).text()) && !q.as_new),
                None => r is None && final(self).same_but_status(*old(self))
                    && final(self).status_view() == Some(
                    "Error saving file: "@ + error_text(BufferError::NoFileNameSet),
                ),
            },
    {
        match self.buffer.save_target() {
            Ok(p) => {
                let path = p.clone();
                let content = self.buffer.contents();
                Some(SaveRequest { path, content, as_new: false })
            },
            Err(e) => {
                let msg = String::from_str("Error saving file: ").concat(e.message().as_str());
                self.set_status(msg);
                None
            },
        }
    }

    fn delete_current_line(&mut self)
        requires
            old(self).wf(),
        ensures
            final(self).wf(),
            ({
                let o = *old(self);
                let f = *final(self);
                let t = o.text();
                let x = o.cx as int;
                let y = o.cy as int;
                let t2 = if t.len() == 1 {
                    seq![Seq::<char>::empty()]
                } else {
                    t.remove(y)
                };
                let y2 = if y >= t2.len() {
                    t2.len() - 1
                } else {
                    y
                };
                &&& f.buffer.file == o.buffer.file
                &&& f.row_offset == o.row_offset
                &&& f.mode == o.mode
                &&& f.text() == t2
                &&& f.buffer.modified
                &&& f.cy == y2
                &&& f.cx == min(x, t2[y2].len() as int)
                &&& f.status_view() == Some("Line deleted"@)
            }),
    {
        match self.buffer.delete_line(self.cy) {
            Ok(()) => {
                if self.cy >= self.buffer.len() {
                    self.cy = self.buffer.len() - 1;
                }
                let len = self.current_line_len();
                if self.cx > len {
                    self.cx = len;
                }
                self.set_status(String::from_str("Line deleted"));
            },
            Err(e) => {
                let msg = String::from_str("Error deleting line: ").concat(e.message().as_str());
                self.set_status(msg);
            },
        }
    }

    /// Takes in the outcome of the write that `request` asked for. On success
    /// the buffer is bound to the written path and holds no unsaved change;
    /// either way the outcome becomes the status message.
    pub fn finish_save(&mut self, request: SaveRequest, outcome: Result<(), BufferError>)
        requires
            old(self).wf(),
        ensures
            final(self).wf(),
            final(self).text() == old(self).text(),
            final(self).cx == old(self).cx,
            final(self).cy == old(self).cy,
            final(self).row_offset == old(self).row_offset,
            final(self).mode == old(self).mode,
            outcome is Ok ==> {
                &&& final(self).buffer.file == Some(request.path)
                &&& !final(self).buffer.modified
                &&& final(self).status_view() == Some(
                    if request.as_new {
                        "Saved (as)."@
                    } else {
                        "Saved."@
                    },
                )
            },
            outcome matches Err(e) ==> {
                &&& final(self).buffer == old(self).buffer
                &&& final(self).status_view() == Some("Error saving file: "@ + error_text(e))
            },
    {
        match outcome {
            Ok(()) => {
                self.buffer.mark_saved(request.path);
                if request.as_new {
                    self.set_status(String::from_str("Saved (as)."));
                } else {
                    self.set_status(String::from_str("Saved."));
                }
            },
            Err(e) => {
                let msg = String::from_str("Error saving file: ").concat(e.message().as_str());
                self.set_status(msg);
            },
        }
    }

    /// `self` and `other` agree on everything but the status message.
    pub open spec fn same_but_status(&self, other: Editor) -> bool {
        &&& self.buffer == other.buffer
        &&& self.cx == other.cx
        &&& self.cy == other.cy
        &&& self.row_offset == other.row_offset
        &&& self.mode == other.mode
    }
}

} // verus!
