//! The line buffer: an ordered sequence of lines with position-checked edits.
//! Columns count characters.
use vstd::prelude::*;

use crate::text::{
    decimal,
    has_newline,
    lemma_split_join,
    strip_cr,
    decimal_string,
    join_lines,
    join_text,
    push_char,
    split_text,
    text_lines,
};

verus! {

#[derive(Debug, Clone, PartialEq, Eq)]
pub enum BufferError {
    FileNotFound(String),
    IoError(String),
    InvalidLineIndex(usize),
    InvalidColumnIndex(usize, usize),
    NoFileNameSet,
}

/// The message that describes an error.
pub open spec fn error_text(e: BufferError) -> Seq<char> {
    match e {
        BufferError::FileNotFound(p) => "File not found: "@ + p@,
        BufferError::IoError(m) => "IO error: "@ + m@,
        BufferError::InvalidLineIndex(i) => "Invalid line index: "@ + decimal(i as nat),
        BufferError::InvalidColumnIndex(c, l) => "Invalid column index: "@ + decimal(c as nat)
            + " in line "@ + decimal(l as nat),
        BufferError::NoFileNameSet => "No file name set"@,
    }
}

impl BufferError {
    pub fn message(&self) -> (r: String)
        ensures
            r@ == error_text(*self),
    {
        match self {
            BufferError::FileNotFound(p) => String::from_str("File not found: ").concat(p.as_str()),
            BufferError::IoError(m) => String::from_str("IO error: ").concat(m.as_str()),
            BufferError::InvalidLineIndex(i) => {
                let d = decimal_string(*i as u128);
                String::from_str("Invalid line index: ").concat(d.as_str())
            },
            BufferError::InvalidColumnIndex(c, l) => {
                let dc = decimal_string(*c as u128);
                let dl = decimal_string(*l as u128);
                String::from_str("Invalid column index: ").concat(dc.as_str()).concat(
                    " in line ",
                ).concat(dl.as_str())
            },
            BufferError::NoFileNameSet => String::from_str("No file name set"),
        }
    }
}

/// `l` with `c` inserted before position `col`.
pub open spec fn insert_at(l: Seq<char>, col: int, c: char) -> Seq<char> {
    l.take(col).push(c) + l.skip(col)
}

/// `l` without the character at position `col`.
pub open spec fn remove_at(l: Seq<char>, col: int) -> Seq<char> {
    l.take(col) + l.skip(col + 1)
}

/// Inserting `c` at (`row`, `col`) and then removing the character at that
/// same place hands `c` back and leaves every line as it was.
pub proof fn lemma_insert_remove_inverse(text: Seq<Seq<char>>, row: int, col: int, c: char)
    requires
        0 <= row < text.len(),
        0 <= col <= text[row].len(),
    ensures
        ({
            let after = text.update(row, insert_at(text[row], col, c));
            &&& col < after[row].len()
            &&& after[row][col] == c
            &&& after.update(row, remove_at(after[row], col)) == text
        }),
{
    let after = text.update(row, insert_at(text[row], col, c));
    assert(remove_at(after[row], col) =~= text[row]);
    assert(after.update(row, remove_at(after[row], col)) =~= text);
}

/// Loading what saving wrote gives back the same lines, for lines without
/// newlines where no line but the last ends with a carriage return.
pub proof fn lemma_save_load_round_trip(lines: Seq<Seq<char>>)
    requires
        lines.len() >= 1,
        forall|i: int| 0 <= i < lines.len() ==> !has_newline(#[trigger] lines[i]),
        forall|i: int|
            0 <= i < lines.len() - 1 ==> !(#[trigger] lines[i].len() > 0 && lines[i].last()
                == '\r'),
    ensures
        text_lines(join_lines(lines)) == lines,
{
    lemma_split_join(lines);
    let ended = lines.drop_last().map_values(|l: Seq<char>| strip_cr(l));
    assert(ended =~= lines.drop_last()) by {
        assert forall|i: int| 0 <= i < ended.len() implies ended[i] == lines.drop_last()[i] by {
            assert(lines.drop_last()[i] == lines[i]);
        }
    }
    assert(ended.push(lines.last()) =~= lines);
}

pub struct Buffer {
    pub file: Option<String>,
    pub lines: Vec<String>,
    pub modified: bool,
}

impl Buffer {
    /// The content, line by line.
    pub open spec fn text(&self) -> Seq<Seq<char>> {
        self.lines.deep_view()
    }

    /// A buffer always holds at least one line.
    pub open spec fn wf(&self) -> bool {
        self.lines.len() >= 1
    }

    pub open spec fn line_len(&self, i: int) -> int {
        self.text()[i].len() as int
    }

    /// A buffer with the given backing path whose content is `content`.
    pub fn from_text(file: Option<String>, content: &str) -> (r: Buffer)
        ensures
            r.wf(),
            r.text() == text_lines(content@),
            r.file == file,
            !r.modified,
    {
        let lines = split_text(content);
        Buffer { file, lines, modified: false }
    }

    /// An unnamed buffer holding one empty line.
    pub fn empty() -> (r: Buffer)
        ensures
            r.wf(),
            r.text() == seq![Seq::<char>::empty()],
            r.file is None,
            !r.modified,
    {
        let mut lines: Vec<String> = Vec::new();
        lines.push(String::new());
        proof {
            assert(lines.deep_view() =~= seq![Seq::<char>::empty()]);
        }
        Buffer { file: None, lines, modified: false }
    }

    pub fn len(&self) -> (r: usize)
        ensures
            r == self.text().len(),
    {
        self.lines.len()
    }

    pub fn get_line(&self, index: usize) -> (r: Result<&String, BufferError>)
        ensures
            index < self.lines.len() ==> r == Ok::<&String, BufferError>(&self.lines@[index as int]),
            index >= self.lines.len() ==> r == Err::<&String, BufferError>(
                BufferError::InvalidLineIndex(index),
            ),
    {
        if index < self.lines.len() {
            Ok(&self.lines[index])
        } else {
            Err(BufferError::InvalidLineIndex(index))
        }
    }

    pub fn get_line_mut(&mut self, index: usize) -> (r: Result<&mut String, BufferError>)
        ensures
            index < old(self).lines.len() ==> (r matches Ok(l) && *l == old(self).lines@[index as int]
                && final(self).lines@ == old(self).lines@.update(index as int, *final(l))),
            index >= old(self).lines.len() ==> r == Err::<&mut String, BufferError>(
                BufferError::InvalidLineIndex(index),
            ) && *final(self) == *old(self),
            final(self).file == old(self).file,
            final(self).modified == old(self).modified,
    {
        if index < self.lines.len() {
            Ok(&mut self.lines[index])
        } else {
            Err(BufferError::InvalidLineIndex(index))
        }
    }

    /// Replaces line `index`, which must exist.
    fn set_line(&mut self, index: usize, l: String)
        requires
            index < old(self).lines.len(),
        ensures
            final(self).lines@ == old(self).lines@.update(index as int, l),
            final(self).file == old(self).file,
            final(self).modified == old(self).modified,
    {
        let slot = &mut self.lines[index];
        *slot = l;
    }

    pub fn insert_char(&mut self, line: usize, col: usize, c: char) -> (r: Result<(), BufferError>)
        ensures
            line >= old(self).text().len() ==> r == Err::<(), BufferError>(
                BufferError::InvalidLineIndex(line),
            ),
            line < old(self).text().len() && col > old(self).line_len(line as int) ==> r == Err::<
                (),
                BufferError,
            >(BufferError::InvalidColumnIndex(col, line)),
            r is Err ==> *final(self) == *old(self),
            line < old(self).text().len() && col <= old(self).line_len(line as int) ==> {
                &&& r is Ok
                &&& final(self).text() == old(self).text().update(
                    line as int,
                    insert_at(old(self).text()[line as int], col as int, c),
                )
                &&& final(self).modified
                &&& final(self).file == old(self).file
            },
    {
        if line >= self.lines.len() {
            return Err(BufferError::InvalidLineIndex(line));
        }
        let cur = self.lines[line].as_str();
        let n = cur.unicode_len();
        if col > n {
            return Err(BufferError::InvalidColumnIndex(col, line));
        }
        let mut l = String::from_str(cur.substring_char(0, col));
        push_char(&mut l, c);
        l.append(cur.substring_char(col, n));
        proof {
            assert(l@ =~= insert_at(self.text()[line as int], col as int, c));
        }
        self.set_line(line, l);
        self.modified = true;
        proof {
            assert(self.text() =~= old(self).text().update(
                line as int,
                insert_at(old(self).text()[line as int], col as int, c),
            ));
        }
        Ok(())
    }

    pub fn remove_char(&mut self, line: usize, col: usize) -> (r: Result<char, BufferError>)
        ensures
            line >= old(self).text().len() ==> r == Err::<char, BufferError>(
                BufferError::InvalidLineIndex(line),
            ),
            line < old(self).text().len() && col >= old(self).line_len(line as int) ==> r == Err::<
                char,
                BufferError,
            >(BufferError::InvalidColumnIndex(col, line)),
            r is Err ==> *final(self) == *old(self),
            line < old(self).text().len() && col < old(self).line_len(line as int) ==> {
                &&& r == Ok::<char, BufferError>(old(self).text()[line as int][col as int])
                &&& final(self).text() == old(self).text().update(
                    line as int,
                    remove_at(old(self).text()[line as int], col as int),
                )
                &&& final(self).modified
                &&& final(self).file == old(self).file
            },
    {
        if line >= self.lines.len() {
            return Err(BufferError::InvalidLineIndex(line));
        }
        let cur = self.lines[line].as_str();
        let n = cur.unicode_len();
        if col >= n {
            return Err(BufferError::InvalidColumnIndex(col, line));
        }
        let removed = cur.get_char(col);
        let mut l = String::from_str(cur.substring_char(0, col));
        l.append(cur.substring_char(col + 1, n));
        proof {
            assert(l@ =~= remove_at(self.text()[line as int], col as int));
        }
        self.set_line(line, l);
        self.modified = true;
        proof {
            assert(self.text() =~= old(self).text().update(
                line as int,
                remove_at(old(self).text()[line as int], col as int),
            ));
        }
        Ok(removed)
    }

    pub fn line_length(&self, index: usize) -> (r: Result<usize, BufferError>)
        ensures
            index < self.text().len() ==> (r matches Ok(n) && n == self.line_len(index as int)),
            index >= self.text().len() ==> r == Err::<usize, BufferError>(
                BufferError::InvalidLineIndex(index),
            ),
    {
        match self.get_line(index) {
            Ok(l) => Ok(l.as_str().unicode_len()),
            Err(e) => Err(e),
        }
    }

    pub fn display_name(&self) -> (r: String)
        ensures
            r@ == match self.file {
                Some(p) => p@,
                None => "[No Name]"@,
            },
    {
        match &self.file {
            Some(path) => path.clone(),
            None => String::from_str("[No Name]"),
        }
    }

    /// Moves line `line_index` to the end of the line before it, and returns
    /// the length that the line before had.
    pub fn join_with_previous_line(&mut self, line_index: usize) -> (r: Result<usize, BufferError>)
        ensures
            line_index == 0 || line_index >= old(self).text().len() ==> r == Err::<
                usize,
                BufferError,
            >(BufferError::InvalidLineIndex(line_index)) && *final(self) == *old(self),
            0 < line_index < old(self).text().len() ==> {
                let t = old(self).text();
                let k = line_index as int;
                &&& (r matches Ok(n) && n == t[k - 1].len())
                &&& final(self).text() == t.update(k - 1, t[k - 1] + t[k]).remove(k)
                &&& final(self).modified
                &&& final(self).file == old(self).file
            },
    {
        if line_index == 0 || line_index >= self.lines.len() {
            return Err(BufferError::InvalidLineIndex(line_index));
        }
        let ghost t = self.text();
        let current = self.lines.remove(line_index);
        let prev = &mut self.lines[line_index - 1];
        let previous_length = prev.as_str().unicode_len();
        prev.append(current.as_str());
        self.modified = true;
        proof {
            let k = line_index as int;
            assert(self.text() =~= t.update(k - 1, t[k - 1] + t[k]).remove(k));
        }
        Ok(previous_length)
    }

    /// Cuts line `row` at `col`: the line keeps what stands before `col`, and
    /// the rest becomes a new line right after it.
    pub fn split_line_at(&mut self, row: usize, col: usize) -> (r: Result<(), BufferError>)
        ensures
            row >= old(self).text().len() ==> r == Err::<(), BufferError>(
                BufferError::InvalidLineIndex(row),
            ),
            row < old(self).text().len() && col > old(self).line_len(row as int) ==> r == Err::<
                (),
                BufferError,
            >(BufferError::InvalidColumnIndex(col, row)),
            r is Err ==> *final(self) == *old(self),
            row < old(self).text().len() && col <= old(self).line_len(row as int) ==> {
                let t = old(self).text();
                let l = t[row as int];
                &&& r is Ok
                &&& final(self).text() == t.update(row as int, l.take(col as int)).insert(
                    row as int + 1,
                    l.skip(col as int),
                )
                &&& final(self).modified
                &&& final(self).file == old(self).file
            },
    {
        if row >= self.lines.len() {
            return Err(BufferError::InvalidLineIndex(row));
        }
        let cur = self.lines[row].as_str();
        let n = cur.unicode_len();
        if col > n {
            return Err(BufferError::InvalidColumnIndex(col, row));
        }
        let head = String::from_str(cur.substring_char(0, col));
        let tail = String::from_str(cur.substring_char(col, n));
        let ghost t = self.text();
        self.set_line(row, head);
        self.lines.insert(row + 1, tail);
        self.modified = true;
        proof {
            let l = t[row as int];
            assert(self.text() =~= t.update(row as int, l.take(col as int)).insert(
                row as int + 1,
                l.skip(col as int),
            ));
        }
        Ok(())
    }

    /// Removes line `index`; the only line of a buffer is emptied instead.
    pub fn delete_line(&mut self, index: usize) -> (r: Result<(), BufferError>)
        ensures
            old(self).wf() ==> final(self).wf(),
            index >= old(self).text().len() ==> r == Err::<(), BufferError>(
                BufferError::InvalidLineIndex(index),
            ) && *final(self) == *old(self),
            index < old(self).text().len() ==> {
                &&& r is Ok
                &&& final(self).text() == if old(self).text().len() == 1 {
                    seq![Seq::<char>::empty()]
                } else {
                    old(self).text().remove(index as int)
                }
                &&& final(self).modified
                &&& final(self).file == old(self).file
            },
    {
        if index >= self.lines.len() {
            return Err(BufferError::InvalidLineIndex(index));
        }
        if self.lines.len() == 1 {
            self.set_line(0, String::new());
            self.modified = true;
            proof {
                assert(self.text() =~= seq![Seq::<char>::empty()]);
            }
            return Ok(());
        }
        let ghost t = self.text();
        self.lines.remove(index);
        self.modified = true;
        proof {
            assert(self.text() =~= t.remove(index as int));
        }
        Ok(())
    }

    /// The content as written to a file: the lines joined by newlines.
    pub fn contents(&self) -> (r: String)
        ensures
            r@ == join_lines(self.text()),
    {
        join_text(&self.lines)
    }

    /// The path that `save` writes to.
    pub fn save_target(&self) -> (r: Result<&String, BufferError>)
        ensures
            self.file matches Some(p) ==> r == Ok::<&String, BufferError>(&p),
            self.file is None ==> r == Err::<&String, BufferError>(BufferError::NoFileNameSet),
    {
        match &self.file {
            Some(p) => Ok(p),
            None => Err(BufferError::NoFileNameSet),
        }
    }

    /// Records a successful write of the content to `path`: the buffer is
    /// bound to it and holds no unsaved change.
    pub fn mark_saved(&mut self, path: String)
        ensures
            final(self).file == Some(path),
            !final(self).modified,
            final(self).lines == old(self).lines,
    {
        self.file = Some(path);
        self.modified = false;
    }

    /// Where unsaved content is dumped after a crash: nothing when no change is
    /// unsaved, else the backing path with `.recovery` appended, or
    /// `.unnamed.recovery` for an unnamed buffer.
    pub fn recovery_path(&self) -> (r: Option<String>)
        ensures
            !self.modified ==> r is None,
            self.modified ==> (r matches Some(p) && p@ == match self.file {
                Some(f) => f@ + ".recovery"@,
                None => ".unnamed.recovery"@,
            }),
    {
        if !self.modified {
            return None;
        }
        match &self.file {
            Some(f) => Some(f.clone().concat(".recovery")),
            None => Some(String::from_str(".unnamed.recovery")),
        }
    }
}

} // verus!
