//! The projection of the editor onto a terminal: which lines are visible,
//! the status bar, and where the cursor stands on screen.
use vstd::prelude::*;

use crate::editor::{min, Editor, Mode};
use crate::text::{decimal, decimal_string, push_char};

verus! {

/// The first visible line once the window of `height` lines that started at
/// `top` has been moved just enough to show line `row`.
pub open spec fn scrolled_top(top: int, row: int, height: int) -> int {
    if row < top {
        row
    } else if row >= top + height {
        row - height + 1
    } else {
        top
    }
}

/// How far down a buffer of `count` lines line `row` stands, in whole
/// percent rounded to nearest (halves up); 100 for a buffer of one line.
pub open spec fn position_percent(row: int, count: int) -> int {
    if count <= 1 {
        100
    } else {
        (200 * row + (count - 1)) / (2 * (count - 1))
    }
}

pub open spec fn spaces(n: int) -> Seq<char> {
    Seq::new(n as nat, |i: int| ' ')
}

/// The status bar of a terminal `width` wide: `left` and `right` pushed to
/// either edge with spaces between; where they do not fit, `right` is cut to
/// what fits after `left`.
pub open spec fn status_bar_text(left: Seq<char>, right: Seq<char>, width: int) -> Seq<char> {
    if left.len() + right.len() >= width {
        let available = if width > left.len() {
            width - left.len()
        } else {
            0
        };
        left + right.take(min(available, right.len() as int))
    } else {
        left + spaces(width - left.len() - right.len()) + right
    }
}

pub open spec fn mode_name(m: Mode) -> Seq<char> {
    match m {
        Mode::Normal => "NORMAL"@,
        Mode::Insert => "INSERT"@,
    }
}

/// What is drawn for one state of the editor on a terminal of a given size.
pub struct Frame {
    /// The first buffer line shown, on screen row 0.
    pub top: usize,
    /// How many buffer lines are shown, from `top` on.
    pub visible: usize,
    /// The screen row of the status bar.
    pub status_row: usize,
    /// The status bar's text, as wide as the terminal where it fits.
    pub status: String,
    pub cursor_col: usize,
    pub cursor_row: usize,
}

/// `n` spaces.
fn space_string(n: usize) -> (r: String)
    ensures
        r@ == spaces(n as int),
{
    let mut r = String::new();
    let mut i: usize = 0;
    while i < n
        invariant
            i <= n,
            r@ == spaces(i as int),
        decreases n - i,
    {
        push_char(&mut r, ' ');
        i = i + 1;
        proof {
            assert(r@ =~= spaces(i as int));
        }
    }
    r
}

/// Lays out the status bar, as `status_bar_text` describes.
pub fn status_bar(left: &str, right: &str, width: usize) -> (r: String)
    ensures
        r@ == status_bar_text(left@, right@, width as int),
{
    let ll = left.unicode_len();
    let rl = right.unicode_len();
    if ll as u128 + rl as u128 >= width as u128 {
        let available = if width > ll {
            width - ll
        } else {
            0
        };
        let keep = if available < rl {
            available
        } else {
            rl
        };
        let r = String::from_str(left).concat(right.substring_char(0, keep));
        proof {
            assert(r@ =~= status_bar_text(left@, right@, width as int));
        }
        r
    } else {
        let pad = space_string(width - ll - rl);
        let r = String::from_str(left).concat(pad.as_str()).concat(right);
        r
    }
}

/// The position of line `row` in a buffer of `count` lines, in percent.
pub fn percent(row: usize, count: usize) -> (r: usize)
    requires
        row < count,
    ensures
        r == position_percent(row as int, count as int),
        r <= 100,
{
    if count <= 1 {
        100
    } else {
        let last = (count - 1) as u128;
        let num = 200 * (row as u128) + last;
        let den = 2 * last;
        proof {
            assert(num / den <= 100) by (nonlinear_arith)
                requires
                    num == 200 * (row as u128) + last,
                    den == 2 * last,
                    row as u128 <= last,
                    last >= 1,
            ;
        }
        (num / den) as usize
    }
}

impl Editor {
    /// The left part of the status bar: mode, buffer name, a star for unsaved
    /// changes.
    pub open spec fn status_left_text(&self) -> Seq<char> {
        mode_name(self.mode) + " > "@ + match self.buffer.file {
            Some(p) => p@,
            None => "[No Name]"@,
        } + if self.buffer.modified {
            "*"@
        } else {
            ""@
        } + " >"@
    }

    /// The right part of the status bar: the status message, or the cursor's
    /// line and column (from 1) and its position in percent.
    pub open spec fn status_right_text(&self) -> Seq<char> {
        match self.status_message {
            Some(m) => m@,
            None => "Ln "@ + decimal((self.cy + 1) as nat) + " Col "@ + decimal(
                (self.cx + 1) as nat,
            ) + " "@ + decimal(
                position_percent(self.cy as int, self.buffer.text().len() as int) as nat,
            ) + "%"@,
        }
    }

    pub fn status_left(&self) -> (r: String)
        ensures
            r@ == self.status_left_text(),
    {
        let mode = match self.mode {
            Mode::Normal => String::from_str("NORMAL"),
            Mode::Insert => String::from_str("INSERT"),
        };
        let name = self.buffer.display_name();
        let marker = if self.buffer.modified {
            "*"
        } else {
            ""
        };
        let r = mode.concat(" > ").concat(name.as_str()).concat(marker).concat(" >");
        proof {
            assert(r@ =~= self.status_left_text());
        }
        r
    }

    pub fn status_right(&self) -> (r: String)
        requires
            self.wf(),
        ensures
            r@ == self.status_right_text(),
    {
        match &self.status_message {
            Some(m) => m.clone(),
            None => {
                let line = decimal_string(self.cy as u128 + 1);
                let col = decimal_string(self.cx as u128 + 1);
                let pct = decimal_string(percent(self.cy, self.buffer.len()) as u128);
                let r = String::from_str("Ln ").concat(line.as_str()).concat(" Col ").concat(
                    col.as_str(),
                ).concat(" ").concat(pct.as_str()).concat("%");
                proof {
                    assert(r@ =~= self.status_right_text());
                }
                r
            },
        }
    }

    /// Moves the window of `height` lines just enough that the cursor's line
    /// is in it.
    pub fn scroll(&mut self, height: usize)
        requires
            old(self).wf(),
        ensures
            final(self).wf(),
            final(self).row_offset == scrolled_top(
                old(self).row_offset as int,
                old(self).cy as int,
                height as int,
            ),
            height > 0 ==> final(self).row_offset <= final(self).cy < final(self).row_offset
                + height,
            final(self).buffer == old(self).buffer,
            final(self).cx == old(self).cx,
            final(self).cy == old(self).cy,
            final(self).mode == old(self).mode,
            final(self).status_message == old(self).status_message,
    {
        if self.cy < self.row_offset {
            self.row_offset = self.cy;
        } else if self.cy as u128 >= self.row_offset as u128 + height as u128 {
            self.row_offset = self.cy - height + 1;
        }
    }

    /// Lays the editor out on a terminal `width` columns wide and `height`
    /// rows high: the last row holds the status bar and the rows above it the
    /// lines from the scrolled window's top on.
    pub fn layout(&mut self, width: usize, height: usize) -> (r: Frame)
        requires
            old(self).wf(),
        ensures
            final(self).wf(),
            ({
                let content = if height >= 1 {
                    height - 1
                } else {
                    0
                };
                let top = scrolled_top(
                    old(self).row_offset as int,
                    old(self).cy as int,
                    content as int,
                );
                let n = old(self).text().len() as int;
                &&& final(self).row_offset == top
                &&& r.top == top
                &&& r.visible == if top >= n {
                    0
                } else {
                    min(content as int, n - top)
                }
                &&& r.status_row == content
                &&& r.status@ == status_bar_text(
                    old(self).status_left_text(),
                    old(self).status_right_text(),
                    width as int,
                )
                &&& r.cursor_col == min(
                    old(self).cx as int,
                    if width >= 1 {
                        width - 1
                    } else {
                        0
                    },
                )
                &&& r.cursor_row == if old(self).cy >= top {
                    min(old(self).cy - top, content as int)
                } else {
                    0
                }
            }),
            final(self).buffer == old(self).buffer,
            final(self).cx == old(self).cx,
            final(self).cy == old(self).cy,
            final(self).mode == old(self).mode,
            final(self).status_message == old(self).status_message,
    {
        let content = if height >= 1 {
            height - 1
        } else {
            0
        };
        self.scroll(content);
        let top = self.row_offset;
        let n = self.buffer.len();
        let visible = if top >= n {
            0
        } else if content < n - top {
            content
        } else {
            n - top
        };
        let left = self.status_left();
        let right = self.status_right();
        let status = status_bar(left.as_str(), right.as_str(), width);
        let last_col = if width >= 1 {
            width - 1
        } else {
            0
        };
        let cursor_col = if self.cx < last_col {
            self.cx
        } else {
            last_col
        };
        let rel = if self.cy >= top {
            self.cy - top
        } else {
            0
        };
        let cursor_row = if rel < content {
            rel
        } else {
            content
        };
        Frame { top, visible, status_row: content, status, cursor_col, cursor_row }
    }
}

} // verus!
