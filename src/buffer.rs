//! The text buffer: the document's lines and a cursor counted in characters.
use vstd::prelude::*;
use vstd::string::*;

use crate::text::{join_lines, join_text, push_char, split_lines, split_text, strings_view};
use crate::viewport::{recompute, recompute_spec, Offsets};

verus! {

/// A document seen as its lines and a cursor `(row, column)`.
pub type Doc = (Seq<Seq<char>>, int, int);

/// At least one line, and the cursor on a line, at most one past its end.
pub open spec fn doc_valid(d: Doc) -> bool {
    &&& d.0.len() >= 1
    &&& 0 <= d.1 < d.0.len()
    &&& 0 <= d.2 <= d.0[d.1].len()
}

pub open spec fn insert_char_doc(d: Doc, c: char) -> Doc {
    (d.0.update(d.1, d.0[d.1].insert(d.2, c)), d.1, d.2 + 1)
}

/// Backspace: remove the character left of the cursor, or join the line
/// onto the one above, or nothing at the start of the document.
pub open spec fn delete_backward_doc(d: Doc) -> Doc {
    let (t, r, c) = d;
    if c > 0 {
        (t.update(r, t[r].remove(c - 1)), r, c - 1)
    } else if r > 0 {
        (t.update(r - 1, t[r - 1] + t[r]).remove(r), r - 1, t[r - 1].len() as int)
    } else {
        d
    }
}

/// Split the cursor's line at the cursor; the cursor goes to the start of
/// the new line.
pub open spec fn insert_newline_doc(d: Doc) -> Doc {
    let (t, r, c) = d;
    (t.update(r, t[r].take(c)).insert(r + 1, t[r].skip(c)), r + 1, 0)
}

/// Typing a character and then pressing backspace gives back the same
/// lines and cursor.
pub proof fn lemma_insert_then_delete(d: Doc, c: char)
    requires
        doc_valid(d),
    ensures
        delete_backward_doc(insert_char_doc(d, c)) == d,
{
    let (t, r, col) = d;
    let e = insert_char_doc(d, c);
    assert(e.0[r].remove(col) =~= t[r]);
    assert(e.0.update(r, e.0[r].remove(col)) =~= t);
}

/// Breaking a line and then pressing backspace at the start of the new line
/// gives back the same lines and cursor.
pub proof fn lemma_newline_then_delete(d: Doc)
    requires
        doc_valid(d),
    ensures
        delete_backward_doc(insert_newline_doc(d)) == d,
{
    let (t, r, col) = d;
    let e = insert_newline_doc(d);
    assert(e.0[r] == t[r].take(col));
    assert(e.0[r + 1] == t[r].skip(col));
    assert(t[r].take(col) + t[r].skip(col) =~= t[r]);
    assert(e.0.update(r, e.0[r] + e.0[r + 1]).remove(r + 1) =~= t);
}

/// A cursor movement.
#[derive(Clone, Copy, Debug, PartialEq, Eq, Structural)]
pub enum Direction {
    Up,
    Down,
    Left,
    Right,
}

pub open spec fn min_int(a: int, b: int) -> int {
    if a <= b {
        a
    } else {
        b
    }
}

pub open spec fn move_doc(d: Doc, dir: Direction) -> Doc {
    let (t, r, c) = d;
    match dir {
        Direction::Up => if r > 0 {
            (t, r - 1, min_int(c, t[r - 1].len() as int))
        } else {
            d
        },
        Direction::Down => if r + 1 < t.len() {
            (t, r + 1, min_int(c, t[r + 1].len() as int))
        } else {
            d
        },
        Direction::Left => if c > 0 {
            (t, r, c - 1)
        } else if r > 0 {
            (t, r - 1, t[r - 1].len() as int)
        } else {
            d
        },
        Direction::Right => if c < t[r].len() {
            (t, r, c + 1)
        } else if r + 1 < t.len() {
            (t, r + 1, 0)
        } else {
            d
        },
    }
}

/// Every movement keeps the cursor on a line and within it.
pub proof fn lemma_move_keeps_valid(d: Doc, dir: Direction)
    requires
        doc_valid(d),
    ensures
        doc_valid(move_doc(d, dir)),
{
}

/// The editor's buffer: lines, cursor, scroll offsets and whether it holds
/// changes that were not saved.
pub struct Editor {
    pub lines: Vec<String>,
    /// Column of the cursor, in characters.
    pub cursor_x: usize,
    /// Row of the cursor.
    pub cursor_y: usize,
    pub row_offset: usize,
    pub col_offset: usize,
    pub is_changed: bool,
}

impl Editor {
    pub open spec fn text(&self) -> Seq<Seq<char>> {
        strings_view(self.lines@)
    }

    pub open spec fn doc(&self) -> Doc {
        (self.text(), self.cursor_y as int, self.cursor_x as int)
    }

    pub open spec fn wf(&self) -> bool {
        doc_valid(self.doc())
    }

    /// The scroll offsets are those of `other`.
    pub open spec fn same_offsets(&self, other: &Editor) -> bool {
        self.row_offset == other.row_offset && self.col_offset == other.col_offset
    }

    /// An empty document: one empty line, the cursor at its start.
    pub fn new() -> (r: Self)
        ensures
            r.wf(),
            r.text() == seq![Seq::<char>::empty()],
            r.cursor_x == 0 && r.cursor_y == 0,
            r.row_offset == 0 && r.col_offset == 0,
            !r.is_changed,
    {
        let mut lines: Vec<String> = Vec::new();
        lines.push(String::new());
        let r = Editor {
            lines,
            cursor_x: 0,
            cursor_y: 0,
            row_offset: 0,
            col_offset: 0,
            is_changed: false,
        };
        assert(r.text() =~= seq![Seq::<char>::empty()]);
        r
    }

    /// A buffer holding the lines of a file's text, the cursor at the start.
    pub fn from_text(content: &str) -> (r: Self)
        ensures
            r.wf(),
            r.text() == split_text(content@),
            r.cursor_x == 0 && r.cursor_y == 0,
            r.row_offset == 0 && r.col_offset == 0,
            !r.is_changed,
    {
        let lines = split_lines(content);
        Editor {
            lines,
            cursor_x: 0,
            cursor_y: 0,
            row_offset: 0,
            col_offset: 0,
            is_changed: false,
        }
    }

    /// The text to save: every line followed by a newline.
    pub fn contents(&self) -> (r: String)
        ensures
            r@ == join_lines(self.text()),
    {
        join_text(&self.lines)
    }

    /// Records that the buffer was saved.
    pub fn mark_saved(&mut self)
        ensures
            final(self).doc() == old(self).doc(),
            final(self).same_offsets(old(self)),
            !final(self).is_changed,
    {
        self.is_changed = false;
    }

    /// Number of characters in the cursor's line.
    pub fn current_line_len(&self) -> (r: usize)
        requires
            self.wf(),
        ensures
            r == self.text()[self.cursor_y as int].len(),
    {
        self.lines[self.cursor_y].as_str().unicode_len()
    }

    /// Inserts `c` at the cursor and moves the cursor past it.
    pub fn insert_char(&mut self, c: char)
        requires
            old(self).wf(),
            old(self).text()[old(self).cursor_y as int].len() < usize::MAX,
        ensures
            final(self).wf(),
            final(self).doc() == insert_char_doc(old(self).doc(), c),
            final(self).same_offsets(old(self)),
            final(self).is_changed,
    {
        let y = self.cursor_y;
        let x = self.cursor_x;
        let line = self.lines[y].as_str();
        let n = line.unicode_len();
        let mut updated = String::from_str(line.substring_char(0, x));
        push_char(&mut updated, c);
        updated.append(line.substring_char(x, n));
        let ghost old_line = self.text()[y as int];
        assert(updated@ =~= old_line.insert(x as int, c));
        self.lines.set(y, updated);
        self.cursor_x = x + 1;
        self.is_changed = true;
        assert(self.text() =~= old(self).text().update(y as int, old_line.insert(x as int, c)));
    }

    /// Backspace: deletes the character left of the cursor; at the start of
    /// a line joins it onto the end of the line above, the cursor going to
    /// where that line ended; at the start of the document does nothing.
    pub fn delete_char(&mut self)
        requires
            old(self).wf(),
        ensures
            final(self).wf(),
            final(self).doc() == delete_backward_doc(old(self).doc()),
            final(self).same_offsets(old(self)),
            final(self).is_changed == (old(self).is_changed || old(self).cursor_x > 0
                || old(self).cursor_y > 0),
    {
        let y = self.cursor_y;
        let x = self.cursor_x;
        if x > 0 {
            let line = self.lines[y].as_str();
            let n = line.unicode_len();
            let mut updated = String::from_str(line.substring_char(0, x - 1));
            updated.append(line.substring_char(x, n));
            let ghost old_line = self.text()[y as int];
            assert(updated@ =~= old_line.remove(x - 1));
            self.lines.set(y, updated);
            self.cursor_x = x - 1;
            self.is_changed = true;
            assert(self.text() =~= old(self).text().update(y as int, old_line.remove(x - 1)));
        } else if y > 0 {
            let ghost t = self.text();
            let current = self.lines.remove(y);
            let above = self.lines[y - 1].clone();
            let n = above.as_str().unicode_len();
            let joined = above.concat(current.as_str());
            self.lines.set(y - 1, joined);
            self.cursor_y = y - 1;
            self.cursor_x = n;
            self.is_changed = true;
            assert(self.text() =~= t.update(y - 1, t[y - 1] + t[y as int]).remove(y as int));
        }
    }

    /// Splits the cursor's line at the cursor; the part after it becomes a
    /// new line below, and the cursor moves to that line's start.
    pub fn insert_new_line(&mut self)
        requires
            old(self).wf(),
        ensures
            final(self).wf(),
            final(self).doc() == insert_newline_doc(old(self).doc()),
            final(self).same_offsets(old(self)),
            final(self).is_changed,
    {
        let ghost t = self.text();
        let y = self.cursor_y;
        let x = self.cursor_x;
        let line = self.lines[y].as_str();
        let n = line.unicode_len();
        let left = String::from_str(line.substring_char(0, x));
        let right = String::from_str(line.substring_char(x, n));
        assert(left@ =~= t[y as int].take(x as int));
        assert(right@ =~= t[y as int].skip(x as int));
        self.lines.set(y, left);
        let count = self.lines.len();
        assert(y < count);
        self.lines.insert(y + 1, right);
        self.cursor_y = y + 1;
        self.cursor_x = 0;
        self.is_changed = true;
        assert(self.text() =~= t.update(y as int, t[y as int].take(x as int)).insert(
            y + 1,
            t[y as int].skip(x as int),
        ));
    }

    /// Moves the cursor one step; moves off the document are ignored, and the
    /// column is kept within the line it lands on.
    pub fn move_cursor(&mut self, dir: Direction)
        requires
            old(self).wf(),
        ensures
            final(self).wf(),
            final(self).doc() == move_doc(old(self).doc(), dir),
            final(self).same_offsets(old(self)),
            final(self).is_changed == old(self).is_changed,
    {
        let count = self.lines.len();
        assert(count == self.text().len());
        match dir {
            Direction::Up => {
                if self.cursor_y > 0 {
                    self.cursor_y = self.cursor_y - 1;
                    let len = self.lines[self.cursor_y].as_str().unicode_len();
                    if self.cursor_x > len {
                        self.cursor_x = len;
                    }
                }
            },
            Direction::Down => {
                if self.cursor_y + 1 < count {
                    self.cursor_y = self.cursor_y + 1;
                    let len = self.lines[self.cursor_y].as_str().unicode_len();
                    if self.cursor_x > len {
                        self.cursor_x = len;
                    }
                }
            },
            Direction::Right => {
                let len = self.lines[self.cursor_y].as_str().unicode_len();
                if self.cursor_x < len {
                    self.cursor_x = self.cursor_x + 1;
                } else if self.cursor_y + 1 < count {
                    self.cursor_x = 0;
                    self.cursor_y = self.cursor_y + 1;
                }
            },
            Direction::Left => {
                if self.cursor_x > 0 {
                    self.cursor_x = self.cursor_x - 1;
                } else if self.cursor_y > 0 {
                    self.cursor_y = self.cursor_y - 1;
                    self.cursor_x = self.lines[self.cursor_y].as_str().unicode_len();
                }
            },
        }
    }

    /// Moves the scroll offsets so that the cursor is inside a screen of
    /// `width` columns and `height` rows.
    pub fn scroll(&mut self, width: usize, height: usize)
        requires
            width >= 1,
            height >= 1,
        ensures
            final(self).doc() == old(self).doc(),
            final(self).is_changed == old(self).is_changed,
            (final(self).row_offset as int, final(self).col_offset as int) == recompute_spec(
                old(self).cursor_y as int,
                old(self).cursor_x as int,
                width as int,
                height as int,
                Offsets { row_offset: old(self).row_offset, col_offset: old(self).col_offset },
            ),
            final(self).row_offset <= final(self).cursor_y < final(self).row_offset + height,
            final(self).col_offset <= final(self).cursor_x < final(self).col_offset + width,
    {
        let prev = Offsets { row_offset: self.row_offset, col_offset: self.col_offset };
        let r = recompute(self.cursor_y, self.cursor_x, width, height, prev);
        self.row_offset = r.row_offset;
        self.col_offset = r.col_offset;
    }
}

} // verus!
