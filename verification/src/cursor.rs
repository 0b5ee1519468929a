//! The screen-space cursor: a column/row pair with clamped movement and
//! conversion to absolute positions in a buffer.

use vstd::prelude::*;

use crate::buffer::Buffer;
use crate::buffer::BufferError;
use crate::buffer::line_at;
use crate::buffer::line_count;
use crate::buffer::line_start;

verus! {

/// The absolute character index that a cursor denotes in a document: the
/// index of the first character of the cursor's row, plus the cursor's
/// column.  A pure function of the document content and the cursor
/// position alone.
pub open spec fn absolute_index_of(s: Seq<char>, c: Cursor) -> int {
    line_start(s, c.spec_y()) + c.spec_x()
}

/// A cursor on the screen, as a column (`x`) and a row (`y`).
///
/// A cursor is a pure coordinate: it has no owning relationship to any
/// buffer.  Validity against a particular buffer is checked only at the
/// point of conversion to an absolute index (see `index`).
pub struct Cursor {
    pub x: usize,
    pub y: usize,
}

impl Cursor {
    /// The cursor's column.
    pub open spec fn spec_x(&self) -> int {
        self.x as int
    }

    /// The cursor's row.
    pub open spec fn spec_y(&self) -> int {
        self.y as int
    }

    /// The cursor after a one-row move up: the row decrements, clamped at 0.
    pub open spec fn spec_up(self) -> Cursor {
        if self.y == 0 {
            self
        } else {
            Cursor { x: self.x, y: (self.y - 1) as usize }
        }
    }

    /// The cursor after a one-row move down: the row increments, unclamped.
    pub open spec fn spec_down(self) -> Cursor {
        Cursor { x: self.x, y: (self.y + 1) as usize }
    }

    /// The cursor after a one-column move left: the column decrements,
    /// clamped at 0.
    pub open spec fn spec_left(self) -> Cursor {
        if self.x == 0 {
            self
        } else {
            Cursor { x: (self.x - 1) as usize, y: self.y }
        }
    }

    /// The cursor after a one-column move right: the column increments,
    /// unclamped.
    pub open spec fn spec_right(self) -> Cursor {
        Cursor { x: (self.x + 1) as usize, y: self.y }
    }

    /// Create a new `Cursor` instance at the origin.
    pub fn new() -> (r: Self)
        ensures
            r.spec_x() == 0,
            r.spec_y() == 0,
    {
        Self::default()
    }

    /// Create a new `Cursor` instance at the specified position.
    pub fn at(x: usize, y: usize) -> (r: Self)
        ensures
            r.spec_x() == x,
            r.spec_y() == y,
    {
        Self { x, y }
    }

    /// Get the current cursor position on the x-axis, or in other words, the
    /// cursor's current column.
    pub fn x(&self) -> (r: usize)
        ensures
            r == self.spec_x(),
    {
        self.x
    }

    /// Get the current cursor position on the y-axis, or in other words, the
    /// cursor's current row.
    pub fn y(&self) -> (r: usize)
        ensures
            r == self.spec_y(),
    {
        self.y
    }

    /// Move the cursor up by one row, stopping at the first row.
    pub fn up(&mut self)
        ensures
            *final(self) == old(self).spec_up(),
            final(self).spec_x() == old(self).spec_x(),
            final(self).spec_y() == if old(self).spec_y() == 0 {
                0int
            } else {
                old(self).spec_y() - 1
            },
    {
        // Going above the first line makes no sense.
        if self.y != 0 {
            self.y -= 1;
        }
    }

    /// Move the cursor down by one row.  The movement is unbounded by
    /// design: no clamp against any buffer's line count is applied here;
    /// the controller resynchronises its cached index defensively instead.
    pub fn down(&mut self)
        requires
            old(self).spec_y() < usize::MAX,
        ensures
            *final(self) == old(self).spec_down(),
            final(self).spec_x() == old(self).spec_x(),
            final(self).spec_y() == old(self).spec_y() + 1,
    {
        self.y += 1;
    }

    /// Move the cursor left by one column, stopping at the start of the
    /// line rather than wrapping around to the end of the row above.
    pub fn left(&mut self)
        ensures
            *final(self) == old(self).spec_left(),
            final(self).spec_y() == old(self).spec_y(),
            final(self).spec_x() == if old(self).spec_x() == 0 {
                0int
            } else {
                old(self).spec_x() - 1
            },
    {
        if self.x != 0 {
            self.x -= 1;
        }
    }

    /// Move the cursor right by one column, unconditionally.  Callers that
    /// want to stop at the end of a line consult `is_past_end` first.
    pub fn right(&mut self)
        requires
            old(self).spec_x() < usize::MAX,
        ensures
            *final(self) == old(self).spec_right(),
            final(self).spec_y() == old(self).spec_y(),
            final(self).spec_x() == old(self).spec_x() + 1,
    {
        self.x += 1;
    }

    /// Get the current index in the provided buffer at the cursor position:
    /// the start of the cursor's row plus its column.  Fails with an
    /// out-of-range error when the row is at or past the buffer's line
    /// count, or when the index would not fit in a machine word.
    pub fn index(&self, buffer: &Buffer) -> (r: Result<usize, BufferError>)
        ensures
            ({
                let s = buffer.content();
                &&& (self.spec_y() < line_count(s) && absolute_index_of(s, *self) <= usize::MAX)
                    ==> (r matches Ok(i) && i == absolute_index_of(s, *self))
                &&& (self.spec_y() >= line_count(s) || absolute_index_of(s, *self) > usize::MAX)
                    ==> r == Err::<usize, BufferError>(BufferError::OutOfRange)
            }),
    {
        let start = match buffer.line_to_char(self.y) {
            Ok(v) => v,
            Err(e) => {
                return Err(e);
            },
        };
        if self.x <= usize::MAX - start {
            Ok(start + self.x)
        } else {
            Err(BufferError::OutOfRange)
        }
    }

    /// Get the character in the provided buffer at the cursor position.
    /// Fails with an out-of-range error when the cursor does not denote a
    /// character of the document.
    pub fn char(&self, buffer: &Buffer) -> (r: Result<char, BufferError>)
        ensures
            ({
                let s = buffer.content();
                &&& (self.spec_y() < line_count(s) && absolute_index_of(s, *self) < s.len()) ==> (r
                    matches Ok(c) && c == s[absolute_index_of(s, *self)])
                &&& (self.spec_y() >= line_count(s) || absolute_index_of(s, *self) >= s.len())
                    ==> r == Err::<char, BufferError>(BufferError::OutOfRange)
            }),
    {
        // The document length fits a machine word, so a cursor denoting a
        // character always has a representable absolute index.
        let len = buffer.num_chars();
        let i = match self.index(buffer) {
            Ok(v) => v,
            Err(e) => {
                return Err(e);
            },
        };
        buffer.get_char(i)
    }

    /// Check if the cursor is past the end of the current line in the
    /// provided buffer: at the column of the line's last real character,
    /// one short of the line's full length to leave the trailing
    /// terminator out (on the last line, which has no terminator, one
    /// short of the full line length).  Fails with an out-of-range error
    /// when the row is at or past the buffer's line count.
    pub fn is_past_end(&self, buffer: &Buffer) -> (r: Result<bool, BufferError>)
        ensures
            ({
                let s = buffer.content();
                &&& self.spec_y() < line_count(s) ==> r == Ok::<bool, BufferError>(
                    self.spec_x() == line_at(s, self.spec_y()).len() - 1,
                )
                &&& self.spec_y() >= line_count(s) ==> r == Err::<bool, BufferError>(
                    BufferError::OutOfRange,
                )
            }),
    {
        let current_line = match buffer.get_line(self.y) {
            Ok(l) => l,
            Err(e) => {
                return Err(e);
            },
        };
        // The check is against the length of the line minus 1, so that the
        // trailing terminator is not counted.
        Ok(current_line.len() >= 1 && self.x == current_line.len() - 1)
    }
}

impl Default for Cursor {
    /// The default cursor sits at the origin.
    fn default() -> (r: Self)
        ensures
            r.spec_x() == 0,
            r.spec_y() == 0,
    {
        Self { x: 0, y: 0 }
    }
}

/// A move right followed by a move left returns the cursor to its original
/// position, for every starting column: right always increments, so the
/// column the left move starts from is nonzero and the clamp never engages.
pub proof fn lemma_right_then_left(c: Cursor)
    requires
        c.spec_x() < usize::MAX,
    ensures
        c.spec_right().spec_left() == c,
{
}

/// Moving left from column 0 leaves the cursor unchanged: the clamp at the
/// start of the line makes the move idempotent at the boundary.
pub proof fn lemma_left_clamped_at_zero(c: Cursor)
    requires
        c.spec_x() == 0,
    ensures
        c.spec_left() == c,
{
}

/// For every row within the buffer's range, the absolute index of a cursor
/// is the start index of its row plus its column; and since it is a
/// function of the document content and the cursor position alone,
/// recomputing it without an intervening mutation yields the same value.
pub proof fn lemma_absolute_index_formula(s: Seq<char>, c: Cursor)
    requires
        c.spec_y() < line_count(s),
    ensures
        absolute_index_of(s, c) == line_start(s, c.spec_y()) + c.spec_x(),
{
}

/// Moving up from row 0 leaves the cursor unchanged: the clamp at the first
/// row makes the move idempotent at the boundary.
pub proof fn lemma_up_clamped_at_zero(c: Cursor)
    requires
        c.spec_y() == 0,
    ensures
        c.spec_up() == c,
{
}

} // verus!
