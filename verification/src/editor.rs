//! The editor controller: owns one buffer and one cursor, dispatches
//! discrete input events to text mutations and cursor movements, keeps a
//! cached absolute index consistent with both, and exposes the draw plan
//! for a viewport.
//!
//! Synchronisation policy: after every handled event the cached index is
//! recomputed from the cursor and the buffer.  Downward movement is
//! deliberately left unclamped, so the cursor can come to
//! denote no position of the document; the recomputation then clamps the
//! cache defensively to the end of the document rather than fail, and a
//! rightward move from an invalid row is ignored.

use vstd::prelude::*;

use crate::buffer::Buffer;
use crate::buffer::inserted;
use crate::buffer::line_at;
use crate::buffer::line_count;
use crate::buffer::removed;
use crate::cursor::Cursor;
use crate::cursor::absolute_index_of;

verus! {

/// A viewport size, in columns (`x`) and rows (`y`).
#[derive(Clone, Copy, Debug, PartialEq, Eq, Structural)]
pub struct Size {
    pub x: usize,
    pub y: usize,
}

/// A discrete input event, independent of any input framework.
#[derive(Clone, Copy, Debug, PartialEq, Eq)]
pub enum Event {
    /// A printable character was typed.
    Char(char),
    /// The line-terminator key was pressed.
    Enter,
    /// The key deleting one character before the cursor was pressed.
    Backspace,
    /// Cursor movement keys.
    Left,
    Right,
    Up,
    Down,
    /// Any event this controller does not handle.
    Other,
}

/// The controller's verdict on one event.
#[derive(Clone, Copy, Debug, PartialEq, Eq, Structural)]
pub enum EventResult {
    /// The event was handled and the state advanced.
    Consumed,
    /// The event was not handled and the state is unchanged.
    Ignored,
}

/// One cell-anchored piece of text to paint: its screen position, its
/// characters, and whether it is painted highlighted (inverted).
#[derive(Clone, Debug, PartialEq, Eq)]
pub struct DrawCmd {
    pub x: usize,
    pub y: usize,
    pub text: Vec<char>,
    pub highlight: bool,
}

/// The cached absolute index after a resynchronisation: the cursor's
/// absolute position when the cursor denotes a position of the document,
/// and the document length as the defensive clamp otherwise.
pub open spec fn synced_index(s: Seq<char>, c: Cursor) -> int {
    if c.spec_y() < line_count(s) && absolute_index_of(s, c) <= s.len() {
        absolute_index_of(s, c)
    } else {
        s.len() as int
    }
}

/// Whether the cursor is on the line's last real character, the column one
/// short of the line's full length so that the trailing terminator is not
/// counted.
pub open spec fn at_line_end(s: Seq<char>, c: Cursor) -> bool {
    c.spec_x() == line_at(s, c.spec_y()).len() - 1
}

/// The number of document lines the draw paints: every line of the
/// document whose row fits the viewport, starting at line 0.
pub open spec fn visible_rows(s: Seq<char>, size: Size) -> int {
    if line_count(s) <= size.y + 1 {
        line_count(s) as int
    } else {
        size.y + 1
    }
}

/// Whether the cursor denotes a character of the document, so that the
/// draw can paint that character highlighted.
pub open spec fn cursor_char_visible(s: Seq<char>, c: Cursor) -> bool {
    c.spec_y() < line_count(s) && absolute_index_of(s, c) < s.len()
}

/// A text editor view: the buffer, the cached absolute index, the screen
/// cursor, and the viewport size.
pub struct EditorView {
    /// The buffer containing the text.
    buffer: Buffer,
    /// The position in the buffer as a character index.
    index: usize,
    /// The cursor position on the screen.
    cursor: Cursor,
    /// The window size.
    size: Size,
}

impl EditorView {
    /// The owned buffer.
    pub closed spec fn spec_buffer(&self) -> Buffer {
        self.buffer
    }

    /// The cached absolute index.
    pub closed spec fn spec_index(&self) -> int {
        self.index as int
    }

    /// The owned cursor.
    pub closed spec fn spec_cursor(&self) -> Cursor {
        self.cursor
    }

    /// The last viewport size the controller was laid out with.
    pub closed spec fn spec_size(&self) -> Size {
        self.size
    }

    /// Well-formedness: the cached index lies within the document, so an
    /// insertion at the cache is always possible.
    pub open spec fn wf(&self) -> bool {
        0 <= self.spec_index() <= self.spec_buffer().content().len()
    }

    /// Create a new `EditorView` instance from the specified buffer: index
    /// at the start of the document, cursor at the origin, viewport empty
    /// until the first layout.
    pub fn new(buffer: Buffer) -> (r: Self)
        ensures
            r.spec_buffer() == buffer,
            r.spec_index() == 0,
            r.spec_cursor().spec_x() == 0,
            r.spec_cursor().spec_y() == 0,
            r.spec_size() == (Size { x: 0, y: 0 }),
            r.wf(),
    {
        Self { buffer, index: 0, cursor: Cursor::new(), size: Size { x: 0, y: 0 } }
    }

    /// Recompute the cached index from the cursor and the buffer, clamping
    /// it defensively to the end of the document when the cursor denotes no
    /// position of it.
    fn sync_index(&mut self)
        ensures
            final(self).spec_buffer() == old(self).spec_buffer(),
            final(self).spec_cursor() == old(self).spec_cursor(),
            final(self).spec_size() == old(self).spec_size(),
            final(self).spec_index() == synced_index(
                old(self).spec_buffer().content(),
                old(self).spec_cursor(),
            ),
            final(self).wf(),
    {
        let len = self.buffer.num_chars();
        let idx = match self.cursor.index(&self.buffer) {
            Ok(i) => if i <= len {
                i
            } else {
                len
            },
            Err(_) => len,
        };
        self.index = idx;
    }

    /// Insert the character into the buffer at the cached index and move
    /// the cursor one column right.  The cached index itself is not
    /// updated here; event dispatch resynchronises it afterwards.
    pub fn insert(&mut self, chr: char)
        requires
            old(self).wf(),
            old(self).spec_buffer().content().len() + 1 < usize::MAX,
            old(self).spec_cursor().spec_x() < usize::MAX,
        ensures
            final(self).spec_buffer().content() == inserted(
                old(self).spec_buffer().content(),
                old(self).spec_index(),
                seq![chr],
            ),
            final(self).spec_buffer().spec_dirty(),
            final(self).spec_buffer().spec_path() == old(self).spec_buffer().spec_path(),
            final(self).spec_cursor() == old(self).spec_cursor().spec_right(),
            final(self).spec_index() == old(self).spec_index(),
            final(self).spec_size() == old(self).spec_size(),
            final(self).wf(),
    {
        let idx = self.index;
        match self.buffer.insert_char(idx, chr) {
            Ok(_) => {},
            Err(_) => {},
        }
        // Update our cursor position.
        self.cursor.right();
    }

    /// Remove `count` characters immediately before the cached index, when
    /// the cache is not at the start of the document, and move the cursor
    /// one column left either way.  The cached index itself is not updated
    /// here; event dispatch resynchronises it afterwards.
    pub fn remove(&mut self, count: usize)
        requires
            old(self).wf(),
            old(self).spec_index() != 0 ==> count <= old(self).spec_index(),
        ensures
            old(self).spec_index() != 0 ==> {
                &&& final(self).spec_buffer().content() == removed(
                    old(self).spec_buffer().content(),
                    old(self).spec_index() - count,
                    old(self).spec_index(),
                )
                &&& final(self).spec_buffer().spec_dirty()
            },
            old(self).spec_index() == 0 ==> final(self).spec_buffer() == old(self).spec_buffer(),
            final(self).spec_buffer().spec_path() == old(self).spec_buffer().spec_path(),
            final(self).spec_cursor() == old(self).spec_cursor().spec_left(),
            final(self).spec_index() == old(self).spec_index(),
            final(self).spec_size() == old(self).spec_size(),
    {
        if self.index != 0 {
            let start = self.index - count;
            let idx = self.index;
            match self.buffer.remove(start, idx) {
                Ok(_) => {},
                Err(_) => {},
            }
        }
        // Update our cursor position.
        self.cursor.left();
    }

    /// Record the current viewport size.  A pure state update: no effect
    /// on content, cursor or cache.
    pub fn layout(&mut self, size: Size)
        ensures
            final(self).spec_buffer() == old(self).spec_buffer(),
            final(self).spec_cursor() == old(self).spec_cursor(),
            final(self).spec_index() == old(self).spec_index(),
            final(self).spec_size() == size,
    {
        self.size = size;
    }

    /// The size this view asks its host for: the largest available, since
    /// the editor takes up the entire view.
    pub fn required_size(&mut self, constraint: Size) -> (r: Size)
        ensures
            *final(self) == *old(self),
            r == constraint,
    {
        constraint
    }

    /// Dispatch one discrete input event: a mutation for character input,
    /// the terminator and backspace; a movement for the arrows, rightward
    /// movement permitted only short of the line's end; everything else is
    /// ignored.  After every handled event the cached index is recomputed
    /// from the cursor and the buffer.
    pub fn on_event(&mut self, event: Event) -> (r: EventResult)
        requires
            old(self).wf(),
            (event matches Event::Char(_) || event matches Event::Enter) ==> {
                &&& old(self).spec_buffer().content().len() + 1 < usize::MAX
                &&& old(self).spec_cursor().spec_x() < usize::MAX
            },
            event matches Event::Right ==> old(self).spec_cursor().spec_x() < usize::MAX,
            event matches Event::Down ==> old(self).spec_cursor().spec_y() < usize::MAX,
        ensures
            final(self).wf(),
            final(self).spec_size() == old(self).spec_size(),
            final(self).spec_buffer().spec_path() == old(self).spec_buffer().spec_path(),
            ({
                let s = old(self).spec_buffer().content();
                let c = old(self).spec_cursor();
                let i = old(self).spec_index();
                match event {
                    Event::Char(ch) => {
                        &&& final(self).spec_buffer().content() == inserted(s, i, seq![ch])
                        &&& final(self).spec_buffer().spec_dirty()
                        &&& final(self).spec_cursor() == c.spec_right()
                        &&& final(self).spec_index() == synced_index(
                            final(self).spec_buffer().content(),
                            c.spec_right(),
                        )
                        &&& r == EventResult::Consumed
                    },
                    Event::Enter => {
                        &&& final(self).spec_buffer().content() == inserted(s, i, seq!['\n'])
                        &&& final(self).spec_buffer().spec_dirty()
                        &&& final(self).spec_cursor() == c.spec_right()
                        &&& final(self).spec_index() == synced_index(
                            final(self).spec_buffer().content(),
                            c.spec_right(),
                        )
                        &&& r == EventResult::Consumed
                    },
                    Event::Backspace => {
                        &&& final(self).spec_buffer().content() == (if i != 0 {
                            removed(s, i - 1, i)
                        } else {
                            s
                        })
                        &&& i != 0 ==> final(self).spec_buffer().spec_dirty()
                        &&& final(self).spec_cursor() == c.spec_left()
                        &&& final(self).spec_index() == synced_index(
                            final(self).spec_buffer().content(),
                            c.spec_left(),
                        )
                        &&& r == EventResult::Consumed
                    },
                    Event::Left => {
                        &&& final(self).spec_buffer() == old(self).spec_buffer()
                        &&& final(self).spec_cursor() == c.spec_left()
                        &&& final(self).spec_index() == synced_index(s, c.spec_left())
                        &&& r == EventResult::Consumed
                    },
                    Event::Right => {
                        if c.spec_y() < line_count(s) && !at_line_end(s, c) {
                            &&& final(self).spec_buffer() == old(self).spec_buffer()
                            &&& final(self).spec_cursor() == c.spec_right()
                            &&& final(self).spec_index() == synced_index(s, c.spec_right())
                            &&& r == EventResult::Consumed
                        } else {
                            &&& *final(self) == *old(self)
                            &&& r == EventResult::Ignored
                        }
                    },
                    Event::Up => {
                        &&& final(self).spec_buffer() == old(self).spec_buffer()
                        &&& final(self).spec_cursor() == c.spec_up()
                        &&& final(self).spec_index() == synced_index(s, c.spec_up())
                        &&& r == EventResult::Consumed
                    },
                    Event::Down => {
                        &&& final(self).spec_buffer() == old(self).spec_buffer()
                        &&& final(self).spec_cursor() == c.spec_down()
                        &&& final(self).spec_index() == synced_index(s, c.spec_down())
                        &&& r == EventResult::Consumed
                    },
                    Event::Other => {
                        &&& *final(self) == *old(self)
                        &&& r == EventResult::Ignored
                    },
                }
            }),
    {
        match event {
            // Editing
            Event::Char(key) => {
                self.insert(key);
            },
            Event::Enter => {
                self.insert('\n');
            },
            Event::Backspace => {
                self.remove(1);
            },
            // Movement
            Event::Left => {
                self.cursor.left();
            },
            Event::Right => {
                let past = self.cursor.is_past_end(&self.buffer);
                match past {
                    Ok(false) => {
                        self.cursor.right();
                    },
                    _ => {
                        return EventResult::Ignored;
                    },
                }
            },
            Event::Up => {
                self.cursor.up();
            },
            Event::Down => {
                self.cursor.down();
            },
            Event::Other => {
                return EventResult::Ignored;
            },
        }
        // Update our position in the buffer.
        self.sync_index();
        EventResult::Consumed
    }

    /// The draw plan for the current state: one unhighlighted command per
    /// visible line, in row order from line 0 (no scrolling), then, when
    /// the cursor denotes a character of the document, one highlighted
    /// command painting that character at the cursor's screen position.
    pub fn draw_commands(&self) -> (r: Vec<DrawCmd>)
        requires
            self.spec_buffer().content().len() < usize::MAX,
        ensures
            ({
                let s = self.spec_buffer().content();
                let c = self.spec_cursor();
                let vis = visible_rows(s, self.spec_size());
                &&& r@.len() == vis + (if cursor_char_visible(s, c) {
                    1int
                } else {
                    0int
                })
                &&& forall|k: int|
                    #![trigger r@[k]]
                    0 <= k < vis ==> {
                        &&& r@[k].x == 0
                        &&& r@[k].y == k
                        &&& r@[k].text@ == line_at(s, k)
                        &&& !r@[k].highlight
                    }
                &&& cursor_char_visible(s, c) ==> {
                    &&& r@[vis].x == c.spec_x()
                    &&& r@[vis].y == c.spec_y()
                    &&& r@[vis].text@ == seq![s[absolute_index_of(s, c)]]
                    &&& r@[vis].highlight
                }
            }),
    {
        let ghost s = self.spec_buffer().content();
        let ghost vis = visible_rows(s, self.spec_size());
        let total = self.buffer.num_lines();
        let mut out: Vec<DrawCmd> = Vec::new();
        let mut row: usize = 0;
        while row < total && row <= self.size.y
            invariant
                s == self.spec_buffer().content(),
                vis == visible_rows(s, self.spec_size()),
                total == line_count(s),
                row <= total,
                row <= vis,
                out@.len() == row,
                forall|k: int|
                    #![trigger out@[k]]
                    0 <= k < row ==> {
                        &&& out@[k].x == 0
                        &&& out@[k].y == k
                        &&& out@[k].text@ == line_at(s, k)
                        &&& !out@[k].highlight
                    },
            decreases total - row,
        {
            match self.buffer.get_line(row) {
                Ok(l) => {
                    out.push(DrawCmd { x: 0, y: row, text: l, highlight: false });
                },
                Err(_) => {
                    proof {
                        assert(false);
                    }
                },
            }
            row += 1;
        }
        // Paint the character under the cursor, highlighted, when there is
        // one; a cursor denoting no character paints nothing extra.
        match self.cursor.char(&self.buffer) {
            Ok(ch) => {
                let mut t: Vec<char> = Vec::new();
                t.push(ch);
                let cx = self.cursor.x();
                let cy = self.cursor.y();
                out.push(DrawCmd { x: cx, y: cy, text: t, highlight: true });
            },
            Err(_) => {},
        }
        out
    }

    /// The owned buffer, for read-only queries.
    pub fn buffer(&self) -> (r: &Buffer)
        ensures
            *r == self.spec_buffer(),
    {
        &self.buffer
    }

    /// The cached absolute index, for diagnostic readouts.
    pub fn cached_index(&self) -> (r: usize)
        ensures
            r == self.spec_index(),
    {
        self.index
    }

    /// The cursor's screen position as a column/row pair, for diagnostic
    /// readouts.
    pub fn cursor_position(&self) -> (r: (usize, usize))
        ensures
            r.0 == self.spec_cursor().spec_x(),
            r.1 == self.spec_cursor().spec_y(),
    {
        (self.cursor.x(), self.cursor.y())
    }

    /// The last viewport size the controller was laid out with, for
    /// diagnostic readouts.
    pub fn view_size(&self) -> (r: Size)
        ensures
            r == self.spec_size(),
    {
        self.size
    }
}

} // verus!
