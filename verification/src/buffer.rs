//! The text buffer: an in-memory document with indexed character and line
//! access and indexed insert/remove.
//!
//! The document is held as a flat vector of Unicode scalar values.  This is
//! the documented lower-performance fallback representation: indexed insert
//! and remove cost time linear in the document length, which is accepted
//! here as the performance ceiling in exchange for contracts stated directly
//! over the character sequence.
//!
//! Lines are the maximal runs of characters delimited by `'\n'`: a document
//! always contains at least one line, an empty document being one empty
//! line, and a trailing terminator opening a final empty line.

use vstd::prelude::*;
use vstd::string::StrSliceExecFns;

verus! {

/// Errors reported by the checked buffer operations.
#[derive(Clone, Copy, Debug, PartialEq, Eq, Structural)]
pub enum BufferError {
    /// A character index or a line index lay outside the buffer.
    OutOfRange,
    /// A removal range was inverted or ran past the end of the buffer.
    InvalidRange,
}

/// The number of line-terminator characters in `s`.
pub open spec fn newline_count(s: Seq<char>) -> nat
    decreases s.len(),
{
    if s.len() == 0 {
        0nat
    } else {
        (if s[0] == '\n' {
            1nat
        } else {
            0nat
        }) + newline_count(s.skip(1))
    }
}

/// The number of lines in a document: one more than the number of
/// terminators.
pub open spec fn line_count(s: Seq<char>) -> nat {
    newline_count(s) + 1
}

/// The absolute character index of the first character of line `row`: the
/// index just past the `row`-th line terminator.  For `row` at or past the
/// line count this degenerates to the document length.
pub open spec fn line_start(s: Seq<char>, row: int) -> int
    decreases s.len(),
{
    if row <= 0 || s.len() == 0 {
        0
    } else if s[0] == '\n' {
        1 + line_start(s.skip(1), row - 1)
    } else {
        1 + line_start(s.skip(1), row)
    }
}

/// The absolute character index just past the last character of line `row`,
/// its trailing terminator included: the start of the following line, or the
/// document length for the last line.
pub open spec fn line_end(s: Seq<char>, row: int) -> int {
    line_start(s, row + 1)
}

/// The content of line `row`, its trailing terminator included when the
/// line has one (every line but the last does).
pub open spec fn line_at(s: Seq<char>, row: int) -> Seq<char> {
    s.subrange(line_start(s, row), line_end(s, row))
}

/// The document after inserting `t` before index `i`.
pub open spec fn inserted(s: Seq<char>, i: int, t: Seq<char>) -> Seq<char> {
    s.take(i) + t + s.skip(i)
}

/// The document after removing the half-open range `[start, end)`.
pub open spec fn removed(s: Seq<char>, start: int, end: int) -> Seq<char> {
    s.take(start) + s.skip(end)
}

/// A document never holds more terminators than characters.
pub proof fn lemma_newline_count_le_len(s: Seq<char>)
    ensures
        newline_count(s) <= s.len(),
    decreases s.len(),
{
    if s.len() > 0 {
        lemma_newline_count_le_len(s.skip(1));
    }
}

/// Counting terminators from position `i` steps by one character: the
/// count from `i` is the count from `i + 1` plus one when `s[i]` is a
/// terminator.
pub proof fn lemma_newline_count_step(s: Seq<char>, i: int)
    requires
        0 <= i < s.len(),
    ensures
        newline_count(s.skip(i)) == (if s[i] == '\n' {
            1nat
        } else {
            0nat
        }) + newline_count(s.skip(i + 1)),
{
    assert(s.skip(i).skip(1) =~= s.skip(i + 1));
    assert(s.skip(i)[0] == s[i]);
}

/// Scanning for the start of a line steps by one character: from position
/// `i`, the distance to the start of the `row`-th following line shrinks by
/// one, and the row target decrements exactly when `s[i]` is a terminator.
pub proof fn lemma_line_start_step(s: Seq<char>, i: int, row: int)
    requires
        0 <= i < s.len(),
        row >= 1,
    ensures
        line_start(s.skip(i), row) == 1 + line_start(
            s.skip(i + 1),
            if s[i] == '\n' {
                row - 1
            } else {
                row
            },
        ),
{
    assert(s.skip(i).skip(1) =~= s.skip(i + 1));
    assert(s.skip(i)[0] == s[i]);
}

/// Every line start lies within the document.
pub proof fn lemma_line_start_bounds(s: Seq<char>, row: int)
    ensures
        0 <= line_start(s, row) <= s.len(),
    decreases s.len(),
{
    if row <= 0 || s.len() == 0 {
    } else if s[0] == '\n' {
        lemma_line_start_bounds(s.skip(1), row - 1);
    } else {
        lemma_line_start_bounds(s.skip(1), row);
    }
}

/// The start of line `r + 1` decomposes as the start of line `r` plus the
/// distance from there to the next line: the scan for a line's end may
/// begin at the line's start.
pub proof fn lemma_line_start_decompose(s: Seq<char>, r: int)
    requires
        0 <= r,
    ensures
        line_start(s, r + 1) == line_start(s, r) + line_start(s.skip(line_start(s, r)), 1),
    decreases s.len(),
{
    if r == 0 || s.len() == 0 {
        assert(s.skip(0) =~= s);
    } else {
        let s1 = s.skip(1);
        if s[0] == '\n' {
            lemma_line_start_decompose(s1, r - 1);
            lemma_line_start_bounds(s1, r - 1);
            assert(s.skip(1 + line_start(s1, r - 1)) =~= s1.skip(line_start(s1, r - 1)));
        } else {
            lemma_line_start_decompose(s1, r);
            lemma_line_start_bounds(s1, r);
            assert(s.skip(1 + line_start(s1, r)) =~= s1.skip(line_start(s1, r)));
        }
    }
}

/// Inserting text before a valid index and then removing exactly the range
/// it occupies restores the original document (round trip).
pub proof fn lemma_insert_remove_roundtrip(s: Seq<char>, index: int, t: Seq<char>)
    requires
        0 <= index <= s.len(),
        t.len() > 0,
    ensures
        removed(inserted(s, index, t), index, index + t.len()) == s,
{
    assert(removed(inserted(s, index, t), index, index + t.len()) =~= s);
}

/// A representation of a buffer of text, along with its associated metadata.
pub struct Buffer {
    /// The characters of the document, in order.
    text: Vec<char>,
    /// The path to the file that the buffer represents, when there is one:
    /// not every buffer has an associated file.
    path: Option<String>,
    /// The edit state of the buffer: set by every mutation, never consumed
    /// here (there is no save path in this core).
    dirty: bool,
}

impl Buffer {
    /// The document content as a sequence of characters.
    pub closed spec fn content(&self) -> Seq<char> {
        self.text@
    }

    /// The associated path, as a character sequence, when there is one.
    pub closed spec fn spec_path(&self) -> Option<Seq<char>> {
        match self.path {
            Some(p) => Some(p@),
            None => None,
        }
    }

    /// Whether the buffer has been mutated since it was created or loaded.
    pub closed spec fn spec_dirty(&self) -> bool {
        self.dirty
    }

    /// Create a new, empty `Buffer` instance: zero length, one empty line,
    /// no associated path.
    pub fn new() -> (r: Self)
        ensures
            r.content() == Seq::<char>::empty(),
            r.spec_path() is None,
            !r.spec_dirty(),
    {
        Self::default()
    }

    /// Create a new `Buffer` instance holding the given text, associated
    /// with the given path when one is known.  The loading of the text from
    /// an external resource happens outside this core; the buffer starts
    /// clean.
    pub fn from_text(text: &str, path: Option<String>) -> (r: Self)
        requires
            text@.len() < usize::MAX,
        ensures
            r.content() == text@,
            match path {
                Some(p) => r.spec_path() == Some(p@),
                None => r.spec_path() is None,
            },
            !r.spec_dirty(),
    {
        let n = text.unicode_len();
        let mut buf: Vec<char> = Vec::new();
        let mut k: usize = 0;
        while k < n
            invariant
                k <= n,
                n == text@.len(),
                buf@ == text@.take(k as int),
            decreases n - k,
        {
            let c = text.get_char(k);
            buf.push(c);
            proof {
                assert(text@.take(k + 1) =~= text@.take(k as int).push(text@[k as int]));
            }
            k += 1;
        }
        proof {
            assert(text@.take(n as int) =~= text@);
        }
        Self { text: buf, path, dirty: false }
    }

    /// Get the path to the underlying file, if there is one.
    pub fn path(&self) -> (r: Option<&String>)
        ensures
            match r {
                Some(p) => self.spec_path() == Some(p@),
                None => self.spec_path() is None,
            },
    {
        match &self.path {
            Some(path) => Some(path),
            None => None,
        }
    }

    /// Whether the buffer has been mutated since it was created or loaded.
    /// The flag is set by every insert and remove; nothing in this core
    /// consumes or clears it (there is no save path).
    pub fn is_dirty(&self) -> (r: bool)
        ensures
            r == self.spec_dirty(),
    {
        self.dirty
    }

    /// Get the number of characters in the buffer.
    pub fn num_chars(&self) -> (r: usize)
        ensures
            r == self.content().len(),
    {
        self.text.len()
    }

    /// Get the number of lines in the buffer.
    pub fn num_lines(&self) -> (r: usize)
        requires
            self.content().len() < usize::MAX,
        ensures
            r == line_count(self.content()),
    {
        let ghost s = self.text@;
        proof {
            lemma_newline_count_le_len(s);
            assert(s.skip(0) =~= s);
        }
        let mut cnt: usize = 0;
        let mut i: usize = 0;
        while i < self.text.len()
            invariant
                s == self.text@,
                i <= s.len(),
                cnt <= i,
                cnt + newline_count(s.skip(i as int)) == newline_count(s),
            decreases s.len() - i,
        {
            proof {
                lemma_newline_count_step(s, i as int);
            }
            if self.text[i] == '\n' {
                cnt += 1;
            }
            i += 1;
        }
        proof {
            assert(s.skip(s.len() as int) =~= Seq::<char>::empty());
        }
        cnt + 1
    }

    /// Get the character at the given index.  Fails with an out-of-range
    /// error when the index is at or past the end of the document.
    pub fn get_char(&self, index: usize) -> (r: Result<char, BufferError>)
        ensures
            index < self.content().len() ==> r == Ok::<char, BufferError>(
                self.content()[index as int],
            ),
            index >= self.content().len() ==> r == Err::<char, BufferError>(
                BufferError::OutOfRange,
            ),
    {
        if index < self.text.len() {
            Ok(self.text[index])
        } else {
            Err(BufferError::OutOfRange)
        }
    }

    /// Get the character index of the first character at the given line
    /// index.  Fails with an out-of-range error when the line index is at
    /// or past the line count.
    pub fn line_to_char(&self, line_index: usize) -> (r: Result<usize, BufferError>)
        ensures
            (line_index as int) < line_count(self.content()) ==> (r matches Ok(i) && i
                == line_start(self.content(), line_index as int)),
            (line_index as int) >= line_count(self.content()) ==> r == Err::<usize, BufferError>(
                BufferError::OutOfRange,
            ),
    {
        let ghost s = self.text@;
        proof {
            assert(s.skip(0) =~= s);
        }
        let mut i: usize = 0;
        let mut row: usize = 0;
        while i < self.text.len() && row < line_index
            invariant
                s == self.text@,
                i <= s.len(),
                row <= line_index,
                row + newline_count(s.skip(i as int)) == newline_count(s),
                line_start(s, line_index as int) == i + line_start(
                    s.skip(i as int),
                    line_index - row,
                ),
            decreases s.len() - i,
        {
            proof {
                lemma_newline_count_step(s, i as int);
                lemma_line_start_step(s, i as int, line_index - row);
            }
            if self.text[i] == '\n' {
                row += 1;
            }
            i += 1;
        }
        if row == line_index {
            Ok(i)
        } else {
            proof {
                assert(s.skip(s.len() as int) =~= Seq::<char>::empty());
            }
            Err(BufferError::OutOfRange)
        }
    }

    /// Get the line at the specified line index, its trailing terminator
    /// included when it has one.  Fails with an out-of-range error when the
    /// line index is at or past the line count.
    pub fn get_line(&self, line_index: usize) -> (r: Result<Vec<char>, BufferError>)
        ensures
            (line_index as int) < line_count(self.content()) ==> (r matches Ok(l) && l@ == line_at(
                self.content(),
                line_index as int,
            )),
            (line_index as int) >= line_count(self.content()) ==> r == Err::<Vec<char>, BufferError>(
                BufferError::OutOfRange,
            ),
    {
        let ghost s = self.text@;
        let start = match self.line_to_char(line_index) {
            Ok(v) => v,
            Err(e) => {
                return Err(e);
            },
        };
        proof {
            lemma_line_start_decompose(s, line_index as int);
            lemma_line_start_bounds(s, line_index as int);
        }
        let mut end: usize = start;
        while end < self.text.len() && self.text[end] != '\n'
            invariant
                s == self.text@,
                start <= end <= s.len(),
                line_end(s, line_index as int) == end + line_start(s.skip(end as int), 1),
            decreases s.len() - end,
        {
            proof {
                lemma_line_start_step(s, end as int, 1);
            }
            end += 1;
        }
        let stop: usize;
        if end < self.text.len() {
            proof {
                lemma_line_start_step(s, end as int, 1);
            }
            stop = end + 1;
        } else {
            proof {
                assert(s.skip(s.len() as int) =~= Seq::<char>::empty());
            }
            stop = end;
        }
        let mut out: Vec<char> = Vec::new();
        let mut j: usize = start;
        while j < stop
            invariant
                s == self.text@,
                start <= j <= stop <= s.len(),
                out@ == s.subrange(start as int, j as int),
            decreases stop - j,
        {
            let c = self.text[j];
            out.push(c);
            proof {
                assert(s.subrange(start as int, j + 1) =~= s.subrange(
                    start as int,
                    j as int,
                ).push(s[j as int]));
            }
            j += 1;
        }
        Ok(out)
    }

    /// Insert some text before the given index, shifting subsequent
    /// content, and mark the buffer dirty.  Fails with an out-of-range
    /// error when the index is past the end of the document, leaving the
    /// buffer unchanged.
    pub fn insert(&mut self, index: usize, text: &str) -> (r: Result<(), BufferError>)
        requires
            old(self).content().len() + text@.len() < usize::MAX,
        ensures
            index <= old(self).content().len() ==> {
                &&& r == Ok::<(), BufferError>(())
                &&& final(self).content() == inserted(old(self).content(), index as int, text@)
                &&& final(self).spec_dirty()
                &&& final(self).spec_path() == old(self).spec_path()
            },
            index > old(self).content().len() ==> {
                &&& r == Err::<(), BufferError>(BufferError::OutOfRange)
                &&& *final(self) == *old(self)
            },
    {
        let ghost s = self.text@;
        if index > self.text.len() {
            return Err(BufferError::OutOfRange);
        }
        let n = text.unicode_len();
        let mut out: Vec<char> = Vec::new();
        let mut j: usize = 0;
        while j < index
            invariant
                s == self.text@,
                index <= s.len(),
                j <= index,
                out@ == s.take(j as int),
            decreases index - j,
        {
            let c = self.text[j];
            out.push(c);
            proof {
                assert(s.take(j + 1) =~= s.take(j as int).push(s[j as int]));
            }
            j += 1;
        }
        let mut k: usize = 0;
        while k < n
            invariant
                s == self.text@,
                index <= s.len(),
                k <= n,
                n == text@.len(),
                out@ == s.take(index as int) + text@.take(k as int),
            decreases n - k,
        {
            let c = text.get_char(k);
            out.push(c);
            proof {
                assert(text@.take(k + 1) =~= text@.take(k as int).push(text@[k as int]));
                assert(s.take(index as int) + text@.take(k + 1) =~= (s.take(index as int)
                    + text@.take(k as int)).push(text@[k as int]));
            }
            k += 1;
        }
        let mut j2: usize = index;
        while j2 < self.text.len()
            invariant
                s == self.text@,
                index <= j2 <= s.len(),
                n == text@.len(),
                out@ == s.take(index as int) + text@ + s.subrange(index as int, j2 as int),
            decreases s.len() - j2,
        {
            let c = self.text[j2];
            out.push(c);
            proof {
                assert(s.take(index as int) + text@ + s.subrange(index as int, j2 + 1) =~= (s.take(
                    index as int,
                ) + text@ + s.subrange(index as int, j2 as int)).push(s[j2 as int]));
            }
            j2 += 1;
        }
        self.text = out;
        self.dirty = true;
        proof {
            assert(text@.take(n as int) =~= text@);
            assert(s.subrange(index as int, s.len() as int) =~= s.skip(index as int));
            assert(self.text@ =~= inserted(s, index as int, text@));
        }
        Ok(())
    }

    /// Insert a character before the given index, shifting subsequent
    /// content, and mark the buffer dirty.  Fails with an out-of-range
    /// error when the index is past the end of the document, leaving the
    /// buffer unchanged.
    pub fn insert_char(&mut self, index: usize, chr: char) -> (r: Result<(), BufferError>)
        requires
            old(self).content().len() < usize::MAX,
        ensures
            index <= old(self).content().len() ==> {
                &&& r == Ok::<(), BufferError>(())
                &&& final(self).content() == inserted(old(self).content(), index as int, seq![chr])
                &&& final(self).spec_dirty()
                &&& final(self).spec_path() == old(self).spec_path()
            },
            index > old(self).content().len() ==> {
                &&& r == Err::<(), BufferError>(BufferError::OutOfRange)
                &&& *final(self) == *old(self)
            },
    {
        if index <= self.text.len() {
            self.text.insert(index, chr);
            self.dirty = true;
            proof {
                assert(self.text@ =~= inserted(old(self).content(), index as int, seq![chr]));
            }
            Ok(())
        } else {
            Err(BufferError::OutOfRange)
        }
    }

    /// Delete the half-open range `[start, end)` and mark the buffer dirty.
    /// Fails with a range error when the range is inverted or runs past the
    /// end of the document, leaving the buffer unchanged.
    pub fn remove(&mut self, start: usize, end: usize) -> (r: Result<(), BufferError>)
        ensures
            (start <= end && end <= old(self).content().len()) ==> {
                &&& r == Ok::<(), BufferError>(())
                &&& final(self).content() == removed(old(self).content(), start as int, end as int)
                &&& final(self).spec_dirty()
                &&& final(self).spec_path() == old(self).spec_path()
            },
            !(start <= end && end <= old(self).content().len()) ==> {
                &&& r == Err::<(), BufferError>(BufferError::InvalidRange)
                &&& *final(self) == *old(self)
            },
    {
        let ghost s = self.text@;
        if !(start <= end && end <= self.text.len()) {
            return Err(BufferError::InvalidRange);
        }
        let mut out: Vec<char> = Vec::new();
        let mut j: usize = 0;
        while j < start
            invariant
                s == self.text@,
                start <= end <= s.len(),
                j <= start,
                out@ == s.take(j as int),
            decreases start - j,
        {
            let c = self.text[j];
            out.push(c);
            proof {
                assert(s.take(j + 1) =~= s.take(j as int).push(s[j as int]));
            }
            j += 1;
        }
        let mut j2: usize = end;
        while j2 < self.text.len()
            invariant
                s == self.text@,
                start <= end <= j2 <= s.len(),
                out@ == s.take(start as int) + s.subrange(end as int, j2 as int),
            decreases s.len() - j2,
        {
            let c = self.text[j2];
            out.push(c);
            proof {
                assert(s.take(start as int) + s.subrange(end as int, j2 + 1) =~= (s.take(
                    start as int,
                ) + s.subrange(end as int, j2 as int)).push(s[j2 as int]));
            }
            j2 += 1;
        }
        self.text = out;
        self.dirty = true;
        proof {
            assert(s.subrange(end as int, s.len() as int) =~= s.skip(end as int));
            assert(self.text@ =~= removed(s, start as int, end as int));
        }
        Ok(())
    }

    /// A snapshot of the characters in the buffer, in document order.  The
    /// snapshot is independent of the buffer: a later mutation does not
    /// change it.
    pub fn chars(&self) -> (r: Vec<char>)
        ensures
            r@ == self.content(),
    {
        let ghost s = self.text@;
        let mut out: Vec<char> = Vec::new();
        let mut j: usize = 0;
        while j < self.text.len()
            invariant
                s == self.text@,
                j <= s.len(),
                out@ == s.take(j as int),
            decreases s.len() - j,
        {
            let c = self.text[j];
            out.push(c);
            proof {
                assert(s.take(j + 1) =~= s.take(j as int).push(s[j as int]));
            }
            j += 1;
        }
        proof {
            assert(s.take(s.len() as int) =~= s);
        }
        out
    }

    /// A snapshot of the lines in the buffer, in document order, each with
    /// its trailing terminator when it has one.  The snapshot is
    /// independent of the buffer: a later mutation does not change it.
    pub fn lines(&self) -> (r: Vec<Vec<char>>)
        requires
            self.content().len() < usize::MAX,
        ensures
            r@.len() == line_count(self.content()),
            forall|i: int|
                0 <= i < r@.len() ==> r@[i]@ == line_at(self.content(), i),
    {
        let total = self.num_lines();
        let mut out: Vec<Vec<char>> = Vec::new();
        let mut row: usize = 0;
        while row < total
            invariant
                total == line_count(self.content()),
                row <= total,
                out@.len() == row,
                forall|i: int| 0 <= i < row ==> out@[i]@ == line_at(self.content(), i),
            decreases total - row,
        {
            match self.get_line(row) {
                Ok(l) => {
                    out.push(l);
                },
                Err(_) => {
                    proof {
                        assert(false);
                    }
                },
            }
            row += 1;
        }
        out
    }
}

impl Default for Buffer {
    /// The default buffer is empty, unassociated and clean.
    fn default() -> (r: Self)
        ensures
            r.content() == Seq::<char>::empty(),
            r.spec_path() is None,
            !r.spec_dirty(),
    {
        Self { text: Vec::new(), path: None, dirty: false }
    }
}

} // verus!
