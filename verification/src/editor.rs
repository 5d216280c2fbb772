//! Cursor-addressed single-buffer text editing, used by the Add-Journal
//! draft. Every operation is total: out-of-range requests are clamped,
//! never errors, and the cursor always stays inside the buffer.

use vstd::prelude::*;
use crate::strutil::chars_to_string;

verus! {

/// A draft text buffer: an ordered sequence of characters plus a cursor
/// offset. Invariant: `0 <= cursor <= chars.len()` after every operation.
pub struct EditBuffer {
    pub chars: Vec<char>,
    pub cursor: usize,
}

impl EditBuffer {
    /// The cursor never leaves the buffer bounds.
    pub open spec fn wf(self) -> bool {
        self.cursor <= self.chars@.len()
    }

    /// `post` is `pre` with `c` inserted at the cursor and the cursor
    /// advanced past it.
    pub open spec fn inserted(pre: EditBuffer, post: EditBuffer, c: char) -> bool {
        &&& post.chars@ == pre.chars@.insert(pre.cursor as int, c)
        &&& post.cursor == pre.cursor + 1
    }

    /// `post` is `pre` with the character before the cursor removed and
    /// the cursor moved back by one; when the cursor is at the start,
    /// `post` is `pre` unchanged.
    pub open spec fn deleted_before(pre: EditBuffer, post: EditBuffer) -> bool {
        if pre.cursor == 0 {
            post == pre
        } else {
            &&& post.chars@ == pre.chars@.remove(pre.cursor - 1)
            &&& post.cursor == pre.cursor - 1
        }
    }

    /// `post` is `pre` with the cursor one place left, clamped at the
    /// start.
    pub open spec fn moved_left(pre: EditBuffer, post: EditBuffer) -> bool {
        &&& post.chars == pre.chars
        &&& post.cursor == if pre.cursor > 0 {
            pre.cursor - 1
        } else {
            0int
        }
    }

    /// `post` is `pre` with the cursor one place right, clamped at the
    /// end.
    pub open spec fn moved_right(pre: EditBuffer, post: EditBuffer) -> bool {
        &&& post.chars == pre.chars
        &&& post.cursor == if pre.cursor < pre.chars@.len() {
            pre.cursor + 1
        } else {
            pre.cursor as int
        }
    }

    /// `post` holds no text and its cursor is at the start.
    pub open spec fn is_cleared(post: EditBuffer) -> bool {
        &&& post.chars@ == Seq::<char>::empty()
        &&& post.cursor == 0
    }

    pub fn new() -> (r: EditBuffer)
        ensures
            r.wf(),
            EditBuffer::is_cleared(r),
    {
        EditBuffer { chars: Vec::new(), cursor: 0 }
    }

    /// Inserts `c` at the cursor; the cursor advances past it.
    pub fn insert(&mut self, c: char)
        requires
            old(self).wf(),
            old(self).chars@.len() < usize::MAX,
        ensures
            final(self).wf(),
            EditBuffer::inserted(*old(self), *final(self), c),
    {
        self.chars.insert(self.cursor, c);
        self.cursor = self.cursor + 1;
    }

    /// Removes the character immediately before the cursor and moves the
    /// cursor back by one; a no-op when the cursor is at the start.
    pub fn delete_before_cursor(&mut self)
        requires
            old(self).wf(),
        ensures
            final(self).wf(),
            EditBuffer::deleted_before(*old(self), *final(self)),
    {
        if self.cursor > 0 {
            self.cursor = self.cursor - 1;
            self.chars.remove(self.cursor);
        }
    }

    /// Moves the cursor one place left, stopping at the start.
    pub fn move_left(&mut self)
        requires
            old(self).wf(),
        ensures
            final(self).wf(),
            EditBuffer::moved_left(*old(self), *final(self)),
    {
        if self.cursor > 0 {
            self.cursor = self.cursor - 1;
        }
    }

    /// Moves the cursor one place right, stopping at the end.
    pub fn move_right(&mut self)
        requires
            old(self).wf(),
        ensures
            final(self).wf(),
            EditBuffer::moved_right(*old(self), *final(self)),
    {
        if self.cursor < self.chars.len() {
            self.cursor = self.cursor + 1;
        }
    }

    /// Jumps the cursor to the start of the buffer.
    pub fn move_home(&mut self)
        ensures
            final(self).wf(),
            final(self).chars == old(self).chars,
            final(self).cursor == 0,
    {
        self.cursor = 0;
    }

    /// Jumps the cursor to the end of the buffer.
    pub fn move_end(&mut self)
        ensures
            final(self).wf(),
            final(self).chars == old(self).chars,
            final(self).cursor == old(self).chars@.len(),
    {
        self.cursor = self.chars.len();
    }

    /// Empties the buffer and resets the cursor.
    pub fn clear(&mut self)
        ensures
            final(self).wf(),
            EditBuffer::is_cleared(*final(self)),
    {
        self.chars.clear();
        self.cursor = 0;
    }

    pub fn len(&self) -> (r: usize)
        ensures
            r == self.chars@.len(),
    {
        self.chars.len()
    }

    pub fn is_empty(&self) -> (r: bool)
        ensures
            r == (self.chars@.len() == 0),
    {
        self.chars.len() == 0
    }

    /// The buffer's text as a `String`.
    pub fn text(&self) -> (r: String)
        ensures
            r@ == self.chars@,
    {
        chars_to_string(&self.chars)
    }
}

} // verus!
