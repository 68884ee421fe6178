//! The edit buffer: the in-progress command line, the logical cursor inside
//! it, and the inline suggestion drawn after the text.

use vstd::prelude::*;

verus! {

/// The in-progress command line.
///
/// `suggestion` is the greyed-out completion text shown past the end of the
/// buffer; it is not part of the buffer until it is accepted.
pub struct EditState {
    pub buffer: Vec<char>,
    pub cursor: usize,
    pub suggestion: Vec<char>,
}

impl EditState {
    /// The cursor never leaves the buffer.
    pub open spec fn wf(self) -> bool {
        self.cursor <= self.buffer@.len()
    }

    /// An empty line, cursor at its start, no suggestion.
    pub fn new() -> (r: EditState)
        ensures
            r.wf(),
            r.buffer@.len() == 0,
            r.cursor == 0,
            r.suggestion@.len() == 0,
    {
        EditState { buffer: Vec::new(), cursor: 0, suggestion: Vec::new() }
    }

    /// Inserts `c` at the cursor and advances the cursor past it: the buffer
    /// grows by one, holds `c` at the old cursor position, and keeps every
    /// other character.
    pub fn insert(&mut self, c: char)
        requires
            old(self).wf(),
        ensures
            final(self).wf(),
            final(self).buffer@ == old(self).buffer@.insert(old(self).cursor as int, c),
            final(self).buffer@.len() == old(self).buffer@.len() + 1,
            final(self).buffer@[old(self).cursor as int] == c,
            final(self).cursor == old(self).cursor + 1,
            final(self).suggestion@ == old(self).suggestion@,
    {
        self.buffer.insert(self.cursor, c);
        let n = self.buffer.len();
        assert(self.cursor < n);
        self.cursor = self.cursor + 1;
    }

    /// Removes the character before the cursor and steps the cursor back.
    /// With the cursor at the start of the line it does nothing at all.
    pub fn delete_before_cursor(&mut self)
        requires
            old(self).wf(),
        ensures
            final(self).wf(),
            old(self).cursor == 0 ==> *final(self) == *old(self),
            old(self).cursor > 0 ==> final(self).buffer@ == old(self).buffer@.remove(
                old(self).cursor - 1,
            ),
            old(self).cursor > 0 ==> final(self).cursor == old(self).cursor - 1,
            final(self).suggestion@ == old(self).suggestion@,
    {
        if self.cursor != 0 {
            self.buffer.remove(self.cursor - 1);
            self.cursor = self.cursor - 1;
        }
    }

    /// Moves the cursor one place left, clamped at the start of the line.
    pub fn move_left(&mut self)
        requires
            old(self).wf(),
        ensures
            final(self).wf(),
            final(self).buffer@ == old(self).buffer@,
            final(self).suggestion@ == old(self).suggestion@,
            final(self).cursor == if old(self).cursor > 0 {
                (old(self).cursor - 1) as usize
            } else {
                0usize
            },
    {
        if self.cursor != 0 {
            self.cursor = self.cursor - 1;
        }
    }

    /// Moves the cursor one place right. At the end of the buffer the key
    /// doubles as "accept the suggestion": the suggestion is appended to the
    /// buffer, the cursor lands at the new end, and the suggestion is
    /// cleared. With no suggestion pending that amounts to a no-op.
    pub fn move_right(&mut self)
        requires
            old(self).wf(),
        ensures
            final(self).wf(),
            old(self).cursor < old(self).buffer@.len() ==> final(self).buffer@ == old(self).buffer@,
            old(self).cursor < old(self).buffer@.len() ==> final(self).cursor == old(self).cursor + 1,
            old(self).cursor < old(self).buffer@.len() ==> final(self).suggestion@ == old(self).suggestion@,
            old(self).cursor == old(self).buffer@.len() ==> final(self).buffer@ == old(self).buffer@ + old(self).suggestion@,
            old(self).cursor == old(self).buffer@.len() ==> final(self).cursor == final(self).buffer@.len(),
            old(self).cursor == old(self).buffer@.len() ==> final(self).suggestion@.len() == 0,
    {
        if self.cursor < self.buffer.len() {
            self.cursor = self.cursor + 1;
        } else {
            let ghost pre = self.buffer@;
            let mut i: usize = 0;
            while i < self.suggestion.len()
                invariant
                    i <= self.suggestion@.len(),
                    self.suggestion@ == old(self).suggestion@,
                    self.buffer@ == pre + self.suggestion@.subrange(0, i as int),
                decreases self.suggestion@.len() - i,
            {
                self.buffer.push(self.suggestion[i]);
                assert(self.buffer@ =~= pre + self.suggestion@.subrange(0, i + 1 as int));
                i += 1;
            }
            assert(self.buffer@ =~= pre + self.suggestion@);
            self.suggestion = Vec::new();
            self.cursor = self.buffer.len();
        }
    }

    /// Replaces the whole line with `text`, placing the cursor at its end and
    /// dropping any pending suggestion. History recall and completion
    /// acceptance load text through this.
    pub fn replace(&mut self, text: Vec<char>)
        ensures
            final(self).wf(),
            final(self).buffer@ == text@,
            final(self).cursor == text@.len(),
            final(self).suggestion@.len() == 0,
    {
        let n = text.len();
        self.buffer = text;
        self.cursor = n;
        self.suggestion = Vec::new();
    }
}

} // verus!
