//! The transient single-line text entry buffer used by the rename,
//! create and filter modes: an editable character line with a cursor,
//! created on entering the mode and destroyed on any transition out of
//! it, whether the transition commits or cancels.

use vstd::prelude::*;

use crate::rows::push_char;

verus! {

/// A single-line editable text value with a cursor.
pub struct TextBuffer {
    pub chars: Vec<char>,
    pub cursor: usize,
}

/// Mathematical image of a [`TextBuffer`].
#[verifier::ext_equal]
pub ghost struct TextBufferView {
    pub text: Seq<char>,
    pub cursor: int,
}

impl View for TextBuffer {
    type V = TextBufferView;

    open spec fn view(&self) -> TextBufferView {
        TextBufferView { text: self.chars@, cursor: self.cursor as int }
    }
}

impl TextBufferView {
    /// The buffer invariant: the cursor sits between two characters or at
    /// either end.
    pub open spec fn wf(self) -> bool {
        0 <= self.cursor <= self.text.len()
    }
}

/// Insertion at the cursor (a no-op only at the machine's capacity limit).
pub open spec fn spec_insert(b: TextBufferView, c: char) -> TextBufferView {
    if b.text.len() < usize::MAX {
        TextBufferView { text: b.text.insert(b.cursor, c), cursor: b.cursor + 1 }
    } else {
        b
    }
}

/// Deletion of the character before the cursor, a no-op at the start.
pub open spec fn spec_backspace(b: TextBufferView) -> TextBufferView {
    if b.cursor > 0 {
        TextBufferView { text: b.text.remove(b.cursor - 1), cursor: b.cursor - 1 }
    } else {
        b
    }
}

/// Cursor one step left, clamped.
pub open spec fn spec_left(b: TextBufferView) -> TextBufferView {
    if b.cursor > 0 {
        TextBufferView { cursor: b.cursor - 1, ..b }
    } else {
        b
    }
}

/// Cursor one step right, clamped.
pub open spec fn spec_right(b: TextBufferView) -> TextBufferView {
    if b.cursor < b.text.len() {
        TextBufferView { cursor: b.cursor + 1, ..b }
    } else {
        b
    }
}

impl TextBuffer {
    /// An empty buffer with the cursor at the start.
    pub fn new() -> (r: TextBuffer)
        ensures
            r@.text.len() == 0,
            r@.cursor == 0,
            r@.wf(),
    {
        TextBuffer { chars: Vec::new(), cursor: 0 }
    }

    /// Insert a character at the cursor; the cursor moves past it.
    pub fn insert_char(&mut self, c: char)
        requires
            old(self)@.wf(),
        ensures
            final(self)@ == spec_insert(old(self)@, c),
            final(self)@.wf(),
    {
        if self.chars.len() < usize::MAX {
            self.chars.insert(self.cursor, c);
            self.cursor = self.cursor + 1;
        }
    }

    /// Remove the character before the cursor, if any.
    pub fn backspace(&mut self)
        requires
            old(self)@.wf(),
        ensures
            final(self)@ == spec_backspace(old(self)@),
            final(self)@.wf(),
    {
        if self.cursor > 0 {
            self.chars.remove(self.cursor - 1);
            self.cursor = self.cursor - 1;
        }
    }

    /// Move the cursor one step left, clamped at the start.
    pub fn move_left(&mut self)
        requires
            old(self)@.wf(),
        ensures
            final(self)@ == spec_left(old(self)@),
            final(self)@.wf(),
    {
        if self.cursor > 0 {
            self.cursor = self.cursor - 1;
        }
    }

    /// Move the cursor one step right, clamped at the end.
    pub fn move_right(&mut self)
        requires
            old(self)@.wf(),
        ensures
            final(self)@ == spec_right(old(self)@),
            final(self)@.wf(),
    {
        if self.cursor < self.chars.len() {
            self.cursor = self.cursor + 1;
        }
    }

    /// Whether the line is empty.
    pub fn is_empty(&self) -> (b: bool)
        ensures
            b == (self@.text.len() == 0),
    {
        self.chars.len() == 0
    }

    /// The buffer's current text.
    pub fn text(&self) -> (r: String)
        ensures
            r@ == self@.text,
    {
        let mut r = String::new();
        let mut i: usize = 0;
        while i < self.chars.len()
            invariant
                0 <= i <= self.chars@.len(),
                r@ =~= self.chars@.subrange(0, i as int),
            decreases self.chars@.len() - i,
        {
            push_char(&mut r, self.chars[i]);
            proof {
                assert(r@ =~= self.chars@.subrange(0, i + 1));
            }
            i = i + 1;
        }
        proof {
            assert(r@ =~= self@.text);
        }
        r
    }
}

} // verus!
