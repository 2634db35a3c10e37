//! Cursor and text-buffer operations.  The buffer is addressed purely by
//! character position; every operation clamps at the boundaries and is a
//! no-op, never an error, where the boundary forbids it.

use vstd::prelude::*;

verus! {

use crate::app::{App, AppView};
use crate::motion::{
    lemma_skip_word, lemma_skip_ws, lemma_back_skip_ws, lemma_back_skip_word, next_word_pos,
    prev_word_pos, skip_word, back_skip_ws,
};
use crate::text::char_is_whitespace;

/// Cursor one step left, clamped at the start.
pub open spec fn spec_move_left(v: AppView) -> AppView {
    AppView { cursor: if v.cursor > 0 { v.cursor - 1 } else { 0 }, ..v }
}

/// Cursor one step right, clamped at the end.
pub open spec fn spec_move_right(v: AppView) -> AppView {
    AppView { cursor: if v.cursor < v.input.len() { v.cursor + 1 } else { v.cursor }, ..v }
}

/// Cursor to the start of the buffer.
pub open spec fn spec_move_start(v: AppView) -> AppView {
    AppView { cursor: 0, ..v }
}

/// Cursor to one past the last character.
pub open spec fn spec_move_end(v: AppView) -> AppView {
    AppView { cursor: v.input.len() as int, ..v }
}

/// Removes the character under the cursor; no-op at the end.
pub open spec fn spec_delete_forward(v: AppView) -> AppView {
    if v.cursor < v.input.len() {
        AppView { input: v.input.remove(v.cursor), ..v }
    } else {
        v
    }
}

/// Removes the character before the cursor and steps left; no-op at the
/// start.
pub open spec fn spec_backspace(v: AppView) -> AppView {
    if v.cursor > 0 {
        AppView { input: v.input.remove(v.cursor - 1), cursor: v.cursor - 1, ..v }
    } else {
        v
    }
}

/// Inserts `c` at the cursor and steps right.
pub open spec fn spec_insert_char(v: AppView, c: char) -> AppView {
    AppView { input: v.input.insert(v.cursor, c), cursor: v.cursor + 1, ..v }
}

/// Empties the buffer and resets the cursor.
pub open spec fn spec_clear_input(v: AppView) -> AppView {
    AppView { input: Seq::<char>::empty(), cursor: 0, ..v }
}

/// Forward word motion.
pub open spec fn spec_next_word(v: AppView) -> AppView {
    AppView { cursor: next_word_pos(v.input, v.cursor), ..v }
}

/// Backward word motion.
pub open spec fn spec_prev_word(v: AppView) -> AppView {
    AppView { cursor: prev_word_pos(v.input, v.cursor), ..v }
}

impl App {
    /// Moves the cursor one character left, clamped at the start.
    pub fn move_cursor_left(&mut self)
        requires
            old(self)@.wf(),
        ensures
            final(self)@ == spec_move_left(old(self)@),
            final(self)@.wf(),
    {
        if self.cursor_position > 0 {
            self.cursor_position = self.cursor_position - 1;
        }
        proof {
            assert(self@ =~= spec_move_left(old(self)@));
        }
    }

    /// Moves the cursor one character right, clamped at the end.
    pub fn move_cursor_right(&mut self)
        requires
            old(self)@.wf(),
        ensures
            final(self)@ == spec_move_right(old(self)@),
            final(self)@.wf(),
    {
        if self.cursor_position < self.input.len() {
            self.cursor_position = self.cursor_position + 1;
        }
        proof {
            assert(self@ =~= spec_move_right(old(self)@));
        }
    }

    /// Moves the cursor to the start of the buffer.
    pub fn move_cursor_start(&mut self)
        requires
            old(self)@.wf(),
        ensures
            final(self)@ == spec_move_start(old(self)@),
            final(self)@.wf(),
    {
        self.cursor_position = 0;
        proof {
            assert(self@ =~= spec_move_start(old(self)@));
        }
    }

    /// Moves the cursor one past the last character.
    pub fn move_cursor_end(&mut self)
        requires
            old(self)@.wf(),
        ensures
            final(self)@ == spec_move_end(old(self)@),
            final(self)@.wf(),
    {
        self.cursor_position = self.input.len();
        proof {
            assert(self@ =~= spec_move_end(old(self)@));
        }
    }

    /// Deletes the character under the cursor; no-op at the end.
    pub fn delete_char(&mut self)
        requires
            old(self)@.wf(),
        ensures
            final(self)@ == spec_delete_forward(old(self)@),
            final(self)@.wf(),
    {
        if self.cursor_position < self.input.len() {
            self.input.remove(self.cursor_position);
        }
        proof {
            assert(self@ =~= spec_delete_forward(old(self)@));
        }
    }

    /// Deletes the character before the cursor and steps left; no-op at the
    /// start.
    pub fn backspace(&mut self)
        requires
            old(self)@.wf(),
        ensures
            final(self)@ == spec_backspace(old(self)@),
            final(self)@.wf(),
    {
        if self.cursor_position > 0 {
            self.cursor_position = self.cursor_position - 1;
            self.input.remove(self.cursor_position);
        }
        proof {
            assert(self@ =~= spec_backspace(old(self)@));
        }
    }

    /// Inserts `c` at the cursor and steps right.
    pub fn insert_char(&mut self, c: char)
        requires
            old(self)@.wf(),
        ensures
            final(self)@ == spec_insert_char(old(self)@, c),
            final(self)@.wf(),
    {
        self.input.insert(self.cursor_position, c);
        let n = self.input.len();
        proof {
            assert(self.cursor_position < n);
        }
        self.cursor_position = self.cursor_position + 1;
        proof {
            assert(self@ =~= spec_insert_char(old(self)@, c));
        }
    }

    /// Empties the buffer and resets the cursor.
    pub fn clear_input(&mut self)
        requires
            old(self)@.wf(),
        ensures
            final(self)@ == spec_clear_input(old(self)@),
            final(self)@.wf(),
    {
        self.input.clear();
        self.cursor_position = 0;
        proof {
            assert(self@ =~= spec_clear_input(old(self)@));
        }
    }

    /// Advances the cursor past the current non-whitespace run, then past the
    /// following whitespace run, stopping at the end of the buffer.
    pub fn move_to_next_word(&mut self)
        requires
            old(self)@.wf(),
        ensures
            final(self)@ == spec_next_word(old(self)@),
            final(self)@.wf(),
    {
        let ghost s = self.input@;
        let ghost start = self.cursor_position as int;
        let mut pos = self.cursor_position;
        while pos < self.input.len() && !char_is_whitespace(self.input[pos])
            invariant
                start <= pos <= self.input.len(),
                self.input@ == s,
                skip_word(s, pos as int) == skip_word(s, start),
                *self == *old(self),
            decreases self.input.len() - pos,
        {
            pos = pos + 1;
        }
        proof {
            lemma_skip_word(s, start);
            assert(pos == skip_word(s, start));
        }
        let ghost mid = pos as int;
        while pos < self.input.len() && char_is_whitespace(self.input[pos])
            invariant
                mid <= pos <= self.input.len(),
                self.input@ == s,
                crate::motion::skip_ws(s, pos as int) == crate::motion::skip_ws(s, mid),
                *self == *old(self),
            decreases self.input.len() - pos,
        {
            pos = pos + 1;
        }
        proof {
            lemma_skip_ws(s, mid);
            assert(pos == next_word_pos(s, start));
        }
        self.cursor_position = pos;
        proof {
            assert(self@ =~= spec_next_word(old(self)@));
        }
    }

    /// Steps back one position, skips backward over whitespace, then over the
    /// preceding non-whitespace run, stopping at the start of the buffer.
    pub fn move_to_prev_word(&mut self)
        requires
            old(self)@.wf(),
        ensures
            final(self)@ == spec_prev_word(old(self)@),
            final(self)@.wf(),
    {
        if self.cursor_position == 0 {
            proof {
                assert(self@ =~= spec_prev_word(old(self)@));
            }
            return;
        }
        let ghost s = self.input@;
        let ghost start = self.cursor_position as int;
        let mut pos = self.cursor_position - 1;
        while pos > 0 && char_is_whitespace(self.input[pos])
            invariant
                0 <= pos <= start - 1 < s.len(),
                self.input@ == s,
                back_skip_ws(s, pos as int) == back_skip_ws(s, start - 1),
                *self == *old(self),
            decreases pos,
        {
            pos = pos - 1;
        }
        proof {
            lemma_back_skip_ws(s, start - 1);
            assert(pos == back_skip_ws(s, start - 1));
        }
        let ghost mid = pos as int;
        while pos > 0 && !char_is_whitespace(self.input[pos - 1])
            invariant
                0 <= pos <= mid < s.len(),
                self.input@ == s,
                crate::motion::back_skip_word(s, pos as int) == crate::motion::back_skip_word(
                    s,
                    mid,
                ),
                *self == *old(self),
            decreases pos,
        {
            pos = pos - 1;
        }
        proof {
            lemma_back_skip_word(s, mid);
            assert(pos == prev_word_pos(s, start));
        }
        self.cursor_position = pos;
        proof {
            assert(self@ =~= spec_prev_word(old(self)@));
        }
    }
}

/// Inserting a character and immediately deleting it backward restores the
/// buffer and the cursor exactly.
pub proof fn lemma_insert_then_backspace(v: AppView, c: char)
    requires
        v.wf(),
    ensures
        spec_backspace(spec_insert_char(v, c)) == v,
{
    let v1 = spec_insert_char(v, c);
    assert(v1.input.remove(v1.cursor - 1) =~= v.input);
    assert(spec_backspace(v1) =~= v);
}

/// A forward word motion from a cursor that sits on a word character,
/// followed by a backward word motion, never lands past the original cursor;
/// and each motion alone is a no-op at its boundary.
pub proof fn lemma_word_motion_round_trip(v: AppView)
    requires
        v.wf(),
    ensures
        v.cursor < v.input.len() && !crate::text::is_ws(v.input[v.cursor]) ==> spec_prev_word(
            spec_next_word(v),
        ).cursor <= v.cursor,
        v.cursor == v.input.len() ==> spec_next_word(v) == v,
        v.cursor == 0 ==> spec_prev_word(v) == v,
{
    if v.cursor < v.input.len() && !crate::text::is_ws(v.input[v.cursor]) {
        crate::motion::lemma_next_then_prev_word(v.input, v.cursor);
    }
    if v.cursor == v.input.len() {
        crate::motion::lemma_next_word_at_end(v.input);
        assert(spec_next_word(v) =~= v);
    }
    if v.cursor == 0 {
        crate::motion::lemma_prev_word_at_start(v.input);
        assert(spec_prev_word(v) =~= v);
    }
}

} // verus!
