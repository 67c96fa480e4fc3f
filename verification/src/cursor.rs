//! The playback cursor: the position of the frame on display within its
//! animation set.

use vstd::prelude::*;
use vstd::arithmetic::div_mod::{lemma_fundamental_div_mod_converse, lemma_small_mod};

verus! {

/// The position that follows `index` in a set of `len` frames: the next one,
/// and the first one after the last.
pub open spec fn next_index(index: int, len: int) -> int {
    if index + 1 >= len {
        0
    } else {
        index + 1
    }
}

/// The position reached from `start` after `steps` frames in a set of `len`
/// frames.
pub open spec fn index_after(start: int, len: int, steps: nat) -> int
    decreases steps,
{
    if steps == 0 {
        start
    } else {
        next_index(index_after(start, len, (steps - 1) as nat), len)
    }
}

/// The cursor goes round and round: from `start`, after `steps` frames, it
/// stands at `(start + steps) % len`. So after as many frames as the set has
/// it is back where it was, and after the last frame comes the first, however
/// long it has been running.
pub proof fn lemma_cursor_cycles(start: int, len: int, steps: nat)
    requires
        0 <= start < len,
    ensures
        index_after(start, len, steps) == (start + steps) % len,
        0 <= index_after(start, len, steps) < len,
        index_after(start, len, len as nat) == start,
        index_after(0, len, len as nat) == 0,
{
    lemma_index_after(start, len, steps);
    lemma_index_after(start, len, len as nat);
    lemma_index_after(0, len, len as nat);
    lemma_fundamental_div_mod_converse(start + len, len, 1, start);
    lemma_fundamental_div_mod_converse(len, len, 1, 0);
}

proof fn lemma_index_after(start: int, len: int, steps: nat)
    requires
        0 <= start < len,
    ensures
        index_after(start, len, steps) == (start + steps) % len,
        0 <= index_after(start, len, steps) < len,
    decreases steps,
{
    if steps == 0 {
        lemma_small_mod(start as nat, len as nat);
    } else {
        lemma_index_after(start, len, (steps - 1) as nat);
        let before = index_after(start, len, (steps - 1) as nat);
        let q = (start + steps - 1) / len;
        assert(start + steps - 1 == len * q + before) by {
            vstd::arithmetic::div_mod::lemma_fundamental_div_mod(start + steps - 1, len);
        }
        if before + 1 >= len {
            assert(start + steps == len * (q + 1) + 0) by (nonlinear_arith)
                requires
                    start + steps - 1 == len * q + before,
                    before + 1 == len,
            ;
            lemma_fundamental_div_mod_converse(start + steps, len, q + 1, 0);
        } else {
            lemma_fundamental_div_mod_converse(start + steps, len, q, before + 1);
        }
    }
}

/// The position of the frame on display within the active animation set.
#[derive(Clone, Copy, Debug, PartialEq, Eq, Structural)]
pub struct PlaybackCursor {
    index: usize,
}

impl View for PlaybackCursor {
    type V = int;

    closed spec fn view(&self) -> int {
        self.index as int
    }
}

impl PlaybackCursor {
    /// The cursor at the first frame.
    pub fn start() -> (cursor: PlaybackCursor)
        ensures
            cursor@ == 0,
    {
        PlaybackCursor { index: 0 }
    }

    /// The position of the frame on display.
    pub fn index(&self) -> (index: usize)
        ensures
            index == self@,
    {
        self.index
    }

    /// Goes back to the first frame.
    pub fn reset(&mut self)
        ensures
            final(self)@ == 0,
    {
        self.index = 0;
    }

    /// Goes on to the next frame of a set of `len` frames, and from the last
    /// frame to the first.
    pub fn advance(&mut self, len: usize)
        requires
            old(self)@ < len,
        ensures
            final(self)@ == next_index(old(self)@, len as int),
            final(self)@ == (old(self)@ + 1) % (len as int),
            final(self)@ < len,
    {
        proof {
            lemma_index_after(self@, len as int, 1);
            reveal_with_fuel(index_after, 2);
        }
        if self.index + 1 >= len {
            self.index = 0;
        } else {
            self.index = self.index + 1;
        }
    }
}

} // verus!
