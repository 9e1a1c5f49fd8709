//! The row of dots that the loading screen shows while assets come in.

use vstd::prelude::*;

verus! {

/// The counter behind the row of dots.
#[derive(Clone, Copy, Debug, PartialEq, Eq)]
pub struct ProgressState {
    pub tick: usize,
}

/// Number of dots at a tick: one, two, three, and one again.
pub open spec fn dot_count(tick: usize) -> nat {
    (tick % 3 + 1) as nat
}

/// The row of dots at a tick.
pub open spec fn dots_of(tick: usize) -> Seq<char> {
    Seq::new(dot_count(tick), |i: int| '.')
}

/// The tick that follows `tick`; it wraps around at the end of its range.
pub open spec fn next_tick(tick: usize) -> usize {
    if tick == usize::MAX {
        0
    } else {
        (tick + 1) as usize
    }
}

/// The row of dots at a tick.
pub fn dots(tick: usize) -> (row: &'static str)
    ensures
        row@ == dots_of(tick),
{
    proof {
        reveal_strlit(".");
        reveal_strlit("..");
        reveal_strlit("...");
    }
    let count = tick % 3;
    if count == 0 {
        assert("."@ =~= dots_of(tick));
        "."
    } else if count == 1 {
        assert(".."@ =~= dots_of(tick));
        ".."
    } else {
        assert("..."@ =~= dots_of(tick));
        "..."
    }
}

impl Default for ProgressState {
    /// The state before the first tick.
    fn default() -> (state: ProgressState)
        ensures
            state.tick == 0,
    {
        ProgressState { tick: 0 }
    }
}

impl ProgressState {
    /// One period of the progress timer: returns the row of dots to show now
    /// and steps the counter.
    pub fn advance(&mut self) -> (row: &'static str)
        ensures
            row@ == dots_of(old(self).tick),
            final(self).tick == next_tick(old(self).tick),
    {
        let row = dots(self.tick);
        self.tick = self.tick.wrapping_add(1);
        row
    }
}

} // verus!
