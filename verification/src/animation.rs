//! Sprite-sheet animation: a repeating timer steps the current frame
//! through an index range, wrapping from the last frame back to the
//! first. Cosmetic; nothing in the simulation reads the frame.

use vstd::prelude::*;

use crate::RepeatTimer;

verus! {

/// Period of the frame timer, in milliseconds.
pub const ANIMATION_PERIOD_MS: i64 = 300;

/// The frame range of an animated sprite, both ends included.
#[derive(Clone, Copy, Debug, PartialEq, Eq, Structural)]
pub struct AnimationIndices {
    pub first: usize,
    pub last: usize,
}

impl AnimationIndices {
    pub open spec fn wf(self) -> bool {
        self.first <= self.last < usize::MAX
    }
}

/// The frame after one step: forward by one, wrapping from `last` to
/// `first`.
pub open spec fn next_frame(index: int, indices: AnimationIndices) -> int {
    if index == indices.last {
        indices.first as int
    } else {
        index + 1
    }
}

/// The animation subsystem: the frame timer, the frame range, and the
/// current frame.
#[derive(Clone, Copy, Debug, PartialEq, Eq, Structural)]
pub struct AnimationPlugin {
    pub timer: RepeatTimer,
    pub indices: AnimationIndices,
    pub index: usize,
}

impl AnimationPlugin {
    pub open spec fn wf(self) -> bool {
        &&& self.timer.wf()
        &&& self.indices.wf()
        &&& self.indices.first <= self.index <= self.indices.last
    }

    pub fn new(indices: AnimationIndices) -> (plugin: AnimationPlugin)
        requires
            indices.wf(),
        ensures
            plugin.timer.period_ms == ANIMATION_PERIOD_MS,
            plugin.timer.acc_ms == 0,
            plugin.indices == indices,
            plugin.index == indices.first,
            plugin.wf(),
    {
        AnimationPlugin { timer: RepeatTimer::new(ANIMATION_PERIOD_MS), indices, index: indices.first }
    }

    /// Advance the frame timer by `dt`; when it fires, step the frame
    /// once; report whether the frame stepped.
    pub fn update_animations(&mut self, dt: i64) -> (advanced: bool)
        requires
            old(self).wf(),
            0 <= dt <= crate::DT_LIMIT,
        ensures
            advanced == old(self).timer.fires(dt as int),
            final(self).timer.acc_ms == old(self).timer.acc_after(dt as int),
            final(self).timer.period_ms == old(self).timer.period_ms,
            final(self).indices == old(self).indices,
            advanced ==> final(self).index == next_frame(old(self).index as int, old(self).indices),
            !advanced ==> final(self).index == old(self).index,
            final(self).indices.first <= final(self).index <= final(self).indices.last,
    {
        let fired = self.timer.tick(dt);
        if fired {
            self.index = if self.index == self.indices.last {
                self.indices.first
            } else {
                self.index + 1
            };
        }
        fired
    }
}

} // verus!
