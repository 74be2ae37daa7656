//! The score: a monotone counter driven by score events, reset only on
//! (re)entry into play.

use vstd::prelude::*;

use crate::bird::AddScoreEvent;

verus! {

/// Largest score the counter accepts before another batch of events.
pub const SCORE_LIMIT: u64 = 4_000_000_000_000_000_000;

/// The score subsystem: the single counter.
#[derive(Clone, Copy, Debug, PartialEq, Eq, Structural)]
pub struct ScorePlugin {
    pub score: u64,
}

impl ScorePlugin {
    pub open spec fn wf(self) -> bool {
        self.score <= SCORE_LIMIT
    }

    pub fn new() -> (plugin: ScorePlugin)
        ensures
            plugin.score == 0,
            plugin.wf(),
    {
        ScorePlugin { score: 0 }
    }

    /// Entry action for play: clear the counter.
    pub fn reset(&mut self)
        ensures
            final(self).score == 0,
    {
        self.score = 0;
    }

    /// Consume this tick's score events: one increment per event.
    pub fn update(&mut self, events: &Vec<AddScoreEvent>)
        requires
            old(self).score + events@.len() <= u64::MAX,
        ensures
            final(self).score == old(self).score + events@.len(),
    {
        let n = events.len();
        let mut i: usize = 0;
        while i < n
            invariant
                i <= n,
                n == events@.len(),
                old(self).score + n <= u64::MAX,
                self.score == old(self).score + i,
            decreases n - i,
        {
            self.score = self.score + 1;
            i = i + 1;
        }
    }
}

} // verus!
