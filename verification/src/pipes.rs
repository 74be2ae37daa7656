//! The obstacle stream: a repeating timer spawns pipe pairs at the right
//! edge of the play area, every pipe scrolls left at a fixed speed, and a
//! pipe is despawned once it leaves the left edge by a margin.
//!
//! A pair is two pipes sharing an x-coordinate: the lower one spawns with
//! `scored == false` and is the pair's single scoring trigger; the upper
//! one spawns with `scored == true` so that passing a pair can never count
//! twice.

use vstd::prelude::*;

use crate::physics::COORD_LIMIT;
use crate::RepeatTimer;

verus! {

/// Leftward scroll speed of every pipe, in milli-units per second.
pub const PIPE_SPEED: i64 = 250_000;

/// Period of the spawn timer, in milliseconds.
pub const SPAWN_PERIOD_MS: i64 = 1_000;

/// Width of a pipe's bounding box, in micro-units.
pub const PIPE_WIDTH: i64 = 52_000_000;

/// Height of a pipe's bounding box, in micro-units.
pub const PIPE_HEIGHT: i64 = 320_000_000;

/// Clear vertical space between the two pipes of a pair, in micro-units.
pub const PIPE_VERTICAL_GAP: i64 = 150_000_000;

/// How far past the right edge a pair spawns, in micro-units.
pub const SPAWN_MARGIN: i64 = 16_000_000;

/// How far past the left edge a pipe survives before despawning.
pub const DESPAWN_MARGIN: i64 = 32_000_000;

/// Lowest center the upper pipe of a pair may spawn at, in micro-units.
pub const UPPER_Y_MIN: i64 = 150_000_000;

/// Highest center the upper pipe of a pair may spawn at, in micro-units.
pub const UPPER_Y_MAX: i64 = 300_000_000;

/// Largest half-extent of the play area accepted, in micro-units.
pub const HALF_EXTENT_LIMIT: i64 = 100_000_000_000_000;

/// Most pipes that may be alive at once; two are added per spawn.
pub const PIPES_LIMIT: usize = 10_000;

/// One pipe obstacle: its center, its bounding-box size, and whether it
/// has already been scored as passed.
#[derive(Clone, Copy, Debug, PartialEq, Eq, Structural)]
pub struct Pipe {
    /// Horizontal center, in micro-units.
    pub x: i64,
    /// Vertical center, in micro-units.
    pub y: i64,
    /// Bounding-box width, in micro-units.
    pub width: i64,
    /// Bounding-box height, in micro-units.
    pub height: i64,
    /// Whether this pipe already triggered a score increment.
    pub scored: bool,
}

impl Pipe {
    pub open spec fn wf(self) -> bool {
        &&& -COORD_LIMIT <= self.x <= COORD_LIMIT
        &&& -COORD_LIMIT <= self.y <= COORD_LIMIT
        &&& 0 <= self.width <= COORD_LIMIT
        &&& 0 <= self.height <= COORD_LIMIT
    }
}

/// The lower pipe of a freshly spawned pair: one pipe height plus the gap
/// below the upper pipe's center, not yet scored.
pub open spec fn spawn_lower(upper_y: int, x: int) -> Pipe {
    Pipe {
        x: x as i64,
        y: (upper_y - PIPE_HEIGHT - PIPE_VERTICAL_GAP) as i64,
        width: PIPE_WIDTH,
        height: PIPE_HEIGHT,
        scored: false,
    }
}

/// The upper pipe of a freshly spawned pair: already marked scored, so the
/// lower pipe is the pair's only scoring trigger.
pub open spec fn spawn_upper(upper_y: int, x: int) -> Pipe {
    Pipe { x: x as i64, y: upper_y as i64, width: PIPE_WIDTH, height: PIPE_HEIGHT, scored: true }
}

/// A pipe after one tick of leftward scroll.
pub open spec fn pipe_moved(p: Pipe, dt: int) -> Pipe {
    Pipe { x: (p.x - PIPE_SPEED * dt) as i64, y: p.y, width: p.width, height: p.height, scored: p.scored }
}

/// Whether a pipe is still on stage after moving: it despawns once its
/// center is further left than the play area's left edge by the margin.
pub open spec fn pipe_kept(p: Pipe, half_width: int) -> bool {
    p.x >= -half_width - DESPAWN_MARGIN
}

/// The pipe list after one tick: every pipe moved left, those past the
/// despawn line dropped, order kept.
pub open spec fn move_cull(s: Seq<Pipe>, dt: int, half_width: int) -> Seq<Pipe>
    decreases s.len(),
{
    if s.len() == 0 {
        Seq::empty()
    } else {
        let rest = move_cull(s.drop_last(), dt, half_width);
        let p = pipe_moved(s.last(), dt);
        if pipe_kept(p, half_width) {
            rest.push(p)
        } else {
            rest
        }
    }
}

/// Culling never lengthens the list.
pub proof fn lemma_move_cull_len(s: Seq<Pipe>, dt: int, half_width: int)
    ensures
        move_cull(s, dt, half_width).len() <= s.len(),
    decreases s.len(),
{
    if s.len() > 0 {
        lemma_move_cull_len(s.drop_last(), dt, half_width);
    }
}

/// Culling invents nothing: every surviving pipe is one of the input
/// pipes, moved left, with everything else about it kept.
pub proof fn lemma_move_cull_elements(s: Seq<Pipe>, dt: int, half_width: int)
    ensures
        forall|j: int|
            #![trigger move_cull(s, dt, half_width)[j]]
            0 <= j < move_cull(s, dt, half_width).len() ==> exists|i: int|
                0 <= i < s.len() && move_cull(s, dt, half_width)[j] == #[trigger] pipe_moved(
                    s[i],
                    dt,
                ),
    decreases s.len(),
{
    if s.len() > 0 {
        lemma_move_cull_elements(s.drop_last(), dt, half_width);
        let rest = move_cull(s.drop_last(), dt, half_width);
        let p = pipe_moved(s.last(), dt);
        assert forall|j: int|
            #![trigger move_cull(s, dt, half_width)[j]]
            0 <= j < move_cull(s, dt, half_width).len() implies exists|i: int|
            0 <= i < s.len() && move_cull(s, dt, half_width)[j] == #[trigger] pipe_moved(
                s[i],
                dt,
            ) by {
            if pipe_kept(p, half_width) && j == rest.len() {
                assert(move_cull(s, dt, half_width)[j] == pipe_moved(s[s.len() - 1], dt));
            } else {
                assert(0 <= j < rest.len());
                assert(move_cull(s, dt, half_width)[j] == rest[j]);
                assert(move_cull(s.drop_last(), dt, half_width)[j] == rest[j]);
                let i = choose|i: int|
                    0 <= i < s.drop_last().len() && move_cull(s.drop_last(), dt, half_width)[j]
                        == #[trigger] pipe_moved(s.drop_last()[i], dt);
                assert(s.drop_last()[i] == s[i]);
                assert(move_cull(s, dt, half_width)[j] == pipe_moved(s[i], dt));
            }
        }
    } else {
        assert(move_cull(s, dt, half_width) =~= Seq::<Pipe>::empty());
    }
}

/// The pipe subsystem: the spawn timer and the live pipes.
#[derive(Debug)]
pub struct PipePlugin {
    pub timer: RepeatTimer,
    pub pipes: Vec<Pipe>,
}

impl PipePlugin {
    pub open spec fn wf(self) -> bool {
        &&& self.timer.wf()
        &&& self.timer.period_ms == SPAWN_PERIOD_MS
        &&& self.pipes@.len() <= PIPES_LIMIT
        &&& forall|i: int| 0 <= i < self.pipes@.len() ==> (#[trigger] self.pipes@[i]).wf()
    }

    pub fn new() -> (plugin: PipePlugin)
        ensures
            plugin.timer.period_ms == SPAWN_PERIOD_MS,
            plugin.timer.acc_ms == 0,
            plugin.pipes@.len() == 0,
            plugin.wf(),
    {
        PipePlugin { timer: RepeatTimer::new(SPAWN_PERIOD_MS), pipes: Vec::new() }
    }

    /// Advance the spawn timer; on a firing tick spawn one pair at the
    /// right edge with a random upper height, and report that height.
    pub fn spawn_pipes(&mut self, dt: i64, half_width: i64) -> (spawned: Option<i64>)
        requires
            old(self).wf(),
            old(self).pipes@.len() + 2 <= PIPES_LIMIT,
            0 <= dt <= crate::DT_LIMIT,
            0 <= half_width <= HALF_EXTENT_LIMIT,
        ensures
            final(self).timer.period_ms == SPAWN_PERIOD_MS,
            final(self).timer.acc_ms == old(self).timer.acc_after(dt as int),
            (spawned is Some) == old(self).timer.fires(dt as int),
            spawned is None ==> final(self).pipes@ == old(self).pipes@,
            spawned matches Some(upper_y) ==> {
                &&& UPPER_Y_MIN <= upper_y <= UPPER_Y_MAX
                &&& final(self).pipes@ == old(self).pipes@.push(
                    spawn_lower(upper_y as int, half_width + SPAWN_MARGIN),
                ).push(spawn_upper(upper_y as int, half_width + SPAWN_MARGIN))
            },
            final(self).pipes@.len() <= old(self).pipes@.len() + 2,
            forall|i: int|
                0 <= i < final(self).pipes@.len() ==> (#[trigger] final(self).pipes@[i]).wf(),
    {
        let fired = self.timer.tick(dt);
        if !fired {
            return None;
        }
        let upper_y = gen_range_i64(UPPER_Y_MIN, UPPER_Y_MAX);
        let pipe_x = half_width + SPAWN_MARGIN;
        let (lower, upper) = make_pipe_pair(upper_y, pipe_x);
        self.pipes.push(lower);
        self.pipes.push(upper);
        Some(upper_y)
    }

    /// Entry action for play: despawn every pipe and restart the spawn
    /// timer from zero.
    pub fn reset_pipes(&mut self)
        ensures
            final(self).pipes@.len() == 0,
            final(self).timer.acc_ms == 0,
            final(self).timer.period_ms == old(self).timer.period_ms,
    {
        self.pipes.clear();
        self.timer.reset();
    }
}

/// Build the two pipes of a pair from the upper pipe's center height and
/// the shared x-coordinate.
pub fn make_pipe_pair(upper_y: i64, x: i64) -> (pair: (Pipe, Pipe))
    requires
        UPPER_Y_MIN <= upper_y <= UPPER_Y_MAX,
        0 <= x <= HALF_EXTENT_LIMIT + SPAWN_MARGIN,
    ensures
        pair.0 == spawn_lower(upper_y as int, x as int),
        pair.1 == spawn_upper(upper_y as int, x as int),
        pair.0.wf(),
        pair.1.wf(),
{
    let lower = Pipe {
        x,
        y: upper_y - PIPE_HEIGHT - PIPE_VERTICAL_GAP,
        width: PIPE_WIDTH,
        height: PIPE_HEIGHT,
        scored: false,
    };
    let upper = Pipe { x, y: upper_y, width: PIPE_WIDTH, height: PIPE_HEIGHT, scored: true };
    (lower, upper)
}

/// Scroll every pipe left by `PIPE_SPEED * dt` and despawn the ones that
/// left the stage; each pipe is judged on its own, never as a pair.
pub fn move_pipes(pipes: &mut Vec<Pipe>, dt: i64, half_width: i64)
    requires
        0 <= dt <= crate::DT_LIMIT,
        0 <= half_width <= HALF_EXTENT_LIMIT,
        forall|i: int| 0 <= i < old(pipes)@.len() ==> (#[trigger] old(pipes)@[i]).wf(),
    ensures
        final(pipes)@ == move_cull(old(pipes)@, dt as int, half_width as int),
        forall|i: int|
            0 <= i < final(pipes)@.len() ==> (#[trigger] final(pipes)@[i]).wf()
                && final(pipes)@[i].x >= -half_width - DESPAWN_MARGIN,
{
    let n = pipes.len();
    let mut out: Vec<Pipe> = Vec::new();
    let mut i: usize = 0;
    while i < n
        invariant
            i <= n,
            n == pipes@.len(),
            pipes@ == old(pipes)@,
            0 <= dt <= crate::DT_LIMIT,
            0 <= half_width <= HALF_EXTENT_LIMIT,
            forall|j: int| 0 <= j < n ==> (#[trigger] pipes@[j]).wf(),
            out@ == move_cull(pipes@.take(i as int), dt as int, half_width as int),
            forall|j: int|
                0 <= j < out@.len() ==> (#[trigger] out@[j]).wf()
                    && out@[j].x >= -half_width - DESPAWN_MARGIN,
        decreases n - i,
    {
        let p = pipes[i];
        let nx = p.x - PIPE_SPEED * dt;
        let moved = Pipe { x: nx, y: p.y, width: p.width, height: p.height, scored: p.scored };
        if nx >= -half_width - DESPAWN_MARGIN {
            out.push(moved);
        }
        proof {
            assert(pipes@.take(i as int + 1).drop_last() =~= pipes@.take(i as int));
            assert(pipes@.take(i as int + 1).last() == pipes@[i as int]);
            assert(moved == pipe_moved(pipes@[i as int], dt as int));
        }
        i = i + 1;
    }
    proof {
        assert(pipes@.take(n as int) =~= pipes@);
    }
    *pipes = out;
}

/// Relies on rand::Rng::gen_range over an inclusive integer range: the
/// sample lies within the range's bounds. rand panics on an empty range,
/// which the precondition rules out.
#[verifier::external_body]
fn gen_range_i64(lo: i64, hi: i64) -> (r: i64)
    requires
        lo <= hi,
    ensures
        lo <= r <= hi,
{
    rand::Rng::gen_range(&mut rand::thread_rng(), lo..=hi)
}

} // verus!
