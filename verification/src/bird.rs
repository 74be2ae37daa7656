//! The player-controlled bird: jump input, the collision and bounds
//! checks, pass detection for scoring, and the cosmetic tilt.
//!
//! The bird keeps a fixed horizontal position; a pipe counts as passed the
//! moment its center crosses to the left of x = 0, the bird's column in
//! the play area's frame.

use vstd::prelude::*;

use crate::physics::{Gravity, Velocity, COORD_LIMIT, POS_TICK_LIMIT, VEL_TICK_LIMIT};
use crate::pipes::{Pipe, HALF_EXTENT_LIMIT};

verus! {

/// Launch velocity a jump assigns to `velocity.y`, in milli-units per
/// second. An assignment, not an impulse: the prior velocity is ignored.
pub const LAUNCH_SPEED: i64 = 300_000;

/// Default downward acceleration of the bird, in units per second squared.
pub const GRAVITY_DEFAULT: i64 = 1_000;

/// Width of the bird's bounding box, in micro-units.
pub const BIRD_WIDTH: i64 = 34_000_000;

/// Height of the bird's bounding box, in micro-units.
pub const BIRD_HEIGHT: i64 = 24_000_000;

/// One score increment, emitted when a pipe is first passed.
#[derive(Clone, Copy, Debug, PartialEq, Eq, Structural)]
pub struct AddScoreEvent;

/// The player's actor: a fixed-size body with a position, a velocity and
/// its own gravity.
#[derive(Clone, Copy, Debug, PartialEq, Eq, Structural)]
pub struct Bird {
    /// Horizontal center, in micro-units; fixed for the bird's lifetime.
    pub x: i64,
    /// Vertical center, in micro-units.
    pub y: i64,
    pub velocity: Velocity,
    pub gravity: Gravity,
}

impl Bird {
    pub open spec fn wf(self) -> bool {
        &&& -COORD_LIMIT <= self.x <= COORD_LIMIT
        &&& -COORD_LIMIT <= self.y <= COORD_LIMIT
        &&& -crate::physics::VEL_LIMIT <= self.velocity.x <= crate::physics::VEL_LIMIT
        &&& -crate::physics::VEL_LIMIT <= self.velocity.y <= crate::physics::VEL_LIMIT
        &&& 0 <= self.gravity.0 <= crate::physics::GRAV_LIMIT
    }

    /// A fresh bird at the start point: the origin, at rest, with the
    /// default gravity.
    pub fn new() -> (bird: Bird)
        ensures
            bird.x == 0,
            bird.y == 0,
            bird.velocity == (Velocity { x: 0, y: 0 }),
            bird.gravity == Gravity(GRAVITY_DEFAULT),
            bird.wf(),
    {
        Bird { x: 0, y: 0, velocity: Velocity { x: 0, y: 0 }, gravity: Gravity(GRAVITY_DEFAULT) }
    }
}

/// Entry action for play: put the bird back at the start height.
pub fn reset_bird_position(bird: &mut Bird)
    ensures
        final(bird).y == 0,
        final(bird).x == old(bird).x,
        final(bird).velocity == old(bird).velocity,
        final(bird).gravity == old(bird).gravity,
{
    bird.y = 0;
}

/// On a jump edge, set the vertical velocity to the launch constant,
/// whatever it was before; report whether a jump happened.
pub fn bird_input(bird: &mut Bird, jump: bool) -> (jumped: bool)
    ensures
        jumped == jump,
        jump ==> final(bird).velocity.y == LAUNCH_SPEED,
        !jump ==> final(bird).velocity.y == old(bird).velocity.y,
        final(bird).velocity.x == old(bird).velocity.x,
        final(bird).x == old(bird).x,
        final(bird).y == old(bird).y,
        final(bird).gravity == old(bird).gravity,
{
    if jump {
        bird.velocity.y = LAUNCH_SPEED;
    }
    jump
}

/// Strict axis-aligned overlap of two centered boxes: they overlap when
/// the center distance is under half the summed extents on both axes;
/// mere touching does not count.
pub open spec fn boxes_overlap(
    ax: int,
    ay: int,
    aw: int,
    ah: int,
    bx: int,
    by: int,
    bw: int,
    bh: int,
) -> bool {
    &&& 2 * (ax - bx) < aw + bw
    &&& 2 * (bx - ax) < aw + bw
    &&& 2 * (ay - by) < ah + bh
    &&& 2 * (by - ay) < ah + bh
}

pub open spec fn bird_hits_pipe(bird: Bird, p: Pipe) -> bool {
    boxes_overlap(
        bird.x as int,
        bird.y as int,
        BIRD_WIDTH as int,
        BIRD_HEIGHT as int,
        p.x as int,
        p.y as int,
        p.width as int,
        p.height as int,
    )
}

pub open spec fn any_collision(bird: Bird, s: Seq<Pipe>) -> bool {
    exists|i: int| 0 <= i < s.len() && bird_hits_pipe(bird, s[i])
}

/// The bird is out of bounds when its center leaves the vertical half
/// extent of the play area, in either direction.
pub open spec fn bird_out_of_bounds(bird: Bird, half_height: int) -> bool {
    bird.y > half_height || bird.y < -half_height
}

/// A pipe triggers a score the tick its center first sits left of the
/// bird's column while still unscored.
pub open spec fn passes(p: Pipe) -> bool {
    !p.scored && p.x < 0
}

/// A pipe after pass detection: `scored` is set once the pipe is left of
/// the bird's column, and is never cleared.
pub open spec fn pipe_marked(p: Pipe) -> Pipe {
    Pipe { x: p.x, y: p.y, width: p.width, height: p.height, scored: p.scored || p.x < 0 }
}

/// The whole pipe list after pass detection.
pub open spec fn mark_passed(s: Seq<Pipe>) -> Seq<Pipe> {
    Seq::new(s.len(), |i: int| pipe_marked(s[i]))
}

/// How many pipes trigger a score this tick.
pub open spec fn pass_count(s: Seq<Pipe>) -> int
    decreases s.len(),
{
    if s.len() == 0 {
        0
    } else {
        pass_count(s.drop_last()) + if passes(s.last()) {
            1int
        } else {
            0int
        }
    }
}

pub proof fn lemma_pass_count_bounds(s: Seq<Pipe>)
    ensures
        0 <= pass_count(s) <= s.len(),
    decreases s.len(),
{
    if s.len() > 0 {
        lemma_pass_count_bounds(s.drop_last());
    }
}

/// What one collision check reports: the hazards seen this tick and one
/// score event per pipe passed this tick.
#[derive(Debug)]
pub struct CheckOutcome {
    pub collision: bool,
    pub out_of_bounds: bool,
    pub scores: Vec<AddScoreEvent>,
}

/// One tick of hazard and pass detection, run after physics and pipe
/// movement: test every pipe's box against the bird's box, test the
/// vertical bounds, and mark newly passed pipes, emitting one score event
/// each.
pub fn collision_check(bird: &Bird, pipes: &mut Vec<Pipe>, half_height: i64) -> (out: CheckOutcome)
    requires
        -COORD_LIMIT <= bird.x <= COORD_LIMIT,
        -POS_TICK_LIMIT <= bird.y <= POS_TICK_LIMIT,
        0 <= half_height <= HALF_EXTENT_LIMIT,
        forall|i: int| 0 <= i < old(pipes)@.len() ==> (#[trigger] old(pipes)@[i]).wf(),
    ensures
        out.collision == any_collision(*bird, old(pipes)@),
        out.out_of_bounds == bird_out_of_bounds(*bird, half_height as int),
        final(pipes)@ == mark_passed(old(pipes)@),
        out.scores@.len() == pass_count(old(pipes)@),
        forall|i: int| 0 <= i < final(pipes)@.len() ==> (#[trigger] final(pipes)@[i]).wf(),
{
    let mut hit = false;
    let mut scores: Vec<AddScoreEvent> = Vec::new();
    let n = pipes.len();
    let mut i: usize = 0;
    while i < n
        invariant
            i <= n,
            n == pipes@.len(),
            n == old(pipes)@.len(),
            -COORD_LIMIT <= bird.x <= COORD_LIMIT,
            -POS_TICK_LIMIT <= bird.y <= POS_TICK_LIMIT,
            forall|j: int| 0 <= j < n ==> (#[trigger] old(pipes)@[j]).wf(),
            forall|j: int| 0 <= j < i ==> pipes@[j] == pipe_marked(old(pipes)@[j]),
            forall|j: int| i <= j < n ==> pipes@[j] == old(pipes)@[j],
            hit == any_collision(*bird, old(pipes)@.take(i as int)),
            scores@.len() == pass_count(old(pipes)@.take(i as int)),
        decreases n - i,
    {
        proof {
            assert(pipes@[i as int] == old(pipes)@[i as int]);
            assert(old(pipes)@[i as int].wf());
        }
        let p = pipes[i];
        let dx = bird.x - p.x;
        let dy = bird.y - p.y;
        let width_sum = BIRD_WIDTH + p.width;
        let height_sum = BIRD_HEIGHT + p.height;
        let overlap = 2 * dx < width_sum && 2 * dx > -width_sum && 2 * dy < height_sum && 2 * dy
            > -height_sum;
        if overlap {
            hit = true;
        }
        if !p.scored && p.x < 0 {
            pipes.set(i, Pipe { x: p.x, y: p.y, width: p.width, height: p.height, scored: true });
            scores.push(AddScoreEvent);
        }
        proof {
            assert(old(pipes)@.take(i as int + 1).drop_last() =~= old(pipes)@.take(i as int));
            assert(old(pipes)@.take(i as int + 1).last() == old(pipes)@[i as int]);
            assert(overlap == bird_hits_pipe(*bird, old(pipes)@[i as int]));
            if overlap {
                assert(any_collision(*bird, old(pipes)@.take(i as int + 1)));
            } else if !hit {
                assert forall|j: int| 0 <= j < i as int + 1 implies !bird_hits_pipe(
                    *bird,
                    #[trigger] old(pipes)@.take(i as int + 1)[j],
                ) by {
                    if j < i as int {
                        assert(old(pipes)@.take(i as int + 1)[j] == old(pipes)@.take(i as int)[j]);
                    } else {
                        assert(old(pipes)@.take(i as int + 1)[j] == old(pipes)@[i as int]);
                    }
                }
            } else {
                assert(any_collision(*bird, old(pipes)@.take(i as int)));
                let witness = choose|j: int|
                    0 <= j < i as int && bird_hits_pipe(*bird, old(pipes)@.take(i as int)[j]);
                assert(old(pipes)@.take(i as int + 1)[witness] == old(pipes)@.take(
                    i as int,
                )[witness]);
                assert(any_collision(*bird, old(pipes)@.take(i as int + 1)));
            }
            assert(pipes@[i as int] == pipe_marked(old(pipes)@[i as int]));
        }
        i = i + 1;
    }
    proof {
        assert(old(pipes)@.take(n as int) =~= old(pipes)@);
        assert(pipes@ =~= mark_passed(old(pipes)@));
    }
    let out_of_bounds = bird.y > half_height || bird.y < -half_height;
    CheckOutcome { collision: hit, out_of_bounds, scores }
}

/// Cosmetic tilt derived from the vertical motion of the tick, in
/// micro-degrees: the product `velocity.y * dt` clamped to one unit each
/// way, scaled to forty-five degrees. Display-only; no physics reads it.
pub fn rotate_bird(velocity: &Velocity, dt: i64) -> (tilt: i64)
    requires
        -VEL_TICK_LIMIT <= velocity.y <= VEL_TICK_LIMIT,
        0 <= dt <= crate::DT_LIMIT,
    ensures
        tilt == 45 * clamp_unit(velocity.y as int * dt as int),
        -45_000_000 <= tilt <= 45_000_000,
{
    assert(-2_000_000_000_000_000_000 <= (velocity.y as int) * (dt as int)
        <= 2_000_000_000_000_000_000) by (nonlinear_arith)
        requires
            -VEL_TICK_LIMIT <= velocity.y <= VEL_TICK_LIMIT,
            0 <= dt <= crate::DT_LIMIT,
    ;
    let raw = velocity.y * dt;
    let clamped = if raw < -1_000_000 {
        -1_000_000
    } else if raw > 1_000_000 {
        1_000_000
    } else {
        raw
    };
    45 * clamped
}

/// The motion product clamped to plus or minus one unit (one million
/// micro-units).
pub open spec fn clamp_unit(t: int) -> int {
    if t < -1_000_000 {
        -1_000_000
    } else if t > 1_000_000 {
        1_000_000
    } else {
        t
    }
}

} // verus!
