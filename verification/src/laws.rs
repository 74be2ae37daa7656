//! The laws of the simulation, stated over the same spec functions the
//! executable contracts use, so each is checked against what `tick` and
//! the subsystems actually promise.

use vstd::prelude::*;

use crate::bird::{
    bird_hits_pipe, mark_passed, pass_count, passes, pipe_marked, LAUNCH_SPEED,
};
use crate::pipes::{
    pipe_moved, spawn_lower, spawn_upper, Pipe, PIPE_HEIGHT, PIPE_VERTICAL_GAP, UPPER_Y_MAX,
    UPPER_Y_MIN,
};
use crate::{
    entered_playing, playing_post, GameState, InputFrame, RepeatTimer, Simulation, TickEvents,
};

verus! {

/// While playing with no jump edge, one tick drops the vertical velocity
/// by exactly `gravity * dt`, whatever the time delta.
pub proof fn lemma_gravity_decrement(
    pre: Simulation,
    post: Simulation,
    ev: TickEvents,
    input: InputFrame,
    dt: int,
)
    requires
        playing_post(pre, post, ev, input, dt),
        !input.jump,
    ensures
        post.bird.velocity.y == pre.bird.velocity.y - pre.bird.gravity.0 * dt,
{
}

/// A jump edge sets the vertical velocity to the launch constant; the
/// conclusion does not mention the prior velocity, which is discarded.
pub proof fn lemma_jump_launches(
    pre: Simulation,
    post: Simulation,
    ev: TickEvents,
    input: InputFrame,
    dt: int,
)
    requires
        playing_post(pre, post, ev, input, dt),
        input.jump,
    ensures
        post.bird.velocity.y == LAUNCH_SPEED,
{
}

/// Every spawned pair shares one x-coordinate and has the same fixed
/// vertical distance between its two pipes; the lower pipe alone spawns
/// unscored.
pub proof fn lemma_pair_gap(upper_y: int, x: int)
    requires
        UPPER_Y_MIN <= upper_y <= UPPER_Y_MAX,
        -crate::physics::COORD_LIMIT <= x <= crate::physics::COORD_LIMIT,
    ensures
        spawn_upper(upper_y, x).y - spawn_lower(upper_y, x).y == PIPE_HEIGHT + PIPE_VERTICAL_GAP,
        spawn_upper(upper_y, x).x == spawn_lower(upper_y, x).x,
        !spawn_lower(upper_y, x).scored,
        spawn_upper(upper_y, x).scored,
{
}

/// Consecutive firings of a repeating timer are exactly one period apart
/// in accumulated time: what a firing tick adds beyond the new leftover
/// accumulator is the period itself.
pub proof fn lemma_spawn_spacing(timer: RepeatTimer, dt: int)
    requires
        timer.fires(dt),
    ensures
        timer.acc_ms + dt - timer.acc_after(dt) == timer.period_ms,
{
}

/// At the simulation level: on a tick that spawns, the time accumulated
/// since the previous spawn (the old accumulator) plus this tick's delta,
/// less the leftover carried forward, is exactly one period. Pairs
/// spawned over uninterrupted play are therefore exactly one period
/// apart in accumulated time.
pub proof fn lemma_pairs_one_period_apart(
    pre: Simulation,
    post: Simulation,
    ev: TickEvents,
    input: InputFrame,
    dt: int,
)
    requires
        playing_post(pre, post, ev, input, dt),
        ev.spawned is Some,
    ensures
        pre.pipes.timer.acc_ms + dt - post.pipes.timer.acc_ms == pre.pipes.timer.period_ms,
{
    lemma_spawn_spacing(pre.pipes.timer, dt);
}

/// No step of a tick ever clears a `scored` flag: scrolling keeps it, and
/// pass detection only sets it. So a pipe's flag flips false to true at
/// most once in its lifetime.
pub proof fn lemma_scored_never_cleared(s: Seq<Pipe>, i: int, dt: int)
    requires
        0 <= i < s.len(),
    ensures
        pipe_moved(s[i], dt).scored == s[i].scored,
        mark_passed(s)[i].scored == (s[i].scored || s[i].x < 0),
        s[i].scored ==> mark_passed(s)[i].scored,
{
}

/// The list a playing tick scrolls and marks: the pipes entering the
/// tick, plus the pair it spawned, if any.
pub open spec fn tick_pipe_source(pre: Simulation, ev: TickEvents, dt: int) -> Seq<Pipe> {
    crate::pipes_after_spawn(
        pre.pipes.pipes@,
        pre.pipes.timer.fires(dt),
        crate::spawn_y_of(ev),
        pre.half_width + crate::pipes::SPAWN_MARGIN,
    )
}

/// Over a whole playing tick no `scored` flag is ever cleared: every pipe
/// that survives the tick descends from exactly one source pipe (alive
/// before the tick, or spawned by it), scrolled and then marked, and a
/// scored source leaves a scored survivor. With
/// `lemma_scored_never_cleared` this bounds each pipe's flag to a single
/// false-to-true flip over its whole lifetime.
pub proof fn lemma_tick_never_unscores(
    pre: Simulation,
    post: Simulation,
    ev: TickEvents,
    input: InputFrame,
    dt: int,
)
    requires
        playing_post(pre, post, ev, input, dt),
    ensures
        forall|j: int|
            #![trigger post.pipes.pipes@[j]]
            0 <= j < post.pipes.pipes@.len() ==> exists|i: int|
                0 <= i < tick_pipe_source(pre, ev, dt).len() && post.pipes.pipes@[j]
                    == pipe_marked(#[trigger] pipe_moved(tick_pipe_source(pre, ev, dt)[i], dt)) && (
                tick_pipe_source(pre, ev, dt)[i].scored ==> post.pipes.pipes@[j].scored),
{
    let src = tick_pipe_source(pre, ev, dt);
    let half_width = pre.half_width as int;
    let after_move = crate::pipes::move_cull(src, dt, half_width);
    crate::pipes::lemma_move_cull_elements(src, dt, half_width);
    assert forall|j: int|
        #![trigger post.pipes.pipes@[j]]
        0 <= j < post.pipes.pipes@.len() implies exists|i: int|
        0 <= i < tick_pipe_source(pre, ev, dt).len() && post.pipes.pipes@[j] == pipe_marked(
            #[trigger] pipe_moved(tick_pipe_source(pre, ev, dt)[i], dt),
        ) && (tick_pipe_source(pre, ev, dt)[i].scored ==> post.pipes.pipes@[j].scored) by {
        assert(post.pipes.pipes@ == mark_passed(after_move));
        assert(post.pipes.pipes@[j] == pipe_marked(after_move[j]));
        assert(0 <= j < crate::pipes::move_cull(src, dt, half_width).len());
        let i = choose|i: int|
            0 <= i < src.len() && crate::pipes::move_cull(src, dt, half_width)[j] == #[trigger] pipe_moved(
                src[i],
                dt,
            );
        assert(post.pipes.pipes@[j] == pipe_marked(pipe_moved(src[i], dt)));
        assert(pipe_moved(src[i], dt).scored == src[i].scored);
    }
}

/// A pipe that is already scored never emits again; in particular the
/// upper pipe of a pair, spawned scored, never emits, so a pair scores
/// through its lower pipe alone.
pub proof fn lemma_scored_pipe_never_passes(p: Pipe)
    ensures
        p.scored ==> !passes(p),
{
}

/// In a list where no pipe is passing, no score event is emitted.
pub proof fn lemma_pass_count_zero(s: Seq<Pipe>)
    requires
        forall|i: int| 0 <= i < s.len() ==> !passes(#[trigger] s[i]),
    ensures
        pass_count(s) == 0,
    decreases s.len(),
{
    if s.len() > 0 {
        assert(forall|i: int|
            0 <= i < s.drop_last().len() ==> s.drop_last()[i] == s[i]);
        lemma_pass_count_zero(s.drop_last());
    }
}

/// A pipe that is passing this tick is counted: the tick emits at least
/// one score event and leaves that pipe scored, so a crossing is never
/// missed.
pub proof fn lemma_passing_pipe_scores(s: Seq<Pipe>, i: int)
    requires
        0 <= i < s.len(),
        passes(s[i]),
    ensures
        pass_count(s) >= 1,
        mark_passed(s)[i].scored,
    decreases s.len(),
{
    crate::bird::lemma_pass_count_bounds(s.drop_last());
    if i < s.len() - 1 {
        assert(s.drop_last()[i] == s[i]);
        lemma_passing_pipe_scores(s.drop_last(), i);
    }
}

/// Pass detection emits exactly once: running it again on the marked list
/// emits nothing and changes nothing, because every pipe that was passing
/// is now scored.
pub proof fn lemma_pass_scores_once(s: Seq<Pipe>)
    ensures
        pass_count(mark_passed(s)) == 0,
        mark_passed(mark_passed(s)) == mark_passed(s),
{
    assert forall|i: int| 0 <= i < mark_passed(s).len() implies !passes(
        #[trigger] mark_passed(s)[i],
    ) by {
        assert(mark_passed(s)[i] == pipe_marked(s[i]));
    }
    lemma_pass_count_zero(mark_passed(s));
    assert(mark_passed(mark_passed(s)) =~= mark_passed(s));
}

/// Any bounding-box overlap with any pipe, or leaving the vertical
/// bounds, ends play in the very tick it happens; and play never ends in
/// a tick without such a hazard.
pub proof fn lemma_hazard_ends_play(
    pre: Simulation,
    post: Simulation,
    ev: TickEvents,
    input: InputFrame,
    dt: int,
)
    requires
        playing_post(pre, post, ev, input, dt),
    ensures
        (ev.collision || ev.out_of_bounds) <==> post.state == GameState::GameOver,
        (ev.collision || ev.out_of_bounds) || post.state == GameState::Playing,
{
}

/// Starting or restarting play resets everything a round owns: playing
/// state, zero score, the bird at the start point at rest, no pipes, a
/// fresh spawn timer.
pub proof fn lemma_restart_resets(pre: Simulation, post: Simulation)
    requires
        entered_playing(pre, post),
    ensures
        post.state == GameState::Playing,
        post.score.score == 0,
        post.bird.y == 0,
        post.bird.velocity.x == 0 && post.bird.velocity.y == 0,
        post.pipes.pipes@.len() == 0,
        post.pipes.timer.acc_ms == 0,
{
}

/// A collision check is read off the same list pass detection marks: a
/// pipe the bird overlaps is judged before marking, so scoring a pipe
/// never hides a hit on it.
pub proof fn lemma_marking_keeps_boxes(bird: crate::bird::Bird, s: Seq<Pipe>, i: int)
    requires
        0 <= i < s.len(),
    ensures
        bird_hits_pipe(bird, mark_passed(s)[i]) == bird_hits_pipe(bird, s[i]),
{
    assert(mark_passed(s)[i] == pipe_marked(s[i]));
}

} // verus!
