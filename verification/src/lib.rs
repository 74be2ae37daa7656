//! Core of a side-scrolling arcade game: a gravity-bound actor must fly
//! through a stream of paired pipe obstacles without touching them or
//! leaving the play area, while a score counts the pairs it passes.
//!
//! All quantities are fixed-point integers:
//! - positions and sizes are in micro-units (`1_000_000` = one world unit),
//! - velocities are in milli-units per second (`1_000` = one unit per second),
//! - accelerations are in whole units per second squared,
//! - elapsed time is in milliseconds.
//!
//! With these scales every per-tick update is exact integer arithmetic:
//! a velocity times a time delta is directly a position change in
//! micro-units, and an acceleration times a time delta is directly a
//! velocity change in milli-units per second.

pub mod animation;
pub mod bird;
pub mod laws;
pub mod physics;
pub mod pipes;
pub mod score;

use vstd::prelude::*;

verus! {

use crate::physics::{COORD_LIMIT, GRAV_LIMIT, VEL_LIMIT};

/// The three phases of the game. The simulation starts in `MainMenu`.
#[derive(Clone, Copy, Debug, PartialEq, Eq, Structural)]
pub enum GameState {
    MainMenu,
    Playing,
    GameOver,
}

/// Largest time delta one tick accepts, in milliseconds.
pub const DT_LIMIT: i64 = 1_000_000;

/// Largest accumulated time a repeating timer may hold, in milliseconds.
pub const TIMER_ACC_LIMIT: i64 = 1_000_000_000_000_000;

/// Largest period a repeating timer may have, in milliseconds.
pub const TIMER_PERIOD_LIMIT: i64 = 1_000_000_000;

/// A repeating timer: it accumulates elapsed time and fires once whenever
/// the accumulated time reaches its period, carrying the excess over.
#[derive(Clone, Copy, Debug, PartialEq, Eq, Structural)]
pub struct RepeatTimer {
    /// The period, in milliseconds.
    pub period_ms: i64,
    /// Time accumulated toward the next firing, in milliseconds.
    pub acc_ms: i64,
}

impl RepeatTimer {
    pub open spec fn wf(self) -> bool {
        &&& 0 < self.period_ms <= TIMER_PERIOD_LIMIT
        &&& 0 <= self.acc_ms <= TIMER_ACC_LIMIT
    }

    /// Whether a tick of `dt` starting from accumulator `acc` fires.
    pub open spec fn fires(self, dt: int) -> bool {
        self.acc_ms + dt >= self.period_ms
    }

    /// The accumulator after a tick of `dt`: the excess is carried over on
    /// a firing tick, so firings stay exactly one period apart in
    /// accumulated time.
    pub open spec fn acc_after(self, dt: int) -> int {
        if self.fires(dt) {
            self.acc_ms + dt - self.period_ms
        } else {
            self.acc_ms + dt
        }
    }

    pub fn new(period_ms: i64) -> (t: RepeatTimer)
        requires
            0 < period_ms <= TIMER_PERIOD_LIMIT,
        ensures
            t.period_ms == period_ms,
            t.acc_ms == 0,
            t.wf(),
    {
        RepeatTimer { period_ms, acc_ms: 0 }
    }

    /// Advance the timer by `dt` milliseconds; report whether it fired.
    /// At most one firing is reported per tick; a backlog larger than one
    /// period is worked off on later ticks.
    pub fn tick(&mut self, dt: i64) -> (fired: bool)
        requires
            old(self).wf(),
            0 <= dt <= DT_LIMIT,
        ensures
            fired == old(self).fires(dt as int),
            final(self).acc_ms == old(self).acc_after(dt as int),
            final(self).period_ms == old(self).period_ms,
    {
        self.acc_ms = self.acc_ms + dt;
        if self.acc_ms >= self.period_ms {
            self.acc_ms = self.acc_ms - self.period_ms;
            true
        } else {
            false
        }
    }

    /// Drop any accumulated time.
    pub fn reset(&mut self)
        ensures
            final(self).acc_ms == 0,
            final(self).period_ms == old(self).period_ms,
    {
        self.acc_ms = 0;
    }
}

/// The input edges sampled for one tick: each is true exactly on the tick
/// in which the key went down.
#[derive(Clone, Copy, Debug, PartialEq, Eq, Structural)]
pub struct InputFrame {
    pub jump: bool,
    pub start: bool,
    pub restart: bool,
}

/// What one tick reports to the outside: the discrete events collaborators
/// render or sound, and the upper height of a pair spawned this tick.
#[derive(Debug)]
pub struct TickEvents {
    /// A jump was launched this tick.
    pub jumped: bool,
    /// `Some(upper_y)` when a pipe pair spawned this tick.
    pub spawned: Option<i64>,
    /// The bird's box overlapped a pipe's box this tick.
    pub collision: bool,
    /// The bird left the vertical bounds this tick.
    pub out_of_bounds: bool,
    /// One event per pipe passed this tick.
    pub scores: Vec<bird::AddScoreEvent>,
}

/// The whole simulation: the state machine, the bird, the pipe stream,
/// the score, and the play area's half extents (read-only collaborator
/// data, in micro-units).
#[derive(Debug)]
pub struct Simulation {
    pub state: GameState,
    pub bird: bird::Bird,
    pub pipes: pipes::PipePlugin,
    pub score: score::ScorePlugin,
    pub half_width: i64,
    pub half_height: i64,
}

/// No event fired: the report of a tick spent outside play.
pub open spec fn quiet_events(ev: TickEvents) -> bool {
    &&& !ev.jumped
    &&& ev.spawned is None
    &&& !ev.collision
    &&& !ev.out_of_bounds
    &&& ev.scores@.len() == 0
}

/// The entry actions of `Playing`, run on both start and restart: the bird
/// back at the start point and at rest, the score cleared, every pipe
/// despawned, the spawn timer restarted. Gravity and the play area carry
/// over.
pub open spec fn entered_playing(pre: Simulation, post: Simulation) -> bool {
    &&& post.state == GameState::Playing
    &&& post.bird.x == pre.bird.x
    &&& post.bird.y == 0
    &&& post.bird.velocity.x == 0
    &&& post.bird.velocity.y == 0
    &&& post.bird.gravity == pre.bird.gravity
    &&& post.pipes.pipes@.len() == 0
    &&& post.pipes.timer.acc_ms == 0
    &&& post.pipes.timer.period_ms == pre.pipes.timer.period_ms
    &&& post.score.score == 0
    &&& post.half_width == pre.half_width
    &&& post.half_height == pre.half_height
}

/// A tick that changed nothing.
pub open spec fn sim_unchanged(pre: Simulation, post: Simulation) -> bool {
    &&& post.state == pre.state
    &&& post.bird == pre.bird
    &&& post.pipes.timer == pre.pipes.timer
    &&& post.pipes.pipes@ == pre.pipes.pipes@
    &&& post.score == pre.score
    &&& post.half_width == pre.half_width
    &&& post.half_height == pre.half_height
}

/// The pipe list right after the spawn step of a tick: on a firing tick
/// the new pair is appended, lower pipe first.
pub open spec fn pipes_after_spawn(s: Seq<pipes::Pipe>, fired: bool, upper_y: int, spawn_x: int) -> Seq<
    pipes::Pipe,
> {
    if fired {
        s.push(pipes::spawn_lower(upper_y, spawn_x)).push(pipes::spawn_upper(upper_y, spawn_x))
    } else {
        s
    }
}

/// The upper height a tick's spawn drew, read off its event report.
pub open spec fn spawn_y_of(ev: TickEvents) -> int {
    match ev.spawned {
        Some(y) => y as int,
        None => 0,
    }
}

/// Everything one `Playing` tick does, in order: jump edge, physics,
/// spawn, scroll and cull, hazard check against the post-physics bird and
/// the post-move pipes, pass detection, the state transition, and the
/// score update.
pub open spec fn playing_post(
    pre: Simulation,
    post: Simulation,
    ev: TickEvents,
    input: InputFrame,
    dt: int,
) -> bool {
    let fired = pre.pipes.timer.fires(dt);
    let vy = if input.jump {
        bird::LAUNCH_SPEED as int
    } else {
        physics::vel_y_after(pre.bird.velocity.y as int, pre.bird.gravity.0 as int, dt, false)
    };
    let after_spawn = pipes_after_spawn(
        pre.pipes.pipes@,
        fired,
        spawn_y_of(ev),
        pre.half_width + pipes::SPAWN_MARGIN,
    );
    let after_move = pipes::move_cull(after_spawn, dt, pre.half_width as int);
    &&& ev.jumped == input.jump
    &&& (ev.spawned is Some) == fired
    &&& (ev.spawned matches Some(y) ==> pipes::UPPER_Y_MIN <= y <= pipes::UPPER_Y_MAX)
    &&& post.bird.x == pre.bird.x
    &&& post.bird.gravity == pre.bird.gravity
    &&& post.bird.velocity.x == pre.bird.velocity.x
    &&& post.bird.velocity.y == vy
    &&& post.bird.y == physics::pos_y_after(pre.bird.y as int, vy, dt)
    &&& post.pipes.timer.period_ms == pre.pipes.timer.period_ms
    &&& post.pipes.timer.acc_ms == pre.pipes.timer.acc_after(dt)
    &&& post.pipes.pipes@ == bird::mark_passed(after_move)
    &&& ev.collision == bird::any_collision(post.bird, after_move)
    &&& ev.out_of_bounds == bird::bird_out_of_bounds(post.bird, pre.half_height as int)
    &&& ev.scores@.len() == bird::pass_count(after_move)
    &&& post.score.score == pre.score.score + bird::pass_count(after_move)
    &&& post.state == (if ev.collision || ev.out_of_bounds {
        GameState::GameOver
    } else {
        GameState::Playing
    })
    &&& post.half_width == pre.half_width
    &&& post.half_height == pre.half_height
}

impl Simulation {
    pub open spec fn wf(self) -> bool {
        &&& self.bird.wf()
        &&& self.pipes.wf()
        &&& self.score.wf()
        &&& 0 <= self.half_width <= pipes::HALF_EXTENT_LIMIT
        &&& 0 <= self.half_height <= pipes::HALF_EXTENT_LIMIT
    }

    /// A fresh simulation at the main menu, for a play area with the given
    /// half extents in micro-units.
    pub fn new(half_width: i64, half_height: i64) -> (sim: Simulation)
        requires
            0 <= half_width <= pipes::HALF_EXTENT_LIMIT,
            0 <= half_height <= pipes::HALF_EXTENT_LIMIT,
        ensures
            sim.state == GameState::MainMenu,
            sim.bird.x == 0,
            sim.bird.y == 0,
            sim.bird.velocity.x == 0,
            sim.bird.velocity.y == 0,
            sim.bird.gravity.0 == bird::GRAVITY_DEFAULT,
            sim.pipes.pipes@.len() == 0,
            sim.pipes.timer.acc_ms == 0,
            sim.pipes.timer.period_ms == pipes::SPAWN_PERIOD_MS,
            sim.score.score == 0,
            sim.half_width == half_width,
            sim.half_height == half_height,
            sim.wf(),
    {
        Simulation {
            state: GameState::MainMenu,
            bird: bird::Bird::new(),
            pipes: pipes::PipePlugin::new(),
            score: score::ScorePlugin::new(),
            half_width,
            half_height,
        }
    }

    /// Run the entry actions of `Playing`.
    fn enter_playing(&mut self)
        ensures
            entered_playing(*old(self), *final(self)),
            old(self).wf() ==> final(self).wf(),
    {
        self.state = GameState::Playing;
        bird::reset_bird_position(&mut self.bird);
        physics::reset_velocity(&mut self.bird.velocity);
        self.pipes.reset_pipes();
        self.score.reset();
    }

    /// Whether the simulation is within every bound `tick` relies on;
    /// callers outside the proofs test this before a tick.
    pub fn is_well_formed(&self) -> (r: bool)
        ensures
            r == self.wf(),
    {
        let b = &self.bird;
        let bird_ok = -COORD_LIMIT <= b.x && b.x <= COORD_LIMIT && -COORD_LIMIT <= b.y && b.y
            <= COORD_LIMIT && -VEL_LIMIT <= b.velocity.x && b.velocity.x <= VEL_LIMIT && -VEL_LIMIT
            <= b.velocity.y && b.velocity.y <= VEL_LIMIT && 0 <= b.gravity.0 && b.gravity.0
            <= GRAV_LIMIT;
        let timer_ok = self.pipes.timer.period_ms == pipes::SPAWN_PERIOD_MS && 0
            <= self.pipes.timer.acc_ms && self.pipes.timer.acc_ms <= TIMER_ACC_LIMIT;
        let len_ok = self.pipes.pipes.len() <= pipes::PIPES_LIMIT;
        let mut all_wf = true;
        let n = self.pipes.pipes.len();
        let mut i: usize = 0;
        while i < n
            invariant
                i <= n,
                n == self.pipes.pipes@.len(),
                all_wf ==> forall|j: int|
                    0 <= j < i ==> (#[trigger] self.pipes.pipes@[j]).wf(),
                !all_wf ==> exists|j: int| 0 <= j < i && !(#[trigger] self.pipes.pipes@[j]).wf(),
            decreases n - i,
        {
            let p = self.pipes.pipes[i];
            let ok = -COORD_LIMIT <= p.x && p.x <= COORD_LIMIT && -COORD_LIMIT <= p.y && p.y
                <= COORD_LIMIT && 0 <= p.width && p.width <= COORD_LIMIT && 0 <= p.height
                && p.height <= COORD_LIMIT;
            proof {
                assert(ok == self.pipes.pipes@[i as int].wf());
            }
            all_wf = all_wf && ok;
            i = i + 1;
        }
        let score_ok = self.score.score <= score::SCORE_LIMIT;
        let area_ok = 0 <= self.half_width && self.half_width <= pipes::HALF_EXTENT_LIMIT && 0
            <= self.half_height && self.half_height <= pipes::HALF_EXTENT_LIMIT;
        let r = bird_ok && timer_ok && len_ok && all_wf && score_ok && area_ok;
        proof {
            if !all_wf {
                let j = choose|j: int| 0 <= j < n && !(self.pipes.pipes@[j]).wf();
                assert(!self.pipes.wf());
            }
            assert(r == self.wf());
        }
        r
    }

    /// One tick of the whole game, given the elapsed time in milliseconds
    /// and this tick's input edges.
    ///
    /// Outside play only the start and restart edges matter: they run the
    /// `Playing` entry actions. During play the tick runs, in order, jump
    /// and physics, the spawner (spawn if due, scroll, cull), the hazard
    /// and pass checks, the state transition, and the score update. A
    /// collision and an out-of-bounds in the same tick make the same
    /// single transition to `GameOver`.
    pub fn tick(&mut self, dt: i64, input: InputFrame) -> (ev: TickEvents)
        requires
            old(self).wf(),
            0 <= dt <= DT_LIMIT,
            old(self).pipes.pipes@.len() + 2 <= pipes::PIPES_LIMIT,
        ensures
            old(self).state == GameState::MainMenu ==> {
                &&& input.start ==> entered_playing(*old(self), *final(self)) && final(self).wf()
                &&& !input.start ==> sim_unchanged(*old(self), *final(self))
                &&& quiet_events(ev)
            },
            old(self).state == GameState::GameOver ==> {
                &&& input.restart ==> entered_playing(*old(self), *final(self)) && final(self).wf()
                &&& !input.restart ==> sim_unchanged(*old(self), *final(self))
                &&& quiet_events(ev)
            },
            old(self).state == GameState::Playing ==> playing_post(
                *old(self),
                *final(self),
                ev,
                input,
                dt as int,
            ),
    {
        match self.state {
            GameState::MainMenu => {
                if input.start {
                    self.enter_playing();
                }
                TickEvents {
                    jumped: false,
                    spawned: None,
                    collision: false,
                    out_of_bounds: false,
                    scores: Vec::new(),
                }
            },
            GameState::GameOver => {
                if input.restart {
                    self.enter_playing();
                }
                TickEvents {
                    jumped: false,
                    spawned: None,
                    collision: false,
                    out_of_bounds: false,
                    scores: Vec::new(),
                }
            },
            GameState::Playing => {
                let jumped = bird::bird_input(&mut self.bird, input.jump);
                physics::update_physics(
                    &mut self.bird.y,
                    &mut self.bird.velocity,
                    &self.bird.gravity,
                    dt,
                    jumped,
                );
                let spawned = self.pipes.spawn_pipes(dt, self.half_width);
                pipes::move_pipes(&mut self.pipes.pipes, dt, self.half_width);
                let outcome = bird::collision_check(
                    &self.bird,
                    &mut self.pipes.pipes,
                    self.half_height,
                );
                if outcome.collision || outcome.out_of_bounds {
                    self.state = GameState::GameOver;
                }
                proof {
                    pipes::lemma_move_cull_len(
                        pipes_after_spawn(
                            old(self).pipes.pipes@,
                            old(self).pipes.timer.fires(dt as int),
                            match spawned {
                                Some(y) => y as int,
                                None => 0,
                            },
                            old(self).half_width + pipes::SPAWN_MARGIN,
                        ),
                        dt as int,
                        old(self).half_width as int,
                    );
                    bird::lemma_pass_count_bounds(
                        pipes::move_cull(
                            pipes_after_spawn(
                                old(self).pipes.pipes@,
                                old(self).pipes.timer.fires(dt as int),
                                match spawned {
                                    Some(y) => y as int,
                                    None => 0,
                                },
                                old(self).half_width + pipes::SPAWN_MARGIN,
                            ),
                            dt as int,
                            old(self).half_width as int,
                        ),
                    );
                }
                self.score.update(&outcome.scores);
                TickEvents {
                    jumped,
                    spawned,
                    collision: outcome.collision,
                    out_of_bounds: outcome.out_of_bounds,
                    scores: outcome.scores,
                }
            },
        }
    }
}

} // verus!
