use flappy_core::bird::{Bird, GRAVITY_DEFAULT, LAUNCH_SPEED};
use flappy_core::physics::{Gravity, Velocity};
use flappy_core::pipes::{make_pipe_pair, Pipe, PipePlugin};
use flappy_core::score::ScorePlugin;
use flappy_core::{GameState, InputFrame, RepeatTimer, Simulation};

const HALF_W: i64 = 288_000_000;
const HALF_H: i64 = 512_000_000;

fn idle() -> InputFrame {
    InputFrame { jump: false, start: false, restart: false }
}

fn start() -> InputFrame {
    InputFrame { jump: false, start: true, restart: false }
}

fn jump() -> InputFrame {
    InputFrame { jump: true, start: false, restart: false }
}

fn restart() -> InputFrame {
    InputFrame { jump: false, start: false, restart: true }
}

fn playing_sim() -> Simulation {
    let mut sim = Simulation::new(HALF_W, HALF_H);
    let ev = sim.tick(0, start());
    assert_eq!(sim.state, GameState::Playing);
    assert!(!ev.jumped && !ev.collision && !ev.out_of_bounds);
    assert!(ev.spawned.is_none());
    assert_eq!(ev.scores.len(), 0);
    sim
}

fn hover_pipe(x: i64, scored: bool) -> Pipe {
    // A pipe far below the bird's path: never overlaps a bird near y = 0.
    Pipe { x, y: -400_000_000, width: 52_000_000, height: 320_000_000, scored }
}

#[test]
fn menu_start_enters_playing() {
    let mut sim = Simulation::new(HALF_W, HALF_H);
    assert_eq!(sim.state, GameState::MainMenu);
    let ev = sim.tick(16, start());
    assert_eq!(sim.state, GameState::Playing);
    assert_eq!(sim.bird.x, 0);
    assert_eq!(sim.bird.y, 0);
    assert_eq!(sim.bird.velocity, Velocity { x: 0, y: 0 });
    assert_eq!(sim.score.score, 0);
    assert_eq!(sim.pipes.pipes.len(), 0);
    assert_eq!(sim.pipes.timer.acc_ms, 0);
    assert!(!ev.jumped && ev.spawned.is_none() && ev.scores.is_empty());
}

#[test]
fn menu_ignores_other_input() {
    let mut sim = Simulation::new(HALF_W, HALF_H);
    let _ = sim.tick(16, jump());
    let _ = sim.tick(16, restart());
    assert_eq!(sim.state, GameState::MainMenu);
    assert_eq!(sim.bird.y, 0);
}

#[test]
fn gravity_tick_exact_values() {
    // gravity 1000 u/s^2, dt 0.1 s: velocity.y becomes -100 u/s and the
    // position drops by 10 u.
    let mut sim = playing_sim();
    assert_eq!(sim.bird.gravity, Gravity(1000));
    let ev = sim.tick(100, idle());
    assert_eq!(sim.bird.velocity.y, -100_000);
    assert_eq!(sim.bird.y, -10_000_000);
    assert_eq!(sim.state, GameState::Playing);
    assert!(!ev.collision && !ev.out_of_bounds);
    assert_eq!(sim.score.score, 0);
}

#[test]
fn gravity_decrement_accumulates() {
    let mut sim = playing_sim();
    let _ = sim.tick(50, idle());
    assert_eq!(sim.bird.velocity.y, -50_000);
    let _ = sim.tick(50, idle());
    assert_eq!(sim.bird.velocity.y, -100_000);
}

#[test]
fn jump_overwrites_any_velocity() {
    let mut sim = playing_sim();
    let _ = sim.tick(200, idle());
    assert_eq!(sim.bird.velocity.y, -200_000);
    let ev = sim.tick(100, jump());
    // The launch is an assignment, untouched by this tick's gravity.
    assert_eq!(sim.bird.velocity.y, LAUNCH_SPEED);
    assert!(ev.jumped);
    // The position moves by the launch velocity over the same tick.
    assert_eq!(sim.bird.y, -40_000_000 + 300_000 * 100);
}

#[test]
fn zero_dt_changes_nothing_physical() {
    let mut sim = playing_sim();
    let _ = sim.tick(0, idle());
    assert_eq!(sim.bird.velocity.y, 0);
    assert_eq!(sim.bird.y, 0);
    assert_eq!(sim.pipes.timer.acc_ms, 0);
}

#[test]
fn spawn_after_one_period() {
    let mut sim = playing_sim();
    // Jump on each tick keeps the bird well inside the bounds.
    let ev1 = sim.tick(500, jump());
    assert!(ev1.spawned.is_none());
    assert_eq!(sim.pipes.pipes.len(), 0);
    let ev2 = sim.tick(500, jump());
    let upper_y = ev2.spawned.expect("the timer accumulated one full period");
    assert!((150_000_000..=300_000_000).contains(&upper_y));
    assert_eq!(sim.pipes.pipes.len(), 2);
    let lower = sim.pipes.pipes[0];
    let upper = sim.pipes.pipes[1];
    // Spawned at right edge + 16 u, then scrolled by this tick's movement.
    let moved_x = HALF_W + 16_000_000 - 250_000 * 500;
    assert_eq!(lower.x, moved_x);
    assert_eq!(upper.x, moved_x);
    assert_eq!(upper.y, upper_y);
    assert_eq!(upper.y - lower.y, 470_000_000);
    assert!(upper.scored);
    assert!(!lower.scored);
    assert_eq!(sim.pipes.timer.acc_ms, 0);
}

#[test]
fn spawn_carries_timer_excess() {
    let mut sim = playing_sim();
    let ev1 = sim.tick(700, jump());
    assert!(ev1.spawned.is_none());
    assert_eq!(sim.pipes.timer.acc_ms, 700);
    let ev2 = sim.tick(700, jump());
    assert!(ev2.spawned.is_some());
    assert_eq!(sim.pipes.timer.acc_ms, 400);
    // The next pair comes exactly one period after the first firing.
    let ev3 = sim.tick(600, jump());
    assert!(ev3.spawned.is_some());
    assert_eq!(sim.pipes.timer.acc_ms, 0);
}

#[test]
fn pair_spawn_position_and_gap() {
    let (lower, upper) = make_pipe_pair(200_000_000, HALF_W + 16_000_000);
    assert_eq!(lower.x, HALF_W + 16_000_000);
    assert_eq!(upper.x, HALF_W + 16_000_000);
    assert_eq!(upper.y, 200_000_000);
    assert_eq!(lower.y, 200_000_000 - 320_000_000 - 150_000_000);
    assert!(upper.scored);
    assert!(!lower.scored);
}

#[test]
fn spawned_height_always_in_range() {
    for _ in 0..25 {
        let mut plugin = PipePlugin::new();
        let spawned = plugin.spawn_pipes(1_000, HALF_W);
        let upper_y = spawned.expect("a full period elapsed");
        assert!((150_000_000..=300_000_000).contains(&upper_y));
        assert_eq!(plugin.pipes[1].y, upper_y);
    }
}

#[test]
fn pass_scores_exactly_once() {
    // A lower pipe crosses the bird's column between two ticks: the score
    // rises by one on the crossing tick and never again.
    let mut sim = playing_sim();
    sim.pipes.pipes.push(hover_pipe(5_000_000, false));
    let ev = sim.tick(40, idle());
    // x moved from +5 u to -5 u; the pipe is now scored.
    assert_eq!(sim.pipes.pipes[0].x, -5_000_000);
    assert!(sim.pipes.pipes[0].scored);
    assert_eq!(ev.scores.len(), 1);
    assert_eq!(sim.score.score, 1);
    assert_eq!(sim.state, GameState::Playing);
    let ev2 = sim.tick(40, idle());
    assert_eq!(ev2.scores.len(), 0);
    assert_eq!(sim.score.score, 1);
}

#[test]
fn upper_pipe_never_scores() {
    let mut sim = playing_sim();
    sim.pipes.pipes.push(hover_pipe(5_000_000, true));
    let ev = sim.tick(40, idle());
    assert_eq!(ev.scores.len(), 0);
    assert_eq!(sim.score.score, 0);
    assert!(sim.pipes.pipes[0].scored);
}

#[test]
fn collision_ends_play_same_tick() {
    let mut sim = playing_sim();
    // A pipe centered on the bird: the boxes overlap.
    sim.pipes.pipes.push(Pipe {
        x: 0,
        y: 0,
        width: 52_000_000,
        height: 320_000_000,
        scored: true,
    });
    let ev = sim.tick(0, idle());
    assert!(ev.collision);
    assert!(!ev.out_of_bounds);
    assert_eq!(sim.state, GameState::GameOver);
}

#[test]
fn touching_boxes_do_not_collide() {
    let mut sim = playing_sim();
    // Exactly touching on the x axis: (34 + 52) / 2 = 43 u apart.
    sim.pipes.pipes.push(Pipe {
        x: 43_000_000,
        y: 0,
        width: 52_000_000,
        height: 320_000_000,
        scored: true,
    });
    let ev = sim.tick(0, idle());
    assert!(!ev.collision);
    assert_eq!(sim.state, GameState::Playing);
}

#[test]
fn out_of_bounds_ends_play_same_tick() {
    let mut sim = playing_sim();
    sim.bird.y = HALF_H + 1;
    let ev = sim.tick(0, idle());
    assert!(ev.out_of_bounds);
    assert!(!ev.collision);
    assert_eq!(sim.state, GameState::GameOver);
}

#[test]
fn below_bounds_ends_play_same_tick() {
    let mut sim = playing_sim();
    sim.bird.y = -HALF_H - 1;
    let ev = sim.tick(0, idle());
    assert!(ev.out_of_bounds);
    assert_eq!(sim.state, GameState::GameOver);
}

#[test]
fn bounds_edge_is_still_inside() {
    let mut sim = playing_sim();
    sim.bird.y = HALF_H;
    let ev = sim.tick(0, idle());
    assert!(!ev.out_of_bounds);
    assert_eq!(sim.state, GameState::Playing);
}

#[test]
fn restart_resets_round_state() {
    let mut sim = playing_sim();
    sim.bird.y = HALF_H + 1;
    sim.score.score = 7;
    sim.pipes.pipes.push(hover_pipe(50_000_000, true));
    let _ = sim.tick(0, idle());
    assert_eq!(sim.state, GameState::GameOver);
    // Input other than restart is ignored in the game-over screen.
    let _ = sim.tick(16, jump());
    assert_eq!(sim.state, GameState::GameOver);
    assert_eq!(sim.score.score, 7);
    let ev = sim.tick(16, restart());
    assert_eq!(sim.state, GameState::Playing);
    assert_eq!(sim.score.score, 0);
    assert_eq!(sim.bird.y, 0);
    assert_eq!(sim.bird.velocity, Velocity { x: 0, y: 0 });
    assert_eq!(sim.pipes.pipes.len(), 0);
    assert_eq!(sim.pipes.timer.acc_ms, 0);
    assert!(ev.scores.is_empty());
}

#[test]
fn pipes_despawn_off_screen() {
    let mut sim = playing_sim();
    // Just inside the despawn line: one more tick pushes it past.
    sim.pipes.pipes.push(hover_pipe(-HALF_W - 31_000_000, true));
    let _ = sim.tick(16, idle());
    assert_eq!(sim.pipes.pipes.len(), 0);
}

#[test]
fn pipes_move_left_at_fixed_speed() {
    let mut sim = playing_sim();
    sim.pipes.pipes.push(hover_pipe(100_000_000, true));
    let _ = sim.tick(100, idle());
    // 250 u/s for 0.1 s: 25 u.
    assert_eq!(sim.pipes.pipes[0].x, 75_000_000);
}

#[test]
fn score_update_counts_events() {
    let mut score = ScorePlugin::new();
    let events = vec![
        flappy_core::bird::AddScoreEvent,
        flappy_core::bird::AddScoreEvent,
        flappy_core::bird::AddScoreEvent,
    ];
    score.update(&events);
    assert_eq!(score.score, 3);
    score.reset();
    assert_eq!(score.score, 0);
}

#[test]
fn well_formed_accepts_and_rejects() {
    let sim = Simulation::new(HALF_W, HALF_H);
    assert!(sim.is_well_formed());
    let mut bad = Simulation::new(HALF_W, HALF_H);
    bad.bird.velocity.y = 2_000_000_000_000;
    assert!(!bad.is_well_formed());
    let mut bad_pipe = Simulation::new(HALF_W, HALF_H);
    bad_pipe.pipes.pipes.push(Pipe {
        x: 2_000_000_000_000_000,
        y: 0,
        width: 1,
        height: 1,
        scored: false,
    });
    assert!(!bad_pipe.is_well_formed());
}

#[test]
fn timer_fires_on_exact_period() {
    let mut timer = RepeatTimer::new(1_000);
    assert!(!timer.tick(999));
    assert!(timer.tick(1));
    assert_eq!(timer.acc_ms, 0);
}

#[test]
fn fresh_bird_is_at_rest() {
    let bird = Bird::new();
    assert_eq!(bird.x, 0);
    assert_eq!(bird.y, 0);
    assert_eq!(bird.velocity, Velocity { x: 0, y: 0 });
    assert_eq!(bird.gravity, Gravity(GRAVITY_DEFAULT));
}
