//! Gravity integration for anything that has a velocity: per tick the
//! vertical velocity drops by `gravity * dt`, then the vertical position
//! moves by `velocity.y * dt` (velocity first, position second, so the
//! position update always sees the velocity of the same tick).

use vstd::prelude::*;

verus! {

/// Largest magnitude a coordinate may have going into a tick, in micro-units.
pub const COORD_LIMIT: i64 = 1_000_000_000_000_000;

/// Largest magnitude a velocity component may have going into a tick,
/// in milli-units per second.
pub const VEL_LIMIT: i64 = 1_000_000_000_000;

/// Largest gravity accepted, in units per second squared.
pub const GRAV_LIMIT: i64 = 1_000_000;

/// Bound on a velocity component coming out of one tick.
pub const VEL_TICK_LIMIT: i64 = 2_000_000_000_000;

/// Bound on the vertical position coming out of one tick.
pub const POS_TICK_LIMIT: i64 = 3_000_000_000_000_000_000;

/// A 2D velocity in milli-units per second.
#[derive(Clone, Copy, Debug, PartialEq, Eq, Structural)]
pub struct Velocity {
    pub x: i64,
    pub y: i64,
}

/// Downward acceleration in units per second squared.
#[derive(Clone, Copy, Debug, PartialEq, Eq, Structural)]
pub struct Gravity(pub i64);

/// The vertical velocity after one tick. On the tick that launches a jump
/// the launch velocity is kept untouched by gravity; gravity resumes on
/// the next tick.
pub open spec fn vel_y_after(v: int, g: int, dt: int, just_launched: bool) -> int {
    if just_launched {
        v
    } else {
        v - g * dt
    }
}

/// The vertical position after one tick: it moves by the already-updated
/// velocity times the time delta (micro-units, exactly).
pub open spec fn pos_y_after(y: int, v_after: int, dt: int) -> int {
    y + v_after * dt
}

/// Zero the velocity; run on every (re)entry into play.
pub fn reset_velocity(velocity: &mut Velocity)
    ensures
        final(velocity).x == 0,
        final(velocity).y == 0,
{
    velocity.x = 0;
    velocity.y = 0;
}

/// One tick of gravity integration: update the velocity, then move the
/// position by the new velocity. `just_launched` marks a tick whose
/// velocity was set by a jump this very tick; gravity skips that tick.
pub fn update_physics(
    translation_y: &mut i64,
    velocity: &mut Velocity,
    gravity: &Gravity,
    dt: i64,
    just_launched: bool,
)
    requires
        -COORD_LIMIT <= *old(translation_y) <= COORD_LIMIT,
        -VEL_LIMIT <= old(velocity).y <= VEL_LIMIT,
        0 <= gravity.0 <= GRAV_LIMIT,
        0 <= dt <= crate::DT_LIMIT,
    ensures
        final(velocity).x == old(velocity).x,
        final(velocity).y == vel_y_after(old(velocity).y as int, gravity.0 as int, dt as int, just_launched),
        *final(translation_y) == pos_y_after(*old(translation_y) as int, final(velocity).y as int, dt as int),
        -VEL_TICK_LIMIT <= final(velocity).y <= VEL_TICK_LIMIT,
        -POS_TICK_LIMIT <= *final(translation_y) <= POS_TICK_LIMIT,
{
    assert(0 <= (gravity.0 as int) * (dt as int) <= 1_000_000_000_000) by (nonlinear_arith)
        requires
            0 <= gravity.0 <= GRAV_LIMIT,
            0 <= dt <= crate::DT_LIMIT,
    ;
    if !just_launched {
        velocity.y = velocity.y - gravity.0 * dt;
    }
    assert(-2_000_000_000_000_000_000 <= (velocity.y as int) * (dt as int)
        <= 2_000_000_000_000_000_000) by (nonlinear_arith)
        requires
            -VEL_TICK_LIMIT <= velocity.y <= VEL_TICK_LIMIT,
            0 <= dt <= crate::DT_LIMIT,
    ;
    *translation_y = *translation_y + velocity.y * dt;
}

} // verus!
