//! World constants and the per-session configuration: the visible world width
//! and the sprite extents that size every collision box. Lengths are in
//! millipixels (1 pixel = 1000 millipixels, 1 design meter = 100 pixels),
//! times in milliseconds, velocities in millipixels per second.

use vstd::prelude::*;
use crate::arith::clamped;

verus! {

/// Ground line of the world (480 px).
pub const FLOOR_Y: i64 = 480_000;
/// Gravity, expressed as the velocity gained per millisecond
/// (10 m/s^2 = 1_000_000 millipixels/s^2).
pub const GRAVITY_PER_MS: i64 = 1000;
/// Half-strength gravity used by the falling bonus item.
pub const HALF_GRAVITY_PER_MS: i64 = 500;
/// Horizontal run acceleration per millisecond (6 m/s^2).
pub const RUN_ACCEL_PER_MS: i64 = 600;
/// Numerator of the per-tick horizontal friction factor.
pub const FRICTION_NUM: i64 = 98;
/// Denominator of the per-tick horizontal friction factor.
pub const FRICTION_DEN: i64 = 100;
/// Initial jump strength (7 m/s = 700_000 millipixels/s).
pub const JUMP_STRENGTH_START: i64 = 700_000;
/// Leftward obstacle speed (1500 px/s), recomputed every tick.
pub const ENEMY_SPEED: i64 = 1_500_000;
/// Height of an aerial obstacle above the ground line (100 px).
pub const BIRD_RAISE: i64 = 100_000;
/// How far past the right edge an obstacle spawns (20 px).
pub const SPAWN_X_LEAD: i64 = 20_000;
/// Shortest wait before the next obstacle spawn, in ms.
pub const SPAWN_WAIT_MIN: i64 = 1500;
/// Exclusive upper bound on the wait before the next obstacle spawn, in ms.
pub const SPAWN_WAIT_MAX: i64 = 2000;
/// How long a landed bonus item lasts before it expires (10 s).
pub const POWERUP_DURATION: i64 = 10_000;
/// Score gained per millisecond, in millipoints (20 points per second).
pub const SCORE_RATE: i64 = 20;
/// A bonus item may spawn whenever the integer score is a multiple of this.
pub const BONUS_SCORE_STEP: i64 = 500;
/// Largest time step a single tick simulates; longer steps are cut here.
pub const DT_MAX: i64 = 1_000_000;
/// Saturation bound on every velocity component.
pub const V_LIM: i64 = 1_000_000_000_000;
/// Saturation bound on how far above the world a body may travel.
pub const Y_MIN: i64 = -1_000_000_000_000_000;
/// Saturation bound on the jump strength.
pub const JS_CAP: i64 = 100_000_000_000;
/// Saturation bound on the score, in millipoints.
pub const SCORE_CAP: i64 = 1_000_000_000_000_000_000;
/// Largest accepted world width or sprite extent (10_000 px).
pub const EXTENT_MAX: i64 = 10_000_000;
/// Where the player starts horizontally (30 px).
pub const PLAYER_SPAWN_X: i64 = 30_000;

/// Per-session world geometry: the visible width and the sprite extents used
/// for collision boxes and spawn bounds, all in millipixels.
#[derive(Clone, Copy)]
pub struct GameConfig {
    /// Width of the visible world; the player wraps past it.
    pub world_width: i64,
    pub player_w: i64,
    pub player_h: i64,
    /// Extents of a ground obstacle's sprite.
    pub enemy_w: i64,
    pub enemy_h: i64,
    /// Extents of an aerial obstacle's sprite.
    pub bird_w: i64,
    pub bird_h: i64,
    pub powerup_w: i64,
    pub powerup_h: i64,
}

impl GameConfig {
    /// Every extent is positive and small enough for the fixed-point
    /// arithmetic; a bonus item fits inside the world horizontally.
    pub open spec fn wf(self) -> bool {
        &&& PLAYER_SPAWN_X <= self.world_width <= EXTENT_MAX
        &&& 0 < self.player_w <= EXTENT_MAX
        &&& 0 < self.player_h <= EXTENT_MAX
        &&& 0 < self.enemy_w <= EXTENT_MAX
        &&& 0 < self.enemy_h <= EXTENT_MAX
        &&& 0 < self.bird_w <= EXTENT_MAX
        &&& 0 < self.bird_h <= EXTENT_MAX
        &&& 0 < self.powerup_w < self.world_width
        &&& 0 < self.powerup_h <= EXTENT_MAX
    }
}

/// The time step a tick actually simulates: negative steps mean no motion,
/// and over-long steps are cut at `DT_MAX`.
pub open spec fn dt_eff(dt: int) -> int {
    clamped(dt, 0, DT_MAX as int)
}

} // verus!
