//! The bonus item: a body that falls under half-strength gravity, dwells on
//! the ground for a limited time once landed, and is consumed on box overlap
//! with the player — in the air or on the ground.

use vstd::prelude::*;
use crate::arith::{tdiv, clamped, mul_div, clamp_i64, lemma_tdiv_bounded};
use crate::config::{
    FLOOR_Y, HALF_GRAVITY_PER_MS, POWERUP_DURATION, DT_MAX, V_LIM, EXTENT_MAX, dt_eff, GameConfig,
};
use crate::player::{Vec2Mpx, Player, PlayerModel};

verus! {

/// What one bonus-item tick reports back to the session.
#[derive(Clone, Copy, PartialEq, Eq, Structural, Debug)]
pub enum PowerUpState {
    /// Still present, no event.
    PowerUpExists,
    /// Its ground-dwell time ran out; remove without effect.
    PowerUpGone,
    /// The player touched it; remove it and boost the jump strength.
    PowerUpConsumed,
}

/// Mathematical image of a bonus item.
pub struct PowerUpModel {
    pub x: int,
    pub y: int,
    pub vy: int,
    pub dur: int,
}

impl PowerUpModel {
    /// Bounds every stored bonus item satisfies: it only ever falls
    /// (non-negative vertical speed), never sinks below the ground line, and
    /// its remaining dwell time never exceeds the full allowance.
    pub open spec fn wf(self) -> bool {
        &&& 0 <= self.x <= EXTENT_MAX
        &&& 0 <= self.y <= FLOOR_Y
        &&& 0 <= self.vy <= V_LIM
        &&& -V_LIM <= self.dur <= POWERUP_DURATION
    }
}

/// One bonus-item tick over the model: half-strength gravity, integration,
/// and — only when resting on the ground — the dwell-time countdown.
pub open spec fn powerup_step(pu: PowerUpModel, dt0: int) -> PowerUpModel {
    let dt = dt_eff(dt0);
    let vy = clamped(pu.vy + HALF_GRAVITY_PER_MS * dt, -V_LIM as int, V_LIM as int);
    let y_moved = pu.y + tdiv(vy * dt, 1000);
    if y_moved > FLOOR_Y {
        PowerUpModel { x: pu.x, y: FLOOR_Y as int, vy: vy, dur: pu.dur - dt }
    } else {
        PowerUpModel { x: pu.x, y: y_moved, vy: vy, dur: pu.dur }
    }
}

/// Box overlap between the player and an (already moved) bonus item.
pub open spec fn powerup_overlap(pu: PowerUpModel, p: PlayerModel, cfg: GameConfig) -> bool {
    &&& p.x + cfg.player_w > pu.x
    &&& p.x < pu.x + cfg.powerup_w
    &&& p.y - cfg.player_h <= pu.y
    &&& p.y >= pu.y - cfg.powerup_h
}

/// What a bonus-item tick reports, judged on the moved item: expiry wins
/// over consumption, consumption wins over merely existing.
pub open spec fn powerup_status(pu: PowerUpModel, p: PlayerModel, cfg: GameConfig) -> PowerUpState {
    if pu.dur < 0 {
        PowerUpState::PowerUpGone
    } else if powerup_overlap(pu, p, cfg) {
        PowerUpState::PowerUpConsumed
    } else {
        PowerUpState::PowerUpExists
    }
}

/// A falling bonus item.
#[derive(Clone, Copy, Debug)]
pub struct PowerUp {
    pub position: Vec2Mpx,
    pub velocity_y: i64,
    pub duration: i64,
}

impl View for PowerUp {
    type V = PowerUpModel;

    open spec fn view(&self) -> PowerUpModel {
        PowerUpModel {
            x: self.position.x as int,
            y: self.position.y as int,
            vy: self.velocity_y as int,
            dur: self.duration as int,
        }
    }
}

impl PowerUp {
    /// A fresh bonus item at rest at the given point, with its full ground
    /// dwell allowance.
    pub fn new(x: i64, y: i64) -> (r: PowerUp)
        requires
            0 <= x <= EXTENT_MAX,
            0 <= y <= FLOOR_Y,
        ensures
            r@ == (PowerUpModel { x: x as int, y: y as int, vy: 0, dur: POWERUP_DURATION as int }),
            r@.wf(),
    {
        PowerUp { position: Vec2Mpx { x: x, y: y }, velocity_y: 0, duration: POWERUP_DURATION }
    }

    /// Advances the bonus item by one tick and reports whether it still
    /// exists, has expired on the ground, or has been consumed by the player.
    pub fn update(&mut self, dt_ms: i64, player: &Player, cfg: &GameConfig) -> (r: PowerUpState)
        requires
            old(self)@.wf(),
            cfg.wf(),
            player@.wf(cfg.world_width as int),
        ensures
            final(self)@ == powerup_step(old(self)@, dt_ms as int),
            r == powerup_status(final(self)@, player@, *cfg),
    {
        let dt = clamp_i64(dt_ms, 0, DT_MAX);
        self.velocity_y = clamp_i64(self.velocity_y + HALF_GRAVITY_PER_MS * dt, -V_LIM, V_LIM);
        proof {
            assert(self.velocity_y * dt <= 1_000_000_000_000_000_000
                && -1_000_000_000_000_000_000 <= self.velocity_y * dt) by (nonlinear_arith)
                requires
                    -1_000_000_000_000 <= self.velocity_y <= 1_000_000_000_000,
                    0 <= dt <= 1_000_000,
            ;
            lemma_tdiv_bounded(self.velocity_y * dt, 1000, 1_000_000_000_000_000);
        }
        self.position.y = self.position.y + mul_div(self.velocity_y, dt, 1000);
        if self.position.y > FLOOR_Y {
            self.position.y = FLOOR_Y;
            self.duration = self.duration - dt;
        }

        if self.duration < 0 {
            PowerUpState::PowerUpGone
        } else if player.position.x + cfg.player_w > self.position.x
            && player.position.x < self.position.x + cfg.powerup_w
            && player.position.y - cfg.player_h <= self.position.y
            && player.position.y >= self.position.y - cfg.powerup_h
        {
            PowerUpState::PowerUpConsumed
        } else {
            PowerUpState::PowerUpExists
        }
    }
}

} // verus!
