//! Obstacles: ground-level trees and aerial birds. Both scroll leftward at a
//! fixed speed that is recomputed every tick, keep their per-kind height
//! forever, and test an axis-aligned box against the player.

use vstd::prelude::*;
use crate::arith::mul_div;
use vstd::arithmetic::div_mod::lemma_div_multiples_vanish;
use crate::config::{FLOOR_Y, ENEMY_SPEED, BIRD_RAISE, SPAWN_X_LEAD, DT_MAX, V_LIM, dt_eff, GameConfig};
use crate::player::{Vec2Mpx, Player, PlayerModel};

verus! {

/// The two obstacle shapes: one on the ground line, one flying above it.
#[derive(Clone, Copy, PartialEq, Eq, Structural, Debug)]
pub enum EnemyKind {
    Ground,
    Bird,
}

/// What one obstacle tick reports back to the session.
#[derive(Clone, Copy, PartialEq, Eq, Structural, Debug)]
pub enum EnemyUpdateResult {
    /// Still on screen, no contact.
    EnemyAlive,
    /// Scrolled past the left edge; remove without effect.
    EnemyGone,
    /// Overlapped the player's box; the session ends.
    EnemyCollidePlayer,
}

/// Mathematical image of an obstacle.
pub struct EnemyModel {
    pub x: int,
    pub y: int,
    pub vx: int,
    pub kind: EnemyKind,
}

/// Width of the sprite an obstacle of this kind is drawn with.
pub open spec fn kind_width(kind: EnemyKind, cfg: GameConfig) -> int {
    match kind {
        EnemyKind::Ground => cfg.enemy_w as int,
        EnemyKind::Bird => cfg.bird_w as int,
    }
}

/// Height of the sprite an obstacle of this kind is drawn with.
pub open spec fn kind_height(kind: EnemyKind, cfg: GameConfig) -> int {
    match kind {
        EnemyKind::Ground => cfg.enemy_h as int,
        EnemyKind::Bird => cfg.bird_h as int,
    }
}

/// The fixed height an obstacle of this kind lives at.
pub open spec fn kind_spawn_y(kind: EnemyKind) -> int {
    match kind {
        EnemyKind::Ground => FLOOR_Y as int,
        EnemyKind::Bird => FLOOR_Y - BIRD_RAISE,
    }
}

impl EnemyModel {
    /// Bounds every stored obstacle satisfies; `x` may run negative only as
    /// far as one cut time step moves it.
    pub open spec fn wf(self, cfg: GameConfig) -> bool {
        &&& -V_LIM <= self.x <= cfg.world_width + SPAWN_X_LEAD
        &&& self.y == kind_spawn_y(self.kind)
        &&& 0 <= self.vx <= ENEMY_SPEED
    }
}

/// One obstacle tick over the model: the velocity is recomputed to the fixed
/// scroll speed and the position integrates it leftward.
pub open spec fn enemy_step(e: EnemyModel, dt0: int) -> EnemyModel {
    let dt = dt_eff(dt0);
    EnemyModel { x: e.x - (ENEMY_SPEED / 1000) * dt, y: e.y, vx: ENEMY_SPEED as int, kind: e.kind }
}

/// Axis-aligned box overlap between the player and an (already moved)
/// obstacle, half-open horizontally, closed vertically.
pub open spec fn enemy_hits(e: EnemyModel, p: PlayerModel, cfg: GameConfig) -> bool {
    &&& p.x + cfg.player_w > e.x
    &&& p.x < e.x + kind_width(e.kind, cfg)
    &&& p.y <= e.y
    &&& p.y >= e.y - kind_height(e.kind, cfg)
}

/// What an obstacle tick reports, judged on the moved obstacle: a collision
/// wins over scrolling out, scrolling out wins over staying alive.
pub open spec fn enemy_status(e: EnemyModel, p: PlayerModel, cfg: GameConfig) -> EnemyUpdateResult {
    if enemy_hits(e, p, cfg) {
        EnemyUpdateResult::EnemyCollidePlayer
    } else if e.x < 0 {
        EnemyUpdateResult::EnemyGone
    } else {
        EnemyUpdateResult::EnemyAlive
    }
}

/// The weighted-choice table for spawn kinds: of the three equally likely
/// draws, two map to a ground obstacle and one to an aerial one.
pub open spec fn draw_kind(d: int) -> EnemyKind {
    if d == 1 {
        EnemyKind::Bird
    } else {
        EnemyKind::Ground
    }
}

/// Maps a uniform draw from `[0, 3)` to an obstacle kind with the 2:1
/// ground-to-aerial weighting.
pub fn kind_from_draw(draw: i64) -> (r: EnemyKind)
    requires
        0 <= draw < 3,
    ensures
        r == draw_kind(draw as int),
{
    if draw == 1 {
        EnemyKind::Bird
    } else {
        EnemyKind::Ground
    }
}

/// A scrolling obstacle.
#[derive(Clone, Copy, Debug)]
pub struct Enemy {
    pub position: Vec2Mpx,
    pub velocity: Vec2Mpx,
    pub kind: EnemyKind,
}

impl View for Enemy {
    type V = EnemyModel;

    open spec fn view(&self) -> EnemyModel {
        EnemyModel {
            x: self.position.x as int,
            y: self.position.y as int,
            vx: self.velocity.x as int,
            kind: self.kind,
        }
    }
}

impl Enemy {
    /// A fresh obstacle just past the right edge of the visible world, at its
    /// kind's fixed height.
    pub fn new(kind: EnemyKind, cfg: &GameConfig) -> (r: Enemy)
        requires
            cfg.wf(),
        ensures
            r@ == (EnemyModel {
                x: cfg.world_width + SPAWN_X_LEAD,
                y: kind_spawn_y(kind),
                vx: 0,
                kind: kind,
            }),
            r@.wf(*cfg),
    {
        Enemy {
            position: Vec2Mpx {
                x: cfg.world_width + SPAWN_X_LEAD,
                y: match kind {
                    EnemyKind::Ground => FLOOR_Y,
                    EnemyKind::Bird => FLOOR_Y - BIRD_RAISE,
                },
            },
            velocity: Vec2Mpx { x: 0, y: 0 },
            kind: kind,
        }
    }

    /// Advances the obstacle by one tick and reports whether it is still
    /// alive, has scrolled out, or has hit the player.
    pub fn update(&mut self, dt_ms: i64, player: &Player, cfg: &GameConfig) -> (r: EnemyUpdateResult)
        requires
            old(self)@.wf(*cfg),
            cfg.wf(),
            player@.wf(cfg.world_width as int),
        ensures
            final(self)@ == enemy_step(old(self)@, dt_ms as int),
            r == enemy_status(final(self)@, player@, *cfg),
    {
        let dt = crate::arith::clamp_i64(dt_ms, 0, DT_MAX);
        self.velocity.x = ENEMY_SPEED;
        let shift = mul_div(self.velocity.x, dt, 1000);
        proof {
            lemma_div_multiples_vanish((ENEMY_SPEED / 1000) * dt, 1000);
            assert(ENEMY_SPEED * dt == 1000 * ((ENEMY_SPEED / 1000) * dt)) by (nonlinear_arith);
            assert(shift == (ENEMY_SPEED / 1000) * dt);
        }
        self.position.x = self.position.x - shift;

        let (width, height): (i64, i64) = match self.kind {
            EnemyKind::Ground => (cfg.enemy_w, cfg.enemy_h),
            EnemyKind::Bird => (cfg.bird_w, cfg.bird_h),
        };
        if player.position.x + cfg.player_w > self.position.x
            && player.position.x < self.position.x + width
            && player.position.y <= self.position.y
            && player.position.y >= self.position.y - height
        {
            EnemyUpdateResult::EnemyCollidePlayer
        } else if self.position.x < 0 {
            EnemyUpdateResult::EnemyGone
        } else {
            EnemyUpdateResult::EnemyAlive
        }
    }
}

} // verus!
