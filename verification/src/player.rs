//! The player: a kinematic body on the ground line that jumps, runs, and
//! fast-falls under caller-supplied input signals. One tick applies, in
//! order: jump (with an apex cut when the jump signal is released while
//! rising), horizontal acceleration, fast-fall, gravity, friction, position
//! integration, and the ground / world-edge clamps.

use vstd::prelude::*;
use crate::arith::{tdiv, clamped, mul_div, clamp_i64, lemma_tdiv_bounded};
use crate::config::{
    FLOOR_Y, GRAVITY_PER_MS, RUN_ACCEL_PER_MS, FRICTION_NUM, FRICTION_DEN,
    JUMP_STRENGTH_START, PLAYER_SPAWN_X, DT_MAX, V_LIM, Y_MIN, JS_CAP, EXTENT_MAX,
    dt_eff,
};

verus! {

/// A 2D vector in millipixels (or millipixels per second).
#[derive(Clone, Copy, PartialEq, Eq, Structural, Debug)]
pub struct Vec2Mpx {
    pub x: i64,
    pub y: i64,
}

/// The four input signals sampled once per tick.
#[derive(Clone, Copy, PartialEq, Eq, Structural, Debug)]
pub struct InputState {
    pub jump: bool,
    pub right: bool,
    pub left: bool,
    pub fast_fall: bool,
}

impl InputState {
    /// The snapshot with every signal released.
    pub fn idle() -> (r: InputState)
        ensures
            r == (InputState { jump: false, right: false, left: false, fast_fall: false }),
    {
        InputState { jump: false, right: false, left: false, fast_fall: false }
    }
}

/// Mathematical image of a player: unbounded integers in the same units.
pub struct PlayerModel {
    pub x: int,
    pub y: int,
    pub vx: int,
    pub vy: int,
    pub js: int,
}

impl PlayerModel {
    /// The bounds every stored player satisfies: inside the world
    /// horizontally, never below the ground line, velocities and jump
    /// strength within their saturation limits.
    pub open spec fn wf(self, ww: int) -> bool {
        &&& 0 <= self.x <= ww
        &&& Y_MIN <= self.y <= FLOOR_Y
        &&& -V_LIM <= self.vx <= V_LIM
        &&& -V_LIM <= self.vy <= V_LIM
        &&& 0 <= self.js <= JS_CAP
    }
}

/// Vertical velocity after the jump rule: a jump fires only from the ground;
/// releasing the jump signal while still rising cuts the ascent short.
pub open spec fn step_vy_jump(p: PlayerModel, jump: bool) -> int {
    if jump {
        if p.y == FLOOR_Y {
            -p.js
        } else {
            p.vy
        }
    } else if p.vy < 0 {
        0
    } else {
        p.vy
    }
}

/// Horizontal velocity after acceleration from the direction signals and the
/// per-tick friction factor.
pub open spec fn step_vx(vx: int, right: bool, left: bool, dt: int) -> int {
    let accelerated = vx
        + (if right { RUN_ACCEL_PER_MS * dt } else { 0 })
        - (if left { RUN_ACCEL_PER_MS * dt } else { 0 });
    tdiv(accelerated * FRICTION_NUM, FRICTION_DEN as int)
}

/// Vertical velocity after fast-fall and gravity, saturated at the velocity
/// limit.
pub open spec fn step_vy_fall(vy: int, fast_fall: bool, dt: int) -> int {
    let pulled = vy
        + (if fast_fall { GRAVITY_PER_MS * dt } else { 0 })
        + GRAVITY_PER_MS * dt;
    clamped(pulled, -V_LIM as int, V_LIM as int)
}

/// One full player tick over the mathematical model.
pub open spec fn player_step(p: PlayerModel, inp: InputState, dt0: int, ww: int) -> PlayerModel {
    let dt = dt_eff(dt0);
    let vy_jumped = step_vy_jump(p, inp.jump);
    let vx_new = step_vx(p.vx, inp.right, inp.left, dt);
    let vy_new = step_vy_fall(vy_jumped, inp.fast_fall, dt);
    let x_moved = p.x + tdiv(vx_new * dt, 1000);
    let y_moved = p.y + tdiv(vy_new * dt, 1000);
    let landed = y_moved > FLOOR_Y;
    PlayerModel {
        x: if x_moved < 0 { 0 } else if x_moved > ww { 0 } else { x_moved },
        y: if landed { FLOOR_Y as int } else if y_moved < Y_MIN { Y_MIN as int } else { y_moved },
        vx: vx_new,
        vy: if landed { 0 } else { vy_new },
        js: p.js,
    }
}

/// The jump strength after one bonus is consumed: multiplied by 11/10
/// (rounding toward zero), saturated at `JS_CAP`.
pub open spec fn boost_js(js: int) -> int {
    let grown = tdiv(js * 11, 10);
    if grown > JS_CAP { JS_CAP as int } else { grown }
}

/// The pose and strength every session starts from: standing at the spawn
/// point on the ground, at rest, with the initial jump strength.
pub open spec fn initial_player() -> PlayerModel {
    PlayerModel {
        x: PLAYER_SPAWN_X as int,
        y: FLOOR_Y as int,
        vx: 0,
        vy: 0,
        js: JUMP_STRENGTH_START as int,
    }
}

/// The controllable runner.
#[derive(Clone, Copy, Debug)]
pub struct Player {
    pub position: Vec2Mpx,
    pub velocity: Vec2Mpx,
    pub jump_strength: i64,
}

impl View for Player {
    type V = PlayerModel;

    open spec fn view(&self) -> PlayerModel {
        PlayerModel {
            x: self.position.x as int,
            y: self.position.y as int,
            vx: self.velocity.x as int,
            vy: self.velocity.y as int,
            js: self.jump_strength as int,
        }
    }
}

impl Player {
    /// A fresh player standing at the spawn point on the ground.
    pub fn new() -> (r: Player)
        ensures
            r@ == initial_player(),
    {
        Player {
            position: Vec2Mpx { x: PLAYER_SPAWN_X, y: FLOOR_Y },
            velocity: Vec2Mpx { x: 0, y: 0 },
            jump_strength: JUMP_STRENGTH_START,
        }
    }

    /// Advances the player by one tick of `dt_ms` milliseconds (negative
    /// steps simulate nothing, over-long steps are cut at `DT_MAX`) under the
    /// given input signals, inside a world `world_width` wide.
    pub fn update(&mut self, dt_ms: i64, input: InputState, world_width: i64)
        requires
            old(self)@.wf(world_width as int),
            0 < world_width <= EXTENT_MAX,
        ensures
            final(self)@ == player_step(old(self)@, input, dt_ms as int, world_width as int),
            final(self)@.wf(world_width as int),
    {
        let dt = clamp_i64(dt_ms, 0, DT_MAX);

        // Jump, or cut the ascent when the signal is released while rising.
        if input.jump {
            if self.position.y == FLOOR_Y {
                self.velocity.y = -self.jump_strength;
            }
        } else if self.velocity.y < 0 {
            self.velocity.y = 0;
        }

        // Horizontal acceleration from the direction signals.
        let accel = RUN_ACCEL_PER_MS * dt;
        let mut vx = self.velocity.x;
        if input.right {
            vx = vx + accel;
        }
        if input.left {
            vx = vx - accel;
        }

        // Fast-fall, then the unconditional gravity pull.
        let pull = GRAVITY_PER_MS * dt;
        let mut vy = self.velocity.y;
        if input.fast_fall {
            vy = vy + pull;
        }
        vy = vy + pull;
        vy = clamp_i64(vy, -V_LIM, V_LIM);

        // Friction on the horizontal velocity.
        proof {
            lemma_tdiv_bounded(vx * FRICTION_NUM, FRICTION_DEN as int, V_LIM as int);
        }
        vx = mul_div(vx, FRICTION_NUM, FRICTION_DEN);
        self.velocity.x = vx;
        self.velocity.y = vy;

        // Integrate the position.
        proof {
            assert(vx * dt <= 1_000_000_000_000_000_000
                && -1_000_000_000_000_000_000 <= vx * dt) by (nonlinear_arith)
                requires -1_000_000_000_000 <= vx <= 1_000_000_000_000, 0 <= dt <= 1_000_000
            ;
            assert(vy * dt <= 1_000_000_000_000_000_000
                && -1_000_000_000_000_000_000 <= vy * dt) by (nonlinear_arith)
                requires -1_000_000_000_000 <= vy <= 1_000_000_000_000, 0 <= dt <= 1_000_000
            ;
            lemma_tdiv_bounded(vx * dt, 1000, 1_000_000_000_000_000);
            lemma_tdiv_bounded(vy * dt, 1000, 1_000_000_000_000_000);
        }
        self.position.x = self.position.x + mul_div(vx, dt, 1000);
        self.position.y = self.position.y + mul_div(vy, dt, 1000);

        // Land on the ground line; clamp runaway ascent; wrap at the edges.
        if self.position.y > FLOOR_Y {
            self.position.y = FLOOR_Y;
            self.velocity.y = 0;
        } else if self.position.y < Y_MIN {
            self.position.y = Y_MIN;
        }
        if self.position.x < 0 {
            self.position.x = 0;
        } else if self.position.x > world_width {
            self.position.x = 0;
        }
    }

    /// Applies one bonus consumption: the jump strength grows by the factor
    /// 11/10, saturated at `JS_CAP`.
    pub fn apply_boost(&mut self)
        requires
            0 <= old(self).jump_strength <= JS_CAP,
        ensures
            final(self)@.js == boost_js(old(self)@.js),
            final(self)@ == (PlayerModel { js: boost_js(old(self)@.js), ..old(self)@ }),
            0 <= final(self)@.js <= JS_CAP,
    {
        let grown = mul_div(self.jump_strength, 11, 10);
        proof {
            lemma_tdiv_bounded(self.jump_strength * 11, 10, JS_CAP as int * 2);
        }
        self.jump_strength = if grown > JS_CAP { JS_CAP } else { grown };
    }
}

} // verus!
