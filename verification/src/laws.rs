//! Session-wide guarantees, stated over the tick models and proved once and
//! for all: the player never leaves the world, the score never falls, every
//! obstacle eventually scrolls out without touching a separated player, a
//! landed bonus item expires on schedule, and the consumption boost compounds
//! exactly.

use vstd::prelude::*;
use vstd::arithmetic::div_mod::{
    lemma_fundamental_div_mod, lemma_mod_bound, lemma_div_by_multiple, lemma_div_pos_is_pos,
};
use crate::arith::lemma_tdiv_bounded;
use crate::config::{
    FLOOR_Y, DT_MAX, V_LIM, JS_CAP, SCORE_RATE, SCORE_CAP, EXTENT_MAX, ENEMY_SPEED,
    dt_eff, GameConfig,
};
use crate::player::{PlayerModel, InputState, player_step, boost_js};
use crate::enemy::{EnemyModel, EnemyUpdateResult, enemy_step, enemy_status, enemy_hits, kind_height};
use crate::powerup::{PowerUpModel, PowerUpState, powerup_step, powerup_status, powerup_overlap};
use crate::game::sat_score;

verus! {

/// The player after `n` identical ticks.
pub open spec fn player_iter(p: PlayerModel, inp: InputState, dt: int, ww: int, n: nat) -> PlayerModel
    decreases n,
{
    if n == 0 {
        p
    } else {
        player_step(player_iter(p, inp, dt, ww, (n - 1) as nat), inp, dt, ww)
    }
}

/// An obstacle after `n` identical ticks.
pub open spec fn enemy_iter(e: EnemyModel, dt: int, n: nat) -> EnemyModel
    decreases n,
{
    if n == 0 {
        e
    } else {
        enemy_step(enemy_iter(e, dt, (n - 1) as nat), dt)
    }
}

/// A bonus item after `n` identical ticks.
pub open spec fn powerup_iter(pu: PowerUpModel, dt: int, n: nat) -> PowerUpModel
    decreases n,
{
    if n == 0 {
        pu
    } else {
        powerup_step(powerup_iter(pu, dt, (n - 1) as nat), dt)
    }
}

/// One tick keeps the player inside its bounds, whatever the inputs and
/// whatever the time step.
pub proof fn lemma_player_step_wf(p: PlayerModel, inp: InputState, dt: int, ww: int)
    requires
        p.wf(ww),
        0 < ww <= EXTENT_MAX,
    ensures
        player_step(p, inp, dt, ww).wf(ww),
{
    let dtc = dt_eff(dt);
    let accelerated = p.vx
        + (if inp.right { crate::config::RUN_ACCEL_PER_MS * dtc } else { 0 })
        - (if inp.left { crate::config::RUN_ACCEL_PER_MS * dtc } else { 0 });
    lemma_tdiv_bounded(accelerated * crate::config::FRICTION_NUM, crate::config::FRICTION_DEN as int, V_LIM as int);
}

/// Law: however long it runs and whatever it is told — in particular with no
/// input at all — the simulation never puts the player below the ground line
/// nor outside the world's horizontal span.
pub proof fn law_player_stays_in_world(p: PlayerModel, inp: InputState, dt: int, ww: int, n: nat)
    requires
        p.wf(ww),
        0 < ww <= EXTENT_MAX,
    ensures
        player_iter(p, inp, dt, ww, n).wf(ww),
        player_iter(p, inp, dt, ww, n).y <= FLOOR_Y,
        0 <= player_iter(p, inp, dt, ww, n).x <= ww,
    decreases n,
{
    if n > 0 {
        law_player_stays_in_world(p, inp, dt, ww, (n - 1) as nat);
        lemma_player_step_wf(player_iter(p, inp, dt, ww, (n - 1) as nat), inp, dt, ww);
    }
}

/// Law: the score never falls from one tick to the next, and genuinely grows
/// on every tick that simulates any time at all (until the saturation cap).
pub proof fn law_score_monotonic(score: int, dt: int)
    requires
        0 <= score <= SCORE_CAP,
    ensures
        sat_score(score + SCORE_RATE * dt_eff(dt)) >= score,
        dt_eff(dt) > 0 && score < SCORE_CAP
            ==> sat_score(score + SCORE_RATE * dt_eff(dt)) > score,
{
}

/// The position an obstacle reaches after `n` ticks, in closed form: its
/// height and kind never change and it moves left by a fixed amount per tick.
pub proof fn lemma_enemy_iter_pos(e: EnemyModel, dt: int, n: nat)
    ensures
        enemy_iter(e, dt, n).x == e.x - (ENEMY_SPEED / 1000) * dt_eff(dt) * n,
        enemy_iter(e, dt, n).y == e.y,
        enemy_iter(e, dt, n).kind == e.kind,
    decreases n,
{
    if n > 0 {
        let m: nat = (n - 1) as nat;
        lemma_enemy_iter_pos(e, dt, m);
        let step = (ENEMY_SPEED / 1000) * dt_eff(dt);
        assert(step * m + step == step * n) by (nonlinear_arith)
            requires m + 1 == n
        ;
    }
}

/// Law: an obstacle left to scroll, against a player standing vertically
/// clear of its box, never reports a collision and eventually reports itself
/// gone past the left edge.
pub proof fn law_obstacle_eventually_gone(e: EnemyModel, p: PlayerModel, cfg: GameConfig, dt: int)
    requires
        1 <= dt,
        p.y > e.y || p.y < e.y - kind_height(e.kind, cfg),
    ensures
        forall|n: nat| n >= 1
            ==> enemy_status(#[trigger] enemy_iter(e, dt, n), p, cfg)
                != EnemyUpdateResult::EnemyCollidePlayer,
        exists|n: nat| n >= 1
            && enemy_status(#[trigger] enemy_iter(e, dt, n), p, cfg)
                == EnemyUpdateResult::EnemyGone,
{
    let dtc = dt_eff(dt);
    let step = (ENEMY_SPEED / 1000) * dtc;
    assert(1500 <= step <= 1500 * DT_MAX) by (nonlinear_arith)
        requires step == 1500 * dtc, 1 <= dtc <= DT_MAX
    ;
    assert forall|n: nat| n >= 1
        implies enemy_status(#[trigger] enemy_iter(e, dt, n), p, cfg)
            != EnemyUpdateResult::EnemyCollidePlayer by {
        lemma_enemy_iter_pos(e, dt, n);
        assert(!enemy_hits(enemy_iter(e, dt, n), p, cfg));
    }
    let n0: nat = if e.x < 0 { 1 } else { (e.x / step + 1) as nat };
    lemma_enemy_iter_pos(e, dt, n0);
    if e.x < 0 {
        assert(step * 1 == step) by (nonlinear_arith);
        assert(enemy_iter(e, dt, n0).x < 0);
    } else {
        lemma_fundamental_div_mod(e.x, step);
        lemma_mod_bound(e.x, step);
        lemma_div_pos_is_pos(e.x, step);
        assert(step * n0 == step * (e.x / step) + step) by (nonlinear_arith)
            requires n0 == e.x / step + 1
        ;
        assert(e.x - step * n0 < 0);
    }
    assert(enemy_status(enemy_iter(e, dt, n0), p, cfg) == EnemyUpdateResult::EnemyGone);
}

/// One tick of a bonus item resting on the ground with real downward speed:
/// it stays on the ground, keeps at least that speed, and its dwell time
/// falls by exactly the simulated step.
pub proof fn lemma_powerup_grounded_step(pu: PowerUpModel, dt: int)
    requires
        pu.y == FLOOR_Y,
        1000 <= pu.vy <= V_LIM,
        1 <= dt,
    ensures
        powerup_step(pu, dt).y == FLOOR_Y,
        1000 <= powerup_step(pu, dt).vy <= V_LIM,
        powerup_step(pu, dt).dur == pu.dur - dt_eff(dt),
        powerup_step(pu, dt).x == pu.x,
{
    let dtc = dt_eff(dt);
    let vy = crate::arith::clamped(pu.vy + crate::config::HALF_GRAVITY_PER_MS * dtc, -V_LIM as int, V_LIM as int);
    assert(vy * dtc >= 1000) by (nonlinear_arith)
        requires vy >= 1000, dtc >= 1
    ;
    assert((vy * dtc) / 1000 >= 1) by {
        lemma_fundamental_div_mod(vy * dtc, 1000);
        lemma_mod_bound(vy * dtc, 1000);
        assert(1000 * ((vy * dtc) / 1000) == vy * dtc - (vy * dtc) % 1000);
    }
}

/// Law: a bonus item resting on the ground, with the player horizontally
/// clear of it, is never consumed; once the ticks have simulated more
/// cumulative time than its dwell allowance, it reports itself gone — and a
/// gone item is dropped from the session, so it cannot fire again.
pub proof fn law_bonus_expires(pu: PowerUpModel, p: PlayerModel, cfg: GameConfig, dt: int)
    requires
        pu.wf(),
        pu.y == FLOOR_Y,
        1000 <= pu.vy,
        1 <= dt,
        p.x + cfg.player_w <= pu.x || p.x >= pu.x + cfg.powerup_w,
    ensures
        forall|n: nat| #[trigger] powerup_iter(pu, dt, n).y == FLOOR_Y
            && powerup_iter(pu, dt, n).dur == pu.dur - n * dt_eff(dt),
        forall|n: nat| n >= 1
            ==> powerup_status(#[trigger] powerup_iter(pu, dt, n), p, cfg)
                != PowerUpState::PowerUpConsumed,
        exists|n: nat| n >= 1
            && powerup_status(#[trigger] powerup_iter(pu, dt, n), p, cfg)
                == PowerUpState::PowerUpGone,
{
    let dtc = dt_eff(dt);
    assert forall|n: nat| #[trigger] powerup_iter(pu, dt, n).y == FLOOR_Y
        && powerup_iter(pu, dt, n).dur == pu.dur - n * dt_eff(dt)
        && 1000 <= powerup_iter(pu, dt, n).vy <= V_LIM
        && powerup_iter(pu, dt, n).x == pu.x by {
        lemma_powerup_iter_grounded(pu, dt, n);
    }
    assert forall|n: nat| n >= 1
        implies powerup_status(#[trigger] powerup_iter(pu, dt, n), p, cfg)
            != PowerUpState::PowerUpConsumed by {
        lemma_powerup_iter_grounded(pu, dt, n);
        assert(!powerup_overlap(powerup_iter(pu, dt, n), p, cfg));
    }
    let n0: nat = if pu.dur < 0 { 1 } else { (pu.dur / dtc + 1) as nat };
    lemma_powerup_iter_grounded(pu, dt, n0);
    if pu.dur < 0 {
        assert(dtc * 1 == dtc) by (nonlinear_arith);
        assert(powerup_iter(pu, dt, n0).dur < 0);
    } else {
        lemma_fundamental_div_mod(pu.dur, dtc);
        lemma_mod_bound(pu.dur, dtc);
        lemma_div_pos_is_pos(pu.dur, dtc);
        assert(n0 * dtc == dtc * (pu.dur / dtc) + dtc) by (nonlinear_arith)
            requires n0 == pu.dur / dtc + 1
        ;
        assert(powerup_iter(pu, dt, n0).dur < 0);
    }
    assert(powerup_status(powerup_iter(pu, dt, n0), p, cfg) == PowerUpState::PowerUpGone);
}

/// The grounded bonus item after `n` ticks: still on the ground, still
/// falling at speed, its dwell time down by exactly `n` simulated steps.
proof fn lemma_powerup_iter_grounded(pu: PowerUpModel, dt: int, n: nat)
    requires
        pu.y == FLOOR_Y,
        1000 <= pu.vy <= V_LIM,
        1 <= dt,
    ensures
        powerup_iter(pu, dt, n).y == FLOOR_Y,
        1000 <= powerup_iter(pu, dt, n).vy <= V_LIM,
        powerup_iter(pu, dt, n).dur == pu.dur - n * dt_eff(dt),
        powerup_iter(pu, dt, n).x == pu.x,
    decreases n,
{
    let dtc = dt_eff(dt);
    if n > 0 {
        let m: nat = (n - 1) as nat;
        lemma_powerup_iter_grounded(pu, dt, m);
        lemma_powerup_grounded_step(powerup_iter(pu, dt, m), dt);
        assert((pu.dur - m * dtc) - dtc == pu.dur - n * dtc) by (nonlinear_arith)
            requires m + 1 == n
        ;
    } else {
        assert(n * dtc == 0) by (nonlinear_arith)
            requires n == 0
        ;
    }
}

/// Law: consuming one bonus multiplies the jump strength by exactly 11/10,
/// and consuming two compounds to exactly 121/100 — no rounding drift — for
/// any strength that is a whole multiple of 100 and clear of the saturation
/// cap (the initial strength and its first several boosts all qualify).
pub proof fn law_boost_compounds_exactly(js: int)
    requires
        0 <= js,
        js % 100 == 0,
        js * 121 <= JS_CAP * 100,
    ensures
        boost_js(js) == js * 11 / 10,
        10 * boost_js(js) == 11 * js,
        boost_js(boost_js(js)) == js * 121 / 100,
        100 * boost_js(boost_js(js)) == 121 * js,
{
    lemma_fundamental_div_mod(js, 100);
    let k = js / 100;
    lemma_div_pos_is_pos(js, 100);
    assert(js == 100 * k);
    assert(js * 11 == (110 * k) * 10) by (nonlinear_arith)
        requires js == 100 * k
    ;
    lemma_div_by_multiple(110 * k, 10);
    assert(boost_js(js) == 110 * k);
    assert((110 * k) * 11 == (121 * k) * 10) by (nonlinear_arith);
    lemma_div_by_multiple(121 * k, 10);
    assert(boost_js(110 * k) == 121 * k);
    assert(js * 121 == (121 * k) * 100) by (nonlinear_arith)
        requires js == 100 * k
    ;
    lemma_div_by_multiple(121 * k, 100);
}

} // verus!
