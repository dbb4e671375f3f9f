//! The session controller. One tick advances the spawn countdown and the
//! score, possibly spawns an obstacle, moves the player, sweeps the obstacle
//! and bonus collections (dropping finished ones and flagging collisions and
//! consumption), applies the consumption boost, possibly spawns a bonus item,
//! and reports whether the session continues.

use vstd::prelude::*;
use rand::rngs::SmallRng;
use vstd::arithmetic::div_mod::lemma_div_pos_is_pos;
use crate::arith::clamp_i64;
use crate::config::{
    SPAWN_X_LEAD, SPAWN_WAIT_MIN, SPAWN_WAIT_MAX, POWERUP_DURATION, SCORE_RATE,
    BONUS_SCORE_STEP, DT_MAX, SCORE_CAP, dt_eff, GameConfig,
};
use crate::player::{Player, PlayerModel, InputState, player_step, boost_js};
use crate::enemy::{
    Enemy, EnemyModel, EnemyKind, EnemyUpdateResult, enemy_step, enemy_status, enemy_hits,
    kind_spawn_y, kind_from_draw,
};
use crate::powerup::{PowerUp, PowerUpModel, PowerUpState, powerup_step, powerup_status};
use crate::rng::{rng_from_seed, rng_range};

verus! {

/// Whether the session continues after a tick.
#[derive(Clone, Copy, PartialEq, Eq, Structural, Debug)]
pub enum GameResult {
    GameGoing,
    GameOver,
}

/// The models of a sequence of obstacles.
pub open spec fn enemy_views(s: Seq<Enemy>) -> Seq<EnemyModel> {
    s.map_values(|e: Enemy| e@)
}

/// The models of a sequence of bonus items.
pub open spec fn powerup_views(s: Seq<PowerUp>) -> Seq<PowerUpModel> {
    s.map_values(|pu: PowerUp| pu@)
}

/// The obstacle sweep: every obstacle moved by one tick, keeping exactly
/// those that report themselves still alive against the moved player.
pub open spec fn enemies_swept(
    s: Seq<EnemyModel>,
    p: PlayerModel,
    cfg: GameConfig,
    dt: int,
) -> Seq<EnemyModel>
    decreases s.len(),
{
    if s.len() == 0 {
        Seq::empty()
    } else {
        let rest = enemies_swept(s.drop_last(), p, cfg, dt);
        let moved = enemy_step(s.last(), dt);
        if enemy_status(moved, p, cfg) == EnemyUpdateResult::EnemyAlive {
            rest.push(moved)
        } else {
            rest
        }
    }
}

/// Whether any obstacle, once moved, overlaps the moved player this tick.
pub open spec fn any_enemy_hits(s: Seq<EnemyModel>, p: PlayerModel, cfg: GameConfig, dt: int) -> bool
    decreases s.len(),
{
    if s.len() == 0 {
        false
    } else {
        any_enemy_hits(s.drop_last(), p, cfg, dt) || enemy_hits(enemy_step(s.last(), dt), p, cfg)
    }
}

/// The bonus sweep: every item moved by one tick, keeping exactly those that
/// report themselves still present (neither expired nor consumed).
pub open spec fn powerups_swept(
    s: Seq<PowerUpModel>,
    p: PlayerModel,
    cfg: GameConfig,
    dt: int,
) -> Seq<PowerUpModel>
    decreases s.len(),
{
    if s.len() == 0 {
        Seq::empty()
    } else {
        let rest = powerups_swept(s.drop_last(), p, cfg, dt);
        let moved = powerup_step(s.last(), dt);
        if powerup_status(moved, p, cfg) == PowerUpState::PowerUpExists {
            rest.push(moved)
        } else {
            rest
        }
    }
}

/// Whether any bonus item, once moved, is consumed by the moved player this
/// tick.
pub open spec fn any_powerup_consumed(
    s: Seq<PowerUpModel>,
    p: PlayerModel,
    cfg: GameConfig,
    dt: int,
) -> bool
    decreases s.len(),
{
    if s.len() == 0 {
        false
    } else {
        any_powerup_consumed(s.drop_last(), p, cfg, dt)
            || powerup_status(powerup_step(s.last(), dt), p, cfg) == PowerUpState::PowerUpConsumed
    }
}

/// The player after the consumption boost.
pub open spec fn boosted(p: PlayerModel) -> PlayerModel {
    PlayerModel { js: boost_js(p.js), ..p }
}

/// The score saturated at its cap.
pub open spec fn sat_score(s: int) -> int {
    if s > SCORE_CAP {
        SCORE_CAP as int
    } else {
        s
    }
}

/// Whether this tick's countdown has run out, so that an obstacle spawns.
pub open spec fn spawn_due(countdown: int, dt0: int) -> bool {
    countdown - dt_eff(dt0) < 0
}

/// Whether a bonus item spawns: the integer score is a multiple of the bonus
/// step and no item survives the sweep.
pub open spec fn bonus_due(score: int, items: int) -> bool {
    (score / 1000) % (BONUS_SCORE_STEP as int) == 0 && items < 1
}

/// The obstacle a spawn creates: just past the right edge, at its kind's
/// height, before its first tick.
pub open spec fn spawn_enemy_model(cfg: GameConfig, kind: EnemyKind) -> EnemyModel {
    EnemyModel {
        x: cfg.world_width + SPAWN_X_LEAD,
        y: kind_spawn_y(kind),
        vx: 0,
        kind: kind,
    }
}

/// One tick's effect on the obstacle collection and the session outcome,
/// given that a spawn of kind `k` happened first.
pub open spec fn tick_spawning(
    old_enemies: Seq<EnemyModel>,
    cfg: GameConfig,
    k: EnemyKind,
    p1: PlayerModel,
    dt: int,
    enemies_out: Seq<EnemyModel>,
    over: bool,
) -> bool {
    let base = old_enemies.push(spawn_enemy_model(cfg, k));
    &&& enemies_out == enemies_swept(base, p1, cfg, dt)
    &&& (over <==> any_enemy_hits(base, p1, cfg, dt))
}

/// Mathematical image of a whole session.
pub struct GameModel {
    pub player: PlayerModel,
    pub enemies: Seq<EnemyModel>,
    pub powerups: Seq<PowerUpModel>,
    pub countdown: int,
    pub score: int,
}

/// A session: the player, the live obstacle and bonus collections, the spawn
/// countdown, the score, and the session-owned random source.
pub struct Game {
    player: Player,
    enemies: Vec<Enemy>,
    powerups: Vec<PowerUp>,
    rng: SmallRng,
    time_until_spawn: i64,
    score: i64,
    cfg: GameConfig,
}

impl View for Game {
    type V = GameModel;

    closed spec fn view(&self) -> GameModel {
        GameModel {
            player: self.player@,
            enemies: enemy_views(self.enemies@),
            powerups: powerup_views(self.powerups@),
            countdown: self.time_until_spawn as int,
            score: self.score as int,
        }
    }
}

/// Everything swept obstacles keep: their bounds and a non-negative position.
proof fn lemma_enemies_swept_props(s: Seq<EnemyModel>, p: PlayerModel, cfg: GameConfig, dt: int)
    requires
        forall|j: int| 0 <= j < s.len() ==> (#[trigger] s[j]).wf(cfg) && s[j].x >= 0,
    ensures
        enemies_swept(s, p, cfg, dt).len() <= s.len(),
        forall|j: int| 0 <= j < enemies_swept(s, p, cfg, dt).len()
            ==> (#[trigger] enemies_swept(s, p, cfg, dt)[j]).wf(cfg)
                && enemies_swept(s, p, cfg, dt)[j].x >= 0,
    decreases s.len(),
{
    if s.len() > 0 {
        lemma_enemies_swept_props(s.drop_last(), p, cfg, dt);
    }
}

/// Everything swept bonus items keep: their bounds and a non-negative
/// remaining dwell time.
proof fn lemma_powerups_swept_props(s: Seq<PowerUpModel>, p: PlayerModel, cfg: GameConfig, dt: int)
    requires
        forall|j: int| 0 <= j < s.len() ==> (#[trigger] s[j]).wf() && s[j].dur >= 0,
    ensures
        powerups_swept(s, p, cfg, dt).len() <= s.len(),
        forall|j: int| 0 <= j < powerups_swept(s, p, cfg, dt).len()
            ==> (#[trigger] powerups_swept(s, p, cfg, dt)[j]).wf()
                && powerups_swept(s, p, cfg, dt)[j].dur >= 0,
    decreases s.len(),
{
    if s.len() > 0 {
        lemma_powerups_swept_props(s.drop_last(), p, cfg, dt);
        let last = s.last();
        let moved = powerup_step(last, dt);
        let dtc = dt_eff(dt);
        assert(moved.vy * dtc >= 0) by (nonlinear_arith)
            requires moved.vy >= 0, dtc >= 0
        ;
        lemma_div_pos_is_pos(moved.vy * dtc, 1000);
    }
}

impl Game {
    /// The session's fixed world geometry.
    pub closed spec fn spec_cfg(&self) -> GameConfig {
        self.cfg
    }

    /// The bounds every session maintains across ticks.
    pub closed spec fn wf(&self) -> bool {
        &&& self.cfg.wf()
        &&& self.player@.wf(self.cfg.world_width as int)
        &&& 0 <= self.time_until_spawn < SPAWN_WAIT_MAX
        &&& 0 <= self.score <= SCORE_CAP
        &&& self.powerups@.len() <= 1
        &&& forall|j: int| 0 <= j < self.enemies@.len()
            ==> (#[trigger] self.enemies@[j])@.wf(self.cfg) && self.enemies@[j]@.x >= 0
        &&& forall|j: int| 0 <= j < self.powerups@.len()
            ==> (#[trigger] self.powerups@[j])@.wf() && self.powerups@[j]@.dur >= 0
    }

    /// A fresh session: the player at the spawn point, no obstacles, no bonus
    /// items, the countdown ready to fire, score zero, and a random source
    /// built from the seed.
    pub fn new(cfg: GameConfig, seed: u64) -> (r: Game)
        requires
            cfg.wf(),
        ensures
            r.wf(),
            r.spec_cfg() == cfg,
            r@.player == crate::player::initial_player(),
            r@.enemies.len() == 0,
            r@.powerups.len() == 0,
            r@.countdown == 0,
            r@.score == 0,
    {
        Game {
            player: Player::new(),
            enemies: Vec::new(),
            powerups: Vec::new(),
            rng: rng_from_seed(seed),
            time_until_spawn: 0,
            score: 0,
            cfg: cfg,
        }
    }

    /// Current score in millipoints.
    pub fn score_millipoints(&self) -> (r: i64)
        ensures
            r == self@.score,
    {
        self.score
    }

    /// Current integer score in points.
    pub fn score_points(&self) -> (r: i64)
        requires
            self.wf(),
        ensures
            r == self@.score / 1000,
    {
        ((self.score as u64) / 1000) as i64
    }

    /// Current player pose.
    pub fn player(&self) -> (r: Player)
        ensures
            r@ == self@.player,
    {
        self.player
    }

    /// The live obstacles.
    pub fn enemies(&self) -> (r: &Vec<Enemy>)
        ensures
            enemy_views(r@) == self@.enemies,
    {
        &self.enemies
    }

    /// The live bonus items (at most one).
    pub fn powerups(&self) -> (r: &Vec<PowerUp>)
        ensures
            powerup_views(r@) == self@.powerups,
    {
        &self.powerups
    }

    /// Milliseconds left on the obstacle-spawn countdown.
    pub fn spawn_countdown_ms(&self) -> (r: i64)
        ensures
            r == self@.countdown,
    {
        self.time_until_spawn
    }

    /// The session's world geometry.
    pub fn config(&self) -> (r: GameConfig)
        ensures
            r == self.spec_cfg(),
    {
        self.cfg
    }

    /// Advances the whole session by one tick of `dt_ms` milliseconds under
    /// the given input snapshot, and reports whether the session continues.
    /// A collision with any obstacle ends the session; the caller stops
    /// calling once `GameOver` is returned.
    pub fn update(&mut self, dt_ms: i64, input: InputState) -> (r: GameResult)
        requires
            old(self).wf(),
        ensures
            final(self).wf(),
            final(self).spec_cfg() == old(self).spec_cfg(),
            final(self)@.score == sat_score(old(self)@.score + SCORE_RATE * dt_eff(dt_ms as int)),
            final(self)@.score >= old(self)@.score,
            dt_eff(dt_ms as int) > 0 && old(self)@.score < SCORE_CAP
                ==> final(self)@.score > old(self)@.score,
            spawn_due(old(self)@.countdown, dt_ms as int)
                ==> SPAWN_WAIT_MIN <= final(self)@.countdown < SPAWN_WAIT_MAX,
            !spawn_due(old(self)@.countdown, dt_ms as int)
                ==> final(self)@.countdown == old(self)@.countdown - dt_eff(dt_ms as int),
            ({
                let cfg = old(self).spec_cfg();
                let p1 = player_step(
                    old(self)@.player,
                    input,
                    dt_ms as int,
                    cfg.world_width as int,
                );
                let consumed = any_powerup_consumed(old(self)@.powerups, p1, cfg, dt_ms as int);
                let pu1 = powerups_swept(old(self)@.powerups, p1, cfg, dt_ms as int);
                &&& final(self)@.player == (if consumed { boosted(p1) } else { p1 })
                &&& (if spawn_due(old(self)@.countdown, dt_ms as int) {
                    tick_spawning(
                        old(self)@.enemies, cfg, EnemyKind::Ground, p1, dt_ms as int,
                        final(self)@.enemies, r == GameResult::GameOver,
                    ) || tick_spawning(
                        old(self)@.enemies, cfg, EnemyKind::Bird, p1, dt_ms as int,
                        final(self)@.enemies, r == GameResult::GameOver,
                    )
                } else {
                    &&& final(self)@.enemies == enemies_swept(old(self)@.enemies, p1, cfg, dt_ms as int)
                    &&& (r == GameResult::GameOver
                        <==> any_enemy_hits(old(self)@.enemies, p1, cfg, dt_ms as int))
                })
                &&& (if bonus_due(final(self)@.score, pu1.len() as int) {
                    &&& final(self)@.powerups.len() == pu1.len() + 1
                    &&& final(self)@.powerups == pu1.push(PowerUpModel {
                        x: final(self)@.powerups.last().x,
                        y: 0,
                        vy: 0,
                        dur: POWERUP_DURATION as int,
                    })
                    &&& 0 <= final(self)@.powerups.last().x < cfg.world_width - cfg.powerup_w
                } else {
                    final(self)@.powerups == pu1
                })
            }),
    {
        let ghost cfg = self.cfg;
        let ghost m0 = self@;
        let dt = clamp_i64(dt_ms, 0, DT_MAX);

        // Countdown and score advance every tick, whatever else happens.
        self.time_until_spawn = self.time_until_spawn - dt;
        let grown = self.score + SCORE_RATE * dt;
        self.score = if grown > SCORE_CAP { SCORE_CAP } else { grown };

        // Obstacle spawn: reset the countdown and add one obstacle at the
        // right edge, of a kind drawn from the weighted table.
        let ghost spawning = self.time_until_spawn < 0;
        if self.time_until_spawn < 0 {
            self.time_until_spawn = rng_range(&mut self.rng, SPAWN_WAIT_MIN, SPAWN_WAIT_MAX);
            let draw = rng_range(&mut self.rng, 0, 3);
            let kind = kind_from_draw(draw);
            let spawned = Enemy::new(kind, &self.cfg);
            self.enemies.push(spawned);
            proof {
                assert(enemy_views(self.enemies@)
                    =~= m0.enemies.push(spawn_enemy_model(cfg, kind)));
            }
        }
        let ghost base: Seq<EnemyModel> = enemy_views(self.enemies@);
        let ghost spawn_kind: EnemyKind = if self.enemies@.len() > m0.enemies.len() {
            self.enemies@.last()@.kind
        } else {
            EnemyKind::Ground
        };

        // The player moves before anything is tested against it.
        self.player.update(dt, input, self.cfg.world_width);
        let ghost p1 = self.player@;

        // Sweep the obstacles: drop the ones that scrolled out, note any
        // collision (the sweep still completes), drop the colliding one too.
        let mut kept: Vec<Enemy> = Vec::new();
        let mut hit = false;
        let n = self.enemies.len();
        let mut i: usize = 0;
        while i < n
            invariant
                i <= n,
                n == self.enemies.len(),
                0 <= dt <= DT_MAX,
                dt == dt_eff(dt_ms as int),
                base == enemy_views(self.enemies@),
                forall|j: int| 0 <= j < self.enemies@.len()
                    ==> (#[trigger] self.enemies@[j])@.wf(cfg) && self.enemies@[j]@.x >= 0,
                self.cfg == cfg,
                cfg.wf(),
                self.player@ == p1,
                p1.wf(cfg.world_width as int),
                enemy_views(kept@) == enemies_swept(base.take(i as int), p1, cfg, dt_ms as int),
                hit == any_enemy_hits(base.take(i as int), p1, cfg, dt_ms as int),
            decreases n - i,
        {
            let mut e = self.enemies[i];
            let res = e.update(dt, &self.player, &self.cfg);
            proof {
                assert(base.take(i + 1).drop_last() =~= base.take(i as int));
                assert(base.take(i + 1).last() == base[i as int]);
                assert(enemy_step(base[i as int], dt as int)
                    == enemy_step(base[i as int], dt_ms as int));
            }
            match res {
                EnemyUpdateResult::EnemyAlive => {
                    kept.push(e);
                    proof {
                        assert(enemy_views(kept@) =~= enemies_swept(
                            base.take(i + 1), p1, cfg, dt_ms as int));
                    }
                },
                EnemyUpdateResult::EnemyGone => {},
                EnemyUpdateResult::EnemyCollidePlayer => {
                    hit = true;
                },
            }
            i = i + 1;
        }
        proof {
            assert(base.take(n as int) =~= base);
        }
        self.enemies = kept;

        // Sweep the bonus items: drop expired ones, note a consumption.
        let mut kept_items: Vec<PowerUp> = Vec::new();
        let mut consumed = false;
        let np = self.powerups.len();
        let mut ip: usize = 0;
        let ghost pu_base: Seq<PowerUpModel> = powerup_views(self.powerups@);
        while ip < np
            invariant
                ip <= np,
                np == self.powerups.len(),
                0 <= dt <= DT_MAX,
                dt == dt_eff(dt_ms as int),
                pu_base == powerup_views(self.powerups@),
                forall|j: int| 0 <= j < self.powerups@.len()
                    ==> (#[trigger] self.powerups@[j])@.wf() && self.powerups@[j]@.dur >= 0,
                self.cfg == cfg,
                cfg.wf(),
                self.player@ == p1,
                p1.wf(cfg.world_width as int),
                powerup_views(kept_items@) == powerups_swept(pu_base.take(ip as int), p1, cfg, dt_ms as int),
                consumed == any_powerup_consumed(pu_base.take(ip as int), p1, cfg, dt_ms as int),
            decreases np - ip,
        {
            let mut item = self.powerups[ip];
            let res = item.update(dt, &self.player, &self.cfg);
            proof {
                assert(pu_base.take(ip + 1).drop_last() =~= pu_base.take(ip as int));
                assert(pu_base.take(ip + 1).last() == pu_base[ip as int]);
                assert(powerup_step(pu_base[ip as int], dt as int)
                    == powerup_step(pu_base[ip as int], dt_ms as int));
            }
            match res {
                PowerUpState::PowerUpExists => {
                    kept_items.push(item);
                    proof {
                        assert(powerup_views(kept_items@) =~= powerups_swept(
                            pu_base.take(ip + 1), p1, cfg, dt_ms as int));
                    }
                },
                PowerUpState::PowerUpGone => {},
                PowerUpState::PowerUpConsumed => {
                    consumed = true;
                },
            }
            ip = ip + 1;
        }
        proof {
            assert(pu_base.take(np as int) =~= pu_base);
            lemma_powerups_swept_props(pu_base, p1, cfg, dt_ms as int);
        }
        self.powerups = kept_items;

        // Consumption strengthens the next jumps.
        if consumed {
            self.player.apply_boost();
        }

        // Bonus spawn: only on a round score, and only if no item remains.
        let points = (self.score as u64) / 1000;
        if points % (BONUS_SCORE_STEP as u64) == 0 && self.powerups.len() < 1 {
            let upper = self.cfg.world_width - self.cfg.powerup_w;
            let bonus_x = rng_range(&mut self.rng, 0, upper);
            let fresh = PowerUp::new(bonus_x, 0);
            self.powerups.push(fresh);
            proof {
                assert(powerup_views(self.powerups@)
                    =~= powerups_swept(pu_base, p1, cfg, dt_ms as int).push(fresh@));
            }
        }

        proof {
            lemma_enemies_swept_props(base, p1, cfg, dt_ms as int);
            let swept = enemies_swept(base, p1, cfg, dt_ms as int);
            assert(enemy_views(self.enemies@) == swept);
            assert forall|j: int| 0 <= j < self.enemies@.len()
                implies (#[trigger] self.enemies@[j])@.wf(cfg) && self.enemies@[j]@.x >= 0 by {
                assert(self.enemies@[j]@ == enemy_views(self.enemies@)[j]);
                assert(swept[j].wf(cfg) && swept[j].x >= 0);
            }
            let pu_swept = powerups_swept(pu_base, p1, cfg, dt_ms as int);
            assert forall|j: int| 0 <= j < self.powerups@.len()
                implies (#[trigger] self.powerups@[j])@.wf() && self.powerups@[j]@.dur >= 0 by {
                assert(self.powerups@[j]@ == powerup_views(self.powerups@)[j]);
                if j < pu_swept.len() {
                    assert(pu_swept[j].wf() && pu_swept[j].dur >= 0);
                }
            }
            if spawning {
                assert(tick_spawning(
                    m0.enemies, cfg, spawn_kind, p1, dt_ms as int,
                    enemy_views(self.enemies@),
                    hit,
                ));
            }
        }

        if hit {
            GameResult::GameOver
        } else {
            GameResult::GameGoing
        }
    }
}

} // verus!
