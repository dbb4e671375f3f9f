//! Session-level behavior: scoring, spawn scheduling, the bonus-spawn rule,
//! degenerate time steps, and the running-to-over transition.

use monke_dino::config::{GameConfig, FLOOR_Y};
use monke_dino::game::{Game, GameResult};
use monke_dino::player::InputState;

fn test_config() -> GameConfig {
    GameConfig {
        world_width: 1_024_000,
        player_w: 32_000,
        player_h: 32_000,
        enemy_w: 32_000,
        enemy_h: 48_000,
        bird_w: 32_000,
        bird_h: 24_000,
        powerup_w: 16_000,
        powerup_h: 16_000,
    }
}

fn idle() -> InputState {
    InputState { jump: false, right: false, left: false, fast_fall: false }
}

#[test]
fn score_accumulates_exactly_and_monotonically() {
    let mut g = Game::new(test_config(), 7);
    assert_eq!(g.score_millipoints(), 0);
    let mut last = 0;
    for _ in 0..50 {
        g.update(16, idle());
        let s = g.score_millipoints();
        // 20 millipoints per millisecond: strictly increasing by 320 a tick
        assert_eq!(s, last + 320);
        assert!(s > last);
        last = s;
    }
    assert_eq!(g.score_points(), 16); // 50 * 320 = 16_000 millipoints
}

#[test]
fn zero_and_negative_steps_are_tolerated() {
    let mut g = Game::new(test_config(), 7);
    let r0 = g.update(0, idle());
    assert_eq!(r0, GameResult::GameGoing);
    assert_eq!(g.score_millipoints(), 0);
    let r1 = g.update(-25, idle());
    assert_eq!(r1, GameResult::GameGoing);
    assert_eq!(g.score_millipoints(), 0);
    // no time passed: the countdown never fired, so nothing spawned
    assert_eq!(g.enemies().len(), 0);
    let p = g.player();
    assert_eq!(p.position.x, 30_000);
    assert_eq!(p.position.y, FLOOR_Y);
}

#[test]
fn first_tick_spawns_an_obstacle_and_a_bonus() {
    let mut g = Game::new(test_config(), 42);
    let r = g.update(16, idle());
    assert_eq!(r, GameResult::GameGoing);
    // the countdown started at zero, so one obstacle spawned and moved once
    assert_eq!(g.enemies().len(), 1);
    let e = &g.enemies()[0];
    assert_eq!(e.position.x, 1_044_000 - 24_000);
    // integer score 0 is a multiple of 500 and no item existed: one spawned
    assert_eq!(g.powerups().len(), 1);
    let pu = &g.powerups()[0];
    assert_eq!(pu.position.y, 0);
    assert!(pu.position.x >= 0 && pu.position.x < 1_024_000 - 16_000);
    assert_eq!(pu.duration, 10_000);
    // the countdown was redrawn from [1500, 2000)
    assert!(g.spawn_countdown_ms() >= 1500 && g.spawn_countdown_ms() < 2000);
}

#[test]
fn at_most_one_bonus_item_exists() {
    let mut g = Game::new(test_config(), 3);
    for _ in 0..20 {
        g.update(16, idle());
        assert!(g.powerups().len() <= 1);
    }
    // integer score stays far below 500, an item exists from the first tick
    assert_eq!(g.powerups().len(), 1);
}

#[test]
fn spawn_countdown_is_drawn_from_the_window() {
    // across many seeds the redrawn countdown always lands in [1500, 2000)
    // and takes more than one value
    let mut seen_values = Vec::new();
    for seed in 0..24u64 {
        let mut g = Game::new(test_config(), seed);
        g.update(16, idle());
        let cd = g.spawn_countdown_ms();
        assert!(cd >= 1500 && cd < 2000);
        if !seen_values.contains(&cd) {
            seen_values.push(cd);
        }
    }
    assert!(seen_values.len() >= 2);
}

#[test]
fn bonus_positions_vary_with_the_seed() {
    let mut seen = Vec::new();
    for seed in 100..124u64 {
        let mut g = Game::new(test_config(), seed);
        g.update(16, idle());
        let x = g.powerups()[0].position.x;
        assert!(x >= 0 && x < 1_024_000 - 16_000);
        if !seen.contains(&x) {
            seen.push(x);
        }
    }
    assert!(seen.len() >= 2);
}

#[test]
fn an_idle_session_eventually_ends_on_a_ground_obstacle() {
    let mut g = Game::new(test_config(), 11);
    let mut over = false;
    for _ in 0..40_000 {
        if g.update(16, idle()) == GameResult::GameOver {
            over = true;
            break;
        }
    }
    // a grounded, motionless player cannot dodge ground obstacles forever
    assert!(over);
    assert!(g.score_millipoints() > 0);
}

#[test]
fn config_round_trips_through_the_session() {
    let cfg = test_config();
    let g = Game::new(cfg, 0);
    let back = g.config();
    assert_eq!(back.world_width, cfg.world_width);
    assert_eq!(back.player_w, cfg.player_w);
    assert_eq!(back.powerup_h, cfg.powerup_h);
}
