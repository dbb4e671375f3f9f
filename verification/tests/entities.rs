//! Entity-level behavior: player kinematics, obstacle motion and collision
//! boxes, bonus-item fall, dwell and consumption, and the boost arithmetic.

use monke_dino::config::{GameConfig, FLOOR_Y};
use monke_dino::player::{Player, InputState, Vec2Mpx};
use monke_dino::enemy::{Enemy, EnemyKind, EnemyUpdateResult, kind_from_draw};
use monke_dino::powerup::{PowerUp, PowerUpState};
use monke_dino::arith::mul_div;

fn test_config() -> GameConfig {
    GameConfig {
        world_width: 1_024_000,
        player_w: 32_000,
        player_h: 32_000,
        enemy_w: 32_000,
        enemy_h: 48_000,
        bird_w: 32_000,
        bird_h: 24_000,
        powerup_w: 16_000,
        powerup_h: 16_000,
    }
}

fn idle() -> InputState {
    InputState { jump: false, right: false, left: false, fast_fall: false }
}

#[test]
fn player_never_leaves_world_without_input() {
    let mut p = Player::new();
    for _ in 0..200 {
        p.update(16, idle(), 1_024_000);
        assert!(p.position.y <= FLOOR_Y);
        assert!(p.position.x >= 0 && p.position.x <= 1_024_000);
    }
    // standing still on the ground stays exactly on the ground
    assert_eq!(p.position.y, FLOOR_Y);
    assert_eq!(p.position.x, 30_000);
}

#[test]
fn player_jump_rises_then_lands() {
    let mut p = Player::new();
    let jumping = InputState { jump: true, right: false, left: false, fast_fall: false };
    p.update(16, jumping, 1_024_000);
    // jump sets vy to -700_000, gravity adds 16_000, then position integrates
    assert_eq!(p.velocity.y, -684_000);
    assert_eq!(p.position.y, FLOOR_Y - 10_944);
    let mut ticks = 0;
    while p.position.y < FLOOR_Y && ticks < 1000 {
        p.update(16, jumping, 1_024_000);
        assert!(p.position.y <= FLOOR_Y);
        ticks += 1;
    }
    assert_eq!(p.position.y, FLOOR_Y);
    assert_eq!(p.velocity.y, 0);
}

#[test]
fn player_apex_cut_zeroes_rising_velocity() {
    let mut p = Player::new();
    let jumping = InputState { jump: true, right: false, left: false, fast_fall: false };
    p.update(16, jumping, 1_024_000);
    assert!(p.velocity.y < 0);
    // releasing the jump key while rising cuts the ascent; only gravity remains
    p.update(16, idle(), 1_024_000);
    assert_eq!(p.velocity.y, 16_000);
}

#[test]
fn player_friction_fraction_is_exact() {
    let mut p = Player::new();
    p.velocity.x = 1_000_000;
    p.position.x = 100_000;
    p.update(16, idle(), 1_024_000);
    // friction: 1_000_000 * 98 / 100; then x moves by vx * 16 / 1000
    assert_eq!(p.velocity.x, 980_000);
    assert_eq!(p.position.x, 100_000 + 15_680);
}

#[test]
fn player_wraps_past_right_edge_and_clamps_left() {
    let mut p = Player::new();
    p.position.x = 1_020_000;
    p.velocity.x = 1_000_000;
    p.update(16, idle(), 1_024_000);
    assert_eq!(p.position.x, 0);

    let mut q = Player::new();
    q.position.x = 1_000;
    q.velocity.x = -1_000_000;
    q.update(16, idle(), 1_024_000);
    assert_eq!(q.position.x, 0);
}

#[test]
fn run_acceleration_is_exact_and_keys_cancel() {
    let mut p = Player::new();
    let right = InputState { jump: false, right: true, left: false, fast_fall: false };
    p.update(16, right, 1_024_000);
    // accelerate by 600 * 16, then friction: 9600 * 98 / 100 = 9408;
    // the position moves by 9408 * 16 / 1000 = 150
    assert_eq!(p.velocity.x, 9_408);
    assert_eq!(p.position.x, 30_150);

    let mut q = Player::new();
    let both = InputState { jump: false, right: true, left: true, fast_fall: false };
    q.update(16, both, 1_024_000);
    // both direction keys may be held at once; they cancel exactly
    assert_eq!(q.velocity.x, 0);
    assert_eq!(q.position.x, 30_000);
}

#[test]
fn fast_fall_doubles_gravity_pull() {
    let mut p = Player::new();
    p.position.y = 100_000;
    let falling = InputState { jump: false, right: false, left: false, fast_fall: true };
    p.update(16, falling, 1_024_000);
    assert_eq!(p.velocity.y, 32_000);
}

#[test]
fn obstacle_crosses_world_in_exact_tick_count() {
    // an obstacle spawns at world_width + 20 px and scrolls at 1500 px/s;
    // at 16 ms per tick it crosses to x < 0 in ceil(1044 / 24) = 44 ticks
    let cfg = test_config();
    let player = Player::new();
    let mut e = Enemy::new(EnemyKind::Bird, &cfg);
    assert_eq!(e.position.x, 1_044_000);
    assert_eq!(e.position.y, FLOOR_Y - 100_000);
    let mut ticks = 0;
    loop {
        let r = e.update(16, &player, &cfg);
        ticks += 1;
        assert!(r != EnemyUpdateResult::EnemyCollidePlayer);
        if r == EnemyUpdateResult::EnemyGone {
            break;
        }
        assert!(r == EnemyUpdateResult::EnemyAlive);
        assert!(ticks < 1000);
    }
    assert_eq!(ticks, 44);
    assert!(e.position.x < 0);
}

#[test]
fn ground_obstacle_spawns_on_ground_line() {
    let cfg = test_config();
    let e = Enemy::new(EnemyKind::Ground, &cfg);
    assert_eq!(e.position.x, 1_044_000);
    assert_eq!(e.position.y, FLOOR_Y);
}

#[test]
fn collision_box_coincidence_and_one_pixel_miss() {
    let cfg = test_config();
    let player = Player::new(); // box x: [30_000, 62_000), y at 480_000

    // exact coincidence: obstacle box congruent with the player's box
    let mut exact = Enemy {
        position: Vec2Mpx { x: 30_000, y: FLOOR_Y },
        velocity: Vec2Mpx { x: 0, y: 0 },
        kind: EnemyKind::Ground,
    };
    assert_eq!(exact.update(0, &player, &cfg), EnemyUpdateResult::EnemyCollidePlayer);

    // horizontal: obstacle exactly at the player's right edge misses
    // (half-open interval), and one pixel further misses too
    let mut at_edge = Enemy {
        position: Vec2Mpx { x: 62_000, y: FLOOR_Y },
        velocity: Vec2Mpx { x: 0, y: 0 },
        kind: EnemyKind::Ground,
    };
    assert_eq!(at_edge.update(0, &player, &cfg), EnemyUpdateResult::EnemyAlive);
    let mut one_px_right = Enemy {
        position: Vec2Mpx { x: 63_000, y: FLOOR_Y },
        velocity: Vec2Mpx { x: 0, y: 0 },
        kind: EnemyKind::Ground,
    };
    assert_eq!(one_px_right.update(0, &player, &cfg), EnemyUpdateResult::EnemyAlive);

    // vertical: a player exactly at the top of the obstacle's box still
    // collides (closed interval), one pixel above it misses
    let mut under_player = Enemy {
        position: Vec2Mpx { x: 30_000, y: FLOOR_Y },
        velocity: Vec2Mpx { x: 0, y: 0 },
        kind: EnemyKind::Ground,
    };
    let mut high_player = Player::new();
    high_player.position.y = FLOOR_Y - 48_000;
    assert_eq!(
        under_player.update(0, &high_player, &cfg),
        EnemyUpdateResult::EnemyCollidePlayer
    );
    let mut higher_player = Player::new();
    higher_player.position.y = FLOOR_Y - 48_000 - 1_000;
    let mut under_higher = Enemy {
        position: Vec2Mpx { x: 30_000, y: FLOOR_Y },
        velocity: Vec2Mpx { x: 0, y: 0 },
        kind: EnemyKind::Ground,
    };
    assert_eq!(
        under_higher.update(0, &higher_player, &cfg),
        EnemyUpdateResult::EnemyAlive
    );
}

#[test]
fn spawn_kind_table_is_two_to_one() {
    assert_eq!(kind_from_draw(0), EnemyKind::Ground);
    assert_eq!(kind_from_draw(1), EnemyKind::Bird);
    assert_eq!(kind_from_draw(2), EnemyKind::Ground);
}

#[test]
fn bonus_falls_at_half_gravity_and_lands() {
    let cfg = test_config();
    let player = Player::new();
    let mut pu = PowerUp::new(500_000, 0);
    let r = pu.update(16, &player, &cfg);
    assert_eq!(r, PowerUpState::PowerUpExists);
    // half gravity: vy = 500 * 16 = 8_000; y moves by 8_000 * 16 / 1000
    assert_eq!(pu.velocity_y, 8_000);
    assert_eq!(pu.position.y, 128);
    let mut ticks = 0;
    while pu.position.y < FLOOR_Y && ticks < 10_000 {
        pu.update(16, &player, &cfg);
        ticks += 1;
    }
    assert_eq!(pu.position.y, FLOOR_Y);
}

#[test]
fn bonus_expires_after_ten_seconds_on_ground() {
    let cfg = test_config();
    let player = Player::new(); // far left of the item: no overlap possible
    let mut pu = PowerUp::new(500_000, FLOOR_Y);
    // 10_000 ms of dwell, 16 ms per tick: still present through tick 625,
    // gone on tick 626 — and gone wins, it can never report consumed after
    let mut ticks = 0;
    loop {
        let r = pu.update(16, &player, &cfg);
        ticks += 1;
        if ticks <= 625 {
            assert_eq!(r, PowerUpState::PowerUpExists);
        } else {
            assert_eq!(r, PowerUpState::PowerUpGone);
            break;
        }
    }
    assert_eq!(ticks, 626);
    assert!(pu.duration < 0);
}

#[test]
fn bonus_consumed_on_overlap_even_mid_air() {
    let cfg = test_config();
    let player = Player::new();
    // directly over the player, one tick of fall keeps the boxes overlapping
    let mut pu = PowerUp::new(30_000, FLOOR_Y - 10_000);
    let r = pu.update(16, &player, &cfg);
    assert_eq!(r, PowerUpState::PowerUpConsumed);
}

#[test]
fn boost_compounds_exactly() {
    let mut p = Player::new();
    assert_eq!(p.jump_strength, 700_000);
    p.apply_boost();
    assert_eq!(p.jump_strength, 770_000);
    p.apply_boost();
    // two boosts: exactly 700_000 * 121 / 100, no drift
    assert_eq!(p.jump_strength, 847_000);
    assert_eq!(p.jump_strength, 700_000 * 121 / 100);
}

#[test]
fn scaled_multiply_divide_truncates_toward_zero() {
    assert_eq!(mul_div(1_000_000, 98, 100), 980_000);
    assert_eq!(mul_div(-1_000_000, 98, 100), -980_000);
    assert_eq!(mul_div(999, 1, 1000), 0);
    assert_eq!(mul_div(-999, 1, 1000), 0);
    assert_eq!(mul_div(0, 98, 100), 0);
}
