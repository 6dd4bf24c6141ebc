use shooter::entity::{Entity, Side, SpawnRoll, TextureId};
use shooter::input::{InputState, KEY_DOWN, KEY_FIRE, KEY_LEFT, KEY_RIGHT, KEY_UP};
use shooter::stage::{init_stage, Stage};

const ROLL: SpawnRoll = SpawnRoll { x: 720, y: 300, speed: 4, delay: 0 };

fn new_stage() -> Stage {
    init_stage(TextureId { index: 0 }, 64, TextureId { index: 1 }, TextureId { index: 2 })
}

/// A stage whose player stands at `(x, y)` and where no enemy appears for a long time.
fn quiet_stage(x: i32, y: i32) -> Stage {
    let mut s = new_stage();
    s.player.x = x;
    s.player.y = y;
    s.spawn = 59;
    s
}

fn keys(held: &[u32]) -> InputState {
    let mut input = InputState::new();
    for &k in held {
        input.set(k, true);
    }
    input
}

#[test]
fn initial_stage() {
    let s = new_stage();
    assert_eq!(
        s.player,
        Entity {
            x: 32,
            y: 32,
            dx: 4,
            dy: 4,
            health: 3,
            side: Side::Player,
            reload: 0,
            texture: TextureId { index: 0 },
        }
    );
    assert!(s.bullets.is_empty());
    assert!(s.enemies.is_empty());
    assert_eq!(s.spawn, 30);
}

#[test]
fn cooldown_stays_in_range_under_sustained_fire() {
    let mut s = new_stage();
    let input = keys(&[KEY_FIRE]);
    for _ in 0..500 {
        s.tick(&input);
        assert!(s.player.reload <= 8);
    }
}

#[test]
fn fire_with_zero_cooldown_adds_one_projectile() {
    let mut s = quiet_stage(100, 200);
    s.step(&keys(&[KEY_FIRE]), &ROLL);
    assert_eq!(s.bullets.len(), 1);
    assert_eq!(s.player.reload, 8);
    assert_eq!((s.bullets[0].x, s.bullets[0].y), (116, 200));
    assert_eq!(s.bullets[0].texture, TextureId { index: 1 });
    s.step(&keys(&[KEY_FIRE]), &ROLL);
    assert_eq!(s.bullets.len(), 1);
    assert_eq!(s.player.reload, 7);
}

#[test]
fn sustained_fire_shoots_every_reload_period() {
    let mut s = quiet_stage(0, 200);
    let input = keys(&[KEY_FIRE]);
    let mut shots = Vec::new();
    for t in 1..=33 {
        let before = s.bullets.len();
        s.step(&input, &ROLL);
        if s.bullets.len() > before {
            shots.push(t);
        }
    }
    assert_eq!(shots, vec![1, 9, 17, 25, 33]);
}

#[test]
fn no_fire_without_key() {
    let mut s = quiet_stage(100, 200);
    s.step(&InputState::new(), &ROLL);
    assert!(s.bullets.is_empty());
    assert_eq!(s.player.reload, 0);
}

#[test]
fn projectile_leaves_after_forty_four_ticks() {
    let mut s = quiet_stage(100, 200);
    s.step(&keys(&[KEY_FIRE]), &ROLL);
    let idle = InputState::new();
    for _ in 1..43 {
        s.step(&idle, &ROLL);
    }
    assert_eq!(s.bullets.len(), 1);
    assert_eq!(s.bullets[0].x, 788);
    s.step(&idle, &ROLL);
    assert!(s.bullets.is_empty());
}

#[test]
fn projectile_at_bound_survives() {
    let mut s = quiet_stage(784, 200);
    s.step(&keys(&[KEY_FIRE]), &ROLL);
    assert_eq!(s.bullets.len(), 1);
    assert_eq!(s.bullets[0].x, 800);
    s.step(&InputState::new(), &ROLL);
    assert!(s.bullets.is_empty());
}

#[test]
fn diagonal_move_is_unnormalized() {
    let mut s = quiet_stage(100, 100);
    let input = keys(&[KEY_UP, KEY_LEFT]);
    s.step(&input, &ROLL);
    assert_eq!((s.player.x, s.player.y), (96, 96));
    s.step(&input, &ROLL);
    assert_eq!((s.player.x, s.player.y), (92, 92));
}

#[test]
fn opposite_keys_cancel() {
    let mut s = quiet_stage(100, 100);
    s.step(&keys(&[KEY_UP, KEY_DOWN, KEY_LEFT, KEY_RIGHT]), &ROLL);
    assert_eq!((s.player.x, s.player.y), (100, 100));
}

#[test]
fn player_position_saturates() {
    let mut s = quiet_stage(i32::MIN + 2, i32::MAX - 1);
    s.step(&keys(&[KEY_LEFT, KEY_DOWN]), &ROLL);
    assert_eq!((s.player.x, s.player.y), (i32::MIN, i32::MAX));
}

#[test]
fn releasing_key_stops_movement() {
    let mut s = quiet_stage(100, 100);
    let mut input = keys(&[KEY_RIGHT, KEY_DOWN]);
    s.step(&input, &ROLL);
    assert_eq!((s.player.x, s.player.y), (104, 104));
    input.set(KEY_RIGHT, false);
    s.step(&input, &ROLL);
    assert_eq!((s.player.x, s.player.y), (104, 108));
    input.set(KEY_DOWN, false);
    s.step(&input, &ROLL);
    s.step(&input, &ROLL);
    assert_eq!((s.player.x, s.player.y), (104, 108));
}

#[test]
fn enemy_count_never_exceeds_cap() {
    let mut s = new_stage();
    let idle = InputState::new();
    for _ in 0..3000 {
        s.tick(&idle);
        assert!(s.enemies.len() <= 5);
        assert!(s.spawn <= 59);
    }
}

#[test]
fn enemy_count_reaches_cap_and_spawning_waits() {
    let mut s = new_stage();
    let idle = InputState::new();
    let slow = SpawnRoll { x: 749, y: 100, speed: 3, delay: 0 };
    for _ in 0..180 {
        s.step(&idle, &slow);
    }
    assert_eq!(s.enemies.len(), 5);
    assert_eq!(s.spawn, 0);
    s.step(&idle, &slow);
    assert_eq!(s.enemies.len(), 5);
    assert_eq!(s.spawn, 0);
}

#[test]
fn first_spawn_after_countdown() {
    let mut s = new_stage();
    let idle = InputState::new();
    let roll = SpawnRoll { x: 710, y: 250, speed: 3, delay: 7 };
    for _ in 0..29 {
        s.step(&idle, &roll);
    }
    assert!(s.enemies.is_empty());
    assert_eq!(s.spawn, 1);
    s.step(&idle, &roll);
    assert_eq!(s.enemies.len(), 1);
    assert_eq!((s.enemies[0].x, s.enemies[0].y, s.enemies[0].dx), (707, 250, 3));
    assert_eq!(s.enemies[0].texture, TextureId { index: 2 });
    assert_eq!(s.spawn, 37);
}

#[test]
fn enemy_leaves_in_tick_two_hundred_and_one() {
    let mut s = quiet_stage(100, 100);
    s.spawn = 1;
    let idle = InputState::new();
    let roll = SpawnRoll { x: 720, y: 300, speed: 4, delay: 29 };
    s.step(&idle, &roll);
    assert_eq!(s.enemies.len(), 1);
    assert_eq!(s.enemies[0].x, 716);
    for _ in 1..199 {
        s.step(&idle, &roll);
    }
    assert_eq!(s.enemies[0].x, -76);
    s.step(&idle, &roll);
    assert_eq!(s.enemies[0].x, -80);
    s.step(&idle, &roll);
    assert!(s.enemies.iter().all(|e| e.x >= -80));
    assert_ne!(s.enemies[0].x, -84);
}

#[test]
fn health_never_changes() {
    let mut s = new_stage();
    let input = keys(&[KEY_FIRE, KEY_RIGHT]);
    for _ in 0..300 {
        s.tick(&input);
    }
    assert_eq!(s.player.health, 3);
}
