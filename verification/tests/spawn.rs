use quad_rand::RandGenerator;
use space_shooter::shape::Shape;
use space_shooter::spawn::{
    new_enemy, should_spawn, spawn_on_roll, spawn_tick, ENEMY_COLOR, ENEMY_SIZE_MAX, ENEMY_SIZE_MIN,
    ENEMY_SPEED_MAX, ENEMY_SPEED_MIN, SPAWN_ROLL_HIGH, SPAWN_ROLL_LOW, SPAWN_THRESHOLD,
};
use space_shooter::units::{pixels, UNITS_PER_PIXEL};

const SCREEN_WIDTH: i32 = 1280 * UNITS_PER_PIXEL;

fn seeded(seed: u64) -> RandGenerator {
    let rng = RandGenerator::new();
    rng.srand(seed);
    rng
}

#[test]
fn spawn_constants_are_those_of_the_game() {
    assert_eq!((SPAWN_ROLL_LOW, SPAWN_ROLL_HIGH, SPAWN_THRESHOLD), (0, 99, 95));
    assert_eq!((ENEMY_SIZE_MIN, ENEMY_SIZE_MAX), (pixels(16), pixels(64)));
    assert_eq!((ENEMY_SPEED_MIN, ENEMY_SPEED_MAX), (100, 300));
    assert_eq!(ENEMY_COLOR, 0xbe1d47);
}

#[test]
fn a_roll_spawns_from_the_threshold_on() {
    assert!(!should_spawn(0));
    assert!(!should_spawn(94));
    assert!(should_spawn(95));
    assert!(should_spawn(98));
    assert!(should_spawn(99));
    assert!(!should_spawn(i32::MIN));
    assert!(should_spawn(i32::MAX));
}

#[test]
fn a_new_enemy_starts_half_its_size_above_the_top() {
    let e = new_enemy(pixels(32), 200, pixels(77));
    assert_eq!(
        e,
        Shape { size: pixels(32), speed: 200, x: pixels(77), y: pixels(-16), color: ENEMY_COLOR }
    );
    assert_eq!(new_enemy(ENEMY_SIZE_MIN, 100, 0).y, pixels(-8));
    assert_eq!(new_enemy(ENEMY_SIZE_MAX, 300, 0).y, pixels(-32));
    assert_eq!(new_enemy(2, 1, -9).y, -1);
    assert_eq!(new_enemy(i32::MAX, 1, 0).y, -i32::MAX + i32::MAX / 2);
}

#[test]
fn spawn_tick_appends_what_it_returns_or_nothing() {
    let rng = seeded(7);
    let mut pool: Vec<Shape> = Vec::new();
    for _ in 0..2000 {
        let before = pool.clone();
        match spawn_tick(&rng, &mut pool, SCREEN_WIDTH) {
            Some(e) => {
                assert_eq!(pool.len(), before.len() + 1);
                assert_eq!(pool[..before.len()], before[..]);
                assert_eq!(pool[before.len()], e);
            }
            None => assert_eq!(pool, before),
        }
    }
    assert!(!pool.is_empty());
}

#[test]
fn every_spawned_enemy_is_within_the_ranges() {
    let rng = seeded(2024);
    let mut pool: Vec<Shape> = Vec::new();
    for _ in 0..5000 {
        spawn_tick(&rng, &mut pool, SCREEN_WIDTH);
    }
    assert!(pool.len() > 50);
    for e in &pool {
        assert!(ENEMY_SIZE_MIN <= e.size && e.size <= ENEMY_SIZE_MAX);
        assert_eq!(e.size % 2, 0);
        assert!(ENEMY_SPEED_MIN <= e.speed && e.speed <= ENEMY_SPEED_MAX);
        assert!(e.size / 2 <= e.x && e.x <= SCREEN_WIDTH - e.size / 2);
        assert_eq!(e.y, -e.size / 2);
        assert_eq!(e.color, ENEMY_COLOR);
        assert!(e.is_well_formed());
    }
}

#[test]
fn spawned_enemies_differ_from_one_another() {
    let rng = seeded(99);
    let mut pool: Vec<Shape> = Vec::new();
    for _ in 0..5000 {
        spawn_tick(&rng, &mut pool, SCREEN_WIDTH);
    }
    let first = pool[0];
    assert!(pool.iter().any(|e| e.size != first.size));
    assert!(pool.iter().any(|e| e.speed != first.speed));
    assert!(pool.iter().any(|e| e.x != first.x));
    assert!(pool.iter().any(|e| e.size > ENEMY_SIZE_MIN));
    assert!(pool.iter().any(|e| e.speed > ENEMY_SPEED_MIN));
    assert!(pool.iter().any(|e| e.x > e.size / 2));
    assert!(pool.iter().any(|e| e.x > SCREEN_WIDTH / 2));
    assert!(pool.iter().any(|e| e.x < SCREEN_WIDTH / 2));
}

#[test]
fn on_the_narrowest_screen_the_largest_enemy_has_one_place() {
    let rng = seeded(5);
    let mut pool: Vec<Shape> = Vec::new();
    for _ in 0..3000 {
        spawn_tick(&rng, &mut pool, ENEMY_SIZE_MAX);
    }
    assert!(!pool.is_empty());
    for e in &pool {
        assert!(e.size / 2 <= e.x && e.x <= ENEMY_SIZE_MAX - e.size / 2);
    }
}

#[test]
fn about_one_frame_in_twenty_spawns() {
    let rng = seeded(123_456_789);
    let frames = 200_000;
    let mut spawns = 0;
    let mut pool: Vec<Shape> = Vec::new();
    for _ in 0..frames {
        if spawn_tick(&rng, &mut pool, SCREEN_WIDTH).is_some() {
            spawns += 1;
        }
        pool.clear();
    }
    let fraction = f64::from(spawns) / f64::from(frames);
    assert!(0.03 < fraction && fraction < 0.06, "fraction of frames that spawn: {fraction}");
}

#[test]
fn the_same_seed_gives_the_same_enemies() {
    let mut first: Vec<Shape> = Vec::new();
    let mut second: Vec<Shape> = Vec::new();
    let rng = seeded(42);
    for _ in 0..1000 {
        spawn_tick(&rng, &mut first, SCREEN_WIDTH);
    }
    let rng = seeded(42);
    for _ in 0..1000 {
        spawn_tick(&rng, &mut second, SCREEN_WIDTH);
    }
    assert_eq!(first, second);
    assert!(!first.is_empty());
}

#[test]
fn a_roll_under_the_threshold_leaves_the_pool_alone() {
    let rng = seeded(11);
    let first = new_enemy(pixels(32), 200, pixels(77));
    let mut pool = vec![first];
    for roll in [i32::MIN, -1, 0, 1, 50, 94] {
        assert_eq!(spawn_on_roll(&rng, &mut pool, SCREEN_WIDTH, roll), None);
        assert_eq!(pool, vec![first]);
    }
}

#[test]
fn a_roll_from_the_threshold_on_appends_one_enemy() {
    let rng = seeded(11);
    let first = new_enemy(pixels(32), 200, pixels(77));
    let mut pool = vec![first];
    for (count, roll) in [95, 96, 98, 99, 100, i32::MAX].into_iter().enumerate() {
        let spawned = spawn_on_roll(&rng, &mut pool, SCREEN_WIDTH, roll);
        let e = spawned.unwrap();
        assert_eq!(pool.len(), count + 2);
        assert_eq!(pool[0], first);
        assert_eq!(pool[count + 1], e);
        assert!(ENEMY_SIZE_MIN <= e.size && e.size <= ENEMY_SIZE_MAX);
        assert_eq!(e.size % 2, 0);
        assert!(ENEMY_SPEED_MIN <= e.speed && e.speed <= ENEMY_SPEED_MAX);
        assert!(e.size / 2 <= e.x && e.x <= SCREEN_WIDTH - e.size / 2);
        assert_eq!(e.y, -e.size / 2);
        assert_eq!(e.color, ENEMY_COLOR);
    }
}
