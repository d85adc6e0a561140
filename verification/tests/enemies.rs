use space_shooter::enemies::{advance_enemies, advanceable, cull_enemies, is_retained};
use space_shooter::shape::Shape;
use space_shooter::spawn::{new_enemy, ENEMY_COLOR};
use space_shooter::units::{pixels, TICKS_PER_SECOND, UNITS_PER_PIXEL};

const HEIGHT: i32 = 720 * UNITS_PER_PIXEL;

fn enemy(size_px: i16, speed: i32, y: i32) -> Shape {
    Shape::new(pixels(size_px), speed, pixels(100), y, ENEMY_COLOR)
}

#[test]
fn advance_adds_speed_times_ticks_to_every_enemy() {
    let before = vec![
        enemy(16, 100, pixels(-8)),
        enemy(64, 300, pixels(10)),
        enemy(32, 217, -1),
    ];
    let mut pool = before.clone();
    advance_enemies(&mut pool, 1234);
    assert_eq!(pool.len(), 3);
    for (after, old) in pool.iter().zip(before.iter()) {
        assert_eq!(*after, Shape { y: old.y + old.speed * 1234, ..*old });
    }
    assert_eq!(pool[0].y, -480_000 + 123_400);
    assert_eq!(pool[1].y, 600_000 + 370_200);
    assert_eq!(pool[2].y, -1 + 267_778);
}

#[test]
fn advance_by_no_time_changes_nothing() {
    let before = vec![enemy(16, 100, 5), enemy(64, 300, i32::MAX)];
    let mut pool = before.clone();
    assert!(advanceable(&pool, 0));
    advance_enemies(&mut pool, 0);
    assert_eq!(pool, before);
}

#[test]
fn advance_on_an_empty_pool_keeps_it_empty() {
    let mut pool: Vec<Shape> = Vec::new();
    assert!(advanceable(&pool, u32::MAX));
    advance_enemies(&mut pool, u32::MAX);
    assert!(pool.is_empty());
}

#[test]
fn advanceable_tells_when_every_new_height_can_be_stored() {
    let pool = vec![enemy(16, 1, 0), enemy(16, 2, i32::MAX - 20)];
    assert!(advanceable(&pool, 10));
    assert!(!advanceable(&pool, 11));
    let pool = vec![enemy(16, 2, i32::MAX - 20), enemy(16, 1, 0)];
    assert!(!advanceable(&pool, 11));
    let mut pool = vec![enemy(16, 2, i32::MAX - 20)];
    advance_enemies(&mut pool, 10);
    assert_eq!(pool[0].y, i32::MAX);
}

#[test]
fn enemies_only_fall() {
    let mut pool = vec![enemy(16, 100, pixels(-8)), enemy(64, 300, pixels(10))];
    for dt in [0u32, 1, 17, 1000, 60_000] {
        let before = pool.clone();
        advance_enemies(&mut pool, dt);
        for (after, old) in pool.iter().zip(before.iter()) {
            assert!(after.y >= old.y);
        }
    }
}

#[test]
fn an_enemy_leaves_exactly_when_it_reaches_the_line() {
    let line = HEIGHT + pixels(32);
    assert!(is_retained(&enemy(32, 200, line - 1), HEIGHT));
    assert!(!is_retained(&enemy(32, 200, line), HEIGHT));
    assert!(!is_retained(&enemy(32, 200, line + 1), HEIGHT));
    assert!(is_retained(&enemy(32, 200, i32::MAX), i32::MAX));
    assert!(!is_retained(&enemy(32, 200, i32::MAX), i32::MAX - pixels(32)));
    assert!(is_retained(&enemy(32, 200, i32::MIN), i32::MIN));
    assert!(!is_retained(&enemy(32, 200, i32::MIN + pixels(32)), i32::MIN));
}

#[test]
fn cull_removes_those_past_the_line_and_keeps_the_order() {
    let line = HEIGHT + pixels(32);
    let a = enemy(32, 101, line - 1);
    let b = enemy(32, 102, line);
    let c = enemy(32, 103, pixels(-16));
    let d = enemy(32, 104, i32::MAX);
    let e = enemy(64, 105, line);
    let mut pool = vec![a, b, c, d, e];
    cull_enemies(&mut pool, HEIGHT);
    assert_eq!(pool, vec![a, c, e]);
}

#[test]
fn cull_twice_is_cull_once() {
    let line = HEIGHT + pixels(32);
    let mut pool = vec![
        enemy(32, 101, line - 1),
        enemy(32, 102, line),
        enemy(32, 103, pixels(-16)),
    ];
    cull_enemies(&mut pool, HEIGHT);
    let once = pool.clone();
    cull_enemies(&mut pool, HEIGHT);
    assert_eq!(pool, once);
    assert_eq!(pool.len(), 2);
}

#[test]
fn cull_can_empty_the_pool() {
    let mut pool = vec![enemy(32, 101, i32::MAX), enemy(16, 102, i32::MAX)];
    cull_enemies(&mut pool, HEIGHT);
    assert!(pool.is_empty());
    cull_enemies(&mut pool, HEIGHT);
    assert!(pool.is_empty());
}

#[test]
fn falling_enemy_is_culled_at_the_first_frame_past_the_line() {
    let start = new_enemy(pixels(32), 200, pixels(100));
    assert_eq!(start.y, pixels(-16));
    let dt = TICKS_PER_SECOND / 10;
    let line = pixels(752);
    let mut pool = vec![start];
    let mut culled_at = None;
    for frame in 1..=40 {
        advance_enemies(&mut pool, dt);
        let y = pixels(-16) + 200 * 6000 * frame;
        assert_eq!(pool[0].y, y);
        cull_enemies(&mut pool, HEIGHT);
        if pool.is_empty() {
            assert!(y >= line);
            assert!(y - 200 * 6000 < line);
            culled_at = Some(frame);
            break;
        }
        assert!(y < line);
    }
    assert_eq!(culled_at, Some(39));
    assert_eq!(pixels(-16) + 200 * 6000 * 40, pixels(784));
}
