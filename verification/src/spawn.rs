//! Spawning enemies: one roll per frame, and three more draws for the enemy
//! that a winning roll brings.

use vstd::prelude::*;
use quad_rand::RandGenerator;
use crate::shape::Shape;

verus! {

/// The roll of a frame is drawn between `SPAWN_ROLL_LOW` and
/// `SPAWN_ROLL_HIGH`.
pub const SPAWN_ROLL_LOW: i32 = 0;

pub const SPAWN_ROLL_HIGH: i32 = 99;

/// A roll of at least this much spawns an enemy.
pub const SPAWN_THRESHOLD: i32 = 95;

/// Smallest size of a new enemy: 16 pixels.
pub const ENEMY_SIZE_MIN: i32 = 960_000;

/// Largest size of a new enemy: 64 pixels.
pub const ENEMY_SIZE_MAX: i32 = 3_840_000;

/// Lowest speed of a new enemy, in pixels per second.
pub const ENEMY_SPEED_MIN: i32 = 100;

/// Highest speed of a new enemy, in pixels per second.
pub const ENEMY_SPEED_MAX: i32 = 300;

/// Colour of every enemy.
pub const ENEMY_COLOR: u32 = 0xbe1d47;

#[verifier::external_type_specification]
#[verifier::external_body]
pub struct ExRandGenerator(quad_rand::RandGenerator);

/// Draws a number with `quad_rand::RandGenerator::gen_range`, which scales a
/// fraction in `[0, 1)` to the span between the two bounds, adds it to `low`
/// and drops what follows the point. The contract claims only that the
/// number lies between the bounds, both included; which number it is depends
/// on the generator's state.
#[verifier::external_body]
fn draw(rng: &RandGenerator, low: i32, high: i32) -> (r: i32)
    requires
        low <= high,
    ensures
        low <= r <= high,
{
    rng.gen_range(low, high)
}

/// Whether a roll spawns an enemy.
pub open spec fn spawns(roll: i32) -> bool {
    roll >= SPAWN_THRESHOLD
}

/// The enemy made of a size, a speed and a horizontal position: it starts
/// with its centre half a size above the top edge, `y = -size + size / 2`,
/// just out of sight whatever its size.
pub open spec fn enemy_of(size: i32, speed: i32, x: i32) -> Shape {
    Shape { size, speed, x, y: (-size + size / 2) as i32, color: ENEMY_COLOR }
}

/// Whether `e` is an enemy that a spawn may bring on a screen of the given
/// width: an even size in `[ENEMY_SIZE_MIN, ENEMY_SIZE_MAX]`, a speed in
/// `[ENEMY_SPEED_MIN, ENEMY_SPEED_MAX]`, fully on the screen horizontally,
/// and centred half a size above the top edge.
pub open spec fn is_spawn(e: Shape, screen_width: i32) -> bool {
    &&& ENEMY_SIZE_MIN <= e.size <= ENEMY_SIZE_MAX
    &&& e.size % 2 == 0
    &&& ENEMY_SPEED_MIN <= e.speed <= ENEMY_SPEED_MAX
    &&& e.half() <= e.x <= screen_width - e.half()
    &&& e.y == -e.half()
    &&& e.color == ENEMY_COLOR
}

/// Decides from the roll of a frame whether an enemy spawns.
pub fn should_spawn(roll: i32) -> (yes: bool)
    ensures
        yes == spawns(roll),
{
    roll >= SPAWN_THRESHOLD
}

/// Builds the enemy made of a size, a speed and a horizontal position.
pub fn new_enemy(size: i32, speed: i32, x: i32) -> (e: Shape)
    requires
        0 < size,
    ensures
        e == enemy_of(size, speed, x),
        size % 2 == 0 ==> e.y == -e.half(),
{
    Shape::new(size, speed, x, -size + size / 2, ENEMY_COLOR)
}

/// Rolls once between `SPAWN_ROLL_LOW` and `SPAWN_ROLL_HIGH` and does what
/// the roll asks for: when it spawns, one new enemy is appended to the pool
/// and returned. Which frames spawn depends on the generator alone.
pub fn spawn_tick(rng: &RandGenerator, pool: &mut Vec<Shape>, screen_width: i32) -> (spawned:
    Option<Shape>)
    requires
        ENEMY_SIZE_MAX <= screen_width,
    ensures
        match spawned {
            Some(e) => is_spawn(e, screen_width) && final(pool)@ == old(pool)@.push(e),
            None => final(pool)@ == old(pool)@,
        },
{
    let roll: i32 = draw(rng, SPAWN_ROLL_LOW, SPAWN_ROLL_HIGH);
    spawn_on_roll(rng, pool, screen_width, roll)
}

/// Does what the roll of a frame asks for: a roll that spawns appends one
/// new enemy to the pool and returns it, any other roll leaves the pool as it
/// is and returns nothing. The enemy's half size, its speed and its
/// horizontal position are drawn in this order, and only for a roll that
/// spawns.
pub fn spawn_on_roll(
    rng: &RandGenerator,
    pool: &mut Vec<Shape>,
    screen_width: i32,
    roll: i32,
) -> (spawned: Option<Shape>)
    requires
        ENEMY_SIZE_MAX <= screen_width,
    ensures
        spawned is Some <==> spawns(roll),
        match spawned {
            Some(e) => is_spawn(e, screen_width) && final(pool)@ == old(pool)@.push(e),
            None => final(pool)@ == old(pool)@,
        },
{
    if should_spawn(roll) {
        let half: i32 = draw(rng, ENEMY_SIZE_MIN / 2, ENEMY_SIZE_MAX / 2);
        let speed: i32 = draw(rng, ENEMY_SPEED_MIN, ENEMY_SPEED_MAX);
        let x: i32 = draw(rng, half, screen_width - half);
        let e: Shape = new_enemy(2 * half, speed, x);
        pool.push(e);
        Some(e)
    } else {
        None
    }
}

/// Every enemy that a spawn may bring is well formed.
pub proof fn lemma_spawn_is_well_formed(e: Shape, screen_width: i32)
    requires
        is_spawn(e, screen_width),
    ensures
        e.wf(),
{
}

} // verus!
