//! One frame of the game: the state, and the step that takes it from one
//! frame to the next.

use vstd::prelude::*;
use quad_rand::RandGenerator;
use crate::enemies::{
    advance_enemies, advanceable, advanced_all, all_can_advance, can_advance, cull_enemies, culled,
    lemma_cull_removes_exactly, lemma_culled_are_retained, retained,
};
use crate::player::{
    apply_player_input, can_move, clamp_to_bounds, clamped, fits_screen, in_bounds, movable,
    moved, InputFlags,
};
use crate::shape::Shape;
use crate::spawn::{is_spawn, spawn_tick, ENEMY_SIZE_MAX, ENEMY_SPEED_MAX};
use crate::units::{distance, travel};

verus! {

/// Size of the player's disc: 64 pixels.
pub const PLAYER_SIZE: i32 = 3_840_000;

/// Speed of the player, in pixels per second.
pub const PLAYER_SPEED: i32 = 300;

/// Colour of the player.
pub const PLAYER_COLOR: u32 = 0xfcf660;

/// Dimensions of the screen, in units.
#[derive(Clone, Copy, Debug, PartialEq, Eq, Structural)]
pub struct Screen {
    pub width: i32,
    pub height: i32,
}

/// The player and the pool of enemies.
#[derive(Clone, Debug)]
pub struct GameState {
    pub player: Shape,
    pub enemies: Vec<Shape>,
}

/// What a `GameState` stands for: the player, and the enemies in the order
/// in which they spawned.
pub struct GameModel {
    pub player: Shape,
    pub enemies: Seq<Shape>,
}

impl View for GameState {
    type V = GameModel;

    open spec fn view(&self) -> GameModel {
        GameModel { player: self.player, enemies: self.enemies@ }
    }
}

/// The pool with the enemy that spawns in this frame, if any, at its end.
pub open spec fn with_spawn(pool: Seq<Shape>, spawn: Option<Shape>) -> Seq<Shape> {
    match spawn {
        Some(e) => pool.push(e),
        None => pool,
    }
}

/// The state one frame later. The enemy that spawns joins the pool, every
/// enemy falls, the player follows the keys and is brought back onto the
/// screen, and the enemies that have passed the bottom edge leave.
pub open spec fn next(
    m: GameModel,
    spawn: Option<Shape>,
    dt: u32,
    input: InputFlags,
    screen: Screen,
) -> GameModel {
    GameModel {
        player: clamped(moved(m.player, input, dt), screen.width, screen.height),
        enemies: culled(advanced_all(with_spawn(m.enemies, spawn), dt), screen.height),
    }
}

/// Whether the step can be taken: the player is well formed and no larger
/// than the screen, and every position that the step computes can be stored.
pub open spec fn can_step(
    m: GameModel,
    spawn: Option<Shape>,
    dt: u32,
    input: InputFlags,
    screen: Screen,
) -> bool {
    &&& m.player.wf()
    &&& fits_screen(m.player, screen.width, screen.height)
    &&& can_move(m.player, input, dt)
    &&& all_can_advance(with_spawn(m.enemies, spawn), dt)
}

/// Whether a frame can be played whatever enemy it spawns: the step can be
/// taken without a spawn, the screen is wide enough for the largest enemy,
/// and the frame is short enough for the fastest one.
pub open spec fn can_tick(m: GameModel, dt: u32, input: InputFlags, screen: Screen) -> bool {
    &&& can_step(m, None, dt, input, screen)
    &&& ENEMY_SIZE_MAX <= screen.width
    &&& ENEMY_SPEED_MAX * dt <= i32::MAX
}

/// Whether the shape is well formed and no larger and no faster than an
/// enemy that a spawn may bring.
pub open spec fn enemy_sized(e: Shape) -> bool {
    e.wf() && e.size <= ENEMY_SIZE_MAX && e.speed <= ENEMY_SPEED_MAX
}

/// Whether a frame of `dt` ticks leaves room beyond the farthest place that a
/// shape of a state settled on `screen` can be at: the player a full move
/// past the right or the bottom edge, an enemy a full fall past the line
/// where enemies leave.
pub open spec fn leaves_room(screen: Screen, player: Shape, dt: u32) -> bool {
    &&& screen.width + travel(player.speed, dt) <= i32::MAX
    &&& screen.height + travel(player.speed, dt) <= i32::MAX
    &&& screen.height + ENEMY_SIZE_MAX + ENEMY_SPEED_MAX * dt <= i32::MAX
}

impl GameModel {
    /// What holds of a running game after each frame played on `screen`: the
    /// player is well formed and its disc lies on the screen, and every
    /// enemy has the size and speed of a spawned one and is above the line
    /// where enemies leave.
    pub open spec fn settled(self, screen: Screen) -> bool {
        &&& self.player.wf()
        &&& in_bounds(self.player, screen.width, screen.height)
        &&& forall|i: int|
            0 <= i < self.enemies.len() ==> enemy_sized(#[trigger] self.enemies[i]) && retained(
                self.enemies[i],
                screen.height,
            )
    }
}

impl GameState {
    /// The state at startup: the player in the middle of the screen, and no
    /// enemy.
    pub fn new(screen: Screen) -> (state: Self)
        requires
            0 <= screen.width,
            0 <= screen.height,
        ensures
            state.player == (Shape {
                size: PLAYER_SIZE,
                speed: PLAYER_SPEED,
                x: (screen.width / 2) as i32,
                y: (screen.height / 2) as i32,
                color: PLAYER_COLOR,
            }),
            state.player.wf(),
            state.enemies@ == Seq::<Shape>::empty(),
            fits_screen(state.player, screen.width, screen.height) ==> state@.settled(screen),
    {
        GameState {
            player: Shape::new(
                PLAYER_SIZE,
                PLAYER_SPEED,
                screen.width / 2,
                screen.height / 2,
                PLAYER_COLOR,
            ),
            enemies: Vec::new(),
        }
    }

    /// Tells whether `step` can be taken with this enemy spawning.
    pub fn steppable(
        &self,
        spawn: Option<Shape>,
        dt: u32,
        input: InputFlags,
        screen: Screen,
    ) -> (ok: bool)
        ensures
            ok == can_step(self@, spawn, dt, input, screen),
    {
        let spawn_ok: bool = match spawn {
            Some(e) => {
                let y: i64 = e.y as i64 + distance(e.speed, dt);
                i32::MIN as i64 <= y && y <= i32::MAX as i64
            },
            None => true,
        };
        proof {
            match spawn {
                Some(e) => {
                    let pool = self.enemies@;
                    if all_can_advance(pool.push(e), dt) {
                        assert(pool.push(e)[pool.len() as int] == e);
                        assert forall|i: int| 0 <= i < pool.len() implies can_advance(
                            #[trigger] pool[i],
                            dt,
                        ) by {
                            assert(pool.push(e)[i] == pool[i]);
                        }
                    }
                },
                None => {},
            }
        }
        self.player.is_well_formed() && self.player.size <= screen.width && self.player.size
            <= screen.height && movable(&self.player, input, dt) && advanceable(&self.enemies, dt)
            && spawn_ok
    }

    /// Tells whether `frame_tick` can be played.
    pub fn tickable(&self, dt: u32, input: InputFlags, screen: Screen) -> (ok: bool)
        ensures
            ok == can_tick(self@, dt, input, screen),
    {
        self.steppable(None, dt, input, screen) && ENEMY_SIZE_MAX <= screen.width
            && ENEMY_SPEED_MAX as i64 * dt as i64 <= i32::MAX as i64
    }

    /// Takes the state to the next frame, with `spawn` as the enemy that
    /// joins the pool in this frame. After the step the player's disc lies on
    /// the screen and every enemy of the pool is above the line where
    /// enemies leave.
    pub fn step(&mut self, spawn: Option<Shape>, dt: u32, input: InputFlags, screen: Screen)
        requires
            can_step(old(self)@, spawn, dt, input, screen),
        ensures
            final(self)@ == next(old(self)@, spawn, dt, input, screen),
            in_bounds(final(self).player, screen.width, screen.height),
            forall|i: int|
                0 <= i < final(self).enemies@.len() ==> retained(
                    #[trigger] final(self).enemies@[i],
                    screen.height,
                ),
    {
        match spawn {
            Some(e) => {
                self.enemies.push(e);
            },
            None => {},
        }
        advance_enemies(&mut self.enemies, dt);
        apply_player_input(&mut self.player, input, dt);
        clamp_to_bounds(&mut self.player, screen.width, screen.height);
        cull_enemies(&mut self.enemies, screen.height);
    }
}

/// Plays one frame: rolls for a spawn, then takes the step with the enemy
/// that the roll brought, which is returned.
pub fn frame_tick(
    state: &mut GameState,
    dt: u32,
    input: InputFlags,
    rng: &RandGenerator,
    screen: Screen,
) -> (spawned: Option<Shape>)
    requires
        can_tick(old(state)@, dt, input, screen),
    ensures
        spawned matches Some(e) ==> is_spawn(e, screen.width),
        final(state)@ == next(old(state)@, spawned, dt, input, screen),
        in_bounds(final(state).player, screen.width, screen.height),
        forall|i: int|
            0 <= i < final(state).enemies@.len() ==> retained(
                #[trigger] final(state).enemies@[i],
                screen.height,
            ),
{
    let spawned: Option<Shape> = spawn_tick(rng, &mut state.enemies, screen.width);
    proof {
        if let Some(e) = spawned {
            lemma_tick_allows_any_spawn(old(state)@, e, dt, input, screen);
        }
    }
    state.step(None, dt, input, screen);
    spawned
}

/// A frame that can be played can take the step with any enemy that a spawn
/// may bring.
pub proof fn lemma_tick_allows_any_spawn(
    m: GameModel,
    e: Shape,
    dt: u32,
    input: InputFlags,
    screen: Screen,
)
    requires
        can_tick(m, dt, input, screen),
        is_spawn(e, screen.width),
    ensures
        can_step(m, Some(e), dt, input, screen),
        enemy_sized(e),
{
    assert(0 <= e.speed * dt <= ENEMY_SPEED_MAX * dt) by (nonlinear_arith)
        requires
            0 <= e.speed <= ENEMY_SPEED_MAX,
            0 <= dt,
    ;
    assert forall|i: int| 0 <= i < m.enemies.push(e).len() implies can_advance(
        #[trigger] m.enemies.push(e)[i],
        dt,
    ) by {
        if i < m.enemies.len() {
            assert(m.enemies.push(e)[i] == m.enemies[i]);
        }
    }
}

/// A step keeps the game settled: if every enemy of the pool, and the one
/// that spawns, has the size and speed of a spawned enemy, then the state
/// after the step is settled on the screen of the step.
pub proof fn lemma_step_settles(
    m: GameModel,
    spawn: Option<Shape>,
    dt: u32,
    input: InputFlags,
    screen: Screen,
)
    requires
        can_step(m, spawn, dt, input, screen),
        forall|i: int| 0 <= i < m.enemies.len() ==> enemy_sized(#[trigger] m.enemies[i]),
        spawn matches Some(e) ==> enemy_sized(e),
    ensures
        next(m, spawn, dt, input, screen).settled(screen),
{
    let before = with_spawn(m.enemies, spawn);
    let fallen = advanced_all(before, dt);
    let after = culled(fallen, screen.height);
    lemma_culled_are_retained(fallen, screen.height);
    assert forall|i: int| 0 <= i < after.len() implies enemy_sized(#[trigger] after[i]) by {
        assert(after.contains(after[i]));
        lemma_cull_removes_exactly(fallen, screen.height, after[i]);
        let j = choose|j: int| 0 <= j < fallen.len() && fallen[j] == after[i];
        assert(enemy_sized(before[j]));
    }
}

/// A settled game can play its next frame: on a screen that holds the player
/// and the largest enemy, and for a frame that leaves room on the screen on
/// which the state is settled, `frame_tick` can be called whatever the keys.
pub proof fn lemma_settled_can_tick(
    m: GameModel,
    settled_on: Screen,
    dt: u32,
    input: InputFlags,
    screen: Screen,
)
    requires
        m.settled(settled_on),
        leaves_room(settled_on, m.player, dt),
        fits_screen(m.player, screen.width, screen.height),
        ENEMY_SIZE_MAX <= screen.width,
    ensures
        can_tick(m, dt, input, screen),
{
    let p = m.player;
    assert(0 <= travel(p.speed, dt)) by (nonlinear_arith)
        requires
            0 < p.speed,
            0 <= dt,
    ;
    assert forall|i: int| 0 <= i < m.enemies.len() implies can_advance(
        #[trigger] m.enemies[i],
        dt,
    ) by {
        let e = m.enemies[i];
        assert(0 <= e.speed * dt <= ENEMY_SPEED_MAX * dt) by (nonlinear_arith)
            requires
                0 < e.speed <= ENEMY_SPEED_MAX,
                0 <= dt,
        ;
    }
}

} // verus!
