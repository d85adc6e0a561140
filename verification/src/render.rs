//! What is drawn at the end of a frame.

use vstd::prelude::*;
use crate::frame::{GameModel, GameState};
use crate::shape::Shape;

verus! {

/// One thing to draw, centred on `(x, y)`.
#[derive(Clone, Copy, Debug, PartialEq, Eq, Structural)]
pub enum DrawCommand {
    /// A filled square of the given edge, not rotated.
    Square { x: i32, y: i32, size: i32, color: u32 },
    /// A filled disc of the given radius.
    Disc { x: i32, y: i32, radius: i32, color: u32 },
}

/// The square that shows an enemy.
pub open spec fn square_of(e: Shape) -> DrawCommand {
    DrawCommand::Square { x: e.x, y: e.y, size: e.size, color: e.color }
}

/// The disc that shows the player: its radius is half the player's size.
pub open spec fn disc_of(p: Shape) -> DrawCommand {
    DrawCommand::Disc { x: p.x, y: p.y, radius: p.half() as i32, color: p.color }
}

/// What is drawn for a state: one square for each enemy, in the order of the
/// pool, then the player's disc, which thus lies over the enemies.
pub open spec fn drawn(m: GameModel) -> Seq<DrawCommand> {
    Seq::new(m.enemies.len(), |i: int| square_of(m.enemies[i])).push(disc_of(m.player))
}

/// Lists what is to be drawn for the state.
pub fn draw_commands(state: &GameState) -> (commands: Vec<DrawCommand>)
    requires
        state.player.wf(),
    ensures
        commands@ == drawn(state@),
{
    let n: usize = state.enemies.len();
    let mut commands: Vec<DrawCommand> = Vec::new();
    let mut i: usize = 0;
    while i < n
        invariant
            n == state.enemies.len(),
            i <= n,
            commands@ == Seq::new(i as nat, |j: int| square_of(state.enemies@[j])),
        decreases n - i,
    {
        let e: Shape = state.enemies[i];
        commands.push(DrawCommand::Square { x: e.x, y: e.y, size: e.size, color: e.color });
        assert(commands@ =~= Seq::new((i + 1) as nat, |j: int| square_of(state.enemies@[j])));
        i = i + 1;
    }
    let p: Shape = state.player;
    commands.push(DrawCommand::Disc { x: p.x, y: p.y, radius: p.half_size(), color: p.color });
    assert(commands@ =~= drawn(state@));
    commands
}

} // verus!
