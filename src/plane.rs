use vstd::prelude::*;
use crate::angle::abs;

verus! {

/// A point or vector on the ground plane (X and Z), in thousandths of a unit.
#[derive(Clone, Copy, Debug, PartialEq, Eq, Structural)]
pub struct Point2 {
    pub x: i64,
    pub z: i64,
}

/// Where a move command sends an entity.
#[derive(Clone, Copy, Debug, PartialEq, Eq, Structural)]
pub struct MoveTarget {
    pub position: Point2,
}

/// The entity an entity attacks, by index; it may since have been despawned.
#[derive(Clone, Copy, Debug, PartialEq, Eq, Structural)]
pub struct AttackTarget {
    pub entity: usize,
}

/// The mouse cursor projected onto the ground plane.
#[derive(Clone, Copy, Debug, PartialEq, Eq, Structural)]
pub struct MouseWorldPosition {
    pub position: Point2,
}

impl MouseWorldPosition {
    pub fn default() -> (r: MouseWorldPosition)
        ensures
            r.position == (Point2 { x: 0, z: 0 }),
    {
        MouseWorldPosition { position: Point2 { x: 0, z: 0 } }
    }
}

/// The score and the time played, in milliseconds.
#[derive(Clone, Copy, Debug, PartialEq, Eq, Structural)]
pub struct GameState {
    pub score: u32,
    pub game_time: u64,
}

impl GameState {
    pub fn default() -> (r: GameState)
        ensures
            r.score == 0,
            r.game_time == 0,
    {
        GameState { score: 0, game_time: 0 }
    }
}

/// The magnitude of `x`, widened so that squares and sums of squares fit.
pub fn magnitude(x: i64) -> (r: u128)
    ensures
        r == abs(x as int),
{
    if x < 0 {
        (-(x as i128)) as u128
    } else {
        x as u128
    }
}

} // verus!
