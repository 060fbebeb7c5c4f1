//! Games, and the key that tells one game from another.

use vstd::prelude::*;

verus! {

/// The key of a game: the community it is played in and the channel it is
/// played on. The two are compared in that order.
#[derive(Clone, Copy, Debug, PartialEq, Eq, Structural, PartialOrd, Ord, Hash)]
pub struct GameId {
    pub guild: u64,
    pub channel: u64,
}

/// A game.
#[allow(dead_code)]
pub struct Game {
    id: GameId,
}

} // verus!
