//! The two sides of a game.

use vstd::prelude::*;

verus! {

/// One of the two sides. A player is a tag: it owns nothing and never changes.
#[derive(Clone, Copy, Debug, PartialEq, Eq, Hash, Structural)]
pub enum Player {
    Red,
    Blue,
}

impl Player {
    /// The other side.
    pub open spec fn inverted(self) -> Player {
        match self {
            Player::Red => Player::Blue,
            Player::Blue => Player::Red,
        }
    }

    /// Returns the opposite side.
    pub fn invert(self) -> (other: Player)
        ensures
            other == self.inverted(),
    {
        match self {
            Player::Red => Player::Blue,
            Player::Blue => Player::Red,
        }
    }
}

/// Inverting twice gives the side one started from, and inverting never gives the same side.
pub proof fn lemma_invert_involutive(p: Player)
    ensures
        p.inverted().inverted() == p,
        p.inverted() != p,
{
}

} // verus!
