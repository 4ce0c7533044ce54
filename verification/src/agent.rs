//! The computer opponent's strategies and the request for one of its moves.

use vstd::prelude::*;

verus! {

/// The strategy by which the computer picks its moves.
#[derive(Clone, Copy, Debug, PartialEq, Eq, Hash, Structural)]
pub enum AiAgent {
    /// Random playouts only: fast and weak.
    PureMonteCarlo,
    /// Exact search.
    Alphabeta,
    /// Search guided by playouts.
    HybridMonteCarlo,
}

/// A request to the computer opponent: the board to move on and the strategy
/// to use.
#[derive(Clone, Copy, Debug, PartialEq, Eq)]
pub struct MoveRequest<S> {
    pub state: S,
    pub agent: AiAgent,
}

impl AiAgent {
    /// The strategy that a difficulty label stands for. A label that is none
    /// of the three known ones stands for exact search.
    pub open spec fn for_label(label: Seq<char>) -> AiAgent {
        if label == "easy"@ {
            AiAgent::PureMonteCarlo
        } else if label == "hard"@ {
            AiAgent::HybridMonteCarlo
        } else {
            AiAgent::Alphabeta
        }
    }

    /// Maps a difficulty label to a strategy; never fails.
    pub fn from_difficulty(difficulty: &str) -> (agent: AiAgent)
        ensures
            agent == AiAgent::for_label(difficulty@),
    {
        let label = difficulty.to_owned();
        if label == "easy".to_owned() {
            AiAgent::PureMonteCarlo
        } else if label == "hard".to_owned() {
            AiAgent::HybridMonteCarlo
        } else {
            AiAgent::Alphabeta
        }
    }
}

/// The three known labels each stand for their own strategy.
pub proof fn lemma_known_labels()
    ensures
        AiAgent::for_label("easy"@) == AiAgent::PureMonteCarlo,
        AiAgent::for_label("medium"@) == AiAgent::Alphabeta,
        AiAgent::for_label("hard"@) == AiAgent::HybridMonteCarlo,
{
    reveal_strlit("easy");
    reveal_strlit("medium");
    reveal_strlit("hard");
    assert("easy"@.len() == 4);
    assert("hard"@.len() == 4);
    assert("medium"@.len() == 6);
    assert("easy"@[0] == 'e');
    assert("hard"@[0] == 'h');
}

} // verus!
