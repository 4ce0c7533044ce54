//! What a game mode asks its host to do after an operation.

use vstd::prelude::*;
use crate::agent::MoveRequest;
use crate::error::Failure;

verus! {

/// One thing for the host of an in-page game to do. An operation hands back
/// its effects in the order in which they are to be carried out.
#[derive(Clone, Debug, PartialEq, Eq)]
pub enum Effect<V, S> {
    /// Show this view.
    View(V),
    /// Report this failure.
    Error(Failure),
    /// Ask the computer opponent for a move.
    AiRequest(MoveRequest<S>),
}

/// The views among `effects`, in the order in which they are shown.
pub open spec fn views_in<V, S>(effects: Seq<Effect<V, S>>) -> Seq<V>
    decreases effects.len(),
{
    if effects.len() == 0 {
        seq![]
    } else {
        let earlier = views_in(effects.drop_last());
        match effects.last() {
            Effect::View(view) => earlier.push(view),
            _ => earlier,
        }
    }
}

/// The views of two lists of effects, one after the other, are the views of
/// the first followed by the views of the second.
pub proof fn lemma_views_in_concat<V, S>(first: Seq<Effect<V, S>>, second: Seq<Effect<V, S>>)
    ensures
        views_in(first + second) == views_in(first) + views_in(second),
    decreases second.len(),
{
    if second.len() == 0 {
        assert(first + second =~= first);
        assert(views_in(first) + views_in(second) =~= views_in(first));
    } else {
        let whole = first + second;
        assert(whole.drop_last() =~= first + second.drop_last());
        assert(whole.last() == second.last());
        lemma_views_in_concat(first, second.drop_last());
        assert(views_in(whole) =~= views_in(first) + views_in(second));
    }
}

/// A list of one or two effects shows the views that stand in it.
pub proof fn lemma_views_in_short<V, S>(effects: Seq<Effect<V, S>>)
    requires
        1 <= effects.len() <= 2,
    ensures
        effects.len() == 1 ==> views_in(effects) == (match effects[0] {
            Effect::View(view) => seq![view],
            _ => seq![],
        }),
        effects.len() == 2 ==> views_in(effects) == (match effects[0] {
            Effect::View(view) => seq![view],
            _ => seq![],
        }) + (match effects[1] {
            Effect::View(view) => seq![view],
            _ => seq![],
        }),
{
    reveal_with_fuel(views_in, 3);
    if effects.len() == 2 {
        assert(effects.drop_last().drop_last() =~= Seq::<Effect<V, S>>::empty());
        assert(effects.drop_last().last() == effects[0]);
    } else {
        assert(effects.drop_last() =~= Seq::<Effect<V, S>>::empty());
    }
}

} // verus!
