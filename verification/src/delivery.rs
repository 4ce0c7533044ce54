//! The order in which the participants of a room are shown the game.

use vstd::prelude::*;
use crate::engine::Submission;
use crate::room::{Message, Mover, Outbound, Room, Seat};
use crate::view::GameView;

verus! {

/// One inbound message of a room: the connection it came from, and what it
/// holds.
pub type Inbound<S, M> = (u64, Submission<S, M>);

/// The views that `effects` deliver to the connection `conn`, in the order of
/// delivery.
pub open spec fn views_for<S>(effects: Seq<Outbound<S>>, conn: u64) -> Seq<GameView<S>>
    decreases effects.len(),
{
    if effects.len() == 0 {
        seq![]
    } else {
        let earlier = views_for(effects.drop_last(), conn);
        match effects.last() {
            Outbound::Deliver { to, message: Message::View(view) } if to == conn => earlier.push(
                view,
            ),
            _ => earlier,
        }
    }
}

impl<S: Copy, M: Copy> Room<S, M> {
    /// The room after a series of inbound messages, the first of them first.
    pub open spec fn after_all(self, inbound: Seq<Inbound<S, M>>) -> Room<S, M>
        decreases inbound.len(),
    {
        if inbound.len() == 0 {
            self
        } else {
            self.after_all(inbound.drop_last()).after_submit(inbound.last().0, inbound.last().1)
        }
    }

    /// The effects of a series of inbound messages, in the order in which
    /// they arise.
    pub open spec fn effects_of_all(self, inbound: Seq<Inbound<S, M>>) -> Seq<Outbound<S>>
        decreases inbound.len(),
    {
        if inbound.len() == 0 {
            seq![]
        } else {
            self.effects_of_all(inbound.drop_last()) + self.after_all(
                inbound.drop_last(),
            ).submit_effects(inbound.last().0, inbound.last().1)
        }
    }

    /// Whether the inbound message is a move that is played.
    pub open spec fn plays(self, message: Inbound<S, M>) -> bool {
        match message.1 {
            Submission::Malformed(_) => false,
            Submission::Move { game_move, verdict } => self.move_result(
                Mover::Connection(message.0),
                verdict,
            ) is Ok,
        }
    }

    /// The views of the boards that the moves played among `inbound` led to,
    /// one for each such move, in the order of the moves.
    pub open spec fn boards_played(self, inbound: Seq<Inbound<S, M>>) -> Seq<GameView<S>>
        decreases inbound.len(),
    {
        if inbound.len() == 0 {
            seq![]
        } else {
            let earlier = self.boards_played(inbound.drop_last());
            let before = self.after_all(inbound.drop_last());
            if before.plays(inbound.last()) {
                earlier.push(before.after_submit(inbound.last().0, inbound.last().1).session.view_now())
            } else {
                earlier
            }
        }
    }
}

/// The views delivered by two lists of effects, one after the other, are the
/// views of the first followed by the views of the second.
pub proof fn lemma_views_for_concat<S>(first: Seq<Outbound<S>>, second: Seq<Outbound<S>>, conn: u64)
    ensures
        views_for(first + second, conn) == views_for(first, conn) + views_for(second, conn),
    decreases second.len(),
{
    if second.len() == 0 {
        assert(first + second =~= first);
        assert(views_for(first, conn) + views_for(second, conn) =~= views_for(first, conn));
    } else {
        let whole = first + second;
        assert(whole.drop_last() =~= first + second.drop_last());
        assert(whole.last() == second.last());
        lemma_views_for_concat(first, second.drop_last(), conn);
        assert(views_for(whole, conn) =~= views_for(first, conn) + views_for(second, conn));
    }
}

/// Inbound messages change neither the key nor the seats of a room.
pub proof fn lemma_seats_kept<S: Copy, M: Copy>(room: Room<S, M>, inbound: Seq<Inbound<S, M>>)
    ensures
        room.after_all(inbound).key == room.key,
        room.after_all(inbound).red == room.red,
        room.after_all(inbound).blue == room.blue,
        room.after_all(inbound).occupancy() <= 2,
    decreases inbound.len(),
{
    if inbound.len() > 0 {
        lemma_seats_kept(room, inbound.drop_last());
    }
}

/// A message that is refused is answered to its sender alone, with one error,
/// and leaves the room as it was.
pub proof fn lemma_refusal_is_private<S: Copy, M: Copy>(room: Room<S, M>, message: Inbound<S, M>)
    requires
        !room.plays(message),
    ensures
        room.after_submit(message.0, message.1) == room,
        room.submit_effects(message.0, message.1).len() == 1,
        room.submit_effects(message.0, message.1)[0] matches Outbound::Deliver { to, message: reply }
            && to == message.0 && reply is Error,
{
}

/// What one inbound message shows to the two participants of a room between
/// two people: the board after the move to both, if the move is played, and
/// nothing otherwise.
pub proof fn lemma_one_message<S: Copy, M: Copy>(room: Room<S, M>, message: Inbound<S, M>, blue: u64)
    requires
        room.blue == Seat::Human(blue),
        blue != room.red,
    ensures
        ({
            let effects = room.submit_effects(message.0, message.1);
            let shown = if room.plays(message) {
                seq![room.after_submit(message.0, message.1).session.view_now()]
            } else {
                seq![]
            };
            &&& views_for(effects, room.red) == shown
            &&& views_for(effects, blue) == shown
        }),
{
    let effects = room.submit_effects(message.0, message.1);
    reveal_with_fuel(views_for, 3);
    if room.plays(message) {
        let after = room.after_submit(message.0, message.1);
        let view = after.session.view_now();
        assert(effects =~= seq![
            Outbound::Deliver { to: room.red, message: Message::View(view) },
            Outbound::Deliver { to: blue, message: Message::View(view) },
        ]);
        assert(effects.drop_last() =~= seq![
            Outbound::Deliver { to: room.red, message: Message::View(view) },
        ]);
        assert(effects.drop_last().drop_last() =~= Seq::<Outbound<S>>::empty());
        assert(views_for(effects, room.red) =~= seq![view]);
        assert(views_for(effects, blue) =~= seq![view]);
    } else {
        assert(effects.len() == 1);
        assert(effects.drop_last() =~= Seq::<Outbound<S>>::empty());
        assert(views_for(effects, room.red) =~= Seq::<GameView<S>>::empty());
        assert(views_for(effects, blue) =~= Seq::<GameView<S>>::empty());
    }
}

/// In a room between two people, both participants are shown the same
/// views in the same order: one view for each move that is played, in the
/// order in which the moves are played, each showing the board as that move
/// left it. A message that is refused shows nothing to anybody.
pub proof fn lemma_same_views_in_order<S: Copy, M: Copy>(
    room: Room<S, M>,
    inbound: Seq<Inbound<S, M>>,
    blue: u64,
)
    requires
        room.blue == Seat::Human(blue),
        blue != room.red,
    ensures
        views_for(room.effects_of_all(inbound), room.red) == room.boards_played(inbound),
        views_for(room.effects_of_all(inbound), blue) == room.boards_played(inbound),
    decreases inbound.len(),
{
    if inbound.len() > 0 {
        let earlier = inbound.drop_last();
        let before = room.after_all(earlier);
        let step = before.submit_effects(inbound.last().0, inbound.last().1);
        lemma_same_views_in_order(room, earlier, blue);
        lemma_seats_kept(room, earlier);
        lemma_one_message(before, inbound.last(), blue);
        lemma_views_for_concat(room.effects_of_all(earlier), step, room.red);
        lemma_views_for_concat(room.effects_of_all(earlier), step, blue);
    }
}

} // verus!
