//! Why one lock is enough: turns that share a stored conversation, told to
//! take the lock only when it is free, never work on the store at the same
//! time. The lock and the store stand here as mathematical values; the real
//! ones are the caller's.

use crate::history::{lemma_cut_absorbs_earlier_cut, truncated};
use crate::message::MessageView;
use crate::role::Role;
use crate::runs::lemma_work_is_done_under_the_lock;
use crate::turn::{EventView, Phase, TurnView};
use vstd::prelude::*;

verus! {

/// The turns of a process, the lock that they share and the conversation
/// that is stored.
pub struct World {
    /// The turn that holds the lock, by its position in `turns`.
    pub holder: Option<int>,
    /// The stored conversation, if there is one.
    pub stored: Option<Seq<MessageView>>,
    /// The turns, started or not.
    pub turns: Seq<TurnView>,
}

impl World {
    /// Whether the outside can tell `event` to the turn `who`. The lock is
    /// granted only when it is free, and only to a turn that waits for it;
    /// what is read from the store is what the store holds, as it is or cut
    /// with the turn's settings.
    pub open spec fn permits(self, who: int, event: EventView) -> bool {
        &&& 0 <= who < self.turns.len()
        &&& event is LockAcquired ==> self.holder is None && self.turns[who].phase
            == Phase::AcquiringLock
        &&& event matches EventView::HistoryLoaded(read) ==> self.stored matches Some(kept)
            && (read == kept || read == truncated(
            kept,
            self.turns[who].max_history,
            self.turns[who].system_prompt,
        ))
        &&& event is HistoryMissing ==> self.stored is None
    }

    /// The world after `event` was told to the turn `who`: the turn moves
    /// on, the lock goes to the turn that it was granted to and is free
    /// again when its holder is told to finish, and the store takes the
    /// conversation of a turn whose storing is reported.
    pub open spec fn step(self, who: int, event: EventView) -> World {
        let (next, answer) = self.turns[who].advance(event);
        World {
            holder: if event is LockAcquired {
                Some(who)
            } else if answer.command is Finish {
                None
            } else {
                self.holder
            },
            stored: if event is Saved && self.turns[who].phase == Phase::Committing {
                Some(self.turns[who].history)
            } else {
                self.stored
            },
            turns: self.turns.update(who, next),
        }
    }

    /// The lock is held by the turn that is at work under it, and by no
    /// other.
    pub open spec fn exclusive(self) -> bool {
        forall|i: int|
            0 <= i < self.turns.len() ==> ((#[trigger] self.turns[i]).phase.holds_lock()
                <==> self.holder == Some(i))
    }

    /// The world after a schedule: a run of events, each told to one turn.
    pub open spec fn after(self, schedule: Seq<(int, EventView)>) -> World
        decreases schedule.len(),
    {
        if schedule.len() == 0 {
            self
        } else {
            self.after(schedule.drop_last()).step(schedule.last().0, schedule.last().1)
        }
    }

    /// Whether each event of a schedule can be told when its time comes.
    pub open spec fn permits_all(self, schedule: Seq<(int, EventView)>) -> bool
        decreases schedule.len(),
    {
        schedule.len() > 0 ==> self.permits_all(schedule.drop_last()) && self.after(
            schedule.drop_last(),
        ).permits(schedule.last().0, schedule.last().1)
    }
}

/// No step lets a second turn in: if the lock is held by the turn at work
/// and by no other, it is so after any event that the outside can tell.
pub proof fn lemma_exclusion_is_kept(world: World, who: int, event: EventView)
    requires
        world.exclusive(),
        world.permits(who, event),
    ensures
        world.step(who, event).exclusive(),
        world.step(who, event).turns.len() == world.turns.len(),
{
    let next = world.step(who, event);
    lemma_work_is_done_under_the_lock(world.turns[who], event);
    assert forall|i: int| 0 <= i < next.turns.len() implies ((#[trigger] next.turns[i])
        .phase.holds_lock() <==> next.holder == Some(i)) by {
        if i != who {
            assert(next.turns[i] == world.turns[i]);
        }
    }
}

/// Exclusion holds all along any schedule from a world in which it holds,
/// such as one with a free lock and turns none of which is at work.
pub proof fn lemma_exclusion_holds_throughout(world: World, schedule: Seq<(int, EventView)>)
    requires
        world.exclusive(),
        world.permits_all(schedule),
    ensures
        world.after(schedule).exclusive(),
        world.after(schedule).turns.len() == world.turns.len(),
    decreases schedule.len(),
{
    if schedule.len() > 0 {
        lemma_exclusion_holds_throughout(world, schedule.drop_last());
        lemma_exclusion_is_kept(
            world.after(schedule.drop_last()),
            schedule.last().0,
            schedule.last().1,
        );
    }
}

/// While one turn is at work under the lock, no event told to another turn
/// touches the store, reads it into that turn's conversation, or changes
/// the turn at work: the reading, the adding and the storing of one turn
/// are not interleaved with another's.
pub proof fn lemma_no_turn_intervenes(world: World, working: int, who: int, event: EventView)
    requires
        world.exclusive(),
        world.permits(who, event),
        0 <= working < world.turns.len(),
        world.turns[working].phase.holds_lock(),
        who != working,
    ensures
        world.step(who, event).stored == world.stored,
        world.step(who, event).holder == world.holder,
        world.step(who, event).turns[working] == world.turns[working],
        world.step(who, event).turns[who].history == world.turns[who].history,
        !world.step(who, event).turns[who].phase.holds_lock(),
{
    lemma_work_is_done_under_the_lock(world.turns[who], event);
    assert(world.holder == Some(working));
}

/// What a turn stores is what the next turn goes on from: when `first` has
/// its storing reported, and `second` is then granted the lock and reads
/// the store, its conversation is the one that `first` committed, with its
/// own text added, and cut.
pub proof fn lemma_next_turn_reads_what_was_stored(
    world: World,
    first: int,
    second: int,
    read: Seq<MessageView>,
)
    requires
        world.exclusive(),
        0 <= first < world.turns.len(),
        world.turns[first].phase == Phase::Committing,
        world.permits(first, EventView::Saved),
        world.step(first, EventView::Saved).permits(second, EventView::LockAcquired),
        world.step(first, EventView::Saved).step(second, EventView::LockAcquired).permits(
            second,
            EventView::HistoryLoaded(read),
        ),
    ensures
        ({
            let committed = world.turns[first].history;
            let turn = world.turns[second];
            let granted = world.step(first, EventView::Saved).step(
                second,
                EventView::LockAcquired,
            );
            &&& granted.stored == Some(committed)
            &&& read == committed || read == truncated(
                committed,
                turn.max_history,
                turn.system_prompt,
            )
            &&& granted.step(second, EventView::HistoryLoaded(read)).turns[second].history
                == truncated(
                committed.push(MessageView { role: Role::USER, content: turn.user_text }),
                turn.max_history,
                turn.system_prompt,
            )
        }),
{
    let saved = world.step(first, EventView::Saved);
    let turn = world.turns[second];
    lemma_exclusion_is_kept(world, first, EventView::Saved);
    assert(second != first) by {
        assert(saved.turns[first].phase == Phase::Finished);
    }
    assert(saved.turns[second] == turn);
    lemma_cut_absorbs_earlier_cut(
        world.turns[first].history,
        MessageView { role: Role::USER, content: turn.user_text },
        turn.max_history,
        turn.system_prompt,
    );
}

} // verus!
