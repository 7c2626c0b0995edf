//! Runs of events: what a turn comes to when it is told one thing after
//! another, and what holds of every such run.

use crate::history::truncated;
use crate::message::MessageView;
use crate::request::request_for;
use crate::role::Role;
use crate::session::FetchedView;
use crate::turn::{CommandView, EventView, NoticeView, Phase, StepView, TurnView};
use vstd::prelude::*;

verus! {

/// The fragments, joined in their order.
pub open spec fn joined(fragments: Seq<Seq<char>>) -> Seq<char>
    decreases fragments.len(),
{
    if fragments.len() == 0 {
        Seq::empty()
    } else {
        joined(fragments.drop_last()) + fragments.last()
    }
}

/// The events of a stream that hands out `fragments` while no cancellation
/// is raised.
pub open spec fn deliveries(fragments: Seq<Seq<char>>) -> Seq<EventView> {
    Seq::new(
        fragments.len(),
        |i: int| EventView::Fetched { cancelled: false, item: FetchedView::Fragment(fragments[i]) },
    )
}

impl Phase {
    /// How far a phase is on the way of a turn.
    pub open spec fn rank(self) -> nat {
        match self {
            Phase::Idle => 0,
            Phase::AcquiringLock => 1,
            Phase::LoadingHistory => 2,
            Phase::BuildingRequest => 3,
            Phase::OpeningSession => 4,
            Phase::Streaming => 5,
            Phase::Committing => 6,
            Phase::Finished => 7,
        }
    }
}

impl TurnView {
    /// The turn after a run of events.
    pub open spec fn after(self, events: Seq<EventView>) -> TurnView
        decreases events.len(),
    {
        if events.len() == 0 {
            self
        } else {
            self.after(events.drop_last()).advance(events.last()).0
        }
    }

    /// The command that answers the event at `position` of a run.
    pub open spec fn command_at(self, events: Seq<EventView>, position: int) -> CommandView {
        self.after(events.take(position)).advance(events[position]).1.command
    }
}

/// A run of events can be taken in two parts.
pub proof fn lemma_after_in_parts(turn: TurnView, first: Seq<EventView>, second: Seq<EventView>)
    ensures
        turn.after(first + second) == turn.after(first).after(second),
    decreases second.len(),
{
    if second.len() == 0 {
        assert(first + second =~= first);
    } else {
        lemma_after_in_parts(turn, first, second.drop_last());
        assert((first + second).drop_last() =~= first + second.drop_last());
    }
}

/// While a turn streams, each fragment that is handed out is added to the
/// answer, and nothing else changes.
pub proof fn lemma_fragments_accumulate(turn: TurnView, fragments: Seq<Seq<char>>)
    requires
        turn.phase == Phase::Streaming,
    ensures
        turn.after(deliveries(fragments)) == (TurnView {
            response: turn.response + joined(fragments),
            ..turn
        }),
    decreases fragments.len(),
{
    if fragments.len() == 0 {
        assert(turn.response + joined(fragments) =~= turn.response);
    } else {
        let earlier = fragments.drop_last();
        lemma_fragments_accumulate(turn, earlier);
        assert(deliveries(fragments).drop_last() =~= deliveries(earlier));
        assert((turn.response + joined(earlier)) + fragments.last() =~= turn.response + joined(
            fragments,
        ));
    }
}

/// A stream that hands out its fragments and then ends: the assistant's
/// message is the fragments joined, behind what had arrived before; it is
/// added to the conversation, the conversation is stored, and the caller
/// gets the same text.
pub proof fn lemma_complete_answer_is_committed(turn: TurnView, fragments: Seq<Seq<char>>)
    requires
        turn.phase == Phase::Streaming,
    ensures
        ({
            let answer = turn.response + joined(fragments);
            let drained = turn.after(deliveries(fragments));
            let (committing, step) = drained.advance(
                EventView::Fetched { cancelled: false, item: FetchedView::Exhausted },
            );
            &&& committing.phase == Phase::Committing
            &&& committing.history == turn.history.push(
                MessageView { role: Role::ASSISTANT, content: answer },
            )
            &&& step == StepView::quiet(CommandView::SaveHistory)
            &&& committing.advance(EventView::Saved) == (
                committing.at(Phase::Finished),
                StepView::quiet(CommandView::Finish(Ok(answer))),
            )
        }),
{
    lemma_fragments_accumulate(turn, fragments);
}

/// A cancellation that is raised when an item is fetched: the item is
/// dropped, whatever it is, and what had arrived before is committed as
/// the assistant's message. Once that is stored the turn is over and holds
/// the lock no longer.
pub proof fn lemma_cancellation_commits_what_arrived(
    turn: TurnView,
    fragments: Seq<Seq<char>>,
    item: FetchedView,
)
    requires
        turn.phase == Phase::Streaming,
    ensures
        ({
            let answer = turn.response + joined(fragments);
            let drained = turn.after(deliveries(fragments));
            let (committing, step) = drained.advance(EventView::Fetched { cancelled: true, item });
            let (over, last) = committing.advance(EventView::Saved);
            &&& committing.phase == Phase::Committing
            &&& committing.history == turn.history.push(
                MessageView { role: Role::ASSISTANT, content: answer },
            )
            &&& step == StepView::quiet(CommandView::SaveHistory)
            &&& last == StepView::quiet(CommandView::Finish(Ok(answer)))
            &&& !over.phase.holds_lock()
        }),
{
    lemma_fragments_accumulate(turn, fragments);
}

/// An error of the stream does not fail the turn: it goes to the output
/// channel, what had arrived before it is committed as the assistant's
/// message (nothing, if the first fetch fails), and the caller gets that
/// text.
pub proof fn lemma_stream_error_is_not_fatal(
    turn: TurnView,
    fragments: Seq<Seq<char>>,
    reason: Seq<char>,
)
    requires
        turn.phase == Phase::Streaming,
    ensures
        ({
            let answer = turn.response + joined(fragments);
            let drained = turn.after(deliveries(fragments));
            let (committing, step) = drained.advance(
                EventView::Fetched { cancelled: false, item: FetchedView::Failure(reason) },
            );
            &&& committing.phase == Phase::Committing
            &&& committing.history == turn.history.push(
                MessageView { role: Role::ASSISTANT, content: answer },
            )
            &&& step == (StepView {
                notice: Some(NoticeView::StreamError(reason)),
                command: CommandView::SaveHistory,
            })
            &&& committing.advance(EventView::Saved).1 == StepView::quiet(
                CommandView::Finish(Ok(answer)),
            )
        }),
{
    lemma_fragments_accumulate(turn, fragments);
}

/// A failure before the stream is open ends the turn at once: nothing is
/// stored, the conversation gets no assistant's message, and the caller
/// gets the failure's text.
pub proof fn lemma_early_failure_stores_nothing(turn: TurnView, event: EventView)
    requires
        event is LoadFailed || event is CredentialFailed || event is ConnectFailed,
        turn.phase == event.awaited_in(),
    ensures
        turn.advance(event).0 == turn.at(Phase::Finished),
        turn.advance(event).1.notice is None,
        turn.advance(event).1.command is Finish,
        turn.advance(event).1.command->Finish_0 is Err,
{
}

/// The lock's discipline, step by step. A turn comes to hold the lock only
/// by the event that grants it. It lets go of the lock only with `Finish`,
/// and `Finish` is given only by a turn that holds it. Whatever is asked of
/// the disk, the network or the credential is asked while the lock is held.
/// A turn that is over ignores everything.
pub proof fn lemma_work_is_done_under_the_lock(turn: TurnView, event: EventView)
    ensures
        ({
            let (next, step) = turn.advance(event);
            let command = step.command;
            &&& (!turn.phase.holds_lock() && next.phase.holds_lock()) <==> (turn.phase
                == Phase::AcquiringLock && event is LockAcquired)
            &&& (turn.phase.holds_lock() && !next.phase.holds_lock()) <==> command is Finish
            &&& command is Finish ==> next.phase == Phase::Finished
            &&& (command is LoadHistory || command is ResolveCredential || command is OpenSession
                || command is Fetch || command is SaveHistory) ==> next.phase.holds_lock()
            &&& command is SaveHistory ==> turn.phase == Phase::Streaming && next.phase
                == Phase::Committing
            &&& turn.phase == Phase::Finished ==> next == turn && step == StepView::quiet(
                CommandView::Ignore,
            )
            &&& turn.phase.rank() <= next.phase.rank()
        }),
{
}

/// A turn never goes back to an earlier phase.
pub proof fn lemma_phases_only_advance(
    turn: TurnView,
    events: Seq<EventView>,
    earlier: int,
    later: int,
)
    requires
        0 <= earlier <= later <= events.len(),
    ensures
        turn.after(events.take(earlier)).phase.rank() <= turn.after(
            events.take(later),
        ).phase.rank(),
    decreases later - earlier,
{
    if earlier < later {
        lemma_phases_only_advance(turn, events, earlier, later - 1);
        assert(events.take(later).drop_last() =~= events.take(later - 1));
        lemma_work_is_done_under_the_lock(turn.after(events.take(later - 1)), events[later - 1]);
    }
}

/// In any run of events, a turn asks at most once to store the
/// conversation and gives `Finish` at most once.
pub proof fn lemma_stored_and_finished_at_most_once(
    turn: TurnView,
    events: Seq<EventView>,
    earlier: int,
    later: int,
)
    requires
        0 <= earlier < later < events.len(),
    ensures
        !(turn.command_at(events, earlier) is SaveHistory && turn.command_at(events, later)
            is SaveHistory),
        !(turn.command_at(events, earlier) is Finish && turn.command_at(events, later) is Finish),
{
    let before = turn.after(events.take(earlier));
    lemma_work_is_done_under_the_lock(before, events[earlier]);
    assert(events.take(earlier + 1).drop_last() =~= events.take(earlier));
    assert(turn.after(events.take(earlier + 1)) == before.advance(events[earlier]).0);
    lemma_phases_only_advance(turn, events, earlier + 1, later);
    lemma_work_is_done_under_the_lock(turn.after(events.take(later)), events[later]);
}

/// Whether an event reports a failure from before the stream was open.
pub open spec fn fails_early(event: EventView) -> bool {
    event is LoadFailed || event is CredentialFailed || event is ConnectFailed
}

/// A turn that has come to the storing of its conversation was asked to
/// store it: the position of that command is returned.
pub proof fn lemma_committing_turn_was_asked_to_store(
    turn: TurnView,
    events: Seq<EventView>,
) -> (position: int)
    requires
        turn.phase.rank() < Phase::Committing.rank(),
        turn.after(events).phase == Phase::Committing,
    ensures
        0 <= position < events.len(),
        turn.command_at(events, position) is SaveHistory,
    decreases events.len(),
{
    let earlier = events.drop_last();
    assert(events.take(events.len() - 1) =~= earlier);
    if turn.after(earlier).phase == Phase::Committing {
        let position = lemma_committing_turn_was_asked_to_store(turn, earlier);
        assert(earlier.take(position) =~= events.take(position));
        position
    } else {
        lemma_work_is_done_under_the_lock(turn.after(earlier), events.last());
        events.len() - 1
    }
}

/// How a turn ends. When it is told to finish on a failure from before the
/// stream was open, it has not asked to store the conversation. When it is
/// told to finish otherwise, the storing was reported, and it had asked for
/// it before: once, as no turn asks twice.
pub proof fn lemma_finished_turn_stored_once_or_failed_early(
    turn: TurnView,
    events: Seq<EventView>,
    last: int,
)
    requires
        turn.phase.rank() < Phase::Committing.rank(),
        0 <= last < events.len(),
        turn.command_at(events, last) is Finish,
    ensures
        fails_early(events[last]) ==> forall|i: int|
            0 <= i < last ==> !(#[trigger] turn.command_at(events, i) is SaveHistory),
        !fails_early(events[last]) ==> (events[last] is Saved || events[last] is SaveFailed)
            && exists|i: int| 0 <= i < last && #[trigger] turn.command_at(events, i) is SaveHistory,
{
    let before = turn.after(events.take(last));
    if fails_early(events[last]) {
        assert forall|i: int| 0 <= i < last implies !(#[trigger] turn.command_at(events, i)
            is SaveHistory) by {
            if turn.command_at(events, i) is SaveHistory {
                lemma_work_is_done_under_the_lock(turn.after(events.take(i)), events[i]);
                assert(events.take(i + 1).drop_last() =~= events.take(i));
                lemma_phases_only_advance(turn, events, i + 1, last);
            }
        }
    } else {
        assert(before.phase == Phase::Committing);
        let run = events.take(last);
        let position = lemma_committing_turn_was_asked_to_store(turn, run);
        assert(run.take(position) =~= events.take(position));
        assert(turn.command_at(events, position) is SaveHistory);
    }
}

/// A run that is one event longer ends where the shorter run ends, moved on
/// by that event.
pub proof fn lemma_after_one_more(turn: TurnView, events: Seq<EventView>, event: EventView)
    ensures
        turn.after(events.push(event)) == turn.after(events).advance(event).0,
{
    assert(events.push(event).drop_last() =~= events);
}

/// The events of a turn on which nothing fails and nothing is cancelled:
/// the stored conversation is read, the stream hands out `fragments` and
/// ends, and the conversation is stored.
pub open spec fn smooth_run(
    stored: Seq<MessageView>,
    credential: Seq<char>,
    fragments: Seq<Seq<char>>,
) -> Seq<EventView> {
    seq![
        EventView::Start,
        EventView::LockAcquired,
        EventView::HistoryLoaded(stored),
        EventView::CredentialResolved(credential),
        EventView::SessionOpened,
    ] + deliveries(fragments) + seq![
        EventView::Fetched { cancelled: false, item: FetchedView::Exhausted },
        EventView::Saved,
    ]
}

/// A whole turn on which nothing fails: the conversation that is stored is
/// the one that was read, with the caller's text added, cut, and then the
/// assistant's message, which is the fragments joined; the caller gets the
/// same text with the last command, and the turn is over.
pub proof fn lemma_smooth_turn(
    turn: TurnView,
    stored: Seq<MessageView>,
    credential: Seq<char>,
    fragments: Seq<Seq<char>>,
)
    requires
        turn.phase == Phase::Idle,
        turn.response.len() == 0,
    ensures
        ({
            let events = smooth_run(stored, credential, fragments);
            let asked = truncated(
                stored.push(MessageView { role: Role::USER, content: turn.user_text }),
                turn.max_history,
                turn.system_prompt,
            );
            let answer = joined(fragments);
            &&& turn.after(events) == (TurnView {
                phase: Phase::Finished,
                history: asked.push(MessageView { role: Role::ASSISTANT, content: answer }),
                response: answer,
                ..turn
            })
            &&& turn.command_at(events, 3) == (CommandView::OpenSession {
                request: request_for(asked, turn.low_cost),
                credential,
            })
            &&& turn.command_at(events, events.len() - 2) == CommandView::SaveHistory
            &&& turn.command_at(events, events.len() - 1) == CommandView::Finish(Ok(answer))
        }),
{
    let e0 = EventView::Start;
    let e1 = EventView::LockAcquired;
    let e2 = EventView::HistoryLoaded(stored);
    let e3 = EventView::CredentialResolved(credential);
    let e4 = EventView::SessionOpened;
    let e5 = EventView::Fetched { cancelled: false, item: FetchedView::Exhausted };
    let e6 = EventView::Saved;
    let none = Seq::<EventView>::empty();
    let events = smooth_run(stored, credential, fragments);
    let opening = seq![e0, e1, e2, e3, e4];
    let answer = joined(fragments);

    lemma_after_one_more(turn, none, e0);
    lemma_after_one_more(turn, none.push(e0), e1);
    lemma_after_one_more(turn, none.push(e0).push(e1), e2);
    lemma_after_one_more(turn, none.push(e0).push(e1).push(e2), e3);
    lemma_after_one_more(turn, none.push(e0).push(e1).push(e2).push(e3), e4);
    assert(none.push(e0).push(e1).push(e2).push(e3).push(e4) =~= opening);
    assert(none.push(e0).push(e1).push(e2) =~= events.take(3));
    let streaming = turn.after(opening);
    assert(streaming.phase == Phase::Streaming);

    lemma_after_in_parts(turn, opening, deliveries(fragments));
    lemma_fragments_accumulate(streaming, fragments);
    assert(streaming.response + answer =~= answer);
    let drained = opening + deliveries(fragments);
    lemma_after_one_more(turn, drained, e5);
    lemma_after_one_more(turn, drained.push(e5), e6);
    assert(drained.push(e5).push(e6) =~= events);
    assert(events.take(events.len() - 2) =~= drained);
    assert(events.take(events.len() - 1) =~= drained.push(e5));
}

} // verus!
