//! One streamed answer: what the transport delivers goes in, text fragments
//! come out in the order in which the provider sent them.

use vstd::prelude::*;

verus! {

/// The texts of a vector of strings.
pub open spec fn texts_of(strings: Seq<String>) -> Seq<Seq<char>> {
    Seq::new(strings.len(), |i: int| strings[i]@)
}

/// The optional texts of a vector of optional strings.
pub open spec fn choices_of(choices: Seq<Option<String>>) -> Seq<Option<Seq<char>>> {
    Seq::new(
        choices.len(),
        |i: int|
            match choices[i] {
                Some(text) => Some(text@),
                None => None,
            },
    )
}

/// The fragments that one chunk of the answer carries: the content of each
/// choice that has any, in the order of the choices.
pub open spec fn fragments_of(choices: Seq<Option<Seq<char>>>) -> Seq<Seq<char>>
    decreases choices.len(),
{
    if choices.len() == 0 {
        Seq::empty()
    } else {
        match choices.last() {
            Some(text) => fragments_of(choices.drop_last()).push(text),
            None => fragments_of(choices.drop_last()),
        }
    }
}

/// The fragments of a chunk, given the content of each of its choices.
pub fn chunk_fragments(choices: &Vec<Option<String>>) -> (fragments: Vec<String>)
    ensures
        texts_of(fragments@) == fragments_of(choices_of(choices@)),
{
    let ghost all = choices_of(choices@);
    let mut fragments: Vec<String> = Vec::new();
    let mut i: usize = 0;
    assert(texts_of(fragments@) =~= fragments_of(all.take(0)));
    while i < choices.len()
        invariant
            i <= choices.len(),
            all == choices_of(choices@),
            texts_of(fragments@) == fragments_of(all.take(i as int)),
        decreases choices.len() - i,
    {
        let ghost before = texts_of(fragments@);
        assert(all.take(i + 1).drop_last() =~= all.take(i as int));
        match &choices[i] {
            Some(text) => {
                fragments.push(text.clone());
                assert(texts_of(fragments@) =~= before.push(text@));
            },
            None => {},
        }
        i = i + 1;
    }
    assert(all.take(i as int) =~= all);
    fragments
}

/// What the transport delivered.
#[derive(Debug)]
pub enum Arrival {
    /// A chunk of the answer: the content of each of its choices.
    Chunk(Vec<Option<String>>),
    /// The transport, or the provider, reported an error.
    Failure(String),
    /// The provider said that the answer is complete.
    End,
}

/// An arrival as a mathematical value.
pub enum ArrivalView {
    Chunk(Seq<Option<Seq<char>>>),
    Failure(Seq<char>),
    End,
}

impl View for Arrival {
    type V = ArrivalView;

    open spec fn view(&self) -> ArrivalView {
        match self {
            Arrival::Chunk(choices) => ArrivalView::Chunk(choices_of(choices@)),
            Arrival::Failure(text) => ArrivalView::Failure(text@),
            Arrival::End => ArrivalView::End,
        }
    }
}

/// What a session hands out when it is asked for the next fragment.
#[derive(Debug)]
pub enum Fetched {
    /// The next fragment of the answer.
    Fragment(String),
    /// The error that ended the stream.
    Failure(String),
    /// The answer is over: complete, or cancelled.
    Exhausted,
    /// Nothing is at hand: the transport has to deliver first.
    Pending,
}

/// A fetched item as a mathematical value.
pub enum FetchedView {
    Fragment(Seq<char>),
    Failure(Seq<char>),
    Exhausted,
    Pending,
}

impl View for Fetched {
    type V = FetchedView;

    open spec fn view(&self) -> FetchedView {
        match self {
            Fetched::Fragment(text) => FetchedView::Fragment(text@),
            Fetched::Failure(text) => FetchedView::Failure(text@),
            Fetched::Exhausted => FetchedView::Exhausted,
            Fetched::Pending => FetchedView::Pending,
        }
    }
}

/// A session as a mathematical value.
pub struct SessionView {
    /// The fragments that arrived and were not handed out yet, oldest first.
    pub pending: Seq<Seq<char>>,
    /// The error that the transport reported, until it is handed out.
    pub failure: Option<Seq<char>>,
    /// Whether the provider said that the answer is complete.
    pub ended: bool,
    /// Whether the session has handed out its last item.
    pub finished: bool,
}

impl SessionView {
    /// A session on which nothing has arrived.
    pub open spec fn opened() -> SessionView {
        SessionView { pending: Seq::empty(), failure: None, ended: false, finished: false }
    }

    /// Whether the transport may still deliver.
    pub open spec fn listening(self) -> bool {
        !self.finished && !self.ended && self.failure is None
    }

    /// The session after an arrival. Once the transport has ended or failed,
    /// and once the session has finished, arrivals change nothing.
    pub open spec fn supply(self, arrival: ArrivalView) -> SessionView {
        if !self.listening() {
            self
        } else {
            match arrival {
                ArrivalView::Chunk(choices) => SessionView {
                    pending: self.pending + fragments_of(choices),
                    ..self
                },
                ArrivalView::Failure(text) => SessionView { failure: Some(text), ..self },
                ArrivalView::End => SessionView { ended: true, ..self },
            }
        }
    }

    /// The session after it was asked for the next fragment, and what it
    /// hands out. A raised cancellation ends the session at once and drops
    /// what had arrived; otherwise the fragments at hand go out first, then
    /// the error or the end that the transport reported.
    pub open spec fn next_fragment(self, cancelled: bool) -> (SessionView, FetchedView) {
        if self.finished {
            (self, FetchedView::Exhausted)
        } else if cancelled {
            (SessionView { pending: Seq::empty(), finished: true, ..self }, FetchedView::Exhausted)
        } else if self.pending.len() > 0 {
            (
                SessionView { pending: self.pending.drop_first(), ..self },
                FetchedView::Fragment(self.pending[0]),
            )
        } else if self.failure is Some {
            (
                SessionView { failure: None, finished: true, ..self },
                FetchedView::Failure(self.failure->0),
            )
        } else if self.ended {
            (SessionView { finished: true, ..self }, FetchedView::Exhausted)
        } else {
            (self, FetchedView::Pending)
        }
    }
}

/// One use of a session.
pub enum Use {
    /// The transport delivered.
    Supply(ArrivalView),
    /// The reader asked for the next item; `cancelled` says whether the
    /// cancellation signal was raised.
    Fetch { cancelled: bool },
}

impl SessionView {
    /// The session after one use.
    pub open spec fn used(self, one: Use) -> SessionView {
        match one {
            Use::Supply(arrival) => self.supply(arrival),
            Use::Fetch { cancelled } => self.next_fragment(cancelled).0,
        }
    }

    /// The fragments that one use brings in.
    pub open spec fn taken_in(self, one: Use) -> Seq<Seq<char>> {
        match one {
            Use::Supply(ArrivalView::Chunk(choices)) => if self.listening() {
                fragments_of(choices)
            } else {
                Seq::empty()
            },
            _ => Seq::empty(),
        }
    }

    /// The fragments that one use hands out: one, or none.
    pub open spec fn handed_out(self, one: Use) -> Seq<Seq<char>> {
        match one {
            Use::Fetch { cancelled } => match self.next_fragment(cancelled).1 {
                FetchedView::Fragment(text) => seq![text],
                _ => Seq::empty(),
            },
            _ => Seq::empty(),
        }
    }

    /// The session after a run of uses.
    pub open spec fn after(self, uses: Seq<Use>) -> SessionView
        decreases uses.len(),
    {
        if uses.len() == 0 {
            self
        } else {
            self.after(uses.drop_last()).used(uses.last())
        }
    }

    /// All the fragments that a run of uses brings in, in their order.
    pub open spec fn all_taken_in(self, uses: Seq<Use>) -> Seq<Seq<char>>
        decreases uses.len(),
    {
        if uses.len() == 0 {
            Seq::empty()
        } else {
            self.all_taken_in(uses.drop_last()) + self.after(uses.drop_last()).taken_in(
                uses.last(),
            )
        }
    }

    /// All the fragments that a run of uses hands out, in their order.
    pub open spec fn all_handed_out(self, uses: Seq<Use>) -> Seq<Seq<char>>
        decreases uses.len(),
    {
        if uses.len() == 0 {
            Seq::empty()
        } else {
            self.all_handed_out(uses.drop_last()) + self.after(uses.drop_last()).handed_out(
                uses.last(),
            )
        }
    }
}

/// Whether no fetch of a run saw the cancellation signal raised.
pub open spec fn uncancelled(uses: Seq<Use>) -> bool {
    forall|i: int|
        0 <= i < uses.len() ==> (#[trigger] uses[i] matches Use::Fetch { cancelled } ==> !cancelled)
}

/// However a session is used, what it hands out is the beginning of what
/// came in, in the same order: no fragment is handed out twice, none
/// overtakes another, none is made up. Until the session is over, what it
/// has handed out and what it still holds are together all that came in.
pub proof fn lemma_fragments_leave_in_arrival_order(session: SessionView, uses: Seq<Use>)
    ensures
        session.all_handed_out(uses).is_prefix_of(session.pending + session.all_taken_in(uses)),
        !session.after(uses).finished ==> session.all_handed_out(uses) + session.after(
            uses,
        ).pending == session.pending + session.all_taken_in(uses),
    decreases uses.len(),
{
    let total = session.pending + session.all_taken_in(uses);
    if uses.len() == 0 {
        assert(session.all_handed_out(uses) + session.pending =~= total);
    } else {
        let earlier = uses.drop_last();
        lemma_fragments_leave_in_arrival_order(session, earlier);
        let before = session.after(earlier);
        let out = session.all_handed_out(earlier);
        let came = session.pending + session.all_taken_in(earlier);
        let brought = before.taken_in(uses.last());
        assert(total =~= came + brought);
        if before.finished {
            assert(brought =~= Seq::<Seq<char>>::empty());
            assert(session.all_handed_out(uses) =~= out);
        } else {
            assert(out + before.pending == came);
            match uses.last() {
                Use::Supply(arrival) => {
                    assert(session.all_handed_out(uses) =~= out);
                    assert(out + session.after(uses).pending =~= total);
                },
                Use::Fetch { cancelled } => {
                    assert(total =~= came);
                    if !cancelled && before.pending.len() > 0 {
                        assert(session.all_handed_out(uses) =~= out.push(before.pending[0]));
                        assert(out.push(before.pending[0]) + before.pending.drop_first()
                            =~= out + before.pending);
                    } else {
                        assert(session.all_handed_out(uses) =~= out);
                        if !session.after(uses).finished {
                            assert(session.after(uses).pending == before.pending);
                        }
                    }
                },
            }
        }
    }
}

/// As long as no cancellation is raised, nothing that came in is dropped:
/// what the session has handed out and what it holds are together all that
/// came in, also when the stream has ended or failed.
pub proof fn lemma_nothing_is_dropped_unless_cancelled(session: SessionView, uses: Seq<Use>)
    requires
        uncancelled(uses),
    ensures
        session.all_handed_out(uses) + session.after(uses).pending == session.pending
            + session.all_taken_in(uses),
    decreases uses.len(),
{
    let total = session.pending + session.all_taken_in(uses);
    if uses.len() == 0 {
        assert(session.all_handed_out(uses) + session.pending =~= total);
    } else {
        let earlier = uses.drop_last();
        assert(uncancelled(earlier)) by {
            assert forall|i: int| 0 <= i < earlier.len() implies (#[trigger] earlier[i]
                matches Use::Fetch { cancelled } ==> !cancelled) by {
                assert(earlier[i] == uses[i]);
            }
        }
        lemma_nothing_is_dropped_unless_cancelled(session, earlier);
        let before = session.after(earlier);
        let out = session.all_handed_out(earlier);
        let came = session.pending + session.all_taken_in(earlier);
        let brought = before.taken_in(uses.last());
        assert(total =~= came + brought);
        match uses.last() {
            Use::Supply(arrival) => {
                assert(session.all_handed_out(uses) =~= out);
                assert(out + session.after(uses).pending =~= total);
            },
            Use::Fetch { cancelled } => {
                assert(uses[uses.len() - 1] == uses.last());
                assert(!cancelled);
                assert(total =~= came);
                if !before.finished && before.pending.len() > 0 {
                    assert(session.all_handed_out(uses) =~= out.push(before.pending[0]));
                    assert(out.push(before.pending[0]) + before.pending.drop_first() =~= out
                        + before.pending);
                } else {
                    assert(session.all_handed_out(uses) =~= out);
                    assert(session.after(uses).pending == before.pending);
                }
            },
        }
    }
}

/// A chunk's fragments queue up behind those at hand, in the order of the
/// chunk's choices, and a chunk is never more fragments than choices.
pub proof fn lemma_chunk_queues_behind(session: SessionView, choices: Seq<Option<Seq<char>>>)
    requires
        session.listening(),
    ensures
        session.supply(ArrivalView::Chunk(choices)).pending == session.pending + fragments_of(
            choices,
        ),
        fragments_of(choices).len() <= choices.len(),
    decreases choices.len(),
{
    if choices.len() > 0 {
        lemma_chunk_queues_behind(session, choices.drop_last());
    }
}

/// A raised cancellation ends the session without an error, whatever had
/// arrived, and a session that has ended stays as it is: it hands out
/// nothing more and takes nothing in.
pub proof fn lemma_cancellation_ends_the_session(
    session: SessionView,
    arrival: ArrivalView,
    cancelled: bool,
)
    ensures
        session.next_fragment(true).1 == FetchedView::Exhausted,
        session.next_fragment(true).0.finished,
        session.finished ==> session.next_fragment(cancelled) == (session, FetchedView::Exhausted),
        session.finished ==> session.supply(arrival) == session,
{
}

/// After the transport's error has gone out, the session is over.
pub proof fn lemma_error_is_final(session: SessionView)
    requires
        session.next_fragment(false).1 is Failure,
    ensures
        session.next_fragment(false).0.finished,
        session.failure == Some(session.next_fragment(false).1->Failure_0),
        session.pending.len() == 0,
{
}

/// The state of one streamed answer between the transport and the reader.
#[derive(Debug)]
pub struct Session {
    pending: Vec<String>,
    failure: Option<String>,
    ended: bool,
    finished: bool,
}

impl View for Session {
    type V = SessionView;

    closed spec fn view(&self) -> SessionView {
        SessionView {
            pending: texts_of(self.pending@),
            failure: match self.failure {
                Some(text) => Some(text@),
                None => None,
            },
            ended: self.ended,
            finished: self.finished,
        }
    }
}

impl Session {
    /// A session whose stream was just opened.
    pub fn new() -> (session: Self)
        ensures
            session@ == SessionView::opened(),
    {
        let session = Session { pending: Vec::new(), failure: None, ended: false, finished: false };
        assert(session@.pending =~= Seq::empty());
        session
    }

    /// Whether the session has handed out its last item.
    pub fn is_finished(&self) -> (finished: bool)
        ensures
            finished == self@.finished,
    {
        self.finished
    }

    /// Takes in what the transport delivered. Once the transport has ended
    /// or failed, and once the session is over, what is delivered is
    /// ignored.
    pub fn supply(&mut self, arrival: Arrival)
        ensures
            final(self)@ == old(self)@.supply(arrival@),
    {
        if self.finished || self.ended || self.failure.is_some() {
            return ;
        }
        match arrival {
            Arrival::Chunk(choices) => {
                let mut fragments = chunk_fragments(&choices);
                self.pending.append(&mut fragments);
                assert(self@.pending =~= old(self)@.pending + fragments_of(choices_of(choices@)));
            },
            Arrival::Failure(text) => {
                self.failure = Some(text);
            },
            Arrival::End => {
                self.ended = true;
            },
        }
    }

    /// Ends the session on the caller's wish: what had arrived is dropped,
    /// and the next fetch finds the answer over. On a session that is over
    /// already this changes nothing.
    pub fn cancel(&mut self)
        ensures
            final(self)@ == old(self)@.next_fragment(true).0,
            final(self)@.finished,
    {
        if !self.finished {
            self.pending.clear();
            self.finished = true;
            assert(self@.pending =~= Seq::empty());
        }
    }

    /// Hands out the next item of the answer. `cancelled` says whether the
    /// caller's cancellation signal is raised at this moment.
    pub fn next_fragment(&mut self, cancelled: bool) -> (fetched: Fetched)
        ensures
            (final(self)@, fetched@) == old(self)@.next_fragment(cancelled),
    {
        if self.finished {
            return Fetched::Exhausted;
        }
        if cancelled {
            self.pending.clear();
            self.finished = true;
            assert(self@.pending =~= Seq::empty());
            return Fetched::Exhausted;
        }
        if self.pending.len() > 0 {
            let text = self.pending.remove(0);
            assert(self@.pending =~= old(self)@.pending.drop_first());
            return Fetched::Fragment(text);
        }
        match self.failure.take() {
            Some(text) => {
                self.finished = true;
                Fetched::Failure(text)
            },
            None => {
                if self.ended {
                    self.finished = true;
                    Fetched::Exhausted
                } else {
                    Fetched::Pending
                }
            },
        }
    }
}

} // verus!
