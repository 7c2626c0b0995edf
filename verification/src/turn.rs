//! One turn of the conversation, as a machine: an event comes in, the state
//! moves on, and a command says what the caller has to do next. The caller
//! owns the lock, the disk, the network and the output channel; the machine
//! owns the order of things and what is committed.

use crate::history::{system_message, truncated, History};
use crate::message::{Message, MessageView};
use crate::request::{build_request, request_for, request_view, RequestView};
use crate::role::Role;
use crate::session::{Fetched, FetchedView};
use async_openai::types::CreateChatCompletionRequest;
use vstd::prelude::*;
use vstd::string::StringExecFns;

verus! {

/// Where a turn stands: what it is waiting for.
#[derive(Clone, Copy, Debug, PartialEq, Eq, Structural)]
pub enum Phase {
    /// Not started.
    Idle,
    /// Waiting for the turn lock.
    AcquiringLock,
    /// Waiting for the stored conversation.
    LoadingHistory,
    /// Waiting for the credential, with which the request is built.
    BuildingRequest,
    /// Waiting for the provider to accept the request.
    OpeningSession,
    /// Waiting for the next fragment of the answer.
    Streaming,
    /// Waiting for the conversation to be stored.
    Committing,
    /// Over: the lock is released and the result is handed out.
    Finished,
}

impl Phase {
    /// Whether a turn in this phase holds the turn lock.
    pub open spec fn holds_lock(self) -> bool {
        self == Phase::LoadingHistory || self == Phase::BuildingRequest || self
            == Phase::OpeningSession || self == Phase::Streaming || self == Phase::Committing
    }
}

/// What happened outside, told to the turn.
#[derive(Debug)]
pub enum Event {
    /// The caller submitted the turn.
    Start,
    /// The turn lock was acquired.
    LockAcquired,
    /// The stored conversation was read.
    HistoryLoaded(History),
    /// No conversation is stored.
    HistoryMissing,
    /// The stored conversation could not be read.
    LoadFailed(String),
    /// The credential was read.
    CredentialResolved(String),
    /// The credential could not be read.
    CredentialFailed(String),
    /// The provider accepted the request and the stream is open.
    SessionOpened,
    /// The provider could not be reached, or refused.
    ConnectFailed(String),
    /// The session handed out an item; `cancelled` says whether the caller's
    /// cancellation signal was raised when it did.
    Fetched { cancelled: bool, item: Fetched },
    /// The conversation was stored.
    Saved,
    /// The conversation could not be stored.
    SaveFailed(String),
}

/// An event as a mathematical value.
pub enum EventView {
    Start,
    LockAcquired,
    HistoryLoaded(Seq<MessageView>),
    HistoryMissing,
    LoadFailed(Seq<char>),
    CredentialResolved(Seq<char>),
    CredentialFailed(Seq<char>),
    SessionOpened,
    ConnectFailed(Seq<char>),
    Fetched { cancelled: bool, item: FetchedView },
    Saved,
    SaveFailed(Seq<char>),
}

impl View for Event {
    type V = EventView;

    open spec fn view(&self) -> EventView {
        match self {
            Event::Start => EventView::Start,
            Event::LockAcquired => EventView::LockAcquired,
            Event::HistoryLoaded(history) => EventView::HistoryLoaded(history@),
            Event::HistoryMissing => EventView::HistoryMissing,
            Event::LoadFailed(text) => EventView::LoadFailed(text@),
            Event::CredentialResolved(key) => EventView::CredentialResolved(key@),
            Event::CredentialFailed(text) => EventView::CredentialFailed(text@),
            Event::SessionOpened => EventView::SessionOpened,
            Event::ConnectFailed(text) => EventView::ConnectFailed(text@),
            Event::Fetched { cancelled, item } => EventView::Fetched {
                cancelled: *cancelled,
                item: item@,
            },
            Event::Saved => EventView::Saved,
            Event::SaveFailed(text) => EventView::SaveFailed(text@),
        }
    }
}

impl EventView {
    /// The phase in which the event is awaited.
    pub open spec fn awaited_in(self) -> Phase {
        match self {
            EventView::Start => Phase::Idle,
            EventView::LockAcquired => Phase::AcquiringLock,
            EventView::HistoryLoaded(_) => Phase::LoadingHistory,
            EventView::HistoryMissing => Phase::LoadingHistory,
            EventView::LoadFailed(_) => Phase::LoadingHistory,
            EventView::CredentialResolved(_) => Phase::BuildingRequest,
            EventView::CredentialFailed(_) => Phase::BuildingRequest,
            EventView::SessionOpened => Phase::OpeningSession,
            EventView::ConnectFailed(_) => Phase::OpeningSession,
            EventView::Fetched { .. } => Phase::Streaming,
            EventView::Saved => Phase::Committing,
            EventView::SaveFailed(_) => Phase::Committing,
        }
    }
}

/// Something for the caller's output channel. It is sent and forgotten.
#[derive(Debug)]
pub enum Notice {
    /// A fragment of the answer, for the channel `chat-message`.
    ChatMessage(String),
    /// An error of the stream, for the channel `stream-error`.
    StreamError(String),
}

/// The channel on which fragments of the answer are sent.
pub const CHAT_MESSAGE: &'static str = "chat-message";

/// The channel on which errors of the stream are sent.
pub const STREAM_ERROR: &'static str = "stream-error";

/// The channel on which the caller asks to stop the stream.
pub const CANCEL_STREAM: &'static str = "cancel-stream";

impl Notice {
    /// The channel that the notice goes to.
    pub fn channel(&self) -> (channel: &'static str)
        ensures
            channel@ == match self {
                Notice::ChatMessage(_) => CHAT_MESSAGE@,
                Notice::StreamError(_) => STREAM_ERROR@,
            },
    {
        match self {
            Notice::ChatMessage(_) => CHAT_MESSAGE,
            Notice::StreamError(_) => STREAM_ERROR,
        }
    }

    /// The text that the notice carries.
    pub fn payload(&self) -> (payload: &str)
        ensures
            payload@ == match self {
                Notice::ChatMessage(text) => text@,
                Notice::StreamError(text) => text@,
            },
    {
        match self {
            Notice::ChatMessage(text) => text.as_str(),
            Notice::StreamError(text) => text.as_str(),
        }
    }
}

/// A notice as a mathematical value.
pub enum NoticeView {
    ChatMessage(Seq<char>),
    StreamError(Seq<char>),
}

impl View for Notice {
    type V = NoticeView;

    open spec fn view(&self) -> NoticeView {
        match self {
            Notice::ChatMessage(text) => NoticeView::ChatMessage(text@),
            Notice::StreamError(text) => NoticeView::StreamError(text@),
        }
    }
}

/// What the caller has to do next.
#[derive(Debug)]
pub enum Command {
    /// Acquire the turn lock, then report `LockAcquired`.
    AcquireLock,
    /// Read the stored conversation, then report how that went.
    LoadHistory,
    /// Read the credential, then report how that went.
    ResolveCredential,
    /// Open the stream for this request, then report how that went.
    OpenSession { request: CreateChatCompletionRequest, credential: String },
    /// Ask the session for its next item, then report it.
    Fetch,
    /// Store the turn's conversation, then report how that went.
    SaveHistory,
    /// Release the turn lock and hand this result to the caller.
    Finish(Result<String, String>),
    /// The event was not awaited: nothing changed, go on as before.
    Ignore,
}

/// A command as a mathematical value.
pub enum CommandView {
    AcquireLock,
    LoadHistory,
    ResolveCredential,
    OpenSession { request: RequestView, credential: Seq<char> },
    Fetch,
    SaveHistory,
    Finish(Result<Seq<char>, Seq<char>>),
    Ignore,
}

impl View for Command {
    type V = CommandView;

    open spec fn view(&self) -> CommandView {
        match self {
            Command::AcquireLock => CommandView::AcquireLock,
            Command::LoadHistory => CommandView::LoadHistory,
            Command::ResolveCredential => CommandView::ResolveCredential,
            Command::OpenSession { request, credential } => CommandView::OpenSession {
                request: request_view(*request),
                credential: credential@,
            },
            Command::Fetch => CommandView::Fetch,
            Command::SaveHistory => CommandView::SaveHistory,
            Command::Finish(result) => CommandView::Finish(
                match result {
                    Ok(text) => Ok(text@),
                    Err(text) => Err(text@),
                },
            ),
            Command::Ignore => CommandView::Ignore,
        }
    }
}

/// The turn's answer to an event.
#[derive(Debug)]
pub struct Step {
    /// What to send to the output channel first, if anything.
    pub notice: Option<Notice>,
    /// What to do next.
    pub command: Command,
}

/// A step as a mathematical value.
pub struct StepView {
    pub notice: Option<NoticeView>,
    pub command: CommandView,
}

impl View for Step {
    type V = StepView;

    open spec fn view(&self) -> StepView {
        StepView {
            notice: match self.notice {
                Some(notice) => Some(notice@),
                None => None,
            },
            command: self.command@,
        }
    }
}

impl StepView {
    /// A step that only gives a command.
    pub open spec fn quiet(command: CommandView) -> StepView {
        StepView { notice: None, command }
    }
}

/// The text that reports a credential that could not be read.
pub open spec fn credential_failure(reason: Seq<char>) -> Seq<char> {
    "Error: "@ + reason
}

/// The text that reports a stream that could not be started.
pub open spec fn start_failure(reason: Seq<char>) -> Seq<char> {
    "Failed to start conversation: "@ + reason
}

/// The text that reports a conversation that could not be stored.
pub open spec fn save_failure(reason: Seq<char>) -> Seq<char> {
    "Failed to write history: "@ + reason
}

/// A turn as a mathematical value.
pub struct TurnView {
    pub phase: Phase,
    /// The caller's text.
    pub user_text: Seq<char>,
    /// Whether the economy model is asked.
    pub low_cost: bool,
    /// The configured system prompt.
    pub system_prompt: Seq<char>,
    /// The configured bound on the conversation's length.
    pub max_history: nat,
    /// The conversation that the turn works on.
    pub history: Seq<MessageView>,
    /// The answer as far as it has arrived.
    pub response: Seq<char>,
}

impl TurnView {
    /// A turn that was not started: its conversation is the fresh one.
    pub open spec fn submitted(
        user_text: Seq<char>,
        low_cost: bool,
        system_prompt: Seq<char>,
        max_history: nat,
    ) -> TurnView {
        TurnView {
            phase: Phase::Idle,
            user_text,
            low_cost,
            system_prompt,
            max_history,
            history: seq![system_message(system_prompt)],
            response: Seq::empty(),
        }
    }

    /// The turn in another phase.
    pub open spec fn at(self, phase: Phase) -> TurnView {
        TurnView { phase, ..self }
    }

    /// The turn once `stored` is the conversation to work on: the caller's
    /// text is added as the user's message and the conversation is cut.
    pub open spec fn opened_on(self, stored: Seq<MessageView>) -> TurnView {
        TurnView {
            phase: Phase::BuildingRequest,
            history: truncated(
                stored.push(MessageView { role: Role::USER, content: self.user_text }),
                self.max_history,
                self.system_prompt,
            ),
            ..self
        }
    }

    /// The turn once the stream is over: what has arrived is the
    /// assistant's message.
    pub open spec fn committed(self) -> TurnView {
        TurnView {
            phase: Phase::Committing,
            history: self.history.push(
                MessageView { role: Role::ASSISTANT, content: self.response },
            ),
            ..self
        }
    }

    /// The turn after an event, and its answer. An event that is not
    /// awaited in the turn's phase changes nothing.
    pub open spec fn advance(self, event: EventView) -> (TurnView, StepView) {
        if self.phase != event.awaited_in() {
            (self, StepView::quiet(CommandView::Ignore))
        } else {
            match event {
                EventView::Start => (
                    self.at(Phase::AcquiringLock),
                    StepView::quiet(CommandView::AcquireLock),
                ),
                EventView::LockAcquired => (
                    self.at(Phase::LoadingHistory),
                    StepView::quiet(CommandView::LoadHistory),
                ),
                EventView::HistoryLoaded(stored) => (
                    self.opened_on(stored),
                    StepView::quiet(CommandView::ResolveCredential),
                ),
                EventView::HistoryMissing => (
                    self.opened_on(seq![system_message(self.system_prompt)]),
                    StepView::quiet(CommandView::ResolveCredential),
                ),
                EventView::LoadFailed(reason) => (
                    self.at(Phase::Finished),
                    StepView::quiet(CommandView::Finish(Err(reason))),
                ),
                EventView::CredentialResolved(credential) => (
                    self.at(Phase::OpeningSession),
                    StepView::quiet(
                        CommandView::OpenSession {
                            request: request_for(self.history, self.low_cost),
                            credential,
                        },
                    ),
                ),
                EventView::CredentialFailed(reason) => (
                    self.at(Phase::Finished),
                    StepView::quiet(CommandView::Finish(Err(credential_failure(reason)))),
                ),
                EventView::SessionOpened => (
                    self.at(Phase::Streaming),
                    StepView::quiet(CommandView::Fetch),
                ),
                EventView::ConnectFailed(reason) => (
                    self.at(Phase::Finished),
                    StepView::quiet(CommandView::Finish(Err(start_failure(reason)))),
                ),
                EventView::Fetched { cancelled, item } => if item is Exhausted || cancelled {
                    (self.committed(), StepView::quiet(CommandView::SaveHistory))
                } else {
                    match item {
                        FetchedView::Fragment(text) => (
                            TurnView { response: self.response + text, ..self },
                            StepView {
                                notice: Some(NoticeView::ChatMessage(text)),
                                command: CommandView::Fetch,
                            },
                        ),
                        FetchedView::Failure(reason) => (
                            self.committed(),
                            StepView {
                                notice: Some(NoticeView::StreamError(reason)),
                                command: CommandView::SaveHistory,
                            },
                        ),
                        _ => (self, StepView::quiet(CommandView::Fetch)),
                    }
                },
                EventView::Saved => (
                    self.at(Phase::Finished),
                    StepView::quiet(CommandView::Finish(Ok(self.response))),
                ),
                EventView::SaveFailed(reason) => (
                    self.at(Phase::Finished),
                    StepView::quiet(CommandView::Finish(Err(save_failure(reason)))),
                ),
            }
        }
    }
}

/// One turn: the caller's text on its way to an answer that is committed to
/// the conversation.
#[derive(Debug)]
pub struct Turn {
    phase: Phase,
    user_text: String,
    low_cost: bool,
    system_prompt: String,
    max_history: usize,
    history: History,
    response: String,
}

impl View for Turn {
    type V = TurnView;

    closed spec fn view(&self) -> TurnView {
        TurnView {
            phase: self.phase,
            user_text: self.user_text@,
            low_cost: self.low_cost,
            system_prompt: self.system_prompt@,
            max_history: self.max_history as nat,
            history: self.history@,
            response: self.response@,
        }
    }
}

/// A text made of a fixed opening and a reason.
fn prefixed(opening: &str, reason: &str) -> (text: String)
    ensures
        text@ == opening@ + reason@,
{
    let mut text = opening.to_owned();
    text.append(reason);
    text
}

impl Turn {
    /// A turn for the caller's text. `low_cost` asks for the economy model;
    /// `system_prompt` and `max_history` are the conversation's settings.
    pub fn new(user_text: &str, low_cost: bool, system_prompt: &str, max_history: usize) -> (turn:
        Self)
        ensures
            turn@ == TurnView::submitted(
                user_text@,
                low_cost,
                system_prompt@,
                max_history as nat,
            ),
    {
        Turn {
            phase: Phase::Idle,
            user_text: user_text.to_owned(),
            low_cost,
            system_prompt: system_prompt.to_owned(),
            max_history,
            history: History::new(system_prompt),
            response: String::new(),
        }
    }

    /// The identifier of the conversation that the turn works on.
    pub closed spec fn conversation_id(&self) -> uuid::Uuid {
        self.history.spec_id()
    }

    /// Where the turn stands.
    pub fn phase(&self) -> (phase: Phase)
        ensures
            phase == self@.phase,
    {
        self.phase
    }

    /// The conversation that the turn works on. This is what `SaveHistory`
    /// asks to store.
    pub fn history(&self) -> (history: &History)
        ensures
            history@ == self@.history,
            history.spec_id() == self.conversation_id(),
    {
        &self.history
    }

    /// The answer as far as it has arrived.
    pub fn response(&self) -> (response: &str)
        ensures
            response@ == self@.response,
    {
        self.response.as_str()
    }

    /// Ends the turn with `outcome`.
    fn finish(&mut self, outcome: Result<String, String>) -> (step: Step)
        ensures
            final(self)@ == old(self)@.at(Phase::Finished),
            final(self).conversation_id() == old(self).conversation_id(),
            step@ == StepView::quiet(
                CommandView::Finish(
                    match outcome {
                        Ok(text) => Ok(text@),
                        Err(text) => Err(text@),
                    },
                ),
            ),
    {
        self.phase = Phase::Finished;
        Step { notice: None, command: Command::Finish(outcome) }
    }

    /// Moves to `phase` and gives `command`.
    fn proceed(&mut self, phase: Phase, command: Command) -> (step: Step)
        ensures
            final(self)@ == old(self)@.at(phase),
            final(self).conversation_id() == old(self).conversation_id(),
            step@ == StepView::quiet(command@),
    {
        self.phase = phase;
        Step { notice: None, command }
    }

    /// Takes `stored` as the conversation, adds the caller's text and cuts.
    fn open_on(&mut self, stored: History) -> (step: Step)
        ensures
            final(self)@ == old(self)@.opened_on(stored@),
            final(self).conversation_id() == stored.spec_id(),
            step@ == StepView::quiet(CommandView::ResolveCredential),
    {
        let mut history = stored;
        history.push(Message::new(Role::USER, self.user_text.as_str()));
        history.truncate(self.max_history, self.system_prompt.as_str());
        self.history = history;
        self.phase = Phase::BuildingRequest;
        Step { notice: None, command: Command::ResolveCredential }
    }

    /// Makes what has arrived the assistant's message and asks to store the
    /// conversation.
    fn commit(&mut self, notice: Option<Notice>) -> (step: Step)
        ensures
            final(self)@ == old(self)@.committed(),
            final(self).conversation_id() == old(self).conversation_id(),
            step.command@ == CommandView::SaveHistory,
            step.notice == notice,
    {
        self.history.push(Message::new(Role::ASSISTANT, self.response.as_str()));
        self.phase = Phase::Committing;
        Step { notice, command: Command::SaveHistory }
    }

    /// What follows the building of the request, for each way in which the
    /// building can end: the stream is to be opened with the request, or
    /// the turn ends with the failure's text.
    fn request_built(&mut self, credential: String, built: Result<
        CreateChatCompletionRequest,
        String,
    >) -> (step: Step)
        ensures
            built matches Ok(request) ==> final(self)@ == old(self)@.at(Phase::OpeningSession)
                && step@ == StepView::quiet(
                CommandView::OpenSession {
                    request: request_view(request),
                    credential: credential@,
                },
            ),
            built matches Err(reason) ==> final(self)@ == old(self)@.at(Phase::Finished) && step@
                == StepView::quiet(CommandView::Finish(Err(start_failure(reason@)))),
            final(self).conversation_id() == old(self).conversation_id(),
    {
        match built {
            Ok(request) => self.proceed(
                Phase::OpeningSession,
                Command::OpenSession { request, credential },
            ),
            Err(reason) => {
                let text = prefixed("Failed to start conversation: ", reason.as_str());
                self.finish(Err(text))
            },
        }
    }

    /// Takes in one event and answers with what to do next. The turn keeps
    /// the conversation that it works on, under its identifier, until a
    /// stored one is read in: from then on it works on that one. Where none
    /// is stored it starts a new one.
    pub fn step(&mut self, event: Event) -> (step: Step)
        ensures
            (final(self)@, step@) == old(self)@.advance(event@),
            old(self)@.phase == Phase::LoadingHistory && event is HistoryLoaded
                ==> final(self).conversation_id() == event->HistoryLoaded_0.spec_id(),
            !(old(self)@.phase == Phase::LoadingHistory && (event is HistoryLoaded || event
                is HistoryMissing))
                ==> final(self).conversation_id() == old(self).conversation_id(),
    {
        match event {
            Event::Start => {
                if self.phase == Phase::Idle {
                    return self.proceed(Phase::AcquiringLock, Command::AcquireLock);
                }
            },
            Event::LockAcquired => {
                if self.phase == Phase::AcquiringLock {
                    return self.proceed(Phase::LoadingHistory, Command::LoadHistory);
                }
            },
            Event::HistoryLoaded(stored) => {
                if self.phase == Phase::LoadingHistory {
                    return self.open_on(stored);
                }
            },
            Event::HistoryMissing => {
                if self.phase == Phase::LoadingHistory {
                    let fresh = History::new(self.system_prompt.as_str());
                    return self.open_on(fresh);
                }
            },
            Event::LoadFailed(reason) => {
                if self.phase == Phase::LoadingHistory {
                    return self.finish(Err(reason));
                }
            },
            Event::CredentialResolved(credential) => {
                if self.phase == Phase::BuildingRequest {
                    let built = build_request(&self.history, self.low_cost);
                    return self.request_built(credential, built);
                }
            },
            Event::CredentialFailed(reason) => {
                if self.phase == Phase::BuildingRequest {
                    let text = prefixed("Error: ", reason.as_str());
                    return self.finish(Err(text));
                }
            },
            Event::SessionOpened => {
                if self.phase == Phase::OpeningSession {
                    return self.proceed(Phase::Streaming, Command::Fetch);
                }
            },
            Event::ConnectFailed(reason) => {
                if self.phase == Phase::OpeningSession {
                    let text = prefixed("Failed to start conversation: ", reason.as_str());
                    return self.finish(Err(text));
                }
            },
            Event::Fetched { cancelled, item } => {
                if self.phase == Phase::Streaming {
                    if cancelled {
                        return self.commit(None);
                    }
                    return match item {
                        Fetched::Exhausted => self.commit(None),
                        Fetched::Fragment(text) => {
                            self.response.append(text.as_str());
                            Step {
                                notice: Some(Notice::ChatMessage(text)),
                                command: Command::Fetch,
                            }
                        },
                        Fetched::Failure(reason) => self.commit(Some(Notice::StreamError(reason))),
                        Fetched::Pending => Step { notice: None, command: Command::Fetch },
                    };
                }
            },
            Event::Saved => {
                if self.phase == Phase::Committing {
                    let text = self.response.clone();
                    return self.finish(Ok(text));
                }
            },
            Event::SaveFailed(reason) => {
                if self.phase == Phase::Committing {
                    let text = prefixed("Failed to write history: ", reason.as_str());
                    return self.finish(Err(text));
                }
            },
        }
        Step { notice: None, command: Command::Ignore }
    }
}

} // verus!
