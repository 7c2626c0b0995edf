use async_openai::types::CreateChatCompletionRequest;
use coding_assistant::{
    Arrival, Command, Event, Fetched, History, Message, Notice, Phase, Role, Session, Turn,
    CANCEL_STREAM, CHAT_MESSAGE, STREAM_ERROR,
};

const PROMPT: &str = "You are a helpful assistant.";
const BOUND: usize = 12;

/// What a stand-in session does when it is asked for an item.
#[derive(Clone, Debug)]
enum Item {
    Fragment(&'static str),
    Error(&'static str),
    RaiseCancel,
}

/// The outside of a turn, scripted.
struct Outside {
    stored: Option<History>,
    load_error: Option<&'static str>,
    credential: Result<&'static str, &'static str>,
    connect_error: Option<&'static str>,
    items: Vec<Item>,
    save_error: Option<&'static str>,
    lock_held: bool,
    loads: usize,
    saves: usize,
    opened: Vec<(CreateChatCompletionRequest, String)>,
    chat_messages: Vec<String>,
    stream_errors: Vec<String>,
}

impl Outside {
    fn new(items: Vec<Item>) -> Outside {
        Outside {
            stored: None,
            load_error: None,
            credential: Ok("sk-test"),
            connect_error: None,
            items,
            save_error: None,
            lock_held: false,
            loads: 0,
            saves: 0,
            opened: Vec::new(),
            chat_messages: Vec::new(),
            stream_errors: Vec::new(),
        }
    }

    fn stored_shape(&self) -> Vec<(Role, String)> {
        shape(self.stored.as_ref().unwrap())
    }
}

fn shape(history: &History) -> Vec<(Role, String)> {
    history.messages().iter().map(|m| (m.role(), m.content().to_string())).collect()
}

fn entry(role: Role, content: &str) -> (Role, String) {
    (role, content.to_string())
}

/// Drives one turn against the scripted outside, as a caller would.
fn run_turn(outside: &mut Outside, text: &str, low_cost: bool) -> Result<String, String> {
    let mut turn = Turn::new(text, low_cost, PROMPT, BOUND);
    let mut remaining = outside.items.clone().into_iter();
    let mut cancelled = false;
    let mut step = turn.step(Event::Start);
    loop {
        if let Some(notice) = &step.notice {
            let payload = notice.payload().to_string();
            match notice.channel() {
                "chat-message" => outside.chat_messages.push(payload),
                "stream-error" => outside.stream_errors.push(payload),
                other => panic!("unknown channel {}", other),
            }
        }
        let event = match step.command {
            Command::AcquireLock => {
                assert!(!outside.lock_held, "the lock is taken twice");
                outside.lock_held = true;
                Event::LockAcquired
            }
            Command::LoadHistory => {
                assert!(outside.lock_held);
                outside.loads += 1;
                match (outside.load_error, &outside.stored) {
                    (Some(reason), _) => Event::LoadFailed(reason.to_string()),
                    (None, Some(history)) => Event::HistoryLoaded(history.clone()),
                    (None, None) => Event::HistoryMissing,
                }
            }
            Command::ResolveCredential => match outside.credential {
                Ok(key) => Event::CredentialResolved(key.to_string()),
                Err(reason) => Event::CredentialFailed(reason.to_string()),
            },
            Command::OpenSession { request, credential } => {
                outside.opened.push((request, credential));
                match outside.connect_error {
                    Some(reason) => Event::ConnectFailed(reason.to_string()),
                    None => Event::SessionOpened,
                }
            }
            Command::Fetch => {
                assert!(outside.lock_held);
                let mut item = remaining.next();
                while let Some(Item::RaiseCancel) = item {
                    cancelled = true;
                    item = remaining.next();
                }
                let item = match item {
                    Some(Item::Fragment(text)) => Fetched::Fragment(text.to_string()),
                    Some(Item::Error(reason)) => Fetched::Failure(reason.to_string()),
                    _ => Fetched::Exhausted,
                };
                Event::Fetched { cancelled, item }
            }
            Command::SaveHistory => {
                assert!(outside.lock_held);
                outside.saves += 1;
                match outside.save_error {
                    Some(reason) => Event::SaveFailed(reason.to_string()),
                    None => {
                        outside.stored = Some(turn.history().clone());
                        Event::Saved
                    }
                }
            }
            Command::Finish(result) => {
                assert!(outside.lock_held);
                outside.lock_held = false;
                assert_eq!(turn.phase(), Phase::Finished);
                return result;
            }
            Command::Ignore => panic!("the turn ignored an event that it had asked for"),
        };
        step = turn.step(event);
    }
}

#[test]
fn complete_answer_is_appended_and_persisted() {
    let mut outside = Outside::new(vec![Item::Fragment("Hel"), Item::Fragment("lo")]);
    let result = run_turn(&mut outside, "greet me", false);
    assert_eq!(result, Ok("Hello".to_string()));
    assert_eq!(outside.chat_messages, vec!["Hel".to_string(), "lo".to_string()]);
    assert!(outside.stream_errors.is_empty());
    assert_eq!(outside.saves, 1);
    assert_eq!(
        outside.stored_shape(),
        vec![
            entry(Role::SYSTEM, PROMPT),
            entry(Role::USER, "greet me"),
            entry(Role::ASSISTANT, "Hello"),
        ]
    );
    assert!(!outside.lock_held);
}

#[test]
fn cancellation_commits_what_arrived_and_releases_the_lock() {
    let mut outside =
        Outside::new(vec![Item::Fragment("A"), Item::RaiseCancel, Item::Fragment("B")]);
    let result = run_turn(&mut outside, "first", true);
    assert_eq!(result, Ok("A".to_string()));
    assert_eq!(outside.chat_messages, vec!["A".to_string()]);
    assert!(outside.stream_errors.is_empty());
    assert_eq!(
        outside.stored_shape(),
        vec![entry(Role::SYSTEM, PROMPT), entry(Role::USER, "first"), entry(Role::ASSISTANT, "A")]
    );
    assert!(!outside.lock_held);

    outside.items = vec![Item::Fragment("again")];
    let second = run_turn(&mut outside, "second", true);
    assert_eq!(second, Ok("again".to_string()));
    assert_eq!(
        outside.stored_shape(),
        vec![
            entry(Role::SYSTEM, PROMPT),
            entry(Role::USER, "first"),
            entry(Role::ASSISTANT, "A"),
            entry(Role::USER, "second"),
            entry(Role::ASSISTANT, "again"),
        ]
    );
    assert!(!outside.lock_held);
}

#[test]
fn immediate_stream_error_commits_an_empty_answer() {
    let mut outside = Outside::new(vec![Item::Error("stream failed"), Item::Fragment("late")]);
    let result = run_turn(&mut outside, "hello", false);
    assert_eq!(result, Ok(String::new()));
    assert!(outside.chat_messages.is_empty());
    assert_eq!(outside.stream_errors, vec!["stream failed".to_string()]);
    assert_eq!(outside.saves, 1);
    assert_eq!(
        outside.stored_shape(),
        vec![entry(Role::SYSTEM, PROMPT), entry(Role::USER, "hello"), entry(Role::ASSISTANT, "")]
    );
    assert!(!outside.lock_held);
}

#[test]
fn stream_error_after_fragments_keeps_them() {
    let mut outside = Outside::new(vec![Item::Fragment("par"), Item::Error("reset")]);
    let result = run_turn(&mut outside, "hello", false);
    assert_eq!(result, Ok("par".to_string()));
    assert_eq!(outside.stream_errors, vec!["reset".to_string()]);
    assert_eq!(outside.stored_shape()[2], entry(Role::ASSISTANT, "par"));
}

#[test]
fn empty_stream_commits_an_empty_answer() {
    let mut outside = Outside::new(Vec::new());
    assert_eq!(run_turn(&mut outside, "hello", false), Ok(String::new()));
    assert_eq!(outside.stored_shape()[2], entry(Role::ASSISTANT, ""));
}

#[test]
fn second_turn_loads_what_the_first_saved() {
    let mut outside = Outside::new(vec![Item::Fragment("one")]);
    assert_eq!(run_turn(&mut outside, "q1", false), Ok("one".to_string()));
    outside.items = vec![Item::Fragment("two")];
    assert_eq!(run_turn(&mut outside, "q2", false), Ok("two".to_string()));
    assert_eq!(outside.loads, 2);
    assert_eq!(outside.saves, 2);
    let (request, credential) = &outside.opened[1];
    assert_eq!(credential, "sk-test");
    assert_eq!(request.messages.len(), 4);
    assert_eq!(
        outside.stored_shape(),
        vec![
            entry(Role::SYSTEM, PROMPT),
            entry(Role::USER, "q1"),
            entry(Role::ASSISTANT, "one"),
            entry(Role::USER, "q2"),
            entry(Role::ASSISTANT, "two"),
        ]
    );
}

#[test]
fn request_is_built_from_the_cut_conversation() {
    let mut messages = vec![Message::new(Role::SYSTEM, "old prompt")];
    for i in 0..7 {
        messages.push(Message::new(Role::USER, &format!("q{}", i)));
        messages.push(Message::new(Role::ASSISTANT, &format!("a{}", i)));
    }
    let mut outside = Outside::new(vec![Item::Fragment("ok")]);
    outside.stored = Some(History::from_parts(uuid::Uuid::from_u128(9), messages));
    assert_eq!(run_turn(&mut outside, "latest", true), Ok("ok".to_string()));
    let (request, _) = &outside.opened[0];
    assert_eq!(request.model, "gpt-3.5-turbo-1106");
    assert_eq!(request.messages.len(), BOUND + 1);
    let stored = outside.stored_shape();
    assert_eq!(stored.len(), BOUND + 2);
    assert_eq!(stored[0], entry(Role::SYSTEM, PROMPT));
    assert_eq!(stored[1], entry(Role::ASSISTANT, "a1"));
    assert_eq!(stored[BOUND], entry(Role::USER, "latest"));
    assert_eq!(stored[BOUND + 1], entry(Role::ASSISTANT, "ok"));
    assert_eq!(outside.stored.as_ref().unwrap().id(), uuid::Uuid::from_u128(9));
}

#[test]
fn load_failure_ends_the_turn_with_its_text() {
    let mut outside = Outside::new(vec![Item::Fragment("never")]);
    outside.load_error = Some("permission denied");
    assert_eq!(run_turn(&mut outside, "hello", false), Err("permission denied".to_string()));
    assert_eq!(outside.saves, 0);
    assert!(outside.opened.is_empty());
    assert!(!outside.lock_held);
}

#[test]
fn credential_failure_ends_the_turn_without_saving() {
    let mut outside = Outside::new(vec![Item::Fragment("never")]);
    outside.credential = Err("Failed to get home directory.");
    assert_eq!(
        run_turn(&mut outside, "hello", false),
        Err("Error: Failed to get home directory.".to_string())
    );
    assert_eq!(outside.saves, 0);
    assert!(outside.stored.is_none());
    assert!(outside.opened.is_empty());
    assert!(!outside.lock_held);
}

#[test]
fn connection_failure_ends_the_turn_without_saving() {
    let mut outside = Outside::new(vec![Item::Fragment("never")]);
    outside.connect_error = Some("dns error");
    assert_eq!(
        run_turn(&mut outside, "hello", false),
        Err("Failed to start conversation: dns error".to_string())
    );
    assert_eq!(outside.saves, 0);
    assert!(outside.stored.is_none());
    assert!(outside.chat_messages.is_empty());
    assert!(!outside.lock_held);
}

#[test]
fn save_failure_is_reported_and_the_answer_stays_in_memory() {
    let mut turn = Turn::new("hello", false, PROMPT, BOUND);
    turn.step(Event::Start);
    turn.step(Event::LockAcquired);
    turn.step(Event::HistoryMissing);
    turn.step(Event::CredentialResolved("k".to_string()));
    turn.step(Event::SessionOpened);
    turn.step(Event::Fetched { cancelled: false, item: Fetched::Fragment("kept".to_string()) });
    let step = turn.step(Event::Fetched { cancelled: false, item: Fetched::Exhausted });
    assert!(matches!(step.command, Command::SaveHistory));
    let step = turn.step(Event::SaveFailed("disk full".to_string()));
    match step.command {
        Command::Finish(result) => {
            assert_eq!(result, Err("Failed to write history: disk full".to_string()))
        }
        other => panic!("not finished: {:?}", other),
    }
    assert_eq!(turn.phase(), Phase::Finished);
    assert_eq!(turn.response(), "kept");
    assert_eq!(shape(turn.history())[2], entry(Role::ASSISTANT, "kept"));
}

#[test]
fn events_out_of_turn_are_ignored() {
    let mut turn = Turn::new("hello", false, PROMPT, BOUND);
    assert_eq!(turn.phase(), Phase::Idle);
    let step = turn.step(Event::Saved);
    assert!(matches!(step.command, Command::Ignore));
    assert!(step.notice.is_none());
    assert_eq!(turn.phase(), Phase::Idle);
    let step = turn.step(Event::Fetched {
        cancelled: false,
        item: Fetched::Fragment("x".to_string()),
    });
    assert!(matches!(step.command, Command::Ignore));
    assert_eq!(turn.response(), "");
    turn.step(Event::Start);
    assert_eq!(turn.phase(), Phase::AcquiringLock);
    let step = turn.step(Event::HistoryMissing);
    assert!(matches!(step.command, Command::Ignore));
    assert_eq!(turn.phase(), Phase::AcquiringLock);
}

#[test]
fn finished_turn_ignores_everything() {
    let mut outside = Outside::new(vec![Item::Fragment("x")]);
    assert!(run_turn(&mut outside, "hello", false).is_ok());
    let mut turn = Turn::new("hello", false, PROMPT, BOUND);
    turn.step(Event::Start);
    turn.step(Event::LockAcquired);
    turn.step(Event::LoadFailed("no".to_string()));
    assert_eq!(turn.phase(), Phase::Finished);
    assert!(matches!(turn.step(Event::Start).command, Command::Ignore));
    assert!(matches!(turn.step(Event::LockAcquired).command, Command::Ignore));
    assert!(matches!(turn.step(Event::Saved).command, Command::Ignore));
    assert_eq!(turn.phase(), Phase::Finished);
}

#[test]
fn pending_fetch_asks_again() {
    let mut turn = Turn::new("hello", false, PROMPT, BOUND);
    turn.step(Event::Start);
    turn.step(Event::LockAcquired);
    turn.step(Event::HistoryMissing);
    turn.step(Event::CredentialResolved("k".to_string()));
    turn.step(Event::SessionOpened);
    let step = turn.step(Event::Fetched { cancelled: false, item: Fetched::Pending });
    assert!(matches!(step.command, Command::Fetch));
    assert!(step.notice.is_none());
    assert_eq!(turn.phase(), Phase::Streaming);
    let step = turn.step(Event::Fetched { cancelled: true, item: Fetched::Pending });
    assert!(matches!(step.command, Command::SaveHistory));
    assert_eq!(turn.phase(), Phase::Committing);
}

#[test]
fn waiting_turn_cannot_touch_the_store_of_the_turn_at_work() {
    let mut first = Turn::new("one", false, PROMPT, BOUND);
    let mut second = Turn::new("two", false, PROMPT, BOUND);
    assert!(matches!(first.step(Event::Start).command, Command::AcquireLock));
    assert!(matches!(second.step(Event::Start).command, Command::AcquireLock));
    assert!(matches!(first.step(Event::LockAcquired).command, Command::LoadHistory));

    // The lock is taken: whatever the second turn is told, it asks for nothing.
    let stale = History::new(PROMPT);
    assert!(matches!(second.step(Event::HistoryLoaded(stale)).command, Command::Ignore));
    assert!(matches!(second.step(Event::HistoryMissing).command, Command::Ignore));
    assert!(matches!(second.step(Event::Saved).command, Command::Ignore));
    assert_eq!(second.phase(), Phase::AcquiringLock);

    first.step(Event::HistoryMissing);
    first.step(Event::CredentialResolved("k".to_string()));
    first.step(Event::SessionOpened);
    first.step(Event::Fetched { cancelled: false, item: Fetched::Fragment("1".to_string()) });
    let step = first.step(Event::Fetched { cancelled: false, item: Fetched::Exhausted });
    assert!(matches!(step.command, Command::SaveHistory));
    let stored = first.history().clone();
    assert!(matches!(first.step(Event::Saved).command, Command::Finish(Ok(_))));

    // The lock is free again: the second turn goes on from what was stored.
    assert!(matches!(second.step(Event::LockAcquired).command, Command::LoadHistory));
    second.step(Event::HistoryLoaded(stored));
    assert_eq!(
        shape(second.history()),
        vec![
            entry(Role::SYSTEM, PROMPT),
            entry(Role::USER, "one"),
            entry(Role::ASSISTANT, "1"),
            entry(Role::USER, "two"),
        ]
    );
}

#[test]
fn session_and_turn_together_deliver_the_answer() {
    let mut turn = Turn::new("hello", false, PROMPT, BOUND);
    turn.step(Event::Start);
    turn.step(Event::LockAcquired);
    turn.step(Event::HistoryMissing);
    turn.step(Event::CredentialResolved("k".to_string()));
    let mut step = turn.step(Event::SessionOpened);
    let mut session = Session::new();
    let mut transport = vec![
        Arrival::Chunk(vec![Some("Hel".to_string())]),
        Arrival::Chunk(vec![None]),
        Arrival::Chunk(vec![Some("lo".to_string()), Some("!".to_string())]),
        Arrival::End,
    ]
    .into_iter();
    let mut sent = Vec::new();
    while let Command::Fetch = step.command {
        let item = loop {
            match session.next_fragment(false) {
                Fetched::Pending => session.supply(transport.next().unwrap()),
                item => break item,
            }
        };
        step = turn.step(Event::Fetched { cancelled: false, item });
        if let Some(Notice::ChatMessage(text)) = &step.notice {
            sent.push(text.clone());
        }
    }
    assert!(matches!(step.command, Command::SaveHistory));
    assert_eq!(sent, vec!["Hel".to_string(), "lo".to_string(), "!".to_string()]);
    assert_eq!(turn.response(), "Hello!");
    assert_eq!(shape(turn.history())[2], entry(Role::ASSISTANT, "Hello!"));
}

#[test]
fn notices_name_their_channels() {
    let fragment = Notice::ChatMessage("hi".to_string());
    assert_eq!(fragment.channel(), "chat-message");
    assert_eq!(fragment.payload(), "hi");
    let error = Notice::StreamError("lost".to_string());
    assert_eq!(error.channel(), "stream-error");
    assert_eq!(error.payload(), "lost");
    assert_eq!(CHAT_MESSAGE, "chat-message");
    assert_eq!(STREAM_ERROR, "stream-error");
    assert_eq!(CANCEL_STREAM, "cancel-stream");
}

#[test]
fn cancellation_before_the_first_fragment_commits_an_empty_answer() {
    let mut outside = Outside::new(vec![Item::RaiseCancel, Item::Fragment("A")]);
    let result = run_turn(&mut outside, "hello", false);
    assert_eq!(result, Ok(String::new()));
    assert!(outside.chat_messages.is_empty());
    assert!(outside.stream_errors.is_empty());
    assert_eq!(outside.saves, 1);
    assert_eq!(outside.stored_shape()[2], entry(Role::ASSISTANT, ""));
    assert!(!outside.lock_held);
}

#[test]
fn cancellation_hides_an_error_that_comes_with_it() {
    let mut outside =
        Outside::new(vec![Item::Fragment("A"), Item::RaiseCancel, Item::Error("reset")]);
    let result = run_turn(&mut outside, "hello", false);
    assert_eq!(result, Ok("A".to_string()));
    assert!(outside.stream_errors.is_empty());
}

#[test]
fn new_turn_waits_to_be_started() {
    let turn = Turn::new("hello", true, PROMPT, BOUND);
    assert_eq!(turn.phase(), Phase::Idle);
    assert_eq!(turn.response(), "");
    assert_eq!(shape(turn.history()), vec![entry(Role::SYSTEM, PROMPT)]);
}
