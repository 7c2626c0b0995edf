//! The prompt orchestration core of a chat client.
//!
//! A conversation is a bounded, role-tagged message log. A turn appends the
//! user's text, turns the log into a completion request, drains the streamed
//! answer fragment by fragment and commits what arrived as the assistant's
//! message. The network, the disk and the lock are driven from outside: the
//! types here decide, the caller performs.
//!
//! - [`role`], [`message`], [`history`]: the conversation and how it is cut.
//! - [`request`]: the provider's completion request for a conversation.
//! - [`session`]: the streamed answer between the transport and its reader.
//! - [`turn`]: the turn as a machine of events and commands; [`runs`]: what
//!   holds of every run of events; [`exclusion`]: why one lock keeps turns
//!   apart.
//! - [`credential`], [`storage`], [`error`]: the credential's text, the names
//!   on disk, and the errors that are shown.

pub mod credential;
pub mod error;
pub mod exclusion;
pub mod history;
pub mod message;
pub mod request;
pub mod role;
pub mod runs;
pub mod session;
pub mod storage;
pub mod turn;

pub use credential::{read_credential, CredentialFault, KEY_FILE};
pub use error::{ChatMessageBuildError, MyError};
pub use history::{truncate_history, History, MAX_HISTORY_LENGTH};
pub use message::{Message, MessageView};
pub use request::{build_request, build_request_message, select_model};
pub use role::Role;
pub use session::{chunk_fragments, Arrival, Fetched, Session};
pub use storage::{backup_file_name, HISTORY_DIR, HISTORY_PATH};
pub use turn::{
    Command, Event, Notice, Phase, Step, Turn, CANCEL_STREAM, CHAT_MESSAGE, STREAM_ERROR,
};
