//! The library's error values. Each carries the text that is shown to the
//! caller.

use crate::role::Role;
use vstd::prelude::*;

verus! {

/// A failure that is reported by its text alone.
#[derive(Debug)]
pub struct MyError {
    message: String,
}

impl View for MyError {
    type V = Seq<char>;

    closed spec fn view(&self) -> Seq<char> {
        self.message@
    }
}

impl MyError {
    /// An error that says `message`.
    pub fn new(message: &str) -> (error: Self)
        ensures
            error@ == message@,
    {
        MyError { message: message.to_owned() }
    }

    /// The error's text.
    pub fn message(&self) -> (message: &str)
        ensures
            message@ == self@,
    {
        self.message.as_str()
    }

    /// The error's text, owned.
    pub fn to_string(&self) -> (message: String)
        ensures
            message@ == self@,
    {
        self.message.clone()
    }
}

/// What is reported when a message of `role` cannot be made into a request
/// message.
pub open spec fn build_failure(role: Role) -> Seq<char> {
    match role {
        Role::SYSTEM => "Failed to build chat completion system message"@,
        Role::USER => "Failed to build chat completion user message"@,
        Role::ASSISTANT => "Failed to build chat completion assistant message"@,
    }
}

/// A message of the conversation could not be made into a request message.
/// There is one text for each role.
#[derive(Debug)]
pub struct ChatMessageBuildError(&'static str);

impl View for ChatMessageBuildError {
    type V = Seq<char>;

    closed spec fn view(&self) -> Seq<char> {
        self.0@
    }
}

impl ChatMessageBuildError {
    /// An error that says `reason`.
    pub fn new(reason: &'static str) -> (error: Self)
        ensures
            error@ == reason@,
    {
        ChatMessageBuildError(reason)
    }

    /// The error for a message of `role`.
    pub fn for_role(role: Role) -> (error: Self)
        ensures
            error@ == build_failure(role),
    {
        match role {
            Role::SYSTEM => ChatMessageBuildError("Failed to build chat completion system message"),
            Role::USER => ChatMessageBuildError("Failed to build chat completion user message"),
            Role::ASSISTANT => ChatMessageBuildError(
                "Failed to build chat completion assistant message",
            ),
        }
    }

    /// The error's text.
    pub fn to_string(&self) -> (reason: String)
        ensures
            reason@ == self@,
    {
        self.0.to_owned()
    }
}

impl From<&'static str> for ChatMessageBuildError {
    /// An error that says `reason`.
    fn from(reason: &'static str) -> (error: Self)
        ensures
            error@ == reason@,
    {
        ChatMessageBuildError(reason)
    }
}

impl vstd::std_specs::convert::FromSpecImpl<&'static str> for ChatMessageBuildError {
    open spec fn obeys_from_spec() -> bool {
        true
    }

    closed spec fn from_spec(reason: &'static str) -> Self {
        ChatMessageBuildError(reason)
    }
}

} // verus!
