//! One entry of a conversation.

use crate::role::Role;
use vstd::prelude::*;

verus! {

/// What a message says, as a mathematical value.
pub struct MessageView {
    pub role: Role,
    pub content: Seq<char>,
}

/// A role-tagged piece of text. It does not change once it is made.
#[derive(Debug)]
pub struct Message {
    role: Role,
    content: String,
}

impl View for Message {
    type V = MessageView;

    closed spec fn view(&self) -> MessageView {
        MessageView { role: self.role, content: self.content@ }
    }
}

impl Message {
    /// A message by `role` that says `content`.
    pub fn new(role: Role, content: &str) -> (message: Self)
        ensures
            message@ == (MessageView { role, content: content@ }),
    {
        Self { role, content: content.to_owned() }
    }

    /// Who wrote the message.
    pub fn role(&self) -> (role: Role)
        ensures
            role == self@.role,
    {
        self.role
    }

    /// What the message says.
    pub fn content(&self) -> (content: &str)
        ensures
            content@ == self@.content,
    {
        self.content.as_str()
    }
}

impl Clone for Message {
    fn clone(&self) -> (copy: Self)
        ensures
            copy@ == self@,
    {
        Message { role: self.role, content: self.content.clone() }
    }
}

} // verus!
