//! The conversation: an ordered log of messages that opens with the system
//! prompt and is cut to a bounded length.

use crate::message::{Message, MessageView};
use crate::role::Role;
use vstd::prelude::*;

verus! {

/// The most messages that are kept when a conversation is cut.
pub const MAX_HISTORY_LENGTH: usize = 12;

/// `uuid::Uuid`, carried as an opaque value.
#[verifier::external_type_specification]
#[verifier::external_body]
pub struct ExUuid(uuid::Uuid);

/// Calls `uuid::Uuid::new_v4`, which draws the identifier from the operating
/// system's random numbers: nothing is promised of the value.
#[verifier::external_body]
fn fresh_id() -> uuid::Uuid {
    uuid::Uuid::new_v4()
}

/// The system message that opens a conversation.
pub open spec fn system_message(prompt: Seq<char>) -> MessageView {
    MessageView { role: Role::SYSTEM, content: prompt }
}

/// A log is led by the system when it is not empty and its first message is
/// a system message.
pub open spec fn leads_with_system(messages: Seq<MessageView>) -> bool {
    messages.len() > 0 && messages[0].role == Role::SYSTEM
}

/// The last `max_len` messages of a log, or all of it when it is no longer.
pub open spec fn newest(messages: Seq<MessageView>, max_len: nat) -> Seq<MessageView> {
    if messages.len() > max_len {
        messages.subrange(messages.len() - max_len, messages.len() as int)
    } else {
        messages
    }
}

/// A log with the system message put in front, unless it leads already.
pub open spec fn repaired(messages: Seq<MessageView>, prompt: Seq<char>) -> Seq<MessageView> {
    if leads_with_system(messages) {
        messages
    } else {
        seq![system_message(prompt)] + messages
    }
}

/// A log cut to its newest `max_len` messages and then repaired.
pub open spec fn truncated(messages: Seq<MessageView>, max_len: nat, prompt: Seq<char>) -> Seq<
    MessageView,
> {
    repaired(newest(messages, max_len), prompt)
}

/// Whatever the log and the bound, the cut log is led by the system and is
/// at most one message longer than the bound.
pub proof fn lemma_truncated_leads_with_system(
    messages: Seq<MessageView>,
    max_len: nat,
    prompt: Seq<char>,
)
    ensures
        leads_with_system(truncated(messages, max_len, prompt)),
        truncated(messages, max_len, prompt).len() <= max_len + 1,
        truncated(messages, max_len, prompt).len() <= messages.len() + 1,
{
}

/// A log that is longer than the bound, and whose newest messages up to the
/// bound begin with a system message, is cut to exactly the bound, and the
/// system leads it.
pub proof fn lemma_truncated_to_bound(messages: Seq<MessageView>, max_len: nat, prompt: Seq<char>)
    requires
        messages.len() > max_len,
        leads_with_system(newest(messages, max_len)),
    ensures
        truncated(messages, max_len, prompt).len() == max_len,
        leads_with_system(truncated(messages, max_len, prompt)),
        truncated(messages, max_len, prompt) == newest(messages, max_len),
{
}

/// A log that is longer than the bound, and whose newest messages up to the
/// bound do not begin with a system message, is cut to the bound and then
/// gets the system message in front: it is one message over the bound.
pub proof fn lemma_truncated_over_bound(messages: Seq<MessageView>, max_len: nat, prompt: Seq<char>)
    requires
        messages.len() > max_len,
        !leads_with_system(newest(messages, max_len)),
    ensures
        truncated(messages, max_len, prompt).len() == max_len + 1,
        truncated(messages, max_len, prompt) == seq![system_message(prompt)] + newest(
            messages,
            max_len,
        ),
{
}

/// On a log within the bound the cut does nothing but restore the leading
/// system message: a log that the system leads stays as it is.
pub proof fn lemma_short_log_kept(messages: Seq<MessageView>, max_len: nat, prompt: Seq<char>)
    requires
        messages.len() <= max_len,
    ensures
        truncated(messages, max_len, prompt) == repaired(messages, prompt),
        leads_with_system(messages) ==> truncated(messages, max_len, prompt) == messages,
{
}

/// Cutting a second time changes nothing.
pub proof fn lemma_truncated_twice(messages: Seq<MessageView>, max_len: nat, prompt: Seq<char>)
    ensures
        truncated(truncated(messages, max_len, prompt), max_len, prompt) == truncated(
            messages,
            max_len,
            prompt,
        ),
{
    let once = truncated(messages, max_len, prompt);
    let kept = newest(messages, max_len);
    if once.len() > max_len {
        assert(once == seq![system_message(prompt)] + kept);
        assert(newest(once, max_len) =~= kept);
    }
}

/// A log may be cut when it is loaded or not: once a message that is not
/// the system's is added and the log is cut, the result is the same.
pub proof fn lemma_cut_absorbs_earlier_cut(
    stored: Seq<MessageView>,
    added: MessageView,
    max_len: nat,
    prompt: Seq<char>,
)
    requires
        added.role != Role::SYSTEM,
    ensures
        truncated(truncated(stored, max_len, prompt).push(added), max_len, prompt) == truncated(
            stored.push(added),
            max_len,
            prompt,
        ),
{
    let early = truncated(stored, max_len, prompt);
    let direct = stored.push(added);
    if stored.len() + 2 <= max_len && !leads_with_system(stored) {
        assert(early.push(added) =~= seq![system_message(prompt)] + direct);
        assert(direct[0].role != Role::SYSTEM);
    } else {
        assert(newest(early.push(added), max_len) =~= newest(direct, max_len));
    }
}

/// The messages of a vector as mathematical values.
pub open spec fn views_of(messages: Seq<Message>) -> Seq<MessageView> {
    Seq::new(messages.len(), |i: int| messages[i]@)
}

/// An identified conversation.
#[derive(Debug)]
pub struct History {
    id: uuid::Uuid,
    history: Vec<Message>,
}

impl View for History {
    type V = Seq<MessageView>;

    closed spec fn view(&self) -> Seq<MessageView> {
        views_of(self.history@)
    }
}

impl History {
    /// The identifier that the conversation was made with.
    pub closed spec fn spec_id(&self) -> uuid::Uuid {
        self.id
    }

    /// A conversation under a new identifier that holds the system prompt
    /// and nothing else.
    pub fn new(system_prompt: &str) -> (fresh: Self)
        ensures
            fresh@ == seq![system_message(system_prompt@)],
    {
        let id = fresh_id();
        let mut history: Vec<Message> = Vec::new();
        history.push(Message::new(Role::SYSTEM, system_prompt));
        let fresh = Self { id, history };
        assert(fresh@ =~= seq![system_message(system_prompt@)]);
        fresh
    }

    /// A conversation put together from stored parts, taken as they are.
    pub fn from_parts(id: uuid::Uuid, messages: Vec<Message>) -> (stored: Self)
        ensures
            stored@ == views_of(messages@),
            stored.spec_id() == id,
    {
        Self { id, history: messages }
    }

    /// The conversation's identifier.
    pub fn id(&self) -> (id: uuid::Uuid)
        ensures
            id == self.spec_id(),
    {
        self.id
    }

    /// The messages, oldest first.
    pub fn messages(&self) -> (messages: &Vec<Message>)
        ensures
            views_of(messages@) == self@,
    {
        &self.history
    }

    /// How many messages the conversation holds.
    pub fn len(&self) -> (len: usize)
        ensures
            len == self@.len(),
    {
        self.history.len()
    }

    /// Adds a message at the end.
    pub fn push(&mut self, message: Message)
        ensures
            final(self)@ == old(self)@.push(message@),
            final(self).spec_id() == old(self).spec_id(),
    {
        self.history.push(message);
        assert(self@ =~= old(self)@.push(message@));
    }

    /// Cuts the conversation to its newest `max_len` messages and puts the
    /// system message in front where the cut, or the stored data, left the
    /// log without one.
    pub fn truncate(&mut self, max_len: usize, system_prompt: &str)
        ensures
            final(self)@ == truncated(old(self)@, max_len as nat, system_prompt@),
            final(self).spec_id() == old(self).spec_id(),
    {
        let len = self.history.len();
        if len > max_len {
            let tail = self.history.split_off(len - max_len);
            self.history = tail;
        }
        assert(self@ =~= newest(old(self)@, max_len as nat));
        if self.history.len() == 0 || self.history[0].role() != Role::SYSTEM {
            self.history.insert(0, Message::new(Role::SYSTEM, system_prompt));
        }
        assert(self@ =~= truncated(old(self)@, max_len as nat, system_prompt@));
    }
}

impl Clone for History {
    /// A copy with the same identifier and the same messages.
    fn clone(&self) -> (copy: Self)
        ensures
            copy@ == self@,
            copy.spec_id() == self.spec_id(),
    {
        let mut messages: Vec<Message> = Vec::new();
        let mut i: usize = 0;
        while i < self.history.len()
            invariant
                i <= self.history.len(),
                messages.len() == i,
                forall|j: int| 0 <= j < i ==> (#[trigger] messages@[j])@ == self.history@[j]@,
            decreases self.history.len() - i,
        {
            messages.push(self.history[i].clone());
            i = i + 1;
        }
        let copy = History { id: self.id, history: messages };
        assert(copy@ =~= self@);
        copy
    }
}

/// Cuts `history` to `max_length` messages, keeping the newest, and restores
/// the leading system message.
pub fn truncate_history(history: &mut History, max_length: usize, system_prompt: &str)
    ensures
        final(history)@ == truncated(old(history)@, max_length as nat, system_prompt@),
        final(history).spec_id() == old(history).spec_id(),
{
    history.truncate(max_length, system_prompt);
}

} // verus!
