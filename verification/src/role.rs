//! Who speaks in a conversation.

use vstd::prelude::*;
use vstd::string::StringExecFns;

verus! {

/// The author of a message.
#[derive(Clone, Copy, Debug, PartialEq, Eq, Structural)]
pub enum Role {
    ASSISTANT,
    USER,
    SYSTEM,
}

/// The lowercase form of a text, as `str::to_lowercase` computes it from the
/// Unicode case mappings.
pub uninterp spec fn lowercase_of(text: Seq<char>) -> Seq<char>;

/// Calls `str::to_lowercase`. The result is a function of the text alone; it
/// is named, not spelled out.
#[verifier::external_body]
fn to_lowercase(text: &str) -> (lowered: String)
    ensures
        lowered@ == lowercase_of(text@),
{
    text.to_lowercase()
}

/// The role that a lowercase name stands for, if any.
pub open spec fn role_named(name: Seq<char>) -> Option<Role> {
    if name == "assistant"@ {
        Some(Role::ASSISTANT)
    } else if name == "user"@ {
        Some(Role::USER)
    } else if name == "system"@ {
        Some(Role::SYSTEM)
    } else {
        None
    }
}

/// What a failed decoding of `text` reports.
pub open spec fn decode_failure(text: Seq<char>) -> Seq<char> {
    "Unable to deserialize string "@ + text + " to Role"@
}

impl Role {
    /// The name under which the role is written out.
    pub open spec fn name(self) -> Seq<char> {
        match self {
            Role::ASSISTANT => "assistant"@,
            Role::USER => "user"@,
            Role::SYSTEM => "system"@,
        }
    }

    /// The role's lowercase name.
    pub fn as_str(&self) -> (name: &'static str)
        ensures
            name@ == self.name(),
    {
        match self {
            Role::ASSISTANT => "assistant",
            Role::USER => "user",
            Role::SYSTEM => "system",
        }
    }

    /// The role's lowercase name, owned.
    pub fn to_string(&self) -> (name: String)
        ensures
            name@ == self.name(),
    {
        self.as_str().to_owned()
    }

    /// Reads a role from a name that is already lowercase.
    pub fn from_lowercase(name: &str) -> (role: Result<Role, ()>)
        ensures
            role == match role_named(name@) {
                Some(r) => Ok::<Role, ()>(r),
                None => Err::<Role, ()>(()),
            },
    {
        let given = name.to_owned();
        if given == "assistant".to_owned() {
            Ok(Role::ASSISTANT)
        } else if given == "user".to_owned() {
            Ok(Role::USER)
        } else if given == "system".to_owned() {
            Ok(Role::SYSTEM)
        } else {
            Err(())
        }
    }

    /// Reads a role from its name, whatever the case of its letters.
    pub fn from_str(text: &str) -> (role: Result<Role, ()>)
        ensures
            role == match role_named(lowercase_of(text@)) {
                Some(r) => Ok::<Role, ()>(r),
                None => Err::<Role, ()>(()),
            },
    {
        let lowered = to_lowercase(text);
        Role::from_lowercase(lowered.as_str())
    }

    /// Decodes a role from stored text. A text that names no role is
    /// answered with a message that quotes it.
    pub fn decode(text: &str) -> (role: Result<Role, String>)
        ensures
            role_named(lowercase_of(text@)) matches Some(r) ==> role == Ok::<Role, String>(r),
            role_named(lowercase_of(text@)) is None ==> role is Err && role->Err_0@
                == decode_failure(text@),
    {
        match Role::from_str(text) {
            Ok(r) => Ok(r),
            Err(_) => {
                let mut message = "Unable to deserialize string ".to_owned();
                message.append(text);
                message.append(" to Role");
                Err(message)
            },
        }
    }
}

} // verus!
