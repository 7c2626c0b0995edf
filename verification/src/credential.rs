//! The provider's credential: where it is kept, how its text is cleaned,
//! and what is said when it cannot be had.

use vstd::prelude::*;

verus! {

/// The file in the home directory that holds the credential.
pub const KEY_FILE: &'static str = ".openai_api_key";

/// Whether a character is white space, as `char::is_whitespace` says: the
/// characters with the Unicode property `White_Space`.
pub uninterp spec fn is_white_space(c: char) -> bool;

/// A text without the white space that leads it.
pub open spec fn without_leading_space(text: Seq<char>) -> Seq<char>
    decreases text.len(),
{
    if text.len() > 0 && is_white_space(text.first()) {
        without_leading_space(text.drop_first())
    } else {
        text
    }
}

/// A text without the white space that trails it.
pub open spec fn without_trailing_space(text: Seq<char>) -> Seq<char>
    decreases text.len(),
{
    if text.len() > 0 && is_white_space(text.last()) {
        without_trailing_space(text.drop_last())
    } else {
        text
    }
}

/// A text without the white space at either end.
pub open spec fn trimmed(text: Seq<char>) -> Seq<char> {
    without_trailing_space(without_leading_space(text))
}

/// What is left without leading white space is the end of the text, and
/// it is empty or begins with another character.
pub proof fn lemma_leading_space_removed(text: Seq<char>)
    ensures
        without_leading_space(text).is_suffix_of(text),
        without_leading_space(text).len() > 0 ==> !is_white_space(
            without_leading_space(text).first(),
        ),
    decreases text.len(),
{
    if text.len() > 0 && is_white_space(text.first()) {
        let rest = text.drop_first();
        lemma_leading_space_removed(rest);
        let left = without_leading_space(rest);
        assert(left =~= text.subrange(text.len() - left.len(), text.len() as int)) by {
            assert(left =~= rest.subrange(rest.len() - left.len(), rest.len() as int));
        }
    } else {
        assert(text =~= text.subrange(0, text.len() as int));
    }
}

/// What is left without trailing white space is the beginning of the text,
/// and it is empty or ends with another character.
pub proof fn lemma_trailing_space_removed(text: Seq<char>)
    ensures
        without_trailing_space(text).is_prefix_of(text),
        without_trailing_space(text).len() > 0 ==> !is_white_space(
            without_trailing_space(text).last(),
        ),
    decreases text.len(),
{
    if text.len() > 0 && is_white_space(text.last()) {
        let rest = text.drop_last();
        lemma_trailing_space_removed(rest);
        let left = without_trailing_space(rest);
        assert(left =~= text.subrange(0, left.len() as int)) by {
            assert(left =~= rest.subrange(0, left.len() as int));
        }
    } else {
        assert(text =~= text.subrange(0, text.len() as int));
    }
}

/// A trimmed text neither begins nor ends with white space, and trimming
/// it again changes nothing.
pub proof fn lemma_trimmed_is_bare(text: Seq<char>)
    ensures
        trimmed(text).len() > 0 ==> !is_white_space(trimmed(text).first()) && !is_white_space(
            trimmed(text).last(),
        ),
        trimmed(trimmed(text)) == trimmed(text),
{
    let inner = without_leading_space(text);
    lemma_leading_space_removed(text);
    lemma_trailing_space_removed(inner);
    let bare = trimmed(text);
    if bare.len() > 0 {
        assert(bare.first() == inner.first());
        assert(without_leading_space(bare) == bare);
        assert(without_trailing_space(bare) == bare);
    } else {
        assert(without_leading_space(bare) == bare);
        assert(without_trailing_space(bare) == bare);
    }
}

/// Calls `str::trim`, which returns the slice of the text that is left when
/// leading and trailing white space, in the sense of `char::is_whitespace`,
/// is removed: what is left neither begins nor ends with white space.
#[verifier::external_body]
fn trim(text: &str) -> (inner: &str)
    ensures
        inner@ == trimmed(text@),
        inner@.len() > 0 ==> !is_white_space(inner@.first()) && !is_white_space(inner@.last()),
{
    text.trim()
}

/// The credential that a key file's contents stand for: the contents
/// without the white space around them.
pub fn read_credential(contents: &str) -> (credential: String)
    ensures
        credential@ == trimmed(contents@),
{
    trim(contents).to_owned()
}

/// Why the credential could not be had.
#[derive(Clone, Copy, Debug, PartialEq, Eq, Structural)]
pub enum CredentialFault {
    /// The home directory is not known.
    HomeMissing,
    /// The key file could not be opened.
    FileUnopened,
    /// The key file could not be read.
    FileUnread,
}

impl CredentialFault {
    /// The text that reports the fault.
    pub open spec fn text(self) -> Seq<char> {
        match self {
            CredentialFault::HomeMissing => "Failed to get home directory."@,
            CredentialFault::FileUnopened =>
                "Failed to open .openai_api_key file in home directory."@,
            CredentialFault::FileUnread =>
                "Failed to read .openai_api_key file in home directory."@,
        }
    }

    /// The text that reports the fault.
    pub fn message(&self) -> (message: &'static str)
        ensures
            message@ == self.text(),
    {
        match self {
            CredentialFault::HomeMissing => "Failed to get home directory.",
            CredentialFault::FileUnopened =>
                "Failed to open .openai_api_key file in home directory.",
            CredentialFault::FileUnread =>
                "Failed to read .openai_api_key file in home directory.",
        }
    }
}

} // verus!
