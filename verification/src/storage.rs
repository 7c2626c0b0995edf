//! Where the conversation is kept, and under which name it is set aside
//! when the caller clears it.

use chrono::NaiveDateTime;
use vstd::prelude::*;
use vstd::string::StringExecFns;

verus! {

/// The directory in the home directory that holds the conversation.
pub const HISTORY_DIR: &'static str = ".coding-assistant-history";

/// The file that holds the conversation.
pub const HISTORY_PATH: &'static str = "history.json";

/// The pattern of a backup's time stamp: year, month, day, hour, minute and
/// second, in digits.
pub const STAMP_PATTERN: &'static str = "%Y%m%d%H%M%S";

/// `chrono::NaiveDateTime`, carried as an opaque value.
#[verifier::external_type_specification]
#[verifier::external_body]
pub struct ExNaiveDateTime(NaiveDateTime);

/// What `chrono::NaiveDateTime::format` writes for a date and time under a
/// pattern.
pub uninterp spec fn formatted(moment: NaiveDateTime, pattern: Seq<char>) -> Seq<char>;

/// Calls `chrono::NaiveDateTime::format` and `to_string` on what it
/// returns. Writing fails, and `to_string` panics, on a pattern that chrono
/// cannot read: only the stamp's pattern is let in.
#[verifier::external_body]
fn format_moment(moment: &NaiveDateTime, pattern: &str) -> (text: String)
    requires
        pattern@ == STAMP_PATTERN@,
    ensures
        text@ == formatted(*moment, pattern@),
{
    moment.format(pattern).to_string()
}

/// The name of the backup that is made at `moment`.
pub open spec fn backup_name(moment: NaiveDateTime) -> Seq<char> {
    HISTORY_PATH@ + "_"@ + formatted(moment, STAMP_PATTERN@) + ".json"@
}

/// The name under which the stored conversation is set aside at `moment`,
/// the local date and time: the file's name, an underscore, the time stamp,
/// and `.json`.
pub fn backup_file_name(moment: &NaiveDateTime) -> (name: String)
    ensures
        name@ == backup_name(*moment),
{
    let stamp = format_moment(moment, STAMP_PATTERN);
    let mut name = HISTORY_PATH.to_owned();
    name.append("_");
    name.append(stamp.as_str());
    name.append(".json");
    name
}

} // verus!
