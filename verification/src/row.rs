//! The two labels of a row in the list of notes.

use vstd::prelude::*;
use crate::clock::{FIRST_DATED_SECOND, LAST_DATED_SECOND};
use crate::note::NoteObject;

verus! {

/// Latest timestamp, in seconds, of the year 9999 (9999-12-31 23:59:59 UTC).
pub const LAST_FOUR_DIGIT_YEAR_SECOND: i64 = 253402300799;

/// What chrono writes for the UTC time `secs` seconds after the Unix epoch
/// with the format pattern `pattern`; `None` where chrono has no date for
/// that many seconds.
pub uninterp spec fn formatted_utc_timestamp(secs: i64, pattern: Seq<char>) -> Option<Seq<char>>;

/// The pattern of the creation-time label: year, month and day joined by
/// `-`, a space, then hours, minutes and seconds joined by `:`.
pub open spec fn create_label_pattern() -> Seq<char> {
    "%Y-%m-%d %H:%M:%S"@
}

/// The option of a string, as an option of its characters.
pub open spec fn option_chars(s: Option<String>) -> Option<Seq<char>> {
    match s {
        Some(t) => Some(t@),
        None => None,
    }
}

/// chrono's `DateTime::from_timestamp(secs, 0)`, written with
/// `format(pattern)`. The result is named and depends on `secs` and `pattern`
/// alone. Only the label's pattern is admitted: chrono panics when it writes
/// a pattern it cannot parse. `from_timestamp` gives a date exactly for the
/// seconds of the years -262143 to 262142 (chrono's `MIN_YEAR` and
/// `MAX_YEAR`), and with this pattern a date of the years 1970 to 9999 is
/// written as a four-digit year and five two-digit fields, 19 characters in
/// all.
#[verifier::external_body]
fn format_utc_timestamp(secs: i64, pattern: &str) -> (res: Option<String>)
    requires
        pattern@ == create_label_pattern(),
    ensures
        option_chars(res) == formatted_utc_timestamp(secs, pattern@),
        res is Some <==> FIRST_DATED_SECOND <= secs <= LAST_DATED_SECOND,
        0 <= secs <= LAST_FOUR_DIGIT_YEAR_SECOND ==> (res is Some && res.unwrap()@.len() == 19),
{
    match chrono::DateTime::from_timestamp(secs, 0) {
        Some(dt) => Some(dt.format(pattern).to_string()),
        None => None,
    }
}

/// The text of the creation-time label for a note created at `create`;
/// `None` where no date can be written for it.
pub fn create_label(create: i64) -> (label: Option<String>)
    ensures
        option_chars(label) == formatted_utc_timestamp(create, create_label_pattern()),
        label is Some <==> FIRST_DATED_SECOND <= create <= LAST_DATED_SECOND,
        0 <= create <= LAST_FOUR_DIGIT_YEAR_SECOND ==> (label is Some && label.unwrap()@.len() == 19),
{
    format_utc_timestamp(create, "%Y-%m-%d %H:%M:%S")
}

/// The labels of a row: the note's text, and its creation time.
pub struct RowLabels {
    pub content: String,
    pub create: Option<String>,
}

/// The labels of the row that shows `note`.
pub fn row_labels(note: &NoteObject) -> (labels: RowLabels)
    ensures
        labels.content@ == note@.content,
        option_chars(labels.create) == formatted_utc_timestamp(
            note@.create,
            create_label_pattern(),
        ),
        labels.create is Some <==> FIRST_DATED_SECOND <= note@.create <= LAST_DATED_SECOND,
        0 <= note@.create <= LAST_FOUR_DIGIT_YEAR_SECOND ==> (labels.create is Some
            && labels.create.unwrap()@.len() == 19),
{
    RowLabels { content: note.content(), create: create_label(note.create()) }
}

} // verus!
