//! What the pages of the application do when the user saves a note.

use vstd::prelude::*;
use crate::clock::{now_timestamp, LAST_DATED_SECOND};
use crate::note::{creation_time, NoteObject};

verus! {

/// The note to add for the text `content`, created at `now`; none when the
/// text is empty.
pub fn new_note_at(content: &str, now: i64) -> (note: Option<NoteObject>)
    ensures
        note is None <==> content@.len() == 0,
        note matches Some(n) ==> {
            &&& n@.id == 0
            &&& n@.content == content@
            &&& n@.create == now
        },
{
    if content.is_empty() {
        None
    } else {
        let note = NoteObject::new_at(0, content.to_owned(), None, now);
        assert(creation_time(None, now) == now);
        Some(note)
    }
}

/// The outcome of asking for a new note created now.
pub enum NewNote {
    /// The text is empty: no note is added.
    EmptyText,
    /// The clock could not be read (see `now_timestamp`).
    NoClock,
    /// The note to add.
    Ready(NoteObject),
}

/// The note to add for the text `content`, created now. An empty text gives
/// no note and the clock is not read; otherwise the clock is read once and
/// the note is the one `new_note_at` makes for that time.
pub fn new_note(content: &str) -> (note: NewNote)
    ensures
        note is EmptyText <==> content@.len() == 0,
        note matches NewNote::Ready(n) ==> {
            &&& n@.id == 0
            &&& n@.content == content@
            &&& 0 <= n@.create <= LAST_DATED_SECOND
        },
{
    if content.is_empty() {
        return NewNote::EmptyText;
    }
    match now_timestamp() {
        None => NewNote::NoClock,
        Some(now) => match new_note_at(content, now) {
            Some(n) => NewNote::Ready(n),
            None => NewNote::EmptyText,
        },
    }
}

/// What the page for a new note does when its save button is pressed.
pub enum CreatePageAction {
    /// The text is empty: nothing happens.
    Ignore,
    /// Clear the text field, add a note with this text, and go back.
    CreateAndBack(String),
}

/// The save button of the page for a new note.
pub fn create_page_save(text: String) -> (a: CreatePageAction)
    ensures
        text@.len() == 0 ==> a is Ignore,
        text@.len() > 0 ==> (a matches CreatePageAction::CreateAndBack(t) && t@ == text@),
{
    if text.as_str().is_empty() {
        CreatePageAction::Ignore
    } else {
        CreatePageAction::CreateAndBack(text)
    }
}

/// What the page that shows a note does when its save button is pressed.
pub enum DetailsSaveAction {
    /// The text is empty: nothing happens.
    Ignore,
    /// The text is unchanged: clear the text field and go back.
    Back,
    /// The note now holds the new text: clear the text field, store the
    /// note, and go back.
    UpdateAndBack,
}

/// The save button of the page that shows `note`, with `text` in its text
/// field. When the text differs from the note's and is not empty, the note
/// takes it.
pub fn details_page_save(note: &mut NoteObject, text: String) -> (a: DetailsSaveAction)
    ensures
        text@.len() == 0 ==> a is Ignore && final(note)@ == old(note)@,
        text@.len() > 0 && text@ == old(note)@.content ==> a is Back && final(note)@ == old(
            note,
        )@,
        text@.len() > 0 && text@ != old(note)@.content ==> a is UpdateAndBack
            && final(note)@.content == text@ && final(note)@.id == old(note)@.id
            && final(note)@.create == old(note)@.create,
{
    if text.as_str().is_empty() {
        return DetailsSaveAction::Ignore;
    }
    let current = note.content();
    if text == current {
        DetailsSaveAction::Back
    } else {
        note.set_content(text);
        DetailsSaveAction::UpdateAndBack
    }
}

} // verus!
