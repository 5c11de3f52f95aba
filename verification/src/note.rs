//! Note records: the stored fields of a note, and the note object that the
//! list of notes holds.

use vstd::prelude::*;
use crate::clock::{now_timestamp, LAST_DATED_SECOND};

verus! {

/// The fields of a note as the database stores them.
pub struct NoteData {
    pub id: i64,
    pub content: String,
    /// Creation time, in seconds since the Unix epoch (UTC).
    pub create: i64,
    pub update: Option<i64>,
}

impl Default for NoteData {
    fn default() -> (d: Self)
        ensures
            d.id == 0,
            d.content@ == Seq::<char>::empty(),
            d.create == 0,
            d.update is None,
    {
        NoteData { id: 0, content: String::new(), create: 0, update: None }
    }
}

/// What a note object holds, as plain values.
pub struct NoteView {
    pub id: i64,
    pub content: Seq<char>,
    pub create: i64,
}

/// A note as the list of notes holds it: its id, its text and its creation
/// time.
pub struct NoteObject {
    data: NoteData,
}

/// The creation time a new note gets: the one given, or else `now`.
pub open spec fn creation_time(create_option: Option<i64>, now: i64) -> i64 {
    match create_option {
        Some(c) => c,
        None => now,
    }
}

impl View for NoteObject {
    type V = NoteView;

    closed spec fn view(&self) -> NoteView {
        NoteView { id: self.data.id, content: self.data.content@, create: self.data.create }
    }
}

impl NoteObject {
    /// A note with the given id and text, created at `create_option`, or at
    /// `now` when no creation time is given.
    pub fn new_at(id: i64, content: String, create_option: Option<i64>, now: i64) -> (note: Self)
        ensures
            note@.id == id,
            note@.content == content@,
            note@.create == creation_time(create_option, now),
    {
        let create = match create_option {
            Some(c) => c,
            None => now,
        };
        NoteObject { data: NoteData { id, content, create, update: None } }
    }

    /// A note with the given id and text, created at `create_option`, or at
    /// the current time when no creation time is given; `None` only when no
    /// time was given and the clock could not be read (see `now_timestamp`).
    pub fn new(id: i64, content: String, create_option: Option<i64>) -> (note: Option<Self>)
        ensures
            create_option is Some ==> note is Some,
            note matches Some(n) ==> {
                &&& n@.id == id
                &&& n@.content == content@
                &&& create_option matches Some(c) ==> n@.create == c
                &&& create_option is None ==> 0 <= n@.create <= LAST_DATED_SECOND
            },
    {
        match create_option {
            Some(c) => Some(Self::new_at(id, content, create_option, c)),
            None => match now_timestamp() {
                Some(now) => Some(Self::new_at(id, content, None, now)),
                None => None,
            },
        }
    }

    pub fn id(&self) -> (id: i64)
        ensures
            id == self@.id,
    {
        self.data.id
    }

    pub fn content(&self) -> (content: String)
        ensures
            content@ == self@.content,
    {
        self.data.content.clone()
    }

    pub fn create(&self) -> (create: i64)
        ensures
            create == self@.create,
    {
        self.data.create
    }

    pub fn set_id(&mut self, id: i64)
        ensures
            final(self)@ == (NoteView { id, ..old(self)@ }),
    {
        self.data.id = id;
    }

    pub fn set_content(&mut self, content: String)
        ensures
            final(self)@ == (NoteView { content: content@, ..old(self)@ }),
    {
        self.data.content = content;
    }

    pub fn set_create(&mut self, create: i64)
        ensures
            final(self)@ == (NoteView { create, ..old(self)@ }),
    {
        self.data.create = create;
    }

    /// A copy of this note.
    pub fn duplicate(&self) -> (copy: Self)
        ensures
            copy@ == self@,
    {
        NoteObject {
            data: NoteData {
                id: self.data.id,
                content: self.data.content.clone(),
                create: self.data.create,
                update: self.data.update,
            },
        }
    }
}

} // verus!
