//! Core logic of a small notes application: the note records, the paging of
//! the note list, the SQL text that the application sends to its database,
//! the sample notes it seeds a fresh database with, and the decisions its
//! pages take when the user saves or edits a note.

pub mod text;
pub mod clock;
pub mod note;
pub mod paging;
pub mod sql;
pub mod seed;
pub mod actions;
pub mod row;
