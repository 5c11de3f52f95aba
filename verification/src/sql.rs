//! The SQL text that the application sends to its database.

use vstd::prelude::*;
use crate::note::NoteObject;
use crate::paging::{spec_page_offset, page_offset};
use crate::text::{int_digits, lemma_int_digits_read_back, push_i64_decimal, signed_decimal_value};

verus! {

/// Creates the table of notes.
pub fn create_table_sql() -> (s: &'static str)
    ensures
        s@ == "CREATE TABLE note (
                    id    INTEGER PRIMARY KEY,
                    content  TEXT NOT NULL,
                    create_at  INTEGER NOT NULL
                )"@,
{
    "CREATE TABLE note (
                    id    INTEGER PRIMARY KEY,
                    content  TEXT NOT NULL,
                    create_at  INTEGER NOT NULL
                )"
}

/// Counts the notes.
pub fn count_sql() -> (s: &'static str)
    ensures
        s@ == "SELECT count(id) FROM note"@,
{
    "SELECT count(id) FROM note"
}

/// Inserts a note; its two parameters are the text and the creation time.
pub fn insert_sql() -> (s: &'static str)
    ensures
        s@ == "INSERT INTO note (content, create_at) VALUES (?1, ?2)"@,
{
    "INSERT INTO note (content, create_at) VALUES (?1, ?2)"
}

/// The query for the notes of page `page`, newest first.
pub open spec fn spec_page_sql(page: int) -> Seq<char> {
    "SELECT id, content, create_at FROM note ORDER by id DESC limit "@ + int_digits(
        spec_page_offset(page),
    ) + ", 20"@
}

/// Selects the notes of page `page`, newest first.
pub fn page_sql(page: i64) -> (s: String)
    requires
        i64::MIN <= spec_page_offset(page as int) <= i64::MAX,
    ensures
        s@ == spec_page_sql(page as int),
        s@.take(63) == "SELECT id, content, create_at FROM note ORDER by id DESC limit "@,
        signed_decimal_value(s@.subrange(63, s@.len() - 4)) == (page - 1) * 20,
        s@.skip(s@.len() - 4) == ", 20"@,
{
    let offset = page_offset(page);
    let mut s = String::new();
    s.append("SELECT id, content, create_at FROM note ORDER by id DESC limit ");
    push_i64_decimal(&mut s, offset);
    s.append(", 20");
    assert(s@ =~= spec_page_sql(page as int));
    proof {
        lemma_page_sql_reads_offset(page as int);
    }
    s
}

/// The page query is the fixed text, then the index of the page's first
/// note, `(page - 1) * 20`, in decimal, then `, 20`: reading the number back
/// gives that index, so different pages give different queries.
pub proof fn lemma_page_sql_reads_offset(page: int)
    ensures
        spec_page_sql(page).len() > 67,
        spec_page_sql(page).take(63)
            == "SELECT id, content, create_at FROM note ORDER by id DESC limit "@,
        signed_decimal_value(spec_page_sql(page).subrange(63, spec_page_sql(page).len() - 4)) == (
        page - 1) * 20,
        spec_page_sql(page).skip(spec_page_sql(page).len() - 4) == ", 20"@,
        forall|other: int| #[trigger] spec_page_sql(other) == spec_page_sql(page) ==> other == page,
{
    reveal_strlit("SELECT id, content, create_at FROM note ORDER by id DESC limit ");
    reveal_strlit(", 20");
    lemma_int_digits_read_back(spec_page_offset(page));
    let s = spec_page_sql(page);
    let d = int_digits(spec_page_offset(page));
    assert(s.take(63) =~= "SELECT id, content, create_at FROM note ORDER by id DESC limit "@);
    assert(s.subrange(63, s.len() - 4) =~= d);
    assert(s.skip(s.len() - 4) =~= ", 20"@);
    assert forall|other: int| #[trigger] spec_page_sql(other) == spec_page_sql(page) implies other
        == page by {
        lemma_int_digits_read_back(spec_page_offset(other));
        let t = spec_page_sql(other);
        assert(t.subrange(63, t.len() - 4) =~= int_digits(spec_page_offset(other)));
    }
}

/// The statement that deletes the note `id`.
pub open spec fn spec_delete_sql(id: int) -> Seq<char> {
    "DELETE FROM note WHERE id="@ + int_digits(id)
}

/// Deletes the note `id`.
pub fn delete_sql(id: i64) -> (s: String)
    ensures
        s@ == spec_delete_sql(id as int),
        s@.take(26) == "DELETE FROM note WHERE id="@,
        signed_decimal_value(s@.skip(26)) == id,
{
    let mut s = String::new();
    s.append("DELETE FROM note WHERE id=");
    push_i64_decimal(&mut s, id);
    assert(s@ =~= spec_delete_sql(id as int));
    proof {
        lemma_delete_sql_reads_id(id as int);
    }
    s
}

/// The delete statement is the fixed text followed by the id in decimal:
/// reading the number back gives the id, so different ids give different
/// statements.
pub proof fn lemma_delete_sql_reads_id(id: int)
    ensures
        spec_delete_sql(id).len() > 26,
        spec_delete_sql(id).take(26) == "DELETE FROM note WHERE id="@,
        signed_decimal_value(spec_delete_sql(id).skip(26)) == id,
        forall|other: int| #[trigger] spec_delete_sql(other) == spec_delete_sql(id) ==> other == id,
{
    reveal_strlit("DELETE FROM note WHERE id=");
    lemma_int_digits_read_back(id);
    let s = spec_delete_sql(id);
    assert(s.take(26) =~= "DELETE FROM note WHERE id="@);
    assert(s.skip(26) =~= int_digits(id));
    assert forall|other: int| #[trigger] spec_delete_sql(other) == spec_delete_sql(id) implies other
        == id by {
        lemma_int_digits_read_back(other);
        assert(spec_delete_sql(other).skip(26) =~= int_digits(other));
    }
}

/// The statement that sets the text of note `id` to `content`; the text is
/// written between double quotes as it stands.
pub open spec fn spec_update_sql(id: int, content: Seq<char>) -> Seq<char> {
    "UPDATE note SET content=\""@ + content + "\" WHERE id="@ + int_digits(id)
}

/// Stores the text of `note` under its id.
pub fn update_sql(note: &NoteObject) -> (s: String)
    ensures
        s@ == spec_update_sql(note@.id as int, note@.content),
        s@.take(25) == "UPDATE note SET content=\""@,
        s@.subrange(25, 25 + note@.content.len() as int) == note@.content,
        s@.subrange(25 + note@.content.len() as int, 36 + note@.content.len() as int) == "\" WHERE id="@,
        signed_decimal_value(s@.skip(36 + note@.content.len() as int)) == note@.id,
{
    let content = note.content();
    let mut s = String::new();
    s.append("UPDATE note SET content=\"");
    s.append(content.as_str());
    s.append("\" WHERE id=");
    push_i64_decimal(&mut s, note.id());
    assert(s@ =~= spec_update_sql(note@.id as int, note@.content));
    proof {
        lemma_update_sql_keeps_text(note@.id as int, note@.content);
    }
    s
}

/// The update statement holds the whole text, every character in order,
/// between `content="` and `" WHERE id=`, and then the id in decimal, which
/// reads back as the id.
pub proof fn lemma_update_sql_keeps_text(id: int, content: Seq<char>)
    ensures
        spec_update_sql(id, content).len() > 36 + content.len() as int,
        spec_update_sql(id, content).take(25) == "UPDATE note SET content=\""@,
        spec_update_sql(id, content).subrange(25, 25 + content.len() as int) == content,
        spec_update_sql(id, content).subrange(25 + content.len() as int, 36 + content.len() as int)
            == "\" WHERE id="@,
        signed_decimal_value(spec_update_sql(id, content).skip(36 + content.len() as int)) == id,
{
    reveal_strlit("UPDATE note SET content=\"");
    reveal_strlit("\" WHERE id=");
    lemma_int_digits_read_back(id);
    let s = spec_update_sql(id, content);
    let n = content.len() as int;
    assert(s.take(25) =~= "UPDATE note SET content=\""@);
    assert(s.subrange(25, 25 + n) =~= content);
    assert(s.subrange(25 + n, 36 + n) =~= "\" WHERE id="@);
    assert(s.skip(36 + n) =~= int_digits(id));
}

} // verus!
