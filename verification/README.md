# notes

A small notes application: a window lists notes kept in an SQLite database,
twenty to a page and newest first, with pages to add, read, edit and delete a
note.

- `src/` is the verified library (Verus): note records (`note`), paging of the
  list and the state of its paging buttons (`paging`), the SQL text sent to the
  database (`sql`), the hundred sample notes a new database is filled with
  (`seed`), the decisions of the pages when a note is saved (`actions`), the
  reading of the clock (`clock`), the
  labels of a row of the list (`row`), and decimal rendering (`text`).
- `app/` is the GTK 4 / libadwaita program around it: widgets, signal
  handlers and the SQLite connection (rusqlite).
- `tests/` exercises the library on concrete values.
