//! The persistent, deduplicated task store.
//!
//! Tasks live in one SQLite table keyed by a unique `url` column. The
//! table is modeled as a sequence of `(url, title, image,
//! download_page_href)` rows in insertion order; inserting an existing
//! url is a no-op (first-write-wins), deleting a missing url succeeds.

use crate::task::ClipboardPayload;
use vstd::prelude::*;
use vstd::string::StringExecFns;

verus! {

#[verifier::external_type_specification]
#[verifier::external_body]
pub struct ExConnection(rusqlite::Connection);

#[verifier::external_type_specification]
#[verifier::external_body]
pub struct ExSqlError(rusqlite::Error);

/// A backend failure, carrying the backend's description of it.
#[derive(Clone, Debug, PartialEq, Eq)]
pub enum StoreError {
    Backend(String),
}

/// One row of the tasks table: url, title, image, download_page_href.
pub type RowV = (Seq<char>, Seq<char>, Seq<char>, Seq<char>);

/// The rows of the tasks table reachable through `c`, in insertion
/// order (ascending autoincrement id).
pub uninterp spec fn table_rows(c: rusqlite::Connection) -> Seq<RowV>;

/// Some row already has this url.
pub open spec fn has_url(rows: Seq<RowV>, url: Seq<char>) -> bool {
    exists|i: int| 0 <= i < rows.len() && (#[trigger] rows[i]).0 == url
}

/// No two rows share a url.
pub open spec fn unique_urls(rows: Seq<RowV>) -> bool {
    forall|i: int, j: int|
        0 <= i < j < rows.len() ==> (#[trigger] rows[i]).0 != (#[trigger] rows[j]).0
}

/// The effect of an insert-or-ignore: an existing url leaves the rows
/// untouched, a new one appends.
pub open spec fn spec_insert(rows: Seq<RowV>, row: RowV) -> Seq<RowV> {
    if has_url(rows, row.0) {
        rows
    } else {
        rows.push(row)
    }
}

/// Inserting a row with an already-inserted url is a no-op: the rows
/// after the second insert are exactly the rows after the first, and a
/// first insert of a fresh url appends just that row, so the fields of
/// the first insert are the ones that stay.
pub proof fn lemma_insert_idempotent(rows: Seq<RowV>, first: RowV, second: RowV)
    requires
        first.0 == second.0,
    ensures
        spec_insert(spec_insert(rows, first), second) == spec_insert(rows, first),
        !has_url(rows, first.0) ==> spec_insert(rows, first) == rows.push(first),
{
    if !has_url(rows, first.0) {
        assert(rows.push(first)[rows.len() as int].0 == second.0);
    }
}

/// First-write-wins, stated against a row already in the store: once
/// `existing` is stored, inserting any row with the same url changes
/// nothing, so with unique urls exactly one row with that url remains
/// and it holds `existing`'s fields.
pub proof fn lemma_insert_duplicate_is_noop(rows: Seq<RowV>, existing: RowV, dup: RowV)
    requires
        rows.contains(existing),
        dup.0 == existing.0,
    ensures
        spec_insert(rows, dup) == rows,
{
    let i = choose|i: int| 0 <= i < rows.len() && rows[i] == existing;
    assert(rows[i].0 == dup.0);
}

/// Insertion keeps the listing order: every stored row keeps its
/// position, and a new url only ever lands at the end. Together with
/// `get_all_tasks` returning the rows as they stand, tasks are listed
/// in the order they were first inserted.
pub proof fn lemma_insert_keeps_order(rows: Seq<RowV>, row: RowV)
    ensures
        rows.len() <= spec_insert(rows, row).len() <= rows.len() + 1,
        forall|i: int| 0 <= i < rows.len() ==> spec_insert(rows, row)[i] == rows[i],
{
}

/// Insert-or-ignore preserves url uniqueness.
pub proof fn lemma_insert_keeps_unique(rows: Seq<RowV>, row: RowV)
    requires
        unique_urls(rows),
    ensures
        unique_urls(spec_insert(rows, row)),
{
    if !has_url(rows, row.0) {
        let out = rows.push(row);
        assert forall|i: int, j: int| 0 <= i < j < out.len() implies out[i].0 != out[j].0 by {
            if j == rows.len() {
                assert(out[i] == rows[i]);
            }
        }
    }
}

/// Filtering rows keeps every kept row a row of the original, and
/// keeps urls unique.
pub proof fn lemma_filter_keeps_unique(rows: Seq<RowV>, pred: spec_fn(RowV) -> bool)
    requires
        unique_urls(rows),
    ensures
        unique_urls(rows.filter(pred)),
        forall|i: int|
            0 <= i < rows.filter(pred).len() ==> rows.contains(#[trigger] rows.filter(pred)[i]),
    decreases rows.len(),
{
    reveal(Seq::filter);
    if rows.len() == 0 {
    } else {
        let rest = rows.drop_last();
        let last = rows.last();
        assert(unique_urls(rest)) by {
            assert forall|i: int, j: int| 0 <= i < j < rest.len() implies rest[i].0 != rest[j].0 by {
                assert(rest[i] == rows[i] && rest[j] == rows[j]);
            }
        }
        lemma_filter_keeps_unique(rest, pred);
        let sub = rest.filter(pred);
        assert(forall|i: int| 0 <= i < sub.len() ==> rows.contains(#[trigger] sub[i])) by {
            assert forall|i: int| 0 <= i < sub.len() implies rows.contains(sub[i]) by {
                assert(rest.contains(sub[i]));
                let j = choose|j: int| 0 <= j < rest.len() && rest[j] == sub[i];
                assert(rows[j] == sub[i]);
            }
        }
        if pred(last) {
            let out = sub.push(last);
            assert(rows.filter(pred) == out);
            assert(rows.contains(last)) by {
                assert(rows[rows.len() - 1] == last);
            }
            assert forall|i: int, j: int| 0 <= i < j < out.len() implies out[i].0 != out[j].0 by {
                if j == sub.len() {
                    assert(rest.contains(sub[i]));
                    let k = choose|k: int| 0 <= k < rest.len() && rest[k] == sub[i];
                    assert(rows[k] == sub[i]);
                    assert(rows[k].0 != rows[rows.len() - 1].0);
                }
            }
        }
    }
}

/// Relies on `rusqlite::Connection::open_in_memory` plus one CREATE
/// TABLE IF NOT EXISTS statement: a fresh in-memory database starts
/// with an empty tasks table.
#[verifier::external_body]
fn open_memory_conn() -> (r: Result<rusqlite::Connection, rusqlite::Error>)
    ensures
        match r {
            Ok(c) => table_rows(c) == Seq::<RowV>::empty(),
            Err(_) => true,
        },
{
    let conn = rusqlite::Connection::open_in_memory()?;
    conn.execute(
        "CREATE TABLE IF NOT EXISTS tasks (id INTEGER PRIMARY KEY AUTOINCREMENT, \
         url TEXT UNIQUE NOT NULL, title TEXT, image TEXT, download_page_href TEXT)",
        [],
    )?;
    Ok(conn)
}

/// Relies on `rusqlite::Connection::open` plus one CREATE TABLE IF
/// NOT EXISTS statement. A pre-existing `tasks` table keeps whatever
/// schema it has — IF NOT EXISTS goes by name alone — so this wrapper
/// promises nothing of the rows; `init_db` accepts the connection
/// only after `tasks_table_has_crate_schema` has vouched for it.
#[verifier::external_body]
fn open_file_conn(path: &str) -> Result<rusqlite::Connection, rusqlite::Error> {
    let conn = rusqlite::Connection::open(path)?;
    conn.execute(
        "CREATE TABLE IF NOT EXISTS tasks (id INTEGER PRIMARY KEY AUTOINCREMENT, url TEXT UNIQUE NOT NULL, title TEXT, image TEXT, download_page_href TEXT)",
        [],
    )?;
    Ok(conn)
}

/// Relies on `Connection::query_row` over `sqlite_master`, which
/// records each table's CREATE statement verbatim from the table-name
/// token onward (the IF NOT EXISTS words are dropped): a `tasks`
/// table whose recorded SQL is exactly the statement `open_file_conn`
/// runs has an autoincrement id and a UNIQUE NOT NULL url column, so
/// SQLite has kept, and keeps, its urls unique and its ids growing.
#[verifier::external_body]
fn tasks_table_has_crate_schema(conn: &rusqlite::Connection) -> (r: Result<
    bool,
    rusqlite::Error,
>)
    ensures
        match r {
            Ok(true) => unique_urls(table_rows(*conn)),
            _ => true,
        },
{
    let sql = "SELECT COUNT(*) FROM sqlite_master WHERE type = 'table' AND name = 'tasks' AND sql = 'CREATE TABLE tasks (id INTEGER PRIMARY KEY AUTOINCREMENT, url TEXT UNIQUE NOT NULL, title TEXT, image TEXT, download_page_href TEXT)'";
    let matching: i64 = conn.query_row(sql, [], |row| row.get(0))?;
    Ok(matching > 0)
}

/// Relies on `rusqlite::Connection::execute` running INSERT OR IGNORE
/// against the unique url column; every connection a `TaskStore`
/// holds carries this crate's schema (created fresh in memory, or
/// vouched for by `tasks_table_has_crate_schema`), so the constraint
/// is in force: an existing url leaves the table unchanged, a new url
/// appends one row at the end (highest id); a failed statement
/// changes nothing.
#[verifier::external_body]
fn exec_insert_ignore(
    conn: &mut rusqlite::Connection,
    url: &String,
    title: &String,
    image: &String,
    href: &String,
) -> (r: Result<(), rusqlite::Error>)
    ensures
        match r {
            Ok(()) => table_rows(*final(conn)) == spec_insert(
                table_rows(*old(conn)),
                (url@, title@, image@, href@),
            ),
            Err(_) => table_rows(*final(conn)) == table_rows(*old(conn)),
        },
{
    conn.execute(
        "INSERT OR IGNORE INTO tasks (url, title, image, download_page_href) \
         VALUES (?1, ?2, ?3, ?4)",
        (url, title, image, href),
    )?;
    Ok(())
}

/// Relies on `Connection::prepare` and `Statement::query_map` with
/// SELECT ... ORDER BY id ASC: ascending autoincrement ids return the
/// rows in insertion order, one record per row.
#[verifier::external_body]
fn query_all_rows(conn: &rusqlite::Connection) -> (r: Result<Vec<ClipboardPayload>, rusqlite::Error>)
    ensures
        match r {
            Ok(v) => {
                &&& v@.len() == table_rows(*conn).len()
                &&& forall|i: int|
                    0 <= i < v@.len() ==> (#[trigger] v@[i])@ == table_rows(*conn)[i]
            },
            Err(_) => true,
        },
{
    let sql = "SELECT url, title, image, download_page_href FROM tasks ORDER BY id ASC";
    let mut stmt = conn.prepare(sql)?;
    let iter = stmt.query_map([], |row| {
        Ok(ClipboardPayload { url: row.get(0)?, title: row.get(1)?, image: row.get(2)?, download_page_href: row.get(3)? })
    })?;
    let mut out = Vec::new();
    for item in iter {
        out.push(item?);
    }
    Ok(out)
}

/// Relies on `Connection::prepare` and `Statement::query` with SELECT
/// ... WHERE url = ?1: a returned record is a row of the table with
/// that url; no returned record means no row has it.
#[verifier::external_body]
fn query_row_by_url(conn: &rusqlite::Connection, url: &str) -> (r: Result<
    Option<ClipboardPayload>,
    rusqlite::Error,
>)
    ensures
        match r {
            Ok(Some(p)) => table_rows(*conn).contains(p@) && p@.0 == url@,
            Ok(None) => !has_url(table_rows(*conn), url@),
            Err(_) => true,
        },
{
    let sql = "SELECT url, title, image, download_page_href FROM tasks WHERE url = ?1";
    let mut stmt = conn.prepare(sql)?;
    let mut rows = stmt.query((url,))?;
    match rows.next()? {
        Some(row) => Ok(Some(ClipboardPayload { url: row.get(0)?, title: row.get(1)?, image: row.get(2)?, download_page_href: row.get(3)? })),
        None => Ok(None),
    }
}

/// Relies on `rusqlite::Connection::execute` running DELETE ... WHERE
/// url = ?1: exactly the rows with that url disappear, order of the
/// rest is kept; deleting a missing url succeeds; a failed statement
/// changes nothing.
#[verifier::external_body]
fn exec_delete_by_url(conn: &mut rusqlite::Connection, url: &str) -> (r: Result<
    (),
    rusqlite::Error,
>)
    ensures
        match r {
            Ok(()) => table_rows(*final(conn)) == table_rows(*old(conn)).filter(
                |row: RowV| row.0 != url@,
            ),
            Err(_) => table_rows(*final(conn)) == table_rows(*old(conn)),
        },
{
    conn.execute("DELETE FROM tasks WHERE url = ?1", (url,))?;
    Ok(())
}

/// Relies on `rusqlite::Connection::execute` running DELETE FROM
/// tasks: all rows disappear; a failed statement changes nothing.
#[verifier::external_body]
fn exec_delete_all(conn: &mut rusqlite::Connection) -> (r: Result<(), rusqlite::Error>)
    ensures
        match r {
            Ok(()) => table_rows(*final(conn)) == Seq::<RowV>::empty(),
            Err(_) => table_rows(*final(conn)) == table_rows(*old(conn)),
        },
{
    conn.execute("DELETE FROM tasks", [])?;
    Ok(())
}

/// Relies on `rusqlite::Error`'s Display implementation for a
/// human-readable description of a backend failure.
#[verifier::external_body]
fn describe_sql_error(e: &rusqlite::Error) -> String {
    format!("{}", e)
}

/// The deduplicated task store: one SQLite connection, viewed as the
/// sequence of table rows in insertion order.
pub struct TaskStore {
    conn: rusqlite::Connection,
}

impl View for TaskStore {
    type V = Seq<RowV>;

    closed spec fn view(&self) -> Seq<RowV> {
        table_rows(self.conn)
    }
}

impl TaskStore {
    /// Urls are unique across the stored rows; constructors establish
    /// this and every operation preserves it.
    pub open spec fn inv(&self) -> bool {
        unique_urls(self@)
    }

    /// A fresh, empty store backed by an in-memory database.
    pub fn open_in_memory() -> (r: Result<TaskStore, StoreError>)
        ensures
            match r {
                Ok(s) => s@ == Seq::<RowV>::empty() && s.inv(),
                Err(_) => true,
            },
    {
        match open_memory_conn() {
            Ok(conn) => Ok(TaskStore { conn }),
            Err(e) => Err(StoreError::Backend(describe_sql_error(&e))),
        }
    }

    /// Open (creating if absent) the store backed by the database file
    /// at `path`, keeping whatever tasks it already holds. A file
    /// whose `tasks` table does not carry this library's schema — and
    /// so may not enforce unique urls — is refused.
    pub fn init_db(path: &str) -> (r: Result<TaskStore, StoreError>)
        ensures
            match r {
                Ok(s) => s.inv(),
                Err(_) => true,
            },
    {
        let conn = match open_file_conn(path) {
            Ok(c) => c,
            Err(e) => {
                return Err(StoreError::Backend(describe_sql_error(&e)));
            },
        };
        match tasks_table_has_crate_schema(&conn) {
            Ok(true) => Ok(TaskStore { conn }),
            Ok(false) => Err(
                StoreError::Backend(
                    String::from_str("the tasks table in this file does not carry this library's schema"),
                ),
            ),
            Err(e) => Err(StoreError::Backend(describe_sql_error(&e))),
        }
    }

    /// Insert a task; an already-present url succeeds without touching
    /// the existing row.
    pub fn insert_task(&mut self, payload: &ClipboardPayload) -> (r: Result<(), StoreError>)
        requires
            old(self).inv(),
        ensures
            final(self).inv(),
            match r {
                Ok(()) => final(self)@ == spec_insert(old(self)@, payload@),
                Err(_) => final(self)@ == old(self)@,
            },
    {
        let r = exec_insert_ignore(
            &mut self.conn,
            &payload.url,
            &payload.title,
            &payload.image,
            &payload.download_page_href,
        );
        proof {
            lemma_insert_keeps_unique(old(self)@, payload@);
        }
        match r {
            Ok(()) => Ok(()),
            Err(e) => Err(StoreError::Backend(describe_sql_error(&e))),
        }
    }

    /// All tasks, in the order they were first inserted.
    pub fn get_all_tasks(&self) -> (r: Result<Vec<ClipboardPayload>, StoreError>)
        ensures
            match r {
                Ok(v) => {
                    &&& v@.len() == self@.len()
                    &&& forall|i: int| 0 <= i < v@.len() ==> (#[trigger] v@[i])@ == self@[i]
                },
                Err(_) => true,
            },
    {
        match query_all_rows(&self.conn) {
            Ok(v) => Ok(v),
            Err(e) => Err(StoreError::Backend(describe_sql_error(&e))),
        }
    }

    /// The task stored under `url`, if any.
    pub fn get_task_by_url(&self, url: &str) -> (r: Result<Option<ClipboardPayload>, StoreError>)
        ensures
            match r {
                Ok(Some(p)) => self@.contains(p@) && p@.0 == url@,
                Ok(None) => !has_url(self@, url@),
                Err(_) => true,
            },
    {
        match query_row_by_url(&self.conn, url) {
            Ok(opt) => Ok(opt),
            Err(e) => Err(StoreError::Backend(describe_sql_error(&e))),
        }
    }

    /// Remove the task with this url; removing a missing url succeeds.
    pub fn delete_task_by_url(&mut self, url: &str) -> (r: Result<(), StoreError>)
        requires
            old(self).inv(),
        ensures
            final(self).inv(),
            match r {
                Ok(()) => final(self)@ == old(self)@.filter(|row: RowV| row.0 != url@),
                Err(_) => final(self)@ == old(self)@,
            },
    {
        let r = exec_delete_by_url(&mut self.conn, url);
        proof {
            lemma_filter_keeps_unique(old(self)@, |row: RowV| row.0 != url@);
        }
        match r {
            Ok(()) => Ok(()),
            Err(e) => Err(StoreError::Backend(describe_sql_error(&e))),
        }
    }

    /// Remove every task; an already-empty store succeeds.
    pub fn clear_all_tasks(&mut self) -> (r: Result<(), StoreError>)
        requires
            old(self).inv(),
        ensures
            final(self).inv(),
            match r {
                Ok(()) => final(self)@ == Seq::<RowV>::empty(),
                Err(_) => final(self)@ == old(self)@,
            },
    {
        let r = exec_delete_all(&mut self.conn);
        match r {
            Ok(()) => Ok(()),
            Err(e) => Err(StoreError::Backend(describe_sql_error(&e))),
        }
    }
}

} // verus!
