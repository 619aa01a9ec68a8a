use vstd::prelude::*;

use crate::entities::Author;
use crate::entities::Data;
use crate::entities::FullBook;
use crate::entities::Language;
use crate::entities::Tag;
use crate::errors::AppError;

verus! {

// ---------------------------------------------------------------------------
// The metadata store connection
// ---------------------------------------------------------------------------

/// Declares `rusqlite::Connection` so library types can hold one.  The
/// value is opaque to verification; everything read through it comes back
/// through the query functions below.
#[verifier::external_type_specification]
#[verifier::external_body]
pub struct ExConnection(rusqlite::Connection);

/// Relies on `rusqlite::Connection::open_with_flags` with
/// `SQLITE_OPEN_READ_ONLY`: opens the store strictly read-only and fails if
/// the file is missing or is not a database.
#[verifier::external_body]
pub(crate) fn open_read_only(path: &str) -> (r: Result<rusqlite::Connection, AppError>)
    ensures
        r matches Err(e) ==> e == AppError::Db,
{
    rusqlite::Connection::open_with_flags(path, rusqlite::OpenFlags::SQLITE_OPEN_READ_ONLY)
        .map_err(|_| AppError::Db)
}

/// Relies on `rusqlite::Connection::prepare` and
/// `rusqlite::Statement::query_map`: runs the primary query with the bound
/// window and converts each row into a primary record with empty child
/// collections.  What comes back depends on what is on disk.
#[verifier::external_body]
pub(crate) fn query_books(
    conn: &rusqlite::Connection,
    sql: &str,
    limit: i64,
    offset: i64,
) -> (r: Result<Vec<FullBook>, AppError>)
    ensures
        r matches Err(e) ==> e == AppError::Db,
{
    conn.prepare(sql).and_then(|mut st| {
        let rows = st.query_map((limit, offset), |row| {
            Ok(FullBook {
                id: row.get(0)?, uuid: row.get(1)?, title: row.get(2)?,
                added_at: row.get(3)?, published_at: row.get(4)?, has_cover: row.get(5)?,
                last_modified_at: row.get(6)?, path: row.get(7)?, content: row.get(8)?,
                authors: Vec::new(), languages: Vec::new(), tags: Vec::new(), data: Vec::new(),
            })
        })?;
        rows.collect()
    }).map_err(|_| AppError::Db)
}

/// Relies on `rusqlite::Connection::prepare` and
/// `rusqlite::Statement::query_map`: runs the author join with the bound
/// window and converts each row.
#[verifier::external_body]
pub(crate) fn query_authors(
    conn: &rusqlite::Connection,
    sql: &str,
    limit: i64,
    offset: i64,
) -> (r: Result<Vec<Author>, AppError>)
    ensures
        r matches Err(e) ==> e == AppError::Db,
{
    conn.prepare(sql).and_then(|mut st| {
        let rows = st.query_map((limit, offset), |row| {
            Ok(Author { name: row.get(0)?, book_id: row.get(1)? })
        })?;
        rows.collect()
    }).map_err(|_| AppError::Db)
}

/// Relies on `rusqlite::Connection::prepare` and
/// `rusqlite::Statement::query_map`: runs the language join with the bound
/// window and converts each row.
#[verifier::external_body]
pub(crate) fn query_languages(
    conn: &rusqlite::Connection,
    sql: &str,
    limit: i64,
    offset: i64,
) -> (r: Result<Vec<Language>, AppError>)
    ensures
        r matches Err(e) ==> e == AppError::Db,
{
    conn.prepare(sql).and_then(|mut st| {
        let rows = st.query_map((limit, offset), |row| {
            Ok(Language { lang_code: row.get(0)?, book_id: row.get(1)? })
        })?;
        rows.collect()
    }).map_err(|_| AppError::Db)
}

/// Relies on `rusqlite::Connection::prepare` and
/// `rusqlite::Statement::query_map`: runs the tag join with the bound
/// window and converts each row.
#[verifier::external_body]
pub(crate) fn query_tags(
    conn: &rusqlite::Connection,
    sql: &str,
    limit: i64,
    offset: i64,
) -> (r: Result<Vec<Tag>, AppError>)
    ensures
        r matches Err(e) ==> e == AppError::Db,
{
    conn.prepare(sql).and_then(|mut st| {
        let rows = st.query_map((limit, offset), |row| {
            Ok(Tag { book_id: row.get(0)?, name: row.get(1)? })
        })?;
        rows.collect()
    }).map_err(|_| AppError::Db)
}

/// Relies on `rusqlite::Connection::prepare` and
/// `rusqlite::Statement::query_map`: runs the file-entry query with the
/// bound window and converts each row.  Formats come back as stored; the
/// caller lower-cases them.
#[verifier::external_body]
pub(crate) fn query_data(
    conn: &rusqlite::Connection,
    sql: &str,
    limit: i64,
    offset: i64,
) -> (r: Result<Vec<Data>, AppError>)
    ensures
        r matches Err(e) ==> e == AppError::Db,
{
    conn.prepare(sql).and_then(|mut st| {
        let rows = st.query_map((limit, offset), |row| {
            Ok(Data {
                file_size: row.get(0)?, file_name: row.get(1)?,
                format: row.get(2)?, book_id: row.get(3)?,
            })
        })?;
        rows.collect()
    }).map_err(|_| AppError::Db)
}

/// Relies on `rusqlite::Connection::query_row`: counts the rows of the
/// `books` table.  SQLite's `COUNT(*)` is never negative.
#[verifier::external_body]
pub(crate) fn count_books(conn: &rusqlite::Connection) -> (r: Result<i64, AppError>)
    ensures
        r matches Err(e) ==> e == AppError::Db,
        r matches Ok(n) ==> n >= 0,
{
    conn.query_row("SELECT COUNT(*) FROM books", (), |row| row.get(0)).map_err(|_| AppError::Db)
}

} // verus!
