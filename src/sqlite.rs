//! Opaque handles on the connection pool and on a checked-out SQLite
//! connection, with one thin wrapper per outside call this library makes.
//!
//! Every result here depends on what is on disk and on the state of the
//! pool, so no wrapper promises anything about which outcome comes back.
use vstd::prelude::*;

verus! {

#[verifier::external_type_specification]
#[verifier::external_body]
pub struct ExSqliteConnectionManager(r2d2_sqlite::SqliteConnectionManager);

#[verifier::external_type_specification]
#[verifier::external_body]
pub struct ExPoolError(r2d2::Error);

#[verifier::external_type_specification]
#[verifier::external_body]
pub struct ExSqlError(rusqlite::Error);

/// Holds an `r2d2::Pool<SqliteConnectionManager>`, which cannot be declared
/// to the verifier because of the outside trait bound on its parameter.
#[verifier::external_body]
pub struct PoolHandle {
    pool: r2d2::Pool<r2d2_sqlite::SqliteConnectionManager>,
}

/// Holds an `r2d2::PooledConnection<SqliteConnectionManager>`, for the same
/// reason as `PoolHandle`. The connection goes back to the pool when this is
/// dropped, on every path.
#[verifier::external_body]
pub struct ConnHandle {
    conn: r2d2::PooledConnection<r2d2_sqlite::SqliteConnectionManager>,
}

/// Relies on `r2d2_sqlite::SqliteConnectionManager::file`: a manager that
/// opens connections to the database at `path` (which may be an SQLite URI).
/// It opens nothing itself.
#[verifier::external_body]
pub(crate) fn file_manager(path: &str) -> (r: r2d2_sqlite::SqliteConnectionManager) {
    r2d2_sqlite::SqliteConnectionManager::file(path)
}

impl PoolHandle {
    /// Relies on `r2d2::Pool::new`: builds a pool with the default settings,
    /// opening its initial connections through `manager`.
    #[verifier::external_body]
    pub(crate) fn build(manager: r2d2_sqlite::SqliteConnectionManager) -> (r: Result<
        PoolHandle,
        r2d2::Error,
    >) {
        r2d2::Pool::new(manager).map(|pool| PoolHandle { pool })
    }

    /// Relies on `r2d2::Pool::clone`: a second handle on the same pool.
    #[verifier::external_body]
    pub(crate) fn share(&self) -> (r: PoolHandle) {
        PoolHandle { pool: self.pool.clone() }
    }

    /// Relies on `r2d2::Pool::get`: checks a connection out of the pool,
    /// waiting at most the pool's connection timeout.
    #[verifier::external_body]
    pub(crate) fn get(&self) -> (r: Result<ConnHandle, r2d2::Error>) {
        self.pool.get().map(|conn| ConnHandle { conn })
    }
}

impl ConnHandle {
    /// Relies on `rusqlite::Connection::execute_batch`: runs every statement
    /// of `sql` in order, stopping at the first failure.
    #[verifier::external_body]
    pub(crate) fn execute_batch(&self, sql: &str) -> (r: Result<(), rusqlite::Error>) {
        self.conn.execute_batch(sql)
    }

    /// Relies on `rusqlite::Connection::execute` with one text parameter bound
    /// to the statement's single placeholder; returns the number of rows
    /// changed.
    #[verifier::external_body]
    pub(crate) fn execute_text(&self, sql: &str, text: &str) -> (r: Result<
        usize,
        rusqlite::Error,
    >) {
        self.conn.execute(sql, (text,))
    }

    /// Relies on `rusqlite::Connection::execute` with a text and an integer
    /// parameter bound to the statement's two placeholders, in that order;
    /// returns the number of rows changed.
    #[verifier::external_body]
    pub(crate) fn execute_text_number(&self, sql: &str, text: &str, number: i64) -> (r: Result<
        usize,
        rusqlite::Error,
    >) {
        self.conn.execute(sql, (text, number))
    }

    /// Relies on `rusqlite::Connection::last_insert_rowid`: the rowid of the
    /// most recent successful insert made through this connection.
    #[verifier::external_body]
    pub(crate) fn last_insert_rowid(&self) -> (r: i64) {
        self.conn.last_insert_rowid()
    }
}

/// Relies on the `Display` impl of `rusqlite::Error`: a readable description
/// of the failure.
#[verifier::external_body]
pub(crate) fn describe_sql_error(e: &rusqlite::Error) -> (r: String) {
    e.to_string()
}

} // verus!
