//! The pool and the connections checked out of it, as the store sees them.
//!
//! Each value carries, as ghost state, the database it reaches and the
//! calls made on it so far, so that contracts can say which statements an
//! operation hands to the engine, with which parameters, and in what order.
use crate::error::OriginMonitorError;
use crate::sqlite::{file_manager, ConnHandle, PoolHandle};
use vstd::prelude::*;

verus! {

/// A parameter bound to a statement's placeholder.
pub enum SqlParam {
    Text(Seq<char>),
    Integer(i64),
}

/// One call made on a connection, with whether the engine reported success.
pub enum SqlCall {
    /// A script of statements run in order.
    Batch(Seq<char>, bool),
    /// One statement with its parameters.
    Execute(Seq<char>, Seq<SqlParam>, bool),
    /// A read of the rowid of the latest insert, with the value it gave.
    LastInsertRowid(i64),
}

/// Maps the outcome of a checkout: a failure of the pool becomes a
/// `PoolError` carrying it unchanged.
pub fn from_pool<T>(outcome: Result<T, r2d2::Error>) -> (r: Result<T, OriginMonitorError>)
    ensures
        match outcome {
            Ok(v) => r == Ok::<T, OriginMonitorError>(v),
            Err(e) => r == Err::<T, OriginMonitorError>(OriginMonitorError::PoolError(e)),
        },
{
    match outcome {
        Ok(v) => Ok(v),
        Err(e) => Err(OriginMonitorError::PoolError(e)),
    }
}

/// What was done on one connection: the database it reached and its calls,
/// oldest first. Only a connection can produce one, from its own record.
pub struct Session {
    path: Ghost<Seq<char>>,
    calls: Ghost<Seq<SqlCall>>,
}

impl Session {
    pub closed spec fn path(&self) -> Seq<char> {
        self.path@
    }

    pub closed spec fn calls(&self) -> Seq<SqlCall> {
        self.calls@
    }
}

/// A shared, bounded pool of connections to one SQLite database. Clones
/// refer to the same pool.
pub struct ConnectionPool {
    handle: PoolHandle,
    path: Ghost<Seq<char>>,
}

impl ConnectionPool {
    /// The database that the pool's connections reach.
    pub closed spec fn path(&self) -> Seq<char> {
        self.path@
    }

    /// A pool of connections to the database at `path` (a file path, or an
    /// SQLite URI such as a named shared in-memory database).
    pub fn open(path: &str) -> (r: Result<ConnectionPool, OriginMonitorError>)
        ensures
            match r {
                Ok(pool) => pool.path() == path@,
                Err(e) => e is PoolError,
            },
    {
        match from_pool(PoolHandle::build(file_manager(path))) {
            Ok(handle) => Ok(ConnectionPool { handle, path: Ghost(path@) }),
            Err(e) => Err(e),
        }
    }

    /// Checks a connection out of the pool; no call has been made on it yet.
    pub fn checkout(&self) -> (r: Result<PooledConn, r2d2::Error>)
        ensures
            r is Ok ==> r->Ok_0.path() == self.path() && r->Ok_0.calls() == Seq::<SqlCall>::empty(),
    {
        match self.handle.get() {
            Ok(handle) => Ok(PooledConn { handle, path: self.path, calls: Ghost(Seq::empty()) }),
            Err(e) => Err(e),
        }
    }
}

impl Clone for ConnectionPool {
    fn clone(&self) -> (r: ConnectionPool) {
        ConnectionPool { handle: self.handle.share(), path: self.path }
    }
}

/// A connection checked out of a `ConnectionPool`; it goes back to the pool
/// when dropped, on every path.
pub struct PooledConn {
    handle: ConnHandle,
    path: Ghost<Seq<char>>,
    calls: Ghost<Seq<SqlCall>>,
}

impl PooledConn {
    /// The database this connection reaches.
    pub closed spec fn path(&self) -> Seq<char> {
        self.path@
    }

    /// The calls made on this connection since it was checked out, oldest
    /// first.
    pub closed spec fn calls(&self) -> Seq<SqlCall> {
        self.calls@
    }

    /// The record of what was done on this connection so far.
    pub fn session(&self) -> (r: Session)
        ensures
            r.path() == self.path(),
            r.calls() == self.calls(),
    {
        Session { path: self.path, calls: self.calls }
    }

    /// Runs every statement of `sql` in order, stopping at the first failure.
    pub fn run_batch(&mut self, sql: &str) -> (r: Result<(), rusqlite::Error>)
        ensures
            final(self).path() == old(self).path(),
            final(self).calls() == old(self).calls().push(SqlCall::Batch(sql@, r is Ok)),
    {
        let r = self.handle.execute_batch(sql);
        let ok = r.is_ok();
        self.calls = Ghost(self.calls@.push(SqlCall::Batch(sql@, ok)));
        r
    }

    /// Runs `sql` with `text` bound to its one placeholder; returns the number
    /// of rows changed.
    pub fn execute_with_text(&mut self, sql: &str, text: &str) -> (r: Result<usize, rusqlite::Error>)
        ensures
            final(self).path() == old(self).path(),
            final(self).calls() == old(self).calls().push(
                SqlCall::Execute(sql@, seq![SqlParam::Text(text@)], r is Ok),
            ),
    {
        let r = self.handle.execute_text(sql, text);
        let ok = r.is_ok();
        self.calls = Ghost(
            self.calls@.push(SqlCall::Execute(sql@, seq![SqlParam::Text(text@)], ok)),
        );
        r
    }

    /// Runs `sql` with `text` and `number` bound to its two placeholders, in
    /// that order; returns the number of rows changed.
    pub fn execute_with_text_and_number(&mut self, sql: &str, text: &str, number: i64) -> (r:
        Result<usize, rusqlite::Error>)
        ensures
            final(self).path() == old(self).path(),
            final(self).calls() == old(self).calls().push(
                SqlCall::Execute(
                    sql@,
                    seq![SqlParam::Text(text@), SqlParam::Integer(number)],
                    r is Ok,
                ),
            ),
    {
        let r = self.handle.execute_text_number(sql, text, number);
        let ok = r.is_ok();
        self.calls = Ghost(
            self.calls@.push(
                SqlCall::Execute(sql@, seq![SqlParam::Text(text@), SqlParam::Integer(number)], ok),
            ),
        );
        r
    }

    /// The rowid of the most recent successful insert on this connection.
    pub fn last_insert_rowid(&mut self) -> (r: i64)
        ensures
            final(self).path() == old(self).path(),
            final(self).calls() == old(self).calls().push(SqlCall::LastInsertRowid(r)),
    {
        let r = self.handle.last_insert_rowid();
        self.calls = Ghost(self.calls@.push(SqlCall::LastInsertRowid(r)));
        r
    }
}

} // verus!
