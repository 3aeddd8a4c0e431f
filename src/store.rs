//! The store: construction against a pool, and the operations that insert
//! into the hierarchy. Each operation checks out one connection for its
//! whole duration; the connection goes back to the pool when the operation
//! returns, on success and on failure alike.
//!
//! The store keeps, as ghost state, the session of every connection it has
//! used (see `Session`), so that each contract can say which statements an
//! operation handed to the engine, how the engine answered, and how the
//! result follows from that answer.
use crate::connection::{from_pool, ConnectionPool, PooledConn, Session, SqlCall, SqlParam};
use crate::error::{init_failure_text, init_prefix, OriginMonitorError};
use crate::schema::{schema_script, schema_statements, transaction_text};
use crate::sqlite::describe_sql_error;
use vstd::prelude::*;

verus! {

/// SQLite checks foreign keys only on connections that ask for it.
pub const ENFORCE_FOREIGN_KEYS: &'static str = "PRAGMA foreign_keys = ON;";

/// Undoes a schema script that failed part way, so that no partial schema
/// stays behind.
pub const ROLLBACK: &'static str = "ROLLBACK;";

pub const INSERT_ORIGIN: &'static str = "INSERT INTO origins (name) VALUES (?1)";

pub const INSERT_CLUSTER: &'static str = "INSERT INTO clusters (name, origin_id) VALUES (?1, ?2)";

/// Whether `msg` reads as the message of an initialization failure.
pub open spec fn is_init_failure_text(msg: Seq<char>) -> bool {
    msg.len() >= init_prefix().len() && msg.take(init_prefix().len() as int) == init_prefix()
}

/// The failures that construction of a store can report.
pub open spec fn is_construction_failure(e: OriginMonitorError) -> bool {
    e is PoolError || (e is InitError && is_init_failure_text(e->InitError_0@))
}

/// Switching on foreign-key checks, which the engine answered with `ok`.
pub open spec fn enforce_foreign_keys(ok: bool) -> SqlCall {
    SqlCall::Batch(ENFORCE_FOREIGN_KEYS@, ok)
}

/// Running the whole schema script as one transaction, answered with `ok`.
pub open spec fn run_schema(ok: bool) -> SqlCall {
    SqlCall::Batch(transaction_text(schema_statements()), ok)
}

/// Whether `c` rolls back the open transaction, however the engine answered.
pub open spec fn is_rollback(c: SqlCall) -> bool {
    c is Batch && c->Batch_0 == ROLLBACK@
}

/// Inserting an origin named `name`, answered with `ok`.
pub open spec fn insert_origin(name: Seq<char>, ok: bool) -> SqlCall {
    SqlCall::Execute(INSERT_ORIGIN@, seq![SqlParam::Text(name)], ok)
}

/// Inserting a cluster named `name` under origin `origin_id`, answered
/// with `ok`.
pub open spec fn insert_cluster(name: Seq<char>, origin_id: i64, ok: bool) -> SqlCall {
    SqlCall::Execute(INSERT_CLUSTER@, seq![SqlParam::Text(name), SqlParam::Integer(origin_id)], ok)
}

/// How an insert operation on the store went, given the sessions before and
/// after it, the store's database, the insert call (`insert(ok)` for an
/// answer `ok`) and the result:
/// - `Ok(id)`: one new session, which switched on foreign keys, ran the
///   insert successfully, and read `id` as the rowid of that insert;
/// - `DatabaseError`: one new session, in which the engine refused the
///   foreign-key switch or, after it, the insert;
/// - `PoolError`: no connection was had, and no session was added.
pub open spec fn insert_outcome(
    before: Seq<Session>,
    after: Seq<Session>,
    path: Seq<char>,
    insert: spec_fn(bool) -> SqlCall,
    r: Result<i64, OriginMonitorError>,
) -> bool {
    match r {
        Ok(id) => after.len() == before.len() + 1 && after.drop_last() == before
            && after.last().path() == path && after.last().calls() == seq![
            enforce_foreign_keys(true),
            insert(true),
            SqlCall::LastInsertRowid(id),
        ],
        Err(e) => match e {
            OriginMonitorError::DatabaseError(_) => after.len() == before.len() + 1
                && after.drop_last() == before && after.last().path() == path && (
            after.last().calls() == seq![enforce_foreign_keys(false)]
                || after.last().calls() == seq![enforce_foreign_keys(true), insert(false)]),
            OriginMonitorError::PoolError(_) => after == before,
            OriginMonitorError::InitError(_) => false,
        },
    }
}

/// Turns the outcome of a statement into the store's result: a failure of
/// the engine becomes a `DatabaseError` carrying it unchanged.
pub fn from_sql<T>(outcome: Result<T, rusqlite::Error>) -> (r: Result<T, OriginMonitorError>)
    ensures
        match outcome {
            Ok(v) => r == Ok::<T, OriginMonitorError>(v),
            Err(e) => r == Err::<T, OriginMonitorError>(OriginMonitorError::DatabaseError(e)),
        },
{
    match outcome {
        Ok(v) => Ok(v),
        Err(e) => Err(OriginMonitorError::DatabaseError(e)),
    }
}

/// The failure reported when the schema script fails with `e`: its message
/// is the initialization prefix followed by a description of `e`.
pub fn init_failure(e: &rusqlite::Error) -> (r: OriginMonitorError)
    ensures
        r is InitError,
        is_init_failure_text(r->InitError_0@),
{
    let cause = describe_sql_error(e);
    let msg = init_failure_text(cause.as_str());
    assert(msg@.take(init_prefix().len() as int) =~= init_prefix());
    OriginMonitorError::InitError(msg)
}

/// Runs the schema script on `conn` as one transaction. If the engine
/// refuses it, the transaction is rolled back, so either every table and
/// index exists afterwards or none of the script's changes apply, and the
/// failure comes back as an `InitError` naming the cause.
pub fn initialize_on(conn: &mut PooledConn) -> (r: Result<(), OriginMonitorError>)
    ensures
        final(conn).path() == old(conn).path(),
        match r {
            Ok(()) => final(conn).calls() == old(conn).calls().push(run_schema(true)),
            Err(e) => e is InitError && is_init_failure_text(e->InitError_0@)
                && final(conn).calls().len() == old(conn).calls().len() + 2
                && final(conn).calls().drop_last() == old(conn).calls().push(run_schema(false))
                && is_rollback(final(conn).calls().last()),
        },
{
    let script = schema_script();
    match conn.run_batch(script.as_str()) {
        Ok(()) => Ok(()),
        Err(e) => {
            let _undone = conn.run_batch(ROLLBACK);
            Err(init_failure(&e))
        },
    }
}

/// Switches on foreign-key checks for `conn`. A refusal by the engine comes
/// back as a `DatabaseError`.
pub fn enable_foreign_keys(conn: &mut PooledConn) -> (r: Result<(), OriginMonitorError>)
    ensures
        final(conn).path() == old(conn).path(),
        final(conn).calls() == old(conn).calls().push(enforce_foreign_keys(r is Ok)),
        r is Err ==> r->Err_0 is DatabaseError,
{
    from_sql(conn.run_batch(ENFORCE_FOREIGN_KEYS))
}

/// Inserts an origin named `name` through `conn` and returns the rowid the
/// connection reports for that insert. If the engine refuses the insert
/// (an origin of that name exists already, say), that comes back as a
/// `DatabaseError` and no rowid is read.
pub fn insert_origin_on(conn: &mut PooledConn, name: &str) -> (r: Result<i64, OriginMonitorError>)
    ensures
        final(conn).path() == old(conn).path(),
        match r {
            Ok(id) => final(conn).calls() == old(conn).calls().push(insert_origin(name@, true)).push(
                SqlCall::LastInsertRowid(id),
            ),
            Err(e) => e is DatabaseError && final(conn).calls() == old(conn).calls().push(
                insert_origin(name@, false),
            ),
        },
{
    match from_sql(conn.execute_with_text(INSERT_ORIGIN, name)) {
        Ok(_) => Ok(conn.last_insert_rowid()),
        Err(e) => Err(e),
    }
}

/// Inserts a cluster named `name` under origin `origin_id` through `conn`
/// and returns the rowid the connection reports for that insert. If the
/// engine refuses the insert (no such origin, or that origin has a cluster
/// of that name already), that comes back as a `DatabaseError` and no rowid
/// is read.
pub fn insert_cluster_on(conn: &mut PooledConn, name: &str, origin_id: i64) -> (r: Result<
    i64,
    OriginMonitorError,
>)
    ensures
        final(conn).path() == old(conn).path(),
        match r {
            Ok(id) => final(conn).calls() == old(conn).calls().push(
                insert_cluster(name@, origin_id, true),
            ).push(SqlCall::LastInsertRowid(id)),
            Err(e) => e is DatabaseError && final(conn).calls() == old(conn).calls().push(
                insert_cluster(name@, origin_id, false),
            ),
        },
{
    match from_sql(conn.execute_with_text_and_number(INSERT_CLUSTER, name, origin_id)) {
        Ok(_) => Ok(conn.last_insert_rowid()),
        Err(e) => Err(e),
    }
}

/// The store. It holds a handle on a shared pool, and no data: every read
/// and write goes to the database.
pub struct OriginMonitor {
    pub pool: ConnectionPool,
    pub sessions: Ghost<Seq<Session>>,
}

impl OriginMonitor {
    /// The sessions of the connections this store has used, oldest first,
    /// beginning with the one that set up the schema.
    pub open spec fn sessions(&self) -> Seq<Session> {
        self.sessions@
    }

    /// Sets up the schema through `pool` and returns a store over it. Safe
    /// to call on a database that already has the schema: nothing changes.
    /// On success, one connection of `pool` ran the schema script and the
    /// engine accepted it; a refused script is rolled back and reported as
    /// an `InitError`.
    pub fn new(pool: ConnectionPool) -> (r: Result<OriginMonitor, OriginMonitorError>)
        ensures
            match r {
                Ok(m) => m.pool == pool && m.sessions().len() == 1 && m.sessions()[0].path()
                    == pool.path() && m.sessions()[0].calls() == seq![run_schema(true)],
                Err(e) => is_construction_failure(e),
            },
    {
        let mut conn = match from_pool(pool.checkout()) {
            Ok(c) => c,
            Err(e) => {
                return Err(e);
            },
        };
        match initialize_on(&mut conn) {
            Ok(()) => {
                let setup = conn.session();
                assert(setup.calls() =~= seq![run_schema(true)]);
                assert(Seq::empty().push(setup) =~= seq![setup]);
                let sessions = Ghost(Seq::empty().push(setup));
                Ok(OriginMonitor { pool, sessions })
            },
            Err(e) => Err(e),
        }
    }

    /// Inserts an origin named `name` and returns its new id. Fails with a
    /// `DatabaseError` if an origin of that name exists already.
    pub fn create_origin(&mut self, name: &str) -> (r: Result<i64, OriginMonitorError>)
        ensures
            final(self).pool == old(self).pool,
            insert_outcome(
                old(self).sessions(),
                final(self).sessions(),
                old(self).pool.path(),
                |ok: bool| insert_origin(name@, ok),
                r,
            ),
    {
        let mut conn = match from_pool(self.pool.checkout()) {
            Ok(c) => c,
            Err(e) => {
                return Err(e);
            },
        };
        let r = match enable_foreign_keys(&mut conn) {
            Ok(()) => insert_origin_on(&mut conn, name),
            Err(e) => Err(e),
        };
        let used = conn.session();
        self.sessions = Ghost(self.sessions@.push(used));
        proof {
            if let Ok(id) = r {
                assert(used.calls() =~= seq![
                    enforce_foreign_keys(true),
                    insert_origin(name@, true),
                    SqlCall::LastInsertRowid(id),
                ]);
            } else {
                assert(used.calls() =~= seq![enforce_foreign_keys(false)] || used.calls()
                    =~= seq![enforce_foreign_keys(true), insert_origin(name@, false)]);
            }
            assert(self.sessions@.drop_last() =~= old(self).sessions@);
        }
        r
    }

    /// Inserts a cluster named `name` under the origin `origin_id` and
    /// returns its new id. Fails with a `DatabaseError` if no such origin
    /// exists, or if that origin already has a cluster of that name.
    pub fn create_cluster(&mut self, name: &str, origin_id: i64) -> (r: Result<
        i64,
        OriginMonitorError,
    >)
        ensures
            final(self).pool == old(self).pool,
            insert_outcome(
                old(self).sessions(),
                final(self).sessions(),
                old(self).pool.path(),
                |ok: bool| insert_cluster(name@, origin_id, ok),
                r,
            ),
    {
        let mut conn = match from_pool(self.pool.checkout()) {
            Ok(c) => c,
            Err(e) => {
                return Err(e);
            },
        };
        let r = match enable_foreign_keys(&mut conn) {
            Ok(()) => insert_cluster_on(&mut conn, name, origin_id),
            Err(e) => Err(e),
        };
        let used = conn.session();
        self.sessions = Ghost(self.sessions@.push(used));
        proof {
            if let Ok(id) = r {
                assert(used.calls() =~= seq![
                    enforce_foreign_keys(true),
                    insert_cluster(name@, origin_id, true),
                    SqlCall::LastInsertRowid(id),
                ]);
            } else {
                assert(used.calls() =~= seq![enforce_foreign_keys(false)] || used.calls()
                    =~= seq![enforce_foreign_keys(true), insert_cluster(name@, origin_id, false)]);
            }
            assert(self.sessions@.drop_last() =~= old(self).sessions@);
        }
        r
    }
}

} // verus!
