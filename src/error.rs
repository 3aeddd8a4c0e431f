//! The single error type that every store operation reports.
use vstd::prelude::*;

verus! {

/// What a store operation can fail with.
#[derive(Debug)]
pub enum OriginMonitorError {
    /// A statement failed in the database engine (a uniqueness or
    /// foreign-key violation, an I/O failure, a malformed statement).
    DatabaseError(rusqlite::Error),
    /// No connection could be checked out of the pool.
    PoolError(r2d2::Error),
    /// The schema could not be set up; the text names the cause.
    InitError(String),
}

/// The text that opens every initialization failure message.
pub open spec fn init_prefix() -> Seq<char> {
    "Failed to initialize database: "@
}

/// The message of an initialization failure whose cause reads `cause`.
pub fn init_failure_text(cause: &str) -> (r: String)
    ensures
        r@ == init_prefix() + cause@,
{
    let r = String::from_str("Failed to initialize database: ");
    r.concat(cause)
}

} // verus!
