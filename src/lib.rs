//! An embedded store for a three-level hierarchy of origins, clusters and
//! waves, kept in one SQLite file and reached through a connection pool.
pub mod connection;
pub mod error;
pub mod schema;
pub mod sqlite;
pub mod store;

pub use connection::{ConnectionPool, PooledConn};
pub use error::OriginMonitorError;
pub use store::OriginMonitor;
