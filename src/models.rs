//! Value types: the schema snapshot, the diff items, and connection profiles.

pub mod connection;
pub mod diff;
pub mod schema;

pub use connection::{Connection, ConnectionInput, DbType, SshAuthMethod, SshConfig, SslConfig};
pub use diff::{DiffItem, DiffResult, DiffType};
pub use schema::{Column, ForeignKey, Index, Named, PrimaryKey, TableSchema, UniqueConstraint};
