//! SQL generation per dialect, and reading catalog rows into schema objects.

pub mod ddl;
pub mod dialects;
pub mod introspect;
pub mod mysql;
pub mod postgres;
pub mod traits;

pub use mysql::MySqlSqlGenerator;
pub use postgres::PostgresSqlGenerator;

pub use traits::SqlGenerator;
