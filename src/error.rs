//! Errors reported at the library's boundary, by class.

use vstd::prelude::*;

verus! {

#[derive(Debug, Clone)]
pub enum AppError {
    Connection(String),
    Database(String),
    Storage(String),
    SshTunnel(String),
    SslConfig(String),
    NotFound(String),
    Validation(String),
    Internal(String),
}

pub type AppResult<T> = Result<T, AppError>;

impl AppError {
    /// The words that introduce this class of error.
    pub open spec fn heading(self) -> Seq<char> {
        match self {
            AppError::Connection(_) => "Connection failed: "@,
            AppError::Database(_) => "Database error: "@,
            AppError::Storage(_) => "Storage error: "@,
            AppError::SshTunnel(_) => "SSH tunnel error: "@,
            AppError::SslConfig(_) => "SSL configuration error: "@,
            AppError::NotFound(_) => "Not found: "@,
            AppError::Validation(_) => "Validation error: "@,
            AppError::Internal(_) => "Internal error: "@,
        }
    }

    /// The detail the error carries.
    pub open spec fn detail(self) -> Seq<char> {
        match self {
            AppError::Connection(m) => m@,
            AppError::Database(m) => m@,
            AppError::Storage(m) => m@,
            AppError::SshTunnel(m) => m@,
            AppError::SslConfig(m) => m@,
            AppError::NotFound(m) => m@,
            AppError::Validation(m) => m@,
            AppError::Internal(m) => m@,
        }
    }

    /// The human-readable message: the heading, then the detail.
    pub fn message(&self) -> (r: String)
        ensures
            r@ == self.heading() + self.detail(),
    {
        let (heading, detail) = match self {
            AppError::Connection(m) => ("Connection failed: ", m),
            AppError::Database(m) => ("Database error: ", m),
            AppError::Storage(m) => ("Storage error: ", m),
            AppError::SshTunnel(m) => ("SSH tunnel error: ", m),
            AppError::SslConfig(m) => ("SSL configuration error: ", m),
            AppError::NotFound(m) => ("Not found: ", m),
            AppError::Validation(m) => ("Validation error: ", m),
            AppError::Internal(m) => ("Internal error: ", m),
        };
        let mut out = String::from_str(heading);
        out.append(detail.as_str());
        out
    }
}

} // verus!
