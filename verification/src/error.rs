//! The error kinds that every layer of the core reports.

use crate::text::{decimal, push_decimal};
use vstd::prelude::*;
use vstd::std_specs::convert::FromSpecImpl;
use vstd::string::StringExecFns;

verus! {

/// A failure reported by `sqlx`; opaque to the verifier.
#[verifier::external_type_specification]
#[verifier::external_body]
pub struct ExSqlxError(sqlx::Error);

/// A failure reported by `serde_json`; opaque to the verifier.
#[verifier::external_type_specification]
#[verifier::external_body]
pub struct ExJsonError(serde_json::Error);

/// A structured, named failure.
#[derive(Debug, Clone, PartialEq, Eq)]
pub enum AppError {
    /// The engine reported a failure; its message is passed through.
    Database(String),
    /// No live connection has the identifier.
    ConnectionNotFound(String),
    /// The connection parameters are malformed.
    InvalidConfig(String),
    /// A result could not be encoded.
    Serialization(String),
    /// The operation did not finish within the given number of seconds.
    QueryTimeout(u64),
    /// The operation was cancelled by its token.
    QueryCancelled,
    /// The SQL surface was asked of a backend that has none.
    UnsupportedCapability,
}

/// The mathematical value of an [`AppError`].
pub enum ErrorModel {
    Database(Seq<char>),
    ConnectionNotFound(Seq<char>),
    InvalidConfig(Seq<char>),
    Serialization(Seq<char>),
    QueryTimeout(u64),
    QueryCancelled,
    UnsupportedCapability,
}

impl View for AppError {
    type V = ErrorModel;

    open spec fn view(&self) -> ErrorModel {
        match *self {
            AppError::Database(m) => ErrorModel::Database(m@),
            AppError::ConnectionNotFound(m) => ErrorModel::ConnectionNotFound(m@),
            AppError::InvalidConfig(m) => ErrorModel::InvalidConfig(m@),
            AppError::Serialization(m) => ErrorModel::Serialization(m@),
            AppError::QueryTimeout(secs) => ErrorModel::QueryTimeout(secs),
            AppError::QueryCancelled => ErrorModel::QueryCancelled,
            AppError::UnsupportedCapability => ErrorModel::UnsupportedCapability,
        }
    }
}

impl ErrorModel {
    /// The line shown to the user for the error.
    pub open spec fn message(self) -> Seq<char> {
        match self {
            ErrorModel::Database(m) => "Database error: "@ + m,
            ErrorModel::ConnectionNotFound(m) => "Connection not found: "@ + m,
            ErrorModel::InvalidConfig(m) => "Invalid configuration: "@ + m,
            ErrorModel::Serialization(m) => "Serialization error: "@ + m,
            ErrorModel::QueryTimeout(secs) => "Query timed out after "@ + decimal(secs as nat)
                + " seconds"@,
            ErrorModel::QueryCancelled => "Query cancelled"@,
            ErrorModel::UnsupportedCapability => "Operation not supported by this database"@,
        }
    }
}

/// Calls `to_string` on a `sqlx::Error`.
///
/// Trusted: nothing is claimed of the text, which for a failure of the
/// operating system is the system's own wording.
#[verifier::external_body]
fn display_sqlx_error(err: &sqlx::Error) -> (text: String) {
    err.to_string()
}

/// Calls `to_string` on a `serde_json::Error`.
///
/// Trusted: nothing is claimed of the text, which for a failure of the
/// operating system is the system's own wording.
#[verifier::external_body]
fn display_json_error(err: &serde_json::Error) -> (text: String) {
    err.to_string()
}

impl AppError {
    /// The line shown to the user for the error.
    pub fn message(&self) -> (line: String)
        ensures
            line@ == self@.message(),
    {
        match self {
            AppError::Database(m) => String::from_str("Database error: ").concat(m.as_str()),
            AppError::ConnectionNotFound(m) => String::from_str("Connection not found: ").concat(
                m.as_str(),
            ),
            AppError::InvalidConfig(m) => String::from_str("Invalid configuration: ").concat(
                m.as_str(),
            ),
            AppError::Serialization(m) => String::from_str("Serialization error: ").concat(
                m.as_str(),
            ),
            AppError::QueryTimeout(secs) => {
                let mut line = String::from_str("Query timed out after ");
                push_decimal(&mut line, *secs);
                line.concat(" seconds")
            },
            AppError::QueryCancelled => String::from_str("Query cancelled"),
            AppError::UnsupportedCapability => String::from_str(
                "Operation not supported by this database",
            ),
        }
    }

    /// The `ConnectionNotFound` error for an identifier.
    pub fn connection_not_found(id: &str) -> (err: AppError)
        ensures
            err@ == ErrorModel::ConnectionNotFound(not_found_text(id@)),
    {
        AppError::ConnectionNotFound(
            String::from_str("Connection '").concat(id).concat("' not found"),
        )
    }
}

/// The detail of a `ConnectionNotFound` error for an identifier.
pub open spec fn not_found_text(id: Seq<char>) -> Seq<char> {
    "Connection '"@ + id + "' not found"@
}

impl AppError {
    /// The `Database` error with the given message.
    pub fn database(message: String) -> (err: AppError)
        ensures
            err@ == ErrorModel::Database(message@),
    {
        AppError::Database(message)
    }

    /// The `Serialization` error with the given message.
    pub fn serialization(message: String) -> (err: AppError)
        ensures
            err@ == ErrorModel::Serialization(message@),
    {
        AppError::Serialization(message)
    }
}

impl From<sqlx::Error> for AppError {
    /// An engine failure becomes a `Database` error that carries the text
    /// the engine's client displays for it.
    fn from(err: sqlx::Error) -> (e: AppError)
        ensures
            e@ is Database,
    {
        AppError::database(display_sqlx_error(&err))
    }
}

impl FromSpecImpl<sqlx::Error> for AppError {
    /// The conversion is not a function of the failure alone: the text of a
    /// failure of the operating system varies with the system.
    open spec fn obeys_from_spec() -> bool {
        false
    }

    open spec fn from_spec(err: sqlx::Error) -> AppError {
        AppError::Database(arbitrary())
    }
}

impl From<serde_json::Error> for AppError {
    /// An encoding failure becomes a `Serialization` error that carries the
    /// text the encoder displays for it.
    fn from(err: serde_json::Error) -> (e: AppError)
        ensures
            e@ is Serialization,
    {
        AppError::serialization(display_json_error(&err))
    }
}

impl FromSpecImpl<serde_json::Error> for AppError {
    /// The conversion is not a function of the failure alone: the text of a
    /// failure of the operating system varies with the system.
    open spec fn obeys_from_spec() -> bool {
        false
    }

    open spec fn from_spec(err: serde_json::Error) -> AppError {
        AppError::Serialization(arbitrary())
    }
}

} // verus!
