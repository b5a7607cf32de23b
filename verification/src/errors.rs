//! Error taxonomy of the system, modelled over plain values. Causes that the
//! original layers take from outside libraries (I/O, SQL, JSON) are carried
//! here as their diagnostic message alone; the hosting process converts.

use vstd::prelude::*;

verus! {

broadcast use vstd::string::group_string_axioms;

/// Base errors shared by every layer.
#[derive(Debug, Clone)]
pub enum CommonError {
    /// An error occurred during input/output operations.
    Io { message: String },
    /// An error occurred during (de)serialization of JSON data.
    Json { message: String },
    /// A required configuration value was not found.
    MissingConfig { key: String },
    /// An invalid input value was provided.
    InvalidInput { message: String },
    /// A file was expected but not found at the specified path.
    NotFound { path: String },
    /// A generic, unexpected internal error occurred.
    Internal { message: String },
}

/// Errors of the storage layer.
#[derive(Debug, Clone)]
pub enum DbError {
    Common { cause: CommonError },
    /// A database driver error, carried as its message.
    Sqlx { message: String },
    /// A schema-migration error, carried as its message.
    SqlxMigration { message: String },
}

/// Errors of the service layer.
#[derive(Debug, Clone)]
pub enum ServiceError {
    Common { cause: CommonError },
    Storage { cause: DbError },
    Auth { message: &'static str },
    Format { message: &'static str },
}

/// Errors of the worker-supervision layer.
#[derive(Debug, Clone)]
pub enum WorkerError {
    Common { cause: CommonError },
    Storage { cause: DbError },
    /// The shutdown-notification machinery failed, e.g. the interrupt
    /// listener could not be installed.
    Notify { message: &'static str },
}

impl CommonError {
    /// The diagnostic text carried by this error.
    pub closed spec fn spec_message(&self) -> Seq<char> {
        match self {
            CommonError::Io { message } => message@,
            CommonError::Json { message } => message@,
            CommonError::MissingConfig { key } => key@,
            CommonError::InvalidInput { message } => message@,
            CommonError::NotFound { path } => path@,
            CommonError::Internal { message } => message@,
        }
    }

    pub fn message(&self) -> (r: &String)
        ensures
            r@ == self.spec_message(),
    {
        match self {
            CommonError::Io { message } => message,
            CommonError::Json { message } => message,
            CommonError::MissingConfig { key } => key,
            CommonError::InvalidInput { message } => message,
            CommonError::NotFound { path } => path,
            CommonError::Internal { message } => message,
        }
    }
}

impl DbError {
    pub closed spec fn spec_message(&self) -> Seq<char> {
        match self {
            DbError::Common { cause } => cause.spec_message(),
            DbError::Sqlx { message } => message@,
            DbError::SqlxMigration { message } => message@,
        }
    }

    pub fn message(&self) -> (r: &String)
        ensures
            r@ == self.spec_message(),
    {
        match self {
            DbError::Common { cause } => cause.message(),
            DbError::Sqlx { message } => message,
            DbError::SqlxMigration { message } => message,
        }
    }
}

impl ServiceError {
    pub closed spec fn spec_message(&self) -> Seq<char> {
        match self {
            ServiceError::Common { cause } => cause.spec_message(),
            ServiceError::Storage { cause } => cause.spec_message(),
            ServiceError::Auth { message } => message@,
            ServiceError::Format { message } => message@,
        }
    }

    pub fn message(&self) -> (r: String)
        ensures
            r@ == self.spec_message(),
    {
        match self {
            ServiceError::Common { cause } => cause.message().clone(),
            ServiceError::Storage { cause } => cause.message().clone(),
            ServiceError::Auth { message } => (*message).to_string(),
            ServiceError::Format { message } => (*message).to_string(),
        }
    }
}

} // verus!
