//! The error taxonomy: validation failures are raised at construction time
//! by the model constructors; the data layer reports the outcomes below and
//! never recovers from them locally — each is returned unchanged to the
//! caller.

use vstd::prelude::*;

verus! {

/// Failures the data layer reports.  Lock errors are infrastructure faults
/// that a backend whose lock acquisition can fail would surface; they are
/// never swallowed.
#[derive(Debug, Clone, Copy, PartialEq, Eq, Structural)]
pub enum DatabaseError {
    ConnectionError,
    NotFoundError,
    UserNotFound,
    GroupNotFound,
    UserAlreadyExists,
    RegisterAlreadyExists,
    WriteLockError,
    ReadLockError,
}

impl DatabaseError {
    /// The human-readable message for this failure.
    pub fn message(&self) -> (s: &'static str)
        ensures
            s@ == self.message_spec(),
    {
        match self {
            DatabaseError::ConnectionError => "Connection error",
            DatabaseError::NotFoundError => "Not found error",
            DatabaseError::UserNotFound => "User not found",
            DatabaseError::GroupNotFound => "Group not found",
            DatabaseError::UserAlreadyExists => "User already exists",
            DatabaseError::RegisterAlreadyExists => "Register already exists",
            DatabaseError::WriteLockError => "Write lock error",
            DatabaseError::ReadLockError => "Read lock error",
        }
    }

    pub open spec fn message_spec(&self) -> Seq<char> {
        match self {
            DatabaseError::ConnectionError => "Connection error"@,
            DatabaseError::NotFoundError => "Not found error"@,
            DatabaseError::UserNotFound => "User not found"@,
            DatabaseError::GroupNotFound => "Group not found"@,
            DatabaseError::UserAlreadyExists => "User already exists"@,
            DatabaseError::RegisterAlreadyExists => "Register already exists"@,
            DatabaseError::WriteLockError => "Write lock error"@,
            DatabaseError::ReadLockError => "Read lock error"@,
        }
    }
}

/// A failure as the surrounding API layer reports it: either a data-layer
/// outcome or a validation message from a constructor.
#[derive(Debug)]
pub enum ApiError {
    Database(DatabaseError),
    Validation(String),
}

impl ApiError {
    pub fn database(err: DatabaseError) -> (r: ApiError)
        ensures
            r == ApiError::Database(err),
    {
        ApiError::Database(err)
    }

    pub fn validation(msg: &str) -> (r: ApiError)
        ensures
            r matches ApiError::Validation(m) && m@ == msg@,
    {
        ApiError::Validation(msg.to_string())
    }

    /// The HTTP status this failure maps to.
    pub open spec fn status_spec(&self) -> u16 {
        match self {
            ApiError::Database(e) => match e {
                DatabaseError::UserNotFound => 404,
                DatabaseError::GroupNotFound => 404,
                DatabaseError::NotFoundError => 404,
                DatabaseError::UserAlreadyExists => 409,
                DatabaseError::RegisterAlreadyExists => 409,
                DatabaseError::ConnectionError => 500,
                DatabaseError::WriteLockError => 500,
                DatabaseError::ReadLockError => 500,
            },
            ApiError::Validation(_) => 400,
        }
    }

    /// Absent targets map to 404, identifier collisions to 409,
    /// infrastructure faults to 500, and validation failures to 400.
    pub fn status_code(&self) -> (c: u16)
        ensures
            c == self.status_spec(),
    {
        match self {
            ApiError::Database(e) => match e {
                DatabaseError::UserNotFound => 404,
                DatabaseError::GroupNotFound => 404,
                DatabaseError::NotFoundError => 404,
                DatabaseError::UserAlreadyExists => 409,
                DatabaseError::RegisterAlreadyExists => 409,
                DatabaseError::ConnectionError => 500,
                DatabaseError::WriteLockError => 500,
                DatabaseError::ReadLockError => 500,
            },
            ApiError::Validation(_) => 400,
        }
    }

    /// The message the response body carries.
    pub fn message(&self) -> (s: String)
        ensures
            self matches ApiError::Database(e) ==> s@ == e.message_spec(),
            self matches ApiError::Validation(m) ==> s@ == m@,
    {
        match self {
            ApiError::Database(e) => e.message().to_string(),
            ApiError::Validation(m) => m.clone(),
        }
    }
}

/// The error body handed back by the API layer.
#[derive(Debug)]
pub struct ErrorResponse {
    pub message: String,
}

impl ErrorResponse {
    pub fn new(message: &str) -> (r: Self)
        ensures
            r.message@ == message@,
    {
        ErrorResponse { message: message.to_string() }
    }

    pub fn value(&self) -> (s: &str)
        ensures
            s@ == self.message@,
    {
        self.message.as_str()
    }

    /// The response body for a data-layer failure.
    pub fn from_error(error: DatabaseError) -> (r: Self)
        ensures
            r.message@ == error.message_spec(),
    {
        ErrorResponse { message: error.message().to_string() }
    }
}

} // verus!
