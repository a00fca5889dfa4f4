//! The closed set of error kinds returned by the repository.
use vstd::prelude::*;

verus! {

/// Every error the data-access layer can report.
#[derive(Debug)]
pub enum AppError {
    /// A failure of the underlying store, with its message.
    Database(String),
    /// No task has the given id.
    TaskNotFound(i64),
    /// No user has the given id.
    UserNotFound(i64),
    /// The username is already taken.
    UsernameExists(String),
    /// Login failed.
    InvalidCredentials,
    /// Input was rejected, with the reason.
    Validation(String),
    /// The caller may not perform the action, with the reason.
    Unauthorized(String),
    /// Any other failure, with its message.
    Internal(String),
}

/// Result of a data-access operation.
pub type AppResult<T> = Result<T, AppError>;

/// The error is the not-found error of task `id`.
pub open spec fn is_task_not_found(e: AppError, id: i64) -> bool {
    match e {
        AppError::TaskNotFound(x) => x == id,
        _ => false,
    }
}

/// The kinds that mean "no such entity".
pub open spec fn not_found_kind(e: AppError) -> bool {
    e is TaskNotFound || e is UserNotFound
}

/// The kinds that mean "the caller is not authenticated or not allowed".
pub open spec fn auth_kind(e: AppError) -> bool {
    e is InvalidCredentials || e is Unauthorized
}

impl AppError {
    /// Whether this error reports a missing task or user.
    pub fn is_not_found(&self) -> (r: bool)
        ensures
            r == not_found_kind(*self),
    {
        matches!(self, AppError::TaskNotFound(_) | AppError::UserNotFound(_))
    }

    /// Whether this error reports rejected input.
    pub fn is_validation(&self) -> (r: bool)
        ensures
            r == (*self is Validation),
    {
        matches!(self, AppError::Validation(_))
    }

    /// Whether this error reports failed authentication or authorisation.
    pub fn is_auth(&self) -> (r: bool)
        ensures
            r == auth_kind(*self),
    {
        matches!(self, AppError::InvalidCredentials | AppError::Unauthorized(_))
    }
}

} // verus!
