use vstd::prelude::*;

verus! {

/// The kinds of failure the service distinguishes. Each maps to exactly one
/// HTTP status code; handlers report an empty body on every failure.
#[derive(Clone, Copy, Debug, PartialEq, Eq, Structural)]
pub enum AppError {
    /// Malformed multipart body, missing upload filename, or a non-text
    /// extension.
    BadRequest,
    /// The presented token is not present (exactly once) in the tokens table.
    Unauthorized,
    /// No paste row for the given id.
    NotFound,
    /// A metadata-store failure other than "no row".
    StorageError,
    /// A filesystem failure during create or unlink.
    IoError,
    /// Any other unexpected failure.
    Internal,
}

/// The HTTP status code each error kind is reported as.
pub open spec fn status_of(e: AppError) -> u16 {
    match e {
        AppError::BadRequest => 400,
        AppError::Unauthorized => 401,
        AppError::NotFound => 404,
        AppError::StorageError => 500,
        AppError::IoError => 500,
        AppError::Internal => 500,
    }
}

impl AppError {
    /// Translate the error to its HTTP status code.
    pub fn status_code(&self) -> (r: u16)
        ensures
            r == status_of(*self),
    {
        match self {
            AppError::BadRequest => 400,
            AppError::Unauthorized => 401,
            AppError::NotFound => 404,
            AppError::StorageError => 500,
            AppError::IoError => 500,
            AppError::Internal => 500,
        }
    }
}

} // verus!
