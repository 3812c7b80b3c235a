use vstd::prelude::*;

use crate::errors::AppError;

verus! {

/// The outcome of counting the rows of the `tokens` table whose `value`
/// column equals the presented token, exactly as the metadata store reports
/// it: a count, a "no row" error, or any other failure.
#[derive(Clone, Copy, Debug, PartialEq, Eq, Structural)]
pub enum CountOutcome {
    Count(i32),
    NoRow,
    Failure,
}

/// A token authorizes a request exactly when its count is 1.
pub open spec fn authorized(o: CountOutcome) -> bool {
    o == CountOutcome::Count(1i32)
}

/// A count of 0, or a "no row" report, is an ordinary rejection; anything
/// else (a count other than 0 or 1, or a store failure) is unexpected.
pub open spec fn auth_error(o: CountOutcome) -> AppError {
    match o {
        CountOutcome::Count(c) => if c == 0 {
            AppError::Unauthorized
        } else {
            AppError::Internal
        },
        CountOutcome::NoRow => AppError::Unauthorized,
        CountOutcome::Failure => AppError::Internal,
    }
}

/// Decide whether a token-count outcome authorizes the request.
///
/// The request proceeds only on a count of exactly 1; a count of 0 or a
/// "no row" report is `Unauthorized`, and every other outcome `Internal`.
pub fn authorize(o: CountOutcome) -> (r: Result<(), AppError>)
    ensures
        r is Ok <==> authorized(o),
        r matches Err(e) ==> e == auth_error(o),
{
    match o {
        CountOutcome::Count(1i32) => Ok(()),
        CountOutcome::Count(0i32) => Err(AppError::Unauthorized),
        CountOutcome::Count(_) => Err(AppError::Internal),
        CountOutcome::NoRow => Err(AppError::Unauthorized),
        CountOutcome::Failure => Err(AppError::Internal),
    }
}

} // verus!
