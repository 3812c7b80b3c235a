use smolpaste::auth::{authorize, CountOutcome};
use smolpaste::errors::AppError;

#[test]
fn count_of_one_authorizes() {
    assert_eq!(authorize(CountOutcome::Count(1)), Ok(()));
}

#[test]
fn count_of_zero_is_unauthorized() {
    assert_eq!(authorize(CountOutcome::Count(0)), Err(AppError::Unauthorized));
}

#[test]
fn no_row_is_unauthorized() {
    assert_eq!(authorize(CountOutcome::NoRow), Err(AppError::Unauthorized));
}

#[test]
fn duplicate_tokens_are_not_authorized() {
    assert_eq!(authorize(CountOutcome::Count(2)), Err(AppError::Internal));
}

#[test]
fn store_failure_is_internal() {
    assert_eq!(authorize(CountOutcome::Failure), Err(AppError::Internal));
}
