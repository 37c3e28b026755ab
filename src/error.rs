use vstd::prelude::*;

use crate::common::MultipleOfError;

verus! {

/// A storage error from sqlx, carried through unchanged.
#[verifier::external_type_specification]
#[verifier::external_body]
pub struct ExSqlxError(sqlx::Error);

/// Every way a request on a game can fail.
#[derive(Debug)]
pub enum ApiError {
    InvalidPassword,
    NoConfiguredPassword,
    NotAValidPlayer { n: i32 },
    SqlError(sqlx::Error),
    ScoreTooHigh,
    PlayingBidMustBeHigher,
    MissingValue,
    MultipleOfError(MultipleOfError),
}

impl From<MultipleOfError> for ApiError {
    fn from(e: MultipleOfError) -> (r: ApiError)
        ensures
            r == ApiError::MultipleOfError(e),
    {
        ApiError::MultipleOfError(e)
    }
}

impl vstd::std_specs::convert::FromSpecImpl<MultipleOfError> for ApiError {
    open spec fn obeys_from_spec() -> bool {
        true
    }

    open spec fn from_spec(e: MultipleOfError) -> ApiError {
        ApiError::MultipleOfError(e)
    }
}

} // verus!
