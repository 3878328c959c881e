//! The decisions of token verification: a user's token is accepted only when
//! the database holds a stored token for the user and the password verifier
//! confirms that the given secret matches it.
use vstd::prelude::*;
use crate::errors::{VerifyTokenFailure, VerifyTokenFailureView};

verus! {

/// Token verification needs the database pool; without it the check fails
/// with `MissingDatabase`.
pub fn require_database(pool_ready: bool) -> (res: Result<(), VerifyTokenFailure>)
    ensures
        res is Ok <==> pool_ready,
        res matches Err(e) ==> e@ is MissingDatabase,
{
    if pool_ready {
        Ok(())
    } else {
        Err(VerifyTokenFailure::MissingDatabase)
    }
}

/// Judges the lookup of a user's stored token: a database error is
/// `DbError` with its text, a user without a token is `InvalidToken`, and
/// otherwise the stored token hash comes back.
pub fn stored_token(lookup: Result<Option<String>, String>) -> (res: Result<String, VerifyTokenFailure>)
    ensures
        match lookup {
            Err(d) => res matches Err(e) && e@ == VerifyTokenFailureView::DbError(d@),
            Ok(None) => res matches Err(e) && e@ is InvalidToken,
            Ok(Some(h)) => res matches Ok(t) && t@ == h@,
        },
{
    match lookup {
        Err(d) => Err(VerifyTokenFailure::DbError(d)),
        Ok(None) => Err(VerifyTokenFailure::InvalidToken),
        Ok(Some(h)) => Ok(h),
    }
}

/// Judges the password verifier's answer: an error is `VerifierError` with
/// its text, a mismatch is `InvalidToken`, and a match accepts the token.
pub fn verification_verdict(verified: Result<bool, String>) -> (res: Result<(), VerifyTokenFailure>)
    ensures
        res is Ok <==> verified == Ok::<bool, String>(true),
        match verified {
            Err(d) => res matches Err(e) && e@ == VerifyTokenFailureView::VerifierError(d@),
            Ok(false) => res matches Err(e) && e@ is InvalidToken,
            Ok(true) => true,
        },
{
    match verified {
        Err(d) => Err(VerifyTokenFailure::VerifierError(d)),
        Ok(false) => Err(VerifyTokenFailure::InvalidToken),
        Ok(true) => Ok(()),
    }
}

} // verus!
