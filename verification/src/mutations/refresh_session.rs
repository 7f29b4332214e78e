//! Exchanging a refresh token for new tokens.
use vstd::prelude::*;
use vstd::string::*;
use crate::auth::RefreshTokenClaims;
use crate::failure::{Failure, FailureReason, is_failure};

verus! {

/// The claims of the refresh token, or the failure for a token that did not decode
/// (bad signature, expired, or malformed).
pub fn require_claims(claims: Option<RefreshTokenClaims>) -> (found: Result<RefreshTokenClaims, Failure>)
    ensures
        match claims {
            Some(c) => found == Ok::<RefreshTokenClaims, Failure>(c),
            None => found matches Err(f) && is_failure(f, FailureReason::UNAUTHORIZED, "The refresh token is invalid"@),
        },
{
    match claims {
        Some(c) => Ok(c),
        None => Err(Failure::with_message(FailureReason::UNAUTHORIZED, String::from_str("The refresh token is invalid"))),
    }
}

/// A refresh token works only while neither it nor its session is revoked.
pub fn check_not_revoked(refresh_token_revoked: bool, session_revoked: bool) -> (checked: Result<(), Failure>)
    ensures
        (refresh_token_revoked || session_revoked) ==> (checked matches Err(f) && is_failure(
            f,
            FailureReason::FORBIDDEN,
            "The refresh token was revoked"@,
        )),
        !(refresh_token_revoked || session_revoked) ==> checked is Ok,
{
    if refresh_token_revoked || session_revoked {
        Err(Failure::with_message(FailureReason::FORBIDDEN, String::from_str("The refresh token was revoked")))
    } else {
        Ok(())
    }
}

} // verus!
