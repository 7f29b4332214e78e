//! Creating the link that takes a store owner through the payment provider's onboarding.
use vstd::prelude::*;
use crate::failure::{Failure, FailureReason, is_failure, is_default_failure, id_message};
use crate::entities::OnboardingLink;
use crate::guards::require_found;

verus! {

/// The account, if it belongs to one of the requester's stores.
pub fn require_account<T>(account: Option<T>, account_id: u128) -> (found: Result<T, Failure>)
    ensures
        match account {
            Some(a) => found == Ok::<T, Failure>(a),
            None => found matches Err(f) && is_failure(
                f,
                FailureReason::NOT_FOUND,
                id_message("The account '"@, account_id, "' could not be found"@),
            ),
        },
{
    require_found(account, "The account '", account_id, "' could not be found")
}

/// The onboarding link asked of the payment provider: for the account, returning to
/// the website whether onboarding is finished or must be restarted.
pub struct AccountLinkRequest {
    pub account: String,
    pub refresh_url: String,
    pub return_url: String,
}

pub fn account_link_request(stripe_account_id: String, website_base_url: &String) -> (request: AccountLinkRequest)
    ensures
        request.account@ == stripe_account_id@,
        request.refresh_url@ == website_base_url@,
        request.return_url@ == website_base_url@,
{
    AccountLinkRequest { account: stripe_account_id, refresh_url: website_base_url.clone(), return_url: website_base_url.clone() }
}

/// The first second `chrono` can represent: -262143-01-01T00:00:00 UTC, as Unix time.
pub const EARLIEST_SECONDS: i64 = -8334601228800;

/// The last second `chrono` can represent: 262142-12-31T23:59:59 UTC, as Unix time.
pub const LATEST_SECONDS: i64 = 8210266876799;

/// Whether `chrono` can represent the Unix time `secs`.
pub open spec fn in_chrono_range(secs: int) -> bool {
    EARLIEST_SECONDS <= secs <= LATEST_SECONDS
}

/// `chrono::DateTime::from_timestamp(secs, 0)` read back in microseconds: the same
/// instant in microseconds for a second within `chrono`'s range (its years run from
/// -262143 to 262142), and `None` outside it.
#[verifier::external_body]
fn micros_from_seconds(secs: i64) -> (micros: Option<i64>)
    ensures
        micros is Some <==> in_chrono_range(secs as int),
        micros matches Some(m) ==> m == secs * 1000000,
{
    chrono::DateTime::from_timestamp(secs, 0).map(|d| d.timestamp_micros())
}

/// The link the provider created, with its times (in seconds) turned into instants;
/// a time out of `chrono`'s range is an internal error.
pub fn onboarding_link(url: String, expires_at_secs: i64, created_secs: i64) -> (link: Result<OnboardingLink, Failure>)
    ensures
        match link {
            Ok(l) => l.url@ == url@ && l.expires_at == expires_at_secs * 1000000 && l.created_at == created_secs
                * 1000000,
            Err(f) => is_default_failure(f, FailureReason::INTERNAL_SERVER_ERROR),
        },
        link is Ok <==> (in_chrono_range(expires_at_secs as int) && in_chrono_range(created_secs as int)),
{
    let expires_at = match micros_from_seconds(expires_at_secs) {
        Some(m) => m,
        None => return Err(Failure::internal()),
    };
    let created_at = match micros_from_seconds(created_secs) {
        Some(m) => m,
        None => return Err(Failure::internal()),
    };
    Ok(OnboardingLink { url, expires_at, created_at })
}

} // verus!
