//! Following the payment provider's account updates: a store is active once its
//! account has no reason to be disabled.
use vstd::prelude::*;
use vstd::string::*;
use crate::entities::{AccountStatus, StoreStatus};
use crate::failure::{Failure, FailureReason, is_failure};

verus! {

/// The requirements the payment provider reports for an account: the reason the
/// account is disabled, if it is.
pub struct AccountRequirements {
    pub disabled_reason: Option<String>,
}

/// The message for an account the service does not know; it quotes the provider's id.
pub open spec fn unknown_account_message(stripe_account_id: Seq<char>) -> Seq<char> {
    "The account '"@ + stripe_account_id + "' could not be found"@
}

/// The service's account for the provider's account id, or the failure that quotes the id.
pub fn require_account<T>(account: Option<T>, stripe_account_id: &str) -> (found: Result<T, Failure>)
    ensures
        match account {
            Some(a) => found == Ok::<T, Failure>(a),
            None => found matches Err(f) && is_failure(
                f,
                FailureReason::NOT_FOUND,
                unknown_account_message(stripe_account_id@),
            ),
        },
{
    match account {
        Some(a) => Ok(a),
        None => {
            let message = String::from_str("The account '").concat(stripe_account_id).concat("' could not be found");
            Err(Failure::with_message(FailureReason::NOT_FOUND, message))
        },
    }
}

/// An account is active when the provider reports requirements and no disabled reason.
pub open spec fn is_active_spec(requirements: Option<AccountRequirements>) -> bool {
    match requirements {
        Some(r) => r.disabled_reason is None,
        None => false,
    }
}

/// Whether the account is active.
pub fn is_account_active(requirements: &Option<AccountRequirements>) -> (active: bool)
    ensures
        active == is_active_spec(*requirements),
{
    match requirements {
        Some(r) => r.disabled_reason.is_none(),
        None => false,
    }
}

/// The statuses the account and its store move to: active, or back to onboarding.
pub fn statuses_for(active: bool) -> (statuses: (AccountStatus, StoreStatus))
    ensures
        active ==> statuses == (AccountStatus::Active, StoreStatus::Active),
        !active ==> statuses == (AccountStatus::OnboardingStarted, StoreStatus::OnboardingStarted),
{
    if active {
        (AccountStatus::Active, StoreStatus::Active)
    } else {
        (AccountStatus::OnboardingStarted, StoreStatus::OnboardingStarted)
    }
}

} // verus!
