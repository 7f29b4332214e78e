//! Revoking an invitation to a store.
use vstd::prelude::*;
use crate::entities::StoreInvite;
use crate::failure::{Failure, FailureReason, is_failure, id_message};
use crate::guards::require_found;

verus! {

/// The invite, if it belongs to one of the requester's stores.
pub fn require_invite(invite: Option<StoreInvite>, id: u128) -> (found: Result<StoreInvite, Failure>)
    ensures
        match invite {
            Some(i) => found == Ok::<StoreInvite, Failure>(i),
            None => found matches Err(f) && is_failure(
                f,
                FailureReason::NOT_FOUND,
                id_message("The store invite '"@, id, "' could not be found"@),
            ),
        },
{
    require_found(invite, "The store invite '", id, "' could not be found")
}

/// An invite that was revoked already is returned as it is; only a live one is revoked.
pub fn needs_revocation(invite: &StoreInvite) -> (revoke: bool)
    ensures
        revoke == (invite.revoked_at is None),
{
    invite.revoked_at.is_none()
}

} // verus!
