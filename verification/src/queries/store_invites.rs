//! Listing a store's invites, newest first, as a connection.
use vstd::prelude::*;
use crate::entities::{StoreInvite, StoreInviteConnection, StoreInviteEdge};

verus! {

/// Which invites are listed: the revoked ones when asked, the others by default.
pub fn revoked_filter(revoked: Option<bool>) -> (listed_revoked: bool)
    ensures
        listed_revoked == (revoked == Some(true)),
{
    match revoked {
        Some(r) => r,
        None => false,
    }
}

/// Two invites with the same fields.
pub open spec fn same_invite(a: StoreInvite, b: StoreInvite) -> bool {
    &&& a.id == b.id
    &&& a.store_id == b.store_id
    &&& a.email@ == b.email@
    &&& a.accepted_at == b.accepted_at
    &&& a.revoked_at == b.revoked_at
    &&& a.created_at == b.created_at
    &&& a.modified_at == b.modified_at
}

/// The connection of a page of invites: one edge per invite, in order, each with the
/// invite's id as cursor and a copy of the invite, and the invites themselves as nodes.
pub fn connection(invites: Vec<StoreInvite>) -> (page: StoreInviteConnection)
    ensures
        page.nodes@ == invites@,
        page.edges@.len() == invites@.len(),
        forall|i: int|
            0 <= i < invites@.len() ==> (#[trigger] page.edges@[i]).cursor == invites@[i].id && same_invite(
                page.edges@[i].node,
                invites@[i],
            ),
{
    let mut edges: Vec<StoreInviteEdge> = Vec::new();
    let mut i: usize = 0;
    while i < invites.len()
        invariant
            i <= invites.len(),
            edges@.len() == i,
            forall|j: int|
                0 <= j < i ==> (#[trigger] edges@[j]).cursor == invites@[j].id && same_invite(
                    edges@[j].node,
                    invites@[j],
                ),
        decreases invites.len() - i,
    {
        let invite = invites[i].duplicate();
        edges.push(StoreInviteEdge { cursor: invite.id, node: invite });
        i = i + 1;
    }
    StoreInviteConnection { edges, nodes: invites }
}

} // verus!
