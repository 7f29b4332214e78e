//! Listing a store's orders, newest first, as a connection.
use vstd::prelude::*;
use crate::entities::{Order, OrderConnection, OrderEdge};
use crate::failure::{Failure, FailureReason, is_failure, id_message};
use crate::guards::{not_member_message, require_member};

verus! {

/// The store must exist and have the requester as a member.
pub fn check_store(store_member_exists: Option<Option<bool>>, store_id: u128) -> (checked: Result<(), Failure>)
    ensures
        match store_member_exists {
            None => checked matches Err(f) && is_failure(
                f,
                FailureReason::NOT_FOUND,
                id_message("The store '"@, store_id, "' could not be found"@),
            ),
            Some(member) => if member == Some(true) {
                checked is Ok
            } else {
                checked matches Err(f) && is_failure(f, FailureReason::FORBIDDEN, not_member_message())
            },
        },
{
    match store_member_exists {
        None => Err(Failure::about_id(FailureReason::NOT_FOUND, "The store '", store_id, "' could not be found")),
        Some(member) => require_member(member),
    }
}

/// The connection of a page of orders: one edge per order, in order, each with the
/// order's id as cursor, and the orders themselves as nodes.
pub fn connection(orders: Vec<Order>) -> (page: OrderConnection)
    ensures
        page.nodes@ == orders@,
        page.edges@.len() == orders@.len(),
        forall|i: int|
            0 <= i < orders@.len() ==> (#[trigger] page.edges@[i]).cursor == orders@[i].id && page.edges@[i].node
                == orders@[i],
{
    let mut edges: Vec<OrderEdge> = Vec::new();
    let mut i: usize = 0;
    while i < orders.len()
        invariant
            i <= orders.len(),
            edges@.len() == i,
            forall|j: int|
                0 <= j < i ==> (#[trigger] edges@[j]).cursor == orders@[j].id && edges@[j].node == orders@[j],
        decreases orders.len() - i,
    {
        let order = orders[i];
        edges.push(OrderEdge { cursor: order.id, node: order });
        i = i + 1;
    }
    OrderConnection { edges, nodes: orders }
}

} // verus!
