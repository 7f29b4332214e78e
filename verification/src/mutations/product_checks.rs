//! The check that opens both checkout mutations: every requested product must be
//! found among the requester's products, and all of them must belong to one store.
use vstd::prelude::*;
use vstd::string::*;
use crate::encoding::{uuid_text, uuid_text_of};
use crate::failure::{Failure, FailureReason, is_failure};

verus! {

/// A product the lookup found: its id and the id of its store. A product with
/// several prices is found once per price.
pub struct ProductStore {
    pub id: u128,
    pub store_id: u128,
}

/// Whether the lookup found a product with this id.
pub open spec fn was_found(found: Seq<ProductStore>, id: u128) -> bool {
    exists|k: int| 0 <= k < found.len() && (#[trigger] found[k]).id == id
}

/// `i` is the first requested product that the lookup did not find.
pub open spec fn is_first_missing(requested: Seq<u128>, found: Seq<ProductStore>, i: int) -> bool {
    &&& 0 <= i < requested.len()
    &&& !was_found(found, requested[i])
    &&& forall|j: int| 0 <= j < i ==> was_found(found, #[trigger] requested[j])
}

/// `p` is the first found row for product `id`.
pub open spec fn is_first_row_of(found: Seq<ProductStore>, id: u128, p: int) -> bool {
    &&& 0 <= p < found.len()
    &&& found[p].id == id
    &&& forall|j: int| 0 <= j < p ==> (#[trigger] found[j]).id != id
}

/// `k` is the first found row from a store other than `store_id`.
pub open spec fn is_first_other_store(found: Seq<ProductStore>, store_id: u128, k: int) -> bool {
    &&& 0 <= k < found.len()
    &&& found[k].store_id != store_id
    &&& forall|j: int| 0 <= j < k ==> (#[trigger] found[j]).store_id == store_id
}

/// The inputs on which the check gives an answer: at least one product is requested,
/// a count mismatch comes with a product that is missing, and where the counts agree
/// the first requested product is among those found. On other inputs the check
/// would panic.
pub open spec fn check_is_defined(requested: Seq<u128>, found: Seq<ProductStore>) -> bool {
    &&& requested.len() > 0
    &&& found.len() != requested.len() ==> exists|i: int| 0 <= i < requested.len() && !was_found(found, #[trigger] requested[i])
    &&& found.len() == requested.len() ==> was_found(found, requested[0])
}

/// The message for a product that could not be found.
pub open spec fn missing_product_message(id: u128) -> Seq<char> {
    "The product '"@ + uuid_text_of(id) + "' could not be found"@
}

/// The message for two products of different stores.
pub open spec fn different_stores_message(first: u128, other: u128) -> Seq<char> {
    "The products '"@ + uuid_text_of(first) + "' and '"@ + uuid_text_of(other) + "' are from different stores"@
}

/// The outcome of the check, stated in full: a missing product is named; otherwise
/// the first requested product decides the store, and the first row from another
/// store is named; otherwise the index of the first requested product's row.
pub open spec fn product_check_outcome(
    requested: Seq<u128>,
    found: Seq<ProductStore>,
    outcome: Result<usize, Failure>,
) -> bool {
    if found.len() != requested.len() {
        exists|i: int|
            is_first_missing(requested, found, i) && (outcome matches Err(f) && is_failure(
                f,
                FailureReason::NOT_FOUND,
                #[trigger] missing_product_message(requested[i]),
            ))
    } else {
        exists|p: int|
            #[trigger] is_first_row_of(found, requested[0], p) && if exists|k: int|
                0 <= k < found.len() && (#[trigger] found[k]).store_id != found[p].store_id {
                exists|k: int|
                    is_first_other_store(found, found[p].store_id, k) && (outcome matches Err(f)
                        && is_failure(
                        f,
                        FailureReason::CONFLICT,
                        #[trigger] different_stores_message(found[p].id, found[k].id),
                    ))
            } else {
                outcome == Ok::<usize, Failure>(p as usize)
            }
    }
}

/// Requested products that were all found, once each, in one store pass the check,
/// and its outcome is the first row of the first requested product.
pub proof fn lemma_one_store_passes(requested: Seq<u128>, found: Seq<ProductStore>, p: usize)
    requires
        requested.len() > 0,
        found.len() == requested.len(),
        is_first_row_of(found, requested[0], p as int),
        forall|k: int| 0 <= k < found.len() ==> (#[trigger] found[k]).store_id == found[p as int].store_id,
    ensures
        product_check_outcome(requested, found, Ok::<usize, Failure>(p)),
{
    assert(is_first_row_of(found, requested[0], p as int));
}

/// Whether the lookup found a product with this id (by scanning the rows).
fn found_contains(found: &Vec<ProductStore>, id: u128) -> (contains: bool)
    ensures
        contains == was_found(found@, id),
{
    let mut k: usize = 0;
    while k < found.len()
        invariant
            k <= found.len(),
            forall|j: int| 0 <= j < k ==> (#[trigger] found@[j]).id != id,
        decreases found.len() - k,
    {
        if found[k].id == id {
            return true;
        }
        k = k + 1;
    }
    false
}

/// Whether the check gives an answer on these inputs (see `check_is_defined`).
pub fn check_defined(requested: &Vec<u128>, found: &Vec<ProductStore>) -> (defined: bool)
    ensures
        defined == check_is_defined(requested@, found@),
{
    if requested.len() == 0 {
        return false;
    }
    if found.len() == requested.len() {
        return found_contains(found, requested[0]);
    }
    let mut i: usize = 0;
    while i < requested.len()
        invariant
            i <= requested.len(),
            requested@.len() > 0,
            found@.len() != requested@.len(),
            forall|j: int| 0 <= j < i ==> was_found(found@, #[trigger] requested@[j]),
        decreases requested.len() - i,
    {
        if !found_contains(found, requested[i]) {
            return true;
        }
        i = i + 1;
    }
    false
}

/// Checks the found products against the requested ones and returns the index of
/// the row of the first requested product, whose store the checkout will belong to.
pub fn check_products(requested: &Vec<u128>, found: &Vec<ProductStore>) -> (outcome: Result<usize, Failure>)
    requires
        check_is_defined(requested@, found@),
    ensures
        product_check_outcome(requested@, found@, outcome),
        outcome matches Ok(p) ==> is_first_row_of(found@, requested@[0], p as int) && forall|k: int|
            0 <= k < found@.len() ==> (#[trigger] found@[k]).store_id == found@[p as int].store_id,
{
    if found.len() != requested.len() {
        let mut i: usize = 0;
        while i < requested.len()
            invariant
                i <= requested.len(),
                check_is_defined(requested@, found@),
                found@.len() != requested@.len(),
                forall|j: int| 0 <= j < i ==> was_found(found@, #[trigger] requested@[j]),
            decreases requested.len() - i,
        {
            if !found_contains(found, requested[i]) {
                let id = requested[i];
                let message = String::from_str("The product '").concat(uuid_text(id).as_str()).concat(
                    "' could not be found",
                );
                let f = Failure::with_message(FailureReason::NOT_FOUND, message);
                assert(is_first_missing(requested@, found@, i as int));
                assert(missing_product_message(requested@[i as int]) == f.message@);
                return Err(f);
            }
            i = i + 1;
        }
        assert(false);
        return Err(Failure::internal());
    }
    let first = requested[0];
    let mut p: usize = 0;
    while p < found.len() && found[p].id != first
        invariant
            p <= found.len(),
            first == requested@[0],
            found@.len() == requested@.len(),
            was_found(found@, first),
            forall|j: int| 0 <= j < p ==> (#[trigger] found@[j]).id != first,
        decreases found.len() - p,
    {
        p = p + 1;
    }
    if p == found.len() {
        assert(false);
        return Err(Failure::internal());
    }
    assert(is_first_row_of(found@, requested@[0], p as int));
    let store = found[p].store_id;
    let mut k: usize = 0;
    while k < found.len()
        invariant
            k <= found.len(),
            p < found.len(),
            store == found@[p as int].store_id,
            is_first_row_of(found@, requested@[0], p as int),
            found@.len() == requested@.len(),
            forall|j: int| 0 <= j < k ==> (#[trigger] found@[j]).store_id == store,
        decreases found.len() - k,
    {
        if found[k].store_id != store {
            let message = String::from_str("The products '").concat(uuid_text(found[p].id).as_str()).concat(
                "' and '",
            ).concat(uuid_text(found[k].id).as_str()).concat("' are from different stores");
            let f = Failure::with_message(FailureReason::CONFLICT, message);
            assert(is_first_other_store(found@, store, k as int));
            assert(different_stores_message(found@[p as int].id, found@[k as int].id) == f.message@);
            return Err(f);
        }
        k = k + 1;
    }
    Ok(p)
}

} // verus!
