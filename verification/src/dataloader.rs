//! What the batch loaders hand back for a batch of keys: each row under its id, and
//! for grouped rows each key's items, or none.
use vstd::prelude::*;
use std::collections::HashMap;

verus! {

broadcast use vstd::std_specs::hash::group_hash_axioms;

/// The rows indexed by id; a later row with the same id replaces an earlier one.
pub open spec fn index_of<V>(rows: Seq<(u128, V)>) -> Map<u128, V>
    decreases rows.len(),
{
    if rows.len() == 0 {
        Map::empty()
    } else {
        index_of(rows.drop_last()).insert(rows.last().0, rows.last().1)
    }
}

/// The loaded rows by id, as a batch loader returns them: keys with no row are absent.
pub fn index_by_id<V>(rows: Vec<(u128, V)>) -> (index: HashMap<u128, V>)
    ensures
        index@ == index_of(rows@),
{
    let ghost all = rows@;
    let mut index: HashMap<u128, V> = HashMap::new();
    let mut rest = rows;
    assert(all.subrange(0, 0) =~= seq![]);
    assert(rest@ =~= all.subrange(0, all.len() as int));
    while rest.len() > 0
        invariant
            rest@.len() <= all.len(),
            index@ == index_of(all.subrange(0, all.len() - rest@.len())),
            rest@ =~= all.subrange(all.len() - rest@.len(), all.len() as int),
        decreases rest@.len(),
    {
        let ghost taken = all.len() - rest@.len();
        let (id, row) = rest.remove(0);
        assert(all.subrange(0, taken + 1).drop_last() =~= all.subrange(0, taken));
        assert(all.subrange(0, taken + 1).last() == all[taken]);
        index.insert(id, row);
        assert(rest@ =~= all.subrange(all.len() - rest@.len(), all.len() as int));
    }
    assert(all.subrange(0, all.len() as int) =~= all);
    index
}

/// The items of a group, or none where the group has no items.
pub open spec fn items_or_empty<V>(items: Option<Vec<V>>) -> Seq<V> {
    match items {
        Some(v) => v@,
        None => seq![],
    }
}

/// Grouped rows indexed by key: each group's items, and no items for a group without any.
pub fn index_groups<V>(groups: Vec<(u128, Option<Vec<V>>)>) -> (index: HashMap<u128, Vec<V>>)
    ensures
        index@.dom() == index_of(groups@).dom(),
        forall|k: u128| #[trigger] index@.contains_key(k) ==> index@[k]@ == items_or_empty(index_of(groups@)[k]),
{
    let ghost all = groups@;
    let mut rows: Vec<(u128, Vec<V>)> = Vec::new();
    let mut rest = groups;
    assert(rest@ =~= all.subrange(0, all.len() as int));
    while rest.len() > 0
        invariant
            rest@ =~= all.subrange(all.len() - rest@.len(), all.len() as int),
            rest@.len() <= all.len(),
            rows@.len() == all.len() - rest@.len(),
            forall|i: int|
                0 <= i < rows@.len() ==> (#[trigger] rows@[i]).0 == all[i].0 && rows@[i].1@ == items_or_empty(
                    all[i].1,
                ),
        decreases rest@.len(),
    {
        let (id, items) = rest.remove(0);
        let items = match items {
            Some(v) => v,
            None => Vec::new(),
        };
        rows.push((id, items));
        assert(rest@ =~= all.subrange(all.len() - rest@.len(), all.len() as int));
    }
    let ghost flat = rows@;
    let index = index_by_id(rows);
    proof {
        lemma_index_of_related(flat, all);
    }
    index
}

/// Two row lists with the same ids, whose values correspond, index the same keys
/// to corresponding values.
proof fn lemma_index_of_related<V>(rows: Seq<(u128, Vec<V>)>, groups: Seq<(u128, Option<Vec<V>>)>)
    requires
        rows.len() == groups.len(),
        forall|i: int|
            0 <= i < rows.len() ==> (#[trigger] rows[i]).0 == groups[i].0 && rows[i].1@ == items_or_empty(groups[i].1),
    ensures
        index_of(rows).dom() == index_of(groups).dom(),
        forall|k: u128|
            #[trigger] index_of(rows).contains_key(k) ==> index_of(rows)[k]@ == items_or_empty(index_of(groups)[k]),
    decreases rows.len(),
{
    if rows.len() > 0 {
        lemma_index_of_related(rows.drop_last(), groups.drop_last());
        assert(rows.last() == rows[rows.len() - 1]);
        assert(index_of(rows).dom() =~= index_of(groups).dom());
    } else {
        assert(index_of(rows).dom() =~= index_of(groups).dom());
    }
}

} // verus!
