//! Who is listed to vote on the transfer of a collection.
use vstd::prelude::*;

use crate::laws::{lemma_distinct, lemma_foreign_owners, lemma_voters};
use crate::transfer::{distinct, foreign_owners, lemma_foreign_owners_push, voters};
use crate::types::{AccountId, ItemState};

verus! {

/// Whether an account owns one of the first items.
pub open spec fn owns_among_first(items: Seq<ItemState>, count: int, account: AccountId) -> bool {
    exists|i: int| 0 <= i < count && (#[trigger] items[i]).owner == account
}

/// Foreign owners stand in the order of their first items.
proof fn lemma_in_order_of_items(items: Seq<ItemState>, owner: AccountId, p: int, q: int, k: int)
    requires
        0 <= p < q < distinct(foreign_owners(items, owner)).len(),
        0 <= k < items.len(),
        items[k].owner == distinct(foreign_owners(items, owner))[q],
    ensures
        owns_among_first(items, k, distinct(foreign_owners(items, owner))[p]),
    decreases items.len(),
{
    let front = items.drop_last();
    let last = items.len() - 1;
    let before = distinct(foreign_owners(front, owner));
    let listed = distinct(foreign_owners(items, owner));
    lemma_foreign_owners(front, owner);
    lemma_distinct(foreign_owners(front, owner));
    lemma_foreign_owners_push(items, owner, last);
    assert(items.take(last) =~= front);
    assert(items.take(last + 1) =~= items);
    if items[last].owner != owner {
        assert(foreign_owners(items, owner).drop_last() =~= foreign_owners(front, owner));
    }
    assert(listed == before || listed == before.push(items[last].owner));
    assert(before[p] == listed[p]);
    assert(before.contains(before[p]));
    let own = choose|i: int| 0 <= i < front.len() && (#[trigger] front[i]).owner == before[p];
    if q < before.len() {
        assert(before.contains(before[q]));
        let first = if k < last {
            k
        } else {
            choose|i: int| 0 <= i < front.len() && (#[trigger] front[i]).owner == before[q]
        };
        lemma_in_order_of_items(front, owner, p, q, first);
        let i = choose|i: int| 0 <= i < first && (#[trigger] front[i]).owner == before[p];
        assert(items[i].owner == listed[p]);
    } else {
        if k < last {
            assert(front[k].owner == items[last].owner);
            assert(foreign_owners(front, owner).contains(items[last].owner));
            assert(before.contains(items[last].owner));
        }
        assert(items[own].owner == listed[p]);
    }
}

/// Nobody is listed twice to vote, and only owners are: of the collection, or of one of its items.
/// Everybody of these is listed as long as there is room.
pub proof fn law_who_is_listed(items: Seq<ItemState>, owner: AccountId, max_owners: u32)
    ensures
        ({
            let listed = voters(items, owner, max_owners);
            &&& listed.len() <= max_owners
            &&& forall|p: int, q: int|
                0 <= p < q < listed.len() ==> #[trigger] listed[p] != #[trigger] listed[q]
            &&& forall|p: int|
                0 <= p < listed.len() ==> #[trigger] listed[p] == owner || exists|i: int|
                    0 <= i < items.len() && (#[trigger] items[i]).owner == listed[p]
            &&& listed.len() < max_owners ==> listed.contains(owner) && forall|i: int|
                0 <= i < items.len() ==> listed.contains((#[trigger] items[i]).owner)
        }),
{
    let listed = voters(items, owner, max_owners);
    let all = distinct(foreign_owners(items, owner)).push(owner);
    lemma_voters(items, owner, max_owners);
    lemma_distinct(foreign_owners(items, owner));
    lemma_foreign_owners(items, owner);
    assert forall|p: int| 0 <= p < listed.len() implies #[trigger] listed[p] == owner || exists|
        i: int,
    |
        0 <= i < items.len() && (#[trigger] items[i]).owner == listed[p] by {
        assert(listed[p] == all[p]);
        if p < all.len() - 1 {
            assert(distinct(foreign_owners(items, owner)).contains(all[p]));
        }
    }
    if listed.len() < max_owners {
        assert(listed == all);
        assert(listed[listed.len() - 1] == owner);
        assert forall|i: int| 0 <= i < items.len() implies listed.contains(
            (#[trigger] items[i]).owner,
        ) by {
            if items[i].owner != owner {
                let foreign = distinct(foreign_owners(items, owner));
                assert(foreign.contains(items[i].owner));
                let p = choose|p: int| 0 <= p < foreign.len() && foreign[p] == items[i].owner;
                assert(listed[p] == items[i].owner);
            }
        }
    }
}

/// Who is listed to vote stands there in the order of the items, the owner of the collection last;
/// where there is no room for all, those are left out who would come last.
pub proof fn law_in_which_order_voters_are_listed(
    items: Seq<ItemState>,
    owner: AccountId,
    max_owners: u32,
)
    ensures
        ({
            let listed = voters(items, owner, max_owners);
            &&& forall|p: int, q: int, k: int|
                #![trigger listed[q], owns_among_first(items, k, listed[p])]
                0 <= p < q < listed.len() && 0 <= k < items.len() && items[k].owner != owner
                    && items[k].owner == listed[q] ==> owns_among_first(items, k, listed[p])
            &&& forall|p: int, k: int|
                #![trigger owns_among_first(items, k, listed[p])]
                0 <= p < listed.len() && 0 <= k < items.len() && items[k].owner != owner
                    && !listed.contains(items[k].owner) ==> owns_among_first(items, k, listed[p])
            &&& listed.contains(owner) ==> listed.last() == owner && forall|i: int|
                0 <= i < items.len() ==> listed.contains((#[trigger] items[i]).owner)
        }),
{
    let foreign = distinct(foreign_owners(items, owner));
    let listed = voters(items, owner, max_owners);
    let all = foreign.push(owner);
    lemma_distinct(foreign_owners(items, owner));
    lemma_foreign_owners(items, owner);
    assert forall|p: int, q: int, k: int|
        #![trigger listed[q], owns_among_first(items, k, listed[p])]
        0 <= p < q < listed.len() && 0 <= k < items.len() && items[k].owner != owner
            && items[k].owner == listed[q] implies owns_among_first(items, k, listed[p]) by {
        assert(all[p] == listed[p] && all[q] == listed[q]);
        assert(foreign[p] == listed[p] && foreign[q] == listed[q]);
        lemma_in_order_of_items(items, owner, p, q, k);
    }
    assert forall|k: int|
        0 <= k < items.len() && (#[trigger] items[k]).owner != owner implies foreign.contains(
        items[k].owner,
    ) by {
        assert(foreign_owners(items, owner).contains(items[k].owner));
    }
    assert forall|p: int, k: int|
        #![trigger owns_among_first(items, k, listed[p])]
        0 <= p < listed.len() && 0 <= k < items.len() && items[k].owner != owner
            && !listed.contains(items[k].owner) implies owns_among_first(
        items,
        k,
        listed[p],
    ) by {
        let q = choose|q: int| 0 <= q < foreign.len() && foreign[q] == items[k].owner;
        assert(all[q] == items[k].owner);
        if q < listed.len() {
            assert(listed[q] == items[k].owner);
        }
        assert(all[p] == listed[p]);
        assert(foreign[p] == listed[p]);
        lemma_in_order_of_items(items, owner, p, q, k);
    }
    if listed.contains(owner) {
        let p = choose|p: int| 0 <= p < listed.len() && listed[p] == owner;
        assert(all[p] == owner);
        if p < foreign.len() {
            assert(foreign.contains(foreign[p]));
        }
        assert(listed == all);
        assert forall|i: int| 0 <= i < items.len() implies listed.contains(
            (#[trigger] items[i]).owner,
        ) by {
            if items[i].owner != owner {
                let q = choose|q: int| 0 <= q < foreign.len() && foreign[q] == items[i].owner;
                assert(listed[q] == items[i].owner);
            } else {
                assert(listed[p] == owner);
            }
        }
    }
}

} // verus!
