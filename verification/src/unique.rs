//! Lists that stand for sets: every item at most once, in the order in
//! which the items first came.

use vstd::prelude::*;

verus! {

/// No item occurs twice.
pub open spec fn no_duplicates<A>(items: Seq<A>) -> bool {
    forall|i: int, j: int| 0 <= i < j < items.len() ==> #[trigger] items[i] != #[trigger] items[j]
}

/// The list after `item` was added: it goes to the end unless it is in the
/// list already.
pub open spec fn with_item<A>(items: Seq<A>, item: A) -> Seq<A> {
    if items.contains(item) {
        items
    } else {
        items.push(item)
    }
}

/// The list after each of `more` was added, in order.
pub open spec fn with_items<A>(items: Seq<A>, more: Seq<A>) -> Seq<A>
    decreases more.len(),
{
    if more.len() == 0 {
        items
    } else {
        with_item(with_items(items, more.drop_last()), more.last())
    }
}

/// Adding an item keeps every item single, and the item is in the list
/// afterwards.
pub proof fn lemma_with_item<A>(items: Seq<A>, item: A)
    requires
        no_duplicates(items),
    ensures
        no_duplicates(with_item(items, item)),
        with_item(items, item).contains(item),
        forall|other: A| items.contains(other) ==> with_item(items, item).contains(other),
{
    let after = with_item(items, item);
    if !items.contains(item) {
        assert(after[items.len() as int] == item);
        assert forall|i: int, j: int| 0 <= i < j < after.len() implies #[trigger] after[i]
            != #[trigger] after[j] by {
            if j == items.len() {
                assert(items[i] == after[i]);
                assert(items.contains(after[i]));
            } else {
                assert(items[i] == after[i]);
                assert(items[j] == after[j]);
            }
        }
        assert forall|other: A| items.contains(other) implies after.contains(other) by {
            let k = choose|k: int| 0 <= k < items.len() && items[k] == other;
            assert(after[k] == other);
        }
    }
}

/// Adding an item twice is adding it once.
pub proof fn lemma_with_item_is_idempotent<A>(items: Seq<A>, item: A)
    requires
        no_duplicates(items),
    ensures
        with_item(with_item(items, item), item) == with_item(items, item),
{
    lemma_with_item(items, item);
}

} // verus!
