//! Appending to a list only what it does not hold yet.

use vstd::prelude::*;

verus! {

/// `acc` followed by each item of `items`, in order, that is in neither
/// `acc` nor an earlier item.
pub open spec fn append_new<T>(acc: Seq<T>, items: Seq<T>) -> Seq<T>
    decreases items.len(),
{
    if items.len() == 0 {
        acc
    } else {
        let before = append_new(acc, items.drop_last());
        if before.contains(items.last()) {
            before
        } else {
            before.push(items.last())
        }
    }
}

/// Appending only new items keeps what was there, at its place; every item
/// ends up in the list; nothing else is added; and a list without repeats
/// stays without repeats.
pub proof fn lemma_append_new<T>(acc: Seq<T>, items: Seq<T>)
    ensures
        append_new(acc, items).len() >= acc.len(),
        append_new(acc, items).take(acc.len() as int) == acc,
        forall|i: int| 0 <= i < items.len() ==> append_new(acc, items).contains(#[trigger] items[i]),
        forall|x: T| append_new(acc, items).contains(x) ==> acc.contains(x) || items.contains(x),
        acc.no_duplicates() ==> append_new(acc, items).no_duplicates(),
    decreases items.len(),
{
    if items.len() > 0 {
        let rest = items.drop_last();
        let last = items.last();
        lemma_append_new(acc, rest);
        let before = append_new(acc, rest);
        let after = append_new(acc, items);
        if !before.contains(last) {
            assert(after == before.push(last));
            assert(after.take(acc.len() as int) =~= before.take(acc.len() as int));
            assert forall|i: int| 0 <= i < items.len() implies after.contains(#[trigger] items[i]) by {
                if i < items.len() - 1 {
                    assert(rest[i] == items[i]);
                    let k = choose|k: int| 0 <= k < before.len() && before[k] == rest[i];
                    assert(after[k] == items[i]);
                } else {
                    assert(after[before.len() as int] == items[i]);
                }
            }
            assert forall|x: T| after.contains(x) implies acc.contains(x) || items.contains(x) by {
                let k = choose|k: int| 0 <= k < after.len() && after[k] == x;
                if k < before.len() {
                    assert(before[k] == x);
                    if rest.contains(x) {
                        let j = choose|j: int| 0 <= j < rest.len() && rest[j] == x;
                        assert(items[j] == x);
                    }
                } else {
                    assert(items[items.len() - 1] == x);
                }
            }
        } else {
            assert forall|i: int| 0 <= i < items.len() implies after.contains(#[trigger] items[i]) by {
                if i < items.len() - 1 {
                    assert(rest[i] == items[i]);
                }
            }
            assert forall|x: T| after.contains(x) implies acc.contains(x) || items.contains(x) by {
                if rest.contains(x) {
                    let j = choose|j: int| 0 <= j < rest.len() && rest[j] == x;
                    assert(items[j] == x);
                }
            }
        }
    }
}

} // verus!
