//! The pool keeps its partners, mints and pairs in short lists that stand for
//! sets. An entry is removed by moving the last entry into its place.

use vstd::prelude::*;

verus! {

/// `list` after the entry at `i` has been replaced by the last entry and the
/// list shortened by one.
pub open spec fn swap_removed<T>(list: Seq<T>, i: int) -> Seq<T> {
    list.update(i, list.last()).drop_last()
}

/// `list` without the first occurrence of `entry`; the list itself where
/// `entry` does not occur.
pub open spec fn without_first<T>(list: Seq<T>, entry: T) -> Seq<T> {
    match list.index_of_first(entry) {
        Some(i) => swap_removed(list, i),
        None => list,
    }
}

/// Removing an entry that occurs makes the list one shorter, and leaves
/// every other value in the list exactly when it was there before.
pub proof fn lemma_without_first_keeps_others<T>(list: Seq<T>, entry: T)
    requires
        list.contains(entry),
    ensures
        without_first(list, entry).len() == list.len() - 1,
        forall|other: T|
            other != entry ==> (#[trigger] without_first(list, entry).contains(other)
                <==> list.contains(other)),
        forall|other: T| #[trigger]
            without_first(list, entry).contains(other) ==> list.contains(other),
{
    list.index_of_first_ensures(entry);
    let i = list.index_of_first(entry).unwrap();
    let after = without_first(list, entry);
    let last = list.len() - 1;
    assert forall|other: T| #[trigger] after.contains(other) implies list.contains(other) by {
        let k = choose|k: int| 0 <= k < after.len() && after[k] == other;
        if k == i {
            assert(list[last] == other);
        } else {
            assert(list[k] == other);
        }
    }
    assert forall|other: T| other != entry && list.contains(other) implies #[trigger] after.contains(
        other,
    ) by {
        let k = choose|k: int| 0 <= k < list.len() && list[k] == other;
        if k == last {
            assert(i != last);
            assert(after[i] == other);
        } else {
            assert(k != i);
            assert(after[k] == other);
        }
    }
}

/// In a list without repetitions, removing an entry removes it altogether
/// and leaves a list without repetitions.
pub proof fn lemma_without_first_of_distinct<T>(list: Seq<T>, entry: T)
    requires
        list.no_duplicates(),
    ensures
        without_first(list, entry).no_duplicates(),
        !without_first(list, entry).contains(entry),
{
    list.index_of_first_ensures(entry);
    if list.contains(entry) {
        let i = list.index_of_first(entry).unwrap();
        let after = without_first(list, entry);
        let last = list.len() - 1;
        assert forall|a: int, b: int| 0 <= a < after.len() && 0 <= b < after.len() && a != b implies after[a]
            != after[b] by {
            let from_a = if a == i {
                last
            } else {
                a
            };
            let from_b = if b == i {
                last
            } else {
                b
            };
            assert(after[a] == list[from_a]);
            assert(after[b] == list[from_b]);
            assert(from_a != from_b);
        }
        if after.contains(entry) {
            let k = choose|k: int| 0 <= k < after.len() && after[k] == entry;
            let from = if k == i {
                last
            } else {
                k
            };
            assert(list[from] == entry);
            assert(from != i);
        }
    }
}

/// Appending an entry that does not occur keeps a list free of repetitions.
pub proof fn lemma_push_of_distinct<T>(list: Seq<T>, entry: T)
    requires
        list.no_duplicates(),
        !list.contains(entry),
    ensures
        list.push(entry).no_duplicates(),
{
    let after = list.push(entry);
    assert forall|a: int, b: int| 0 <= a < after.len() && 0 <= b < after.len() && a != b implies after[a]
        != after[b] by {
        if a < list.len() && b < list.len() {
            assert(list[a] != list[b]);
        } else if a < list.len() {
            assert(list[a] == after[a]);
            assert(list.contains(after[a]));
        } else {
            assert(list[b] == after[b]);
            assert(list.contains(after[b]));
        }
    }
}

} // verus!
