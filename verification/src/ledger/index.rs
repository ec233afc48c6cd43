//! Indices: sequences of ids without order, filled by appending and
//! emptied by swapping the last entry into the place of the one removed.

use vstd::prelude::*;

verus! {


/// The entries of an index under `key`; none where the key is absent.
pub open spec fn index_at<K, T>(index: Map<K, Seq<T>>, key: K) -> Seq<T> {
    if index.contains_key(key) {
        index[key]
    } else {
        Seq::empty()
    }
}

/// The index with `entries` under `key`.  An index never keeps a key for no
/// entries.
pub open spec fn index_with<K, T>(
    index: Map<K, Seq<T>>,
    key: K,
    entries: Seq<T>,
) -> Map<K, Seq<T>> {
    if entries.len() == 0 {
        index.remove(key)
    } else {
        index.insert(key, entries)
    }
}

/// `at` is the first place where `entries` holds `entry`.
pub open spec fn is_first_position<T>(entries: Seq<T>, entry: T, at: int) -> bool {
    &&& 0 <= at < entries.len()
    &&& entries[at] == entry
    &&& forall|before: int| 0 <= before < at ==> entries[before] != entry
}

/// The entry at `at` replaced by the last one, and the sequence shortened by
/// one: removal that does not keep the order.
pub open spec fn swap_removed<T>(entries: Seq<T>, at: int) -> Seq<T> {
    entries.update(at, entries.last()).drop_last()
}

/// The entries without the first occurrence of `entry`, removed by swapping
/// the last entry into its place.
pub open spec fn without_first<T>(entries: Seq<T>, entry: T) -> Seq<T> {
    if entries.contains(entry) {
        swap_removed(entries, choose|at: int| is_first_position(entries, entry, at))
    } else {
        entries
    }
}

/// The first place of an entry is one place only.
pub proof fn lemma_first_position_unique<T>(entries: Seq<T>, entry: T, at: int)
    requires
        is_first_position(entries, entry, at),
    ensures
        entries.contains(entry),
        (choose|first: int| is_first_position(entries, entry, first)) == at,
        without_first(entries, entry) == swap_removed(entries, at),
{
    let chosen = choose|first: int| is_first_position(entries, entry, first);
    assert(is_first_position(entries, entry, chosen));
    if chosen < at {
        assert(entries[chosen] != entry);
    }
    if at < chosen {
        assert(entries[at] != entry);
    }
}

/// An entry that the sequence holds has a first place.
pub proof fn lemma_first_position_exists<T>(entries: Seq<T>, entry: T) -> (at: int)
    requires
        entries.contains(entry),
    ensures
        is_first_position(entries, entry, at),
    decreases entries.len(),
{
    let some = choose|i: int| 0 <= i < entries.len() && entries[i] == entry;
    if exists|before: int| 0 <= before < some && entries[before] == entry {
        let before = choose|before: int| 0 <= before < some && entries[before] == entry;
        let shorter = entries.subrange(0, some);
        assert(shorter[before] == entry);
        let at = lemma_first_position_exists(shorter, entry);
        assert(forall|i: int| 0 <= i < shorter.len() ==> shorter[i] == entries[i]);
        assert forall|b: int| 0 <= b < at implies entries[b] != entry by {
            assert(shorter[b] != entry);
        }
        at
    } else {
        some
    }
}

/// Removing an entry from a sequence without duplicates leaves exactly the
/// other entries, still without duplicates.
pub proof fn lemma_without_first<T>(entries: Seq<T>, entry: T)
    requires
        entries.no_duplicates(),
    ensures
        without_first(entries, entry).no_duplicates(),
        !without_first(entries, entry).contains(entry),
        forall|other: T|
            other != entry ==> (#[trigger] without_first(entries, entry).contains(other)
                <==> entries.contains(other)),
        entries.contains(entry) ==> without_first(entries, entry).len() == entries.len() - 1,
        !entries.contains(entry) ==> without_first(entries, entry) == entries,
{
    if entries.contains(entry) {
        let at = lemma_first_position_exists(entries, entry);
        lemma_first_position_unique(entries, entry, at);
        let rest = swap_removed(entries, at);
        let last = entries.len() - 1;
        assert forall|i: int| 0 <= i < rest.len() implies rest[i] == (if i == at {
            entries[last]
        } else {
            entries[i]
        }) by {}
        assert forall|i: int, j: int| 0 <= i < rest.len() && 0 <= j < rest.len() && i != j implies rest[i] != rest[j] by {
            let si = if i == at { last } else { i };
            let sj = if j == at { last } else { j };
            assert(entries[si] != entries[sj]);
        }
        if rest.contains(entry) {
            let i = choose|i: int| 0 <= i < rest.len() && rest[i] == entry;
            let si = if i == at { last } else { i };
            assert(entries[si] == entries[at]);
        }
        assert forall|other: T| other != entry implies (#[trigger] rest.contains(other)
            <==> entries.contains(other)) by {
            if rest.contains(other) {
                let i = choose|i: int| 0 <= i < rest.len() && rest[i] == other;
                let si = if i == at { last } else { i };
                assert(entries[si] == other);
            }
            if entries.contains(other) {
                let i = choose|i: int| 0 <= i < entries.len() && entries[i] == other;
                if i == last {
                    assert(rest[at] == other);
                } else {
                    assert(rest[i] == other);
                }
            }
        }
    }
}

/// Appending an entry that the sequence does not hold adds exactly that
/// entry, and no duplicate.
pub proof fn lemma_push_fresh<T>(entries: Seq<T>, entry: T)
    requires
        entries.no_duplicates(),
        !entries.contains(entry),
    ensures
        entries.push(entry).no_duplicates(),
        forall|other: T| #[trigger]
            entries.push(entry).contains(other) <==> (other == entry || entries.contains(other)),
{
    let more = entries.push(entry);
    assert forall|i: int, j: int| 0 <= i < more.len() && 0 <= j < more.len() && i != j implies more[i] != more[j] by {
        if i < entries.len() {
            assert(entries.contains(more[i]));
        }
        if j < entries.len() {
            assert(entries.contains(more[j]));
        }
    }
    assert forall|other: T| #[trigger]
        more.contains(other) <==> (other == entry || entries.contains(other)) by {
        if more.contains(other) {
            let i = choose|i: int| 0 <= i < more.len() && more[i] == other;
            if i < entries.len() {
                assert(entries[i] == other);
            }
        }
        if other == entry {
            assert(more[entries.len() as int] == other);
        }
        if entries.contains(other) {
            let i = choose|i: int| 0 <= i < entries.len() && entries[i] == other;
            assert(more[i] == other);
        }
    }
}


/// Appending an entry that the sequence already holds and then removing its
/// first occurrence gives the sequence back.
pub proof fn lemma_push_then_without_first<T>(entries: Seq<T>, entry: T)
    requires
        entries.contains(entry),
    ensures
        without_first(entries.push(entry), entry) == entries,
{
    let at = lemma_first_position_exists(entries, entry);
    let more = entries.push(entry);
    assert(more[at] == entry);
    assert forall|before: int| 0 <= before < at implies more[before] != entry by {
        assert(more[before] == entries[before]);
    }
    lemma_first_position_unique(more, entry, at);
    assert(swap_removed(more, at) =~= entries);
}

} // verus!
