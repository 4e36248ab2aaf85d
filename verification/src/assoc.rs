//! First-match lookup in a sequence of keyed entries, with the lemmas
//! the path-keyed caches need: how lookup behaves under in-place update,
//! append and removal.

use vstd::prelude::*;

verus! {

/// The first entry whose key is `key`, if any.
pub open spec fn assoc_lookup<T>(
    entries: Seq<T>,
    key_of: spec_fn(T) -> Seq<char>,
    key: Seq<char>,
) -> Option<T>
    decreases entries.len(),
{
    if entries.len() == 0 {
        None
    } else if key_of(entries.first()) == key {
        Some(entries.first())
    } else {
        assoc_lookup(entries.drop_first(), key_of, key)
    }
}

/// No two entries share a key.
pub open spec fn assoc_unique<T>(entries: Seq<T>, key_of: spec_fn(T) -> Seq<char>) -> bool {
    forall|i: int, j: int|
        0 <= i < j < entries.len() ==> #[trigger] key_of(entries[i]) != #[trigger] key_of(
            entries[j],
        )
}

/// A key held by no entry is not found.
pub proof fn lemma_assoc_absent<T>(entries: Seq<T>, key_of: spec_fn(T) -> Seq<char>, key: Seq<char>)
    requires
        forall|i: int| 0 <= i < entries.len() ==> #[trigger] key_of(entries[i]) != key,
    ensures
        assoc_lookup(entries, key_of, key) is None,
    decreases entries.len(),
{
    if entries.len() > 0 {
        assert(key_of(entries[0]) != key);
        assert(forall|i: int|
            0 <= i < entries.drop_first().len() ==> #[trigger] key_of(entries.drop_first()[i])
                == key_of(entries[i + 1]));
        lemma_assoc_absent(entries.drop_first(), key_of, key);
    }
}

/// A key that is not found is held by no entry.
pub proof fn lemma_assoc_not_found<T>(
    entries: Seq<T>,
    key_of: spec_fn(T) -> Seq<char>,
    key: Seq<char>,
)
    requires
        assoc_lookup(entries, key_of, key) is None,
    ensures
        forall|i: int| 0 <= i < entries.len() ==> #[trigger] key_of(entries[i]) != key,
    decreases entries.len(),
{
    if entries.len() > 0 {
        lemma_assoc_not_found(entries.drop_first(), key_of, key);
        assert forall|i: int| 0 <= i < entries.len() implies #[trigger] key_of(entries[i])
            != key by {
            if i > 0 {
                assert(entries.drop_first()[i - 1] == entries[i]);
            }
        }
    }
}

/// A found entry is in the sequence, at the first position with its key.
pub proof fn lemma_assoc_found<T>(entries: Seq<T>, key_of: spec_fn(T) -> Seq<char>, key: Seq<char>)
    requires
        assoc_lookup(entries, key_of, key) is Some,
    ensures
        exists|k: int|
            0 <= k < entries.len() && #[trigger] entries[k] == assoc_lookup(
                entries,
                key_of,
                key,
            )->Some_0 && key_of(entries[k]) == key,
    decreases entries.len(),
{
    if entries.len() > 0 {
        if key_of(entries.first()) == key {
            assert(entries[0] == assoc_lookup(entries, key_of, key)->Some_0);
        } else {
            lemma_assoc_found(entries.drop_first(), key_of, key);
            let k = choose|k: int|
                0 <= k < entries.drop_first().len() && #[trigger] entries.drop_first()[k]
                    == assoc_lookup(entries.drop_first(), key_of, key)->Some_0 && key_of(
                    entries.drop_first()[k],
                ) == key;
            assert(entries[k + 1] == assoc_lookup(entries, key_of, key)->Some_0);
        }
    }
}

/// Replacing the first entry that holds a key changes only that key's
/// lookup.
pub proof fn lemma_assoc_update<T>(entries: Seq<T>, key_of: spec_fn(T) -> Seq<char>, k: int, v: T)
    requires
        0 <= k < entries.len(),
        key_of(v) == key_of(entries[k]),
        forall|j: int| 0 <= j < k ==> #[trigger] key_of(entries[j]) != key_of(v),
    ensures
        assoc_lookup(entries.update(k, v), key_of, key_of(v)) == Some(v),
        forall|q: Seq<char>|
            q != key_of(v) ==> #[trigger] assoc_lookup(entries.update(k, v), key_of, q)
                == assoc_lookup(entries, key_of, q),
    decreases entries.len(),
{
    let updated = entries.update(k, v);
    if k == 0 {
        assert(updated.first() == v);
        assert(updated.drop_first() =~= entries.drop_first());
        assert(key_of(entries.first()) == key_of(v));
        assert forall|q: Seq<char>|
            q != key_of(v) implies #[trigger] assoc_lookup(updated, key_of, q) == assoc_lookup(
            entries,
            key_of,
            q,
        ) by {
            assert(assoc_lookup(updated, key_of, q) == assoc_lookup(
                updated.drop_first(),
                key_of,
                q,
            ));
            assert(assoc_lookup(entries, key_of, q) == assoc_lookup(
                entries.drop_first(),
                key_of,
                q,
            ));
        }
    } else {
        assert(updated.first() == entries.first());
        assert(updated.drop_first() =~= entries.drop_first().update(k - 1, v));
        assert(entries.drop_first()[k - 1] == entries[k]);
        assert(forall|j: int|
            0 <= j < k - 1 ==> #[trigger] key_of(entries.drop_first()[j]) == key_of(entries[j
                + 1]));
        lemma_assoc_update(entries.drop_first(), key_of, k - 1, v);
        assert(key_of(entries.first()) != key_of(v));
        assert forall|q: Seq<char>|
            q != key_of(v) implies #[trigger] assoc_lookup(updated, key_of, q) == assoc_lookup(
            entries,
            key_of,
            q,
        ) by {
            if key_of(entries.first()) != q {
                assert(assoc_lookup(entries.drop_first().update(k - 1, v), key_of, q)
                    == assoc_lookup(entries.drop_first(), key_of, q));
                assert(assoc_lookup(updated, key_of, q) == assoc_lookup(
                    updated.drop_first(),
                    key_of,
                    q,
                ));
                assert(assoc_lookup(entries, key_of, q) == assoc_lookup(
                    entries.drop_first(),
                    key_of,
                    q,
                ));
            }
        }
    }
}

/// Appending an entry with a fresh key changes only that key's lookup.
pub proof fn lemma_assoc_push<T>(entries: Seq<T>, key_of: spec_fn(T) -> Seq<char>, v: T)
    requires
        assoc_lookup(entries, key_of, key_of(v)) is None,
    ensures
        assoc_lookup(entries.push(v), key_of, key_of(v)) == Some(v),
        forall|q: Seq<char>|
            q != key_of(v) ==> #[trigger] assoc_lookup(entries.push(v), key_of, q) == assoc_lookup(
                entries,
                key_of,
                q,
            ),
    decreases entries.len(),
{
    let pushed = entries.push(v);
    if entries.len() == 0 {
        assert(pushed.first() == v);
        assert(pushed.drop_first() =~= Seq::<T>::empty());
        assert forall|q: Seq<char>|
            q != key_of(v) implies #[trigger] assoc_lookup(pushed, key_of, q) == assoc_lookup(
            entries,
            key_of,
            q,
        ) by {
            assert(assoc_lookup(pushed, key_of, q) == assoc_lookup(pushed.drop_first(), key_of, q));
        }
    } else {
        assert(pushed.first() == entries.first());
        assert(pushed.drop_first() =~= entries.drop_first().push(v));
        assert(key_of(entries.first()) != key_of(v));
        lemma_assoc_push(entries.drop_first(), key_of, v);
        assert forall|q: Seq<char>|
            q != key_of(v) implies #[trigger] assoc_lookup(pushed, key_of, q) == assoc_lookup(
            entries,
            key_of,
            q,
        ) by {
            if key_of(entries.first()) != q {
                assert(assoc_lookup(entries.drop_first().push(v), key_of, q) == assoc_lookup(
                    entries.drop_first(),
                    key_of,
                    q,
                ));
                assert(assoc_lookup(pushed, key_of, q) == assoc_lookup(
                    pushed.drop_first(),
                    key_of,
                    q,
                ));
                assert(assoc_lookup(entries, key_of, q) == assoc_lookup(
                    entries.drop_first(),
                    key_of,
                    q,
                ));
            }
        }
    }
}

/// Removing the entry at an index, when keys are unique, erases exactly
/// that entry's key.
pub proof fn lemma_assoc_remove<T>(entries: Seq<T>, key_of: spec_fn(T) -> Seq<char>, k: int)
    requires
        0 <= k < entries.len(),
        assoc_unique(entries, key_of),
    ensures
        assoc_lookup(entries.remove(k), key_of, key_of(entries[k])) is None,
        forall|q: Seq<char>|
            q != key_of(entries[k]) ==> #[trigger] assoc_lookup(entries.remove(k), key_of, q)
                == assoc_lookup(entries, key_of, q),
    decreases entries.len(),
{
    let removed = entries.remove(k);
    if k == 0 {
        assert(removed =~= entries.drop_first());
        assert forall|i: int| 0 <= i < removed.len() implies #[trigger] key_of(removed[i])
            != key_of(entries[0]) by {
            assert(removed[i] == entries[i + 1]);
        }
        lemma_assoc_absent(removed, key_of, key_of(entries[0]));
        assert forall|q: Seq<char>|
            q != key_of(entries[k]) implies #[trigger] assoc_lookup(removed, key_of, q)
            == assoc_lookup(entries, key_of, q) by {
            assert(assoc_lookup(entries, key_of, q) == assoc_lookup(
                entries.drop_first(),
                key_of,
                q,
            ));
        }
    } else {
        assert(removed.first() == entries.first());
        assert(removed.drop_first() =~= entries.drop_first().remove(k - 1));
        assert(entries.drop_first()[k - 1] == entries[k]);
        assert(forall|i: int|
            0 <= i < entries.drop_first().len() ==> #[trigger] entries.drop_first()[i] == entries[i
                + 1]);
        lemma_assoc_remove(entries.drop_first(), key_of, k - 1);
        assert(key_of(entries.first()) != key_of(entries[k]));
        assert forall|q: Seq<char>|
            q != key_of(entries[k]) implies #[trigger] assoc_lookup(removed, key_of, q)
            == assoc_lookup(entries, key_of, q) by {
            if key_of(entries.first()) != q {
                assert(assoc_lookup(entries.drop_first().remove(k - 1), key_of, q) == assoc_lookup(
                    entries.drop_first(),
                    key_of,
                    q,
                ));
                assert(assoc_lookup(removed, key_of, q) == assoc_lookup(
                    removed.drop_first(),
                    key_of,
                    q,
                ));
                assert(assoc_lookup(entries, key_of, q) == assoc_lookup(
                    entries.drop_first(),
                    key_of,
                    q,
                ));
            }
        }
    }
}

} // verus!
