//! The recency index: which keys the pool knows, least recently used first, and
//! the barrier that stands for each.
//!
//! The index is an `lru::LruCache` without a bound. Its contents are described
//! as a sequence of `(key, barrier)` pairs, the least recently used pair first.

use lru::LruCache;
use vstd::prelude::*;

verus! {

#[verifier::external_type_specification]
#[verifier::external_body]
#[verifier::reject_recursive_types(K)]
#[verifier::reject_recursive_types(V)]
#[verifier::reject_recursive_types(S)]
pub struct ExLruCache<K, V, S>(LruCache<K, V, S>);

#[verifier::external_type_specification]
#[verifier::external_body]
pub struct ExDefaultHasher(lru::DefaultHasher);

/// The entries of an index, least recently used first.
pub uninterp spec fn lru_entries(index: LruCache<String, u64>) -> Seq<(Seq<char>, u64)>;

/// Whether some entry has the key.
pub open spec fn has_key(entries: Seq<(Seq<char>, u64)>, key: Seq<char>) -> bool {
    exists|i: int| 0 <= i < entries.len() && (#[trigger] entries[i]).0 == key
}

/// The place of the entry with the key.
pub open spec fn position(entries: Seq<(Seq<char>, u64)>, key: Seq<char>) -> int {
    choose|i: int| 0 <= i < entries.len() && (#[trigger] entries[i]).0 == key
}

/// The barrier stored for the key.
pub open spec fn barrier_of(entries: Seq<(Seq<char>, u64)>, key: Seq<char>) -> Option<u64> {
    if has_key(entries, key) {
        Some(entries[position(entries, key)].1)
    } else {
        None
    }
}

/// The entries without the one for the key.
pub open spec fn without(entries: Seq<(Seq<char>, u64)>, key: Seq<char>) -> Seq<(Seq<char>, u64)> {
    if has_key(entries, key) {
        entries.remove(position(entries, key))
    } else {
        entries
    }
}

/// The entries after the key was used: its entry has moved to the end.
pub open spec fn promoted(entries: Seq<(Seq<char>, u64)>, key: Seq<char>) -> Seq<(Seq<char>, u64)> {
    if has_key(entries, key) {
        entries.remove(position(entries, key)).push(entries[position(entries, key)])
    } else {
        entries
    }
}

/// The entries after `(key, barrier)` was put into an index that holds at most
/// `cap` entries: a known key gets the new barrier and moves to the end; a new
/// key goes to the end, and pushes the first entry out if the index is full.
pub open spec fn inserted(
    entries: Seq<(Seq<char>, u64)>,
    key: Seq<char>,
    barrier: u64,
    cap: nat,
) -> Seq<(Seq<char>, u64)> {
    if has_key(entries, key) {
        entries.remove(position(entries, key)).push((key, barrier))
    } else if entries.len() == cap {
        entries.drop_first().push((key, barrier))
    } else {
        entries.push((key, barrier))
    }
}

/// No key occurs twice.
pub open spec fn distinct_keys(entries: Seq<(Seq<char>, u64)>) -> bool {
    forall|i: int, j: int|
        0 <= i < j < entries.len() ==> (#[trigger] entries[i]).0 != (#[trigger] entries[j]).0
}

/// With distinct keys, the entry at a place is the one that its key finds.
pub proof fn lemma_entry_found(entries: Seq<(Seq<char>, u64)>, i: int)
    requires
        distinct_keys(entries),
        0 <= i < entries.len(),
    ensures
        has_key(entries, entries[i].0),
        position(entries, entries[i].0) == i,
        barrier_of(entries, entries[i].0) == Some(entries[i].1),
{
    let key = entries[i].0;
    assert(has_key(entries, key));
    let p = position(entries, key);
    assert(0 <= p < entries.len() && entries[p].0 == key);
    if p < i {
        assert(entries[p].0 != entries[i].0);
    } else if i < p {
        assert(entries[i].0 != entries[p].0);
    }
}

/// Taking one entry out keeps the others, with their barriers and their order.
pub proof fn lemma_remove_at(entries: Seq<(Seq<char>, u64)>, i: int)
    requires
        distinct_keys(entries),
        0 <= i < entries.len(),
    ensures
        distinct_keys(entries.remove(i)),
        entries.remove(i).len() == entries.len() - 1,
        !has_key(entries.remove(i), entries[i].0),
        forall|k: Seq<char>|
            k != entries[i].0 ==> (#[trigger] has_key(entries.remove(i), k) <==> has_key(
                entries,
                k,
            )),
        forall|k: Seq<char>|
            k != entries[i].0 ==> #[trigger] barrier_of(entries.remove(i), k) == barrier_of(
                entries,
                k,
            ),
{
    let rest = entries.remove(i);
    assert forall|a: int, b: int| 0 <= a < b < rest.len() implies (#[trigger] rest[a]).0 != (
    #[trigger] rest[b]).0 by {
        let a0 = if a < i { a } else { a + 1 };
        let b0 = if b < i { b } else { b + 1 };
        assert(rest[a] == entries[a0]);
        assert(rest[b] == entries[b0]);
        assert(entries[a0].0 != entries[b0].0);
    }
    if has_key(rest, entries[i].0) {
        let j = position(rest, entries[i].0);
        let j0 = if j < i { j } else { j + 1 };
        assert(rest[j] == entries[j0]);
        if j0 < i {
            assert(entries[j0].0 != entries[i].0);
        } else {
            assert(entries[i].0 != entries[j0].0);
        }
    }
    assert forall|k: Seq<char>| k != entries[i].0 implies (#[trigger] has_key(rest, k) <==> has_key(
        entries,
        k,
    )) && barrier_of(rest, k) == barrier_of(entries, k) by {
        if has_key(rest, k) {
            let j = position(rest, k);
            let j0 = if j < i { j } else { j + 1 };
            assert(rest[j] == entries[j0]);
            assert(has_key(entries, k));
            lemma_entry_found(entries, j0);
            lemma_entry_found(rest, j);
        }
        if has_key(entries, k) {
            let j0 = position(entries, k);
            let j = if j0 < i { j0 } else { j0 - 1 };
            assert(rest[j] == entries[j0]);
            assert(has_key(rest, k));
            lemma_entry_found(entries, j0);
            lemma_entry_found(rest, j);
        }
    }
}

/// Appending an entry for a new key keeps the others, with their barriers and
/// their order.
pub proof fn lemma_push_new(entries: Seq<(Seq<char>, u64)>, key: Seq<char>, barrier: u64)
    requires
        distinct_keys(entries),
        !has_key(entries, key),
    ensures
        distinct_keys(entries.push((key, barrier))),
        has_key(entries.push((key, barrier)), key),
        barrier_of(entries.push((key, barrier)), key) == Some(barrier),
        forall|k: Seq<char>|
            k != key ==> (#[trigger] has_key(entries.push((key, barrier)), k) <==> has_key(
                entries,
                k,
            )),
        forall|k: Seq<char>|
            k != key ==> #[trigger] barrier_of(entries.push((key, barrier)), k) == barrier_of(
                entries,
                k,
            ),
{
    let grown = entries.push((key, barrier));
    let n = entries.len() as int;
    assert forall|a: int, b: int| 0 <= a < b < grown.len() implies (#[trigger] grown[a]).0 != (
    #[trigger] grown[b]).0 by {
        assert(grown[a] == entries[a]);
        if b < n {
            assert(grown[b] == entries[b]);
            assert(entries[a].0 != entries[b].0);
        } else {
            assert(grown[b].0 == key);
            assert(entries[a].0 != key);
        }
    }
    assert(grown[n] == (key, barrier));
    lemma_entry_found(grown, n);
    assert forall|k: Seq<char>| k != key implies (#[trigger] has_key(grown, k) <==> has_key(
        entries,
        k,
    )) && barrier_of(grown, k) == barrier_of(entries, k) by {
        if has_key(grown, k) {
            let j = position(grown, k);
            assert(j < n);
            assert(grown[j] == entries[j]);
            assert(has_key(entries, k));
            lemma_entry_found(entries, j);
            lemma_entry_found(grown, j);
        }
        if has_key(entries, k) {
            let j = position(entries, k);
            assert(grown[j] == entries[j]);
            assert(has_key(grown, k));
            lemma_entry_found(entries, j);
            lemma_entry_found(grown, j);
        }
    }
}

/// Using a key moves its entry to the end and changes nothing else.
pub proof fn lemma_promoted(entries: Seq<(Seq<char>, u64)>, key: Seq<char>)
    requires
        distinct_keys(entries),
    ensures
        distinct_keys(promoted(entries, key)),
        promoted(entries, key).len() == entries.len(),
        has_key(entries, key) ==> promoted(entries, key).last().0 == key,
        forall|k: Seq<char>| #[trigger] has_key(promoted(entries, key), k) <==> has_key(entries, k),
        forall|k: Seq<char>| #[trigger]
            barrier_of(promoted(entries, key), k) == barrier_of(entries, k),
{
    if has_key(entries, key) {
        let p = position(entries, key);
        let barrier = entries[p].1;
        let rest = entries.remove(p);
        assert(entries[p] == (key, barrier));
        lemma_entry_found(entries, p);
        lemma_remove_at(entries, p);
        lemma_push_new(rest, key, barrier);
        assert(promoted(entries, key) == rest.push((key, barrier)));
        assert forall|k: Seq<char>| #[trigger]
            has_key(promoted(entries, key), k) <==> has_key(entries, k) by {
            if k != key {
                assert(has_key(rest.push((key, barrier)), k) <==> has_key(rest, k));
                assert(has_key(rest, k) <==> has_key(entries, k));
            }
        }
        assert forall|k: Seq<char>| #[trigger]
            barrier_of(promoted(entries, key), k) == barrier_of(entries, k) by {
            if k != key {
                assert(barrier_of(rest.push((key, barrier)), k) == barrier_of(rest, k));
                assert(barrier_of(rest, k) == barrier_of(entries, k));
            }
        }
    }
}

/// Taking a key out keeps the others, with their barriers and their order.
pub proof fn lemma_without(entries: Seq<(Seq<char>, u64)>, key: Seq<char>)
    requires
        distinct_keys(entries),
    ensures
        distinct_keys(without(entries, key)),
        !has_key(without(entries, key), key),
        forall|k: Seq<char>|
            k != key ==> (#[trigger] has_key(without(entries, key), k) <==> has_key(entries, k)),
        forall|k: Seq<char>|
            k != key ==> #[trigger] barrier_of(without(entries, key), k) == barrier_of(entries, k),
{
    if has_key(entries, key) {
        let p = position(entries, key);
        lemma_remove_at(entries, p);
    }
}

/// Dropping the least recently used entry keeps the others, with their barriers
/// and their order.
pub proof fn lemma_drop_first(entries: Seq<(Seq<char>, u64)>)
    requires
        distinct_keys(entries),
        entries.len() > 0,
    ensures
        entries.drop_first() == without(entries, entries[0].0),
        distinct_keys(entries.drop_first()),
        !has_key(entries.drop_first(), entries[0].0),
        forall|k: Seq<char>|
            k != entries[0].0 ==> (#[trigger] has_key(entries.drop_first(), k) <==> has_key(
                entries,
                k,
            )),
        forall|k: Seq<char>|
            k != entries[0].0 ==> #[trigger] barrier_of(entries.drop_first(), k) == barrier_of(
                entries,
                k,
            ),
{
    lemma_entry_found(entries, 0);
    assert(entries.drop_first() =~= entries.remove(0));
    lemma_remove_at(entries, 0);
}

/// `LruCache::unbounded`. Trusted: the new index is empty.
#[verifier::external_body]
pub(crate) fn lru_unbounded() -> (index: LruCache<String, u64>)
    ensures
        lru_entries(index) == Seq::<(Seq<char>, u64)>::empty(),
{
    LruCache::unbounded()
}

/// `LruCache::len`. Trusted: the number of entries.
#[verifier::external_body]
pub(crate) fn lru_len(index: &LruCache<String, u64>) -> (n: usize)
    ensures
        n == lru_entries(*index).len(),
{
    index.len()
}

/// `LruCache::contains`. Trusted: whether the key has an entry; the order stays.
#[verifier::external_body]
pub(crate) fn lru_contains(index: &LruCache<String, u64>, key: &str) -> (found: bool)
    ensures
        found == has_key(lru_entries(*index), key@),
{
    index.contains(key)
}

/// `LruCache::peek`. Trusted: the barrier stored for the key, if any; the order
/// stays.
#[verifier::external_body]
pub(crate) fn lru_peek(index: &LruCache<String, u64>, key: &str) -> (barrier: Option<u64>)
    ensures
        barrier == barrier_of(lru_entries(*index), key@),
{
    index.peek(key).copied()
}

/// `LruCache::put` on an unbounded index, whose capacity is `usize::MAX`.
/// Trusted: the old barrier of the key is returned, and the entry for the key
/// is the most recent one afterwards, as `inserted` says.
#[verifier::external_body]
pub(crate) fn lru_put(index: &mut LruCache<String, u64>, key: String, barrier: u64) -> (previous:
    Option<u64>)
    ensures
        previous == barrier_of(lru_entries(*old(index)), key@),
        lru_entries(*final(index)) == inserted(
            lru_entries(*old(index)),
            key@,
            barrier,
            usize::MAX as nat,
        ),
{
    index.put(key, barrier)
}

/// `LruCache::get`. Trusted: the barrier stored for the key is returned, and a
/// key that is found becomes the most recent one.
#[verifier::external_body]
pub(crate) fn lru_get(index: &mut LruCache<String, u64>, key: &str) -> (barrier: Option<u64>)
    ensures
        barrier == barrier_of(lru_entries(*old(index)), key@),
        lru_entries(*final(index)) == promoted(lru_entries(*old(index)), key@),
{
    index.get(key).copied()
}

/// `LruCache::pop`. Trusted: the entry for the key leaves the index, and its
/// barrier is returned.
#[verifier::external_body]
pub(crate) fn lru_pop(index: &mut LruCache<String, u64>, key: &str) -> (barrier: Option<u64>)
    ensures
        barrier == barrier_of(lru_entries(*old(index)), key@),
        lru_entries(*final(index)) == without(lru_entries(*old(index)), key@),
{
    index.pop(key)
}

/// `LruCache::pop_lru`. Trusted: the least recently used entry leaves the index
/// and is returned; an empty index gives `None`.
#[verifier::external_body]
pub(crate) fn lru_pop_lru(index: &mut LruCache<String, u64>) -> (entry: Option<(String, u64)>)
    ensures
        match entry {
            Some(pair) => {
                &&& lru_entries(*old(index)).len() > 0
                &&& (pair.0@, pair.1) == lru_entries(*old(index))[0]
                &&& lru_entries(*final(index)) == lru_entries(*old(index)).drop_first()
            },
            None => {
                &&& lru_entries(*old(index)).len() == 0
                &&& lru_entries(*final(index)) == lru_entries(*old(index))
            },
        },
{
    index.pop_lru()
}

} // verus!
