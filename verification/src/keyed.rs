//! Lookup by key in sequences whose entries are found by their first match.
use vstd::prelude::*;

verus! {

/// The index of the first entry equal to `k`, or `-1` when there is none.
pub open spec fn first_index(keys: Seq<Seq<char>>, k: Seq<char>) -> int
    decreases keys.len(),
{
    if keys.len() == 0 {
        -1
    } else {
        let i = first_index(keys.drop_last(), k);
        if i >= 0 {
            i
        } else if keys.last() == k {
            keys.len() - 1
        } else {
            -1
        }
    }
}

/// `x` stored at `i`, or appended where `i` is negative.
pub open spec fn upsert<T>(s: Seq<T>, i: int, x: T) -> Seq<T> {
    if i >= 0 {
        s.update(i, x)
    } else {
        s.push(x)
    }
}

/// The index of an optional position, `-1` for none.
pub open spec fn index_or_none(r: Option<usize>) -> int {
    match r {
        Some(i) => i as int,
        None => -1,
    }
}

/// The first index is a matching index with no match before it.
pub proof fn lemma_first_index(keys: Seq<Seq<char>>, k: Seq<char>)
    ensures
        -1 <= first_index(keys, k) < keys.len(),
        first_index(keys, k) >= 0 ==> keys[first_index(keys, k)] == k,
        forall|j: int| 0 <= j < keys.len() && keys[j] == k ==> first_index(keys, k) >= 0 && first_index(keys, k) <= j,
    decreases keys.len(),
{
    if keys.len() > 0 {
        lemma_first_index(keys.drop_last(), k);
        assert forall|j: int| 0 <= j < keys.len() && keys[j] == k implies first_index(keys, k) >= 0
            && first_index(keys, k) <= j by {
            if j < keys.len() - 1 {
                assert(keys.drop_last()[j] == keys[j]);
            }
        }
    }
}

/// Scanning one more key of a prefix.
pub proof fn lemma_first_index_step(keys: Seq<Seq<char>>, k: Seq<char>, n: int)
    requires
        0 <= n < keys.len(),
    ensures
        first_index(keys.take(n + 1), k) == (if first_index(keys.take(n), k) >= 0 {
            first_index(keys.take(n), k)
        } else if keys[n] == k {
            n
        } else {
            -1
        }),
{
    assert(keys.take(n + 1).drop_last() =~= keys.take(n));
}

/// A match within a prefix is the first match of the whole sequence.
pub proof fn lemma_first_index_prefix(keys: Seq<Seq<char>>, k: Seq<char>, n: int)
    requires
        0 <= n <= keys.len(),
        first_index(keys.take(n), k) >= 0,
    ensures
        first_index(keys, k) == first_index(keys.take(n), k),
    decreases keys.len() - n,
{
    if n < keys.len() {
        lemma_first_index_step(keys, k, n);
        lemma_first_index_prefix(keys, k, n + 1);
    } else {
        assert(keys.take(n) =~= keys);
    }
}

/// No match within the whole sequence.
pub proof fn lemma_first_index_none(keys: Seq<Seq<char>>, k: Seq<char>)
    requires
        first_index(keys.take(keys.len() as int), k) == -1,
    ensures
        first_index(keys, k) == -1,
{
    assert(keys.take(keys.len() as int) =~= keys);
}

/// A key that is new can be appended without making any key occur twice.
pub proof fn lemma_push_new_key(keys: Seq<Seq<char>>, k: Seq<char>)
    requires
        keys.no_duplicates(),
        first_index(keys, k) < 0,
    ensures
        keys.push(k).no_duplicates(),
{
    lemma_first_index(keys, k);
    assert forall|i: int, j: int|
        0 <= i < keys.push(k).len() && 0 <= j < keys.push(k).len() && i != j implies keys.push(k)[i] != keys.push(
        k,
    )[j] by {
        if i == keys.len() {
            assert(keys[j] != k);
        } else if j == keys.len() {
            assert(keys[i] != k);
        }
    }
}

} // verus!
