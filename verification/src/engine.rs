use vstd::prelude::*;
use crate::hashing::{finger16_index, finger8_index, bucket_index, index1_of};
use crate::occupancy::{
    bucket_has_empty, count_occupied, lemma_bucket_range, lemma_insert_increments,
    lemma_swap_preserves,
};
use crate::rng::RandomSource;
use crate::store::{Store8, Store16};

verus! {

/// The insertion algorithm for 8-bit slots. Given the 64-bit hash of an
/// item: try a direct placement in the primary bucket, then in the partner
/// bucket; when both are full, relocate existing fingerprints along a
/// bounded random walk of at most `max_swaps` evictions. `Ok(n)` means
/// placed after `n` relocation swaps; `Err(max_swaps)` means the budget ran
/// out and the last evicted fingerprint was dropped.
pub fn insert8(store: &mut Store8, rng: &mut RandomSource, max_swaps: u8, h: u64) -> (r:
    Result<u8, u8>)
    requires
        old(store).wf(),
    ensures
        final(store).wf(),
        final(store).num_buckets_spec() == old(store).num_buckets_spec(),
        final(store).num_entries_spec() == old(store).num_entries_spec(),
        final(store).contents().len() == old(store).contents().len(),
        match r {
            Ok(n) => count_occupied(final(store).contents()) == count_occupied(
                old(store).contents(),
            ) + 1 && n <= max_swaps,
            Err(n) => count_occupied(final(store).contents()) == count_occupied(
                old(store).contents(),
            ) && n == max_swaps,
        },
        bucket_has_empty(
            old(store).contents(),
            old(store).num_entries_spec() as int,
            index1_of(h, old(store).num_buckets_spec()) as int,
        ) ==> r == Ok::<u8, u8>(0),
        r is Err ==> !bucket_has_empty(
            old(store).contents(),
            old(store).num_entries_spec() as int,
            index1_of(h, old(store).num_buckets_spec()) as int,
        ),
        forall|i: int|
            0 <= i < old(store).contents().len() && old(store).contents()[i] != 0
                ==> final(store).contents()[i] != 0,
{
    let ghost s0 = store.contents();
    let ghost ne = store.num_entries_spec() as int;
    let ghost nb = store.num_buckets_spec();
    let ghost c0 = count_occupied(s0);
    let num_buckets: u32 = store.num_buckets();
    let (finger0, idx_1) = finger8_index(h, num_buckets);

    // Try to place the fingerprint in an empty entry of either candidate.
    if store.try_insert(idx_1, finger0) {
        proof {
            lemma_bucket_range(nb as int, ne, idx_1 as int);
            lemma_insert_increments(s0, store.contents(), idx_1 as int * ne, ne, finger0 as u16);
        }
        return Ok(0);
    }
    let idx_2: u32 = bucket_index(&finger0, num_buckets);
    if store.try_insert(idx_2, finger0) {
        proof {
            lemma_bucket_range(nb as int, ne, idx_2 as int);
            lemma_insert_increments(s0, store.contents(), idx_2 as int * ne, ne, finger0 as u16);
        }
        return Ok(0);
    }

    // Both candidate buckets are full: relocate existing fingerprints.
    let mut idx: u32 = rng.choose2(idx_1, idx_2);
    let mut finger = finger0;
    let mut swaps: u16 = 1;
    let mut placed = false;
    while swaps <= max_swaps as u16 && !placed
        invariant
            store.wf(),
            store.num_buckets_spec() == nb,
            num_buckets == nb,
            store.num_entries_spec() as int == ne,
            store.contents().len() == s0.len(),
            finger != 0,
            idx < nb,
            1 <= swaps as int <= max_swaps as int + 1,
            placed ==> swaps as int <= max_swaps as int,
            !placed ==> !bucket_has_empty(store.contents(), ne, idx as int),
            count_occupied(store.contents()) == c0 + (if placed {
                1int
            } else {
                0int
            }),
            forall|i: int| 0 <= i < s0.len() && s0[i] != 0 ==> store.contents()[i] != 0,
        decreases max_swaps as int + 1 - swaps as int + (if placed {
            0int
        } else {
            1int
        }),
    {
        let ghost pre = store.contents();
        let entry: u8 = rng.below(store.num_entries());
        let evicted = store.swap(idx, entry, finger);
        proof {
            lemma_bucket_range(nb as int, ne, idx as int);
            let pos = idx as int * ne + entry as int;
            assert(pre[pos] != 0);
            lemma_swap_preserves(pre, pos, finger as u16);
        }
        finger = evicted;
        let ghost pre2 = store.contents();
        idx = bucket_index(&finger, num_buckets);
        if store.try_insert(idx, finger) {
            proof {
                lemma_bucket_range(nb as int, ne, idx as int);
                lemma_insert_increments(pre2, store.contents(), idx as int * ne, ne, finger as u16);
            }
            placed = true;
        } else {
            swaps += 1;
        }
    }
    if placed {
        Ok(swaps as u8)
    } else {
        Err(max_swaps)
    }
}

/// The insertion algorithm for 16-bit slots. Given the 64-bit hash of an
/// item: try a direct placement in the primary bucket, then in the partner
/// bucket; when both are full, relocate existing fingerprints along a
/// bounded random walk of at most `max_swaps` evictions. `Ok(n)` means
/// placed after `n` relocation swaps; `Err(max_swaps)` means the budget ran
/// out and the last evicted fingerprint was dropped.
pub fn insert16(store: &mut Store16, rng: &mut RandomSource, max_swaps: u8, h: u64) -> (r:
    Result<u8, u8>)
    requires
        old(store).wf(),
    ensures
        final(store).wf(),
        final(store).num_buckets_spec() == old(store).num_buckets_spec(),
        final(store).num_entries_spec() == old(store).num_entries_spec(),
        final(store).contents().len() == old(store).contents().len(),
        match r {
            Ok(n) => count_occupied(final(store).contents()) == count_occupied(
                old(store).contents(),
            ) + 1 && n <= max_swaps,
            Err(n) => count_occupied(final(store).contents()) == count_occupied(
                old(store).contents(),
            ) && n == max_swaps,
        },
        bucket_has_empty(
            old(store).contents(),
            old(store).num_entries_spec() as int,
            index1_of(h, old(store).num_buckets_spec()) as int,
        ) ==> r == Ok::<u8, u8>(0),
        r is Err ==> !bucket_has_empty(
            old(store).contents(),
            old(store).num_entries_spec() as int,
            index1_of(h, old(store).num_buckets_spec()) as int,
        ),
        forall|i: int|
            0 <= i < old(store).contents().len() && old(store).contents()[i] != 0
                ==> final(store).contents()[i] != 0,
{
    let ghost s0 = store.contents();
    let ghost ne = store.num_entries_spec() as int;
    let ghost nb = store.num_buckets_spec();
    let ghost c0 = count_occupied(s0);
    let num_buckets: u32 = store.num_buckets();
    let (finger0, idx_1) = finger16_index(h, num_buckets);

    // Try to place the fingerprint in an empty entry of either candidate.
    if store.try_insert(idx_1, finger0) {
        proof {
            lemma_bucket_range(nb as int, ne, idx_1 as int);
            lemma_insert_increments(s0, store.contents(), idx_1 as int * ne, ne, finger0 as u16);
        }
        return Ok(0);
    }
    let idx_2: u32 = bucket_index(&finger0, num_buckets);
    if store.try_insert(idx_2, finger0) {
        proof {
            lemma_bucket_range(nb as int, ne, idx_2 as int);
            lemma_insert_increments(s0, store.contents(), idx_2 as int * ne, ne, finger0 as u16);
        }
        return Ok(0);
    }

    // Both candidate buckets are full: relocate existing fingerprints.
    let mut idx: u32 = rng.choose2(idx_1, idx_2);
    let mut finger = finger0;
    let mut swaps: u16 = 1;
    let mut placed = false;
    while swaps <= max_swaps as u16 && !placed
        invariant
            store.wf(),
            store.num_buckets_spec() == nb,
            num_buckets == nb,
            store.num_entries_spec() as int == ne,
            store.contents().len() == s0.len(),
            finger != 0,
            idx < nb,
            1 <= swaps as int <= max_swaps as int + 1,
            placed ==> swaps as int <= max_swaps as int,
            !placed ==> !bucket_has_empty(store.contents(), ne, idx as int),
            count_occupied(store.contents()) == c0 + (if placed {
                1int
            } else {
                0int
            }),
            forall|i: int| 0 <= i < s0.len() && s0[i] != 0 ==> store.contents()[i] != 0,
        decreases max_swaps as int + 1 - swaps as int + (if placed {
            0int
        } else {
            1int
        }),
    {
        let ghost pre = store.contents();
        let entry: u8 = rng.below(store.num_entries());
        let evicted = store.swap(idx, entry, finger);
        proof {
            lemma_bucket_range(nb as int, ne, idx as int);
            let pos = idx as int * ne + entry as int;
            assert(pre[pos] != 0);
            lemma_swap_preserves(pre, pos, finger as u16);
        }
        finger = evicted;
        let ghost pre2 = store.contents();
        idx = bucket_index(&finger, num_buckets);
        if store.try_insert(idx, finger) {
            proof {
                lemma_bucket_range(nb as int, ne, idx as int);
                lemma_insert_increments(pre2, store.contents(), idx as int * ne, ne, finger as u16);
            }
            placed = true;
        } else {
            swaps += 1;
        }
    }
    if placed {
        Ok(swaps as u8)
    } else {
        Err(max_swaps)
    }
}

} // verus!
