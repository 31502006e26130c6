use vstd::prelude::*;
use vstd::assert_by_contradiction;

verus! {

/// The number of occupied slots in a flat slot sequence: those holding a
/// value other than the empty sentinel 0. Slot values of both widths are
/// modelled uniformly as `u16`.
pub open spec fn count_occupied(s: Seq<u16>) -> nat
    decreases s.len(),
{
    if s.len() == 0 {
        0
    } else {
        count_occupied(s.drop_last()) + if s.last() != 0 {
            1nat
        } else {
            0nat
        }
    }
}

/// Bucket `b` of a flat slot sequence with `ne` entries per bucket has at
/// least one empty slot.
pub open spec fn bucket_has_empty(s: Seq<u16>, ne: int, b: int) -> bool {
    exists|i: int| b * ne <= i < b * ne + ne && s[i] == 0
}

pub proof fn lemma_count_le_len(s: Seq<u16>)
    ensures
        count_occupied(s) <= s.len(),
    decreases s.len(),
{
    if s.len() > 0 {
        lemma_count_le_len(s.drop_last());
    }
}

pub proof fn lemma_count_all_zero(s: Seq<u16>)
    requires
        forall|i: int| 0 <= i < s.len() ==> s[i] == 0,
    ensures
        count_occupied(s) == 0,
    decreases s.len(),
{
    if s.len() > 0 {
        lemma_count_all_zero(s.drop_last());
    }
}

pub proof fn lemma_count_all_nonzero(s: Seq<u16>)
    requires
        forall|i: int| 0 <= i < s.len() ==> s[i] != 0,
    ensures
        count_occupied(s) == s.len(),
    decreases s.len(),
{
    if s.len() > 0 {
        lemma_count_all_nonzero(s.drop_last());
    }
}

/// Updating one slot changes the occupancy count exactly as the old and
/// new values dictate.
pub proof fn lemma_count_update(s: Seq<u16>, i: int, v: u16)
    requires
        0 <= i < s.len(),
    ensures
        count_occupied(s.update(i, v)) == count_occupied(s) + (if v != 0 {
            1int
        } else {
            0int
        }) - (if s[i] != 0 {
            1int
        } else {
            0int
        }),
    decreases s.len(),
{
    let t = s.update(i, v);
    if i == s.len() - 1 {
        assert(t.drop_last() =~= s.drop_last());
    } else {
        assert(t.drop_last() =~= s.drop_last().update(i, v));
        lemma_count_update(s.drop_last(), i, v);
    }
}

/// Occupancy splits over a cut of the sequence.
pub proof fn lemma_count_split(s: Seq<u16>, i: int)
    requires
        0 <= i <= s.len(),
    ensures
        count_occupied(s) == count_occupied(s.subrange(0, i)) + count_occupied(
            s.subrange(i, s.len() as int),
        ),
    decreases s.len(),
{
    if i == s.len() {
        assert(s.subrange(0, i) =~= s);
        assert(count_occupied(s.subrange(i, s.len() as int)) == 0);
    } else {
        lemma_count_split(s.drop_last(), i);
        assert(s.drop_last().subrange(0, i) =~= s.subrange(0, i));
        assert(s.drop_last().subrange(i, s.len() - 1) =~= s.subrange(
            i,
            s.len() as int,
        ).drop_last());
        assert(s.subrange(i, s.len() as int).last() == s.last());
    }
}

/// The slot range of one bucket lies inside the flat slot range.
pub proof fn lemma_bucket_range(nb: int, ne: int, b: int)
    requires
        0 <= b < nb,
        0 < ne,
    ensures
        0 <= b * ne && b * ne + ne <= nb * ne,
{
    assert(0 <= b * ne && b * ne + ne <= nb * ne) by (nonlinear_arith)
        requires
            0 <= b < nb,
            0 < ne,
    ;
}

/// Writing a non-zero fingerprint into some empty slot of a bucket raises
/// the occupancy count by exactly one and empties no occupied slot.
pub proof fn lemma_insert_increments(s_old: Seq<u16>, s_new: Seq<u16>, lo: int, e: int, v: u16)
    requires
        0 <= lo,
        lo + e <= s_old.len(),
        v != 0,
        exists|i: int|
            #![trigger s_old[i]]
            lo <= i < lo + e && s_old[i] == 0 && s_new == s_old.update(i, v),
    ensures
        s_new.len() == s_old.len(),
        count_occupied(s_new) == count_occupied(s_old) + 1,
        forall|k: int| 0 <= k < s_old.len() && s_old[k] != 0 ==> s_new[k] != 0,
{
    let i = choose|i: int|
        #![trigger s_old[i]]
        lo <= i < lo + e && s_old[i] == 0 && s_new == s_old.update(i, v);
    lemma_count_update(s_old, i, v);
}

/// Overwriting an occupied slot with a non-zero fingerprint leaves the
/// occupancy count unchanged and empties no occupied slot.
pub proof fn lemma_swap_preserves(s_old: Seq<u16>, pos: int, v: u16)
    requires
        0 <= pos < s_old.len(),
        s_old[pos] != 0,
        v != 0,
    ensures
        count_occupied(s_old.update(pos, v)) == count_occupied(s_old),
        forall|k: int|
            0 <= k < s_old.len() && s_old[k] != 0 ==> s_old.update(pos, v)[k] != 0,
{
    lemma_count_update(s_old, pos, v);
}

/// While fewer slots are occupied than one bucket holds entries, every
/// bucket still has an empty slot.
pub proof fn lemma_room_in_bucket(s: Seq<u16>, ne: int, nb: int, b: int)
    requires
        ne > 0,
        nb > 0,
        s.len() == nb * ne,
        0 <= b < nb,
        count_occupied(s) < ne,
    ensures
        bucket_has_empty(s, ne, b),
{
    let lo = b * ne;
    let hi = b * ne + ne;
    assert(0 <= b * ne && b * ne + ne <= nb * ne) by (nonlinear_arith)
        requires
            ne > 0,
            nb > 0,
            0 <= b < nb,
    ;
    assert_by_contradiction!(bucket_has_empty(s, ne, b), {
        let sub = s.subrange(lo, hi);
        assert(forall|j: int| 0 <= j < sub.len() ==> sub[j] != 0);
        lemma_count_all_nonzero(sub);
        lemma_count_split(s, lo);
        lemma_count_split(s.subrange(lo, s.len() as int), ne);
        assert(s.subrange(lo, s.len() as int).subrange(0, ne) =~= sub);
        assert(count_occupied(s) >= ne);
    });
}

} // verus!
