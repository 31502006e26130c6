use vstd::prelude::*;
use vstd::string::StringExecFns;
use crate::occupancy::bucket_has_empty;
use crate::text::{append_padded3, append_padded5, piece, render_spec, render_upto};

verus! {

/// A flat, fixed-width array of 8-bit slots grouped into buckets. Slot
/// value 0 is the reserved empty sentinel; it is never a legal
/// fingerprint. The slot width is a property of the type, so a filter
/// built for 8-bit fingerprints can never reach 16-bit storage.
pub struct Store8 {
    num_buckets: u32,
    num_entries: u8,
    slots: Vec<u8>,
}

/// A flat, fixed-width array of 16-bit slots grouped into buckets; the
/// 16-bit counterpart of `Store8`.
pub struct Store16 {
    num_buckets: u32,
    num_entries: u8,
    slots: Vec<u16>,
}

impl Store8 {
    /// The slot contents , widened to `u16` so that both widths share one
    /// mathematical model. Index `b * num_entries + j` is entry `j` of
    /// bucket `b`.
    pub closed spec fn contents(&self) -> Seq<u16> {
        self.slots@.map_values(|x: u8| x as u16)
    }

    pub closed spec fn num_buckets_spec(&self) -> u32 {
        self.num_buckets
    }

    pub closed spec fn num_entries_spec(&self) -> u8 {
        self.num_entries
    }

    pub open spec fn wf(&self) -> bool {
        &&& self.num_buckets_spec() >= 1
        &&& self.num_entries_spec() >= 1
        &&& self.contents().len() == self.num_buckets_spec() * self.num_entries_spec()
    }

    /// Allocates `num_buckets * num_entries` slots, all empty.
    pub fn new(num_buckets: u32, num_entries: u8) -> (s: Store8)
        requires
            num_buckets >= 1,
            num_entries >= 1,
            num_buckets * num_entries <= usize::MAX,
        ensures
            s.wf(),
            s.num_buckets_spec() == num_buckets,
            s.num_entries_spec() == num_entries,
            forall|i: int| 0 <= i < s.contents().len() ==> s.contents()[i] == 0,
    {
        let n: usize = num_buckets as usize * num_entries as usize;
        let mut slots: Vec<u8> = Vec::new();
        while slots.len() < n
            invariant
                slots.len() <= n,
                forall|i: int| 0 <= i < slots.len() ==> slots@[i] == 0,
            decreases n - slots.len(),
        {
            slots.push(0);
        }
        Store8 { num_buckets, num_entries, slots }
    }

    pub fn num_buckets(&self) -> (r: u32)
        ensures
            r == self.num_buckets_spec(),
    {
        self.num_buckets
    }

    pub fn num_entries(&self) -> (r: u8)
        ensures
            r == self.num_entries_spec(),
    {
        self.num_entries
    }

    /// Scans the bucket's entries in slot order and writes the fingerprint
    /// into the first empty slot; fails without side effect when the
    /// bucket is full.
    pub fn try_insert(&mut self, bucket: u32, finger: u8) -> (r: bool)
        requires
            old(self).wf(),
            bucket < old(self).num_buckets_spec(),
            finger != 0,
        ensures
            final(self).wf(),
            final(self).num_buckets_spec() == old(self).num_buckets_spec(),
            final(self).num_entries_spec() == old(self).num_entries_spec(),
            r == bucket_has_empty(
                old(self).contents(),
                old(self).num_entries_spec() as int,
                bucket as int,
            ),
            !r ==> final(self).contents() == old(self).contents(),
            r ==> exists|i: int|
                #![trigger old(self).contents()[i]]
                {
                    let lo = bucket as int * old(self).num_entries_spec() as int;
                    &&& lo <= i < lo + old(self).num_entries_spec()
                    &&& old(self).contents()[i] == 0
                    &&& (forall|k: int| lo <= k < i ==> old(self).contents()[k] != 0)
                    &&& final(self).contents() == old(self).contents().update(i, finger as u16)
                },
    {
        let ghost s0 = self.contents();
        let ghost ne = self.num_entries_spec();
        let e: usize = self.num_entries as usize;
        let total: usize = self.slots.len();
        proof {
            assert(bucket as int * e as int + e as int <= self.num_buckets as int * e as int)
                by (nonlinear_arith)
                requires
                    (bucket as int) < (self.num_buckets as int),
                    e as int >= 1,
            ;
        }
        let start: usize = bucket as usize * e;
        let mut j: usize = 0;
        let mut found = false;
        let ghost mut fidx: int = 0;
        while j < e && !found
            invariant
                self.wf(),
                self.num_entries_spec() == ne,
                self.num_buckets_spec() == old(self).num_buckets_spec(),
                e == ne as usize,
                total == self.slots@.len(),
                s0.len() == total,
                start as int == bucket as int * ne as int,
                start + e <= total,
                j <= e,
                !found ==> self.contents() == s0,
                !found ==> forall|k: int| start <= k < start + j ==> s0[k] != 0,
                found ==> start as int <= fidx < start as int + e as int,
                found ==> s0[fidx] == 0,
                found ==> forall|k: int| start <= k < fidx ==> s0[k] != 0,
                found ==> self.contents() == s0.update(fidx, finger as u16),
            decreases e - j + (if found { 0int } else { 1int }),
        {
            if self.slots[start + j] == 0 {
                self.slots[start + j] = finger;
                proof {
                    fidx = (start + j) as int;
                    assert(s0[fidx] == 0);
                    assert(self.contents() =~= s0.update(fidx, finger as u16));
                }
                found = true;
            } else {
                j += 1;
            }
        }
        proof {
            if found {
                assert(old(self).contents()[fidx] == 0);
                assert(bucket_has_empty(s0, ne as int, bucket as int));
            } else {
                assert(!bucket_has_empty(s0, ne as int, bucket as int));
            }
        }
        found
    }

    /// Unconditionally overwrites the given slot and returns the value it
    /// held, which is the displaced fingerprint (or 0 if the slot was
    /// empty).
    pub fn swap(&mut self, bucket: u32, entry: u8, finger: u8) -> (r: u8)
        requires
            old(self).wf(),
            bucket < old(self).num_buckets_spec(),
            entry < old(self).num_entries_spec(),
            finger != 0,
        ensures
            final(self).wf(),
            final(self).num_buckets_spec() == old(self).num_buckets_spec(),
            final(self).num_entries_spec() == old(self).num_entries_spec(),
            r as u16 == old(self).contents()[bucket as int * old(self).num_entries_spec() as int
                + entry as int],
            final(self).contents() == old(self).contents().update(
                bucket as int * old(self).num_entries_spec() as int + entry as int,
                finger as u16,
            ),
    {
        let ghost s0 = self.contents();
        let e: usize = self.num_entries as usize;
        let total: usize = self.slots.len();
        proof {
            assert(bucket as int * e as int + e as int <= self.num_buckets as int * e as int)
                by (nonlinear_arith)
                requires
                    (bucket as int) < (self.num_buckets as int),
                    e as int >= 1,
            ;
        }
        let i: usize = bucket as usize * e + entry as usize;
        let evicted: u8 = self.slots[i];
        self.slots[i] = finger;
        proof {
            assert(self.contents() =~= s0.update(i as int, finger as u16));
        }
        evicted
    }

    /// Renders the grid of all bucket contents for diagnostics: one row
    /// per bucket, the bucket number, then its entries in 3-digit
    /// columns.
    pub fn render(&self) -> (out: String)
        requires
            self.wf(),
        ensures
            out@ == render_spec(self.contents(), self.num_entries_spec() as nat, 3),
    {
        let mut out = String::new();
        let e: usize = self.num_entries as usize;
        let n: usize = self.slots.len();
        let mut i: usize = 0;
        while i < n
            invariant
                self.wf(),
                e == self.num_entries_spec() as usize,
                e >= 1,
                n == self.slots@.len(),
                n == self.contents().len(),
                i <= n,
                out@ == render_upto(self.contents(), e as nat, 3, i as int),
            decreases n - i,
        {
            let ghost prev = out@;
            if i % e == 0 {
                append_padded3(&mut out, (i / e) as u64);
                out.append(" [");
            }
            out.append(" ");
            append_padded3(&mut out, self.slots[i] as u64);
            out.append(" ");
            if i % e == e - 1 {
                if i == n - 1 {
                    out.append("]");
                } else {
                    out.append("]\n");
                }
            }
            proof {
                reveal_strlit(" ");
                reveal_strlit(" [");
                reveal_strlit("]");
                reveal_strlit("]\n");
                assert(out@ =~= prev + piece(self.contents(), e as nat, 3, i as int));
            }
            i += 1;
        }
        out
    }
}

impl Store16 {
    /// The slot contents . Index `b * num_entries + j` is entry `j` of
    /// bucket `b`.
    pub closed spec fn contents(&self) -> Seq<u16> {
        self.slots@
    }

    pub closed spec fn num_buckets_spec(&self) -> u32 {
        self.num_buckets
    }

    pub closed spec fn num_entries_spec(&self) -> u8 {
        self.num_entries
    }

    pub open spec fn wf(&self) -> bool {
        &&& self.num_buckets_spec() >= 1
        &&& self.num_entries_spec() >= 1
        &&& self.contents().len() == self.num_buckets_spec() * self.num_entries_spec()
    }

    /// Allocates `num_buckets * num_entries` slots, all empty.
    pub fn new(num_buckets: u32, num_entries: u8) -> (s: Store16)
        requires
            num_buckets >= 1,
            num_entries >= 1,
            num_buckets * num_entries <= usize::MAX,
        ensures
            s.wf(),
            s.num_buckets_spec() == num_buckets,
            s.num_entries_spec() == num_entries,
            forall|i: int| 0 <= i < s.contents().len() ==> s.contents()[i] == 0,
    {
        let n: usize = num_buckets as usize * num_entries as usize;
        let mut slots: Vec<u16> = Vec::new();
        while slots.len() < n
            invariant
                slots.len() <= n,
                forall|i: int| 0 <= i < slots.len() ==> slots@[i] == 0,
            decreases n - slots.len(),
        {
            slots.push(0);
        }
        Store16 { num_buckets, num_entries, slots }
    }

    pub fn num_buckets(&self) -> (r: u32)
        ensures
            r == self.num_buckets_spec(),
    {
        self.num_buckets
    }

    pub fn num_entries(&self) -> (r: u8)
        ensures
            r == self.num_entries_spec(),
    {
        self.num_entries
    }

    /// Scans the bucket's entries in slot order and writes the fingerprint
    /// into the first empty slot; fails without side effect when the
    /// bucket is full.
    pub fn try_insert(&mut self, bucket: u32, finger: u16) -> (r: bool)
        requires
            old(self).wf(),
            bucket < old(self).num_buckets_spec(),
            finger != 0,
        ensures
            final(self).wf(),
            final(self).num_buckets_spec() == old(self).num_buckets_spec(),
            final(self).num_entries_spec() == old(self).num_entries_spec(),
            r == bucket_has_empty(
                old(self).contents(),
                old(self).num_entries_spec() as int,
                bucket as int,
            ),
            !r ==> final(self).contents() == old(self).contents(),
            r ==> exists|i: int|
                #![trigger old(self).contents()[i]]
                {
                    let lo = bucket as int * old(self).num_entries_spec() as int;
                    &&& lo <= i < lo + old(self).num_entries_spec()
                    &&& old(self).contents()[i] == 0
                    &&& (forall|k: int| lo <= k < i ==> old(self).contents()[k] != 0)
                    &&& final(self).contents() == old(self).contents().update(i, finger)
                },
    {
        let ghost s0 = self.contents();
        let ghost ne = self.num_entries_spec();
        let e: usize = self.num_entries as usize;
        let total: usize = self.slots.len();
        proof {
            assert(bucket as int * e as int + e as int <= self.num_buckets as int * e as int)
                by (nonlinear_arith)
                requires
                    (bucket as int) < (self.num_buckets as int),
                    e as int >= 1,
            ;
        }
        let start: usize = bucket as usize * e;
        let mut j: usize = 0;
        let mut found = false;
        let ghost mut fidx: int = 0;
        while j < e && !found
            invariant
                self.wf(),
                self.num_entries_spec() == ne,
                self.num_buckets_spec() == old(self).num_buckets_spec(),
                e == ne as usize,
                total == self.slots@.len(),
                s0.len() == total,
                start as int == bucket as int * ne as int,
                start + e <= total,
                j <= e,
                !found ==> self.contents() == s0,
                !found ==> forall|k: int| start <= k < start + j ==> s0[k] != 0,
                found ==> start as int <= fidx < start as int + e as int,
                found ==> s0[fidx] == 0,
                found ==> forall|k: int| start <= k < fidx ==> s0[k] != 0,
                found ==> self.contents() == s0.update(fidx, finger),
            decreases e - j + (if found { 0int } else { 1int }),
        {
            if self.slots[start + j] == 0 {
                self.slots[start + j] = finger;
                proof {
                    fidx = (start + j) as int;
                    assert(s0[fidx] == 0);
                    assert(self.contents() =~= s0.update(fidx, finger));
                }
                found = true;
            } else {
                j += 1;
            }
        }
        proof {
            if found {
                assert(old(self).contents()[fidx] == 0);
                assert(bucket_has_empty(s0, ne as int, bucket as int));
            } else {
                assert(!bucket_has_empty(s0, ne as int, bucket as int));
            }
        }
        found
    }

    /// Unconditionally overwrites the given slot and returns the value it
    /// held, which is the displaced fingerprint (or 0 if the slot was
    /// empty).
    pub fn swap(&mut self, bucket: u32, entry: u8, finger: u16) -> (r: u16)
        requires
            old(self).wf(),
            bucket < old(self).num_buckets_spec(),
            entry < old(self).num_entries_spec(),
            finger != 0,
        ensures
            final(self).wf(),
            final(self).num_buckets_spec() == old(self).num_buckets_spec(),
            final(self).num_entries_spec() == old(self).num_entries_spec(),
            r == old(self).contents()[bucket as int * old(self).num_entries_spec() as int
                + entry as int],
            final(self).contents() == old(self).contents().update(
                bucket as int * old(self).num_entries_spec() as int + entry as int,
                finger,
            ),
    {
        let ghost s0 = self.contents();
        let e: usize = self.num_entries as usize;
        let total: usize = self.slots.len();
        proof {
            assert(bucket as int * e as int + e as int <= self.num_buckets as int * e as int)
                by (nonlinear_arith)
                requires
                    (bucket as int) < (self.num_buckets as int),
                    e as int >= 1,
            ;
        }
        let i: usize = bucket as usize * e + entry as usize;
        let evicted: u16 = self.slots[i];
        self.slots[i] = finger;
        proof {
            assert(self.contents() =~= s0.update(i as int, finger));
        }
        evicted
    }

    /// Renders the grid of all bucket contents for diagnostics: one row
    /// per bucket, the bucket number, then its entries in 5-digit
    /// columns.
    #[verifier::rlimit(60)]
    pub fn render(&self) -> (out: String)
        requires
            self.wf(),
        ensures
            out@ == render_spec(self.contents(), self.num_entries_spec() as nat, 5),
    {
        let mut out = String::new();
        let e: usize = self.num_entries as usize;
        let n: usize = self.slots.len();
        let mut i: usize = 0;
        while i < n
            invariant
                self.wf(),
                e == self.num_entries_spec() as usize,
                e >= 1,
                n == self.slots@.len(),
                n == self.contents().len(),
                i <= n,
                out@ == render_upto(self.contents(), e as nat, 5, i as int),
            decreases n - i,
        {
            let ghost prev = out@;
            if i % e == 0 {
                append_padded3(&mut out, (i / e) as u64);
                out.append(" [");
            }
            out.append(" ");
            append_padded5(&mut out, self.slots[i] as u64);
            out.append(" ");
            if i % e == e - 1 {
                if i == n - 1 {
                    out.append("]");
                } else {
                    out.append("]\n");
                }
            }
            proof {
                reveal_strlit(" ");
                reveal_strlit(" [");
                reveal_strlit("]");
                reveal_strlit("]\n");
                assert(out@ =~= prev + piece(self.contents(), e as nat, 5, i as int));
            }
            i += 1;
        }
        out
    }
}

} // verus!
