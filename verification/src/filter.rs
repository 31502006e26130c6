use vstd::prelude::*;
use crate::config::{Config, ConstructError};
use crate::engine::{insert16, insert8};
use crate::hashing::hash64;
use crate::occupancy::{
    bucket_has_empty, count_occupied, lemma_count_all_zero, lemma_count_le_len,
    lemma_room_in_bucket,
};
use crate::rng::RandomSource;
use crate::store::{Store16, Store8};
use crate::text::render_spec;

verus! {

/// The bucket storage of a filter: one concrete store per supported slot
/// width, selected once at construction, so a filter can never hold
/// storage of the wrong width.
enum Buckets {
    U8(Store8),
    U16(Store16),
}

/// An approximate-membership structure: a fixed array of buckets holding
/// small fingerprints, filled by cuckoo-style insertion with bounded
/// random-walk relocation. It supports insertion and occupancy metrics
/// only: no membership query, no deletion, no resizing.
pub struct Filter {
    finger_bits: u8,
    num_buckets: u32,
    num_entries: u8,
    max_swaps: u8,
    buckets: Buckets,
    used: u64,
    rng: RandomSource,
}

impl Filter {
    /// The slot contents, widened to `u16`: index `b * num_entries + j` is
    /// entry `j` of bucket `b`; 0 is the empty sentinel.
    pub closed spec fn contents(&self) -> Seq<u16> {
        match self.buckets {
            Buckets::U8(s) => s.contents(),
            Buckets::U16(s) => s.contents(),
        }
    }

    /// The construction parameters the filter was built from.
    pub closed spec fn config_spec(&self) -> Config {
        Config {
            finger_bits: self.finger_bits,
            num_buckets: self.num_buckets,
            num_entries: self.num_entries,
            max_swaps: self.max_swaps,
        }
    }

    pub closed spec fn used_spec(&self) -> u64 {
        self.used
    }

    pub open spec fn capacity_spec(&self) -> u64 {
        (self.config_spec().num_buckets * self.config_spec().num_entries) as u64
    }

    pub open spec fn bits_spec(&self) -> u64 {
        (self.capacity_spec() * self.config_spec().finger_bits) as u64
    }

    /// Well-formedness: the storage matches the configured slot width and
    /// geometry, and the occupancy counter equals the number of occupied
    /// slots.
    pub closed spec fn wf(&self) -> bool {
        &&& self.num_buckets >= 1
        &&& self.num_entries >= 1
        &&& match self.buckets {
            Buckets::U8(s) => {
                &&& self.finger_bits == 8
                &&& s.wf()
                &&& s.num_buckets_spec() == self.num_buckets
                &&& s.num_entries_spec() == self.num_entries
            },
            Buckets::U16(s) => {
                &&& self.finger_bits == 16
                &&& s.wf()
                &&& s.num_buckets_spec() == self.num_buckets
                &&& s.num_entries_spec() == self.num_entries
            },
        }
        &&& self.used == count_occupied(self.contents())
    }

    /// Bucket `b` of this filter still has an empty slot.
    pub open spec fn bucket_has_room(&self, b: int) -> bool {
        bucket_has_empty(self.contents(), self.config_spec().num_entries as int, b)
    }

    proof fn lemma_cap_bound(&self)
        ensures
            (self.config_spec().num_buckets as int) * (self.config_spec().num_entries as int)
                < 0x100_0000_0000,
    {
        assert((self.num_buckets as int) * (self.num_entries as int) < 0x100_0000_0000)
            by (nonlinear_arith)
            requires
                self.num_buckets <= 0xFFFF_FFFFu32,
                self.num_entries <= 0xFFu8,
        ;
    }
}

impl Filter {
    /// Builds a filter for the given configuration, with every slot empty
    /// and a random source seeded from the operating system. Construction
    /// fails exactly when the requested slot width is neither 8 nor 16.
    pub fn new(c: &Config) -> (r: Result<Filter, ConstructError>)
        requires
            c.num_buckets >= 1,
            c.num_entries >= 1,
            c.num_buckets * c.num_entries <= usize::MAX,
        ensures
            r is Ok <==> (c.finger_bits == 8 || c.finger_bits == 16),
            r matches Ok(f) ==> f.wf() && f.config_spec() == *c && f.used_spec() == 0 && (forall|
                i: int,
            | 0 <= i < f.contents().len() ==> f.contents()[i] == 0),
            r matches Err(e) ==> e == ConstructError::UnsupportedWidth,
    {
        Filter::with_rng(c, RandomSource::from_entropy())
    }

    /// Builds a filter as `new` does, but with the random source seeded
    /// from the given value, so that a run can be reproduced exactly.
    pub fn new_seeded(c: &Config, seed: u64) -> (r: Result<Filter, ConstructError>)
        requires
            c.num_buckets >= 1,
            c.num_entries >= 1,
            c.num_buckets * c.num_entries <= usize::MAX,
        ensures
            r is Ok <==> (c.finger_bits == 8 || c.finger_bits == 16),
            r matches Ok(f) ==> f.wf() && f.config_spec() == *c && f.used_spec() == 0 && (forall|
                i: int,
            | 0 <= i < f.contents().len() ==> f.contents()[i] == 0),
            r matches Err(e) ==> e == ConstructError::UnsupportedWidth,
    {
        Filter::with_rng(c, RandomSource::from_seed(seed))
    }

    fn with_rng(c: &Config, rng: RandomSource) -> (r: Result<Filter, ConstructError>)
        requires
            c.num_buckets >= 1,
            c.num_entries >= 1,
            c.num_buckets * c.num_entries <= usize::MAX,
        ensures
            r is Ok <==> (c.finger_bits == 8 || c.finger_bits == 16),
            r matches Ok(f) ==> f.wf() && f.config_spec() == *c && f.used_spec() == 0 && (forall|
                i: int,
            | 0 <= i < f.contents().len() ==> f.contents()[i] == 0),
            r matches Err(e) ==> e == ConstructError::UnsupportedWidth,
    {
        if c.finger_bits == 8 {
            let store = Store8::new(c.num_buckets, c.num_entries);
            proof {
                lemma_count_all_zero(store.contents());
            }
            Ok(
                Filter {
                    finger_bits: c.finger_bits,
                    num_buckets: c.num_buckets,
                    num_entries: c.num_entries,
                    max_swaps: c.max_swaps,
                    buckets: Buckets::U8(store),
                    used: 0,
                    rng,
                },
            )
        } else if c.finger_bits == 16 {
            let store = Store16::new(c.num_buckets, c.num_entries);
            proof {
                lemma_count_all_zero(store.contents());
            }
            Ok(
                Filter {
                    finger_bits: c.finger_bits,
                    num_buckets: c.num_buckets,
                    num_entries: c.num_entries,
                    max_swaps: c.max_swaps,
                    buckets: Buckets::U16(store),
                    used: 0,
                    rng,
                },
            )
        } else {
            Err(ConstructError::UnsupportedWidth)
        }
    }
}

impl Filter {
    /// The number of successful insertions so far. Duplicate items count
    /// separately: there is no membership check before an insert.
    pub fn used(&self) -> (r: u64)
        ensures
            r == self.used_spec(),
    {
        self.used
    }

    /// The total slot count: buckets times entries per bucket.
    pub fn capacity(&self) -> (r: u64)
        ensures
            r == self.capacity_spec(),
            r == self.config_spec().num_buckets as u64 * self.config_spec().num_entries as u64,
    {
        proof {
            self.lemma_cap_bound();
        }
        self.num_buckets as u64 * self.num_entries as u64
    }

    /// The theoretical memory footprint in bits: capacity times slot
    /// width, independent of occupancy.
    pub fn bits(&self) -> (r: u64)
        requires
            self.wf(),
        ensures
            r == self.bits_spec(),
            r == self.capacity_spec() * self.config_spec().finger_bits as u64,
    {
        let cap: u64 = self.capacity();
        proof {
            self.lemma_cap_bound();
            assert((cap as int) * (self.finger_bits as int) < 0x10_0000_0000_0000)
                by (nonlinear_arith)
                requires
                    (cap as int) < 0x100_0000_0000,
                    self.finger_bits == 8 || self.finger_bits == 16,
            ;
        }
        cap * self.finger_bits as u64
    }
}

impl Filter {
    /// Inserts an item: its fingerprint is placed directly into one of its
    /// two candidate buckets, or by up to `max_swaps` random-walk
    /// relocations. `Ok(n)` was placed after `n` swaps and raises `used`
    /// by one; `Err(max_swaps)` spent the whole budget, changed no
    /// occupancy, and dropped the last evicted fingerprint.
    pub fn insert<T: ?Sized + core::hash::Hash>(&mut self, x: &T) -> (r: Result<u8, u8>)
        requires
            old(self).wf(),
        ensures
            final(self).wf(),
            final(self).config_spec() == old(self).config_spec(),
            final(self).contents().len() == old(self).contents().len(),
            match r {
                Ok(n) => {
                    &&& final(self).used_spec() == old(self).used_spec() + 1
                    &&& n <= old(self).config_spec().max_swaps
                    &&& old(self).used_spec() < old(self).capacity_spec()
                },
                Err(n) => {
                    &&& final(self).used_spec() == old(self).used_spec()
                    &&& n == old(self).config_spec().max_swaps
                },
            },
            (forall|b: int|
                0 <= b < old(self).config_spec().num_buckets ==> old(self).bucket_has_room(b))
                ==> r == Ok::<u8, u8>(0),
            r is Err ==> exists|b: int|
                0 <= b < old(self).config_spec().num_buckets && !old(self).bucket_has_room(b),
            forall|i: int|
                0 <= i < old(self).contents().len() && old(self).contents()[i] != 0
                    ==> final(self).contents()[i] != 0,
    {
        let ghost ne = self.num_entries as int;
        let ghost nb = self.num_buckets;
        let h: u64 = hash64(x);
        let result = match &mut self.buckets {
            Buckets::U8(store) => insert8(store, &mut self.rng, self.max_swaps, h),
            Buckets::U16(store) => insert16(store, &mut self.rng, self.max_swaps, h),
        };
        proof {
            assert((nb as int) * ne < 0x100_0000_0000) by (nonlinear_arith)
                requires
                    nb <= 0xFFFF_FFFFu32,
                    0 <= ne < 0x100,
            ;
            lemma_count_le_len(self.contents());
            let i1 = crate::hashing::index1_of(h, nb) as int;
            assert(0 <= i1 < nb);
            if result is Err {
                assert(!old(self).bucket_has_room(i1));
            }
            if forall|b: int| 0 <= b < nb ==> old(self).bucket_has_room(b) {
                assert(old(self).bucket_has_room(i1));
            }
        }
        if result.is_ok() {
            self.used = self.used + 1;
        }
        result
    }
}

impl Filter {
    /// Renders the grid of all bucket contents for diagnostics: one row
    /// per bucket, with 3-digit columns for 8-bit slots and 5-digit
    /// columns for 16-bit slots. Intended for human inspection.
    pub fn to_string(&self) -> (s: String)
        requires
            self.wf(),
        ensures
            s@ == render_spec(
                self.contents(),
                self.config_spec().num_entries as nat,
                if self.config_spec().finger_bits == 8 {
                    3nat
                } else {
                    5nat
                },
            ),
    {
        match &self.buckets {
            Buckets::U8(store) => store.render(),
            Buckets::U16(store) => store.render(),
        }
    }
}

impl Filter {
    /// The occupancy counter never exceeds the capacity: `used` counts
    /// occupied slots, of which there are at most `capacity`.
    pub proof fn lemma_used_le_capacity(&self)
        requires
            self.wf(),
        ensures
            self.used_spec() <= self.capacity_spec(),
    {
        self.lemma_cap_bound();
        lemma_count_le_len(self.contents());
    }

    /// While fewer insertions have succeeded than one bucket holds
    /// entries, every bucket still has an empty slot, so the next insert
    /// is a direct placement: together with `insert`'s contract, inserting
    /// into a filter this empty returns `Ok(0)` and raises `used` by one,
    /// whatever the item hashes to.
    pub proof fn lemma_room_everywhere(&self)
        requires
            self.wf(),
            self.used_spec() < self.config_spec().num_entries,
        ensures
            forall|b: int| 0 <= b < self.config_spec().num_buckets ==> self.bucket_has_room(b),
    {
        assert forall|b: int|
            0 <= b < self.config_spec().num_buckets implies self.bucket_has_room(b) by {
            lemma_room_in_bucket(
                self.contents(),
                self.config_spec().num_entries as int,
                self.config_spec().num_buckets as int,
                b,
            );
        }
    }
}

} // verus!
