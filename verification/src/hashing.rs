use vstd::prelude::*;

verus! {

/// The fingerprint an 8-bit-slot filter derives from a 64-bit hash: the
/// high 32 bits reduced modulo 255, shifted up by 1 so it is never 0.
/// The reduction is deliberately biased (the modulus is one less than a
/// power of two); the bias is part of the structure's behaviour.
pub open spec fn finger8_of(h: u64) -> u8 {
    (((h >> 32) % 255) + 1) as u8
}

/// The fingerprint a 16-bit-slot filter derives from a 64-bit hash: the
/// high 32 bits reduced modulo 65535, shifted up by 1 so it is never 0.
pub open spec fn finger16_of(h: u64) -> u16 {
    (((h >> 32) % 65535) + 1) as u16
}

/// The primary bucket index derived from a 64-bit hash: the low 32 bits
/// reduced modulo the bucket count.
pub open spec fn index1_of(h: u64, num_buckets: u32) -> u32
    recommends
        num_buckets > 0,
{
    ((h & 0xFFFF_FFFF) % (num_buckets as u64)) as u32
}

/// Relies on std's `DefaultHasher` (`new`, `Hash::hash`, `Hasher::finish`):
/// hashes any hashable value to 64 bits. Nothing is assumed of the result;
/// every caller states what holds of every possible hash value.
#[verifier::external_body]
pub fn hash64<T: ?Sized + core::hash::Hash>(x: &T) -> u64 {
    let mut hasher = std::collections::hash_map::DefaultHasher::new();
    core::hash::Hash::hash(x, &mut hasher);
    core::hash::Hasher::finish(&hasher)
}

/// Derives the 8-bit fingerprint and the primary bucket index from a hash.
/// The fingerprint is never 0 and the index is always in range.
pub fn finger8_index(h: u64, num_buckets: u32) -> (r: (u8, u32))
    requires
        num_buckets > 0,
    ensures
        r.0 == finger8_of(h),
        r.0 != 0,
        r.1 == index1_of(h, num_buckets),
        r.1 < num_buckets,
{
    proof {
        assert(h & 0xFFFF_FFFF <= 0xFFFF_FFFF) by (bit_vector);
    }
    let finger: u8 = ((h >> 32) % 255) as u8 + 1;
    let low: u32 = (h & 0xFFFF_FFFF) as u32;
    let idx: u32 = low % num_buckets;
    (finger, idx)
}

/// Derives the 16-bit fingerprint and the primary bucket index from a hash.
/// The fingerprint is never 0 and the index is always in range.
pub fn finger16_index(h: u64, num_buckets: u32) -> (r: (u16, u32))
    requires
        num_buckets > 0,
    ensures
        r.0 == finger16_of(h),
        r.0 != 0,
        r.1 == index1_of(h, num_buckets),
        r.1 < num_buckets,
{
    proof {
        assert(h & 0xFFFF_FFFF <= 0xFFFF_FFFF) by (bit_vector);
    }
    let finger: u16 = ((h >> 32) % 65535) as u16 + 1;
    let low: u32 = (h & 0xFFFF_FFFF) as u32;
    let idx: u32 = low % num_buckets;
    (finger, idx)
}

/// Hashes a value and reduces the hash to a bucket index. Used with a bare
/// fingerprint it yields the partner bucket: the alternate candidate is
/// derived from a fresh hash of the fingerprint alone, not by the XOR
/// scheme of textbook partial-key cuckoo hashing.
pub fn bucket_index<T: ?Sized + core::hash::Hash>(x: &T, num_buckets: u32) -> (r: u32)
    requires
        num_buckets > 0,
    ensures
        r < num_buckets,
{
    let h = hash64(x);
    proof {
        assert(h & 0xFFFF_FFFF <= 0xFFFF_FFFF) by (bit_vector);
    }
    let low: u32 = (h & 0xFFFF_FFFF) as u32;
    low % num_buckets
}

} // verus!
