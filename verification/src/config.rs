use vstd::prelude::*;

verus! {

/// Immutable construction parameters for a filter. Chosen once at
/// construction and never mutated afterwards.
#[derive(Debug, Clone, Copy)]
pub struct Config {
    /// Fingerprint bit length; the only supported widths are 8 and 16.
    pub finger_bits: u8,
    /// Number of buckets; must be positive.
    pub num_buckets: u32,
    /// Number of entries per bucket; must be positive.
    pub num_entries: u8,
    /// Maximum number of relocation swaps an insertion may perform.
    pub max_swaps: u8,
}

/// The only construction failure: a slot width other than 8 or 16 bits
/// was requested.
#[derive(Debug, Clone, Copy, PartialEq, Eq, Structural)]
pub enum ConstructError {
    UnsupportedWidth,
}

} // verus!
