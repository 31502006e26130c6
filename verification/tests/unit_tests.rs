use cuckoo_filter::hashing::{bucket_index, finger16_index, finger8_index, hash64};
use cuckoo_filter::summary::Summary;

#[test]
fn fingerprints_are_never_zero() {
    for h in [0u64, 1, 254, 255, 256, 0xFFFF_FFFF, 0xFFFF_FFFF_FFFF_FFFF, 0x1234_5678_9ABC_DEF0] {
        let (f8, _) = finger8_index(h, 10);
        assert_ne!(f8, 0);
        let (f16, _) = finger16_index(h, 10);
        assert_ne!(f16, 0);
    }
}

#[test]
fn fingerprint_formula_is_the_biased_reduction() {
    let h: u64 = 0x0000_01FE_0000_0000; // high 32 bits are 510 == 2 * 255
    let (f8, _) = finger8_index(h, 3);
    assert_eq!(f8, 1); // 510 % 255 == 0, shifted up by 1
    let (f16, _) = finger16_index(h, 3);
    assert_eq!(f16, 511); // 510 % 65535 == 510, shifted up by 1
}

#[test]
fn indices_stay_in_range() {
    for h in [0u64, 7, 1 << 40, u64::MAX] {
        for nb in [1u32, 2, 3, 1000] {
            let (_, i8v) = finger8_index(h, nb);
            assert!(i8v < nb);
            let (_, i16v) = finger16_index(h, nb);
            assert!(i16v < nb);
        }
    }
    for nb in [1u32, 2, 5, 97] {
        assert!(bucket_index(&"anything", nb) < nb);
        assert!(bucket_index(&42u16, nb) < nb);
    }
}

#[test]
fn primary_index_uses_low_hash_bits() {
    let h: u64 = 0xABCD_0000_0000_0007;
    let (_, idx) = finger8_index(h, 5);
    assert_eq!(idx, 7 % 5);
}

#[test]
fn hashing_is_stable_within_a_process() {
    assert_eq!(hash64(&"key"), hash64(&"key"));
    let (a, b) = (finger8_index(hash64(&"key"), 9), finger8_index(hash64(&"key"), 9));
    assert_eq!(a, b);
}

#[test]
fn summary_starts_empty() {
    let s = Summary::new(4);
    assert_eq!(s.success, 0);
    assert_eq!(s.failure, 0);
    assert_eq!(s.swaps, 0);
    assert_eq!(s.first_failure, 0);
    assert_eq!(s.swap_histogram, vec![0, 0, 0, 0]);
}

#[test]
fn summary_update_tracks_totals_and_first_failure() {
    let mut s = Summary::new(3);
    s.update(0, true, 0);
    s.update(1, true, 2);
    s.update(2, false, 1);
    s.update(3, false, 2);
    assert_eq!(s.success, 2);
    assert_eq!(s.failure, 2);
    assert_eq!(s.swaps, 5);
    assert_eq!(s.first_failure, 2);
    assert_eq!(s.swap_histogram, vec![1, 1, 2]);
}
