use cuckoo_filter::config::{Config, ConstructError};
use cuckoo_filter::filter::Filter;

fn cfg(finger_bits: u8, num_buckets: u32, num_entries: u8, max_swaps: u8) -> Config {
    Config { finger_bits, num_buckets, num_entries, max_swaps }
}

#[test]
fn new_accepts_both_supported_widths() {
    assert!(Filter::new(&cfg(8, 10, 4, 3)).is_ok());
    assert!(Filter::new(&cfg(16, 10, 4, 3)).is_ok());
}

#[test]
fn new_rejects_other_widths() {
    for bits in [0u8, 1, 4, 7, 9, 12, 15, 17, 32, 64, 255] {
        match Filter::new(&cfg(bits, 10, 4, 3)) {
            Ok(_) => panic!("width {} must be rejected", bits),
            Err(e) => assert_eq!(e, ConstructError::UnsupportedWidth),
        }
    }
}

#[test]
fn scenario_unsupported_width_32() {
    let r = Filter::new(&cfg(32, 100, 4, 10));
    assert!(matches!(r, Err(ConstructError::UnsupportedWidth)));
}

#[test]
fn capacity_and_bits_formulas() {
    let f = Filter::new(&cfg(16, 100, 4, 10)).unwrap();
    assert_eq!(f.capacity(), 400);
    assert_eq!(f.bits(), 6400);
    let g = Filter::new(&cfg(8, 7, 3, 0)).unwrap();
    assert_eq!(g.capacity(), 21);
    assert_eq!(g.bits(), 168);
}

#[test]
fn used_counts_ok_results_and_stays_within_capacity() {
    let mut f = Filter::new_seeded(&cfg(8, 4, 2, 2), 7).unwrap();
    let mut ok_count: u64 = 0;
    for i in 0u64..50 {
        match f.insert(&i) {
            Ok(_) => ok_count += 1,
            Err(n) => assert_eq!(n, 2),
        }
        assert_eq!(f.used(), ok_count);
        assert!(f.used() <= f.capacity());
    }
}

#[test]
fn duplicate_keys_both_count() {
    let mut f = Filter::new(&cfg(8, 16, 4, 4)).unwrap();
    assert!(matches!(f.insert(&"same-key"), Ok(0)));
    assert!(matches!(f.insert(&"same-key"), Ok(0)));
    assert_eq!(f.used(), 2);
}

#[test]
fn insert_into_roomy_filter_is_direct() {
    let mut f = Filter::new(&cfg(16, 3, 5, 0)).unwrap();
    for i in 0u32..5 {
        // fewer successes than entries per bucket: every bucket has room,
        // so placement is direct whatever the key hashes to
        if f.used() < 5 {
            assert!(matches!(f.insert(&i), Ok(0)));
        }
    }
}

#[test]
fn scenario_single_bucket_single_entry() {
    let mut f = Filter::new(&cfg(8, 1, 1, 0)).unwrap();
    assert!(matches!(f.insert(&"first"), Ok(0)));
    assert_eq!(f.used(), 1);
    assert!(matches!(f.insert(&"second"), Err(0)));
    assert_eq!(f.used(), 1);
}

#[test]
fn scenario_two_buckets_one_relocation() {
    let mut f = Filter::new_seeded(&cfg(8, 2, 1, 1), 42).unwrap();
    let mut key: u64 = 0;
    while f.used() < 2 && key < 1000 {
        let _ = f.insert(&key);
        key += 1;
    }
    assert_eq!(f.used(), 2, "could not fill both buckets");
    let r = f.insert(&"straw");
    assert!(matches!(r, Ok(1) | Err(1)), "exactly one relocation attempt, got {:?}", r);
}

#[test]
fn failed_insert_reports_whole_budget() {
    for max_swaps in [0u8, 1, 3, 9] {
        let mut f = Filter::new_seeded(&cfg(8, 1, 1, max_swaps), 5).unwrap();
        assert!(matches!(f.insert(&"occupant"), Ok(0)));
        match f.insert(&"rejected") {
            Ok(_) => panic!("a full one-slot filter cannot accept more"),
            Err(n) => assert_eq!(n, max_swaps),
        }
        assert_eq!(f.used(), 1);
    }
}

#[test]
fn seeded_runs_are_reproducible() {
    let c = cfg(8, 3, 1, 4);
    let mut a = Filter::new_seeded(&c, 123).unwrap();
    let mut b = Filter::new_seeded(&c, 123).unwrap();
    for i in 0u64..40 {
        let ra = a.insert(&i);
        let rb = b.insert(&i);
        assert_eq!(ra, rb);
    }
    assert_eq!(a.used(), b.used());
    assert_eq!(a.to_string(), b.to_string());
}

#[test]
fn render_of_empty_grids() {
    let f = Filter::new(&cfg(8, 2, 2, 0)).unwrap();
    assert_eq!(f.to_string(), "  0 [   0    0 ]\n  1 [   0    0 ]");
    let g = Filter::new(&cfg(16, 1, 3, 0)).unwrap();
    assert_eq!(g.to_string(), "  0 [     0      0      0 ]");
}

#[test]
fn render_shows_stored_fingerprint() {
    let mut f = Filter::new(&cfg(8, 1, 1, 0)).unwrap();
    assert!(f.insert(&"value").is_ok());
    let s = f.to_string();
    assert_eq!(s.len(), 11);
    assert!(s.starts_with("  0 [ "));
    assert!(s.ends_with(" ]"));
    let middle: u32 = s[6..9].trim().parse().expect("a decimal fingerprint");
    assert!(middle != 0 && middle <= 255);
}

#[test]
fn render_widths_follow_slot_width() {
    let mut f = Filter::new(&cfg(16, 1, 1, 0)).unwrap();
    assert!(f.insert(&"wide").is_ok());
    let s = f.to_string();
    assert_eq!(s.len(), 13);
    let middle: u32 = s[6..11].trim().parse().expect("a decimal fingerprint");
    assert!(middle != 0 && middle <= 65535);
}

#[test]
fn wide_filter_workload_respects_budget_and_capacity() {
    let mut f = Filter::new_seeded(&cfg(16, 2, 2, 3), 9).unwrap();
    let mut ok_count: u64 = 0;
    for i in 0u64..200 {
        match f.insert(&i) {
            Ok(n) => {
                assert!(n <= 3);
                ok_count += 1;
            }
            Err(n) => assert_eq!(n, 3),
        }
    }
    assert_eq!(f.used(), ok_count);
    assert!(f.used() <= f.capacity());
    assert_eq!(f.capacity(), 4);
}
