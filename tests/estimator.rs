use std::collections::hash_map::DefaultHasher;
use std::borrow::Borrow;
use std::hash::{BuildHasher, BuildHasherDefault, Hash};

use hyperloglog::{HyperLogLog, Precision, TryMergeErrorKind};

type DefaultState = BuildHasherDefault<DefaultHasher>;

const TOP: f64 = 9_223_372_036_854_775_808.0; // 2^63

fn alpha(num_bits: u8, num_registers: usize) -> f64 {
    match num_bits {
        4 => 0.673,
        5 => 0.697,
        6 => 0.709,
        _ => 0.7213 / (1. + 1.079 / (num_registers as f64)),
    }
}

fn estimate<T: ?Sized, S>(hll: &HyperLogLog<T, S>) -> usize {
    let m = hll.num_registers() as f64;
    let z = TOP / (hll.harmonic_sum() as f64);
    let mut e = alpha(hll.precision().get(), hll.num_registers()) * m * m * z;
    if e < 2.5 * m {
        let v = hll.zero_count();
        if v != 0 {
            e = m * (m / (v as f64)).ln();
        }
    }
    e as usize
}

fn insert<T: Borrow<Q>, S: BuildHasher, Q: Hash>(hll: &mut HyperLogLog<T, S>, value: &Q) {
    let h = hll.hasher().hash_one(value);
    hll.insert_hash(h);
}

#[test]
fn fresh_estimator_is_empty() {
    let hll = HyperLogLog::<i32, DefaultState>::new();
    assert!(hll.is_empty());
    assert_eq!(hll.precision(), Precision::P12);
    assert_eq!(hll.num_registers(), 4096);
    assert_eq!(hll.zero_count(), 4096);
    assert_eq!(hll.harmonic_sum(), 4096u128 << 63);
    assert_eq!(estimate(&hll), 0);
}

#[test]
fn constructors_set_precision_and_hasher() {
    let hll = HyperLogLog::<i32, u32>::with_precision_and_hasher(Precision::P7, 9);
    assert_eq!(hll.precision(), Precision::P7);
    assert_eq!(*hll.hasher(), 9);
    assert_eq!(hll.num_registers(), 128);
    let hll = HyperLogLog::<i32, u32>::with_hasher(5);
    assert_eq!(hll.precision(), Precision::P12);
    assert_eq!(*hll.hasher(), 5);
    let hll = HyperLogLog::<i32, u32>::with_precision(Precision::P18);
    assert_eq!(hll.num_registers(), 262_144);
    assert_eq!(*hll.hasher(), 0);
    let hll = HyperLogLog::<i32, u32>::default();
    assert_eq!(hll.precision(), Precision::P12);
}

#[test]
fn insert_hash_splits_index_and_rank() {
    let mut hll = HyperLogLog::<i32, ()>::with_precision_and_hasher(Precision::P4, ());
    // 21 = 0b1_0101: register 5, upper bits 1, rank 63 + 1 - 4 = 60.
    hll.insert_hash(21);
    assert_eq!(hll.zero_count(), 15);
    assert_eq!(hll.harmonic_sum(), (15u128 << 63) + (1u128 << 3));
    // Upper bits all zero: rank 65 - 4 = 61, register 0.
    hll.insert_hash(0);
    assert_eq!(hll.zero_count(), 14);
    assert_eq!(hll.harmonic_sum(), (14u128 << 63) + (1u128 << 3) + (1u128 << 2));
    // Top bit set: rank 1, register 15.
    hll.insert_hash(0x8000_0000_0000_000f);
    assert_eq!(hll.zero_count(), 13);
    assert_eq!(
        hll.harmonic_sum(),
        (13u128 << 63) + (1u128 << 3) + (1u128 << 2) + (1u128 << 62)
    );
    assert!(!hll.is_empty());
}

#[test]
fn insert_hash_keeps_the_larger_rank() {
    let mut hll = HyperLogLog::<i32, ()>::with_precision_and_hasher(Precision::P4, ());
    hll.insert_hash(0x8000_0000_0000_0003); // register 3, rank 1
    let low = hll.harmonic_sum();
    hll.insert_hash(0x0000_0000_0001_0003); // register 3, higher rank
    let high = hll.harmonic_sum();
    assert!(high < low);
    hll.insert_hash(0x8000_0000_0000_0003); // rank 1 again: no change
    assert_eq!(hll.harmonic_sum(), high);
}

#[test]
fn duplicates_do_not_move_the_estimate() {
    let mut hll = HyperLogLog::<i32, DefaultState>::new();
    for i in 0..1000 {
        insert(&mut hll, &i);
    }
    let once = estimate(&hll);
    let sum = hll.harmonic_sum();
    for _ in 0..10 {
        for i in 0..1000 {
            insert(&mut hll, &i);
        }
    }
    assert_eq!(estimate(&hll), once);
    assert_eq!(hll.harmonic_sum(), sum);
}

#[test]
fn hundred_thousand_distinct_values() {
    let mut hll = HyperLogLog::<i32, DefaultState>::new();
    for i in 0..100_000i32 {
        insert(&mut hll, &i);
    }
    let n = estimate(&hll);
    assert!((50_000..150_000).contains(&n), "estimate {n}");
}

#[test]
fn clear_restores_empty() {
    let mut hll = HyperLogLog::<i32, DefaultState>::with_precision(Precision::P10);
    for i in 0..5000i32 {
        insert(&mut hll, &i);
    }
    assert!(!hll.is_empty());
    hll.clear();
    assert!(hll.is_empty());
    assert_eq!(hll.zero_count(), 1024);
    assert_eq!(estimate(&hll), 0);
    assert_eq!(hll.precision(), Precision::P10);
}

#[test]
fn merge_is_commutative_and_idempotent() {
    let mut a = HyperLogLog::<i32, DefaultState>::with_precision(Precision::P8);
    let mut b = HyperLogLog::<i32, DefaultState>::with_precision(Precision::P8);
    for i in 0..300i32 {
        insert(&mut a, &i);
    }
    for i in 200..700i32 {
        insert(&mut b, &i);
    }
    let ab = a.merge_unchecked(&b);
    let ba = b.merge_unchecked(&a);
    assert_eq!(ab.harmonic_sum(), ba.harmonic_sum());
    assert_eq!(ab.zero_count(), ba.zero_count());
    let aa = a.merge_unchecked(&a);
    assert_eq!(aa.harmonic_sum(), a.harmonic_sum());
    assert_eq!(aa.zero_count(), a.zero_count());
    let mut c = a.clone();
    c.merge_from_unchecked(&b);
    assert_eq!(c.harmonic_sum(), ab.harmonic_sum());
}

#[test]
fn try_merge_precision_mismatch() {
    let a = HyperLogLog::<i32, DefaultState>::with_precision(Precision::P10);
    let b = HyperLogLog::<i32, DefaultState>::with_precision(Precision::P12);
    let e = a.try_merge(&b).unwrap_err();
    assert_eq!(e.kind(), TryMergeErrorKind::Precision);
    assert_eq!(e.to_string(), "incompatible precisions");
    let mut a = a;
    let e = a.try_merge_from(&b).unwrap_err();
    assert_eq!(e.kind(), TryMergeErrorKind::Precision);
}

#[test]
fn try_merge_hasher_mismatch() {
    let mut a = HyperLogLog::<i32, u32>::with_precision_and_hasher(Precision::P6, 1);
    let b = HyperLogLog::<i32, u32>::with_precision_and_hasher(Precision::P6, 2);
    a.insert_hash(77);
    let before = a.harmonic_sum();
    let e = a.try_merge(&b).unwrap_err();
    assert_eq!(e.kind(), TryMergeErrorKind::Hasher);
    assert_eq!(e.to_string(), "incompatible hashers");
    let mut b = b;
    b.insert_hash(1 << 40);
    let e = a.try_merge_from(&b).unwrap_err();
    assert_eq!(e.kind(), TryMergeErrorKind::Hasher);
    assert_eq!(a.harmonic_sum(), before);
    // Precision is checked before the hasher.
    let c = HyperLogLog::<i32, u32>::with_precision_and_hasher(Precision::P7, 2);
    assert_eq!(a.try_merge(&c).unwrap_err().kind(), TryMergeErrorKind::Precision);
}

#[test]
fn try_merge_union_bounds() {
    let mut a = HyperLogLog::<i32, DefaultState>::new();
    let mut b = HyperLogLog::<i32, DefaultState>::new();
    for i in 0..40_000i32 {
        insert(&mut a, &i);
    }
    for i in 30_000..90_000i32 {
        insert(&mut b, &i);
    }
    let (la, lb) = (estimate(&a), estimate(&b));
    let c = a.try_merge(&b).unwrap();
    let lc = estimate(&c);
    assert!(la.max(lb) <= lc && lc <= la + lb, "{la} {lb} {lc}");
}

#[test]
fn try_merge_from_overlapping_ranges() {
    let mut a = HyperLogLog::<i32, DefaultState>::new();
    for i in 0..75_000i32 {
        insert(&mut a, &i);
    }
    let mut b = HyperLogLog::<i32, DefaultState>::new();
    for i in 25_000..100_000i32 {
        insert(&mut b, &i);
    }
    a.try_merge_from(&b).unwrap();
    let n = estimate(&a);
    assert!((50_000..150_000).contains(&n), "estimate {n}");
}

#[test]
fn try_merge_overlapping_ranges() {
    let mut a = HyperLogLog::<i32, DefaultState>::new();
    for i in 0..75_000i32 {
        insert(&mut a, &i);
    }
    let mut b = HyperLogLog::<i32, DefaultState>::new();
    for i in 25_000..100_000i32 {
        insert(&mut b, &i);
    }
    let c = a.try_merge(&b).unwrap();
    let n = estimate(&c);
    assert!((50_000..150_000).contains(&n), "estimate {n}");
}

#[test]
fn alpha_constants_for_small_banks() {
    let mut hll = HyperLogLog::<i32, ()>::with_precision_and_hasher(Precision::P4, ());
    // Fill every register with rank 1: sum = 16 * 2^62, no zero registers.
    for j in 0..16u64 {
        hll.insert_hash(0x8000_0000_0000_0000 | j);
    }
    assert_eq!(hll.zero_count(), 0);
    assert_eq!(hll.harmonic_sum(), 16u128 << 62);
    // alpha * m * m / (m / 2) = 0.673 * 32 = 21.536
    assert_eq!(estimate(&hll), 21);
}

#[test]
fn clone_copies_registers_and_hasher() {
    let mut a = HyperLogLog::<i32, u32>::with_precision_and_hasher(Precision::P5, 3);
    a.insert_hash(0x0000_0001_0000_0007);
    let mut b = a.clone();
    assert_eq!(b.precision(), Precision::P5);
    assert_eq!(*b.hasher(), 3);
    assert_eq!(b.harmonic_sum(), a.harmonic_sum());
    assert_eq!(b.zero_count(), a.zero_count());
    // The clone has its own registers.
    b.insert_hash(0x8000_0000_0000_0001);
    assert_eq!(a.zero_count(), 31);
    assert_eq!(b.zero_count(), 30);
    a.clear();
    assert!(a.is_empty());
    assert!(!b.is_empty());
}

#[test]
fn merge_result_keeps_left_hasher() {
    let a = HyperLogLog::<i32, u32>::with_precision_and_hasher(Precision::P4, 8);
    let b = HyperLogLog::<i32, u32>::with_precision_and_hasher(Precision::P4, 9);
    assert_eq!(*a.merge_unchecked(&b).hasher(), 8);
    let c = HyperLogLog::<i32, u32>::with_precision_and_hasher(Precision::P4, 8);
    assert_eq!(*a.try_merge(&c).unwrap().hasher(), 8);
}
