use hyperloglog::registers::Registers;
use hyperloglog::Precision;

#[test]
fn bank_sized_by_precision() {
    assert_eq!(Registers::with_precision(Precision::P4).len(), 16);
    assert_eq!(Registers::with_precision(Precision::P12).len(), 4096);
    assert_eq!(Registers::with_precision(Precision::P18).len(), 262_144);
    let bank = Registers::with_precision(Precision::P5);
    assert_eq!(bank.precision(), Precision::P5);
    assert!(bank.is_empty());
    assert!(bank.iter().iter().all(|v| *v == 0));
}

#[test]
fn update_keeps_the_maximum() {
    let mut bank = Registers::with_precision(Precision::P4);
    bank.update(3, 5);
    assert_eq!(bank.iter()[3], 5);
    bank.update(3, 2);
    assert_eq!(bank.iter()[3], 5);
    bank.update(3, 63);
    assert_eq!(bank.iter()[3], 63);
    assert!(!bank.is_empty());
    assert_eq!(bank.iter().iter().filter(|v| **v != 0).count(), 1);
}

#[test]
fn clear_resets_every_register() {
    let mut bank = Registers::with_precision(Precision::P6);
    for i in 0..64 {
        bank.update(i, (i % 63) as u8 + 1);
    }
    assert!(!bank.is_empty());
    bank.clear();
    assert!(bank.is_empty());
    assert_eq!(bank.len(), 64);
    assert_eq!(bank.precision(), Precision::P6);
}

#[test]
fn merge_takes_register_wise_maximum() {
    let mut a = Registers::with_precision(Precision::P4);
    let mut b = Registers::with_precision(Precision::P4);
    a.update(0, 4);
    a.update(1, 1);
    b.update(1, 7);
    b.update(15, 2);
    let c = a.merge_unchecked(&b);
    assert_eq!(c.iter()[0], 4);
    assert_eq!(c.iter()[1], 7);
    assert_eq!(c.iter()[15], 2);
    assert_eq!(c.iter()[2], 0);
    let d = b.merge_unchecked(&a);
    assert_eq!(c.iter(), d.iter());
    a.merge_from_unchecked(&b);
    assert_eq!(a.iter(), c.iter());
    // b is only read.
    assert_eq!(b.iter()[0], 0);
}

#[test]
fn merge_with_itself_is_unchanged() {
    let mut a = Registers::with_precision(Precision::P4);
    a.update(2, 9);
    a.update(7, 3);
    let before: Vec<u8> = a.iter().to_vec();
    let c = a.merge_unchecked(&a.clone());
    assert_eq!(c.iter(), &before[..]);
}

#[test]
fn clone_is_independent() {
    let mut a = Registers::with_precision(Precision::P4);
    a.update(1, 4);
    let mut b = a.clone();
    assert_eq!(b.iter(), a.iter());
    assert_eq!(b.precision(), Precision::P4);
    b.update(2, 6);
    assert_eq!(a.iter()[2], 0);
    assert_eq!(b.iter()[2], 6);
}
