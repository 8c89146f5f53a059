use lau_landauer_meter::BitErasureCounter;

#[test]
fn test_bit_erasure_new() {
    let b = BitErasureCounter::new();
    assert_eq!(b.total_bits_erased(), 0);
}

#[test]
fn test_bit_erasure_record() {
    let mut b = BitErasureCounter::new();
    b.record(5);
    b.record(3);
    assert_eq!(b.total_bits_erased(), 8);
}

#[test]
fn test_bit_erasure_per_update() {
    let mut b = BitErasureCounter::new();
    b.record(3);
    b.record(7);
    assert_eq!(b.per_update_bits(), &[3, 7]);
}

#[test]
fn bit_erasure_total_is_sum_of_log() {
    let mut b = BitErasureCounter::new();
    for bits in [0u64, 12, 0, 30, 1] {
        b.record(bits);
    }
    let sum: u64 = b.per_update_bits().iter().sum();
    assert_eq!(b.total_bits_erased(), sum);
    assert_eq!(b.per_update_bits(), &[0, 12, 0, 30, 1]);
}

#[test]
fn bit_erasure_default_is_empty() {
    let b = BitErasureCounter::default();
    assert_eq!(b.total_bits_erased(), 0);
    assert!(b.per_update_bits().is_empty());
}
