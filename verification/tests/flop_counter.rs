use lau_landauer_meter::FlopCounter;

#[test]
fn test_flop_counter_new() {
    let c = FlopCounter::new();
    assert_eq!(c.total_flops(), 0);
    assert_eq!(c.update_count(), 0);
}

#[test]
fn test_flop_counter_record() {
    let mut c = FlopCounter::new();
    c.record(100);
    assert_eq!(c.total_flops(), 100);
    assert_eq!(c.update_count(), 1);
    c.record(200);
    assert_eq!(c.total_flops(), 300);
    assert_eq!(c.update_count(), 2);
}

#[test]
fn test_flop_counter_matmul() {
    let mut c = FlopCounter::new();
    c.record_matmul(2, 3, 4); // 2*3*4*2 = 48
    assert_eq!(c.total_flops(), 48);
}

#[test]
fn test_flop_counter_dot() {
    let mut c = FlopCounter::new();
    c.record_dot(5); // 2*5 = 10
    assert_eq!(c.total_flops(), 10);
}

#[test]
fn test_flop_counter_matrix_inverse() {
    let mut c = FlopCounter::new();
    c.record_matrix_inverse(3); // 2/3 * 27 = 18
    assert_eq!(c.total_flops(), 18);
}

#[test]
fn test_flop_counter_cholesky() {
    let mut c = FlopCounter::new();
    c.record_cholesky(3); // 27/3 = 9
    assert_eq!(c.total_flops(), 9);
}

#[test]
fn flop_counter_readme_example_totals() {
    let mut c = FlopCounter::new();
    c.record_matmul(128, 64, 256);
    assert_eq!(c.per_update(), &[4_194_304]);
    c.record_matrix_inverse(100);
    c.record_cholesky(50);
    assert_eq!(c.per_update(), &[4_194_304, 666_666, 41_666]);
    assert_eq!(c.total_flops(), 4_194_304 + 666_666 + 41_666);
    assert_eq!(c.update_count(), 3);
}

#[test]
fn flop_counter_gradient_counts_dimension() {
    let mut c = FlopCounter::new();
    c.record_gradient(7);
    c.record_gradient(0);
    assert_eq!(c.per_update(), &[7, 0]);
    assert_eq!(c.total_flops(), 7);
    assert_eq!(c.update_count(), 2);
}

#[test]
fn flop_counter_cubic_costs_round_down() {
    let mut c = FlopCounter::new();
    c.record_matrix_inverse(0);
    c.record_matrix_inverse(1);
    c.record_matrix_inverse(2);
    c.record_cholesky(1);
    c.record_cholesky(2);
    c.record_cholesky(4);
    // 0, ⌊2/3⌋, ⌊16/3⌋, ⌊1/3⌋, ⌊8/3⌋, ⌊64/3⌋
    assert_eq!(c.per_update(), &[0, 0, 5, 0, 2, 21]);
}

#[test]
fn flop_counter_cubic_costs_saturate() {
    let mut c = FlopCounter::new();
    c.record_matrix_inverse(10_000_000);
    assert_eq!(c.total_flops(), u64::MAX);
    let mut d = FlopCounter::new();
    d.record_cholesky(10_000_000);
    assert_eq!(d.total_flops(), u64::MAX);
}

#[test]
fn flop_counter_matmul_with_zero_dimension() {
    let mut c = FlopCounter::new();
    c.record_matmul(5, 0, 9);
    c.record_matmul(3, 4, 0);
    assert_eq!(c.per_update(), &[0, 0]);
    assert_eq!(c.update_count(), 2);
}

#[test]
fn flop_counter_total_is_sum_of_log() {
    let mut c = FlopCounter::new();
    for f in [3u64, 1, 4, 1, 5, 9, 2, 6] {
        c.record(f);
    }
    let sum: u64 = c.per_update().iter().sum();
    assert_eq!(c.total_flops(), sum);
    assert_eq!(c.update_count() as usize, c.per_update().len());
    assert_eq!(c.per_update(), &[3, 1, 4, 1, 5, 9, 2, 6]);
}

#[test]
fn flop_counter_default_is_empty() {
    let c = FlopCounter::default();
    assert_eq!(c.total_flops(), 0);
    assert_eq!(c.update_count(), 0);
    assert!(c.per_update().is_empty());
}
