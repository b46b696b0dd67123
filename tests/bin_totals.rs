use average::{count_and_total, total_count};

#[test]
fn total_of_no_bins_is_zero() {
    assert_eq!(total_count(&[]), 0);
}

#[test]
fn total_of_three_bins() {
    assert_eq!(total_count(&[10, 20, 70]), 100);
    assert_eq!(total_count(&[2, 6, 4]), 12);
}

#[test]
fn multinomial_bins_count_and_total() {
    let bins = [10u64, 20, 70];
    assert_eq!(count_and_total(&bins, 0), (10, 100));
    assert_eq!(count_and_total(&bins, 1), (20, 100));
    assert_eq!(count_and_total(&bins, 2), (70, 100));
}

#[test]
fn zero_total_has_empty_bins() {
    let bins = [0u64, 0, 0];
    assert_eq!(count_and_total(&bins, 1), (0, 0));
}

#[test]
fn total_beyond_a_u64() {
    let bins = [u64::MAX, u64::MAX, 1];
    let total = 2 * (u64::MAX as u128) + 1;
    assert_eq!(total_count(&bins), total);
    assert_eq!(count_and_total(&bins, 0), (u64::MAX, total));
}
