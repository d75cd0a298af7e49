use flappy_bevy::difficulty::{drift_limit, gap_bounds};

#[test]
fn first_pair_gap_is_three_to_five_diameters() {
    assert_eq!(gap_bounds(1350, 0), (4050, 6750));
    assert_eq!(gap_bounds(1000, 0), (3000, 5000));
    // A diameter that is no multiple of ten units still gives whole multiples.
    assert_eq!(gap_bounds(7, 0), (21, 35));
}

#[test]
fn gap_bounds_follow_the_formula() {
    // floor = ceil(1.1 * 1350) = 1485; 19 * 1350 / 20 = 1282; 39 * 1350 / 20 = 2632.
    assert_eq!(gap_bounds(1350, 10), (2767, 4117));
    // floor = ceil(1.1 * 1003) = 1104; 19 * 1003 / 13 = 1465; 39 * 1003 / 13 = 3009.
    assert_eq!(gap_bounds(1003, 3), (2569, 4113));
}

#[test]
fn gap_bounds_end_at_the_floor() {
    assert_eq!(gap_bounds(1350, u64::MAX), (1485, 1485));
    assert_eq!(gap_bounds(1003, u64::MAX), (1104, 1104));
    assert_eq!(gap_bounds(0, 5), (0, 0));
    assert_eq!(gap_bounds(5_000_000, 0), (15_000_000, 25_000_000));
}

#[test]
fn gap_never_falls_below_the_floor() {
    for diameter in [1i64, 9, 10, 11, 999, 1350, 5_000_000] {
        for index in [0u64, 1, 2, 9, 10, 11, 100, 12_345, u64::MAX - 10, u64::MAX] {
            let (low, high) = gap_bounds(diameter, index);
            assert!(10 * low >= 11 * diameter, "{} {}", diameter, index);
            assert!(low <= high, "{} {}", diameter, index);
        }
    }
}

#[test]
fn gaps_never_widen_with_the_index() {
    let mut last = gap_bounds(1350, 0);
    for index in 1..2000u64 {
        let next = gap_bounds(1350, index);
        assert!(next.0 <= last.0, "{}", index);
        assert!(next.1 <= last.1, "{}", index);
        last = next;
    }
}

#[test]
fn drift_limit_follows_the_formula() {
    assert_eq!(drift_limit(6000, 0), 0);
    assert_eq!(drift_limit(6000, 1), 545);
    assert_eq!(drift_limit(6000, 10), 3000);
    assert_eq!(drift_limit(6000, 90), 5400);
    assert_eq!(drift_limit(6000, u64::MAX), 5999);
    assert_eq!(drift_limit(0, 7), 0);
    assert_eq!(drift_limit(1_000_000_000, u64::MAX), 999_999_999);
}

#[test]
fn drift_never_shrinks_with_the_index() {
    let mut last = drift_limit(6001, 0);
    for index in 1..2000u64 {
        let next = drift_limit(6001, index);
        assert!(next >= last, "{}", index);
        assert!(next < 6001);
        last = next;
    }
}
