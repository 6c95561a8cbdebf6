use rolling_nulls::sum::SumWindow;
use rolling_nulls::window::RollingAggWindowNulls;

const VALUES: [i64; 6] = [1, 20, 300, 4000, 50000, 600000];
const VALIDITY: [bool; 6] = [true, false, true, false, false, true];

#[test]
fn construct_scans_the_window() {
    let w = SumWindow::new(&VALUES[..], &VALIDITY[..], 0, 4, None);
    assert_eq!(w.sum(), Some(301));
    assert_eq!(w.null_count(), 2);
}

#[test]
fn construct_over_empty_range_is_undefined() {
    let w = SumWindow::new(&VALUES[..], &VALIDITY[..], 2, 2, Some(3));
    assert_eq!(w.sum(), None);
    assert_eq!(w.null_count(), 0);
    assert!(w.is_valid(0));
    assert!(!w.is_valid(1));
}

#[test]
fn construct_over_nulls_is_undefined() {
    let mut w = SumWindow::new(&VALUES[..], &VALIDITY[..], 3, 5, None);
    assert_eq!(w.sum(), None);
    assert_eq!(w.null_count(), 2);
    assert!(!w.is_valid(1));
    assert!(w.is_valid(0));
    assert_eq!(w.update(3, 5), Some(0));
    assert_eq!(w.sum(), None);
}

#[test]
fn slide_takes_out_and_folds_in() {
    let mut w = SumWindow::new(&VALUES[..], &VALIDITY[..], 0, 3, None);
    assert_eq!(w.update(1, 4), Some(300));
    assert_eq!(w.null_count(), 2);
    assert_eq!(w.update(2, 6), Some(600300));
    assert_eq!(w.null_count(), 2);
    assert_eq!(w.update(5, 6), Some(600000));
    assert_eq!(w.null_count(), 0);
}

#[test]
fn slide_equals_construct() {
    let windows = [(0usize, 1usize), (0, 3), (1, 3), (1, 5), (2, 6), (5, 6), (6, 6)];
    let mut w = SumWindow::new(&VALUES[..], &VALIDITY[..], 0, 0, None);
    for (start, end) in windows {
        let slid = w.update(start, end);
        let mut fresh = SumWindow::new(&VALUES[..], &VALIDITY[..], start, end, None);
        assert_eq!(slid, fresh.update(start, end));
        assert_eq!(w.null_count(), fresh.null_count());
        if fresh.sum().is_some() {
            assert_eq!(w.sum(), fresh.sum());
        }
        for min_periods in 0..4 {
            assert_eq!(w.is_valid(min_periods), fresh.is_valid(min_periods));
        }
    }
}

#[test]
fn null_count_is_exact_after_each_slide() {
    let windows = [(0usize, 2usize), (1, 2), (1, 5), (3, 5), (3, 6), (4, 6)];
    let mut w = SumWindow::new(&VALUES[..], &VALIDITY[..], 0, 2, None);
    for (start, end) in windows {
        w.update(start, end);
        let nulls = VALIDITY[start..end].iter().filter(|v| !**v).count();
        assert_eq!(w.null_count(), nulls);
    }
}

#[test]
fn slide_without_overlap_rescans() {
    let mut w = SumWindow::new(&VALUES[..], &VALIDITY[..], 0, 2, None);
    assert_eq!(w.update(3, 5), Some(0));
    assert_eq!(w.sum(), None);
    assert_eq!(w.null_count(), 2);
    assert_eq!(w.update(5, 6), Some(600000));
    assert_eq!(w.sum(), Some(600000));
}

#[test]
fn null_leaving_an_undefined_window_rescans() {
    let mut w = SumWindow::new(&VALUES[..], &VALIDITY[..], 3, 5, None);
    assert_eq!(w.sum(), None);
    assert_eq!(w.update(4, 6), Some(600000));
    assert_eq!(w.sum(), Some(600000));
    assert_eq!(w.null_count(), 1);
}

#[test]
fn value_entering_an_undefined_window_defines_it() {
    let mut w = SumWindow::new(&VALUES[..], &VALIDITY[..], 3, 5, None);
    assert_eq!(w.update(3, 6), Some(600000));
    assert_eq!(w.sum(), Some(600000));
    assert_eq!(w.null_count(), 2);
}

#[test]
fn accumulator_stays_defined_when_the_last_value_leaves() {
    let values = [1i64, 0, 0];
    let validity = [true, false, false];
    let mut w = SumWindow::new(&values[..], &validity[..], 0, 2, None);
    assert_eq!(w.update(1, 3), Some(0));
    assert_eq!(w.sum(), Some(0));
    assert_eq!(w.null_count(), 2);
    assert!(!w.is_valid(1));
    let fresh = SumWindow::new(&values[..], &validity[..], 1, 3, None);
    assert_eq!(fresh.sum(), None);
    assert_eq!(fresh.null_count(), 2);
}

#[test]
fn validity_threshold() {
    let w = SumWindow::new(&VALUES[..], &VALIDITY[..], 0, 6, None);
    assert_eq!(w.null_count(), 3);
    assert!(w.is_valid(0));
    assert!(w.is_valid(3));
    assert!(!w.is_valid(4));
    assert!(!w.is_valid(usize::MAX));
}

#[test]
fn add_and_sub_change_a_defined_accumulator() {
    let mut w = SumWindow::new(&VALUES[..], &VALIDITY[..], 0, 1, None);
    w.add(41);
    assert_eq!(w.sum(), Some(42));
    w.sub(50);
    assert_eq!(w.sum(), Some(-8));
    assert_eq!(w.null_count(), 0);
}

#[test]
fn add_and_sub_leave_an_undefined_accumulator() {
    let mut w = SumWindow::new(&VALUES[..], &VALIDITY[..], 1, 2, None);
    w.add(5);
    assert_eq!(w.sum(), None);
    w.sub(5);
    assert_eq!(w.sum(), None);
    assert_eq!(w.null_count(), 1);
}

#[test]
fn add_and_sub_wrap() {
    let values = [i64::MAX];
    let validity = [true];
    let mut w = SumWindow::new(&values[..], &validity[..], 0, 1, None);
    w.add(1);
    assert_eq!(w.sum(), Some(i64::MIN));
    w.sub(1);
    assert_eq!(w.sum(), Some(i64::MAX));
}

#[test]
fn slide_undoes_a_wrapped_sum() {
    let values = [i64::MAX, i64::MAX, -3];
    let validity = [true, true, true];
    let mut w = SumWindow::new(&values[..], &validity[..], 0, 2, None);
    assert_eq!(w.sum(), Some(-2));
    assert_eq!(w.update(1, 3), Some(i64::MAX - 3));
}

#[test]
fn unsigned_slide_passes_below_zero_and_back() {
    // taking 200 out of the wrapped sum 44 wraps again, to the exact 100
    let values = [200u8, 100, 0];
    let validity = [true, true, false];
    let mut w = SumWindow::new(&values[..], &validity[..], 0, 2, None);
    assert_eq!(w.sum(), Some(44));
    assert_eq!(w.update(1, 3), Some(100));
    assert_eq!(w.null_count(), 1);
}
