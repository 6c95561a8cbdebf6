use rolling_nulls::offsets::{det_offsets, det_offsets_center};

#[test]
fn trailing_windows_end_at_the_position() {
    let bounds: Vec<(usize, usize)> = (0..5).map(|i| det_offsets(i, 3, 5)).collect();
    assert_eq!(bounds, vec![(0, 1), (0, 2), (0, 3), (1, 4), (2, 5)]);
}

#[test]
fn trailing_window_of_one() {
    let bounds: Vec<(usize, usize)> = (0..3).map(|i| det_offsets(i, 1, 3)).collect();
    assert_eq!(bounds, vec![(0, 1), (1, 2), (2, 3)]);
}

#[test]
fn trailing_window_wider_than_any_column() {
    assert_eq!(det_offsets(4, usize::MAX, 5), (0, 5));
}

#[test]
fn centered_windows_odd_size() {
    let bounds: Vec<(usize, usize)> = (0..5).map(|i| det_offsets_center(i, 3, 5)).collect();
    assert_eq!(bounds, vec![(0, 2), (0, 3), (1, 4), (2, 5), (3, 5)]);
}

#[test]
fn centered_windows_even_size() {
    let bounds: Vec<(usize, usize)> = (0..5).map(|i| det_offsets_center(i, 4, 5)).collect();
    assert_eq!(bounds, vec![(0, 2), (0, 3), (0, 4), (1, 5), (2, 5)]);
}

#[test]
fn centered_window_of_size_zero() {
    assert_eq!(det_offsets_center(2, 0, 5), (2, 2));
}

#[test]
fn centered_window_wider_than_any_column() {
    assert_eq!(det_offsets_center(3, usize::MAX, 5), (0, 5));
    assert_eq!(
        det_offsets_center(usize::MAX - 1, usize::MAX, usize::MAX),
        (usize::MAX / 2, usize::MAX)
    );
}

#[test]
fn bounds_never_move_back() {
    for center in [false, true] {
        for window_size in 1..8 {
            let mut last = (0, 0);
            for i in 0..6 {
                let (start, end) = if center {
                    det_offsets_center(i, window_size, 6)
                } else {
                    det_offsets(i, window_size, 6)
                };
                assert!(start <= end && end <= 6);
                assert!(last.0 <= start && last.1 <= end);
                last = (start, end);
            }
        }
    }
}
