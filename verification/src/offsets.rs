//! Where the window of each output position lies: trailing windows end at the
//! position, centered windows lie around it.

use vstd::prelude::*;

verus! {

/// The trailing window of position `i`: the `window_size` positions that end
/// with `i`, cut off at the column's first position.
pub open spec fn trailing_bounds(i: int, window_size: int) -> (int, int) {
    (
        if i + 1 >= window_size {
            i + 1 - window_size
        } else {
            0
        },
        i + 1,
    )
}

/// The centered window of position `i`: `window_size` positions around `i`,
/// the larger half of them from `i` on, cut off at both ends of the column.
pub open spec fn centered_bounds(i: int, window_size: int, len: int) -> (int, int) {
    let right = (window_size + 1) / 2;
    let left = window_size - right;
    (
        if i >= left {
            i - left
        } else {
            0
        },
        if i + right <= len {
            i + right
        } else {
            len
        },
    )
}

/// The window of position `i` in a column of `len` positions.
pub open spec fn window_bounds(i: int, window_size: int, len: int, center: bool) -> (int, int) {
    if center {
        centered_bounds(i, window_size, len)
    } else {
        trailing_bounds(i, window_size)
    }
}

/// Bounds of the trailing window of position `i`.
pub fn det_offsets(i: usize, window_size: usize, len: usize) -> (r: (usize, usize))
    requires
        i < len,
        window_size >= 1,
    ensures
        (r.0 as int, r.1 as int) == trailing_bounds(i as int, window_size as int),
{
    (i.saturating_sub(window_size - 1), i + 1)
}

/// Bounds of the centered window of position `i`.
pub fn det_offsets_center(i: usize, window_size: usize, len: usize) -> (r: (usize, usize))
    requires
        i < len,
    ensures
        (r.0 as int, r.1 as int) == centered_bounds(i as int, window_size as int, len as int),
{
    let right_window = window_size / 2 + window_size % 2;
    let end = if right_window < len - i {
        i + right_window
    } else {
        len
    };
    (i.saturating_sub(window_size - right_window), end)
}

/// Every window lies within the column.
pub proof fn lemma_window_bounds_in_range(i: int, window_size: int, len: int, center: bool)
    requires
        0 <= i < len,
        0 <= window_size,
    ensures
        0 <= window_bounds(i, window_size, len, center).0 <= window_bounds(
            i,
            window_size,
            len,
            center,
        ).1 <= len,
{
}

/// From one position to a later one, neither bound of the window moves back.
pub proof fn lemma_window_bounds_monotonic(
    i: int,
    j: int,
    window_size: int,
    len: int,
    center: bool,
)
    requires
        0 <= i <= j < len,
        0 <= window_size,
    ensures
        window_bounds(i, window_size, len, center).0 <= window_bounds(
            j,
            window_size,
            len,
            center,
        ).0,
        window_bounds(i, window_size, len, center).1 <= window_bounds(
            j,
            window_size,
            len,
            center,
        ).1,
{
}

} // verus!
