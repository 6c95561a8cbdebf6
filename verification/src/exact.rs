//! Rolling sums over the integer types: since their arithmetic is exact up to
//! reduction into the type's range, what a run of slides leaves is what a scan
//! of the last window leaves, and the reported value is the window's sum.

use crate::column::{
    count_nulls, count_valid, lemma_count_nulls_bound, lemma_count_nulls_split,
    lemma_window_sum_first, lemma_window_sum_no_valid, lemma_window_sum_split, window_sum,
};
use crate::modular::{lemma_reduce_add, lemma_reduce_in_range, reduce};
use crate::native::NativeInteger;
use crate::slides::{
    forward_windows, last_window, lemma_construct, lemma_enter, lemma_forward_windows_in_range,
    lemma_leave, lemma_slide, lemma_slides, slide_through,
};
use crate::sum::{scanned_sum, SumWindowState};
use vstd::prelude::*;

verus! {

/// The integer that the sum of the values of `[start, end)` wraps to in the
/// type `T`: the sum itself if it fits.
pub open spec fn reduced_sum<T: NativeInteger>(
    values: Seq<T>,
    validity: Seq<bool>,
    start: int,
    end: int,
) -> int {
    reduce(window_sum(values, validity, start, end), T::min_int(), T::modulus())
}

/// The state describes its window, and a defined accumulator is the sum of
/// the window's values, reduced into the type's range.
pub open spec fn holds_sum<T: NativeInteger>(s: SumWindowState<T>) -> bool {
    &&& s.describes_window()
    &&& match s.sum {
        Some(v) => v.as_int() == reduced_sum(s.values, s.validity, s.start, s.end),
        None => true,
    }
}

/// A scan adds up the values of the range, reduced into the type's range.
pub proof fn lemma_scanned_sum<T: NativeInteger>(
    values: Seq<T>,
    validity: Seq<bool>,
    start: int,
    end: int,
)
    requires
        start <= end,
    ensures
        match scanned_sum(values, validity, start, end) {
            Some(v) => count_valid(validity, start, end) > 0 && v.as_int() == reduced_sum(
                values,
                validity,
                start,
                end,
            ),
            None => count_valid(validity, start, end) == 0,
        },
    decreases end - start,
{
    if start < end {
        lemma_scanned_sum(values, validity, start, end - 1);
        lemma_count_nulls_bound(validity, start, end - 1);
        if validity[end - 1] {
            let value = values[end - 1];
            let before = window_sum(values, validity, start, end - 1);
            match scanned_sum(values, validity, start, end - 1) {
                Some(current) => {
                    T::lemma_integer(value, current);
                    lemma_reduce_add(before, value.as_int(), T::min_int(), T::modulus());
                },
                None => {
                    T::lemma_integer(value, value);
                    lemma_window_sum_no_valid(values, validity, start, end - 1);
                    lemma_reduce_in_range(value.as_int(), T::min_int(), T::modulus());
                },
            }
        }
    }
}

/// Taking positions out of a sum over `[idx, end)` leaves the sum over
/// `[stop, end)`, and is given up only where the accumulator is undefined.
proof fn lemma_leave_sum<T: NativeInteger>(s: SumWindowState<T>, idx: int, stop: int)
    requires
        s.values.len() == s.validity.len(),
        0 <= idx <= stop <= s.end <= s.values.len(),
        s.sum.is_some() ==> s.sum.unwrap().as_int() == reduced_sum(
            s.values,
            s.validity,
            idx,
            s.end,
        ),
    ensures
        ({
            let (left, rescan) = s.leave(idx, stop);
            &&& rescan ==> s.sum.is_none()
            &&& left.sum.is_some() ==> left.sum.unwrap().as_int() == reduced_sum(
                s.values,
                s.validity,
                stop,
                s.end,
            )
        }),
    decreases stop - idx,
{
    T::lemma_integer(T::zeroed_spec(), T::zeroed_spec());
    if idx < stop {
        lemma_window_sum_first(s.values, s.validity, idx, s.end);
        if s.validity[idx] {
            let leaving = s.values[idx];
            if s.sum.is_some() {
                T::lemma_integer(s.sum.unwrap(), leaving);
                lemma_reduce_add(
                    window_sum(s.values, s.validity, idx, s.end),
                    -leaving.as_int(),
                    T::min_int(),
                    T::modulus(),
                );
            }
            lemma_leave_sum(s.with_removed(leaving), idx + 1, stop);
        } else if s.sum.is_some() {
            lemma_leave_sum(SumWindowState { null_count: s.null_count - 1, ..s }, idx + 1, stop);
        }
    }
}

/// Folding positions into a sum over `[first, idx)` gives the sum over
/// `[first, stop)`.
proof fn lemma_enter_sum<T: NativeInteger>(s: SumWindowState<T>, first: int, idx: int, stop: int)
    requires
        first <= idx <= stop,
        match s.sum {
            Some(v) => v.as_int() == reduced_sum(s.values, s.validity, first, idx),
            None => count_valid(s.validity, first, idx) == 0,
        },
    ensures
        match s.enter(idx, stop).sum {
            Some(v) => v.as_int() == reduced_sum(s.values, s.validity, first, stop),
            None => count_valid(s.validity, first, stop) == 0,
        },
    decreases stop - idx,
{
    T::lemma_integer(T::zeroed_spec(), T::zeroed_spec());
    lemma_count_nulls_bound(s.validity, first, idx);
    if idx < stop {
        lemma_window_sum_split(s.values, s.validity, first, idx, idx + 1);
        lemma_count_nulls_split(s.validity, first, idx, idx + 1);
        assert(window_sum(s.values, s.validity, idx, idx) == 0);
        assert(count_nulls(s.validity, idx, idx) == 0);
        if s.validity[idx] {
            let entering = s.values[idx];
            match s.sum {
                None => {
                    T::lemma_integer(entering, entering);
                    lemma_window_sum_no_valid(s.values, s.validity, first, idx);
                    lemma_reduce_in_range(entering.as_int(), T::min_int(), T::modulus());
                    lemma_enter_sum(
                        SumWindowState { sum: Some(entering), ..s },
                        first,
                        idx + 1,
                        stop,
                    );
                },
                Some(v) => {
                    T::lemma_integer(v, entering);
                    lemma_reduce_add(
                        window_sum(s.values, s.validity, first, idx),
                        entering.as_int(),
                        T::min_int(),
                        T::modulus(),
                    );
                    lemma_enter_sum(s.with_added(entering), first, idx + 1, stop);
                },
            }
        } else {
            lemma_enter_sum(
                SumWindowState { null_count: s.null_count + 1, ..s },
                first,
                idx + 1,
                stop,
            );
        }
    }
}

/// A state that holds the sum of its window reports that sum, reduced into
/// the type's range: zero for a window without values, and the sum itself
/// whenever it fits.
pub proof fn lemma_value_is_sum<T: NativeInteger>(s: SumWindowState<T>)
    requires
        holds_sum(s),
    ensures
        s.value().as_int() == reduced_sum(s.values, s.validity, s.start, s.end),
        count_valid(s.validity, s.start, s.end) == 0 ==> s.value().as_int() == 0,
        T::min_int() <= window_sum(s.values, s.validity, s.start, s.end) < T::min_int()
            + T::modulus() ==> s.value().as_int() == window_sum(
            s.values,
            s.validity,
            s.start,
            s.end,
        ),
{
    let total = window_sum(s.values, s.validity, s.start, s.end);
    T::lemma_integer(T::zeroed_spec(), T::zeroed_spec());
    lemma_count_nulls_bound(s.validity, s.start, s.end);
    if count_valid(s.validity, s.start, s.end) == 0 {
        lemma_window_sum_no_valid(s.values, s.validity, s.start, s.end);
    }
    if T::min_int() <= total < T::min_int() + T::modulus() {
        lemma_reduce_in_range(total, T::min_int(), T::modulus());
    }
}

/// A full scan of a range within the column gives a state that holds the
/// range's sum.
pub proof fn lemma_construct_holds_sum<T: NativeInteger>(
    values: Seq<T>,
    validity: Seq<bool>,
    start: int,
    end: int,
)
    requires
        values.len() == validity.len(),
        0 <= start <= end <= values.len(),
    ensures
        holds_sum(SumWindowState::construct(values, validity, start, end)),
{
    lemma_construct(values, validity, start, end);
    lemma_scanned_sum(values, validity, start, end);
}

/// One slide and a full scan of the same window agree on the null count, on
/// validity at every threshold and on the reported value, which is the sum of
/// the window's values reduced into the type's range; and on the accumulator
/// too whenever the window holds a value. Over a window without values the
/// scan leaves the accumulator undefined, while the slide keeps a defined
/// accumulator, then zero, if it was defined before and the two windows
/// overlap.
pub proof fn lemma_slide_matches_scan<T: NativeInteger>(
    s: SumWindowState<T>,
    start: int,
    end: int,
)
    requires
        holds_sum(s),
        s.start <= start <= end <= s.values.len(),
        s.end <= end,
    ensures
        ({
            let slid = s.slide(start, end);
            let fresh = SumWindowState::construct(s.values, s.validity, start, end);
            &&& holds_sum(slid)
            &&& slid.null_count == fresh.null_count
            &&& slid.value() == fresh.value()
            &&& slid.value().as_int() == reduced_sum(s.values, s.validity, start, end)
            &&& forall|min_periods: int| slid.is_valid(min_periods) == fresh.is_valid(min_periods)
            &&& count_valid(s.validity, start, end) > 0 ==> slid.sum == fresh.sum
            &&& slid.sum.is_some() <==> fresh.sum.is_some() || (s.sum.is_some() && start < s.end)
        }),
{
    let slid = s.slide(start, end);
    let fresh = SumWindowState::construct(s.values, s.validity, start, end);
    lemma_slide(s, start, end);
    lemma_construct_holds_sum(s.values, s.validity, start, end);
    lemma_scanned_sum(s.values, s.validity, start, end);
    lemma_count_nulls_bound(s.validity, start, end);
    if start < s.end {
        lemma_leave(s, s.start, start);
        lemma_leave_sum(s, s.start, start);
        let (left, rescan) = s.leave(s.start, start);
        if !rescan {
            let moved = SumWindowState { start, ..left };
            lemma_count_nulls_split(s.validity, s.start, start, s.end);
            lemma_count_nulls_split(s.validity, start, s.end, end);
            lemma_count_nulls_bound(s.validity, s.start, start);
            lemma_count_nulls_bound(s.validity, start, s.end);
            lemma_count_nulls_bound(s.validity, s.end, end);
            lemma_enter(moved, start, s.end, end);
            lemma_enter_sum(moved, start, s.end, end);
        }
    }
    assert(holds_sum(slid));
    lemma_value_is_sum(slid);
    lemma_value_is_sum(fresh);
    T::lemma_integer(slid.value(), fresh.value());
}

/// Sliding into a window entirely made of nulls reports zero, as a scan of it
/// does.
pub proof fn lemma_all_null_window_is_zero<T: NativeInteger>(
    s: SumWindowState<T>,
    start: int,
    end: int,
)
    requires
        holds_sum(s),
        s.start <= start <= end <= s.values.len(),
        s.end <= end,
        forall|i: int| start <= i < end ==> !s.validity[i],
    ensures
        s.slide(start, end).value() == T::zeroed_spec(),
        SumWindowState::construct(s.values, s.validity, start, end).value() == T::zeroed_spec(),
{
    lemma_slide_matches_scan(s, start, end);
    lemma_construct(s.values, s.validity, start, end);
}

/// Every state of a run of forward slides holds the sum of its window.
pub proof fn lemma_slides_hold_sum<T: NativeInteger>(s: SumWindowState<T>, rest: Seq<(int, int)>)
    requires
        holds_sum(s),
        forward_windows((s.start, s.end), rest, s.values.len() as int),
    ensures
        holds_sum(slide_through(s, rest)),
    decreases rest.len(),
{
    if rest.len() > 0 {
        lemma_forward_windows_in_range((s.start, s.end), rest, s.values.len() as int, 0);
        lemma_slide_matches_scan(s, rest[0].0, rest[0].1);
        lemma_slide(s, rest[0].0, rest[0].1);
        lemma_slides_hold_sum(s.slide(rest[0].0, rest[0].1), rest.drop_first());
    }
}

/// A run of forward slides from a scanned window agrees with a full scan of
/// the last window: on the null count, on validity at every threshold, on the
/// reported value, and on the accumulator wherever the last window holds a
/// value.
pub proof fn lemma_slides_match_scan<T: NativeInteger>(
    values: Seq<T>,
    validity: Seq<bool>,
    first: (int, int),
    rest: Seq<(int, int)>,
)
    requires
        values.len() == validity.len(),
        forward_windows(first, rest, values.len() as int),
    ensures
        ({
            let last = last_window(first, rest);
            let slid = slide_through(
                SumWindowState::construct(values, validity, first.0, first.1),
                rest,
            );
            let fresh = SumWindowState::construct(values, validity, last.0, last.1);
            &&& holds_sum(slid)
            &&& slid.null_count == fresh.null_count
            &&& slid.value() == fresh.value()
            &&& slid.value().as_int() == reduced_sum(values, validity, last.0, last.1)
            &&& forall|min_periods: int| slid.is_valid(min_periods) == fresh.is_valid(min_periods)
            &&& count_valid(validity, last.0, last.1) > 0 ==> slid.sum == fresh.sum
            &&& fresh.sum.is_some() ==> slid.sum.is_some()
        }),
{
    let s = SumWindowState::construct(values, validity, first.0, first.1);
    let last = last_window(first, rest);
    let slid = slide_through(s, rest);
    let fresh = SumWindowState::construct(values, validity, last.0, last.1);
    lemma_construct_holds_sum(values, validity, first.0, first.1);
    lemma_slides_hold_sum(s, rest);
    lemma_slides(s, rest);
    lemma_construct_holds_sum(values, validity, last.0, last.1);
    lemma_scanned_sum(values, validity, last.0, last.1);
    lemma_value_is_sum(slid);
    lemma_value_is_sum(fresh);
    T::lemma_integer(slid.value(), fresh.value());
    if count_valid(validity, last.0, last.1) > 0 {
        T::lemma_integer(slid.sum.unwrap(), fresh.sum.unwrap());
    }
}

} // verus!
