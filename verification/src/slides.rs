//! What sliding does to a window state of any numeric type: the bookkeeping
//! stays exact, an accumulator is defined wherever the window holds a value,
//! a value that is not finite never has to be subtracted, and a slide that
//! takes a scan leaves what building the state anew leaves.

use crate::column::{
    count_nulls, count_valid, lemma_count_nulls_bound, lemma_count_nulls_first,
    lemma_count_nulls_split, lemma_count_valid_zero,
};
use crate::native::NativeType;
use crate::sum::{scanned_sum, SumWindowState};
use vstd::prelude::*;

verus! {

/// A scan leaves the accumulator defined exactly when the range holds a value.
pub proof fn lemma_scanned_sum_defined<T: NativeType>(
    values: Seq<T>,
    validity: Seq<bool>,
    start: int,
    end: int,
)
    requires
        start <= end,
    ensures
        scanned_sum(values, validity, start, end).is_some() <==> count_valid(validity, start, end)
            > 0,
    decreases end - start,
{
    if start < end {
        lemma_scanned_sum_defined(values, validity, start, end - 1);
        lemma_count_nulls_bound(validity, start, end - 1);
    }
}

/// Taking the positions `[idx, stop)` out of a state whose null count is that
/// of `[idx, end)` leaves the column and the bounds alone; unless it is given
/// up, the null count becomes that of `[stop, end)` and the accumulator stays
/// as defined or undefined as it was. It is given up only at a value that is
/// not finite, or at a null while the accumulator is undefined.
pub proof fn lemma_leave<T: NativeType>(s: SumWindowState<T>, idx: int, stop: int)
    requires
        s.values.len() == s.validity.len(),
        0 <= idx <= stop <= s.end <= s.values.len(),
        s.null_count == count_nulls(s.validity, idx, s.end),
    ensures
        ({
            let (left, rescan) = s.leave(idx, stop);
            &&& left.values == s.values
            &&& left.validity == s.validity
            &&& left.start == s.start
            &&& left.end == s.end
            &&& left.sum.is_some() == s.sum.is_some()
            &&& !rescan ==> left.null_count == count_nulls(s.validity, stop, s.end)
            &&& rescan ==> {
                ||| s.sum.is_none() && exists|i: int| idx <= i < stop && !s.validity[i]
                ||| T::is_float_spec() && exists|i: int|
                    idx <= i < stop && s.validity[i] && !s.values[i].is_finite_spec()
            }
        }),
    decreases stop - idx,
{
    if idx < stop {
        lemma_count_nulls_first(s.validity, idx, s.end);
        if s.validity[idx] {
            if T::is_float_spec() && !s.values[idx].is_finite_spec() {
                assert(idx <= idx < stop && s.validity[idx] && !s.values[idx].is_finite_spec());
            } else {
                let next = s.with_removed(s.values[idx]);
                lemma_leave(next, idx + 1, stop);
                let (left, rescan) = next.leave(idx + 1, stop);
                if rescan {
                    if next.sum.is_none() && exists|i: int| idx + 1 <= i < stop && !s.validity[i] {
                        let i = choose|i: int| idx + 1 <= i < stop && !s.validity[i];
                        assert(idx <= i < stop && !s.validity[i]);
                    } else {
                        let i = choose|i: int|
                            idx + 1 <= i < stop && s.validity[i] && !s.values[i].is_finite_spec();
                        assert(idx <= i < stop && s.validity[i] && !s.values[i].is_finite_spec());
                    }
                }
            }
        } else {
            let less = SumWindowState { null_count: s.null_count - 1, ..s };
            if s.sum.is_none() {
                assert(idx <= idx < stop && !s.validity[idx]);
            } else {
                lemma_leave(less, idx + 1, stop);
                let (left, rescan) = less.leave(idx + 1, stop);
                if rescan {
                    let i = choose|i: int|
                        idx + 1 <= i < stop && s.validity[i] && !s.values[i].is_finite_spec();
                    assert(idx <= i < stop && s.validity[i] && !s.values[i].is_finite_spec());
                }
            }
        }
    }
}

/// Taking positions out leaves the column and the bounds alone, however it
/// ends.
pub proof fn lemma_leave_keeps_column<T: NativeType>(s: SumWindowState<T>, idx: int, stop: int)
    ensures
        s.leave(idx, stop).0.values == s.values,
        s.leave(idx, stop).0.validity == s.validity,
        s.leave(idx, stop).0.start == s.start,
        s.leave(idx, stop).0.end == s.end,
    decreases stop - idx,
{
    if idx < stop {
        if s.validity[idx] {
            if !(T::is_float_spec() && !s.values[idx].is_finite_spec()) {
                lemma_leave_keeps_column(s.with_removed(s.values[idx]), idx + 1, stop);
            }
        } else if s.sum.is_some() {
            lemma_leave_keeps_column(
                SumWindowState { null_count: s.null_count - 1, ..s },
                idx + 1,
                stop,
            );
        }
    }
}

/// Taking positions out of a state with an undefined accumulator is given up
/// whenever one of them is null.
pub proof fn lemma_leave_undefined<T: NativeType>(
    s: SumWindowState<T>,
    idx: int,
    stop: int,
    at: int,
)
    requires
        s.sum.is_none(),
        idx <= at < stop,
        !s.validity[at],
    ensures
        s.leave(idx, stop).1,
    decreases stop - idx,
{
    if idx < at && s.validity[idx] {
        if !(T::is_float_spec() && !s.values[idx].is_finite_spec()) {
            lemma_leave_undefined(s.with_removed(s.values[idx]), idx + 1, stop, at);
        }
    }
}

/// Taking positions out is given up whenever one of them holds a
/// floating-point value that is not finite.
pub proof fn lemma_leave_not_finite<T: NativeType>(
    s: SumWindowState<T>,
    idx: int,
    stop: int,
    at: int,
)
    requires
        T::is_float_spec(),
        idx <= at < stop,
        s.validity[at],
        !s.values[at].is_finite_spec(),
    ensures
        s.leave(idx, stop).1,
        s.leave(idx, stop).0.values == s.values,
        s.leave(idx, stop).0.validity == s.validity,
    decreases stop - idx,
{
    if idx < at {
        if s.validity[idx] {
            if !s.values[idx].is_finite_spec() {
            } else {
                lemma_leave_not_finite(s.with_removed(s.values[idx]), idx + 1, stop, at);
            }
        } else if s.sum.is_some() {
            lemma_leave_not_finite(
                SumWindowState { null_count: s.null_count - 1, ..s },
                idx + 1,
                stop,
                at,
            );
        }
    }
}

/// Folding the positions `[idx, stop)` into a state whose null count is that
/// of `[first, idx)` leaves the column and the bounds alone, makes the null
/// count that of `[first, stop)`, and defines the accumulator if one of the
/// positions holds a value.
pub proof fn lemma_enter<T: NativeType>(s: SumWindowState<T>, first: int, idx: int, stop: int)
    requires
        first <= idx <= stop,
        s.null_count == count_nulls(s.validity, first, idx),
    ensures
        ({
            let filled = s.enter(idx, stop);
            &&& filled.values == s.values
            &&& filled.validity == s.validity
            &&& filled.start == s.start
            &&& filled.end == s.end
            &&& filled.null_count == count_nulls(s.validity, first, stop)
            &&& filled.sum.is_some() <==> s.sum.is_some() || count_valid(s.validity, idx, stop) > 0
        }),
    decreases stop - idx,
{
    if idx < stop {
        lemma_count_nulls_split(s.validity, first, idx, idx + 1);
        lemma_count_nulls_split(s.validity, idx, idx + 1, stop);
        lemma_count_nulls_bound(s.validity, idx + 1, stop);
        assert(count_nulls(s.validity, idx, idx) == 0);
        let next = if s.validity[idx] {
            match s.sum {
                None => SumWindowState { sum: Some(s.values[idx]), ..s },
                Some(_) => s.with_added(s.values[idx]),
            }
        } else {
            SumWindowState { null_count: s.null_count + 1, ..s }
        };
        lemma_enter(next, first, idx + 1, stop);
    }
}

impl<T: NativeType> SumWindowState<T> {
    /// The state describes its window: it is well formed, and its accumulator
    /// is defined if the window holds a value.
    pub open spec fn describes_window(self) -> bool {
        &&& self.well_formed()
        &&& count_valid(self.validity, self.start, self.end) > 0 ==> self.sum.is_some()
    }
}

/// A full scan of a range within the column gives a state that describes it,
/// with the accumulator undefined exactly when every position of the range is
/// null.
pub proof fn lemma_construct<T: NativeType>(
    values: Seq<T>,
    validity: Seq<bool>,
    start: int,
    end: int,
)
    requires
        values.len() == validity.len(),
        0 <= start <= end <= values.len(),
    ensures
        SumWindowState::construct(values, validity, start, end).describes_window(),
        SumWindowState::construct(values, validity, start, end).sum.is_none() <==> forall|i: int|
            start <= i < end ==> !validity[i],
{
    lemma_scanned_sum_defined(values, validity, start, end);
    lemma_count_valid_zero(validity, start, end);
    lemma_count_nulls_bound(validity, start, end);
}

/// Moving a window forward keeps the state describing its window: after the
/// slide the recorded null count is the number of unset validity bits in the
/// new window, whichever way the slide went.
pub proof fn lemma_slide<T: NativeType>(s: SumWindowState<T>, start: int, end: int)
    requires
        s.well_formed(),
        s.start <= start <= end <= s.values.len(),
        s.end <= end,
    ensures
        ({
            let slid = s.slide(start, end);
            &&& slid.well_formed()
            &&& slid.values == s.values
            &&& slid.validity == s.validity
            &&& slid.start == start
            &&& slid.end == end
            &&& slid.null_count == count_nulls(s.validity, start, end)
            &&& s.describes_window() ==> slid.describes_window()
        }),
{
    lemma_scanned_sum_defined(s.values, s.validity, start, end);
    if start < s.end {
        lemma_leave(s, s.start, start);
        let (left, rescan) = s.leave(s.start, start);
        if !rescan {
            let moved = SumWindowState { start, ..left };
            lemma_enter(moved, start, s.end, end);
            lemma_count_nulls_split(s.validity, s.start, start, s.end);
            lemma_count_nulls_split(s.validity, start, s.end, end);
            lemma_count_nulls_bound(s.validity, s.start, start);
            lemma_count_nulls_bound(s.validity, start, s.end);
            lemma_count_nulls_bound(s.validity, s.end, end);
        }
    }
}

/// A slide that takes a scan keeps nothing of the old state: it leaves
/// exactly what building the state over the new window leaves, the
/// compensation term at zero included.
pub proof fn lemma_slide_rescan<T: NativeType>(s: SumWindowState<T>, start: int, end: int)
    requires
        s.rescans(start),
    ensures
        s.slide(start, end) == SumWindowState::construct(s.values, s.validity, start, end),
{
    if start < s.end {
        lemma_leave_keeps_column(s, s.start, start);
    }
}

/// A slide takes a scan exactly where the windows do not overlap, where a
/// floating-point value that is not finite leaves, or where a null leaves
/// while the accumulator is undefined.
pub proof fn lemma_rescans<T: NativeType>(s: SumWindowState<T>, start: int)
    requires
        s.well_formed(),
        s.start <= start <= s.values.len(),
    ensures
        s.rescans(start) <==> {
            ||| start >= s.end
            ||| T::is_float_spec() && exists|i: int|
                s.start <= i < start && s.validity[i] && !s.values[i].is_finite_spec()
            ||| s.sum.is_none() && exists|i: int| s.start <= i < start && !s.validity[i]
        },
{
    if start < s.end {
        lemma_leave(s, s.start, start);
        if T::is_float_spec() && exists|i: int|
            s.start <= i < start && s.validity[i] && !s.values[i].is_finite_spec() {
            let at = choose|i: int|
                s.start <= i < start && s.validity[i] && !s.values[i].is_finite_spec();
            lemma_leave_not_finite(s, s.start, start, at);
        }
        if s.sum.is_none() && exists|i: int| s.start <= i < start && !s.validity[i] {
            let at = choose|i: int| s.start <= i < start && !s.validity[i];
            lemma_leave_undefined(s, s.start, start, at);
        }
    }
}

/// A floating-point value that is not finite and leaves the window is never
/// subtracted: the new window is scanned in full, and the state is the one
/// that building it over the new window gives.
pub proof fn lemma_slide_not_finite_leaving<T: NativeType>(
    s: SumWindowState<T>,
    start: int,
    end: int,
    at: int,
)
    requires
        T::is_float_spec(),
        s.start <= at < start,
        s.validity[at],
        !s.values[at].is_finite_spec(),
    ensures
        s.rescans(start),
        s.slide(start, end) == SumWindowState::construct(s.values, s.validity, start, end),
        s.slide(start, end).sum == scanned_sum(s.values, s.validity, start, end),
        s.slide(start, end).null_count == count_nulls(s.validity, start, end),
        s.slide(start, end).err == T::zeroed_spec(),
{
    if start < s.end {
        lemma_leave_not_finite(s, s.start, start, at);
    }
    lemma_slide_rescan(s, start, end);
}

/// Each window lies within a column of `len` positions, and from `first` on
/// neither bound ever moves back.
pub open spec fn forward_windows(first: (int, int), rest: Seq<(int, int)>, len: int) -> bool
    decreases rest.len(),
{
    &&& 0 <= first.0 <= first.1 <= len
    &&& rest.len() > 0 ==> {
        &&& first.0 <= rest[0].0
        &&& first.1 <= rest[0].1
        &&& forward_windows(rest[0], rest.drop_first(), len)
    }
}

/// Every window of a forward run lies within the column, at or after the
/// first one.
pub proof fn lemma_forward_windows_in_range(
    first: (int, int),
    rest: Seq<(int, int)>,
    len: int,
    i: int,
)
    requires
        forward_windows(first, rest, len),
        0 <= i < rest.len(),
    ensures
        first.0 <= rest[i].0 <= rest[i].1 <= len,
        first.1 <= rest[i].1,
    decreases rest.len(),
{
    assert(forward_windows(rest[0], rest.drop_first(), len));
    if i > 0 {
        lemma_forward_windows_in_range(rest[0], rest.drop_first(), len, i - 1);
        assert(rest.drop_first()[i - 1] == rest[i]);
    }
}

/// The last of the windows `first, rest[0], rest[1], ...`.
pub open spec fn last_window(first: (int, int), rest: Seq<(int, int)>) -> (int, int) {
    if rest.len() == 0 {
        first
    } else {
        rest.last()
    }
}

/// The state after sliding `s` to each of `windows` in turn.
pub open spec fn slide_through<T: NativeType>(
    s: SumWindowState<T>,
    windows: Seq<(int, int)>,
) -> SumWindowState<T>
    decreases windows.len(),
{
    if windows.len() == 0 {
        s
    } else {
        slide_through(s.slide(windows[0].0, windows[0].1), windows.drop_first())
    }
}

/// After any run of forward slides the state describes the last window: its
/// null count is the number of unset validity bits there, and its accumulator
/// is defined if the window holds a value.
pub proof fn lemma_slides<T: NativeType>(s: SumWindowState<T>, rest: Seq<(int, int)>)
    requires
        s.describes_window(),
        forward_windows((s.start, s.end), rest, s.values.len() as int),
    ensures
        ({
            let last = last_window((s.start, s.end), rest);
            let slid = slide_through(s, rest);
            &&& slid.describes_window()
            &&& slid.values == s.values
            &&& slid.validity == s.validity
            &&& (slid.start, slid.end) == last
            &&& slid.null_count == count_nulls(s.validity, last.0, last.1)
        }),
    decreases rest.len(),
{
    if rest.len() > 0 {
        lemma_forward_windows_in_range((s.start, s.end), rest, s.values.len() as int, 0);
        lemma_slide(s, rest[0].0, rest[0].1);
        lemma_slides(s.slide(rest[0].0, rest[0].1), rest.drop_first());
        if rest.len() > 1 {
            assert(rest.drop_first().last() == rest.last());
        }
    }
}

/// A window entirely made of nulls: a scan leaves the accumulator undefined
/// and reports zero, and whether scanned or slid into, the state is valid at
/// no threshold above zero.
pub proof fn lemma_all_null_window<T: NativeType>(s: SumWindowState<T>, start: int, end: int)
    requires
        s.well_formed(),
        s.start <= start <= end <= s.values.len(),
        s.end <= end,
        forall|i: int| start <= i < end ==> !s.validity[i],
    ensures
        ({
            let slid = s.slide(start, end);
            let fresh = SumWindowState::construct(s.values, s.validity, start, end);
            &&& fresh.sum.is_none()
            &&& fresh.value() == T::zeroed_spec()
            &&& forall|min_periods: int|
                min_periods >= 1 ==> !fresh.is_valid(min_periods) && !slid.is_valid(min_periods)
        }),
{
    lemma_construct(s.values, s.validity, start, end);
    lemma_slide(s, start, end);
    lemma_count_valid_zero(s.validity, start, end);
}

/// A well-formed state is valid at `min_periods` exactly when its window
/// holds at least that many values; at zero it always is.
pub proof fn lemma_validity_threshold<T: NativeType>(s: SumWindowState<T>, min_periods: int)
    requires
        s.well_formed(),
    ensures
        s.is_valid(min_periods) <==> (s.end - s.start) - count_nulls(s.validity, s.start, s.end)
            >= min_periods,
        s.is_valid(min_periods) <==> count_valid(s.validity, s.start, s.end) >= min_periods,
        min_periods <= 0 ==> s.is_valid(min_periods),
        0 <= s.null_count <= s.end - s.start,
{
    lemma_count_nulls_bound(s.validity, s.start, s.end);
}

} // verus!
