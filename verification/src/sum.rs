//! The rolling sum: a window state that keeps the sum of the values present in
//! its window, a compensation term for floating-point sums, and the number of
//! nulls in the window.

use crate::column::{count_nulls, lemma_count_nulls_bound, lemma_count_nulls_first};
use crate::native::NativeType;
use crate::slides::{lemma_construct, lemma_slide, lemma_slide_rescan};
use crate::window::RollingAggWindowNulls;
use vstd::prelude::*;

verus! {

/// What a full scan of `[start, end)` leaves in the accumulator: nothing if the
/// range holds no value, else the values of the range added up one by one,
/// each new value to the sum of those before it.
pub open spec fn scanned_sum<T: NativeType>(
    values: Seq<T>,
    validity: Seq<bool>,
    start: int,
    end: int,
) -> Option<T>
    decreases end - start,
{
    if start >= end {
        None
    } else {
        let before = scanned_sum(values, validity, start, end - 1);
        if validity[end - 1] {
            match before {
                None => Some(values[end - 1]),
                Some(current) => Some(values[end - 1].add_spec(current)),
            }
        } else {
            before
        }
    }
}

/// The abstract state of a [`SumWindow`].
pub struct SumWindowState<T> {
    /// The column's values.
    pub values: Seq<T>,
    /// The column's validity bits.
    pub validity: Seq<bool>,
    /// First position of the window.
    pub start: int,
    /// One past the last position of the window.
    pub end: int,
    /// The recorded number of nulls.
    pub null_count: int,
    /// The accumulator: `None` while no value has been folded in.
    pub sum: Option<T>,
    /// The running compensation of a floating-point sum.
    pub err: T,
}

impl<T: NativeType> SumWindowState<T> {
    /// The bounds lie within the column, and the recorded null count is the
    /// number of unset validity bits in the window.
    pub open spec fn well_formed(self) -> bool {
        &&& self.values.len() == self.validity.len()
        &&& 0 <= self.start <= self.end <= self.values.len()
        &&& self.null_count == count_nulls(self.validity, self.start, self.end)
    }

    /// The state that a full scan of `[start, end)` gives.
    pub open spec fn construct(values: Seq<T>, validity: Seq<bool>, start: int, end: int) -> Self {
        SumWindowState {
            values,
            validity,
            start,
            end,
            null_count: count_nulls(validity, start, end) as int,
            sum: scanned_sum(values, validity, start, end),
            err: T::zeroed_spec(),
        }
    }

    /// The state with `val` folded into a defined accumulator.
    ///
    /// A finite floating-point value is added with compensation: the term
    /// carried over is taken off the value first, and what the addition then
    /// rounds away becomes the new term. Any other value is added plainly.
    pub open spec fn with_added(self, val: T) -> Self {
        match self.sum {
            Some(sum) => if T::is_float_spec() && val.is_finite_spec() {
                let y = val.sub_spec(self.err);
                let new_sum = sum.add_spec(y);
                let lost = new_sum.sub_spec(sum).sub_spec(y);
                SumWindowState { sum: Some(new_sum), err: lost, ..self }
            } else {
                SumWindowState { sum: Some(sum.add_spec(val)), ..self }
            },
            None => self,
        }
    }

    /// The state with `val` taken out of a defined accumulator: a finite
    /// floating-point value by the compensated addition of its negation, any
    /// other value by plain subtraction.
    pub open spec fn with_removed(self, val: T) -> Self {
        if T::is_float_spec() && val.is_finite_spec() {
            self.with_added(T::zeroed_spec().sub_spec(val))
        } else {
            match self.sum {
                Some(sum) => SumWindowState { sum: Some(sum.sub_spec(val)), ..self },
                None => self,
            }
        }
    }

    /// The state with a scan of `[start, end)` in place of all running
    /// bookkeeping: the null count and the accumulator are those of the scan,
    /// and the compensation term is zero again. The bounds are kept.
    pub open spec fn rescanned(self, start: int, end: int) -> Self {
        SumWindowState {
            null_count: count_nulls(self.validity, start, end) as int,
            sum: scanned_sum(self.values, self.validity, start, end),
            err: T::zeroed_spec(),
            ..self
        }
    }

    /// Whether moving the window forward to start at `start` takes a scan of
    /// the new window: the windows do not overlap, or taking out the positions
    /// before `start` had to be given up.
    pub open spec fn rescans(self, start: int) -> bool {
        start >= self.end || self.leave(self.start, start).1
    }

    /// Takes the positions `[idx, stop)` out of the state one by one, and says
    /// whether that had to be given up for a scan.
    ///
    /// It is given up at a value that is not finite, since no subtraction
    /// undoes it, and at a null while the accumulator is undefined, since only
    /// a scan can tell whether the new window holds a value.
    pub open spec fn leave(self, idx: int, stop: int) -> (Self, bool)
        decreases stop - idx,
    {
        if idx >= stop {
            (self, false)
        } else if self.validity[idx] {
            if T::is_float_spec() && !self.values[idx].is_finite_spec() {
                (self, true)
            } else {
                self.with_removed(self.values[idx]).leave(idx + 1, stop)
            }
        } else {
            let less = SumWindowState { null_count: self.null_count - 1, ..self };
            if self.sum.is_none() {
                (less, true)
            } else {
                less.leave(idx + 1, stop)
            }
        }
    }

    /// Folds the positions `[idx, stop)` into the state one by one. The first
    /// value to enter an undefined accumulator becomes the accumulator.
    pub open spec fn enter(self, idx: int, stop: int) -> Self
        decreases stop - idx,
    {
        if idx >= stop {
            self
        } else if self.validity[idx] {
            match self.sum {
                None => SumWindowState { sum: Some(self.values[idx]), ..self },
                Some(_) => self.with_added(self.values[idx]),
            }.enter(idx + 1, stop)
        } else {
            SumWindowState { null_count: self.null_count + 1, ..self }.enter(idx + 1, stop)
        }
    }

    /// The state after moving the window forward to `[start, end)`.
    ///
    /// Where the two windows overlap, the positions before `start` leave and
    /// the positions from the old end on enter. The new window is scanned
    /// instead where the windows do not overlap or leaving was given up;
    /// nothing of what the state kept before then remains.
    pub open spec fn slide(self, start: int, end: int) -> Self {
        let (left, rescan) = if start >= self.end {
            (self, true)
        } else {
            self.leave(self.start, start)
        };
        let moved = SumWindowState { start, ..left };
        let filled = if rescan {
            moved.rescanned(start, end)
        } else {
            moved.enter(self.end, end)
        };
        SumWindowState { end, ..filled }
    }

    /// The reported value: the accumulator, or zero where it is undefined.
    pub open spec fn value(self) -> T {
        match self.sum {
            Some(s) => s,
            None => T::zeroed_spec(),
        }
    }

    /// Whether the window holds at least `min_periods` values, by the recorded
    /// null count.
    pub open spec fn is_valid(self, min_periods: int) -> bool {
        (self.end - self.start) - self.null_count >= min_periods
    }
}

/// The rolling sum over a nullable column.
pub struct SumWindow<'a, T> {
    slice: &'a [T],
    validity: &'a [bool],
    sum: Option<T>,
    err: T,
    last_start: usize,
    last_end: usize,
    null_count: usize,
}

impl<'a, T: NativeType> View for SumWindow<'a, T> {
    type V = SumWindowState<T>;

    closed spec fn view(&self) -> SumWindowState<T> {
        SumWindowState {
            values: self.slice@,
            validity: self.validity@,
            start: self.last_start as int,
            end: self.last_end as int,
            null_count: self.null_count as int,
            sum: self.sum,
            err: self.err,
        }
    }
}

impl<'a, T: NativeType> SumWindow<'a, T> {
    /// Folds `val` into the accumulator, if it is defined: with compensation
    /// where `val` is a finite floating-point value, plainly otherwise.
    pub fn add(&mut self, val: T)
        ensures
            final(self)@ == old(self)@.with_added(val),
    {
        if T::is_float() && val.is_finite() {
            match self.sum {
                Some(sum) => {
                    let y = val.minus(self.err);
                    let new_sum = sum.plus(y);
                    self.err = new_sum.minus(sum).minus(y);
                    self.sum = Some(new_sum);
                },
                None => {},
            }
        } else {
            match self.sum {
                Some(sum) => {
                    self.sum = Some(sum.plus(val));
                },
                None => {},
            }
        }
    }

    /// Takes `val` out of the accumulator, if it is defined.
    pub fn sub(&mut self, val: T)
        ensures
            final(self)@ == old(self)@.with_removed(val),
    {
        if T::is_float() && val.is_finite() {
            self.add(T::zeroed().minus(val))
        } else {
            match self.sum {
                Some(sum) => {
                    self.sum = Some(sum.minus(val));
                },
                None => {},
            }
        }
    }

    /// Scans `[start, end)` and sets the accumulator and the null count from
    /// it, and the compensation term back to zero. The recorded bounds are left
    /// as they are.
    fn compute_sum_and_null_count(&mut self, start: usize, end: usize) -> (r: Option<T>)
        requires
            old(self)@.values.len() == old(self)@.validity.len(),
            start <= end <= old(self)@.values.len(),
        ensures
            final(self)@ == old(self)@.rescanned(start as int, end as int),
            r == final(self)@.sum,
    {
        let mut sum: Option<T> = None;
        let mut idx: usize = start;
        self.null_count = 0;
        self.err = T::zeroed();
        while idx < end
            invariant
                start <= idx <= end <= self.slice@.len(),
                self.slice@.len() == self.validity@.len(),
                self@ == (SumWindowState {
                    null_count: self.null_count as int,
                    err: T::zeroed_spec(),
                    ..old(self)@
                }),
                self.null_count == count_nulls(self.validity@, start as int, idx as int),
                sum == scanned_sum(self.slice@, self.validity@, start as int, idx as int),
            decreases end - idx,
        {
            let value = self.slice[idx];
            let valid = self.validity[idx];
            proof {
                lemma_count_nulls_bound(self.validity@, start as int, idx as int);
            }
            if valid {
                match sum {
                    None => sum = Some(value),
                    Some(current) => sum = Some(value.plus(current)),
                }
            } else {
                self.null_count += 1;
            }
            idx += 1;
        }
        self.sum = sum;
        sum
    }

    /// The recorded number of nulls in the current window.
    pub fn null_count(&self) -> (n: usize)
        ensures
            n == self@.null_count,
    {
        self.null_count
    }

    /// The accumulator: `None` while no value has been folded in.
    pub fn sum(&self) -> (s: Option<T>)
        ensures
            s == self@.sum,
    {
        self.sum
    }
}

impl<'a, T: NativeType> RollingAggWindowNulls<'a, T> for SumWindow<'a, T> {
    type State = SumWindowState<T>;

    open spec fn state(&self) -> SumWindowState<T> {
        self@
    }

    open spec fn inv(state: SumWindowState<T>) -> bool {
        state.well_formed()
    }

    open spec fn values(state: SumWindowState<T>) -> Seq<T> {
        state.values
    }

    open spec fn validity(state: SumWindowState<T>) -> Seq<bool> {
        state.validity
    }

    open spec fn bounds(state: SumWindowState<T>) -> (int, int) {
        (state.start, state.end)
    }

    open spec fn constructed(
        values: Seq<T>,
        validity: Seq<bool>,
        start: int,
        end: int,
    ) -> SumWindowState<T> {
        SumWindowState::construct(values, validity, start, end)
    }

    open spec fn slid(state: SumWindowState<T>, start: int, end: int) -> SumWindowState<T> {
        state.slide(start, end)
    }

    /// The accumulator, or zero where it is undefined.
    open spec fn reported(state: SumWindowState<T>) -> Option<T> {
        Some(state.value())
    }

    /// Builds the state for `[start, end)` by a full scan.
    fn new(
        slice: &'a [T],
        validity: &'a [bool],
        start: usize,
        end: usize,
        _window_size: Option<usize>,
    ) -> (w: Self)
        ensures
            w@ == SumWindowState::construct(slice@, validity@, start as int, end as int),
            w@.null_count == count_nulls(validity@, start as int, end as int),
            w@.sum.is_none() <==> forall|i: int| start <= i < end ==> !validity@[i],
    {
        let mut out = Self {
            slice,
            validity,
            sum: None,
            err: T::zeroed(),
            last_start: start,
            last_end: end,
            null_count: 0,
        };
        out.compute_sum_and_null_count(start, end);
        proof {
            lemma_construct(slice@, validity@, start as int, end as int);
        }
        out
    }

    /// Moves the window forward to `[start, end)` and reports its sum.
    ///
    /// Where the two windows overlap, the positions that leave are taken out
    /// one by one and the positions that enter are folded in one by one. The
    /// new window is scanned in full instead where the windows do not overlap,
    /// where a value that is not finite leaves, or where a null leaves while
    /// the accumulator is undefined; the state is then the one that `new`
    /// builds over the new window.
    fn update(&mut self, start: usize, end: usize) -> (r: Option<T>)
        ensures
            final(self)@ == old(self)@.slide(start as int, end as int),
            final(self)@.null_count == count_nulls(old(self)@.validity, start as int, end as int),
            old(self)@.rescans(start as int) ==> final(self)@ == SumWindowState::construct(
                old(self)@.values,
                old(self)@.validity,
                start as int,
                end as int,
            ),
            r == Some(final(self)@.value()),
    {
        let ghost pre = self@;
        // without overlap the window is a new one
        let recompute_sum = if start >= self.last_end {
            true
        } else {
            // take out the positions that leave the window
            let mut recompute_sum = false;
            let mut idx: usize = self.last_start;
            while idx < start
                invariant_except_break
                    !recompute_sum,
                    self@.leave(idx as int, start as int) == pre.leave(pre.start, start as int),
                    self.null_count == count_nulls(pre.validity, idx as int, pre.end),
                invariant
                    pre.well_formed(),
                    pre.start <= idx <= start < pre.end,
                    self@.values == pre.values,
                    self@.validity == pre.validity,
                    self@.start == pre.start,
                    self@.end == pre.end,
                ensures
                    (self@, recompute_sum) == pre.leave(pre.start, start as int),
                    !recompute_sum ==> self.null_count == count_nulls(
                        pre.validity,
                        start as int,
                        pre.end,
                    ),
                decreases start - idx,
            {
                proof {
                    lemma_count_nulls_first(pre.validity, idx as int, pre.end);
                }
                let valid = self.validity[idx];
                if valid {
                    let leaving_value = self.slice[idx];

                    // no subtraction undoes a value that is not finite
                    if T::is_float() && !leaving_value.is_finite() {
                        recompute_sum = true;
                        break ;
                    }
                    self.sub(leaving_value);
                } else {
                    // a null leaves the window
                    self.null_count -= 1;

                    // nothing was folded in so far: only a scan can tell
                    // whether the new window holds a value
                    if self.sum.is_none() {
                        recompute_sum = true;
                        break ;
                    }
                }
                idx += 1;
            }
            recompute_sum
        };

        self.last_start = start;

        if recompute_sum {
            self.compute_sum_and_null_count(start, end);
        } else {
            let ghost left = self@;
            let mut idx: usize = self.last_end;
            while idx < end
                invariant
                    pre.end <= idx <= end <= pre.values.len(),
                    start <= pre.end,
                    pre.values.len() == pre.validity.len(),
                    self@.values == pre.values,
                    self@.validity == pre.validity,
                    self@.enter(idx as int, end as int) == left.enter(pre.end, end as int),
                    self.null_count == count_nulls(pre.validity, start as int, idx as int),
                decreases end - idx,
            {
                proof {
                    lemma_count_nulls_bound(pre.validity, start as int, idx as int);
                }
                let valid = self.validity[idx];
                if valid {
                    let value = self.slice[idx];
                    match self.sum {
                        None => self.sum = Some(value),
                        _ => self.add(value),
                    }
                } else {
                    // a null enters the window
                    self.null_count += 1;
                }
                idx += 1;
            }
        }
        self.last_end = end;
        proof {
            lemma_slide(pre, start as int, end as int);
            if pre.rescans(start as int) {
                lemma_slide_rescan(pre, start as int, end as int);
            }
        }
        match self.sum {
            Some(sum) => Some(sum),
            None => Some(T::zeroed()),
        }
    }

    /// Whether the window holds at least `min_periods` values.
    fn is_valid(&self, min_periods: usize) -> (b: bool)
        ensures
            b == self@.is_valid(min_periods as int),
    {
        proof {
            lemma_count_nulls_bound(self@.validity, self@.start, self@.end);
        }
        ((self.last_end - self.last_start) - self.null_count) >= min_periods
    }
}

} // verus!
