//! Rolling aggregation of a whole column: one window per position, one output
//! value and one validity bit per window.

use crate::column::{count_nulls, count_valid, window_sum};
use crate::exact::{
    holds_sum, lemma_construct_holds_sum, lemma_slide_matches_scan, lemma_value_is_sum,
};
use crate::modular::reduce;
use crate::native::{NativeInteger, NativeType};
use crate::offsets::{
    det_offsets, det_offsets_center, lemma_window_bounds_in_range, lemma_window_bounds_monotonic,
    window_bounds,
};
use crate::slides::{lemma_construct, lemma_slide};
use crate::sum::{SumWindow, SumWindowState};
use crate::window::RollingAggWindowNulls;
use vstd::prelude::*;

verus! {

/// A column of values with an optional validity mask. Where the mask is absent
/// every position holds a value.
#[derive(Debug)]
pub struct PrimitiveArray<T> {
    /// One value per position; what stands at a null position has no meaning.
    pub values: Vec<T>,
    /// One bit per position, set where the position holds a value.
    pub validity: Option<Vec<bool>>,
}

impl<T: Copy> PrimitiveArray<T> {
    /// The mask, if there is one, has one bit per value.
    pub open spec fn wf(&self) -> bool {
        match self.validity {
            Some(v) => v@.len() == self.values@.len(),
            None => true,
        }
    }

    /// Number of positions.
    pub fn len(&self) -> (n: usize)
        ensures
            n == self.values@.len(),
    {
        self.values.len()
    }

    /// The value at position `i`, or `None` where the position is null.
    pub fn get(&self, i: usize) -> (r: Option<T>)
        requires
            self.wf(),
            i < self.values@.len(),
        ensures
            r == self@[i as int],
    {
        match &self.validity {
            Some(v) => if v[i] {
                Some(self.values[i])
            } else {
                None
            },
            None => Some(self.values[i]),
        }
    }
}

impl<T: Copy> View for PrimitiveArray<T> {
    type V = Seq<Option<T>>;

    /// The column as a sequence of optional values.
    open spec fn view(&self) -> Seq<Option<T>> {
        Seq::new(
            self.values@.len(),
            |i: int|
                match self.validity {
                    Some(v) => if v@[i] {
                        Some(self.values@[i])
                    } else {
                        None
                    },
                    None => Some(self.values@[i]),
                },
        )
    }
}

/// The value written for a window: what the aggregate reports, or zero where
/// it reports nothing.
pub open spec fn reported_value<T: NativeType>(agg: Option<T>) -> T {
    match agg {
        Some(v) => v,
        None => T::zeroed_spec(),
    }
}

/// The state of the aggregate `Agg` at position `i` of a rolling pass: built
/// over the window of the first position, then moved to the window of each
/// position up to `i` in turn, the first included.
pub open spec fn rolled<'a, T: NativeType, Agg: RollingAggWindowNulls<'a, T>>(
    values: Seq<T>,
    validity: Seq<bool>,
    window_size: int,
    center: bool,
    i: int,
) -> Agg::State
    decreases i,
{
    let (start, end) = window_bounds(i, window_size, values.len() as int, center);
    if i <= 0 {
        Agg::slid(Agg::constructed(values, validity, start, end), start, end)
    } else {
        Agg::slid(rolled::<T, Agg>(values, validity, window_size, center, i - 1), start, end)
    }
}

/// Rolls the aggregate `Agg` over a column.
///
/// Position `i` of the result holds what the aggregate reports on reaching
/// the window of `i`, and is marked valid when that window holds at least
/// `min_periods` values.
pub fn rolling_apply_agg_window<'a, T: NativeType, Agg: RollingAggWindowNulls<'a, T>>(
    values: &'a [T],
    validity: &'a [bool],
    window_size: usize,
    min_periods: usize,
    center: bool,
) -> (out: PrimitiveArray<T>)
    requires
        values@.len() == validity@.len(),
        center || window_size >= 1,
    ensures
        out.wf(),
        out.values@.len() == values@.len(),
        out.validity.is_some(),
        forall|i: int|
            #![trigger out.values@[i]]
            #![trigger out.validity.unwrap()@[i]]
            0 <= i < values@.len() ==> {
                let (start, end) = window_bounds(
                    i,
                    window_size as int,
                    values@.len() as int,
                    center,
                );
                let agg = Agg::reported(
                    rolled::<T, Agg>(values@, validity@, window_size as int, center, i),
                );
                &&& out.values@[i] == reported_value(agg)
                &&& out.validity.unwrap()@[i] == (agg.is_some() && count_valid(
                    validity@,
                    start,
                    end,
                ) >= min_periods)
            },
{
    let len = values.len();
    let mut out_values: Vec<T> = Vec::with_capacity(len);
    let mut out_validity: Vec<bool> = Vec::with_capacity(len);
    if len == 0 {
        return PrimitiveArray { values: out_values, validity: Some(out_validity) };
    }
    let (start, end) = if center {
        det_offsets_center(0, window_size, len)
    } else {
        det_offsets(0, window_size, len)
    };
    proof {
        lemma_window_bounds_in_range(0, window_size as int, len as int, center);
    }
    let mut agg_window = Agg::new(values, validity, start, end, Some(window_size));
    let mut idx: usize = 0;
    while idx < len
        invariant
            len == values@.len(),
            len == validity@.len(),
            center || window_size >= 1,
            idx <= len,
            Agg::inv(agg_window.state()),
            Agg::values(agg_window.state()) == values@,
            Agg::validity(agg_window.state()) == validity@,
            idx == 0 ==> {
                &&& Agg::bounds(agg_window.state()) == window_bounds(
                    0,
                    window_size as int,
                    len as int,
                    center,
                )
                &&& agg_window.state() == Agg::constructed(
                    values@,
                    validity@,
                    window_bounds(0, window_size as int, len as int, center).0,
                    window_bounds(0, window_size as int, len as int, center).1,
                )
            },
            idx > 0 ==> {
                &&& Agg::bounds(agg_window.state()) == window_bounds(
                    idx - 1,
                    window_size as int,
                    len as int,
                    center,
                )
                &&& agg_window.state() == rolled::<T, Agg>(
                    values@,
                    validity@,
                    window_size as int,
                    center,
                    idx - 1,
                )
            },
            out_values@.len() == idx,
            out_validity@.len() == idx,
            forall|i: int|
                #![trigger out_values@[i]]
                #![trigger out_validity@[i]]
                0 <= i < idx ==> {
                    let (start, end) = window_bounds(i, window_size as int, len as int, center);
                    let agg = Agg::reported(
                        rolled::<T, Agg>(values@, validity@, window_size as int, center, i),
                    );
                    &&& out_values@[i] == reported_value(agg)
                    &&& out_validity@[i] == (agg.is_some() && count_valid(validity@, start, end)
                        >= min_periods)
                },
        decreases len - idx,
    {
        let (start, end) = if center {
            det_offsets_center(idx, window_size, len)
        } else {
            det_offsets(idx, window_size, len)
        };
        proof {
            lemma_window_bounds_in_range(idx as int, window_size as int, len as int, center);
            if idx > 0 {
                lemma_window_bounds_monotonic(
                    idx - 1,
                    idx as int,
                    window_size as int,
                    len as int,
                    center,
                );
            }
        }
        let agg = agg_window.update(start, end);
        match agg {
            Some(val) => {
                out_values.push(val);
                out_validity.push(agg_window.is_valid(min_periods));
            },
            None => {
                out_values.push(T::zeroed());
                out_validity.push(false);
            },
        }
        idx += 1;
    }
    PrimitiveArray { values: out_values, validity: Some(out_validity) }
}

/// The state of the rolling sum at position `i` of a pass over a column.
pub open spec fn sum_state_at<T: NativeType>(
    values: Seq<T>,
    validity: Seq<bool>,
    window_size: int,
    center: bool,
    i: int,
) -> SumWindowState<T>
    decreases i,
{
    let (start, end) = window_bounds(i, window_size, values.len() as int, center);
    if i <= 0 {
        SumWindowState::construct(values, validity, start, end).slide(start, end)
    } else {
        sum_state_at(values, validity, window_size, center, i - 1).slide(start, end)
    }
}

/// At every position of a pass the state of the rolling sum is well formed
/// and stands for the window of that position.
pub proof fn lemma_sum_state_at<T: NativeType>(
    values: Seq<T>,
    validity: Seq<bool>,
    window_size: int,
    center: bool,
    i: int,
)
    requires
        values.len() == validity.len(),
        0 <= window_size,
        0 <= i < values.len(),
    ensures
        ({
            let s = sum_state_at(values, validity, window_size, center, i);
            let (start, end) = window_bounds(i, window_size, values.len() as int, center);
            &&& s.describes_window()
            &&& s.values == values
            &&& s.validity == validity
            &&& s.start == start
            &&& s.end == end
            &&& s.null_count == count_nulls(validity, start, end)
        }),
    decreases i,
{
    let len = values.len() as int;
    let (start, end) = window_bounds(i, window_size, len, center);
    lemma_window_bounds_in_range(i, window_size, len, center);
    if i == 0 {
        lemma_construct(values, validity, start, end);
        lemma_slide(SumWindowState::construct(values, validity, start, end), start, end);
    } else {
        lemma_sum_state_at(values, validity, window_size, center, i - 1);
        lemma_window_bounds_monotonic(i - 1, i, window_size, len, center);
        lemma_slide(sum_state_at(values, validity, window_size, center, i - 1), start, end);
    }
}

/// Over an integer type the rolling sum reports, at every position, the sum
/// of the values in the window of that position, reduced into the type's
/// range: the sum itself whenever it fits.
pub proof fn lemma_sum_state_at_exact<T: NativeInteger>(
    values: Seq<T>,
    validity: Seq<bool>,
    window_size: int,
    center: bool,
    i: int,
)
    requires
        values.len() == validity.len(),
        0 <= window_size,
        0 <= i < values.len(),
    ensures
        ({
            let s = sum_state_at(values, validity, window_size, center, i);
            let (start, end) = window_bounds(i, window_size, values.len() as int, center);
            let total = window_sum(values, validity, start, end);
            &&& holds_sum(s)
            &&& s.value().as_int() == reduce(total, T::min_int(), T::modulus())
            &&& T::min_int() <= total < T::min_int() + T::modulus() ==> s.value().as_int() == total
        }),
    decreases i,
{
    let len = values.len() as int;
    let (start, end) = window_bounds(i, window_size, len, center);
    lemma_window_bounds_in_range(i, window_size, len, center);
    lemma_sum_state_at(values, validity, window_size, center, i);
    if i == 0 {
        lemma_construct_holds_sum(values, validity, start, end);
        lemma_slide_matches_scan(
            SumWindowState::construct(values, validity, start, end),
            start,
            end,
        );
    } else {
        lemma_sum_state_at(values, validity, window_size, center, i - 1);
        lemma_sum_state_at_exact(values, validity, window_size, center, i - 1);
        lemma_window_bounds_monotonic(i - 1, i, window_size, len, center);
        lemma_slide_matches_scan(
            sum_state_at(values, validity, window_size, center, i - 1),
            start,
            end,
        );
    }
    lemma_value_is_sum(sum_state_at(values, validity, window_size, center, i));
}

/// The rolling sum of a nullable column.
///
/// Position `i` of the result holds what the rolling sum reports on reaching
/// the window of `i`, and is marked valid when that window holds at least
/// `min_periods` values. Windows are centered on their position if `center`
/// is set, and end at it otherwise.
///
/// There is no weighted sum over a column with nulls: `weights` must be absent.
pub fn rolling_sum<T: NativeType, W>(
    arr: &PrimitiveArray<T>,
    window_size: usize,
    min_periods: usize,
    center: bool,
    weights: Option<&[W]>,
) -> (out: PrimitiveArray<T>)
    requires
        arr.wf(),
        arr.validity.is_some(),
        weights.is_none(),
        center || window_size >= 1,
    ensures
        out.wf(),
        out.values@.len() == arr.values@.len(),
        out.validity.is_some(),
        forall|i: int|
            #![trigger out.values@[i]]
            #![trigger out.validity.unwrap()@[i]]
            #![trigger out@[i]]
            0 <= i < arr.values@.len() ==> {
                let (start, end) = window_bounds(
                    i,
                    window_size as int,
                    arr.values@.len() as int,
                    center,
                );
                let state = sum_state_at(
                    arr.values@,
                    arr.validity.unwrap()@,
                    window_size as int,
                    center,
                    i,
                );
                let enough = count_valid(arr.validity.unwrap()@, start, end) >= min_periods;
                &&& out.values@[i] == state.value()
                &&& out.validity.unwrap()@[i] == enough
                &&& out@[i] == if enough {
                    Some(state.value())
                } else {
                    None
                }
            },
{
    let out = rolling_apply_agg_window::<T, SumWindow<T>>(
        arr.values.as_slice(),
        arr.validity.as_ref().unwrap().as_slice(),
        window_size,
        min_periods,
        center,
    );
    proof {
        assert forall|i: int| 0 <= i < arr.values@.len() implies #[trigger] rolled::<
            T,
            SumWindow<T>,
        >(arr.values@, arr.validity.unwrap()@, window_size as int, center, i) == sum_state_at(
            arr.values@,
            arr.validity.unwrap()@,
            window_size as int,
            center,
            i,
        ) by {
            lemma_rolled_is_sum_state::<T>(
                arr.values@,
                arr.validity.unwrap()@,
                window_size as int,
                center,
                i,
            );
        }
    }
    out
}

/// Rolling the sum window through the shared driver visits the states of the
/// rolling sum.
proof fn lemma_rolled_is_sum_state<'a, T: NativeType>(
    values: Seq<T>,
    validity: Seq<bool>,
    window_size: int,
    center: bool,
    i: int,
)
    requires
        0 <= i,
    ensures
        rolled::<T, SumWindow<'a, T>>(values, validity, window_size, center, i) == sum_state_at(
            values,
            validity,
            window_size,
            center,
            i,
        ),
    decreases i,
{
    if i > 0 {
        lemma_rolled_is_sum_state::<T>(values, validity, window_size, center, i - 1);
    }
}

} // verus!
