//! The mathematical model of a nullable column: how many positions of a range
//! are null, and what the values present in a range of an integer column add
//! up to.

use crate::native::NativeInteger;
use vstd::prelude::*;

verus! {

/// Number of positions in `[start, end)` whose validity bit is unset.
pub open spec fn count_nulls(validity: Seq<bool>, start: int, end: int) -> nat
    decreases end - start,
{
    if start >= end {
        0
    } else {
        count_nulls(validity, start, end - 1) + if validity[end - 1] {
            0nat
        } else {
            1nat
        }
    }
}

/// Number of positions in `[start, end)` that hold a value.
pub open spec fn count_valid(validity: Seq<bool>, start: int, end: int) -> int {
    if start >= end {
        0
    } else {
        end - start - count_nulls(validity, start, end)
    }
}

/// Sum, over the integers, of the values at the valid positions of `[start, end)`.
pub open spec fn window_sum<T: NativeInteger>(
    values: Seq<T>,
    validity: Seq<bool>,
    start: int,
    end: int,
) -> int
    decreases end - start,
{
    if start >= end {
        0
    } else {
        window_sum(values, validity, start, end - 1) + if validity[end - 1] {
            values[end - 1].as_int()
        } else {
            0
        }
    }
}

/// A range holds at most as many nulls as it has positions.
pub proof fn lemma_count_nulls_bound(validity: Seq<bool>, start: int, end: int)
    requires
        start <= end,
    ensures
        count_nulls(validity, start, end) <= end - start,
        0 <= count_valid(validity, start, end) <= end - start,
    decreases end - start,
{
    if start < end {
        lemma_count_nulls_bound(validity, start, end - 1);
    }
}

/// Null counts add up over adjacent ranges.
pub proof fn lemma_count_nulls_split(validity: Seq<bool>, start: int, mid: int, end: int)
    requires
        start <= mid <= end,
    ensures
        count_nulls(validity, start, end) == count_nulls(validity, start, mid) + count_nulls(
            validity,
            mid,
            end,
        ),
        count_valid(validity, start, end) == count_valid(validity, start, mid) + count_valid(
            validity,
            mid,
            end,
        ),
    decreases end - mid,
{
    if mid < end {
        lemma_count_nulls_split(validity, start, mid, end - 1);
    }
}

/// Sums add up over adjacent ranges.
pub proof fn lemma_window_sum_split<T: NativeInteger>(
    values: Seq<T>,
    validity: Seq<bool>,
    start: int,
    mid: int,
    end: int,
)
    requires
        start <= mid <= end,
    ensures
        window_sum(values, validity, start, end) == window_sum(values, validity, start, mid)
            + window_sum(values, validity, mid, end),
    decreases end - mid,
{
    if mid < end {
        lemma_window_sum_split(values, validity, start, mid, end - 1);
    }
}

/// Taking the first position off a range removes its null, if it is one.
pub proof fn lemma_count_nulls_first(validity: Seq<bool>, start: int, end: int)
    requires
        start < end,
    ensures
        count_nulls(validity, start, end) == count_nulls(validity, start + 1, end)
            + if validity[start] {
            0nat
        } else {
            1nat
        },
{
    lemma_count_nulls_split(validity, start, start + 1, end);
    assert(count_nulls(validity, start, start) == 0);
}

/// Taking the first position off a range removes its value, if it has one.
pub proof fn lemma_window_sum_first<T: NativeInteger>(
    values: Seq<T>,
    validity: Seq<bool>,
    start: int,
    end: int,
)
    requires
        start < end,
    ensures
        window_sum(values, validity, start, end) == window_sum(values, validity, start + 1, end)
            + if validity[start] {
            values[start].as_int()
        } else {
            0
        },
{
    lemma_window_sum_split(values, validity, start, start + 1, end);
    assert(window_sum(values, validity, start, start) == 0);
}

/// A range holds no value exactly when every position of it is null.
pub proof fn lemma_count_valid_zero(validity: Seq<bool>, start: int, end: int)
    requires
        start <= end,
    ensures
        count_valid(validity, start, end) == 0 <==> forall|i: int|
            start <= i < end ==> !validity[i],
    decreases end - start,
{
    if start < end {
        lemma_count_valid_zero(validity, start, end - 1);
        lemma_count_nulls_bound(validity, start, end - 1);
        if count_valid(validity, start, end) == 0 {
            assert forall|i: int| start <= i < end implies !validity[i] by {
                assert(!validity[end - 1]);
            }
        } else if !validity[end - 1] {
            let i = choose|i: int| start <= i < end - 1 && validity[i];
            assert(start <= i < end && validity[i]);
        }
    }
}

/// A range without values sums to zero.
pub proof fn lemma_window_sum_no_valid<T: NativeInteger>(
    values: Seq<T>,
    validity: Seq<bool>,
    start: int,
    end: int,
)
    requires
        start <= end,
        count_valid(validity, start, end) == 0,
    ensures
        window_sum(values, validity, start, end) == 0,
    decreases end - start,
{
    if start < end {
        lemma_count_nulls_bound(validity, start, end - 1);
        lemma_window_sum_no_valid(values, validity, start, end - 1);
    }
}

} // verus!
