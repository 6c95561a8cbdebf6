//! The interface shared by rolling aggregates over nullable columns.

use crate::column::count_valid;
use crate::native::NativeType;
use vstd::prelude::*;

verus! {

/// An incremental aggregate over a window `[start, end)` of a nullable column.
///
/// A window state is built over a first window and then moved forward, one
/// call per output position. Each kind of aggregate is one implementation. It
/// names its abstract state and says, as functions on that state, what
/// building and moving do and what is reported.
pub trait RollingAggWindowNulls<'a, T: NativeType>: Sized {
    /// What the aggregate keeps, as a mathematical value.
    type State;

    /// The abstract state of this window state.
    spec fn state(&self) -> Self::State;

    /// The state is consistent with the window it stands for.
    spec fn inv(state: Self::State) -> bool;

    /// The values of the column the state was built over.
    spec fn values(state: Self::State) -> Seq<T>;

    /// The validity bits of the column the state was built over.
    spec fn validity(state: Self::State) -> Seq<bool>;

    /// The bounds `(start, end)` of the state's window.
    spec fn bounds(state: Self::State) -> (int, int);

    /// The state that `new` builds for the window `[start, end)`.
    spec fn constructed(values: Seq<T>, validity: Seq<bool>, start: int, end: int) -> Self::State;

    /// The state that `update` leaves after moving to `[start, end)`.
    spec fn slid(state: Self::State, start: int, end: int) -> Self::State;

    /// What `update` reports on reaching the state.
    spec fn reported(state: Self::State) -> Option<T>;

    /// Builds the state for the window `[start, end)` by scanning it.
    /// `window_size` is the nominal size of the windows to come, for
    /// aggregates that size their bookkeeping by it.
    fn new(
        slice: &'a [T],
        validity: &'a [bool],
        start: usize,
        end: usize,
        window_size: Option<usize>,
    ) -> (w: Self)
        requires
            slice@.len() == validity@.len(),
            start <= end <= slice@.len(),
        ensures
            w.state() == Self::constructed(slice@, validity@, start as int, end as int),
            Self::inv(w.state()),
            Self::values(w.state()) == slice@,
            Self::validity(w.state()) == validity@,
            Self::bounds(w.state()) == (start as int, end as int),
    ;

    /// Moves the window forward to `[start, end)` and reports its aggregate.
    fn update(&mut self, start: usize, end: usize) -> (r: Option<T>)
        requires
            Self::inv(old(self).state()),
            Self::bounds(old(self).state()).0 <= start,
            Self::bounds(old(self).state()).1 <= end,
            start <= end <= Self::values(old(self).state()).len(),
        ensures
            final(self).state() == Self::slid(old(self).state(), start as int, end as int),
            Self::inv(final(self).state()),
            Self::values(final(self).state()) == Self::values(old(self).state()),
            Self::validity(final(self).state()) == Self::validity(old(self).state()),
            Self::bounds(final(self).state()) == (start as int, end as int),
            r == Self::reported(final(self).state()),
    ;

    /// Whether the current window holds at least `min_periods` values.
    fn is_valid(&self, min_periods: usize) -> (b: bool)
        requires
            Self::inv(self.state()),
        ensures
            b == (count_valid(
                Self::validity(self.state()),
                Self::bounds(self.state()).0,
                Self::bounds(self.state()).1,
            ) >= min_periods),
            min_periods == 0 ==> b,
    ;
}

} // verus!
