//! Rolling sums over nullable columns.
//!
//! A window state is built over one range of a column and then slid forward,
//! adjusting its running sum and null count by the positions that cross the
//! window's edges instead of rescanning the range.
//!
//! The kernels are written once for every numeric type. Over the integer
//! types sums wrap: the running sum always equals the true sum of the window
//! reduced into the type's range, and equals the true sum itself whenever
//! that fits.

pub mod column;
pub mod exact;
pub mod modular;
pub mod native;
pub mod offsets;
pub mod rolling;
pub mod slides;
pub mod sum;
pub mod window;
