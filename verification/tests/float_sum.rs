use rolling_nulls::native::NativeType;
use rolling_nulls::rolling::{rolling_sum, PrimitiveArray};
use rolling_nulls::sum::SumWindow;
use rolling_nulls::window::RollingAggWindowNulls;

/// A double, with the operations of `f64` as its arithmetic.
#[derive(Clone, Copy, Debug, PartialEq)]
struct F64(f64);

impl NativeType for F64 {
    fn is_float_spec() -> bool {
        true
    }

    fn is_finite_spec(self) -> bool {
        self.0.is_finite()
    }

    fn zeroed_spec() -> Self {
        F64(0.0)
    }

    fn add_spec(self, rhs: Self) -> Self {
        F64(self.0 + rhs.0)
    }

    fn sub_spec(self, rhs: Self) -> Self {
        F64(self.0 - rhs.0)
    }

    fn is_float() -> bool {
        true
    }

    fn is_finite(&self) -> bool {
        self.0.is_finite()
    }

    fn zeroed() -> Self {
        F64(0.0)
    }

    fn plus(self, rhs: Self) -> Self {
        F64(self.0 + rhs.0)
    }

    fn minus(self, rhs: Self) -> Self {
        F64(self.0 - rhs.0)
    }
}

fn column(items: &[Option<f64>]) -> PrimitiveArray<F64> {
    PrimitiveArray {
        values: items.iter().map(|v| F64(v.unwrap_or(0.0))).collect(),
        validity: Some(items.iter().map(|v| v.is_some()).collect()),
    }
}

fn options(arr: &PrimitiveArray<F64>) -> Vec<Option<f64>> {
    (0..arr.len()).map(|i| arr.get(i).map(|v| v.0)).collect()
}

fn wrap(values: &[f64]) -> Vec<F64> {
    values.iter().map(|v| F64(*v)).collect()
}

/// The sum of `values`, exact up to one final rounding: each value is an
/// integer multiple of 2^-80, and the multiples are added as integers.
fn reference_sum(values: &[f64]) -> f64 {
    let mut total: i128 = 0;
    for v in values {
        let bits = v.to_bits();
        let exponent = ((bits >> 52) & 0x7ff) as i32;
        let fraction = (bits & ((1u64 << 52) - 1)) as i128;
        assert!(exponent != 0 && exponent != 0x7ff);
        let mantissa = fraction | (1i128 << 52);
        // the value is mantissa * 2^(exponent - 1075)
        let shift = exponent - 1075 + 80;
        assert!((0..70).contains(&shift));
        let scaled = mantissa << shift;
        if bits >> 63 == 1 {
            total -= scaled;
        } else {
            total += scaled;
        }
    }
    total as f64 / (1u128 << 80) as f64
}

fn naive_sum(values: &[f64]) -> f64 {
    let mut total = 0.0;
    for v in values {
        total += v;
    }
    total
}

#[test]
fn float_trailing_sum_all_valid() {
    let arr = column(&[Some(1.0), Some(2.0), Some(3.0), Some(4.0), Some(5.0)]);
    let out = rolling_sum::<F64, f64>(&arr, 3, 3, false, None);
    assert_eq!(options(&out), vec![None, None, Some(6.0), Some(9.0), Some(12.0)]);
}

#[test]
fn float_trailing_sum_with_nulls() {
    let arr = column(&[Some(1.0), None, Some(3.0), None, Some(5.0)]);
    let out = rolling_sum::<F64, f64>(&arr, 2, 1, false, None);
    assert_eq!(options(&out), vec![Some(1.0), Some(1.0), Some(3.0), Some(3.0), Some(5.0)]);
}

#[test]
fn float_window_without_values_is_null() {
    let arr = column(&[Some(1.5), None, None, Some(2.5)]);
    let out = rolling_sum::<F64, f64>(&arr, 2, 1, false, None);
    assert_eq!(options(&out), vec![Some(1.5), Some(1.5), None, Some(2.5)]);
    assert_eq!(out.values[2], F64(0.0));
}

#[test]
fn infinity_leaving_the_window_forces_a_scan() {
    let values = wrap(&[1.0, f64::INFINITY, 2.0, 3.0]);
    let validity = vec![true; 4];
    let mut w = SumWindow::new(&values[..], &validity[..], 0, 3, None);
    assert_eq!(w.sum(), Some(F64(f64::INFINITY)));
    // subtracting would leave infinity minus infinity
    assert_eq!(w.update(2, 4), Some(F64(5.0)));
    assert_eq!(w.null_count(), 0);
}

#[test]
fn infinity_leaving_alone_forces_a_scan() {
    let values = wrap(&[f64::NEG_INFINITY, 2.0, 3.0]);
    let validity = vec![true; 3];
    let mut w = SumWindow::new(&values[..], &validity[..], 0, 2, None);
    assert_eq!(w.update(1, 3), Some(F64(5.0)));
}

#[test]
fn nan_leaving_the_window_forces_a_scan() {
    let arr = column(&[Some(f64::NAN), Some(2.0), Some(3.0), Some(4.0)]);
    let out = rolling_sum::<F64, f64>(&arr, 2, 2, false, None);
    let got = options(&out);
    assert_eq!(got[0], None);
    assert!(got[1].unwrap().is_nan());
    assert_eq!(got[2], Some(5.0));
    // the scan has cleared the compensation term that NaN had spoilt
    assert_eq!(got[3], Some(7.0));
}

#[test]
fn scan_without_overlap_clears_the_compensation_term() {
    let values = wrap(&[f64::INFINITY, 1.0, 2.0, 3.0, 4.0]);
    let validity = vec![true; 5];
    let mut w = SumWindow::new(&values[..], &validity[..], 0, 2, None);
    // a finite value added to an infinite sum leaves the term at NaN
    assert_eq!(w.update(0, 3), Some(F64(f64::INFINITY)));
    assert_eq!(w.update(3, 5), Some(F64(7.0)));
    // the next compensated step starts from a term of zero
    assert_eq!(w.update(4, 5), Some(F64(4.0)));
}

#[test]
fn scan_after_a_null_left_an_undefined_window_clears_the_compensation_term() {
    let values = wrap(&[f64::INFINITY, 1.0, 0.0, 0.0, 5.0, 6.0]);
    let validity = vec![true, true, false, false, true, true];
    let mut w = SumWindow::new(&values[..], &validity[..], 0, 1, None);
    assert_eq!(w.update(0, 2), Some(F64(f64::INFINITY)));
    // no overlap: the window of nulls is scanned and is undefined
    assert_eq!(w.update(2, 4), Some(F64(0.0)));
    assert_eq!(w.sum(), None);
    // a null leaves the undefined window: scanned again
    assert_eq!(w.update(3, 5), Some(F64(5.0)));
    assert_eq!(w.update(3, 6), Some(F64(11.0)));
    assert_eq!(w.update(5, 6), Some(F64(6.0)));
}

#[test]
fn infinity_leaving_clears_the_compensation_term() {
    let arr = column(&[Some(1.0), Some(f64::INFINITY), Some(2.0), Some(3.0), Some(4.0)]);
    let out = rolling_sum::<F64, f64>(&arr, 2, 2, false, None);
    let got = options(&out);
    assert_eq!(got[1], Some(f64::INFINITY));
    // infinity leaves at the fourth position: scanned, and the term is zero
    assert_eq!(got[3], Some(5.0));
    assert_eq!(got[4], Some(7.0));
}

#[test]
fn infinity_entering_is_added_plainly() {
    let values = wrap(&[1.0, f64::INFINITY, 2.0]);
    let validity = vec![true; 3];
    let mut w = SumWindow::new(&values[..], &validity[..], 0, 1, None);
    assert_eq!(w.update(0, 2), Some(F64(f64::INFINITY)));
    assert_eq!(w.update(0, 3), Some(F64(f64::INFINITY)));
    // the compensation term is still usable once infinity is gone
    assert_eq!(w.update(2, 3), Some(F64(2.0)));
}

#[test]
fn null_infinity_is_not_a_value() {
    let values = wrap(&[f64::INFINITY, 2.0, 3.0]);
    let validity = vec![false, true, true];
    let mut w = SumWindow::new(&values[..], &validity[..], 0, 2, None);
    assert_eq!(w.sum(), Some(F64(2.0)));
    assert_eq!(w.null_count(), 1);
    assert_eq!(w.update(1, 3), Some(F64(5.0)));
    assert_eq!(w.null_count(), 0);
}

#[test]
fn add_compensates_what_the_sum_rounds_away() {
    let values = wrap(&[1.0]);
    let validity = vec![true];
    let mut w = SumWindow::new(&values[..], &validity[..], 0, 1, None);
    // each addend is less than half a unit in the last place of the sum
    for _ in 0..10 {
        w.add(F64(1e-16));
    }
    assert_eq!(w.sum(), Some(F64(1.000000000000001)));
    assert_eq!(naive_sum(&[&[1.0][..], &[1e-16; 10][..]].concat()), 1.0);
}

#[test]
fn sub_is_the_compensated_addition_of_the_negation() {
    let values = wrap(&[1.0]);
    let validity = vec![true];
    let mut w = SumWindow::new(&values[..], &validity[..], 0, 1, None);
    for _ in 0..10 {
        w.sub(F64(1e-16));
    }
    assert_eq!(w.sum(), Some(F64(0.999999999999999)));
}

#[test]
fn add_and_sub_leave_an_undefined_float_accumulator() {
    let values = wrap(&[1.0]);
    let validity = vec![false];
    let mut w = SumWindow::new(&values[..], &validity[..], 0, 1, None);
    w.add(F64(2.0));
    w.sub(F64(f64::INFINITY));
    assert_eq!(w.sum(), None);
}

#[test]
fn compensated_sum_of_a_large_value_and_alternating_small_ones() {
    let mut values = vec![1e9];
    for k in 0..200_000 {
        values.push(if k % 2 == 0 { 0.1 } else { -0.05 });
    }
    let reference = reference_sum(&values);
    let wrapped = wrap(&values);
    let validity = vec![true; values.len()];
    let mut w = SumWindow::new(&wrapped[..], &validity[..], 0, 1, None);
    let rolled = w.update(0, values.len()).unwrap().0;
    assert!((rolled - reference).abs() <= f64::EPSILON * reference.abs());
    // plain summation drifts by far more than that
    assert!((naive_sum(&values) - reference).abs() > 1e4 * f64::EPSILON * reference.abs());
}

#[test]
fn compensated_sum_of_the_alternating_harmonic_series() {
    let values: Vec<f64> =
        (1..=200_000).map(|k| if k % 2 == 1 { 1.0 / k as f64 } else { -1.0 / k as f64 }).collect();
    let reference = reference_sum(&values);
    let wrapped = wrap(&values);
    let validity = vec![true; values.len()];
    let mut w = SumWindow::new(&wrapped[..], &validity[..], 0, 1, None);
    let rolled = w.update(0, values.len()).unwrap().0;
    assert!((rolled - reference).abs() <= f64::EPSILON * reference.abs());
    assert!((naive_sum(&values) - reference).abs() > 100.0 * f64::EPSILON * reference.abs());
}

#[test]
fn long_float_roll_stays_close_to_fresh_scans() {
    let values: Vec<f64> = (0..5_000).map(|k| if k % 2 == 0 { 1e6 + 0.1 } else { -1e6 }).collect();
    let arr = PrimitiveArray {
        values: wrap(&values),
        validity: Some(vec![true; values.len()]),
    };
    let out = rolling_sum::<F64, f64>(&arr, 100, 100, false, None);
    for i in 99..values.len() {
        let reference = reference_sum(&values[i - 99..=i]);
        let got = out.get(i).unwrap().0;
        assert!((got - reference).abs() <= 1e-9, "position {}: {} vs {}", i, got, reference);
    }
}
