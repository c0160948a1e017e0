use std::ops::{Add, Div, Mul, Sub};

use pecunia::indicators::averages::{
    exponential_average, exponential_average_multiplier, exponential_moving_average,
    simple_average, simple_moving_average, triangular_moving_average, weighted_average,
    weighted_average_of, weighted_moving_average,
};
use pecunia::indicators::momentum::{momentum, moving_momentum};
use pecunia::market_value::{add_relative, count_scalar, sub_relative, zero, MarketValue};

#[derive(Clone, Copy, Debug, PartialEq)]
struct Num(f64);

impl Add for Num {
    type Output = Num;
    fn add(self, rhs: Num) -> Num {
        Num(self.0 + rhs.0)
    }
}

impl Sub for Num {
    type Output = Num;
    fn sub(self, rhs: Num) -> Num {
        Num(self.0 - rhs.0)
    }
}

impl Mul<f64> for Num {
    type Output = Num;
    fn mul(self, rhs: f64) -> Num {
        Num(self.0 * rhs)
    }
}

impl Div<f64> for Num {
    type Output = Num;
    fn div(self, rhs: f64) -> Num {
        Num(self.0 / rhs)
    }
}

impl From<f64> for Num {
    fn from(v: f64) -> Num {
        Num(v)
    }
}

impl MarketValue for Num {
    type Scalar = f64;
}

fn nums(values: &[f64]) -> Vec<Num> {
    values.iter().map(|v| Num(*v)).collect()
}

#[test]
fn simple_average_of_nothing_is_zero() {
    assert_eq!(simple_average::<Num>(&[]), Num(0.0));
}

#[test]
fn simple_average_of_one_is_that_one() {
    assert_eq!(simple_average(&nums(&[7.25])), Num(7.25));
}

#[test]
fn simple_average_is_the_mean() {
    assert_eq!(simple_average(&nums(&[1.0, 2.0, 3.0, 4.0])), Num(2.5));
}

#[test]
fn simple_moving_average_windows() {
    let v = nums(&[1.0, 2.0, 3.0, 4.0, 5.0]);
    assert_eq!(simple_moving_average(&v, 2), nums(&[1.5, 2.5, 3.5, 4.5]));
    assert_eq!(simple_moving_average(&v, 5), nums(&[3.0]));
    assert_eq!(simple_moving_average(&v, 1), v);
}

#[test]
fn simple_moving_average_length_is_len_minus_interval_plus_one() {
    let v = nums(&[3.0, 1.0, 4.0, 1.0, 5.0, 9.0, 2.0]);
    for k in 1..=v.len() {
        assert_eq!(simple_moving_average(&v, k).len(), v.len() - k + 1);
    }
}

#[test]
fn simple_moving_average_degenerate_intervals_are_empty() {
    let v = nums(&[1.0, 2.0, 3.0]);
    assert!(simple_moving_average(&v, 0).is_empty());
    assert!(simple_moving_average(&v, 4).is_empty());
    assert!(simple_moving_average::<Num>(&[], 1).is_empty());
}

#[test]
fn exponential_average_multiplier_divides_by_interval_plus_one() {
    assert_eq!(exponential_average_multiplier(2.0, 3), 0.5);
    assert_eq!(exponential_average_multiplier(1.0, 0), 1.0);
}

#[test]
fn zero_and_counts() {
    assert_eq!(zero::<Num>(), Num(0.0));
    assert_eq!(count_scalar::<f64>(0), 0.0);
    assert_eq!(count_scalar::<f64>(12345), 12345.0);
    assert_eq!(count_scalar::<f64>(usize::MAX), usize::MAX as f64);
    assert_eq!(count_scalar::<f64>(0x1_2345_6789), 0x1_2345_6789usize as f64);
}

#[test]
fn exponential_average_step() {
    // (10 - 4) * 0.5 + 4
    assert_eq!(exponential_average(Num(10.0), Num(4.0), 0.5), Num(7.0));
}

#[test]
fn exponential_moving_average_values() {
    let v = nums(&[2.0, 4.0, 8.0, 16.0]);
    // multiplier 1 / (1 + 1) = 0.5, seed = 2
    let ema = exponential_moving_average(&v, 1.0, 1);
    assert_eq!(ema, nums(&[3.0, 5.5, 10.75]));
}

#[test]
fn exponential_moving_average_first_value_is_seeded_by_the_mean() {
    let v = nums(&[1.0, 3.0, 5.0, 7.0, 9.0]);
    let k = 2;
    let smoothing = 2.0;
    let ema = exponential_moving_average(&v, smoothing, k);
    assert_eq!(ema.len(), v.len() - k);
    let expected = exponential_average(
        v[k],
        simple_average(&v[..k]),
        exponential_average_multiplier(smoothing, k),
    );
    assert_eq!(ema[0], expected);
}

#[test]
fn exponential_moving_average_degenerate_intervals_are_empty() {
    let v = nums(&[1.0, 2.0, 3.0]);
    assert!(exponential_moving_average(&v, 2.0, 0).is_empty());
    assert!(exponential_moving_average(&v, 2.0, 3).is_empty());
    assert!(exponential_moving_average(&v, 2.0, 4).is_empty());
    assert_eq!(exponential_moving_average(&v, 2.0, 2).len(), 1);
}

#[test]
fn triangular_moving_average_with_interval_one_is_sma_twice() {
    let v = nums(&[4.0, 8.0, 15.0, 16.0, 23.0, 42.0]);
    let twice = simple_moving_average(&simple_moving_average(&v, 1), 1);
    assert_eq!(triangular_moving_average(&v, 1), twice);
    assert_eq!(triangular_moving_average(&v, 1), v);
}

#[test]
fn triangular_moving_average_drops_the_last_element() {
    let v = nums(&[1.0, 2.0, 3.0, 4.0, 5.0]);
    // first pass [1.5, 2.5, 3.5, 4.5], second [2, 3, 4] written over its front
    assert_eq!(triangular_moving_average(&v, 2), nums(&[2.0, 3.0, 4.0]));
    // first pass [2, 3, 4], second [3] written over its front
    assert_eq!(triangular_moving_average(&v, 3), nums(&[3.0, 3.0]));
}

#[test]
fn triangular_moving_average_degenerate_intervals_are_empty() {
    let v = nums(&[1.0, 2.0, 3.0]);
    assert!(triangular_moving_average(&v, 0).is_empty());
    assert!(triangular_moving_average(&v, 4).is_empty());
    // one window only: the first pass has one element, which is dropped
    assert!(triangular_moving_average(&v, 3).is_empty());
}

#[test]
fn weighted_average_of_one_is_not_divided() {
    assert_eq!(weighted_average(&nums(&[4.0]), |_| 3.0), Num(12.0));
}

#[test]
fn weighted_average_divides_by_the_count() {
    // (1 * 1 + 2 * 2 + 3 * 3) / 3, not by the sum of the weights
    let v = nums(&[1.0, 2.0, 3.0]);
    assert_eq!(weighted_average(&v, |i| i as f64 + 1.0), Num(14.0 / 3.0));
    assert_eq!(
        weighted_average_of(&v, &[1.0, 2.0, 3.0]),
        Num(14.0 / 3.0)
    );
}

#[test]
fn weighted_average_of_nothing_is_zero() {
    assert_eq!(weighted_average::<Num, _>(&[], |_| 2.0), Num(0.0));
}

#[test]
fn weighted_moving_average_indexes_weights_from_the_window_start() {
    let v = nums(&[1.0, 2.0, 3.0, 4.0]);
    let wma = weighted_moving_average(&v, |i| i as f64 + 1.0, 2);
    assert_eq!(wma, nums(&[2.5, 4.0, 5.5]));
    assert!(weighted_moving_average(&v, |_| 1.0, 0).is_empty());
    assert!(weighted_moving_average(&v, |_| 1.0, 5).is_empty());
}

#[test]
fn momentum_is_last_minus_first() {
    assert_eq!(momentum(Num(3.0), Num(10.0)), Num(7.0));
}

#[test]
fn moving_momentum_spans_each_window() {
    let v = nums(&[1.0, 4.0, 9.0, 16.0, 25.0]);
    let m = moving_momentum(&v, 3);
    assert_eq!(m, nums(&[8.0, 12.0, 16.0]));
    for i in 0..m.len() {
        assert_eq!(m[i], Num(v[i + 3 - 1].0 - v[i].0));
    }
    assert_eq!(moving_momentum(&v, 1), nums(&[0.0, 0.0, 0.0, 0.0, 0.0]));
    assert!(moving_momentum(&v, 0).is_empty());
    assert!(moving_momentum(&v, 6).is_empty());
}

#[test]
fn adding_a_percent_is_relative() {
    let a = Num(100.0);
    let p = 0.05;
    assert_eq!(add_relative(&a, p), Num(105.0));
    assert_eq!(a * p, Num(5.0));
    assert_eq!(sub_relative(&a, p), Num(95.0));
}
