use loaded_string::{Mass, Scalar, Sys};
use std::f64::consts::PI;

#[derive(Clone, Copy, Debug, PartialEq, PartialOrd)]
struct Real(f64);

impl Scalar for Real {
    fn from_usize(n: usize) -> Self {
        Real(n as f64)
    }
    fn from_i32(n: i32) -> Self {
        Real(n as f64)
    }
    fn half() -> Self {
        Real(0.5)
    }
    fn pi() -> Self {
        Real(std::f64::consts::PI)
    }
    fn plus(self, rhs: Self) -> Self {
        Real(self.0 + rhs.0)
    }
    fn minus(self, rhs: Self) -> Self {
        Real(self.0 - rhs.0)
    }
    fn times(self, rhs: Self) -> Self {
        Real(self.0 * rhs.0)
    }
    fn over(self, rhs: Self) -> Self {
        Real(self.0 / rhs.0)
    }
    fn abs(self) -> Self {
        Real(self.0.abs())
    }
    fn floor(self) -> Self {
        Real(self.0.floor())
    }
    fn sin(self) -> Self {
        Real(self.0.sin())
    }
    fn same(self, rhs: Self) -> bool {
        self.0 == rhs.0
    }
}

fn chain_of(n: usize) -> Sys<Real> {
    let mut sys = Sys::from_masses(Vec::new());
    sys.resize(n);
    sys
}

fn stirred(n: usize) -> Sys<Real> {
    let mut masses = Vec::new();
    for i in 0..n {
        masses.push(Mass { pos: Real(i as f64), past_pos: Real(-1.0), accel: Real(9.0) });
    }
    Sys::from_masses(masses)
}

fn shape_positions(sys: &Sys<Real>) -> Vec<f64> {
    sys.masses().iter().map(|m| m.pos.0).collect()
}

fn assert_at_rest(sys: &Sys<Real>) {
    for m in sys.masses().iter() {
        assert_eq!(m.past_pos, m.pos);
        assert_eq!(m.accel, Real(0.0));
    }
}

fn sign_changes(values: &[f64]) -> usize {
    let mut changes = 0;
    let mut last = 0.0;
    for v in values {
        if *v != 0.0 {
            if last * *v < 0.0 {
                changes += 1;
            }
            last = *v;
        }
    }
    changes
}

#[test]
fn pluck_places_a_triangle() {
    let mut sys = stirred(3);
    sys.pluck(Real(2.0));
    assert_eq!(shape_positions(&sys), vec![1.0, 2.0, 1.0]);
    assert_at_rest(&sys);
    let mut one = stirred(1);
    one.pluck(Real(3.0));
    assert_eq!(shape_positions(&one), vec![3.0]);
}

#[test]
fn pluck_follows_its_formula() {
    let n = 7usize;
    let mut sys = chain_of(n);
    sys.pluck(Real(1.7));
    let p = shape_positions(&sys);
    for i in 0..n {
        let x = (i + 1) as f64 / (n as f64 + 1.0);
        assert_eq!(p[i], 1.7 * (1.0 - 2.0 * (x - 0.5).abs()));
    }
}

#[test]
fn pluck_is_symmetric_and_falls_to_the_ends() {
    for n in 1..40usize {
        let mut sys = chain_of(n);
        sys.pluck(Real(1.7));
        let p = shape_positions(&sys);
        assert_eq!(p.len(), n);
        for i in 0..n {
            assert!((p[i] - p[n - 1 - i]).abs() <= 1e-15);
        }
        for i in 1..n {
            if 2 * i + 1 <= n {
                assert!(p[i - 1] < p[i]);
            }
            if 2 * (i - 1) + 1 >= n {
                assert!(p[i - 1] > p[i]);
            }
        }
        for v in p.iter() {
            assert!(*v > 0.0 && *v <= 1.7);
        }
    }
}

#[test]
fn pluck_with_negative_height_is_accepted() {
    let mut sys = chain_of(3);
    sys.pluck(Real(-2.0));
    assert_eq!(shape_positions(&sys), vec![-1.0, -2.0, -1.0]);
}

#[test]
fn parabola_places_an_inverted_parabola() {
    let mut odd = stirred(3);
    odd.parabola(Real(4.0));
    assert_eq!(shape_positions(&odd), vec![3.0, 4.0, 3.0]);
    assert_at_rest(&odd);
    let mut even = stirred(4);
    even.parabola(Real(16.0));
    assert_eq!(shape_positions(&even), vec![7.0, 15.0, 15.0, 7.0]);
    assert_at_rest(&even);
    let mut one = stirred(1);
    one.parabola(Real(5.0));
    assert_eq!(shape_positions(&one), vec![5.0]);
    let mut two = stirred(2);
    two.parabola(Real(4.0));
    assert_eq!(shape_positions(&two), vec![3.0, 3.0]);
}

#[test]
fn parabola_peaks_in_the_middle() {
    for n in 1..30usize {
        let mut sys = chain_of(n);
        sys.parabola(Real(2.5));
        let p = shape_positions(&sys);
        for i in 0..n {
            assert!(p[i] > 0.0 && p[i] <= 2.5);
            assert!((p[i] - p[n - 1 - i]).abs() <= 1e-15);
        }
        if n % 2 == 1 {
            assert_eq!(p[n / 2], 2.5);
        }
    }
}

#[test]
fn fundamental_mode_is_a_single_hump() {
    let mut sys = stirred(9);
    sys.harmonic_state(Real(1.0), 1);
    let p = shape_positions(&sys);
    assert_eq!(p.len(), 9);
    for k in 1..=9usize {
        let expected = (k as f64 / 10.0 * PI).sin();
        assert!((p[k - 1] - expected).abs() < 1e-15);
        assert!(p[k - 1] > 0.0);
    }
    assert_eq!(p[4], 1.0);
    for i in 0..4 {
        assert!(p[i] < p[i + 1]);
        assert!(p[8 - i] < p[7 - i]);
        assert!((p[i] - p[8 - i]).abs() < 1e-15);
    }
    assert_eq!(sign_changes(&p), 0);
    assert_at_rest(&sys);
}

#[test]
fn second_mode_changes_sign_once() {
    let mut sys = chain_of(9);
    sys.harmonic_state(Real(1.0), 2);
    let p = shape_positions(&sys);
    assert_eq!(sign_changes(&p), 1);
    for i in 0..4 {
        assert!(p[i] > 0.0);
        assert!(p[8 - i] < 0.0);
    }
    assert!(p[4].abs() < 1e-15);
}

#[test]
fn harmonic_state_follows_its_formula() {
    let n = 6usize;
    let mut sys = chain_of(n);
    sys.harmonic_state(Real(0.8), 3);
    let p = shape_positions(&sys);
    for i in 0..n {
        let x = (i + 1) as f64 / (n as f64 + 1.0);
        assert_eq!(p[i], 0.8 * (x * PI * 3.0).sin());
    }
}

#[test]
fn harmonic_state_takes_any_mode() {
    let mut sys = chain_of(3);
    sys.harmonic_state(Real(2.0), -1);
    let p = shape_positions(&sys);
    assert!((p[1] + 2.0).abs() < 1e-15);
    sys.harmonic_state(Real(2.0), 0);
    assert_eq!(shape_positions(&sys), vec![0.0, 0.0, 0.0]);
}

#[test]
fn generators_leave_an_empty_chain_empty() {
    let mut sys = chain_of(0);
    sys.pluck(Real(1.0));
    sys.parabola(Real(1.0));
    sys.harmonic_state(Real(1.0), 1);
    assert_eq!(sys.len(), 0);
}

#[test]
fn pluck_of_two_masses_is_symmetric_up_to_rounding() {
    let mut sys = chain_of(2);
    sys.pluck(Real(1.0));
    let p = shape_positions(&sys);
    // One third and two thirds are not rounded alike.
    assert_eq!(p[0], 1.0 - 2.0 * (1.0 / 3.0 - 0.5f64).abs());
    assert_eq!(p[1], 1.0 - 2.0 * (2.0 / 3.0 - 0.5f64).abs());
    assert!((p[0] - p[1]).abs() <= f64::EPSILON);
    assert!((p[0] - 2.0 / 3.0).abs() <= f64::EPSILON);
}
