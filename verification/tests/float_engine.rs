use nbody::energy::{correct_energy, energy, energy_gradient};
use nbody::force::{derivative, gravity};
use nbody::rk4::{rk4, rk4ntimes};
use nbody::scalar::Scalar;
use nbody::sim::{Bodies, Body, DT};
use nbody::step::{superstep, DEFAULT_SUBSTEPS};
use std::ops::{Add, Div, Mul, Neg, Sub};

/// An IEEE binary64 number as a scalar of the engine.
#[derive(Clone, Copy, Debug, PartialEq)]
struct R(f64);

impl Add for R {
    type Output = R;
    fn add(self, o: R) -> R {
        R(self.0 + o.0)
    }
}

impl Sub for R {
    type Output = R;
    fn sub(self, o: R) -> R {
        R(self.0 - o.0)
    }
}

impl Mul for R {
    type Output = R;
    fn mul(self, o: R) -> R {
        R(self.0 * o.0)
    }
}

impl Div for R {
    type Output = R;
    fn div(self, o: R) -> R {
        R(self.0 / o.0)
    }
}

impl Neg for R {
    type Output = R;
    fn neg(self) -> R {
        R(-self.0)
    }
}

impl From<u8> for R {
    fn from(v: u8) -> R {
        R(f64::from(v))
    }
}

impl From<i8> for R {
    fn from(v: i8) -> R {
        R(f64::from(v))
    }
}

impl From<u16> for R {
    fn from(v: u16) -> R {
        R(f64::from(v))
    }
}

impl Scalar for R {
    fn sqrt(self) -> R {
        R(self.0.sqrt())
    }

    fn from_count(n: usize) -> R {
        R(n as f64)
    }
}

fn body(x: f64, y: f64, vx: f64, vy: f64, m: f64) -> Body<R> {
    Body { x: R(x), y: R(y), vx: R(vx), vy: R(vy), m: R(m) }
}

fn raw<const N: usize>(a: [R; N]) -> [f64; N] {
    a.map(|r| r.0)
}

fn near(a: f64, b: f64, tol: f64) -> bool {
    (a - b).abs() <= tol
}

/// Two unit masses at (-1, 0) and (1, 0), moving up and down at speed 1/2,
/// under G = 1.
fn pair() -> Bodies<R, 2> {
    let bodies = [body(-1.0, 0.0, 0.0, 0.5, 1.0), body(1.0, 0.0, 0.0, -0.5, 1.0)];
    Bodies::from_bodies(&bodies, R(1.0)).unwrap()
}

/// Three bodies of different masses in no special position.
fn triple() -> Bodies<R, 3> {
    let bodies = [
        body(-1.0, 0.0, 0.0, 0.4, 1.0),
        body(1.0, 0.0, 0.0, -0.4, 2.0),
        body(0.0, 1.5, 0.3, 0.0, 0.5),
    ];
    Bodies::from_bodies(&bodies, R(1.0)).unwrap()
}

#[test]
fn two_equal_bodies_keep_centre_and_energy_over_one_superstep() {
    let before = pair();
    let e0 = energy(before);
    let after = superstep(before, DT(R(0.01)), 10);
    let (cx, cy) = after.com();
    assert_eq!(cx, R(0.0));
    assert_eq!(cy, R(0.0));
    let e1 = energy(after);
    assert!((e1.0 - e0.0).abs() < 1e-9);
    assert_eq!(e0, R(-0.25));
}

#[test]
fn one_superstep_of_the_pair_lands_where_the_formulas_say() {
    let after = superstep(pair(), DT(R(0.01)), 10);
    assert!(near(after.x[0].0, -0.9999875000260416, 1e-15));
    assert!(near(after.x[1].0, 0.9999875000260416, 1e-15));
    assert!(near(after.y[0].0, 0.004999979166692703, 1e-15));
    assert!(near(after.y[1].0, -0.004999979166692703, 1e-15));
    assert!(near(after.vx[0].0, 0.00249998958334636, 1e-15));
    assert!(near(after.vx[1].0, -0.00249998958334636, 1e-15));
    assert!(near(after.vy[0].0, 0.4999937500130209, 1e-15));
    assert!(near(after.vy[1].0, -0.4999937500130209, 1e-15));
    assert_eq!(raw(after.m), [1.0, 1.0]);
    assert_eq!(after.big_g, R(1.0));
}

#[test]
fn a_superstep_of_no_substeps_returns_the_state() {
    let before = triple();
    let after = superstep(before, DT(R(0.5)), 0);
    assert_eq!(raw(after.x), raw(before.x));
    assert_eq!(raw(after.y), raw(before.y));
    assert_eq!(raw(after.vx), raw(before.vx));
    assert_eq!(raw(after.vy), raw(before.vy));
}

#[test]
fn a_superstep_does_not_touch_the_state_it_was_given() {
    let before = pair();
    let _ = superstep(before, DT(R(0.01)), 10);
    assert_eq!(raw(before.x), [-1.0, 1.0]);
    assert_eq!(raw(before.vy), [0.5, -0.5]);
}

#[test]
fn gravity_pulls_two_bodies_towards_each_other() {
    let (fx, fy) = gravity(pair());
    assert_eq!(raw(fx), [0.25, -0.25]);
    assert_eq!(raw(fy), [0.0, 0.0]);
}

#[test]
fn gravity_on_one_body_is_nothing() {
    let one = Bodies::<R, 1>::from_bodies(&[body(2.0, 3.0, 1.0, 0.0, 5.0)], R(1.0)).unwrap();
    let (fx, fy) = gravity(one);
    assert_eq!(raw(fx), [0.0]);
    assert_eq!(raw(fy), [0.0]);
}

#[test]
fn gravity_scales_with_the_constant_and_the_masses() {
    let bodies = [body(0.0, 0.0, 0.0, 0.0, 3.0), body(0.0, 2.0, 0.0, 0.0, 4.0)];
    let s = Bodies::<R, 2>::from_bodies(&bodies, R(2.0)).unwrap();
    let (fx, fy) = gravity(s);
    assert_eq!(raw(fx), [0.0, 0.0]);
    assert_eq!(raw(fy), [6.0, -6.0]);
}

#[test]
fn the_pull_on_one_body_is_the_opposite_of_the_pull_on_the_other() {
    let bodies = [body(0.3, -1.7, 0.0, 0.0, 2.5), body(-4.1, 0.9, 0.0, 0.0, 0.7)];
    let s = Bodies::<R, 2>::from_bodies(&bodies, R(6.5)).unwrap();
    let (fx, fy) = gravity(s);
    assert_eq!(fx[0].0, -fx[1].0);
    assert_eq!(fy[0].0, -fy[1].0);
    assert!(fx[0].0 < 0.0 && fy[0].0 > 0.0);
}

#[test]
fn the_forces_on_three_bodies_cancel() {
    let (fx, fy) = gravity(triple());
    assert!(near(fx[0].0, 0.5853384917269583, 1e-15));
    assert!(near(fx[1].0, -0.6706769834539167, 1e-15));
    assert!(near(fx[2].0, 0.08533849172695833, 1e-15));
    assert!(near(fy[0].0, 0.1280077375904375, 1e-15));
    assert!(near(fy[1].0, 0.256015475180875, 1e-15));
    assert!(near(fy[2].0, -0.38402321277131246, 1e-15));
    assert!(near(fx[0].0 + fx[1].0 + fx[2].0, 0.0, 1e-15));
    assert!(near(fy[0].0 + fy[1].0 + fy[2].0, 0.0, 1e-15));
}

#[test]
fn bodies_on_one_another_give_a_force_that_is_no_number() {
    let bodies = [body(1.0, 2.0, 0.0, 0.0, 1.0), body(1.0, 2.0, 0.0, 0.0, 1.0)];
    let s = Bodies::<R, 2>::from_bodies(&bodies, R(1.0)).unwrap();
    let (fx, fy) = gravity(s);
    assert!(!fx[0].0.is_finite() && !fx[1].0.is_finite());
    assert!(!fy[0].0.is_finite() && !fy[1].0.is_finite());
    assert!(!energy(s).0.is_finite());
}

#[test]
fn derivative_is_velocity_and_force_over_mass() {
    let bodies = [body(-1.0, 0.0, 0.0, 0.5, 2.0), body(1.0, 0.0, 0.0, -0.5, 4.0)];
    let s = Bodies::<R, 2>::from_bodies(&bodies, R(1.0)).unwrap();
    let d = derivative(s);
    assert_eq!(raw(d.x), [0.0, 0.0]);
    assert_eq!(raw(d.y), [0.5, -0.5]);
    assert_eq!(raw(d.vx), [1.0, -0.5]);
    assert_eq!(raw(d.vy), [0.0, 0.0]);
}

#[test]
fn energy_is_kinetic_plus_potential() {
    assert_eq!(energy(pair()), R(-0.25));
    assert!(near(energy(triple()).0, -1.5695502943378437, 1e-15));
}

#[test]
fn energy_of_bodies_at_rest_is_the_negative_potential() {
    let bodies = [body(0.0, 0.0, 0.0, 0.0, 3.0), body(3.0, 4.0, 0.0, 0.0, 5.0)];
    let s = Bodies::<R, 2>::from_bodies(&bodies, R(2.0)).unwrap();
    assert_eq!(energy(s), R(-6.0));
}

#[test]
fn energy_of_one_moving_body_is_half_m_v_squared() {
    let one = Bodies::<R, 1>::from_bodies(&[body(2.0, 3.0, 3.0, 4.0, 5.0)], R(1.0)).unwrap();
    assert_eq!(energy(one), R(62.5));
}

#[test]
fn energy_gradient_is_force_and_momentum() {
    let g = energy_gradient(pair());
    assert_eq!(raw(g.x), [0.25, -0.25]);
    assert_eq!(raw(g.y), [0.0, 0.0]);
    assert_eq!(raw(g.vx), [0.0, 0.0]);
    assert_eq!(raw(g.vy), [0.5, -0.5]);
}

#[test]
fn correct_energy_is_the_gradient_over_its_squared_length() {
    let c = correct_energy(pair());
    assert_eq!(raw(c.x), [0.4, -0.4]);
    assert_eq!(raw(c.y), [0.0, 0.0]);
    assert_eq!(raw(c.vx), [0.0, 0.0]);
    assert_eq!(raw(c.vy), [0.8, -0.8]);
}

#[test]
fn correct_energy_of_a_single_body_at_rest_is_no_number() {
    let one = Bodies::<R, 1>::from_bodies(&[body(2.0, 3.0, 0.0, 0.0, 5.0)], R(1.0)).unwrap();
    let c = correct_energy(one);
    assert!(c.x[0].0.is_nan() && c.vx[0].0.is_nan());
    let after = superstep(one, DT(R(1.0)), 8);
    assert!(after.x[0].0.is_nan() && after.y[0].0.is_nan());
}

#[test]
fn a_single_moving_body_drifts_in_a_straight_line() {
    let one = Bodies::<R, 1>::from_bodies(&[body(2.0, 3.0, 1.0, 0.0, 5.0)], R(1.0)).unwrap();
    let after = superstep(one, DT(R(1.0)), 8);
    assert_eq!(raw(after.x), [3.0]);
    assert_eq!(raw(after.y), [3.0]);
    assert_eq!(raw(after.vx), [1.0]);
    assert_eq!(raw(after.vy), [0.0]);
}

#[test]
fn two_equal_bodies_at_rest_keep_their_centre_while_they_fall() {
    let bodies = [body(-1.0, 0.0, 0.0, 0.0, 1.0), body(1.0, 0.0, 0.0, 0.0, 1.0)];
    let mut s = Bodies::<R, 2>::from_bodies(&bodies, R(1.0)).unwrap();
    for _ in 0..50 {
        s = superstep(s, DT(R(0.01)), 10);
        let (cx, cy) = s.com();
        assert!(near(cx.0, 0.0, 1e-12));
        assert!(near(cy.0, 0.0, 1e-12));
    }
    assert!(near(s.x[0].0, -0.9684167905610128, 1e-12));
    assert!(near(s.vx[0].0, 0.12769737709882747, 1e-12));
    assert!(s.x[0].0 > -1.0 && s.x[1].0 < 1.0);
}

#[test]
fn energy_drifts_very_little_over_many_supersteps() {
    let start = triple();
    let e0 = energy(start).0;
    let mut s = start;
    for _ in 0..20 {
        s = superstep(s, DT(R(0.01)), 10);
    }
    let e1 = energy(s).0;
    assert!(((e1 - e0) / e0).abs() < 1e-6);
    let mut p = pair();
    let f0 = energy(p).0;
    for _ in 0..20 {
        p = superstep(p, DT(R(0.1)), 10);
    }
    assert!(((energy(p).0 - f0) / f0).abs() < 1e-6);
}

#[test]
fn a_mirrored_pair_stays_mirrored() {
    let bodies = [body(-1.0, 0.25, 0.1, 0.5, 3.0), body(1.0, -0.25, -0.1, -0.5, 3.0)];
    let mut s = Bodies::<R, 2>::from_bodies(&bodies, R(2.0)).unwrap();
    for _ in 0..7 {
        s = superstep(s, DT(R(0.05)), 10);
        assert_eq!(s.x[0].0, -s.x[1].0);
        assert_eq!(s.y[0].0, -s.y[1].0);
        assert_eq!(s.vx[0].0, -s.vx[1].0);
        assert_eq!(s.vy[0].0, -s.vy[1].0);
    }
    assert!(near(s.x[1].0, 0.8810634275292025, 1e-12));
    assert!(near(s.y[1].0, -0.3986522495711066, 1e-12));
}

#[test]
fn without_gravity_bodies_drift_in_straight_lines() {
    let bodies = [
        body(-1.0, 0.0, 1.0, 0.25, 1.0),
        body(1.0, 2.0, -2.0, 0.0, 5.0),
        body(3.0, -4.0, 0.5, -1.0, 9.0),
    ];
    let s = Bodies::<R, 3>::from_bodies(&bodies, R(0.0)).unwrap();
    let after = superstep(s, DT(R(1.0)), 8);
    assert_eq!(raw(after.x), [0.0, -1.0, 3.5]);
    assert_eq!(raw(after.y), [0.25, 2.0, -5.0]);
    assert_eq!(raw(after.vx), [1.0, -2.0, 0.5]);
    assert_eq!(raw(after.vy), [0.25, 0.0, -1.0]);
    let later = superstep(s, DT(R(0.3)), 10);
    for i in 0..3 {
        assert!(near(later.x[i].0, s.x[i].0 + 0.3 * s.vx[i].0, 1e-12));
        assert!(near(later.y[i].0, s.y[i].0 + 0.3 * s.vy[i].0, 1e-12));
    }
}

#[test]
fn without_gravity_the_masses_do_not_matter() {
    let light = [body(-1.0, 0.0, 1.0, 0.25, 1.0), body(1.0, 2.0, -2.0, 0.0, 1.0)];
    let heavy = [body(-1.0, 0.0, 1.0, 0.25, 700.0), body(1.0, 2.0, -2.0, 0.0, 0.001)];
    let a = superstep(Bodies::<R, 2>::from_bodies(&light, R(0.0)).unwrap(), DT(R(1.0)), 8);
    let b = superstep(Bodies::<R, 2>::from_bodies(&heavy, R(0.0)).unwrap(), DT(R(1.0)), 8);
    assert_eq!(raw(a.x), raw(b.x));
    assert_eq!(raw(a.y), raw(b.y));
    assert_eq!(raw(a.x), [0.0, -1.0]);
}

#[test]
fn one_runge_kutta_step_of_the_pair() {
    let mut dv = |s: Bodies<R, 2>| derivative(s);
    let after = rk4(pair(), &mut dv, DT(R(0.001)));
    assert!(near(after.x[0].0, -0.9999998750000026, 1e-15));
    assert!(near(after.y[0].0, 0.0004999999791666663, 1e-15));
    assert!(near(after.vx[0].0, 0.000249999989583334, 1e-15));
    assert!(near(after.vy[0].0, 0.4999999375000013, 1e-15));
    assert_eq!(raw(after.m), [1.0, 1.0]);
}

#[test]
fn five_runge_kutta_steps_of_the_pair() {
    let mut dv = |s: Bodies<R, 2>| derivative(s);
    let after = rk4ntimes(pair(), &mut dv, DT(R(0.001)), 5);
    assert!(near(after.x[1].0, 0.9999968750016276, 1e-15));
    assert!(near(after.y[1].0, -0.0024999973958341444, 1e-15));
    assert!(near(after.vx[1].0, -0.0012499986979170766, 1e-15));
    assert!(near(after.vy[1].0, -0.4999984375008138, 1e-15));
}

#[test]
fn com_is_the_plain_mean_of_the_positions() {
    let (cx, cy) = triple().com();
    assert_eq!(cx, R(0.0));
    assert_eq!(cy, R(0.5));
}

#[test]
fn tam_is_the_sum_of_m_times_dy_vx_minus_dx_vy() {
    let s = triple();
    assert!(near(s.tam(R(0.0), R(0.0)).0, 1.4250000000000003, 1e-15));
    assert!(near(s.tam(R(1.0), R(-1.0)).0, 1.175, 1e-15));
    let (cx, cy) = s.com();
    assert!(s.tam(cx, cy).0.is_finite());
}

#[test]
fn a_superstep_has_ten_substeps_by_default() {
    assert_eq!(DEFAULT_SUBSTEPS, 10);
    let a = superstep(pair(), DT(R(0.01)), DEFAULT_SUBSTEPS);
    let b = superstep(pair(), DT(R(0.01)), 10);
    assert_eq!(raw(a.x), raw(b.x));
    assert_eq!(raw(a.vy), raw(b.vy));
}

#[test]
fn the_force_on_each_body_points_at_the_other() {
    let bodies = [body(0.0, 0.0, 0.0, 0.0, 1.0), body(3.0, 4.0, 0.0, 0.0, 1.0)];
    let s = Bodies::<R, 2>::from_bodies(&bodies, R(125.0)).unwrap();
    let (fx, fy) = gravity(s);
    assert_eq!(raw(fx), [3.0, -3.0]);
    assert_eq!(raw(fy), [4.0, -4.0]);
}
