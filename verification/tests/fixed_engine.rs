use nbody::energy::{correct_energy, energy, energy_gradient};
use nbody::fixed::{Fixed, ONE};
use nbody::force::{derivative, gravity};
use nbody::rk4::{rk4, rk4ntimes};
use nbody::sim::{Bodies, DT};
use nbody::step::superstep;

fn fx(raw: i64) -> Fixed {
    Fixed { raw }
}

fn raw<const N: usize>(a: [Fixed; N]) -> [i64; N] {
    a.map(|v| v.raw)
}

/// Two unit masses at (-1, 0) and (1, 0), moving up and down at speed 1/2,
/// under G = 1.
fn pair() -> Bodies<Fixed, 2> {
    Bodies {
        x: [fx(-ONE), fx(ONE)],
        y: [fx(0), fx(0)],
        vx: [fx(0), fx(0)],
        vy: [fx(ONE / 2), fx(-ONE / 2)],
        m: [fx(ONE), fx(ONE)],
        big_g: fx(ONE),
    }
}

/// Masses 1, 2 and 3 at (-1, 0), (1, 0) and (0, 2).
fn triple() -> Bodies<Fixed, 3> {
    Bodies {
        x: [fx(-ONE), fx(ONE), fx(0)],
        y: [fx(0), fx(0), fx(2 * ONE)],
        vx: [fx(0), fx(0), fx(ONE / 4)],
        vy: [fx(ONE / 2), fx(-ONE / 2), fx(0)],
        m: [fx(ONE), fx(2 * ONE), fx(3 * ONE)],
        big_g: fx(ONE),
    }
}

#[test]
fn fixed_gravity_of_the_pair_is_a_quarter() {
    let (ax, ay) = gravity(pair());
    assert_eq!(raw(ax), [ONE / 4, -ONE / 4]);
    assert_eq!(raw(ay), [0, 0]);
}

#[test]
fn fixed_gravity_of_three_bodies() {
    let (ax, ay) = gravity(triple());
    assert_eq!(raw(ax), [3299944308, -4452404969, 1152460661]);
    assert_eq!(raw(ay), [2304921320, 4609842642, -6914763962]);
}

#[test]
fn fixed_gravity_adds_each_pull_once_and_its_negation_once() {
    let (ax, ay) = gravity(triple());
    assert_eq!(ax[0].raw + ax[1].raw + ax[2].raw, 0);
    assert_eq!(ay[0].raw + ay[1].raw + ay[2].raw, 0);
}

#[test]
fn fixed_bodies_on_one_another_feel_no_force() {
    let mut s = pair();
    s.x = [fx(ONE), fx(ONE)];
    s.vy = [fx(0), fx(0)];
    let (ax, ay) = gravity(s);
    assert_eq!(raw(ax), [0, 0]);
    assert_eq!(raw(ay), [0, 0]);
    assert_eq!(energy(s), fx(-i64::MAX));
}

#[test]
fn fixed_derivative_of_three_bodies() {
    let d = derivative(triple());
    assert_eq!(raw(d.x), [0, 0, ONE / 4]);
    assert_eq!(raw(d.y), [ONE / 2, -ONE / 2, 0]);
    assert_eq!(raw(d.vx), [3299944308, -2226202484, 384153553]);
    assert_eq!(raw(d.vy), [2304921320, 2304921321, -2304921320]);
}

#[test]
fn fixed_energy() {
    assert_eq!(energy(pair()), fx(-ONE / 4));
    assert_eq!(energy(triple()), fx(-19568611280));
}

#[test]
fn fixed_energy_gradient() {
    let g = energy_gradient(triple());
    assert_eq!(raw(g.x), [3299944308, -4452404969, 1152460661]);
    assert_eq!(raw(g.y), [2304921320, 4609842642, -6914763962]);
    assert_eq!(raw(g.vx), [0, 0, 3 * ONE / 4]);
    assert_eq!(raw(g.vy), [ONE / 2, -ONE, 0]);
}

#[test]
fn fixed_correct_energy() {
    let c = correct_energy(pair());
    assert_eq!(raw(c.x), [1717986918, -1717986918]);
    assert_eq!(raw(c.y), [0, 0]);
    assert_eq!(raw(c.vx), [0, 0]);
    assert_eq!(raw(c.vy), [3435973836, -3435973836]);
    let d = correct_energy(triple());
    assert_eq!(raw(d.x), [435263610, -587273506, 152009895]);
    assert_eq!(raw(d.y), [304019790, 608039581, -912059371]);
    assert_eq!(raw(d.vx), [0, 0, 424880573]);
    assert_eq!(raw(d.vy), [283253715, -566507431, 0]);
}

#[test]
fn fixed_runge_kutta_step() {
    let mut dv = |s: Bodies<Fixed, 2>| derivative(s);
    let after = rk4(pair(), &mut dv, DT(fx(ONE / 1024)));
    assert_eq!(raw(after.x), [-4294966785, 4294966785]);
    assert_eq!(raw(after.y), [2097151, -2097151]);
    assert_eq!(raw(after.vx), [1048575, -1048575]);
    assert_eq!(raw(after.vy), [2147483393, -2147483393]);
    assert_eq!(raw(after.m), [ONE, ONE]);
    assert_eq!(after.big_g, fx(ONE));
}

#[test]
fn fixed_runge_kutta_steps() {
    let mut dv = |s: Bodies<Fixed, 3>| derivative(s);
    let after = rk4ntimes(triple(), &mut dv, DT(fx(ONE / 32)), 2);
    assert_eq!(raw(after.x), [-4288487485, 4290650694, 67826660]);
    assert_eq!(raw(after.y), [138696173, -129711318, 8585437506]);
    assert_eq!(raw(after.vx), [207936733, -137649692, 1096196041]);
    assert_eq!(raw(after.vy), [2290445468, -2003180591, -143855977]);
}

#[test]
fn fixed_superstep_of_the_pair() {
    let after = superstep(pair(), DT(fx(ONE / 64)), 4);
    assert_eq!(raw(after.x), [-4294836227, 4294836227]);
    assert_eq!(raw(after.y), [33554088, -33554088]);
    assert_eq!(raw(after.vx), [16777044, -16777044]);
    assert_eq!(raw(after.vy), [2147418118, -2147418118]);
    assert_eq!(energy(after), fx(-1073741819));
    let (cx, cy) = after.com();
    assert_eq!((cx, cy), (fx(0), fx(0)));
}

#[test]
fn fixed_superstep_of_three_bodies() {
    let after = superstep(triple(), DT(fx(ONE / 16)), 3);
    assert_eq!(raw(after.x), [-4288487486, 4290650695, 67826657]);
    assert_eq!(raw(after.y), [138696164, -129711310, 8585437506]);
    assert_eq!(raw(after.vx), [207936721, -137649685, 1096196040]);
    assert_eq!(raw(after.vy), [2290445460, -2003180601, -143855968]);
    assert_eq!(raw(after.m), [ONE, 2 * ONE, 3 * ONE]);
    assert_eq!(energy(after), fx(-19568611281));
}

#[test]
fn fixed_superstep_of_no_substeps_returns_the_state() {
    let after = superstep(pair(), DT(fx(ONE / 64)), 0);
    assert_eq!(raw(after.x), [-ONE, ONE]);
    assert_eq!(raw(after.y), [0, 0]);
    assert_eq!(raw(after.vx), [0, 0]);
    assert_eq!(raw(after.vy), [ONE / 2, -ONE / 2]);
}

#[test]
fn fixed_single_body_at_rest_stays_where_it_is() {
    let one = Bodies::<Fixed, 1> {
        x: [fx(2 * ONE)],
        y: [fx(3 * ONE)],
        vx: [fx(0)],
        vy: [fx(0)],
        m: [fx(5 * ONE)],
        big_g: fx(ONE),
    };
    let after = superstep(one, DT(fx(ONE)), 2);
    assert_eq!(raw(after.x), [2 * ONE]);
    assert_eq!(raw(after.y), [3 * ONE]);
    assert_eq!(raw(after.vx), [0]);
    assert_eq!(raw(after.vy), [0]);
}

#[test]
fn fixed_bodies_without_gravity_drift_in_straight_lines() {
    let s = Bodies::<Fixed, 3> {
        x: [fx(-ONE), fx(ONE), fx(3 * ONE)],
        y: [fx(0), fx(2 * ONE), fx(-4 * ONE)],
        vx: [fx(ONE), fx(-2 * ONE), fx(ONE / 2)],
        vy: [fx(ONE / 4), fx(0), fx(-ONE)],
        m: [fx(ONE), fx(5 * ONE), fx(9 * ONE)],
        big_g: fx(0),
    };
    let after = superstep(s, DT(fx(ONE)), 8);
    assert_eq!(raw(after.x), [0, -ONE, 7 * ONE / 2]);
    assert_eq!(raw(after.y), [ONE / 4, 2 * ONE, -5 * ONE]);
    assert_eq!(raw(after.vx), raw(s.vx));
    assert_eq!(raw(after.vy), raw(s.vy));
}

#[test]
fn fixed_mirrored_pair_stays_mirrored() {
    let mut s = Bodies::<Fixed, 2> {
        x: [fx(-ONE), fx(ONE)],
        y: [fx(ONE / 4), fx(-ONE / 4)],
        vx: [fx(ONE / 8), fx(-ONE / 8)],
        vy: [fx(ONE / 2), fx(-ONE / 2)],
        m: [fx(3 * ONE), fx(3 * ONE)],
        big_g: fx(2 * ONE),
    };
    for _ in 0..5 {
        s = superstep(s, DT(fx(ONE / 16)), 4);
        assert_eq!(s.x[0].raw, -s.x[1].raw);
        assert_eq!(s.y[0].raw, -s.y[1].raw);
        assert_eq!(s.vx[0].raw, -s.vx[1].raw);
        assert_eq!(s.vy[0].raw, -s.vy[1].raw);
    }
    assert_eq!(raw(s.x), [-3839053591, 3839053591]);
    assert_eq!(raw(s.y), [1656185879, -1656185879]);
    assert_eq!(raw(s.vx), [2399335286, -2399335286]);
    assert_eq!(raw(s.vy), [1517584337, -1517584337]);
}

/// How far one substep of size `h` carries a coordinate at velocity `v`.
fn stride(v: Fixed, h: Fixed) -> Fixed {
    let three = Fixed::from(3u8);
    (v + v * three + v * three + v) * (h / Fixed::from(8i8))
}

#[test]
fn fixed_free_bodies_move_by_one_stride_in_each_substep() {
    let s = Bodies::<Fixed, 3> {
        x: [fx(-4294967296), fx(1234567), fx(98765432109)],
        y: [fx(17), fx(-8589934592), fx(0)],
        vx: [fx(1431655765), fx(-7777777), fx(3)],
        vy: [fx(-1), fx(0), fx(6074000999)],
        m: [fx(ONE), fx(5), fx(i64::MAX)],
        big_g: fx(0),
    };
    let dt = fx(3 * ONE + 12345);
    let n = 5u16;
    let h = dt / Fixed::from(n);
    let after = superstep(s, DT(dt), n);
    for i in 0..3 {
        let (mut x, mut y) = (s.x[i], s.y[i]);
        for _ in 0..n {
            x = x + stride(s.vx[i], h);
            y = y + stride(s.vy[i], h);
        }
        assert_eq!(after.x[i], x);
        assert_eq!(after.y[i], y);
    }
    assert_eq!(raw(after.vx), raw(s.vx));
    assert_eq!(raw(after.vy), raw(s.vy));
    assert_eq!(raw(after.m), raw(s.m));
    assert_eq!(after.big_g, fx(0));
    assert_eq!(raw(after.x), [4099, -22098783, 98765432114]);
    assert_eq!(raw(after.y), [17, -8589934592, 18222020405]);
}

#[test]
fn fixed_single_moving_body_ignores_the_gravitational_constant() {
    let one = Bodies::<Fixed, 1> {
        x: [fx(2 * ONE)],
        y: [fx(3 * ONE)],
        vx: [fx(ONE)],
        vy: [fx(-ONE / 2)],
        m: [fx(5 * ONE)],
        big_g: fx(7 * ONE),
    };
    let after = superstep(one, DT(fx(ONE)), 8);
    assert_eq!(raw(after.x), [3 * ONE]);
    assert_eq!(raw(after.y), [5 * ONE / 2]);
    assert_eq!(raw(after.vx), [ONE]);
    assert_eq!(raw(after.vy), [-ONE / 2]);
}

#[test]
fn fixed_mean_position_of_a_mirrored_pair_stays_at_the_origin() {
    let mut s = Bodies::<Fixed, 2> {
        x: [fx(-3 * ONE + 7), fx(3 * ONE - 7)],
        y: [fx(ONE / 3), fx(-ONE / 3)],
        vx: [fx(0), fx(0)],
        vy: [fx(0), fx(0)],
        m: [fx(2 * ONE), fx(2 * ONE)],
        big_g: fx(5 * ONE),
    };
    assert_eq!(s.com(), (fx(0), fx(0)));
    for _ in 0..6 {
        s = superstep(s, DT(fx(ONE / 8)), 3);
        assert_eq!(s.com(), (fx(0), fx(0)));
    }
    assert!(s.x[0].raw > -3 * ONE + 7 && s.x[1].raw < 3 * ONE - 7);
}

#[test]
fn fixed_unequal_masses_let_the_mean_position_wander() {
    let mut s = Bodies::<Fixed, 2> {
        x: [fx(-ONE), fx(ONE)],
        y: [fx(0), fx(0)],
        vx: [fx(0), fx(0)],
        vy: [fx(0), fx(0)],
        m: [fx(ONE), fx(9 * ONE)],
        big_g: fx(ONE),
    };
    for _ in 0..4 {
        s = superstep(s, DT(fx(ONE / 8)), 4);
    }
    let (cx, cy) = s.com();
    assert!(cx.raw > 0);
    assert_eq!(cy, fx(0));
}
