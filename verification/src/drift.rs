//! Motion without force. Where nothing pulls, because the gravitational
//! constant is zero or because there is one body only, every body keeps its
//! velocity and moves in a straight line, whatever the masses.

use crate::energy::{correct_energy_spec, energy_spec, energy_upto, kinetic_upto};
use crate::force::{derivative_spec, force_upto, gravity_spec, lemma_gravity_lanes};
use crate::lanes::lemma_lanes;
use crate::rk4::{blend, point1, point2, point3, rk4_spec, third_push};
use crate::scalar::{of_u8, zero, Scalar};
use crate::sim::{Bodies, BodiesDelta, DT};
use crate::step::{
    flow, substep_size, substep_spec, superstep_spec, superstep_upto, supersteps_spec,
};
use vstd::prelude::*;
use vstd::std_specs::ops::{AddSpec, DivSpec, MulSpec, NegSpec, SubSpec};

verus! {

/// Zero behaves in the arithmetic of `T` as it does among the real numbers:
/// a product with zero is zero, zero divided by anything is zero, a number
/// less itself is zero, zero is its own opposite, and zero added to a sum
/// leaves the sum.
pub open spec fn zero_laws<T: Scalar>() -> bool {
    &&& forall|a: T| #[trigger] zero::<T>().mul_spec(a) == zero::<T>()
    &&& forall|a: T| #[trigger] a.mul_spec(zero::<T>()) == zero::<T>()
    &&& forall|a: T| #[trigger] zero::<T>().div_spec(a) == zero::<T>()
    &&& forall|a: T| #[trigger] a.sub_spec(a) == zero::<T>()
    &&& forall|a: T, b: T| #[trigger] a.add_spec(b).add_spec(zero::<T>()) == a.add_spec(b)
    &&& zero::<T>().add_spec(zero::<T>()) == zero::<T>()
    &&& zero::<T>().neg_spec() == zero::<T>()
}

/// Nothing pulls in `b`: gravity is switched off, or there is no second
/// body.
pub open spec fn forceless<T: Scalar, const N: usize>(b: Bodies<T, N>) -> bool {
    N <= 1 || b.big_g == zero::<T>()
}

/// Adding zero to any velocity of `b` leaves that velocity.
pub open spec fn steady<T: Scalar, const N: usize>(b: Bodies<T, N>) -> bool {
    &&& forall|i: int| 0 <= i < N ==> #[trigger] b.vx[i].add_spec(zero::<T>()) == b.vx[i]
    &&& forall|i: int| 0 <= i < N ==> #[trigger] b.vy[i].add_spec(zero::<T>()) == b.vy[i]
}

/// How far a body of velocity `v` moves along one coordinate in one substep
/// of size `h`: the four rates of the step, all of them `v`, weighted and
/// scaled as the step does it. Among the real numbers this is `h v`.
pub open spec fn stride<T: Scalar>(v: T, h: DT<T>) -> T {
    v.add_spec(v.mul_spec(of_u8::<T>(3))).add_spec(v.mul_spec(of_u8::<T>(3))).add_spec(v).mul_spec(
        h.div_spec(8i8).0,
    )
}

/// Where a coordinate that starts at `x` is after `k` substeps of size `h` at
/// the velocity `v`.
pub open spec fn drifted<T: Scalar>(x: T, v: T, h: DT<T>, k: nat) -> T
    decreases k,
{
    if k == 0 {
        x
    } else {
        drifted(x, v, h, (k - 1) as nat).add_spec(stride(v, h))
    }
}

/// `s` has the velocities, the masses and the gravitational constant of `b`.
spec fn coasting<T: Scalar, const N: usize>(s: Bodies<T, N>, b: Bodies<T, N>) -> bool {
    &&& s.vx == b.vx
    &&& s.vy == b.vy
    &&& s.m == b.m
    &&& s.big_g == b.big_g
}

/// Every lane of `a` is zero.
spec fn all_zero<T: Scalar, const N: usize>(a: [T; N]) -> bool {
    forall|i: int| 0 <= i < N ==> #[trigger] a[i] == zero::<T>()
}

/// `d` moves positions at the velocities of `b`, scaled by `t`, and leaves
/// velocities alone.
spec fn glide<T: Scalar, const N: usize>(d: BodiesDelta<T, N>, b: Bodies<T, N>, t: T) -> bool {
    &&& forall|i: int| 0 <= i < N ==> #[trigger] d.x[i] == b.vx[i].mul_spec(t)
    &&& forall|i: int| 0 <= i < N ==> #[trigger] d.y[i] == b.vy[i].mul_spec(t)
    &&& all_zero(d.vx)
    &&& all_zero(d.vy)
}

proof fn lemma_no_force<T: Scalar, const N: usize>(b: Bodies<T, N>, c: [T; N], k: int, n: nat)
    requires
        zero_laws::<T>(),
        forceless(b),
        0 <= k < N,
        n <= N,
    ensures
        force_upto(b, c, k, n) == zero::<T>(),
    decreases n,
{
    if n > 0 {
        lemma_no_force(b, c, k, (n - 1) as nat);
    }
}

proof fn lemma_free_rate<T: Scalar, const N: usize>(b: Bodies<T, N>)
    requires
        zero_laws::<T>(),
        forceless(b),
    ensures
        derivative_spec(b).x == b.vx,
        derivative_spec(b).y == b.vy,
        all_zero(derivative_spec(b).vx),
        all_zero(derivative_spec(b).vy),
{
    lemma_gravity_lanes(b);
    let g = gravity_spec(b);
    lemma_lanes(g.0, b.m, zero::<T>());
    lemma_lanes(g.1, b.m, zero::<T>());
    assert forall|i: int| 0 <= i < N implies #[trigger] derivative_spec(b).vx[i] == zero::<T>() by {
        lemma_no_force(b, b.x, i, N as nat);
    }
    assert forall|i: int| 0 <= i < N implies #[trigger] derivative_spec(b).vy[i] == zero::<T>() by {
        lemma_no_force(b, b.y, i, N as nat);
    }
}

/// In a state that coasts with `b` the rate of change is that of `b`.
proof fn lemma_same_rate<T: Scalar, const N: usize>(s: Bodies<T, N>, b: Bodies<T, N>)
    requires
        zero_laws::<T>(),
        forceless(b),
        coasting(s, b),
    ensures
        derivative_spec(s) == derivative_spec(b),
{
    lemma_free_rate(s);
    lemma_free_rate(b);
    assert(derivative_spec(s).vx =~= derivative_spec(b).vx);
    assert(derivative_spec(s).vy =~= derivative_spec(b).vy);
}

proof fn lemma_scaled_glide<T: Scalar, const N: usize>(b: Bodies<T, N>, t: DT<T>)
    requires
        zero_laws::<T>(),
        forceless(b),
    ensures
        glide(t.mul_spec(derivative_spec(b)), b, t.0),
{
    let k = derivative_spec(b);
    lemma_free_rate(b);
    lemma_lanes(k.x, k.x, t.0);
    lemma_lanes(k.y, k.y, t.0);
    lemma_lanes(k.vx, k.vx, t.0);
    lemma_lanes(k.vy, k.vy, t.0);
}

/// Negated or tripled, a displacement that leaves velocities alone still
/// leaves them alone.
proof fn lemma_still<T: Scalar, const N: usize>(d: BodiesDelta<T, N>)
    requires
        zero_laws::<T>(),
        all_zero(d.vx),
        all_zero(d.vy),
    ensures
        all_zero(d.neg_spec().vx),
        all_zero(d.neg_spec().vy),
        all_zero(d.mul_spec(3u8).vx),
        all_zero(d.mul_spec(3u8).vy),
{
    lemma_lanes(d.vx, d.vx, of_u8::<T>(3));
    lemma_lanes(d.vy, d.vy, of_u8::<T>(3));
}

/// A state that coasts with `b`, moved by a displacement that leaves
/// velocities alone, still coasts with `b`.
proof fn lemma_coasting_on<T: Scalar, const N: usize>(
    s: Bodies<T, N>,
    d: BodiesDelta<T, N>,
    b: Bodies<T, N>,
)
    requires
        zero_laws::<T>(),
        steady(b),
        coasting(s, b),
        all_zero(d.vx),
        all_zero(d.vy),
    ensures
        coasting(s.add_spec(d), b),
        forall|i: int| 0 <= i < N ==> #[trigger] s.add_spec(d).x[i] == s.x[i].add_spec(d.x[i]),
        forall|i: int| 0 <= i < N ==> #[trigger] s.add_spec(d).y[i] == s.y[i].add_spec(d.y[i]),
{
    lemma_lanes(s.x, d.x, zero::<T>());
    lemma_lanes(s.y, d.y, zero::<T>());
    lemma_lanes(s.vx, d.vx, zero::<T>());
    lemma_lanes(s.vy, d.vy, zero::<T>());
    assert(s.add_spec(d).vx =~= b.vx);
    assert(s.add_spec(d).vy =~= b.vy);
}

proof fn lemma_rk4_free<T: Scalar, const N: usize>(b: Bodies<T, N>, h: DT<T>)
    requires
        zero_laws::<T>(),
        forceless(b),
        steady(b),
    ensures
        coasting(rk4_spec(b, flow::<T, N>(), h), b),
        forall|i: int|
            0 <= i < N ==> #[trigger] rk4_spec(b, flow::<T, N>(), h).x[i] == b.x[i].add_spec(
                stride(b.vx[i], h),
            ),
        forall|i: int|
            0 <= i < N ==> #[trigger] rk4_spec(b, flow::<T, N>(), h).y[i] == b.y[i].add_spec(
                stride(b.vy[i], h),
            ),
{
    let f = flow::<T, N>();
    let k0 = f(b);
    lemma_free_rate(b);
    let d0 = third_push(h, k0);
    lemma_scaled_glide(b, h.div_spec(3i8));
    lemma_coasting_on(b, d0, b);
    let at1 = point1(b, h, k0);
    let k1 = f(at1);
    lemma_same_rate(at1, b);
    let d1 = h.mul_spec(k1);
    lemma_scaled_glide(b, h);
    lemma_still(d0);
    lemma_still(d1);
    lemma_coasting_on(b, d1, b);
    lemma_coasting_on(b.add_spec(d1), d0.neg_spec(), b);
    let at2 = point2(b, h, k0, k1);
    let k2 = f(at2);
    lemma_same_rate(at2, b);
    lemma_coasting_on(b.add_spec(d1), d1.neg_spec(), b);
    lemma_coasting_on(b.add_spec(d1).add_spec(d1.neg_spec()), d0.mul_spec(3u8), b);
    let at3 = point3(b, h, k0, k1, k2);
    let k3 = f(at3);
    lemma_same_rate(at3, b);
    let k = blend(k0, k0, k0, k0);
    let t3 = k0.mul_spec(3u8);
    let s1 = k0.add_spec(t3);
    let s2 = s1.add_spec(t3);
    lemma_lanes(k0.x, k0.x, of_u8::<T>(3));
    lemma_lanes(k0.y, k0.y, of_u8::<T>(3));
    lemma_lanes(k0.vx, k0.vx, of_u8::<T>(3));
    lemma_lanes(k0.vy, k0.vy, of_u8::<T>(3));
    lemma_lanes(k0.x, t3.x, zero::<T>());
    lemma_lanes(k0.y, t3.y, zero::<T>());
    lemma_lanes(k0.vx, t3.vx, zero::<T>());
    lemma_lanes(k0.vy, t3.vy, zero::<T>());
    lemma_lanes(s1.x, t3.x, zero::<T>());
    lemma_lanes(s1.y, t3.y, zero::<T>());
    lemma_lanes(s1.vx, t3.vx, zero::<T>());
    lemma_lanes(s1.vy, t3.vy, zero::<T>());
    lemma_lanes(s2.x, k0.x, zero::<T>());
    lemma_lanes(s2.y, k0.y, zero::<T>());
    lemma_lanes(s2.vx, k0.vx, zero::<T>());
    lemma_lanes(s2.vy, k0.vy, zero::<T>());
    let h8 = h.div_spec(8i8);
    let d = h8.mul_spec(k);
    lemma_lanes(k.x, k.x, h8.0);
    lemma_lanes(k.y, k.y, h8.0);
    lemma_lanes(k.vx, k.vx, h8.0);
    lemma_lanes(k.vy, k.vy, h8.0);
    lemma_coasting_on(b, d, b);
}

/// Where nothing pulls the energy is kinetic only, so that two states with
/// the same masses and velocities have the same energy.
proof fn lemma_energy_free<T: Scalar, const N: usize>(s: Bodies<T, N>, b: Bodies<T, N>)
    requires
        zero_laws::<T>(),
        forceless(b),
        coasting(s, b),
    ensures
        energy_spec(s) == energy_spec(b),
{
    lemma_energy_upto_same(s, b, N as nat, 0);
}

proof fn lemma_kinetic_same<T: Scalar, const N: usize>(s: Bodies<T, N>, b: Bodies<T, N>, n: nat)
    requires
        coasting(s, b),
    ensures
        kinetic_upto(s, n) == kinetic_upto(b, n),
    decreases n,
{
    if n > 0 {
        lemma_kinetic_same(s, b, (n - 1) as nat);
    }
}

proof fn lemma_energy_upto_same<T: Scalar, const N: usize>(
    s: Bodies<T, N>,
    b: Bodies<T, N>,
    i: nat,
    j: nat,
)
    requires
        zero_laws::<T>(),
        forceless(b),
        coasting(s, b),
        j <= i <= N,
        i == N ==> j == 0,
    ensures
        energy_upto(s, i, j) == energy_upto(b, i, j),
    decreases i, j,
{
    if j > 0 {
        lemma_energy_upto_same(s, b, i, (j - 1) as nat);
    } else if i > 0 {
        lemma_energy_upto_same(s, b, (i - 1) as nat, (i - 1) as nat);
    } else {
        lemma_kinetic_same(s, b, N as nat);
    }
}

proof fn lemma_substep_free<T: Scalar, const N: usize>(
    s: Bodies<T, N>,
    b: Bodies<T, N>,
    h: DT<T>,
)
    requires
        zero_laws::<T>(),
        forceless(b),
        steady(b),
        coasting(s, b),
    ensures
        coasting(substep_spec(s, energy_spec(b), h).0, b),
        substep_spec(s, energy_spec(b), h).1 == energy_spec(b),
        forall|i: int|
            0 <= i < N ==> #[trigger] substep_spec(s, energy_spec(b), h).0.x[i] == s.x[i].add_spec(
                stride(b.vx[i], h),
            ),
        forall|i: int|
            0 <= i < N ==> #[trigger] substep_spec(s, energy_spec(b), h).0.y[i] == s.y[i].add_spec(
                stride(b.vy[i], h),
            ),
{
    let moved = rk4_spec(s, flow::<T, N>(), h);
    lemma_rk4_free(s, h);
    lemma_energy_free(moved, b);
    let t = DT(energy_spec(moved).sub_spec(energy_spec(b)));
    let c = correct_energy_spec(moved);
    let d = t.mul_spec(c);
    lemma_lanes(c.x, c.x, t.0);
    lemma_lanes(c.y, c.y, t.0);
    lemma_lanes(c.vx, c.vx, t.0);
    lemma_lanes(c.vy, c.vy, t.0);
    lemma_coasting_on(moved, d, b);
}

proof fn lemma_superstep_upto_free<T: Scalar, const N: usize>(
    b: Bodies<T, N>,
    dt: DT<T>,
    n: u16,
    k: nat,
)
    requires
        zero_laws::<T>(),
        forceless(b),
        steady(b),
    ensures
        coasting(superstep_upto(b, dt, n, k).0, b),
        superstep_upto(b, dt, n, k).1 == energy_spec(b),
        forall|i: int|
            0 <= i < N ==> #[trigger] superstep_upto(b, dt, n, k).0.x[i] == drifted(
                b.x[i],
                b.vx[i],
                substep_size(dt, n),
                k,
            ),
        forall|i: int|
            0 <= i < N ==> #[trigger] superstep_upto(b, dt, n, k).0.y[i] == drifted(
                b.y[i],
                b.vy[i],
                substep_size(dt, n),
                k,
            ),
    decreases k,
{
    if k > 0 {
        lemma_superstep_upto_free(b, dt, n, (k - 1) as nat);
        let before = superstep_upto(b, dt, n, (k - 1) as nat);
        lemma_substep_free(before.0, b, substep_size(dt, n));
    }
}

/// Where nothing pulls, a superstep leaves every velocity as it was and moves
/// every body along a straight line: each coordinate goes on by one stride of
/// its own velocity in every substep. No mass enters.
pub proof fn lemma_free_drift<T: Scalar, const N: usize>(b: Bodies<T, N>, dt: DT<T>, n: u16)
    requires
        zero_laws::<T>(),
        forceless(b),
        steady(b),
    ensures
        superstep_spec(b, dt, n).vx == b.vx,
        superstep_spec(b, dt, n).vy == b.vy,
        superstep_spec(b, dt, n).m == b.m,
        superstep_spec(b, dt, n).big_g == b.big_g,
        forall|i: int|
            0 <= i < N ==> #[trigger] superstep_spec(b, dt, n).x[i] == drifted(
                b.x[i],
                b.vx[i],
                substep_size(dt, n),
                n as nat,
            ),
        forall|i: int|
            0 <= i < N ==> #[trigger] superstep_spec(b, dt, n).y[i] == drifted(
                b.y[i],
                b.vy[i],
                substep_size(dt, n),
                n as nat,
            ),
{
    lemma_superstep_upto_free(b, dt, n, n as nat);
}

/// A coordinate with no velocity stays where it is.
proof fn lemma_rest<T: Scalar>(x: T, h: DT<T>, k: nat)
    requires
        zero_laws::<T>(),
        x.add_spec(zero::<T>()) == x,
    ensures
        drifted(x, zero::<T>(), h, k) == x,
    decreases k,
{
    if k > 0 {
        lemma_rest(x, h, (k - 1) as nat);
    }
}

/// A single body at rest stays at rest where it is, over any number of
/// supersteps.
pub proof fn lemma_single_body_stasis<T: Scalar>(b: Bodies<T, 1>, dt: DT<T>, n: u16, count: nat)
    requires
        zero_laws::<T>(),
        b.vx[0] == zero::<T>(),
        b.vy[0] == zero::<T>(),
        b.x[0].add_spec(zero::<T>()) == b.x[0],
        b.y[0].add_spec(zero::<T>()) == b.y[0],
    ensures
        supersteps_spec(b, dt, n, count) == b,
    decreases count,
{
    if count > 0 {
        lemma_single_body_stasis(b, dt, n, (count - 1) as nat);
        lemma_free_drift(b, dt, n);
        lemma_rest(b.x[0], substep_size(dt, n), n as nat);
        lemma_rest(b.y[0], substep_size(dt, n), n as nat);
        let r = superstep_spec(b, dt, n);
        assert(r.x =~= b.x);
        assert(r.y =~= b.y);
    }
}

} // verus!
