//! Mirror symmetry: a pair of equal masses that starts as its own mirror
//! image through the origin stays so.

use crate::energy::{correct_energy_spec, energy_gradient_spec, energy_spec, square_spec};
use crate::force::{derivative_spec, force_upto, gravity_spec, lemma_gravity_lanes};
use crate::lanes::{
    add_lanes_spec, div_lanes_spec, lemma_lanes, mul_lanes_spec, neg_lanes_spec, scale_spec,
    shrink_spec, sum_upto,
};
use crate::rk4::{blend, point1, point2, point3, rk4_spec, third_push};
use crate::scalar::{of_u8, zero, Scalar};
use crate::sim::{Bodies, BodiesDelta, DT};
use crate::step::{flow, substep_size, substep_spec, superstep_upto, supersteps_spec};
use vstd::prelude::*;
use vstd::std_specs::ops::{AddSpec, DivSpec, MulSpec, NegSpec, SubSpec};

verus! {

/// The arithmetic of `T` does not tell a number from its opposite: the
/// opposite of a sum is the sum of the opposites, the opposite of a product
/// or of a quotient is had by flipping the sign of either side, and zero is
/// its own opposite.
pub open spec fn sign_symmetric<T: Scalar>() -> bool {
    &&& forall|a: T, b: T| #[trigger] a.neg_spec().add_spec(b.neg_spec()) == a.add_spec(b).neg_spec()
    &&& forall|a: T, b: T| #[trigger] a.neg_spec().mul_spec(b) == a.mul_spec(b).neg_spec()
    &&& forall|a: T, b: T| #[trigger] a.mul_spec(b.neg_spec()) == a.mul_spec(b).neg_spec()
    &&& forall|a: T, b: T| #[trigger] a.neg_spec().div_spec(b) == a.div_spec(b).neg_spec()
    &&& zero::<T>().neg_spec() == zero::<T>()
}

/// The first lane is the opposite of the second.
pub open spec fn mirrored_lanes<T: Scalar>(a: [T; 2]) -> bool {
    a[0] == a[1].neg_spec()
}

/// A displacement of two bodies that moves the first by the opposite of what
/// it moves the second by.
pub open spec fn mirrored_delta<T: Scalar>(d: BodiesDelta<T, 2>) -> bool {
    &&& mirrored_lanes(d.x)
    &&& mirrored_lanes(d.y)
    &&& mirrored_lanes(d.vx)
    &&& mirrored_lanes(d.vy)
}

/// Two bodies of equal mass, the first at the opposite of the position of
/// the second and with the opposite of its velocity.
pub open spec fn mirrored<T: Scalar>(b: Bodies<T, 2>) -> bool {
    &&& mirrored_lanes(b.x)
    &&& mirrored_lanes(b.y)
    &&& mirrored_lanes(b.vx)
    &&& mirrored_lanes(b.vy)
    &&& b.m[0] == b.m[1]
}

proof fn lemma_lane_ops_mirrored<T: Scalar>(a: [T; 2], b: [T; 2], k: T)
    requires
        sign_symmetric::<T>(),
        mirrored_lanes(a),
    ensures
        mirrored_lanes(b) ==> mirrored_lanes(add_lanes_spec(a, b)),
        mirrored_lanes(neg_lanes_spec(a)),
        mirrored_lanes(scale_spec(a, k)),
        mirrored_lanes(shrink_spec(a, k)),
        b[0] == b[1] ==> mirrored_lanes(div_lanes_spec(a, b)),
        b[0] == b[1] ==> mirrored_lanes(mul_lanes_spec(b, a)),
{
    lemma_lanes(a, b, k);
    lemma_lanes(b, a, k);
}

proof fn lemma_delta_ops_mirrored<T: Scalar>(d: BodiesDelta<T, 2>, e: BodiesDelta<T, 2>, t: DT<T>)
    requires
        sign_symmetric::<T>(),
        mirrored_delta(d),
    ensures
        mirrored_delta(e) ==> mirrored_delta(d.add_spec(e)),
        mirrored_delta(d.neg_spec()),
        mirrored_delta(d.mul_spec(3u8)),
        mirrored_delta(t.mul_spec(d)),
{
    lemma_lane_ops_mirrored(d.x, e.x, of_u8::<T>(3));
    lemma_lane_ops_mirrored(d.y, e.y, of_u8::<T>(3));
    lemma_lane_ops_mirrored(d.vx, e.vx, of_u8::<T>(3));
    lemma_lane_ops_mirrored(d.vy, e.vy, of_u8::<T>(3));
    lemma_lane_ops_mirrored(d.x, e.x, t.0);
    lemma_lane_ops_mirrored(d.y, e.y, t.0);
    lemma_lane_ops_mirrored(d.vx, e.vx, t.0);
    lemma_lane_ops_mirrored(d.vy, e.vy, t.0);
}

proof fn lemma_move_mirrored<T: Scalar>(b: Bodies<T, 2>, d: BodiesDelta<T, 2>)
    requires
        sign_symmetric::<T>(),
        mirrored(b),
        mirrored_delta(d),
    ensures
        mirrored(b.add_spec(d)),
{
    lemma_lane_ops_mirrored(b.x, d.x, zero::<T>());
    lemma_lane_ops_mirrored(b.y, d.y, zero::<T>());
    lemma_lane_ops_mirrored(b.vx, d.vx, zero::<T>());
    lemma_lane_ops_mirrored(b.vy, d.vy, zero::<T>());
}

/// Between two bodies the force on the first is the opposite of the force on
/// the second, wherever they are.
pub proof fn lemma_two_body_forces_opposite<T: Scalar>(b: Bodies<T, 2>)
    requires
        sign_symmetric::<T>(),
    ensures
        mirrored_lanes(gravity_spec(b).0),
        mirrored_lanes(gravity_spec(b).1),
{
    lemma_gravity_lanes(b);
    reveal_with_fuel(force_upto, 3);
}

proof fn lemma_derivative_mirrored<T: Scalar>(b: Bodies<T, 2>)
    requires
        sign_symmetric::<T>(),
        mirrored(b),
    ensures
        mirrored_delta(derivative_spec(b)),
{
    lemma_two_body_forces_opposite(b);
    lemma_lane_ops_mirrored(gravity_spec(b).0, b.m, zero::<T>());
    lemma_lane_ops_mirrored(gravity_spec(b).1, b.m, zero::<T>());
}

proof fn lemma_rk4_mirrored<T: Scalar>(b: Bodies<T, 2>, h: DT<T>)
    requires
        sign_symmetric::<T>(),
        mirrored(b),
    ensures
        mirrored(rk4_spec(b, flow::<T, 2>(), h)),
{
    let f = flow::<T, 2>();
    let k0 = f(b);
    lemma_derivative_mirrored(b);
    let d0 = third_push(h, k0);
    lemma_delta_ops_mirrored(k0, k0, h.div_spec(3i8));
    lemma_move_mirrored(b, d0);
    let at1 = point1(b, h, k0);
    let k1 = f(at1);
    lemma_derivative_mirrored(at1);
    let d1 = h.mul_spec(k1);
    lemma_delta_ops_mirrored(k1, k1, h);
    lemma_delta_ops_mirrored(d0, d0, h);
    lemma_move_mirrored(b, d1);
    lemma_move_mirrored(b.add_spec(d1), d0.neg_spec());
    let at2 = point2(b, h, k0, k1);
    let k2 = f(at2);
    lemma_derivative_mirrored(at2);
    lemma_delta_ops_mirrored(k2, k2, h);
    lemma_delta_ops_mirrored(d1, d1, h);
    lemma_move_mirrored(b, h.mul_spec(k2));
    lemma_move_mirrored(b.add_spec(h.mul_spec(k2)), d1.neg_spec());
    lemma_move_mirrored(b.add_spec(h.mul_spec(k2)).add_spec(d1.neg_spec()), d0.mul_spec(3u8));
    let at3 = point3(b, h, k0, k1, k2);
    let k3 = f(at3);
    lemma_derivative_mirrored(at3);
    lemma_delta_ops_mirrored(k0, k1.mul_spec(3u8), h);
    lemma_delta_ops_mirrored(k0.add_spec(k1.mul_spec(3u8)), k2.mul_spec(3u8), h);
    lemma_delta_ops_mirrored(k0.add_spec(k1.mul_spec(3u8)).add_spec(k2.mul_spec(3u8)), k3, h);
    let k = blend(k0, k1, k2, k3);
    lemma_delta_ops_mirrored(k, k, h.div_spec(8i8));
    lemma_move_mirrored(b, h.div_spec(8i8).mul_spec(k));
}

proof fn lemma_correct_energy_mirrored<T: Scalar>(b: Bodies<T, 2>)
    requires
        sign_symmetric::<T>(),
        mirrored(b),
    ensures
        mirrored_delta(correct_energy_spec(b)),
{
    let g = energy_gradient_spec(b);
    let ssq = square_spec(g);
    lemma_two_body_forces_opposite(b);
    lemma_lane_ops_mirrored(b.vx, b.m, ssq);
    lemma_lane_ops_mirrored(b.vy, b.m, ssq);
    lemma_lane_ops_mirrored(g.x, g.x, ssq);
    lemma_lane_ops_mirrored(g.y, g.y, ssq);
    lemma_lane_ops_mirrored(g.vx, g.vx, ssq);
    lemma_lane_ops_mirrored(g.vy, g.vy, ssq);
}

proof fn lemma_substep_mirrored<T: Scalar>(b: Bodies<T, 2>, oe: T, h: DT<T>)
    requires
        sign_symmetric::<T>(),
        mirrored(b),
    ensures
        mirrored(substep_spec(b, oe, h).0),
{
    let moved = rk4_spec(b, flow::<T, 2>(), h);
    lemma_rk4_mirrored(b, h);
    let c = correct_energy_spec(moved);
    lemma_correct_energy_mirrored(moved);
    let t = DT(energy_spec(moved).sub_spec(oe));
    lemma_delta_ops_mirrored(c, c, t);
    lemma_move_mirrored(moved, t.mul_spec(c));
}

proof fn lemma_superstep_upto_mirrored<T: Scalar>(b: Bodies<T, 2>, dt: DT<T>, n: u16, k: nat)
    requires
        sign_symmetric::<T>(),
        mirrored(b),
    ensures
        mirrored(superstep_upto(b, dt, n, k).0),
    decreases k,
{
    if k > 0 {
        lemma_superstep_upto_mirrored(b, dt, n, (k - 1) as nat);
        let before = superstep_upto(b, dt, n, (k - 1) as nat);
        lemma_substep_mirrored(before.0, before.1, substep_size(dt, n));
    }
}

/// A mirrored pair is still a mirrored pair after any number of supersteps,
/// whatever the span of time and the number of substeps.
pub proof fn lemma_mirror_symmetry_kept<T: Scalar>(b: Bodies<T, 2>, dt: DT<T>, n: u16, count: nat)
    requires
        sign_symmetric::<T>(),
        mirrored(b),
    ensures
        mirrored(supersteps_spec(b, dt, n, count)),
    decreases count,
{
    if count > 0 {
        lemma_mirror_symmetry_kept(b, dt, n, (count - 1) as nat);
        lemma_superstep_upto_mirrored(
            supersteps_spec(b, dt, n, (count - 1) as nat),
            dt,
            n,
            n as nat,
        );
    }
}

/// A number and its opposite, added to zero one after the other, leave zero.
pub open spec fn opposites_cancel<T: Scalar>() -> bool {
    forall|a: T| #[trigger] zero::<T>().add_spec(a.neg_spec()).add_spec(a) == zero::<T>()
}

/// The mean position of a mirrored pair is the origin, as far as the scalar
/// can divide zero by two.
pub proof fn lemma_mirrored_centre<T: Scalar>(b: Bodies<T, 2>)
    requires
        opposites_cancel::<T>(),
        mirrored(b),
    ensures
        b.com_spec() == (
            zero::<T>().div_spec(T::count_spec(2)),
            zero::<T>().div_spec(T::count_spec(2)),
        ),
{
    reveal_with_fuel(sum_upto, 3);
}

/// The mean position of a mirrored pair stays where it is over any number
/// of supersteps. A pair of equal masses at rest, on opposite sides of the
/// origin, is such a pair.
pub proof fn lemma_centre_kept<T: Scalar>(b: Bodies<T, 2>, dt: DT<T>, n: u16, count: nat)
    requires
        sign_symmetric::<T>(),
        opposites_cancel::<T>(),
        mirrored(b),
    ensures
        supersteps_spec(b, dt, n, count).com_spec() == b.com_spec(),
{
    lemma_mirror_symmetry_kept(b, dt, n, count);
    lemma_mirrored_centre(b);
    lemma_mirrored_centre(supersteps_spec(b, dt, n, count));
}

} // verus!
