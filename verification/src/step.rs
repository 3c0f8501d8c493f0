//! The superstep: one advance of the system over a span of time, made of
//! Runge-Kutta substeps with an energy correction after each.

use crate::energy::{correct_energy, correct_energy_spec, energy, energy_spec};
use crate::force::{derivative, derivative_spec};
use crate::rk4::{algebra_exact, computes, lemma_rk4_of_function, rk4, rk4_spec, step_defined};
use crate::scalar::{exact, of_u16, total, Scalar};
use crate::sim::{Bodies, BodiesDelta, DT};
use vstd::prelude::*;
use vstd::std_specs::ops::{AddSpec, DivSpec, MulSpec, SubSpec};

verus! {

/// The number of substeps that a superstep is split into where the caller
/// has no reason to choose another.
pub const DEFAULT_SUBSTEPS: u16 = 10;

/// The derivative of the gravitational system, as a function of the state.
pub open spec fn flow<T: Scalar, const N: usize>() -> spec_fn(Bodies<T, N>) -> BodiesDelta<T, N> {
    |s: Bodies<T, N>| derivative_spec(s)
}

/// One substep of size `h` from the state `b`, whose energy before its own
/// correction was `oe`: the corrected state, and the energy that the
/// Runge-Kutta step arrived with, before the correction.
///
/// The correction moves the state along the gradient by the energy that the
/// step has gained, `new - oe`, times the displacement that `correct_energy`
/// gives.
pub open spec fn substep_spec<T: Scalar, const N: usize>(b: Bodies<T, N>, oe: T, h: DT<T>) -> (
    Bodies<T, N>,
    T,
) {
    let moved = rk4_spec(b, flow::<T, N>(), h);
    let newe = energy_spec(moved);
    (moved.add_spec(DT(newe.sub_spec(oe)).mul_spec(correct_energy_spec(moved))), newe)
}

/// The size of each of the `n` substeps that the span `dt` is split into.
pub open spec fn substep_size<T: Scalar>(dt: DT<T>, n: u16) -> DT<T> {
    DT(dt.0.div_spec(of_u16::<T>(n)))
}

/// The state after the first `k` of the `n` substeps of a superstep over
/// `dt`, and the energy that the next correction measures against. Before
/// the first substep that is the energy of the state given.
pub open spec fn superstep_upto<T: Scalar, const N: usize>(
    b: Bodies<T, N>,
    dt: DT<T>,
    n: u16,
    k: nat,
) -> (Bodies<T, N>, T)
    decreases k,
{
    if k == 0 {
        (b, energy_spec(b))
    } else {
        let before = superstep_upto(b, dt, n, (k - 1) as nat);
        substep_spec(before.0, before.1, substep_size(dt, n))
    }
}

/// The state after a superstep over `dt` in `n` substeps.
pub open spec fn superstep_spec<T: Scalar, const N: usize>(
    b: Bodies<T, N>,
    dt: DT<T>,
    n: u16,
) -> Bodies<T, N> {
    superstep_upto(b, dt, n, n as nat).0
}

/// The state after `count` supersteps, each over `dt` in `n` substeps.
pub open spec fn supersteps_spec<T: Scalar, const N: usize>(
    b: Bodies<T, N>,
    dt: DT<T>,
    n: u16,
    count: nat,
) -> Bodies<T, N>
    decreases count,
{
    if count == 0 {
        b
    } else {
        superstep_spec(supersteps_spec(b, dt, n, (count - 1) as nat), dt, n)
    }
}

proof fn lemma_masses_kept_upto<T: Scalar, const N: usize>(
    b: Bodies<T, N>,
    dt: DT<T>,
    n: u16,
    k: nat,
)
    ensures
        superstep_upto(b, dt, n, k).0.m == b.m,
        superstep_upto(b, dt, n, k).0.big_g == b.big_g,
    decreases k,
{
    if k > 0 {
        lemma_masses_kept_upto(b, dt, n, (k - 1) as nat);
    }
}

/// A superstep changes positions and velocities only: the masses and the
/// gravitational constant are those of the state it started from.
pub proof fn lemma_masses_kept<T: Scalar, const N: usize>(b: Bodies<T, N>, dt: DT<T>, n: u16)
    ensures
        superstep_spec(b, dt, n).m == b.m,
        superstep_spec(b, dt, n).big_g == b.big_g,
{
    lemma_masses_kept_upto(b, dt, n, n as nat);
}

/// Advances the system by the span `dt`, in `n` equal Runge-Kutta substeps.
///
/// After each substep the state is moved along the energy gradient by the
/// energy that the substep gained over the one before it. The energy
/// measured against is the one that the previous substep arrived with
/// before it was corrected; it is not computed anew after the correction.
/// With `n == 0` the state comes back as it was given.
pub fn superstep<T: Scalar, const N: usize>(bodies: Bodies<T, N>, dt: DT<T>, n: u16) -> (ret:
    Bodies<T, N>)
    requires
        total::<T>(),
    ensures
        exact::<T>() ==> ret == superstep_spec(bodies, dt, n),
        exact::<T>() ==> ret.m == bodies.m && ret.big_g == bodies.big_g,
{
    proof {
        lemma_masses_kept(bodies, dt, n);
    }
    let ghost start = bodies;
    let mut bodies = bodies;
    let mut oe = energy(bodies);
    let mut dv = |s: Bodies<T, N>| -> (d: BodiesDelta<T, N>)
        requires
            total::<T>(),
        ensures
            exact::<T>() ==> d == derivative_spec(s),
        { derivative(s) };
    for k in 0..n
        invariant
            total::<T>(),
            forall|x: Bodies<T, N>| call_requires(dv, (x,)),
            exact::<T>() ==> computes(dv, flow::<T, N>()),
            exact::<T>() ==> (bodies, oe) == superstep_upto(start, dt, n, k as nat),
    {
        let h = DT(dt.0 / T::from(n));
        let ghost before = bodies;
        assert(step_defined::<Bodies<T, N>, DT<T>, BodiesDelta<T, N>>(h));
        bodies = rk4(bodies, &mut dv, h);
        proof {
            if exact::<T>() {
                assert(algebra_exact::<Bodies<T, N>, DT<T>, BodiesDelta<T, N>>());
                lemma_rk4_of_function(before, dv, flow::<T, N>(), h, bodies);
            }
        }
        let newe = energy(bodies);
        bodies = bodies + DT(newe - oe) * correct_energy(bodies);
        oe = newe;
    }
    bodies
}

} // verus!
