//! The total mechanical energy of a state, its gradient, and the step along
//! the gradient that changes the energy by one unit.

use crate::force::{distance, gravity, gravity_spec, mass_product};
use crate::lanes::{mul_lanes, mul_lanes_spec, shrink, shrink_spec};
use crate::scalar::{exact, of_u8, total, zero, Scalar};
use crate::sim::{Bodies, BodiesDelta};
use core::ops::Neg;
use vstd::prelude::*;
use vstd::std_specs::ops::{AddSpec, DivSpec, MulSpec, NegSpec};

verus! {

/// The kinetic energy of body `i`, `m (vx^2 + vy^2) / 2`.
pub open spec fn kinetic<T: Scalar, const N: usize>(b: Bodies<T, N>, i: int) -> T {
    b.m[i].mul_spec(b.vx[i].mul_spec(b.vx[i]).add_spec(b.vy[i].mul_spec(b.vy[i]))).div_spec(
        of_u8::<T>(2),
    )
}

/// The kinetic energy of the first `n` bodies, added up from body 0 upwards
/// and starting at zero.
pub open spec fn kinetic_upto<T: Scalar, const N: usize>(b: Bodies<T, N>, n: nat) -> T
    decreases n,
{
    if n == 0 {
        zero::<T>()
    } else {
        kinetic_upto(b, (n - 1) as nat).add_spec(kinetic(b, n - 1))
    }
}

/// The potential energy of the pair of bodies `i` and `j`, `-G m[i] m[j] / r`
/// with `r` their distance. It is negative: gravity attracts.
pub open spec fn potential<T: Scalar, const N: usize>(b: Bodies<T, N>, i: int, j: int) -> T {
    mass_product(b, i, j).neg_spec().div_spec(distance(b, i, j))
}

/// The kinetic energy of all bodies, plus the potential energy of every pair
/// whose higher index is below `i`, plus that of the pairs of `i` and the
/// bodies below `j`; each pair once, added in that order.
pub open spec fn energy_upto<T: Scalar, const N: usize>(b: Bodies<T, N>, i: nat, j: nat) -> T
    decreases i, j,
{
    if j > 0 {
        energy_upto(b, i, (j - 1) as nat).add_spec(potential(b, i as int, j - 1))
    } else if i > 0 {
        energy_upto(b, (i - 1) as nat, (i - 1) as nat)
    } else {
        kinetic_upto(b, N as nat)
    }
}

/// The total energy of the state `b`: the kinetic energy of every body and
/// the potential energy of every pair.
pub open spec fn energy_spec<T: Scalar, const N: usize>(b: Bodies<T, N>) -> T {
    energy_upto(b, N as nat, 0)
}

/// The gradient of the energy as the corrector takes it. Along the
/// velocities it is the momentum, `m v`. Along the positions it is the force
/// itself, as the kernel gives it.
pub open spec fn energy_gradient_spec<T: Scalar, const N: usize>(b: Bodies<T, N>) -> BodiesDelta<
    T,
    N,
> {
    BodiesDelta {
        x: gravity_spec(b).0,
        y: gravity_spec(b).1,
        vx: mul_lanes_spec(b.m, b.vx),
        vy: mul_lanes_spec(b.m, b.vy),
    }
}

/// The square of lane `i` of `d`: the sum of the squares of its four
/// components.
pub open spec fn lane_square<T: Scalar, const N: usize>(d: BodiesDelta<T, N>, i: int) -> T {
    d.x[i].mul_spec(d.x[i]).add_spec(d.y[i].mul_spec(d.y[i])).add_spec(
        d.vx[i].mul_spec(d.vx[i]),
    ).add_spec(d.vy[i].mul_spec(d.vy[i]))
}

/// The squares of the first `n` lanes of `d`, added up from lane 0 upwards
/// and starting at zero.
pub open spec fn square_upto<T: Scalar, const N: usize>(d: BodiesDelta<T, N>, n: nat) -> T
    decreases n,
{
    if n == 0 {
        zero::<T>()
    } else {
        square_upto(d, (n - 1) as nat).add_spec(lane_square(d, n - 1))
    }
}

/// The squared length of `d`, over all four components of all lanes.
pub open spec fn square_spec<T: Scalar, const N: usize>(d: BodiesDelta<T, N>) -> T {
    square_upto(d, N as nat)
}

/// The gradient of the energy at `b` divided by its squared length: the
/// displacement along which, to first order, the energy grows by one unit.
pub open spec fn correct_energy_spec<T: Scalar, const N: usize>(b: Bodies<T, N>) -> BodiesDelta<
    T,
    N,
> {
    let g = energy_gradient_spec(b);
    let ssq = square_spec(g);
    BodiesDelta {
        x: shrink_spec(g.x, ssq),
        y: shrink_spec(g.y, ssq),
        vx: shrink_spec(g.vx, ssq),
        vy: shrink_spec(g.vy, ssq),
    }
}

/// The total mechanical energy of the state: kinetic plus potential.
///
/// Bodies that lie on one another have distance zero: the potential of such
/// a pair is whatever the scalar's division by zero gives.
pub fn energy<T: Scalar, const N: usize>(bodies: Bodies<T, N>) -> (ret: T)
    requires
        total::<T>(),
    ensures
        exact::<T>() ==> ret == energy_spec(bodies),
{
    let two = T::from(2u8);
    let mut sum = T::from(0u8);
    for i in 0..N
        invariant
            total::<T>(),
            exact::<T>() ==> two == of_u8::<T>(2),
            exact::<T>() ==> sum == kinetic_upto(bodies, i as nat),
    {
        let vsq = bodies.vx[i] * bodies.vx[i] + bodies.vy[i] * bodies.vy[i];
        sum = sum + bodies.m[i] * vsq / two;
    }
    for i in 0..N
        invariant
            total::<T>(),
            exact::<T>() ==> sum == energy_upto(bodies, i as nat, 0),
    {
        for j in 0..i
            invariant
                i < N,
                total::<T>(),
                exact::<T>() ==> sum == energy_upto(bodies, i as nat, j as nat),
        {
            let dx = bodies.x[j] - bodies.x[i];
            let dy = bodies.y[j] - bodies.y[i];
            let massprod = bodies.m[j] * (bodies.big_g * bodies.m[i]);
            let r = (dx * dx + dy * dy).sqrt();
            sum = sum + massprod.neg() / r;
        }
    }
    sum
}

/// The gradient of the energy over positions and velocities, as the
/// corrector takes it.
pub fn energy_gradient<T: Scalar, const N: usize>(bodies: Bodies<T, N>) -> (ret: BodiesDelta<T, N>)
    requires
        total::<T>(),
    ensures
        exact::<T>() ==> ret == energy_gradient_spec(bodies),
{
    let (f_x, f_y) = gravity(bodies);
    let p_x = mul_lanes(bodies.m, bodies.vx);
    let p_y = mul_lanes(bodies.m, bodies.vy);
    BodiesDelta { x: f_x, y: f_y, vx: p_x, vy: p_y }
}

/// The squared length of a displacement.
pub fn square<T: Scalar, const N: usize>(d: BodiesDelta<T, N>) -> (ret: T)
    requires
        total::<T>(),
    ensures
        exact::<T>() ==> ret == square_spec(d),
{
    let mut acc = T::from(0u8);
    for i in 0..N
        invariant
            total::<T>(),
            exact::<T>() ==> acc == square_upto(d, i as nat),
    {
        acc = acc + (d.x[i] * d.x[i] + d.y[i] * d.y[i] + d.vx[i] * d.vx[i] + d.vy[i] * d.vy[i]);
    }
    acc
}

/// The gradient of the energy divided by its squared length. A state moved
/// by `e` times this displacement has, to first order, `e` more energy.
///
/// Where the gradient is zero its squared length is zero too: the result is
/// whatever the scalar's division by zero gives.
pub fn correct_energy<T: Scalar, const N: usize>(bodies: Bodies<T, N>) -> (ret: BodiesDelta<T, N>)
    requires
        total::<T>(),
    ensures
        exact::<T>() ==> ret == correct_energy_spec(bodies),
{
    let g = energy_gradient(bodies);
    let ssq = square(g);
    BodiesDelta {
        x: shrink(g.x, ssq),
        y: shrink(g.y, ssq),
        vx: shrink(g.vx, ssq),
        vy: shrink(g.vy, ssq),
    }
}

} // verus!
