//! The force kernel: the gravitational pull between every pair of bodies, and
//! the rate of change of the state that follows from it.
//!
//! Each unordered pair is evaluated once. What the pull adds to the body
//! with the higher index, its negation adds to the other.

use crate::lanes::{div_lanes, div_lanes_spec, lemma_tabulate, tabulate};
use crate::scalar::{exact, total, zero, Scalar};
use crate::sim::{Bodies, BodiesDelta};
use core::ops::Neg;
use vstd::prelude::*;
use vstd::std_specs::ops::{AddSpec, DivSpec, MulSpec, NegSpec, SubSpec};

verus! {

/// The distance between bodies `i` and `j`: the root of the sum of the
/// squares of the two coordinate differences.
pub open spec fn distance<T: Scalar, const N: usize>(b: Bodies<T, N>, i: int, j: int) -> T {
    let dx = b.x[j].sub_spec(b.x[i]);
    let dy = b.y[j].sub_spec(b.y[i]);
    dx.mul_spec(dx).add_spec(dy.mul_spec(dy)).sqrt_spec()
}

/// The strength of the attraction between bodies `i` and `j`, `G m[i] m[j]`.
pub open spec fn mass_product<T: Scalar, const N: usize>(b: Bodies<T, N>, i: int, j: int) -> T {
    b.m[j].mul_spec(b.big_g.mul_spec(b.m[i]))
}

/// What a coordinate difference between bodies `i` and `j` is multiplied by
/// to give the force along that coordinate: `G m[i] m[j] / r^3`, with `r`
/// their distance.
pub open spec fn coefficient<T: Scalar, const N: usize>(b: Bodies<T, N>, i: int, j: int) -> T {
    let r = distance(b, i, j);
    mass_product(b, i, j).div_spec(r.mul_spec(r).mul_spec(r))
}

/// The force with which body `j` pulls body `i`, along the coordinate whose
/// lanes are `c` (`b.x` or `b.y`): the displacement from `i` to `j` times the
/// coefficient of the pair. Gravity attracts, so the force on `i` points
/// towards `j`.
pub open spec fn pull<T: Scalar, const N: usize>(b: Bodies<T, N>, c: [T; N], i: int, j: int) -> T {
    c[j].sub_spec(c[i]).mul_spec(coefficient(b, i, j))
}

/// What body `j` adds to the force on body `i`, along the coordinate `c`.
/// For the higher index of a pair it is the pull of the pair, for the lower
/// one the negation of that same pull.
pub open spec fn contribution<T: Scalar, const N: usize>(
    b: Bodies<T, N>,
    c: [T; N],
    i: int,
    j: int,
) -> T {
    if j < i {
        pull(b, c, i, j)
    } else {
        pull(b, c, j, i).neg_spec()
    }
}

/// The force on body `k` from the bodies below `n`, along the coordinate `c`:
/// their contributions added up from body 0 upwards, starting at zero and
/// leaving out `k` itself.
pub open spec fn force_upto<T: Scalar, const N: usize>(
    b: Bodies<T, N>,
    c: [T; N],
    k: int,
    n: nat,
) -> T
    decreases n,
{
    if n == 0 {
        zero::<T>()
    } else if n - 1 == k {
        force_upto(b, c, k, (n - 1) as nat)
    } else {
        force_upto(b, c, k, (n - 1) as nat).add_spec(contribution(b, c, k, n - 1))
    }
}

/// The force on body `k` from all other bodies, along the coordinate `c`.
pub open spec fn force<T: Scalar, const N: usize>(b: Bodies<T, N>, c: [T; N], k: int) -> T {
    force_upto(b, c, k, N as nat)
}

/// The forces on all bodies: lane `k` of the first array is the force on body
/// `k` along x, lane `k` of the second the force on it along y.
pub open spec fn gravity_spec<T: Scalar, const N: usize>(b: Bodies<T, N>) -> ([T; N], [T; N]) {
    (tabulate(|k: int| force(b, b.x, k)), tabulate(|k: int| force(b, b.y, k)))
}

/// The rate of change of the state `b`: positions change at the velocities,
/// velocities at force over mass.
pub open spec fn derivative_spec<T: Scalar, const N: usize>(b: Bodies<T, N>) -> BodiesDelta<T, N> {
    BodiesDelta {
        x: b.vx,
        y: b.vy,
        vx: div_lanes_spec(gravity_spec(b).0, b.m),
        vy: div_lanes_spec(gravity_spec(b).1, b.m),
    }
}

/// What the accumulator of body `k` holds when the kernel has dealt with
/// every pair whose higher index is below `i`, and with the pairs of `i` and
/// the bodies below `j`.
spec fn gathered<T: Scalar, const N: usize>(
    b: Bodies<T, N>,
    c: [T; N],
    k: int,
    i: int,
    j: int,
) -> T {
    if k > i {
        zero::<T>()
    } else if k == i {
        force_upto(b, c, k, j as nat)
    } else if k < j {
        force_upto(b, c, k, (i + 1) as nat)
    } else {
        force_upto(b, c, k, i as nat)
    }
}

/// Action and reaction are equal and opposite: what body `j` adds to the
/// force on body `i` is the exact negation of what `i` adds to the force on
/// `j`, along either coordinate.
///
/// For the lower index of the pair this is how the kernel works. For the
/// higher one it asks that negating the pull of the pair twice gives the pull
/// back, which holds of every scalar whose negation only flips a sign.
pub proof fn lemma_action_reaction<T: Scalar, const N: usize>(
    b: Bodies<T, N>,
    c: [T; N],
    i: int,
    j: int,
)
    requires
        i != j,
        j < i ==> pull(b, c, i, j).neg_spec().neg_spec() == pull(b, c, i, j),
    ensures
        contribution(b, c, i, j) == contribution(b, c, j, i).neg_spec(),
{
}

/// Lane `k` of the two arrays that `gravity_spec` gives is the force on body
/// `k`, along x and along y.
pub proof fn lemma_gravity_lanes<T: Scalar, const N: usize>(b: Bodies<T, N>)
    ensures
        forall|k: int| 0 <= k < N ==> #[trigger] gravity_spec(b).0[k] == force(b, b.x, k),
        forall|k: int| 0 <= k < N ==> #[trigger] gravity_spec(b).1[k] == force(b, b.y, k),
{
    lemma_tabulate::<T, N>(|k: int| force(b, b.x, k));
    lemma_tabulate::<T, N>(|k: int| force(b, b.y, k));
}

/// The gravitational force on every body, along x and along y.
///
/// Bodies that lie on one another have distance zero: the force between them
/// is whatever the scalar's division by zero gives.
pub fn gravity<T: Scalar, const N: usize>(bodies: Bodies<T, N>) -> (ret: ([T; N], [T; N]))
    requires
        total::<T>(),
    ensures
        exact::<T>() ==> ret == gravity_spec(bodies),
{
    let nought = T::from(0u8);
    let mut ax = [nought;N];
    let mut ay = [nought;N];
    for i in 0..N
        invariant
            total::<T>(),
            exact::<T>() ==> forall|k: int|
                0 <= k < N ==> ax[k] == gathered(bodies, bodies.x, k, i as int, 0),
            exact::<T>() ==> forall|k: int|
                0 <= k < N ==> ay[k] == gathered(bodies, bodies.y, k, i as int, 0),
    {
        for j in 0..i
            invariant
                i < N,
                total::<T>(),
                exact::<T>() ==> forall|k: int|
                    0 <= k < N ==> ax[k] == gathered(bodies, bodies.x, k, i as int, j as int),
                exact::<T>() ==> forall|k: int|
                    0 <= k < N ==> ay[k] == gathered(bodies, bodies.y, k, i as int, j as int),
        {
            let dx = bodies.x[j] - bodies.x[i];
            let dy = bodies.y[j] - bodies.y[i];
            let massprod = bodies.m[j] * (bodies.big_g * bodies.m[i]);
            let r = (dx * dx + dy * dy).sqrt();
            let coe = massprod / (r * r * r);
            let fx = dx * coe;
            let fy = dy * coe;
            ax[i] = ax[i] + fx;
            ax[j] = ax[j] + fx.neg();
            ay[i] = ay[i] + fy;
            ay[j] = ay[j] + fy.neg();
        }
    }
    proof {
        lemma_gravity_lanes(bodies);
        if exact::<T>() {
            assert(ax =~= gravity_spec(bodies).0);
            assert(ay =~= gravity_spec(bodies).1);
        }
    }
    (ax, ay)
}

/// The rate of change of the state: the velocities, and the accelerations
/// that gravity gives.
pub fn derivative<T: Scalar, const N: usize>(bodies: Bodies<T, N>) -> (ret: BodiesDelta<T, N>)
    requires
        total::<T>(),
    ensures
        exact::<T>() ==> ret == derivative_spec(bodies),
{
    let (vx, vy) = gravity(bodies);
    BodiesDelta {
        x: bodies.vx,
        y: bodies.vy,
        vx: div_lanes(vx, bodies.m),
        vy: div_lanes(vy, bodies.m),
    }
}

} // verus!
