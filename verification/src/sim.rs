//! The state of a system of `N` point masses, the tangent type that its rates
//! and corrections are made of, and the time step that scales one into the
//! other.

use crate::lanes::{
    add_lanes, add_lanes_spec, neg_lanes, neg_lanes_spec, scale, scale_spec, sum, sum_spec,
};
use crate::scalar::{
    can_add, can_div, can_mul, can_neg, exact, exact_from, of_i8, of_u8, total, Scalar,
};
use core::ops::{Add, Div, Mul, Neg};
use vstd::prelude::*;
use vstd::std_specs::ops::{AddSpec, DivSpec, MulSpec, NegSpec, SubSpec};

verus! {

/// One point mass: position, velocity and mass.
#[derive(Debug)]
pub struct Body<T> {
    pub x: T,
    pub y: T,
    pub vx: T,
    pub vy: T,
    pub m: T,
}

/// `N` point masses, held as five arrays of one lane per body, and the
/// gravitational constant that they share.
#[derive(Debug)]
pub struct Bodies<T, const N: usize> {
    pub x: [T; N],
    pub y: [T; N],
    pub vx: [T; N],
    pub vy: [T; N],
    pub m: [T; N],
    /// The universal gravitational constant, G.
    pub big_g: T,
}

/// A rate of change, or a displacement, of the positions and velocities of
/// `N` bodies. Masses do not change, so there is no lane for them.
#[derive(Debug)]
pub struct BodiesDelta<T, const N: usize> {
    pub x: [T; N],
    pub y: [T; N],
    pub vx: [T; N],
    pub vy: [T; N],
}

/// A span of time.
#[derive(Debug)]
pub struct DT<T>(pub T);

/// Why a flat list of body parameters was turned down.
#[derive(Debug, PartialEq, Eq, Clone, Copy)]
pub enum ParamsError {
    /// The list holds no number at all.
    Empty,
    /// The list does not hold five numbers for each body; `len` is its length.
    Ragged { len: usize },
}

impl<T: Copy> Clone for Body<T> {
    fn clone(&self) -> (r: Self)
        ensures
            r == *self,
    {
        *self
    }
}

impl<T: Copy> Copy for Body<T> {

}

impl<T: Copy, const N: usize> Clone for Bodies<T, N> {
    fn clone(&self) -> (r: Self)
        ensures
            r == *self,
    {
        *self
    }
}

impl<T: Copy, const N: usize> Copy for Bodies<T, N> {

}

impl<T: Copy, const N: usize> Clone for BodiesDelta<T, N> {
    fn clone(&self) -> (r: Self)
        ensures
            r == *self,
    {
        *self
    }
}

impl<T: Copy, const N: usize> Copy for BodiesDelta<T, N> {

}

impl<T: Copy> Clone for DT<T> {
    fn clone(&self) -> (r: Self)
        ensures
            r == *self,
    {
        *self
    }
}

impl<T: Copy> Copy for DT<T> {

}

/// The bodies that a flat list of parameters describes: body `k` is made of
/// the five numbers that start at `5 * k`.
pub open spec fn bodies_of<T>(params: Seq<T>) -> Seq<Body<T>> {
    Seq::new(
        (params.len() / 5) as nat,
        |k: int|
            Body {
                x: params[5 * k],
                y: params[5 * k + 1],
                vx: params[5 * k + 2],
                vy: params[5 * k + 3],
                m: params[5 * k + 4],
            },
    )
}

impl<T: Copy> Body<T> {
    /// The body whose position, velocity and mass are the first five numbers
    /// of `params`, in that order.
    pub fn fromparams(params: &[T]) -> (r: Self)
        requires
            params@.len() >= 5,
        ensures
            r == (Body { x: params@[0], y: params@[1], vx: params@[2], vy: params@[3], m: params@[4] }),
    {
        Body { x: params[0], y: params[1], vx: params[2], vy: params[3], m: params[4] }
    }

    /// Reads a flat list of parameters, five for each body. A list whose
    /// length is not a positive multiple of five is turned down whole.
    pub fn all_fromparams(params: &[T]) -> (r: Result<Vec<Body<T>>, ParamsError>)
        ensures
            params@.len() == 0 ==> r == Err::<Vec<Body<T>>, ParamsError>(ParamsError::Empty),
            params@.len() % 5 != 0 ==> r == Err::<Vec<Body<T>>, ParamsError>(
                ParamsError::Ragged { len: params.len() },
            ),
            params@.len() > 0 && params@.len() % 5 == 0 ==> r is Ok && r->Ok_0@ == bodies_of(
                params@,
            ),
    {
        let len: usize = params.len();
        if len == 0 {
            return Err(ParamsError::Empty);
        }
        if len % 5 != 0 {
            return Err(ParamsError::Ragged { len });
        }
        let count: usize = len / 5;
        let mut out: Vec<Body<T>> = Vec::new();
        for k in 0..count
            invariant
                count == len / 5,
                len == params@.len(),
                len % 5 == 0,
                out@.len() == k,
                forall|j: int| 0 <= j < k ==> out@[j] == bodies_of(params@)[j],
        {
            let at: usize = 5 * k;
            out.push(
                Body {
                    x: params[at],
                    y: params[at + 1],
                    vx: params[at + 2],
                    vy: params[at + 3],
                    m: params[at + 4],
                },
            );
        }
        assert(out@ =~= bodies_of(params@));
        Ok(out)
    }
}

/// The angular momentum of lane `i` about the pivot `(x0, y0)`:
/// `m * ((y - y0) * vx - (x - x0) * vy)`.
pub open spec fn lane_momentum<T: Scalar, const N: usize>(
    b: Bodies<T, N>,
    x0: T,
    y0: T,
    i: int,
) -> T {
    b.m[i].mul_spec(
        b.y[i].sub_spec(y0).mul_spec(b.vx[i]).sub_spec(b.x[i].sub_spec(x0).mul_spec(b.vy[i])),
    )
}

/// The angular momenta of the first `n` lanes about `(x0, y0)`, added up from
/// lane 0 upwards and starting at zero.
pub open spec fn momentum_upto<T: Scalar, const N: usize>(
    b: Bodies<T, N>,
    x0: T,
    y0: T,
    n: nat,
) -> T
    decreases n,
{
    if n == 0 {
        crate::scalar::zero::<T>()
    } else {
        momentum_upto(b, x0, y0, (n - 1) as nat).add_spec(lane_momentum(b, x0, y0, n - 1))
    }
}

impl<T: Scalar, const N: usize> Bodies<T, N> {
    /// The state in which lane `i` holds `bodies[i]`, under the gravitational
    /// constant `big_g`.
    pub open spec fn of_bodies(bodies: Seq<Body<T>>, big_g: T) -> Self {
        Bodies {
            x: crate::lanes::tabulate(|i: int| bodies[i].x),
            y: crate::lanes::tabulate(|i: int| bodies[i].y),
            vx: crate::lanes::tabulate(|i: int| bodies[i].vx),
            vy: crate::lanes::tabulate(|i: int| bodies[i].vy),
            m: crate::lanes::tabulate(|i: int| bodies[i].m),
            big_g,
        }
    }

    /// Lane `i` as a body of its own.
    pub open spec fn body_spec(self, i: int) -> Body<T> {
        Body { x: self.x[i], y: self.y[i], vx: self.vx[i], vy: self.vy[i], m: self.m[i] }
    }

    /// The mean position: each coordinate summed over the lanes and divided by
    /// their number. No mass enters it.
    pub open spec fn com_spec(self) -> (T, T) {
        (
            sum_spec(self.x).div_spec(T::count_spec(N)),
            sum_spec(self.y).div_spec(T::count_spec(N)),
        )
    }

    /// The total angular momentum about the pivot `(x0, y0)`.
    pub open spec fn tam_spec(self, x0: T, y0: T) -> T {
        momentum_upto(self, x0, y0, N as nat)
    }

    /// Gathers `N` bodies into one state. The number of bodies has to be the
    /// width of the state: any other is turned down.
    pub fn from_bodies(bodies: &[Body<T>], big_g: T) -> (r: Option<Self>)
        ensures
            r is Some <==> bodies@.len() == N,
            r is Some ==> r->Some_0 == Self::of_bodies(bodies@, big_g),
    {
        if bodies.len() != N {
            return None;
        }
        let mut x = [big_g;N];
        let mut y = [big_g;N];
        let mut vx = [big_g;N];
        let mut vy = [big_g;N];
        let mut m = [big_g;N];
        for i in 0..N
            invariant
                bodies@.len() == N,
                forall|k: int| 0 <= k < i ==> x[k] == bodies@[k].x,
                forall|k: int| 0 <= k < i ==> y[k] == bodies@[k].y,
                forall|k: int| 0 <= k < i ==> vx[k] == bodies@[k].vx,
                forall|k: int| 0 <= k < i ==> vy[k] == bodies@[k].vy,
                forall|k: int| 0 <= k < i ==> m[k] == bodies@[k].m,
        {
            let b = bodies[i];
            x[i] = b.x;
            y[i] = b.y;
            vx[i] = b.vx;
            vy[i] = b.vy;
            m[i] = b.m;
        }
        proof {
            let s = bodies@;
            let want = Self::of_bodies(s, big_g);
            crate::lanes::lemma_tabulate::<T, N>(|i: int| s[i].x);
            crate::lanes::lemma_tabulate::<T, N>(|i: int| s[i].y);
            crate::lanes::lemma_tabulate::<T, N>(|i: int| s[i].vx);
            crate::lanes::lemma_tabulate::<T, N>(|i: int| s[i].vy);
            crate::lanes::lemma_tabulate::<T, N>(|i: int| s[i].m);
            assert(x =~= want.x);
            assert(y =~= want.y);
            assert(vx =~= want.vx);
            assert(vy =~= want.vy);
            assert(m =~= want.m);
        }
        Some(Bodies { x, y, vx, vy, m, big_g })
    }

    /// Lane `i` as a body of its own.
    pub fn body(self, i: usize) -> (r: Body<T>)
        requires
            i < N,
        ensures
            r == self.body_spec(i as int),
    {
        Body { x: self.x[i], y: self.y[i], vx: self.vx[i], vy: self.vy[i], m: self.m[i] }
    }

    /// The mean position of the bodies. It is the centre of mass only where
    /// all masses are equal.
    pub fn com(self) -> (r: (T, T))
        requires
            total::<T>(),
        ensures
            exact::<T>() ==> r == self.com_spec(),
    {
        let n = T::from_count(N);
        (sum(self.x) / n, sum(self.y) / n)
    }

    /// The total angular momentum of the bodies about the pivot `(x0, y0)`.
    pub fn tam(self, x0: T, y0: T) -> (r: T)
        requires
            total::<T>(),
        ensures
            exact::<T>() ==> r == self.tam_spec(x0, y0),
    {
        let mut acc = T::from(0u8);
        for i in 0..N
            invariant
                total::<T>(),
                exact::<T>() ==> acc == momentum_upto(self, x0, y0, i as nat),
        {
            let dx = self.x[i] - x0;
            let dy = self.y[i] - y0;
            acc = acc + self.m[i] * (dy * self.vx[i] - dx * self.vy[i]);
        }
        acc
    }
}

impl<T: Scalar, const N: usize> BodiesDelta<T, N> {
    /// Every lane negated.
    pub open spec fn negated(self) -> Self {
        BodiesDelta {
            x: neg_lanes_spec(self.x),
            y: neg_lanes_spec(self.y),
            vx: neg_lanes_spec(self.vx),
            vy: neg_lanes_spec(self.vy),
        }
    }

    /// Every lane multiplied by `k`.
    pub open spec fn scaled(self, k: T) -> Self {
        BodiesDelta {
            x: scale_spec(self.x, k),
            y: scale_spec(self.y, k),
            vx: scale_spec(self.vx, k),
            vy: scale_spec(self.vy, k),
        }
    }

    /// Lane by lane, the sum with `rhs`.
    pub open spec fn plus(self, rhs: Self) -> Self {
        BodiesDelta {
            x: add_lanes_spec(self.x, rhs.x),
            y: add_lanes_spec(self.y, rhs.y),
            vx: add_lanes_spec(self.vx, rhs.vx),
            vy: add_lanes_spec(self.vy, rhs.vy),
        }
    }
}

impl<T: Scalar, const N: usize> Bodies<T, N> {
    /// Positions and velocities displaced by `d` lane by lane, masses and the
    /// gravitational constant kept.
    pub open spec fn moved(self, d: BodiesDelta<T, N>) -> Self {
        Bodies {
            x: add_lanes_spec(self.x, d.x),
            y: add_lanes_spec(self.y, d.y),
            vx: add_lanes_spec(self.vx, d.vx),
            vy: add_lanes_spec(self.vy, d.vy),
            m: self.m,
            big_g: self.big_g,
        }
    }
}

impl<T: Scalar> DT<T> {
    /// The span divided by `k`.
    pub open spec fn over(self, k: T) -> Self {
        DT(self.0.div_spec(k))
    }
}

impl<T: Scalar, const N: usize> vstd::std_specs::ops::NegSpecImpl for BodiesDelta<T, N> {
    open spec fn obeys_neg_spec() -> bool {
        T::obeys_neg_spec()
    }

    open spec fn neg_req(self) -> bool {
        can_neg::<T>()
    }

    open spec fn neg_spec(self) -> Self {
        self.negated()
    }
}

impl<T: Scalar, const N: usize> Neg for BodiesDelta<T, N> {
    type Output = Self;

    /// The opposite displacement: every lane negated.
    fn neg(self) -> (r: Self)
        ensures
            T::obeys_neg_spec() ==> r == self.negated(),
    {
        BodiesDelta {
            x: neg_lanes(self.x),
            y: neg_lanes(self.y),
            vx: neg_lanes(self.vx),
            vy: neg_lanes(self.vy),
        }
    }
}

impl<T: Scalar, const N: usize> vstd::std_specs::ops::MulSpecImpl<u8> for BodiesDelta<T, N> {
    open spec fn obeys_mul_spec() -> bool {
        T::obeys_mul_spec() && exact_from::<T>()
    }

    open spec fn mul_req(self, rhs: u8) -> bool {
        can_mul::<T>()
    }

    open spec fn mul_spec(self, rhs: u8) -> Self {
        self.scaled(of_u8::<T>(rhs))
    }
}

impl<T: Scalar, const N: usize> Mul<u8> for BodiesDelta<T, N> {
    type Output = Self;

    /// The displacement `rhs` times as long: every lane multiplied by the
    /// scalar that stands for `rhs`.
    fn mul(self, rhs: u8) -> (r: Self)
        ensures
            T::obeys_mul_spec() && exact_from::<T>() ==> r == self.scaled(of_u8::<T>(rhs)),
    {
        let k = T::from(rhs);
        BodiesDelta {
            x: scale(self.x, k),
            y: scale(self.y, k),
            vx: scale(self.vx, k),
            vy: scale(self.vy, k),
        }
    }
}

impl<T: Scalar, const N: usize> vstd::std_specs::ops::MulSpecImpl<i8> for BodiesDelta<T, N> {
    open spec fn obeys_mul_spec() -> bool {
        T::obeys_mul_spec() && exact_from::<T>()
    }

    open spec fn mul_req(self, rhs: i8) -> bool {
        can_mul::<T>()
    }

    open spec fn mul_spec(self, rhs: i8) -> Self {
        self.scaled(of_i8::<T>(rhs))
    }
}

impl<T: Scalar, const N: usize> Mul<i8> for BodiesDelta<T, N> {
    type Output = Self;

    /// The displacement `rhs` times as long, turned round where `rhs` is
    /// negative: every lane multiplied by the scalar that stands for `rhs`.
    fn mul(self, rhs: i8) -> (r: Self)
        ensures
            T::obeys_mul_spec() && exact_from::<T>() ==> r == self.scaled(of_i8::<T>(rhs)),
    {
        let k = T::from(rhs);
        BodiesDelta {
            x: scale(self.x, k),
            y: scale(self.y, k),
            vx: scale(self.vx, k),
            vy: scale(self.vy, k),
        }
    }
}

impl<T: Scalar, const N: usize> vstd::std_specs::ops::AddSpecImpl for BodiesDelta<T, N> {
    open spec fn obeys_add_spec() -> bool {
        T::obeys_add_spec()
    }

    open spec fn add_req(self, rhs: Self) -> bool {
        can_add::<T>()
    }

    open spec fn add_spec(self, rhs: Self) -> Self {
        self.plus(rhs)
    }
}

impl<T: Scalar, const N: usize> Add for BodiesDelta<T, N> {
    type Output = Self;

    /// The two displacements one after the other: lane by lane, their sum.
    fn add(self, rhs: Self) -> (r: Self)
        ensures
            T::obeys_add_spec() ==> r == self.plus(rhs),
    {
        BodiesDelta {
            x: add_lanes(self.x, rhs.x),
            y: add_lanes(self.y, rhs.y),
            vx: add_lanes(self.vx, rhs.vx),
            vy: add_lanes(self.vy, rhs.vy),
        }
    }
}

impl<T: Scalar, const N: usize> vstd::std_specs::ops::AddSpecImpl<BodiesDelta<T, N>> for Bodies<T, N> {
    open spec fn obeys_add_spec() -> bool {
        T::obeys_add_spec()
    }

    open spec fn add_req(self, rhs: BodiesDelta<T, N>) -> bool {
        can_add::<T>()
    }

    open spec fn add_spec(self, rhs: BodiesDelta<T, N>) -> Self {
        self.moved(rhs)
    }
}

impl<T: Scalar, const N: usize> Add<BodiesDelta<T, N>> for Bodies<T, N> {
    type Output = Self;

    /// The state moved by `rhs`: positions and velocities displaced lane by
    /// lane, masses and the gravitational constant kept.
    fn add(self, rhs: BodiesDelta<T, N>) -> (r: Self)
        ensures
            T::obeys_add_spec() ==> r == self.moved(rhs),
    {
        Bodies {
            x: add_lanes(self.x, rhs.x),
            y: add_lanes(self.y, rhs.y),
            vx: add_lanes(self.vx, rhs.vx),
            vy: add_lanes(self.vy, rhs.vy),
            m: self.m,
            big_g: self.big_g,
        }
    }
}

impl<T: Scalar, const N: usize> vstd::std_specs::ops::MulSpecImpl<BodiesDelta<T, N>> for DT<T> {
    open spec fn obeys_mul_spec() -> bool {
        T::obeys_mul_spec()
    }

    open spec fn mul_req(self, rhs: BodiesDelta<T, N>) -> bool {
        can_mul::<T>()
    }

    open spec fn mul_spec(self, rhs: BodiesDelta<T, N>) -> BodiesDelta<T, N> {
        rhs.scaled(self.0)
    }
}

impl<T: Scalar, const N: usize> Mul<BodiesDelta<T, N>> for DT<T> {
    type Output = BodiesDelta<T, N>;

    /// The displacement that the rate `rhs` makes over this span of time:
    /// every lane multiplied by the span.
    fn mul(self, rhs: BodiesDelta<T, N>) -> (r: BodiesDelta<T, N>)
        ensures
            T::obeys_mul_spec() ==> r == rhs.scaled(self.0),
    {
        BodiesDelta {
            x: scale(rhs.x, self.0),
            y: scale(rhs.y, self.0),
            vx: scale(rhs.vx, self.0),
            vy: scale(rhs.vy, self.0),
        }
    }
}

impl<T: Scalar> vstd::std_specs::ops::DivSpecImpl<i8> for DT<T> {
    open spec fn obeys_div_spec() -> bool {
        T::obeys_div_spec() && exact_from::<T>()
    }

    open spec fn div_req(self, rhs: i8) -> bool {
        can_div::<T>()
    }

    open spec fn div_spec(self, rhs: i8) -> Self {
        self.over(of_i8::<T>(rhs))
    }
}

impl<T: Scalar> Div<i8> for DT<T> {
    type Output = Self;

    /// The span divided into `rhs` equal parts.
    fn div(self, rhs: i8) -> (r: Self)
        ensures
            T::obeys_div_spec() && exact_from::<T>() ==> r == self.over(of_i8::<T>(rhs)),
    {
        DT(self.0 / T::from(rhs))
    }
}

} // verus!
