//! A fourth-order Runge-Kutta step, written over any state, tangent and time
//! types that have the operators it needs.
//!
//! The step knows nothing of what it integrates. It evaluates the derivative
//! at four points and moves the state by a weighted mean of the four rates,
//! by Kutta's three-eighths rule:
//!
//! ```text
//! k0 = dv(s)
//! k1 = dv(s + (dt/3) k0)
//! k2 = dv(s + dt k1 - (dt/3) k0)
//! k3 = dv(s + dt k2 - dt k1 + dt k0)
//! s' = s + (dt/8) (k0 + 3 k1 + 3 k2 + k3)
//! ```
//!
//! The weights are whole numbers, so a tangent is only ever multiplied by a
//! small integer and a time only ever divided by one.

use core::ops::{Add, Div, Mul, Neg};
use vstd::prelude::*;
use vstd::std_specs::ops::{AddSpec, DivSpec, MulSpec, NegSpec};

verus! {

/// Every operation that a step of size `dt` performs is defined, whatever the
/// derivative returns.
pub open spec fn step_defined<State, Time, Delta>(dt: Time) -> bool where
    Delta: Copy + Neg<Output = Delta> + Mul<u8, Output = Delta> + Add<Delta, Output = Delta>,
    State: Copy + Add<Delta, Output = State>,
    Time: Copy + Mul<Delta, Output = Delta> + Div<i8, Output = Time>,
 {
    &&& forall|a: State, d: Delta| #[trigger] a.add_req(d)
    &&& forall|a: Delta, b: Delta| #[trigger] a.add_req(b)
    &&& forall|a: Delta| #[trigger] a.neg_req()
    &&& forall|a: Delta| #[trigger] a.mul_req(3u8)
    &&& forall|t: Time, d: Delta| #[trigger] t.mul_req(d)
    &&& dt.div_req(3i8)
    &&& dt.div_req(8i8)
}

/// Every operator that a step uses computes its specification function.
pub open spec fn algebra_exact<State, Time, Delta>() -> bool where
    Delta: Copy + Neg<Output = Delta> + Mul<u8, Output = Delta> + Add<Delta, Output = Delta>,
    State: Copy + Add<Delta, Output = State>,
    Time: Copy + Mul<Delta, Output = Delta> + Div<i8, Output = Time>,
 {
    &&& <State as AddSpec<Delta>>::obeys_add_spec()
    &&& <Delta as AddSpec<Delta>>::obeys_add_spec()
    &&& <Delta as NegSpec>::obeys_neg_spec()
    &&& <Delta as MulSpec<u8>>::obeys_mul_spec()
    &&& <Time as MulSpec<Delta>>::obeys_mul_spec()
    &&& <Time as DivSpec<i8>>::obeys_div_spec()
}

/// The displacement `(dt/3) k0` that leads to the second evaluation point.
pub open spec fn third_push<Time, Delta>(dt: Time, k0: Delta) -> Delta where
    Time: Mul<Delta, Output = Delta> + Div<i8, Output = Time>,
 {
    dt.div_spec(3i8).mul_spec(k0)
}

/// The second evaluation point, `s + (dt/3) k0`.
pub open spec fn point1<State, Time, Delta>(s: State, dt: Time, k0: Delta) -> State where
    State: Add<Delta, Output = State>,
    Time: Mul<Delta, Output = Delta> + Div<i8, Output = Time>,
 {
    s.add_spec(third_push(dt, k0))
}

/// The third evaluation point, `s + dt k1 - (dt/3) k0`.
pub open spec fn point2<State, Time, Delta>(s: State, dt: Time, k0: Delta, k1: Delta) -> State where
    Delta: Neg<Output = Delta>,
    State: Add<Delta, Output = State>,
    Time: Mul<Delta, Output = Delta> + Div<i8, Output = Time>,
 {
    s.add_spec(dt.mul_spec(k1)).add_spec(third_push(dt, k0).neg_spec())
}

/// The fourth evaluation point, `s + dt k2 - dt k1 + 3 (dt/3) k0`.
pub open spec fn point3<State, Time, Delta>(
    s: State,
    dt: Time,
    k0: Delta,
    k1: Delta,
    k2: Delta,
) -> State where
    Delta: Neg<Output = Delta> + Mul<u8, Output = Delta>,
    State: Add<Delta, Output = State>,
    Time: Mul<Delta, Output = Delta> + Div<i8, Output = Time>,
 {
    s.add_spec(dt.mul_spec(k2)).add_spec(dt.mul_spec(k1).neg_spec()).add_spec(
        third_push(dt, k0).mul_spec(3u8),
    )
}

/// The weighted sum of the four rates, `k0 + 3 k1 + 3 k2 + k3`.
pub open spec fn blend<Delta>(k0: Delta, k1: Delta, k2: Delta, k3: Delta) -> Delta where
    Delta: Mul<u8, Output = Delta> + Add<Delta, Output = Delta>,
 {
    k0.add_spec(k1.mul_spec(3u8)).add_spec(k2.mul_spec(3u8)).add_spec(k3)
}

/// The state after the step, `s + (dt/8) (k0 + 3 k1 + 3 k2 + k3)`.
pub open spec fn advance<State, Time, Delta>(
    s: State,
    dt: Time,
    k0: Delta,
    k1: Delta,
    k2: Delta,
    k3: Delta,
) -> State where
    Delta: Mul<u8, Output = Delta> + Add<Delta, Output = Delta>,
    State: Add<Delta, Output = State>,
    Time: Mul<Delta, Output = Delta> + Div<i8, Output = Time>,
 {
    s.add_spec(dt.div_spec(8i8).mul_spec(blend(k0, k1, k2, k3)))
}

/// `k0`, ..., `k3` are rates that the derivative `dv` may return at the four
/// evaluation points of a step from `s`.
pub open spec fn stages<State, Time, Derivative, Delta>(
    s: State,
    dv: Derivative,
    dt: Time,
    k0: Delta,
    k1: Delta,
    k2: Delta,
    k3: Delta,
) -> bool where
    Delta: Copy + Neg<Output = Delta> + Mul<u8, Output = Delta> + Add<Delta, Output = Delta>,
    State: Copy + Add<Delta, Output = State>,
    Time: Copy + Mul<Delta, Output = Delta> + Div<i8, Output = Time>,
    Derivative: FnMut(State) -> Delta,
 {
    &&& call_ensures(dv, (s,), k0)
    &&& call_ensures(dv, (point1(s, dt, k0),), k1)
    &&& call_ensures(dv, (point2(s, dt, k0, k1),), k2)
    &&& call_ensures(dv, (point3(s, dt, k0, k1, k2),), k3)
}

/// `r` is a state that one step of size `dt` from `s` may end in: the state
/// that the step formula gives for some four rates that `dv` may return.
pub open spec fn rk4_relates<State, Time, Derivative, Delta>(
    s: State,
    dv: Derivative,
    dt: Time,
    r: State,
) -> bool where
    Delta: Copy + Neg<Output = Delta> + Mul<u8, Output = Delta> + Add<Delta, Output = Delta>,
    State: Copy + Add<Delta, Output = State>,
    Time: Copy + Mul<Delta, Output = Delta> + Div<i8, Output = Time>,
    Derivative: FnMut(State) -> Delta,
 {
    exists|k0: Delta, k1: Delta, k2: Delta, k3: Delta| #[trigger]
        stages(s, dv, dt, k0, k1, k2, k3) && r == advance(s, dt, k0, k1, k2, k3)
}

/// The state one step of size `dt` after `s`, for a derivative that is the
/// function `f`.
pub open spec fn rk4_spec<State, Time, Delta>(
    s: State,
    f: spec_fn(State) -> Delta,
    dt: Time,
) -> State where
    Delta: Copy + Neg<Output = Delta> + Mul<u8, Output = Delta> + Add<Delta, Output = Delta>,
    State: Copy + Add<Delta, Output = State>,
    Time: Copy + Mul<Delta, Output = Delta> + Div<i8, Output = Time>,
 {
    let k0 = f(s);
    let k1 = f(point1(s, dt, k0));
    let k2 = f(point2(s, dt, k0, k1));
    let k3 = f(point3(s, dt, k0, k1, k2));
    advance(s, dt, k0, k1, k2, k3)
}

/// `r` is a state that `n` steps of size `dt` from `s` may end in.
pub open spec fn rk4ntimes_relates<State, Time, Derivative, Delta>(
    s: State,
    dv: Derivative,
    dt: Time,
    n: nat,
    r: State,
) -> bool where
    Delta: Copy + Neg<Output = Delta> + Mul<u8, Output = Delta> + Add<Delta, Output = Delta>,
    State: Copy + Add<Delta, Output = State>,
    Time: Copy + Mul<Delta, Output = Delta> + Div<i8, Output = Time>,
    Derivative: FnMut(State) -> Delta,

    decreases n,
{
    if n == 0 {
        r == s
    } else {
        exists|mid: State|
            rk4ntimes_relates(s, dv, dt, (n - 1) as nat, mid) && #[trigger] rk4_relates(
                mid,
                dv,
                dt,
                r,
            )
    }
}

/// The state `n` steps of size `dt` after `s`, for a derivative that is the
/// function `f`.
pub open spec fn rk4ntimes_spec<State, Time, Delta>(
    s: State,
    f: spec_fn(State) -> Delta,
    dt: Time,
    n: nat,
) -> State where
    Delta: Copy + Neg<Output = Delta> + Mul<u8, Output = Delta> + Add<Delta, Output = Delta>,
    State: Copy + Add<Delta, Output = State>,
    Time: Copy + Mul<Delta, Output = Delta> + Div<i8, Output = Time>,

    decreases n,
{
    if n == 0 {
        s
    } else {
        rk4_spec(rk4ntimes_spec(s, f, dt, (n - 1) as nat), f, dt)
    }
}

/// `dv` returns `f(x)` at every state `x`, and nothing else.
pub open spec fn computes<State, Derivative, Delta>(
    dv: Derivative,
    f: spec_fn(State) -> Delta,
) -> bool where Derivative: FnMut(State) -> Delta {
    forall|x: State, y: Delta| #[trigger] call_ensures(dv, (x,), y) ==> y == f(x)
}

/// A step with a derivative that computes the function `f` ends in one state
/// only, the one that `rk4_spec` gives.
pub proof fn lemma_rk4_of_function<State, Time, Derivative, Delta>(
    s: State,
    dv: Derivative,
    f: spec_fn(State) -> Delta,
    dt: Time,
    r: State,
) where
    Delta: Copy + Neg<Output = Delta> + Mul<u8, Output = Delta> + Add<Delta, Output = Delta>,
    State: Copy + Add<Delta, Output = State>,
    Time: Copy + Mul<Delta, Output = Delta> + Div<i8, Output = Time>,
    Derivative: FnMut(State) -> Delta,

    requires
        computes(dv, f),
        rk4_relates(s, dv, dt, r),
    ensures
        r == rk4_spec(s, f, dt),
{
    let (k0, k1, k2, k3) = choose|k0: Delta, k1: Delta, k2: Delta, k3: Delta| #[trigger]
        stages(s, dv, dt, k0, k1, k2, k3) && r == advance(s, dt, k0, k1, k2, k3);
    assert(k0 == f(s));
    assert(k1 == f(point1(s, dt, k0)));
    assert(k2 == f(point2(s, dt, k0, k1)));
    assert(k3 == f(point3(s, dt, k0, k1, k2)));
}

/// `n` steps with a derivative that computes the function `f` end in one
/// state only, the one that `rk4ntimes_spec` gives.
pub proof fn lemma_rk4ntimes_of_function<State, Time, Derivative, Delta>(
    s: State,
    dv: Derivative,
    f: spec_fn(State) -> Delta,
    dt: Time,
    n: nat,
    r: State,
) where
    Delta: Copy + Neg<Output = Delta> + Mul<u8, Output = Delta> + Add<Delta, Output = Delta>,
    State: Copy + Add<Delta, Output = State>,
    Time: Copy + Mul<Delta, Output = Delta> + Div<i8, Output = Time>,
    Derivative: FnMut(State) -> Delta,

    requires
        computes(dv, f),
        rk4ntimes_relates(s, dv, dt, n, r),
    ensures
        r == rk4ntimes_spec(s, f, dt, n),
    decreases n,
{
    if n > 0 {
        let mid = choose|mid: State|
            rk4ntimes_relates(s, dv, dt, (n - 1) as nat, mid) && #[trigger] rk4_relates(
                mid,
                dv,
                dt,
                r,
            );
        lemma_rk4ntimes_of_function(s, dv, f, dt, (n - 1) as nat, mid);
        lemma_rk4_of_function(mid, dv, f, dt, r);
    }
}

/// Advances the state `s` by one Runge-Kutta step of size `dt`, with the
/// derivative `dv`.
///
/// The derivative is called four times, at `s` and at the three points that
/// the rates found so far lead to, and the result is the step formula on the
/// four rates that it returned.
#[inline]
pub fn rk4<State, Time, Derivative, Delta>(s: State, dv: &mut Derivative, dt: Time) -> (r: State) where
    Delta: Copy + Neg<Output = Delta> + Mul<u8, Output = Delta> + Add<Delta, Output = Delta>,
    State: Copy + Add<Delta, Output = State>,
    Time: Copy + Mul<Delta, Output = Delta> + Div<i8, Output = Time>,
    Derivative: FnMut(State) -> Delta,

    requires
        step_defined::<State, Time, Delta>(dt),
        forall|x: State| call_requires(*old(dv), (x,)),
    ensures
        *final(dv) == *old(dv),
        algebra_exact::<State, Time, Delta>() ==> rk4_relates(s, *old(dv), dt, r),
{
    let k0 = dv(s);
    let d0 = (dt / 3) * k0;
    let k1 = dv(s + d0);
    let d1 = dt * k1;
    let k2 = dv(s + d1 + d0.neg());
    let k3 = dv(s + dt * k2 + d1.neg() + d0 * 3);
    let k = k0 + k1 * 3 + k2 * 3 + k3;
    let d = dt / 8 * k;
    let r = s + d;
    proof {
        if algebra_exact::<State, Time, Delta>() {
            assert(stages(s, *old(dv), dt, k0, k1, k2, k3));
        }
    }
    r
}

/// Advances the state `s` by `n` Runge-Kutta steps of size `dt` each.
#[inline]
pub fn rk4ntimes<State, Time, Derivative, Delta>(
    s: State,
    dv: &mut Derivative,
    dt: Time,
    n: usize,
) -> (r: State) where
    Delta: Copy + Neg<Output = Delta> + Mul<u8, Output = Delta> + Add<Delta, Output = Delta>,
    State: Copy + Add<Delta, Output = State>,
    Time: Copy + Mul<Delta, Output = Delta> + Div<i8, Output = Time>,
    Derivative: FnMut(State) -> Delta,

    requires
        step_defined::<State, Time, Delta>(dt),
        forall|x: State| call_requires(*old(dv), (x,)),
    ensures
        *final(dv) == *old(dv),
        algebra_exact::<State, Time, Delta>() ==> rk4ntimes_relates(
            s,
            *old(dv),
            dt,
            n as nat,
            r,
        ),
{
    let mut s = s;
    let ghost start = s;
    for i in 0..n
        invariant
            step_defined::<State, Time, Delta>(dt),
            forall|x: State| call_requires(*dv, (x,)),
            *dv == *old(dv),
            algebra_exact::<State, Time, Delta>() ==> rk4ntimes_relates(
                start,
                *old(dv),
                dt,
                i as nat,
                s,
            ),
    {
        let ghost before = s;
        s = rk4(s, dv, dt);
        proof {
            if algebra_exact::<State, Time, Delta>() {
                assert(rk4ntimes_relates(start, *old(dv), dt, i as nat, before) && rk4_relates(
                    before,
                    *old(dv),
                    dt,
                    s,
                ));
            }
        }
    }
    s
}

} // verus!
