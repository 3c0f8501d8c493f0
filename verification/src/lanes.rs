//! Fixed-width arrays of scalars, one lane per body, and the operations that
//! act on every lane alike.

use crate::scalar::{can_add, can_div, can_mul, can_neg, exact_from, zero, Scalar};
use core::ops::Neg;
use vstd::prelude::*;
use vstd::std_specs::ops::{AddSpec, DivSpec, MulSpec, NegSpec};

verus! {

/// The array whose first `n` lanes are `f(0)`, ..., `f(n - 1)`.
pub closed spec fn tabulate_upto<T, const N: usize>(f: spec_fn(int) -> T, n: nat) -> [T; N]
    decreases n,
{
    if n == 0 {
        arbitrary()
    } else {
        vstd::array::spec_array_update(tabulate_upto::<T, N>(f, (n - 1) as nat), n - 1, f(n - 1))
    }
}

/// The array of width `N` whose lane `i` is `f(i)`.
pub closed spec fn tabulate<T, const N: usize>(f: spec_fn(int) -> T) -> [T; N] {
    tabulate_upto::<T, N>(f, N as nat)
}

proof fn lemma_tabulate_upto<T, const N: usize>(f: spec_fn(int) -> T, n: nat)
    requires
        n <= N,
    ensures
        forall|i: int| 0 <= i < n ==> #[trigger] tabulate_upto::<T, N>(f, n)@[i] == f(i),
    decreases n,
{
    if n > 0 {
        let before = tabulate_upto::<T, N>(f, (n - 1) as nat);
        lemma_tabulate_upto::<T, N>(f, (n - 1) as nat);
        assert(tabulate_upto::<T, N>(f, n)@ == before@.update(n - 1, f(n - 1)));
    }
}

/// Lane `i` of `tabulate(f)` is `f(i)`.
pub proof fn lemma_tabulate<T, const N: usize>(f: spec_fn(int) -> T)
    ensures
        forall|i: int| 0 <= i < N ==> #[trigger] tabulate::<T, N>(f)[i] == f(i),
{
    lemma_tabulate_upto::<T, N>(f, N as nat);
}

/// Lane by lane, `a[i] + b[i]`.
pub open spec fn add_lanes_spec<T: Scalar, const N: usize>(a: [T; N], b: [T; N]) -> [T; N] {
    tabulate(|i: int| a[i].add_spec(b[i]))
}

/// Lane by lane, `a[i] * b[i]`.
pub open spec fn mul_lanes_spec<T: Scalar, const N: usize>(a: [T; N], b: [T; N]) -> [T; N] {
    tabulate(|i: int| a[i].mul_spec(b[i]))
}

/// Lane by lane, `a[i] / b[i]`.
pub open spec fn div_lanes_spec<T: Scalar, const N: usize>(a: [T; N], b: [T; N]) -> [T; N] {
    tabulate(|i: int| a[i].div_spec(b[i]))
}

/// Lane by lane, `-a[i]`.
pub open spec fn neg_lanes_spec<T: Scalar, const N: usize>(a: [T; N]) -> [T; N] {
    tabulate(|i: int| a[i].neg_spec())
}

/// Lane by lane, `a[i] * k`.
pub open spec fn scale_spec<T: Scalar, const N: usize>(a: [T; N], k: T) -> [T; N] {
    tabulate(|i: int| a[i].mul_spec(k))
}

/// Lane by lane, `a[i] / k`.
pub open spec fn shrink_spec<T: Scalar, const N: usize>(a: [T; N], k: T) -> [T; N] {
    tabulate(|i: int| a[i].div_spec(k))
}

/// The sum of the first `n` lanes, taken from lane 0 upwards and starting at
/// zero: `((0 + a[0]) + a[1]) + ...`.
pub open spec fn sum_upto<T: Scalar, const N: usize>(a: [T; N], n: nat) -> T
    decreases n,
{
    if n == 0 {
        zero::<T>()
    } else {
        sum_upto(a, (n - 1) as nat).add_spec(a[n - 1])
    }
}

/// The sum of all lanes, taken from lane 0 upwards.
pub open spec fn sum_spec<T: Scalar, const N: usize>(a: [T; N]) -> T {
    sum_upto(a, N as nat)
}

/// What each lane of the lane-wise operations holds.
pub proof fn lemma_lanes<T: Scalar, const N: usize>(a: [T; N], b: [T; N], k: T)
    ensures
        forall|i: int| 0 <= i < N ==> #[trigger] add_lanes_spec(a, b)[i] == a[i].add_spec(b[i]),
        forall|i: int| 0 <= i < N ==> #[trigger] mul_lanes_spec(a, b)[i] == a[i].mul_spec(b[i]),
        forall|i: int| 0 <= i < N ==> #[trigger] div_lanes_spec(a, b)[i] == a[i].div_spec(b[i]),
        forall|i: int| 0 <= i < N ==> #[trigger] neg_lanes_spec(a)[i] == a[i].neg_spec(),
        forall|i: int| 0 <= i < N ==> #[trigger] scale_spec(a, k)[i] == a[i].mul_spec(k),
        forall|i: int| 0 <= i < N ==> #[trigger] shrink_spec(a, k)[i] == a[i].div_spec(k),
{
    lemma_tabulate::<T, N>(|i: int| a[i].add_spec(b[i]));
    lemma_tabulate::<T, N>(|i: int| a[i].mul_spec(b[i]));
    lemma_tabulate::<T, N>(|i: int| a[i].div_spec(b[i]));
    lemma_tabulate::<T, N>(|i: int| a[i].neg_spec());
    lemma_tabulate::<T, N>(|i: int| a[i].mul_spec(k));
    lemma_tabulate::<T, N>(|i: int| a[i].div_spec(k));
}

/// Adds two arrays lane by lane.
pub fn add_lanes<T: Scalar, const N: usize>(a: [T; N], b: [T; N]) -> (r: [T; N])
    requires
        can_add::<T>(),
    ensures
        T::obeys_add_spec() ==> r == add_lanes_spec(a, b),
{
    let mut out = a;
    for i in 0..N
        invariant
            can_add::<T>(),
            T::obeys_add_spec() ==> forall|k: int| 0 <= k < i ==> out[k] == a[k].add_spec(b[k]),
    {
        out[i] = a[i] + b[i];
    }
    proof {
        lemma_tabulate::<T, N>(|i: int| a[i].add_spec(b[i]));
        if T::obeys_add_spec() {
            assert(out =~= add_lanes_spec(a, b));
        }
    }
    out
}

/// Multiplies two arrays lane by lane.
pub fn mul_lanes<T: Scalar, const N: usize>(a: [T; N], b: [T; N]) -> (r: [T; N])
    requires
        can_mul::<T>(),
    ensures
        T::obeys_mul_spec() ==> r == mul_lanes_spec(a, b),
{
    let mut out = a;
    for i in 0..N
        invariant
            can_mul::<T>(),
            T::obeys_mul_spec() ==> forall|k: int| 0 <= k < i ==> out[k] == a[k].mul_spec(b[k]),
    {
        out[i] = a[i] * b[i];
    }
    proof {
        lemma_tabulate::<T, N>(|i: int| a[i].mul_spec(b[i]));
        if T::obeys_mul_spec() {
            assert(out =~= mul_lanes_spec(a, b));
        }
    }
    out
}

/// Divides one array by another lane by lane.
pub fn div_lanes<T: Scalar, const N: usize>(a: [T; N], b: [T; N]) -> (r: [T; N])
    requires
        can_div::<T>(),
    ensures
        T::obeys_div_spec() ==> r == div_lanes_spec(a, b),
{
    let mut out = a;
    for i in 0..N
        invariant
            can_div::<T>(),
            T::obeys_div_spec() ==> forall|k: int| 0 <= k < i ==> out[k] == a[k].div_spec(b[k]),
    {
        out[i] = a[i] / b[i];
    }
    proof {
        lemma_tabulate::<T, N>(|i: int| a[i].div_spec(b[i]));
        if T::obeys_div_spec() {
            assert(out =~= div_lanes_spec(a, b));
        }
    }
    out
}

/// Negates every lane.
pub fn neg_lanes<T: Scalar, const N: usize>(a: [T; N]) -> (r: [T; N])
    requires
        can_neg::<T>(),
    ensures
        T::obeys_neg_spec() ==> r == neg_lanes_spec(a),
{
    let mut out = a;
    for i in 0..N
        invariant
            can_neg::<T>(),
            T::obeys_neg_spec() ==> forall|k: int| 0 <= k < i ==> out[k] == a[k].neg_spec(),
    {
        out[i] = a[i].neg();
    }
    proof {
        lemma_tabulate::<T, N>(|i: int| a[i].neg_spec());
        if T::obeys_neg_spec() {
            assert(out =~= neg_lanes_spec(a));
        }
    }
    out
}

/// Multiplies every lane by `k`.
pub fn scale<T: Scalar, const N: usize>(a: [T; N], k: T) -> (r: [T; N])
    requires
        can_mul::<T>(),
    ensures
        T::obeys_mul_spec() ==> r == scale_spec(a, k),
{
    let mut out = a;
    for i in 0..N
        invariant
            can_mul::<T>(),
            T::obeys_mul_spec() ==> forall|j: int| 0 <= j < i ==> out[j] == a[j].mul_spec(k),
    {
        out[i] = a[i] * k;
    }
    proof {
        lemma_tabulate::<T, N>(|i: int| a[i].mul_spec(k));
        if T::obeys_mul_spec() {
            assert(out =~= scale_spec(a, k));
        }
    }
    out
}

/// Divides every lane by `k`.
pub fn shrink<T: Scalar, const N: usize>(a: [T; N], k: T) -> (r: [T; N])
    requires
        can_div::<T>(),
    ensures
        T::obeys_div_spec() ==> r == shrink_spec(a, k),
{
    let mut out = a;
    for i in 0..N
        invariant
            can_div::<T>(),
            T::obeys_div_spec() ==> forall|j: int| 0 <= j < i ==> out[j] == a[j].div_spec(k),
    {
        out[i] = a[i] / k;
    }
    proof {
        lemma_tabulate::<T, N>(|i: int| a[i].div_spec(k));
        if T::obeys_div_spec() {
            assert(out =~= shrink_spec(a, k));
        }
    }
    out
}

/// Adds up all lanes, from lane 0 upwards.
pub fn sum<T: Scalar, const N: usize>(a: [T; N]) -> (r: T)
    requires
        can_add::<T>(),
    ensures
        T::obeys_add_spec() && exact_from::<T>() ==> r == sum_spec(a),
{
    let mut total = T::from(0u8);
    for i in 0..N
        invariant
            can_add::<T>(),
            T::obeys_add_spec() && exact_from::<T>() ==> total == sum_upto(a, i as nat),
    {
        total = total + a[i];
    }
    total
}

} // verus!
