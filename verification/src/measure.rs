//! How the scenarios weigh what came back against what went in.
use vstd::prelude::*;

verus! {

/// Division that rounds toward zero, as Rust's integer `/` does.
pub open spec fn trunc_div(a: int, b: int) -> int
    recommends
        b > 0,
{
    if a >= 0 {
        a / b
    } else {
        -((-a) / b)
    }
}

/// `a - b` as a signed amount, or `None` where either amount does not fit `i128`.
pub fn signed_difference(a: u128, b: u128) -> (r: Option<i128>)
    ensures
        r == (if a <= i128::MAX && b <= i128::MAX {
            Some((a - b) as i128)
        } else {
            None
        }),
{
    if a <= i128::MAX as u128 && b <= i128::MAX as u128 {
        Some(a as i128 - b as i128)
    } else {
        None
    }
}

/// The value of `delta * 10_000 / base` in basis points of `base`, rounded
/// toward zero; zero for a zero base. `None` where the scaled delta or the base
/// does not fit `i128`.
pub open spec fn spec_bps(delta: int, base: int) -> Option<int> {
    if base == 0 {
        Some(0)
    } else if base > i128::MAX || delta * 10_000 > i128::MAX || delta * 10_000 < i128::MIN {
        None
    } else {
        Some(trunc_div(delta * 10_000, base))
    }
}

/// `delta` in basis points of `base`.
pub fn delta_bps(delta: i128, base: u128) -> (r: Option<i128>)
    ensures
        spec_bps(delta as int, base as int) matches Some(v) ==> r == Some(v as i128),
        spec_bps(delta as int, base as int) is None ==> r is None,
{
    if base == 0 {
        return Some(0);
    }
    if base > i128::MAX as u128 {
        return None;
    }
    let bound: i128 = i128::MAX / 10_000;
    if delta > bound || delta < -bound {
        assert(delta * 10_000 > i128::MAX || delta * 10_000 < i128::MIN) by (nonlinear_arith)
            requires delta > bound || delta < -bound, bound == i128::MAX / 10_000;
        return None;
    }
    let scaled: i128 = delta * 10_000;
    if scaled >= 0 {
        let q: u128 = (scaled as u128) / base;
        assert(q <= scaled) by (nonlinear_arith)
            requires q == (scaled as u128) / base, base > 0, scaled >= 0;
        Some(q as i128)
    } else {
        let magnitude: u128 = (-scaled) as u128;
        let q: u128 = magnitude / base;
        assert(q <= magnitude) by (nonlinear_arith)
            requires q == magnitude / base, base > 0;
        Some(-(q as i128))
    }
}

/// The sign of a delta survives its conversion to basis points: a loss is never
/// reported as a gain, nor a gain as a loss.
pub proof fn lemma_bps_keeps_sign(delta: int, base: int)
    requires
        base > 0,
    ensures
        spec_bps(delta, base) matches Some(v) ==> (delta <= 0 ==> v <= 0) && (delta >= 0 ==> v >= 0),
{
    if delta >= 0 {
        assert((delta * 10_000) / base >= 0) by (nonlinear_arith)
            requires delta >= 0, base > 0;
    } else {
        assert((-(delta * 10_000)) / base >= 0) by (nonlinear_arith)
            requires delta < 0, base > 0;
    }
}

/// Each value is at most the one before it.
pub open spec fn nonincreasing_steps(s: Seq<u128>) -> bool {
    forall|i: int| 0 < i < s.len() ==> #[trigger] s[i] <= s[i - 1]
}

/// No value exceeds any value before it.
pub open spec fn nonincreasing(s: Seq<u128>) -> bool {
    forall|i: int, j: int| 0 <= i <= j < s.len() ==> #[trigger] s[j] <= #[trigger] s[i]
}

/// Whether each value is at most the one before it.
pub fn is_nonincreasing(values: &Vec<u128>) -> (r: bool)
    ensures
        r == nonincreasing_steps(values@),
{
    let n = values.len();
    let mut i: usize = 1;
    while i < n
        invariant
            n == values@.len(),
            1 <= i,
            forall|k: int| 0 < k < i && k < n ==> #[trigger] values@[k] <= values@[k - 1],
        decreases n - i,
    {
        if values[i] > values[i - 1] {
            return false;
        }
        i = i + 1;
    }
    true
}

/// Checking each step against the one before it is enough: values that never
/// rise from one step to the next never rise over any span.
pub proof fn lemma_steps_give_order(s: Seq<u128>)
    ensures
        nonincreasing_steps(s) <==> nonincreasing(s),
{
    if nonincreasing_steps(s) {
        assert forall|i: int, j: int| 0 <= i <= j < s.len() implies #[trigger] s[j] <= #[trigger] s[i] by {
            lemma_steps_span(s, i, j);
        }
    }
    if nonincreasing(s) {
        assert forall|i: int| 0 < i < s.len() implies #[trigger] s[i] <= s[i - 1] by {
            assert(s[i] <= s[i - 1]);
        }
    }
}

proof fn lemma_steps_span(s: Seq<u128>, i: int, j: int)
    requires
        nonincreasing_steps(s),
        0 <= i <= j < s.len(),
    ensures
        s[j] <= s[i],
    decreases j - i,
{
    if i < j {
        lemma_steps_span(s, i, j - 1);
        assert(s[j] <= s[j - 1]);
    }
}

/// The cost of the first `n` rounds that each put up `collateral` and got
/// `outs[k]` back.
pub open spec fn spec_cost(collateral: int, outs: Seq<u128>, n: int) -> int
    decreases n,
{
    if n <= 0 {
        0
    } else {
        spec_cost(collateral, outs, n - 1) + (collateral - outs[n - 1])
    }
}

/// Whether the running cost of every prefix, and every amount, fits `i128`.
pub open spec fn cost_fits(collateral: int, outs: Seq<u128>) -> bool {
    &&& collateral <= i128::MAX
    &&& forall|k: int| 0 <= k < outs.len() ==> #[trigger] outs[k] <= i128::MAX
    &&& forall|n: int| 0 <= n <= outs.len() ==> i128::MIN <= #[trigger] spec_cost(collateral, outs, n) <= i128::MAX
}

/// The total cost of rounds that each put up `collateral` and got `outs[k]`
/// back, or `None` where an amount or a running total does not fit `i128`.
pub fn total_cost(collateral: u128, outs: &Vec<u128>) -> (r: Option<i128>)
    ensures
        cost_fits(collateral as int, outs@) ==> r == Some(spec_cost(collateral as int, outs@, outs@.len() as int) as i128),
        !cost_fits(collateral as int, outs@) ==> r is None,
{
    if collateral > i128::MAX as u128 {
        return None;
    }
    let mut total: i128 = 0;
    let mut i: usize = 0;
    while i < outs.len()
        invariant
            i <= outs@.len(),
            collateral <= i128::MAX,
            total == spec_cost(collateral as int, outs@, i as int),
            forall|k: int| 0 <= k < i ==> #[trigger] outs@[k] <= i128::MAX,
            forall|n: int| 0 <= n <= i ==> i128::MIN <= #[trigger] spec_cost(collateral as int, outs@, n) <= i128::MAX,
        decreases outs@.len() - i,
    {
        let out = outs[i];
        if out > i128::MAX as u128 {
            return None;
        }
        let step: i128 = collateral as i128 - out as i128;
        match total.checked_add(step) {
            Some(t) => {
                total = t;
            }
            None => {
                assert(!(i128::MIN <= spec_cost(collateral as int, outs@, (i + 1) as int) <= i128::MAX));
                return None;
            }
        }
        i = i + 1;
    }
    Some(total)
}

} // verus!
