//! The growth policy of the buffer, as mathematical functions.
use vstd::prelude::*;
use vstd::arithmetic::power2::{lemma_pow2_unfold, pow2};

verus! {

/// The capacity that a buffer of capacity `cap` reaches when it grows by
/// one step: an empty buffer gets room for one element, any other doubles.
pub open spec fn next_capacity(cap: nat) -> nat {
    if cap == 0 {
        1
    } else {
        2 * cap
    }
}

/// The capacity reached by growing step by step from `cap` until there is
/// room for `required` elements.
pub open spec fn grown_capacity(cap: nat, required: nat) -> nat
    decreases (if cap < required { required - cap } else { 0 }),
{
    if cap >= required {
        cap
    } else {
        grown_capacity(next_capacity(cap), required)
    }
}

/// The capacity after making room for `required` elements in one step:
/// unchanged when there is room already, else exactly `required`.
pub open spec fn exact_capacity(cap: nat, required: nat) -> nat {
    if cap >= required {
        cap
    } else {
        required
    }
}

/// Exact growth gives room for what was required, never less than before,
/// exactly what was required when it had to grow, and nothing new when the
/// capacity already covered it.
pub proof fn lemma_exact_capacity_covers(cap: nat, required: nat)
    ensures
        exact_capacity(cap, required) >= cap,
        exact_capacity(cap, required) >= required,
        cap < required ==> exact_capacity(cap, required) == required,
        cap >= required ==> exact_capacity(cap, required) == cap,
{
}

/// Growing never loses room: the capacity reached is at least the starting
/// capacity and at least the required one, and a capacity that already
/// covers what is required stays as it is.
pub proof fn lemma_grown_capacity_covers(cap: nat, required: nat)
    ensures
        grown_capacity(cap, required) >= cap,
        grown_capacity(cap, required) >= required,
        cap >= required ==> grown_capacity(cap, required) == cap,
    decreases (if cap < required { required - cap } else { 0 }),
{
    if cap < required {
        lemma_grown_capacity_covers(next_capacity(cap), required);
    }
}

/// Growth by doubling over-allocates by less than a factor of two: when the
/// buffer had to grow, the capacity reached is below twice what was required.
pub proof fn lemma_grown_capacity_below_double(cap: nat, required: nat)
    requires
        cap < required,
    ensures
        grown_capacity(cap, required) < 2 * required,
    decreases required - cap,
{
    if next_capacity(cap) < required {
        lemma_grown_capacity_below_double(next_capacity(cap), required);
    } else {
        assert(grown_capacity(next_capacity(cap), required) == next_capacity(cap));
    }
}

/// One growth step gives an empty buffer room for one element and doubles
/// every other capacity.
pub proof fn law_growth_step_doubles(cap: nat)
    ensures
        next_capacity(0) == 1,
        cap > 0 ==> next_capacity(cap) == 2 * cap,
        next_capacity(cap) > cap,
{
}

/// Growing from a non-empty capacity `cap` that is short of `required`
/// is the same as growing from twice that capacity.
pub proof fn law_growing_from_double(cap: nat, required: nat)
    requires
        0 < cap < required,
    ensures
        grown_capacity(cap, required) == grown_capacity(2 * cap, required),
{
}

/// When `reserve` has to grow (capacity `cap` below the `required` length),
/// the capacity it reaches is `base * 2^k`, where `base` is `cap` (or 1 for
/// an empty buffer) and `k` is the least exponent for which that covers
/// `required`: from 0 it is the least power of two at least `required`,
/// from `cap > 0` it is `cap` doubled at least once, and the one doubling
/// fewer would not have been enough.
pub proof fn law_reserve_grows_by_doubling(cap: nat, required: nat) -> (k: nat)
    requires
        cap < required,
    ensures
        grown_capacity(cap, required) == (if cap == 0 { 1 } else { cap }) * pow2(k),
        grown_capacity(cap, required) >= required,
        cap > 0 ==> k >= 1,
        k >= 1 ==> (if cap == 0 { 1 } else { cap }) * pow2((k - 1) as nat) < required,
{
    vstd::arithmetic::power::lemma_pow0(2);
    if cap == 0 {
        if required <= 1 {
            assert(grown_capacity(1, required) == 1);
            0
        } else {
            let k = lemma_doubling_from_positive(1, required);
            k
        }
    } else {
        lemma_doubling_from_positive(cap, required)
    }
}

proof fn lemma_doubling_from_positive(cap: nat, required: nat) -> (k: nat)
    requires
        0 < cap < required,
    ensures
        k >= 1,
        grown_capacity(cap, required) == cap * pow2(k),
        cap * pow2(k) >= required,
        cap * pow2((k - 1) as nat) < required,
    decreases required - cap,
{
    vstd::arithmetic::power::lemma_pow0(2);
    lemma_pow2_unfold(1);
    if 2 * cap >= required {
        assert(grown_capacity(2 * cap, required) == 2 * cap);
        1
    } else {
        let j = lemma_doubling_from_positive(2 * cap, required);
        lemma_pow2_unfold(j + 1);
        let p = pow2(j);
        let q = pow2((j - 1) as nat);
        lemma_pow2_unfold(j);
        assert(cap * pow2(j + 1) == (2 * cap) * p) by (nonlinear_arith)
            requires
                pow2(j + 1) == 2 * p,
        ;
        assert(cap * pow2(j) == (2 * cap) * q) by (nonlinear_arith)
            requires
                p == 2 * q,
                pow2(j) == p,
        ;
        j + 1
    }
}

} // verus!
