//! Counting in groups: how many units hold a number of scalars, and how many
//! invocations cover a number of elements.

use vstd::prelude::*;

verus! {

/// `count` divided by `per_unit`, rounded up.
pub open spec fn div_ceil(count: nat, per_unit: nat) -> nat
    recommends
        per_unit > 0,
{
    if count % per_unit == 0 {
        count / per_unit
    } else {
        count / per_unit + 1
    }
}

/// `div_ceil(count, per_unit)` is the least number of groups of `per_unit`
/// that hold `count`.
pub proof fn lemma_div_ceil_is_least(count: nat, per_unit: nat)
    requires
        per_unit > 0,
    ensures
        div_ceil(count, per_unit) * per_unit >= count,
        forall|groups: nat| #[trigger] (groups * per_unit) >= count ==> groups >= div_ceil(count, per_unit),
{
    let q = count as int / per_unit as int;
    let r = count as int % per_unit as int;
    let d = per_unit as int;
    vstd::arithmetic::div_mod::lemma_fundamental_div_mod(count as int, d);
    assert(0 <= r < d);
    assert(d * q + r == count);
    assert(q >= 0) by (nonlinear_arith)
        requires
            d * q + r >= 0,
            0 <= r < d,
    ;
    assert((q + 1) * d == d * q + d) by (nonlinear_arith);
    assert(q * d == d * q) by (nonlinear_arith);
    assert forall|groups: nat| #[trigger] (groups * per_unit) >= count implies groups >= div_ceil(
        count,
        per_unit,
    ) by {
        let g = groups as int;
        assert(g >= q) by (nonlinear_arith)
            requires
                g * d >= d * q + r,
                0 <= r < d,
                g >= 0,
        ;
        assert(r > 0 ==> g >= q + 1) by (nonlinear_arith)
            requires
                g * d >= d * q + r,
                0 <= r < d,
                g >= 0,
        ;
    }
}

/// The last of `count` items lies in the last of the groups that hold them.
pub proof fn lemma_div_ceil_last(count: nat, per_unit: nat)
    requires
        count > 0,
        per_unit > 0,
    ensures
        (count - 1) / per_unit as int == div_ceil(count, per_unit) - 1,
{
    let d = per_unit as int;
    let q = count as int / d;
    let r = count as int % d;
    vstd::arithmetic::div_mod::lemma_fundamental_div_mod(count as int, d);
    assert(q * d == d * q) by (nonlinear_arith);
    if r == 0 {
        assert((q - 1) * d + (d - 1) == count - 1) by (nonlinear_arith)
            requires
                q * d == count,
        ;
        vstd::arithmetic::div_mod::lemma_fundamental_div_mod_converse(count - 1, d, q - 1, d - 1);
    } else {
        vstd::arithmetic::div_mod::lemma_fundamental_div_mod_converse(count - 1, d, q, r - 1);
    }
}

/// `count` divided by `per_unit`, rounded up.
pub fn div_ceil_usize(count: usize, per_unit: usize) -> (groups: usize)
    requires
        per_unit > 0,
    ensures
        groups == div_ceil(count as nat, per_unit as nat),
{
    let whole = count / per_unit;
    if count % per_unit == 0 {
        whole
    } else {
        proof {
            // The quotient of a number that leaves a remainder is below it.
            vstd::arithmetic::div_mod::lemma_fundamental_div_mod(count as int, per_unit as int);
            let q = count as int / per_unit as int;
            let d = per_unit as int;
            assert(q <= d * q) by (nonlinear_arith)
                requires
                    d >= 1,
                    q >= 0,
            ;
        }
        whole + 1
    }
}

} // verus!
