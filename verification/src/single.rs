//! Counts as single-precision numbers hold them.
//!
//! The growth and novelty limits on a cleanup are single-precision quotients and
//! products of word counts. Here they are worked out on whole numbers: a count is
//! rounded to a significand of 24 bits, ties to even, and a product or quotient is
//! rounded once more the same way.

use vstd::prelude::*;

verus! {

/// The first count that needs more than 24 bits.
pub const SIGNIFICAND: u128 = 16777216;

/// The distance between neighbouring single-precision numbers around `n`.
pub open spec fn spacing(n: nat) -> nat
    decreases n,
{
    if n < SIGNIFICAND {
        1
    } else {
        2 * spacing(n / 2)
    }
}

/// The single-precision number nearest to `n`; of two equally near ones, that
/// with an even significand.
pub open spec fn single(n: nat) -> nat {
    let unit = spacing(n);
    let below = n / unit;
    let rest = n % unit;
    if 2 * rest > unit || (2 * rest == unit && below % 2 == 1) {
        (below + 1) * unit
    } else {
        below * unit
    }
}

/// The spacing is at least one and no more than the number itself.
proof fn spacing_bounds(n: nat)
    ensures
        1 <= spacing(n),
        n > 0 ==> spacing(n) <= n,
    decreases n,
{
    if n >= SIGNIFICAND {
        spacing_bounds(n / 2);
    }
}

/// A count of at most 24 bits is held as it is.
pub proof fn small_counts_are_exact(n: nat)
    requires
        n < SIGNIFICAND,
    ensures
        single(n) == n,
{
    let unit = spacing(n);
    assert(n / unit == n && n % unit == 0 && (n / unit) * unit == n) by (nonlinear_arith)
        requires
            unit == 1,
    ;
}

/// Around a number of more than 24 bits the spacing is at most a 2 to the 23rd part
/// of it.
proof fn spacing_is_fine(n: nat)
    ensures
        n >= SIGNIFICAND ==> spacing(n) * 8388608 <= n,
    decreases n,
{
    if n >= SIGNIFICAND {
        if n / 2 >= SIGNIFICAND {
            spacing_is_fine(n / 2);
        } else {
            assert(spacing(n / 2) == 1);
        }
    }
}

/// Rounding loses at most a 2 to the 24th part.
pub proof fn rounding_loses_little(n: nat)
    ensures
        16777216 * single(n) >= 16777215 * n,
{
    if n < SIGNIFICAND {
        small_counts_are_exact(n);
    } else {
        let unit = spacing(n);
        let below = n / unit;
        let rest = n % unit;
        spacing_bounds(n);
        spacing_is_fine(n);
        vstd::arithmetic::div_mod::lemma_fundamental_div_mod(n as int, unit as int);
        assert(unit * below == below * unit) by (nonlinear_arith);
        assert((below + 1) * unit == below * unit + unit) by (nonlinear_arith);
        assert(0 <= rest < unit) by {
            vstd::arithmetic::div_mod::lemma_mod_bound(n as int, unit as int);
        }
        assert(2 * single(n) >= 2 * n - unit);
    }
}

/// Rounds `n` to the nearest single-precision number.
pub fn to_single(n: u128) -> (r: u128)
    requires
        n < 0x1_0000_0000_0000_0000_0000_0000,
    ensures
        r == single(n as nat),
        r <= 2 * n,
{
    let mut m: u128 = n;
    let mut unit: u128 = 1;
    while m >= SIGNIFICAND
        invariant
            spacing(n as nat) == unit * spacing(m as nat),
            unit * m <= n,
            0 < unit,
        decreases m,
    {
        let ghost before: nat = m as nat;
        proof {
            assert(spacing(before) == 2 * spacing(before / 2));
            assert(unit * spacing(before) == (unit * 2) * spacing(before / 2)) by (nonlinear_arith)
                requires
                    spacing(before) == 2 * spacing(before / 2),
            ;
            assert((unit * 2) * (m / 2) <= unit * m) by (nonlinear_arith)
                requires
                    0 < unit,
            ;
            assert(unit * 2 <= n) by (nonlinear_arith)
                requires
                    unit * m <= n,
                    m >= 2,
            ;
        }
        m = m / 2;
        unit = unit * 2;
    }
    assert(unit == spacing(n as nat)) by (nonlinear_arith)
        requires
            spacing(n as nat) == unit * spacing(m as nat),
            spacing(m as nat) == 1,
    ;
    proof {
        spacing_bounds(n as nat);
        vstd::arithmetic::div_mod::lemma_fundamental_div_mod(n as int, unit as int);
    }
    let below: u128 = n / unit;
    let rest: u128 = n % unit;
    assert(unit * below == below * unit) by (nonlinear_arith);
    assert(below * unit <= n);
    assert((below + 1) * unit == below * unit + unit) by (nonlinear_arith);
    if n == 0 {
        assert(below == 0 && rest == 0) by (nonlinear_arith)
            requires
                n == 0,
                below == n / unit,
                rest == n % unit,
                unit > 0,
        ;
    }
    if 2 * rest > unit || (2 * rest == unit && below % 2 == 1) {
        (below + 1) * unit
    } else {
        below * unit
    }
}

/// Rounding gains at most a 2 to the 24th part.
pub proof fn rounding_gains_little(n: nat)
    ensures
        16777216 * single(n) <= 16777217 * n,
{
    if n < SIGNIFICAND {
        small_counts_are_exact(n);
    } else {
        let unit = spacing(n);
        let below = n / unit;
        let rest = n % unit;
        spacing_bounds(n);
        spacing_is_fine(n);
        vstd::arithmetic::div_mod::lemma_fundamental_div_mod(n as int, unit as int);
        assert(unit * below == below * unit) by (nonlinear_arith);
        assert((below + 1) * unit == below * unit + unit) by (nonlinear_arith);
        assert(0 <= rest < unit) by {
            vstd::arithmetic::div_mod::lemma_mod_bound(n as int, unit as int);
        }
        assert(2 * single(n) <= 2 * n + unit);
    }
}

/// The first counts that need rounding go to the neighbouring even number with an
/// even half; even ones stay.
pub proof fn odd_counts_round_to_even_halves(n: nat)
    requires
        SIGNIFICAND <= n < 2 * SIGNIFICAND,
    ensures
        n % 2 == 0 ==> single(n) == n,
        n % 4 == 1 ==> single(n) == n - 1,
        n % 4 == 3 ==> single(n) == n + 1,
{
    assert(spacing(n / 2) == 1);
    assert(spacing(n) == 2);
}

/// Twice a large count is rounded to twice what the count is rounded to.
pub proof fn doubling_rounds_alike(n: nat)
    requires
        2 * n >= SIGNIFICAND,
    ensures
        single(2 * n) == 2 * single(n),
{
    let unit = spacing(n);
    let q = (n / unit) as int;
    let r = (n % unit) as int;
    spacing_bounds(n);
    assert((2 * n) / 2 == n);
    assert(spacing(2 * n) == 2 * unit);
    vstd::arithmetic::div_mod::lemma_fundamental_div_mod(n as int, unit as int);
    vstd::arithmetic::div_mod::lemma_mod_bound(n as int, unit as int);
    assert(2 * n == q * (2 * unit) + 2 * r) by (nonlinear_arith)
        requires
            n == unit * q + r,
    ;
    vstd::arithmetic::div_mod::lemma_fundamental_div_mod_converse(
        2 * n as int,
        2 * unit as int,
        q,
        2 * r,
    );
    assert((q + 1) * (2 * unit) == 2 * ((q + 1) * unit)) by (nonlinear_arith);
    assert(q * (2 * unit) == 2 * (q * unit)) by (nonlinear_arith);
}

} // verus!
