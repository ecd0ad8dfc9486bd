//! Level of detail (LOD) for synthesis quality scaling.
//!
//! A lower quality tier reduces the number of modal resonators a
//! synthesizer runs:
//!
//! | Level   | Modal modes  |
//! |---------|--------------|
//! | Full    | All          |
//! | Reduced | 50%          |
//! | Minimal | 25% (min 1)  |
//!
//! The scaled count is the mode count taken through single precision,
//! multiplied by the tier's factor (1, 1/2 or 1/4) and truncated back to
//! an integer. Multiplying by a power of two is exact in binary floating
//! point, so the only rounding is the conversion of the count itself to
//! single precision; that conversion is modelled here exactly.

use vstd::prelude::*;

verus! {

/// Synthesis quality level for LOD scaling.
#[derive(Clone, Copy, Debug, PartialEq, Eq, Hash, Structural)]
#[non_exhaustive]
pub enum Quality {
    /// Full quality — all modes, all events, all filters.
    Full,
    /// Reduced quality — half modes, half events, simplified filtering.
    Reduced,
    /// Minimal quality — quarter modes, quarter events, filter bypass.
    Minimal,
}

/// 2^24: the first power of two at which consecutive integers stop being
/// exactly representable in single precision (24 significand bits, hidden
/// bit included).
pub open spec fn significand_limit() -> nat {
    0x100_0000
}

/// Distance between adjacent single-precision values around `n`:
/// 1 below 2^24, and doubling with every further binary digit of `n`.
pub open spec fn f32_spacing(n: nat) -> nat
    decreases n,
{
    if n < significand_limit() {
        1
    } else {
        2 * f32_spacing(n / 2)
    }
}

/// The single-precision value nearest to `n` (ties go to the even
/// significand), as an exact integer.
pub open spec fn f32_round(n: nat) -> nat {
    let u = f32_spacing(n);
    let q = n / u;
    let r = n % u;
    if 2 * r > u || (2 * r == u && q % 2 == 1) {
        ((q + 1) * u) as nat
    } else {
        (q * u) as nat
    }
}

/// The reciprocal of a tier's mode factor: 1 for Full, 2 for Reduced,
/// 4 for Minimal.
pub open spec fn mode_divisor(q: Quality) -> nat {
    match q {
        Quality::Full => 1,
        Quality::Reduced => 2,
        Quality::Minimal => 4,
    }
}

/// The mode count that `q` keeps out of `count`: the count in single
/// precision, times the tier's factor, truncated (saturating at the
/// largest `usize`), and never below 1.
pub open spec fn scaled_mode_count(q: Quality, count: nat) -> nat {
    let v = f32_round(count) / mode_divisor(q);
    let sat: nat = if v > usize::MAX { usize::MAX as nat } else { v };
    if sat < 1 {
        1
    } else {
        sat
    }
}

/// Rounds a count to the nearest single-precision value, as an integer.
fn round_to_single(n: usize) -> (r: u128)
    ensures
        r == f32_round(n as nat),
{
    let mut u: u128 = 1;
    let mut m: u128 = n as u128;
    while m >= 0x100_0000
        invariant
            u >= 1,
            u <= n + 1,
            u * m <= n,
            m == n as nat / u as nat,
            f32_spacing(n as nat) == u * f32_spacing(m as nat),
        decreases m,
    {
        proof {
            let ghost mm = m as nat;
            assert(f32_spacing(mm) == 2 * f32_spacing(mm / 2));
            vstd::arithmetic::div_mod::lemma_div_denominator(n as int, u as int, 2);
            vstd::arithmetic::mul::lemma_mul_is_associative(u as int, 2, f32_spacing(mm / 2) as int);
            assert(2 * u <= u * m && (2 * u) * (m / 2) <= u * m) by (nonlinear_arith)
                requires
                    m >= 0x100_0000,
                    u >= 1,
            ;
        }
        m = m / 2;
        u = u * 2;
    }
    proof {
        let ghost sm = f32_spacing(m as nat);
        assert(sm == 1);
        assert(u * sm == u) by (nonlinear_arith)
            requires
                sm == 1,
        ;
        assert(u == f32_spacing(n as nat));
    }
    let q = m;
    let rem = (n as u128) % u;
    assert(q * u <= n) by (nonlinear_arith)
        requires
            u * m <= n,
            q == m,
    ;
    assert((q + 1) * u <= 2 * n + 2) by (nonlinear_arith)
        requires
            q * u <= n,
            u <= n + 1,
    ;
    if 2 * rem > u || (2 * rem == u && q % 2 == 1) {
        (q + 1) * u
    } else {
        q * u
    }
}

/// Every count up to 2^24 is exact in single precision, so each tier keeps
/// the plain integer share of it — all, half, or a quarter of the modes,
/// rounded down — and never fewer than one.
pub proof fn lemma_scale_modes_exact_shares(q: Quality, count: nat)
    requires
        count <= significand_limit(),
    ensures
        scaled_mode_count(q, count) == (if count / mode_divisor(q) < 1 {
            1
        } else {
            count / mode_divisor(q)
        }),
{
    if count < significand_limit() {
        assert(f32_spacing(count) == 1);
        assert(count / 1 == count && count % 1 == 0);
    } else {
        assert(f32_spacing(count / 2) == 1);
        assert(f32_spacing(count) == 2);
        assert(count / 2 == 0x80_0000 && count % 2 == 0);
    }
    assert(f32_round(count) == count);
    assert(count / mode_divisor(q) <= count);
}

/// A lower tier never keeps more modes than a higher one, and every tier
/// keeps at least one.
pub proof fn lemma_scale_modes_tier_order(count: nat)
    ensures
        scaled_mode_count(Quality::Full, count) >= scaled_mode_count(Quality::Reduced, count),
        scaled_mode_count(Quality::Reduced, count) >= scaled_mode_count(Quality::Minimal, count),
        scaled_mode_count(Quality::Minimal, count) >= 1,
{
    let v = f32_round(count);
    vstd::arithmetic::div_mod::lemma_div_is_ordered_by_denominator(v as int, 1, 2);
    vstd::arithmetic::div_mod::lemma_div_is_ordered_by_denominator(v as int, 2, 4);
}

impl Quality {
    /// Scales a mode count by the quality factor, with a minimum of 1.
    pub fn scale_modes(self, count: usize) -> (r: usize)
        ensures
            r == scaled_mode_count(self, count as nat),
    {
        let rounded = round_to_single(count);
        let divisor: u128 = match self {
            Quality::Full => 1,
            Quality::Reduced => 2,
            Quality::Minimal => 4,
        };
        let v = rounded / divisor;
        let sat: usize = if v > usize::MAX as u128 {
            usize::MAX
        } else {
            v as usize
        };
        if sat < 1 {
            1
        } else {
            sat
        }
    }
}

} // verus!
