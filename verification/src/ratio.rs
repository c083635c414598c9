//! Rounded shares in hundredths of a percent.
//!
//! A share `part / whole` is expressed on a scale on which 10 000 stands for
//! 100 %, rounded to the nearest step, halves upwards.

use vstd::prelude::*;

verus! {

/// The scale's top: 100 % in hundredths of a percent.
pub const FULL_SCALE: u16 = 10000;

/// `part / whole` in hundredths of a percent, rounded to the nearest step.
///
/// An empty whole has no share taken of it: the result is 0. A part that
/// exceeds the whole is capped at the full scale.
pub open spec fn rounded_share(part: nat, whole: nat) -> nat {
    if whole == 0 {
        0
    } else if part >= whole {
        10000
    } else {
        (20000 * part + whole) / (2 * whole)
    }
}

/// A rounded share never leaves the scale.
pub proof fn lemma_rounded_share_bounded(part: nat, whole: nat)
    ensures
        rounded_share(part, whole) <= 10000,
{
    if whole != 0 && part < whole {
        let num = 20000 * part + whole;
        let den = 2 * whole;
        assert(num < 10001 * den);
        assert(num / den <= 10000) by (nonlinear_arith)
            requires
                den > 0,
                num < 10001 * den,
        ;
    }
}

/// Rounding is to the nearest step: a share of a non-empty whole lies within
/// half a step of the exact quotient `10000 * part / whole`.
pub proof fn lemma_rounded_share_nearest(part: nat, whole: nat)
    requires
        whole > 0,
        part <= whole,
    ensures
        2 * whole * rounded_share(part, whole) <= 20000 * part + whole,
        20000 * part < 2 * whole * rounded_share(part, whole) + whole,
{
    if part < whole {
        let num = 20000 * part + whole;
        let den = 2 * whole;
        let q = num / den;
        assert(den * q <= num && num < den * q + den) by (nonlinear_arith)
            requires
                den > 0,
                q == num / den,
        ;
    } else {
        assert(2 * whole * 10000 == 20000 * whole) by (nonlinear_arith);
    }
}

/// A larger part of the same whole never has the smaller share.
pub proof fn lemma_rounded_share_monotone(small: nat, large: nat, whole: nat)
    requires
        small <= large,
    ensures
        rounded_share(small, whole) <= rounded_share(large, whole),
{
    lemma_rounded_share_bounded(small, whole);
    if whole != 0 && large < whole {
        let den = 2 * whole;
        let a = 20000 * small + whole;
        let b = 20000 * large + whole;
        assert(a / den <= b / den) by (nonlinear_arith)
            requires
                den > 0,
                a <= b,
        ;
    }
}

/// Computes `rounded_share` for quantities of up to 65 bits, the width that
/// the sum of two 64-bit counters needs.
pub fn share_of(part: u128, whole: u128) -> (r: u16)
    requires
        part <= 0x1_ffff_ffff_ffff_fffe,
        whole <= 0x1_ffff_ffff_ffff_fffe,
    ensures
        r as nat == rounded_share(part as nat, whole as nat),
        r <= FULL_SCALE,
{
    proof {
        lemma_rounded_share_bounded(part as nat, whole as nat);
    }
    if whole == 0 {
        0
    } else if part >= whole {
        FULL_SCALE
    } else {
        let num: u128 = 20000 * part + whole;
        let den: u128 = 2 * whole;
        let q: u128 = num / den;
        q as u16
    }
}

} // verus!
