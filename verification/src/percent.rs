//! `Percent`: a utilisation between 0 % and 100 %.

use vstd::prelude::*;
use std::cmp::Ordering;
use crate::ratio::{rounded_share, share_of, FULL_SCALE};

verus! {

/// A utilisation in hundredths of a percent, from 0 (0 %) to 10 000 (100 %).
///
/// The value counts hundredths, so the model's precision is 0.01 %. No
/// executable value of this type is ever outside the range: the field is
/// private and the range is the type's invariant.
#[derive(Clone, Copy, Debug, PartialEq, Eq, Structural, Hash)]
pub struct Percent {
    hundredths: u16,
}

impl View for Percent {
    type V = nat;

    /// The number of hundredths of a percent.
    closed spec fn view(&self) -> nat {
        self.hundredths as nat
    }
}

impl Percent {
    /// The range that every value keeps: at most 100 %.
    #[verifier::type_invariant]
    pub open spec fn in_range(self) -> bool {
        self@ <= 10000
    }

    /// 0 %.
    pub fn zero() -> (r: Percent)
        ensures
            r@ == 0,
            r.in_range(),
    {
        Percent { hundredths: 0 }
    }

    /// 100 %.
    pub fn full() -> (r: Percent)
        ensures
            r@ == 10000,
            r.in_range(),
    {
        Percent { hundredths: FULL_SCALE }
    }

    /// Takes a value that is already scaled to hundredths of a percent, and
    /// rejects one above 100 %.
    pub fn new(hundredths: u32) -> (r: Option<Percent>)
        ensures
            r is Some <==> hundredths <= 10000,
            r matches Some(p) ==> p@ == hundredths && p.in_range(),
    {
        if hundredths <= 10000 {
            Some(Percent { hundredths: hundredths as u16 })
        } else {
            None
        }
    }

    /// Takes a value that is already scaled to hundredths of a percent, and
    /// clamps one above 100 % to 100 %.
    pub fn clamped(hundredths: u64) -> (r: Percent)
        ensures
            r@ == if hundredths <= 10000 { hundredths as nat } else { 10000 },
            r.in_range(),
    {
        if hundredths <= 10000 {
            Percent { hundredths: hundredths as u16 }
        } else {
            Percent { hundredths: FULL_SCALE }
        }
    }

    /// The share `part / whole` as a percentage, rounded to the nearest
    /// hundredth. An empty whole gives 0 %, a part above the whole 100 %.
    pub fn from_ratio(part: u64, whole: u64) -> (r: Percent)
        ensures
            r@ == rounded_share(part as nat, whole as nat),
            r.in_range(),
    {
        Percent { hundredths: share_of(part as u128, whole as u128) }
    }

    /// The share `part / whole` of two quantities of up to 65 bits.
    pub(crate) fn from_wide_ratio(part: u128, whole: u128) -> (r: Percent)
        requires
            part <= 0x1_ffff_ffff_ffff_fffe,
            whole <= 0x1_ffff_ffff_ffff_fffe,
        ensures
            r@ == rounded_share(part as nat, whole as nat),
            r.in_range(),
    {
        Percent { hundredths: share_of(part, whole) }
    }

    /// The value in hundredths of a percent.
    pub fn hundredths(&self) -> (r: u16)
        ensures
            r as nat == self@,
            r <= 10000,
    {
        proof {
            use_type_invariant(self);
        }
        self.hundredths
    }

    /// The whole percents of the value, from 0 to 100.
    pub fn whole_percents(&self) -> (r: u8)
        ensures
            r as nat == self@ / 100,
            r <= 100,
    {
        proof {
            use_type_invariant(self);
        }
        (self.hundredths / 100) as u8
    }

}

impl PartialOrd for Percent {
    /// Numeric order on the number of hundredths.
    fn partial_cmp(&self, other: &Percent) -> (r: Option<Ordering>) {
        if self.hundredths < other.hundredths {
            Some(Ordering::Less)
        } else if self.hundredths == other.hundredths {
            Some(Ordering::Equal)
        } else {
            Some(Ordering::Greater)
        }
    }
}

impl vstd::std_specs::cmp::PartialOrdSpecImpl for Percent {
    open spec fn obeys_partial_cmp_spec() -> bool {
        true
    }

    open spec fn partial_cmp_spec(&self, other: &Percent) -> Option<Ordering> {
        if self@ < other@ {
            Some(Ordering::Less)
        } else if self@ == other@ {
            Some(Ordering::Equal)
        } else {
            Some(Ordering::Greater)
        }
    }
}

/// Two percentages are the same value exactly when they count the same
/// number of hundredths.
pub proof fn lemma_percent_equality(a: Percent, b: Percent)
    ensures
        (a == b) <==> (a@ == b@),
{
}

} // verus!
