//! Prices, in the marketplace's currency.

use vstd::prelude::*;

verus! {

/// The number of `fraction` steps that make one whole unit: two to the 64th.
pub open spec fn fraction_steps() -> nat {
    0x1_0000_0000_0000_0000
}

/// An amount of platinum: a non-negative binary fixed-point number.
///
/// `units` counts whole platinum and `fraction` counts 2^-64ths of one, so
/// every price that the marketplace can quote as a double of ordinary size is
/// held without rounding, and two prices are equal exactly when both fields
/// are.
#[derive(Clone, Copy, Debug, PartialEq, Eq, Structural, PartialOrd, Ord, Hash)]
pub struct Platinum {
    pub units: u64,
    pub fraction: u64,
}

impl Platinum {
    /// The amount as a count of 2^-64ths: the number that orders prices.
    pub open spec fn scaled(self) -> nat {
        self.units as nat * fraction_steps() + self.fraction as nat
    }

    /// A whole amount.
    pub fn from_units(units: u64) -> (p: Platinum)
        ensures
            p.units == units,
            p.fraction == 0,
            p.scaled() == units as nat * fraction_steps(),
    {
        Platinum { units, fraction: 0 }
    }

    /// Whether `self` is strictly cheaper than `other`.
    pub fn lt(&self, other: &Platinum) -> (b: bool)
        ensures
            b == (self.scaled() < other.scaled()),
    {
        proof {
            lemma_scaled_order(*self, *other);
        }
        self.units < other.units || (self.units == other.units && self.fraction < other.fraction)
    }

    /// Whether `self` is strictly dearer than `other`.
    pub fn gt(&self, other: &Platinum) -> (b: bool)
        ensures
            b == (self.scaled() > other.scaled()),
    {
        other.lt(self)
    }

    /// Whether the two amounts are the same.
    pub fn same(&self, other: &Platinum) -> (b: bool)
        ensures
            b == (self.scaled() == other.scaled()),
            b == (*self == *other),
    {
        proof {
            lemma_scaled_order(*self, *other);
        }
        self.units == other.units && self.fraction == other.fraction
    }

    /// The amount rounded to whole platinum, a half going to the even
    /// neighbour.
    pub open spec fn rounded_spec(self) -> nat {
        let half: nat = 0x8000_0000_0000_0000;
        if self.fraction > half || (self.fraction == half && self.units % 2 == 1) {
            self.units as nat + 1
        } else {
            self.units as nat
        }
    }

    /// The amount rounded to whole platinum, a half going to the even
    /// neighbour, or `None` where that is more than 64 bits hold.
    pub fn rounded(&self) -> (whole: Option<u64>)
        ensures
            self.rounded_spec() <= u64::MAX ==> whole == Some(self.rounded_spec() as u64),
            self.rounded_spec() > u64::MAX ==> whole is None,
    {
        let half: u64 = 0x8000_0000_0000_0000;
        if self.fraction > half || (self.fraction == half && self.units % 2 == 1) {
            self.units.checked_add(1)
        } else {
            Some(self.units)
        }
    }

    /// The whole part, the fraction cut off.
    pub fn whole(&self) -> (u: u64)
        ensures
            u == self.units,
            u as nat == self.scaled() / fraction_steps(),
    {
        proof {
            lemma_scaled_whole(*self);
        }
        self.units
    }
}

/// The order of `scaled` is the order of the pairs `(units, fraction)`.
pub proof fn lemma_scaled_order(a: Platinum, b: Platinum)
    ensures
        a.scaled() < b.scaled() <==> (a.units < b.units || (a.units == b.units && a.fraction
            < b.fraction)),
        a.scaled() == b.scaled() <==> a == b,
{
    let s = fraction_steps();
    assert(a.fraction < s && b.fraction < s);
    if a.units < b.units {
        assert(a.units as nat * s + s <= b.units as nat * s) by (nonlinear_arith)
            requires
                a.units < b.units,
        ;
    } else if b.units < a.units {
        assert(b.units as nat * s + s <= a.units as nat * s) by (nonlinear_arith)
            requires
                b.units < a.units,
        ;
    }
}

/// Dividing `scaled` by the step count gives the whole part back.
pub proof fn lemma_scaled_whole(a: Platinum)
    ensures
        a.scaled() / fraction_steps() == a.units as nat,
{
    let s = fraction_steps();
    assert(a.fraction < s);
    assert((a.units as nat * s + a.fraction as nat) / s == a.units as nat) by (nonlinear_arith)
        requires
            a.fraction < s,
            s > 0,
    ;
}

} // verus!
