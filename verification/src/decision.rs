//! What to do about a listing, and the order in which decisions are carried
//! out.

use vstd::prelude::*;

verus! {

/// The corrective action chosen for one listing.
#[derive(Clone, Copy, Debug, PartialEq, Eq, Structural, Hash)]
pub enum Decision {
    /// Ask `new_price` whole platinum from now on.
    ChangePrice { new_price: u16 },
    /// Take the listing off the market.
    RemoveOrder,
    /// Keep the listing but hide it.
    MakeOrderPrivate,
    /// Leave the listing as it is.
    DoNothing,
}

/// A [`Decision`] without what it carries.
#[derive(Clone, Copy, Debug, PartialEq, Eq, Structural, Hash)]
pub enum DecisionKind {
    ChangePrice,
    RemoveOrder,
    MakeOrderPrivate,
    DoNothing,
}

impl DecisionKind {
    /// The place of the kind in the order of resolution: price changes come
    /// first, then removals, then hidings, and what is left alone comes last.
    pub open spec fn rank_spec(self) -> nat {
        match self {
            DecisionKind::ChangePrice => 0,
            DecisionKind::RemoveOrder => 1,
            DecisionKind::MakeOrderPrivate => 2,
            DecisionKind::DoNothing => 3,
        }
    }

    /// The place of the kind in the order of resolution, from 0 to 3.
    pub fn rank(&self) -> (r: u8)
        ensures
            r == self.rank_spec(),
    {
        match self {
            DecisionKind::ChangePrice => 0,
            DecisionKind::RemoveOrder => 1,
            DecisionKind::MakeOrderPrivate => 2,
            DecisionKind::DoNothing => 3,
        }
    }
}

impl Decision {
    pub open spec fn kind_spec(self) -> DecisionKind {
        match self {
            Decision::ChangePrice { .. } => DecisionKind::ChangePrice,
            Decision::RemoveOrder => DecisionKind::RemoveOrder,
            Decision::MakeOrderPrivate => DecisionKind::MakeOrderPrivate,
            Decision::DoNothing => DecisionKind::DoNothing,
        }
    }

    /// The kind of the decision.
    pub fn kind(&self) -> (k: DecisionKind)
        ensures
            k == self.kind_spec(),
    {
        match self {
            Decision::ChangePrice { .. } => DecisionKind::ChangePrice,
            Decision::RemoveOrder => DecisionKind::RemoveOrder,
            Decision::MakeOrderPrivate => DecisionKind::MakeOrderPrivate,
            Decision::DoNothing => DecisionKind::DoNothing,
        }
    }

    /// The place of the decision in the order of resolution. Two price
    /// changes have the same place, whatever their prices.
    pub open spec fn rank_spec(self) -> nat {
        self.kind_spec().rank_spec()
    }

    /// The place of the decision in the order of resolution, from 0 to 3.
    pub fn rank(&self) -> (r: u8)
        ensures
            r == self.rank_spec(),
            r <= 3,
    {
        self.kind().rank()
    }

    /// Whether `self` is carried out strictly before `other`.
    pub fn precedes(&self, other: &Decision) -> (b: bool)
        ensures
            b == (self.rank_spec() < other.rank_spec()),
    {
        self.rank() < other.rank()
    }
}

/// The order of resolution is a total preorder on decisions, and a total
/// order on their kinds: of two decisions one is not after the other, the
/// relation is transitive, and two decisions that are at the same place are
/// of the same kind.
pub proof fn lemma_resolution_order_is_total(a: Decision, b: Decision, c: Decision)
    ensures
        a.rank_spec() <= a.rank_spec(),
        a.rank_spec() <= b.rank_spec() || b.rank_spec() <= a.rank_spec(),
        a.rank_spec() <= b.rank_spec() && b.rank_spec() <= c.rank_spec() ==> a.rank_spec()
            <= c.rank_spec(),
        a.rank_spec() == b.rank_spec() <==> a.kind_spec() == b.kind_spec(),
        (Decision::ChangePrice { new_price: 0 }).rank_spec() < Decision::RemoveOrder.rank_spec(),
        Decision::RemoveOrder.rank_spec() < Decision::MakeOrderPrivate.rank_spec(),
        Decision::MakeOrderPrivate.rank_spec() < Decision::DoNothing.rank_spec(),
{
}

} // verus!
