//! The order book of one item: who in it competes with a seller, and the
//! book in ascending order of price.

use vstd::prelude::*;
use crate::response::Order;
use crate::shared::OrderType;
use crate::stable::{key_is, key_under, lemma_filter_empty, sort_stable, stable_sort, SortKey};

verus! {

/// Listings are sorted by what they ask.
impl SortKey for Order {
    open spec fn sort_key(&self) -> nat {
        self.platinum.scaled()
    }

    fn sorts_after(&self, other: &Self) -> (b: bool) {
        self.platinum.gt(&other.platinum)
    }
}

/// The price of a listing, as the number that orders prices.
pub open spec fn price_of(o: Order) -> nat {
    o.platinum.scaled()
}

/// A listing competes with a seller when it sells and its owner is in the
/// game right now.
pub open spec fn is_competitor(o: Order) -> bool {
    o.order_type == OrderType::Sell && o.user.status@ == "ingame"@
}

/// The listings that compete.
pub open spec fn competitor_pred() -> spec_fn(Order) -> bool {
    |o: Order| is_competitor(o)
}

/// The listings priced strictly under `p`.
pub open spec fn cheaper_than(p: nat) -> spec_fn(Order) -> bool {
    key_under::<Order>(p)
}

/// The listings priced at exactly `p`.
pub open spec fn priced_at(p: nat) -> spec_fn(Order) -> bool {
    key_is::<Order>(p)
}

/// `s` in ascending order of price, listings of one price in the order in
/// which `s` has them.
pub open spec fn sort_by_price_spec(s: Seq<Order>) -> Seq<Order> {
    stable_sort(s)
}

/// Whether `o` competes: a sell order whose owner's status is `"ingame"`.
pub fn order_is_competitor(o: &Order) -> (b: bool)
    ensures
        b == is_competitor(*o),
{
    match o.order_type {
        OrderType::Sell => {
            let ingame = String::from_str("ingame");
            o.user.status == ingame
        },
        OrderType::Buy => false,
    }
}

/// The competitors among `orders`, in the order of `orders`.
pub fn competitors(orders: &Vec<Order>) -> (kept: Vec<Order>)
    ensures
        kept@ == orders@.filter(competitor_pred()),
{
    let mut kept: Vec<Order> = Vec::new();
    let mut i: usize = 0;
    proof {
        lemma_filter_empty(competitor_pred());
        assert(orders@.take(0) =~= Seq::<Order>::empty());
    }
    while i < orders.len()
        invariant
            i <= orders.len(),
            kept@ == orders@.take(i as int).filter(competitor_pred()),
        decreases orders.len() - i,
    {
        proof {
            orders@.lemma_take_succ_push(i as int);
            orders@.take(i as int).lemma_filter_push(orders@[i as int], competitor_pred());
        }
        if order_is_competitor(&orders[i]) {
            kept.push(orders[i].clone());
        }
        i += 1;
    }
    proof {
        orders@.lemma_take_len();
    }
    kept
}

/// Puts `orders` in ascending order of price. Listings of one price keep the
/// order in which they came.
pub fn sort_by_price(orders: &mut Vec<Order>)
    ensures
        final(orders)@ == sort_by_price_spec(old(orders)@),
{
    sort_stable(orders);
}

/// No listing is both cheaper than `p` and priced at `p`: the two groups
/// together are no more than the sequence.
pub proof fn lemma_cheaper_and_tied_fit(s: Seq<Order>, p: nat)
    ensures
        s.filter(cheaper_than(p)).len() + s.filter(priced_at(p)).len() <= s.len(),
    decreases s.len(),
{
    if s.len() == 0 {
        lemma_filter_empty(cheaper_than(p));
        lemma_filter_empty(priced_at(p));
        assert(s =~= Seq::<Order>::empty());
    } else {
        let front = s.drop_last();
        assert(s =~= front.push(s.last()));
        front.lemma_filter_push(s.last(), cheaper_than(p));
        front.lemma_filter_push(s.last(), priced_at(p));
        lemma_cheaper_and_tied_fit(front, p);
    }
}

} // verus!
