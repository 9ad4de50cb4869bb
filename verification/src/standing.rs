//! What holds of every classification, whatever the competitors are.

use vstd::prelude::*;
use crate::book::{cheaper_than, price_of, priced_at, sort_by_price_spec};
use crate::response::{ExistingProfileOrder, Order};
use crate::scanner::{
    classify_spec, first_rank, is_undercut, last_rank, listed_as, not_listed_as, tied_count,
    tied_with, OrderStatusView,
};
use crate::stable::{
    ascending, lemma_ascending_under_is_prefix, lemma_filter_all, lemma_filter_empty,
    lemma_filter_none, lemma_rearranged_filter, lemma_stable_sort_ascending,
    lemma_stable_sort_keeps_count, lemma_stable_sort_keeps_ties, lemma_stable_sort_len,
    lemma_stable_sort_permutes,
};

verus! {

/// Whether some listing of `competitors` asks less than `own`.
pub open spec fn some_cheaper(own: ExistingProfileOrder, competitors: Seq<Order>) -> bool {
    exists|i: int|
        0 <= i < competitors.len() && price_of(#[trigger] competitors[i]) < own.platinum.scaled()
}

/// How many parties ask what `own` asks: the listings of `competitors` at
/// that price, and `own` itself unless it is among them.
pub open spec fn parties_at_own_price(own: ExistingProfileOrder, competitors: Seq<Order>) -> nat {
    let tied = competitors.filter(priced_at(own.platinum.scaled()));
    if tied.filter(listed_as(own)).len() > 0 {
        tied.len()
    } else {
        tied.len() + 1
    }
}

/// In an ascending sequence the first listing is cheaper than `own` exactly
/// when some listing is.
pub proof fn lemma_undercut_iff_some_cheaper(own: ExistingProfileOrder, sorted: Seq<Order>)
    requires
        ascending(sorted),
    ensures
        is_undercut(own, sorted) <==> sorted.filter(cheaper_than(own.platinum.scaled())).len() > 0,
        is_undercut(own, sorted) <==> some_cheaper(own, sorted),
{
    let p = own.platinum.scaled();
    let pred = cheaper_than(p);
    if is_undercut(own, sorted) {
        sorted.lemma_filter_contains(pred, 0);
        assert(price_of(sorted[0]) < p);
    }
    if some_cheaper(own, sorted) {
        let i = choose|i: int| 0 <= i < sorted.len() && price_of(#[trigger] sorted[i]) < p;
        assert(price_of(sorted[0]) <= price_of(sorted[i]));
    }
    if sorted.filter(pred).len() > 0 {
        lemma_ascending_under_is_prefix(sorted, p);
        assert(price_of(sorted[0]) < p);
    }
}

/// Sorting neither makes nor loses a cheaper listing, and the listings that
/// ask what `own` asks stand after sorting as they were given.
pub proof fn lemma_sorting_keeps_standing(own: ExistingProfileOrder, competitors: Seq<Order>)
    ensures
        is_undercut(own, sort_by_price_spec(competitors)) <==> some_cheaper(own, competitors),
        sort_by_price_spec(competitors).filter(cheaper_than(own.platinum.scaled())).len()
            == competitors.filter(cheaper_than(own.platinum.scaled())).len(),
        tied_with(own, sort_by_price_spec(competitors)) == competitors.filter(
            priced_at(own.platinum.scaled()),
        ),
        tied_count(own, sort_by_price_spec(competitors)) == parties_at_own_price(own, competitors),
{
    let p = own.platinum.scaled();
    let sorted = sort_by_price_spec(competitors);
    lemma_stable_sort_ascending(competitors);
    lemma_stable_sort_keeps_count(competitors, cheaper_than(p));
    lemma_stable_sort_keeps_ties(competitors, p);
    lemma_undercut_iff_some_cheaper(own, sorted);
    if some_cheaper(own, competitors) {
        let i = choose|i: int|
            0 <= i < competitors.len() && price_of(#[trigger] competitors[i]) < p;
        competitors.lemma_filter_contains(cheaper_than(p), i);
    }
    if competitors.filter(cheaper_than(p)).len() > 0 {
        let found = competitors.filter(cheaper_than(p));
        competitors.lemma_filter_pred(cheaper_than(p), 0);
        competitors.lemma_filter_contains_rev(cheaper_than(p), found[0]);
        let i = choose|i: int| 0 <= i < competitors.len() && competitors[i] == found[0];
        assert(price_of(competitors[i]) < p);
    }
}

/// Whenever some competitor asks less than `own`, the listing is undercut:
/// its range of ranks is not empty, and the competitors below it are as
/// many as there are ranks before the first of its own. They are the
/// cheaper competitors, and no others.
pub proof fn lemma_cheaper_competitor_undercuts(
    own: ExistingProfileOrder,
    competitors: Seq<Order>,
)
    requires
        some_cheaper(own, competitors),
    ensures
        classify_spec(own, competitors) is Undercut,
        classify_spec(own, competitors)->pos.0 <= classify_spec(own, competitors)->pos.1,
        classify_spec(own, competitors)->below.len() == classify_spec(own, competitors)->pos.0
            - 1,
        classify_spec(own, competitors)->below == sort_by_price_spec(competitors).filter(
            cheaper_than(own.platinum.scaled()),
        ),
        classify_spec(own, competitors)->pos.0 == competitors.filter(
            cheaper_than(own.platinum.scaled()),
        ).len() + 1,
{
    let p = own.platinum.scaled();
    let sorted = sort_by_price_spec(competitors);
    lemma_sorting_keeps_standing(own, competitors);
    lemma_stable_sort_ascending(competitors);
    lemma_ascending_under_is_prefix(sorted, p);
}

/// Whenever no competitor asks less than `own` and the only listing at its
/// price, if there is one, is `own` itself, the listing is the lowest, and
/// the listings above it do not hold `own`.
pub proof fn lemma_sole_lowest_is_lowest(own: ExistingProfileOrder, competitors: Seq<Order>)
    requires
        !some_cheaper(own, competitors),
        parties_at_own_price(own, competitors) == 1,
    ensures
        classify_spec(own, competitors) is Lowest,
        classify_spec(own, competitors)->above == sort_by_price_spec(competitors).filter(
            not_listed_as(own),
        ),
        forall|i: int|
            0 <= i < classify_spec(own, competitors)->above.len() ==> (
            #[trigger] classify_spec(own, competitors)->above[i]).id@ != own.id@,
{
    let sorted = sort_by_price_spec(competitors);
    lemma_sorting_keeps_standing(own, competitors);
    let above = sorted.filter(not_listed_as(own));
    assert forall|i: int| 0 <= i < above.len() implies (#[trigger] above[i]).id@ != own.id@ by {
        sorted.lemma_filter_pred(not_listed_as(own), i);
    }
}

/// Whenever no competitor asks less than `own` and two parties or more,
/// `own` among them, ask the same, the listing shares the lowest price, and
/// the count is the number of those parties.
pub proof fn lemma_shared_lowest_counts_parties(
    own: ExistingProfileOrder,
    competitors: Seq<Order>,
)
    requires
        !some_cheaper(own, competitors),
        parties_at_own_price(own, competitors) >= 2,
    ensures
        classify_spec(own, competitors) == (OrderStatusView::SharedLowest {
            count: parties_at_own_price(own, competitors),
        }),
{
    lemma_sorting_keeps_standing(own, competitors);
}

/// Classifying the same listing against the same competitors twice gives
/// the same status.
pub proof fn lemma_classify_is_repeatable(
    own: ExistingProfileOrder,
    competitors: Seq<Order>,
    first: OrderStatusView,
    second: OrderStatusView,
)
    requires
        first == classify_spec(own, competitors),
        second == classify_spec(own, competitors),
    ensures
        first == second,
{
}

/// The order in which the competitors are given does not change the status:
/// two arrangements of the same competitors give the same case, the same
/// range of ranks and the same count, and the same listings below or above,
/// though those of one price may stand in another order.
pub proof fn lemma_arrangement_does_not_matter(
    own: ExistingProfileOrder,
    a: Seq<Order>,
    b: Seq<Order>,
)
    requires
        a.to_multiset() == b.to_multiset(),
    ensures
        match (classify_spec(own, a), classify_spec(own, b)) {
            (
                OrderStatusView::Undercut { below: below_a, pos: pos_a },
                OrderStatusView::Undercut { below: below_b, pos: pos_b },
            ) => pos_a == pos_b && below_a.to_multiset() == below_b.to_multiset(),
            (
                OrderStatusView::Lowest { above: above_a },
                OrderStatusView::Lowest { above: above_b },
            ) => above_a.to_multiset() == above_b.to_multiset(),
            (
                OrderStatusView::SharedLowest { count: count_a },
                OrderStatusView::SharedLowest { count: count_b },
            ) => count_a == count_b,
            _ => false,
        },
{
    let p = own.platinum.scaled();
    let sorted_a = sort_by_price_spec(a);
    let sorted_b = sort_by_price_spec(b);
    lemma_sorting_keeps_standing(own, a);
    lemma_sorting_keeps_standing(own, b);
    lemma_stable_sort_ascending(a);
    lemma_stable_sort_ascending(b);
    lemma_stable_sort_permutes(a);
    lemma_stable_sort_permutes(b);
    // The same number of cheaper listings, of listings at the own price, and
    // of own listings among those.
    lemma_rearranged_filter(a, b, cheaper_than(p));
    lemma_rearranged_filter(a, b, priced_at(p));
    lemma_rearranged_filter(a.filter(priced_at(p)), b.filter(priced_at(p)), listed_as(own));
    assert(some_cheaper(own, a) <==> some_cheaper(own, b)) by {
        lemma_undercut_iff_some_cheaper(own, sorted_a);
        lemma_undercut_iff_some_cheaper(own, sorted_b);
    }
    // The same listings below and above.
    lemma_ascending_under_is_prefix(sorted_a, p);
    lemma_ascending_under_is_prefix(sorted_b, p);
    lemma_rearranged_filter(sorted_a, sorted_b, cheaper_than(p));
    lemma_rearranged_filter(sorted_a, sorted_b, not_listed_as(own));
}

} // verus!
