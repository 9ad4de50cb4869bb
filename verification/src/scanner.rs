//! Where a seller's own listing stands among its competitors, and the scan
//! that finds this out for each of a seller's listings.

use vstd::prelude::*;
use crate::book::{
    cheaper_than, competitor_pred, competitors, lemma_cheaper_and_tied_fit, price_of, priced_at,
    sort_by_price, sort_by_price_spec,
};
use crate::decision::Decision;
use crate::response::{ExistingProfileOrder, Order};
use crate::stable::{
    lemma_ascending_prefix_under, lemma_filter_empty, lemma_stable_sort_ascending,
    lemma_stable_sort_len,
};

verus! {

/// How a listing is priced against its competitors.
#[derive(Debug, PartialEq)]
pub enum OrderStatus {
    /// Some competitor is cheaper. `below` holds the cheaper competitors,
    /// cheapest first; `pos` is the range of ranks, counted from 1, that the
    /// listing shares with the competitors at its own price.
    Undercut { below: Vec<Order>, pos: (usize, usize) },
    /// Nobody is cheaper and nobody else asks the same. `above` holds the
    /// other listings, cheapest first.
    Lowest { above: Vec<Order> },
    /// Nobody is cheaper, and `count` listings, this one among them, ask the
    /// same.
    SharedLowest { count: usize },
}

/// An [`OrderStatus`] as a mathematical value.
pub enum OrderStatusView {
    Undercut { below: Seq<Order>, pos: (nat, nat) },
    Lowest { above: Seq<Order> },
    SharedLowest { count: nat },
}

impl View for OrderStatus {
    type V = OrderStatusView;

    open spec fn view(&self) -> OrderStatusView {
        match *self {
            OrderStatus::Undercut { below, pos } => OrderStatusView::Undercut {
                below: below@,
                pos: (pos.0 as nat, pos.1 as nat),
            },
            OrderStatus::Lowest { above } => OrderStatusView::Lowest { above: above@ },
            OrderStatus::SharedLowest { count } => OrderStatusView::SharedLowest {
                count: count as nat,
            },
        }
    }
}

/// The listings that carry the identifier of `own`.
pub open spec fn listed_as(own: ExistingProfileOrder) -> spec_fn(Order) -> bool {
    |o: Order| o.id@ == own.id@
}

/// The listings that do not carry the identifier of `own`.
pub open spec fn not_listed_as(own: ExistingProfileOrder) -> spec_fn(Order) -> bool {
    |o: Order| o.id@ != own.id@
}

/// Whether the cheapest listing of the ascending sequence `sorted` is cheaper
/// than `own`.
pub open spec fn is_undercut(own: ExistingProfileOrder, sorted: Seq<Order>) -> bool {
    sorted.len() > 0 && price_of(sorted[0]) < own.platinum.scaled()
}

/// The listings of `sorted` that ask exactly what `own` asks.
pub open spec fn tied_with(own: ExistingProfileOrder, sorted: Seq<Order>) -> Seq<Order> {
    sorted.filter(priced_at(own.platinum.scaled()))
}

/// How many listings ask what `own` asks, `own` counted once whether or not
/// `sorted` holds it.
pub open spec fn tied_count(own: ExistingProfileOrder, sorted: Seq<Order>) -> nat {
    let tied = tied_with(own, sorted);
    if tied.filter(listed_as(own)).len() > 0 {
        tied.len()
    } else {
        tied.len() + 1
    }
}

/// The rank, counted from 1, that `own` takes in `sorted`: one more than the
/// number of cheaper listings.
pub open spec fn first_rank(own: ExistingProfileOrder, sorted: Seq<Order>) -> nat {
    sorted.filter(cheaper_than(own.platinum.scaled())).len() + 1
}

/// The last rank of the run of listings that ask what `own` asks, or
/// `first_rank` where no listing does.
pub open spec fn last_rank(own: ExistingProfileOrder, sorted: Seq<Order>) -> nat {
    let tied = tied_with(own, sorted);
    if tied.len() > 0 {
        (first_rank(own, sorted) + tied.len() - 1) as nat
    } else {
        first_rank(own, sorted)
    }
}

/// The status of `own` against competitors that are already in ascending
/// order of price.
pub open spec fn classify_sorted(own: ExistingProfileOrder, sorted: Seq<Order>) -> OrderStatusView {
    if is_undercut(own, sorted) {
        OrderStatusView::Undercut {
            below: sorted.take(first_rank(own, sorted) - 1),
            pos: (first_rank(own, sorted), last_rank(own, sorted)),
        }
    } else if tied_count(own, sorted) == 1 {
        OrderStatusView::Lowest { above: sorted.filter(not_listed_as(own)) }
    } else {
        OrderStatusView::SharedLowest { count: tied_count(own, sorted) }
    }
}

/// The status of `own` against `competitors`, which are taken in ascending
/// order of price, those of one price in the order given.
pub open spec fn classify_spec(own: ExistingProfileOrder, competitors: Seq<Order>) -> OrderStatusView {
    classify_sorted(own, sort_by_price_spec(competitors))
}

/// The status of `own` in the order book `book` of its item: its status
/// against the competitors in the book.
pub open spec fn status_in_book(own: ExistingProfileOrder, book: Seq<Order>) -> OrderStatusView {
    classify_spec(own, book.filter(competitor_pred()))
}

/// Classifies `own` against `competitors`.
///
/// Every listing given counts as a competitor, but one that carries the
/// identifier of `own` is `own` itself and is not counted twice. With no
/// competitors at all the listing is the lowest.
pub fn classify(own: &ExistingProfileOrder, competitors: Vec<Order>) -> (status: OrderStatus)
    requires
        competitors.len() < usize::MAX,
    ensures
        status@ == classify_spec(*own, competitors@),
{
    let mut sorted = competitors;
    sort_by_price(&mut sorted);
    let ghost p = own.platinum.scaled();
    proof {
        lemma_stable_sort_ascending(competitors@);
        lemma_stable_sort_len(competitors@);
        lemma_filter_empty(priced_at(p));
        lemma_filter_empty(listed_as(*own));
        lemma_filter_empty(not_listed_as(*own));
        assert(sorted@.take(0) =~= Seq::<Order>::empty());
    }
    // Listings at the own price, and those among them that are the own one.
    let mut tied: usize = 0;
    let mut own_seen: usize = 0;
    let mut i: usize = 0;
    while i < sorted.len()
        invariant
            i <= sorted.len(),
            p == own.platinum.scaled(),
            tied == sorted@.take(i as int).filter(priced_at(p)).len(),
            own_seen == sorted@.take(i as int).filter(priced_at(p)).filter(listed_as(*own)).len(),
            own_seen <= tied <= i,
        decreases sorted.len() - i,
    {
        proof {
            sorted@.lemma_take_succ_push(i as int);
            sorted@.take(i as int).lemma_filter_push(sorted@[i as int], priced_at(p));
            sorted@.take(i as int).filter(priced_at(p)).lemma_filter_push(
                sorted@[i as int],
                listed_as(*own),
            );
        }
        if sorted[i].platinum.same(&own.platinum) {
            tied += 1;
            if sorted[i].id == own.id {
                own_seen += 1;
            }
        }
        i += 1;
    }
    proof {
        sorted@.lemma_take_len();
    }
    if sorted.len() > 0 && sorted[0].platinum.lt(&own.platinum) {
        let mut k: usize = 0;
        while k < sorted.len() && sorted[k].platinum.lt(&own.platinum)
            invariant
                k <= sorted.len(),
                p == own.platinum.scaled(),
                forall|j: int| 0 <= j < k ==> price_of(sorted@[j]) < p,
            decreases sorted.len() - k,
        {
            k += 1;
        }
        proof {
            lemma_ascending_prefix_under(sorted@, p, k as int);
            lemma_cheaper_and_tied_fit(sorted@, p);
        }
        let last = if tied > 0 {
            k + tied
        } else {
            k + 1
        };
        sorted.truncate(k);
        OrderStatus::Undercut { below: sorted, pos: (k + 1, last) }
    } else {
        let count = if own_seen > 0 {
            tied
        } else {
            tied + 1
        };
        if count == 1 {
            let mut above: Vec<Order> = Vec::new();
            let mut k: usize = 0;
            while k < sorted.len()
                invariant
                    k <= sorted.len(),
                    above@ == sorted@.take(k as int).filter(not_listed_as(*own)),
                decreases sorted.len() - k,
            {
                proof {
                    sorted@.lemma_take_succ_push(k as int);
                    sorted@.take(k as int).lemma_filter_push(
                        sorted@[k as int],
                        not_listed_as(*own),
                    );
                }
                if sorted[k].id != own.id {
                    above.push(sorted[k].clone());
                }
                k += 1;
            }
            proof {
                sorted@.lemma_take_len();
            }
            OrderStatus::Lowest { above }
        } else {
            OrderStatus::SharedLowest { count }
        }
    }
}

/// What a scan found out about one of the seller's listings, with the
/// decision taken on it once there is one.
#[derive(Debug, PartialEq)]
pub struct OrderScanReport {
    pub own_order: ExistingProfileOrder,
    pub status: OrderStatus,
    pub decision: Option<Decision>,
}

/// Scans one listing: classifies `own` against the competitors in the order
/// book `book` of its item. The report has no decision yet.
pub fn scan_order(own: ExistingProfileOrder, book: &Vec<Order>) -> (report: OrderScanReport)
    requires
        book.len() < usize::MAX,
    ensures
        report.own_order == own,
        report.status@ == status_in_book(own, book@),
        report.decision is None,
{
    let rivals = competitors(book);
    proof {
        book@.lemma_filter_len(competitor_pred());
    }
    let status = classify(&own, rivals);
    OrderScanReport { own_order: own, status, decision: None }
}

/// Attaches `decision` to `report`, in place of any earlier one.
pub fn attach_decision(report: &mut OrderScanReport, decision: Decision)
    ensures
        final(report).decision == Some(decision),
        final(report).own_order == old(report).own_order,
        final(report).status == old(report).status,
{
    report.decision = Some(decision);
}

/// Has `decide` take a decision on each of `reports`, in the order given,
/// and attaches it. The reports are otherwise as they were.
pub fn decide_all<F: Fn(&OrderScanReport) -> Decision>(reports: &mut Vec<OrderScanReport>, decide: F)
    requires
        forall|report: &OrderScanReport| call_requires(decide, (report,)),
    ensures
        final(reports)@.len() == old(reports)@.len(),
        forall|i: int|
            0 <= i < old(reports)@.len() ==> {
                &&& (#[trigger] final(reports)@[i]).own_order == old(reports)@[i].own_order
                &&& final(reports)@[i].status == old(reports)@[i].status
                &&& final(reports)@[i].decision is Some
                &&& call_ensures(decide, (&old(reports)@[i],), final(reports)@[i].decision->Some_0)
            },
{
    let mut i: usize = 0;
    while i < reports.len()
        invariant
            forall|report: &OrderScanReport| call_requires(decide, (report,)),
            i <= reports.len(),
            reports@.len() == old(reports)@.len(),
            forall|j: int| i <= j < reports@.len() ==> #[trigger] reports@[j] == old(reports)@[j],
            forall|j: int|
                0 <= j < i ==> {
                    &&& (#[trigger] reports@[j]).own_order == old(reports)@[j].own_order
                    &&& reports@[j].status == old(reports)@[j].status
                    &&& reports@[j].decision is Some
                    &&& call_ensures(decide, (&old(reports)@[j],), reports@[j].decision->Some_0)
                },
        decreases reports.len() - i,
    {
        let decision = decide(&reports[i]);
        let mut report = reports.remove(i);
        attach_decision(&mut report, decision);
        reports.insert(i, report);
        i += 1;
    }
}

/// A listing whose order book could not be had.
#[derive(Debug, PartialEq)]
pub struct ScanFailure {
    pub own_order: ExistingProfileOrder,
    /// What the marketplace client said.
    pub reason: String,
}

/// A scan of a seller's listings, one after the other.
///
/// The scan says which listing is next; its caller fetches the order book of
/// that listing's item and hands it in, or says that the fetch failed. A
/// failed fetch costs that one listing its report and no other.
pub struct Scan {
    pending: Vec<ExistingProfileOrder>,
    reports: Vec<OrderScanReport>,
    failures: Vec<ScanFailure>,
}

impl Scan {
    /// The listings not yet scanned, the next one first.
    pub closed spec fn pending(&self) -> Seq<ExistingProfileOrder> {
        self.pending@
    }

    /// The reports so far, in the order in which the listings were given.
    pub closed spec fn reports(&self) -> Seq<OrderScanReport> {
        self.reports@
    }

    /// The listings whose fetch failed, in the order in which they were given.
    pub closed spec fn failures(&self) -> Seq<ScanFailure> {
        self.failures@
    }

    /// A scan of `own_orders`, with nothing scanned yet.
    pub fn new(own_orders: Vec<ExistingProfileOrder>) -> (scan: Scan)
        ensures
            scan.pending() == own_orders@,
            scan.reports() == Seq::<OrderScanReport>::empty(),
            scan.failures() == Seq::<ScanFailure>::empty(),
    {
        Scan { pending: own_orders, reports: Vec::new(), failures: Vec::new() }
    }

    /// The listing whose order book is wanted next, or `None` when the scan
    /// is over.
    pub fn next(&self) -> (own: Option<&ExistingProfileOrder>)
        ensures
            self.pending().len() == 0 ==> own is None,
            self.pending().len() > 0 ==> own == Some(&self.pending()[0]),
    {
        if self.pending.len() > 0 {
            Some(&self.pending[0])
        } else {
            None
        }
    }

    /// Takes the order book of the item of the next listing and reports on
    /// that listing. Returns `false`, and changes nothing, where no listing
    /// is pending.
    pub fn fetched(&mut self, book: &Vec<Order>) -> (taken: bool)
        requires
            book.len() < usize::MAX,
        ensures
            taken == (old(self).pending().len() > 0),
            !taken ==> *final(self) == *old(self),
            taken ==> {
                &&& final(self).pending() == old(self).pending().drop_first()
                &&& final(self).failures() == old(self).failures()
                &&& final(self).reports().len() == old(self).reports().len() + 1
                &&& final(self).reports().drop_last() == old(self).reports()
                &&& final(self).reports().last().own_order == old(self).pending()[0]
                &&& final(self).reports().last().status@ == status_in_book(
                    old(self).pending()[0],
                    book@,
                )
                &&& final(self).reports().last().decision is None
            },
    {
        if self.pending.len() == 0 {
            return false;
        }
        let own = self.pending.remove(0);
        let report = scan_order(own, book);
        self.reports.push(report);
        proof {
            assert(old(self).pending@.remove(0) =~= old(self).pending@.drop_first());
            assert(self.reports@.drop_last() =~= old(self).reports@);
        }
        true
    }

    /// Records that the order book of the next listing could not be had, and
    /// goes on to the listing after it. Returns `false`, and changes nothing,
    /// where no listing is pending.
    pub fn fetch_failed(&mut self, reason: String) -> (taken: bool)
        ensures
            taken == (old(self).pending().len() > 0),
            !taken ==> *final(self) == *old(self),
            taken ==> {
                &&& final(self).pending() == old(self).pending().drop_first()
                &&& final(self).reports() == old(self).reports()
                &&& final(self).failures() == old(self).failures().push(
                    ScanFailure { own_order: old(self).pending()[0], reason },
                )
            },
    {
        if self.pending.len() == 0 {
            return false;
        }
        let own = self.pending.remove(0);
        self.failures.push(ScanFailure { own_order: own, reason });
        proof {
            assert(old(self).pending@.remove(0) =~= old(self).pending@.drop_first());
        }
        true
    }

    /// Ends the scan: the reports and the failures, each in the order in
    /// which the listings were given.
    pub fn finish(self) -> (found: (Vec<OrderScanReport>, Vec<ScanFailure>))
        ensures
            found.0@ == self.reports(),
            found.1@ == self.failures(),
    {
        (self.reports, self.failures)
    }
}

/// What a fetch of an order book brings: the book, or what the marketplace
/// client said when it failed.
pub type Fetched = Result<Vec<Order>, String>;

/// What is said of an order book that is too large to be ranked.
pub open spec fn too_large() -> Seq<char> {
    "order book too large"@
}

/// Whether `report` is what a scan of `own` against `book` reports.
pub open spec fn reports_on(report: OrderScanReport, own: ExistingProfileOrder, book: Seq<Order>) -> bool {
    &&& report.own_order == own
    &&& report.status@ == status_in_book(own, book)
    &&& report.decision is None
}

/// Whether `failure` is what a scan records of `own` when the fetch of its
/// order book brought `fetched`, which is no book that can be ranked.
pub open spec fn fails_on(failure: ScanFailure, own: ExistingProfileOrder, fetched: Fetched) -> bool {
    &&& failure.own_order == own
    &&& match fetched {
        Ok(book) => book@.len() >= usize::MAX && failure.reason@ == too_large(),
        Err(reason) => failure.reason == reason,
    }
}

/// Whether `reports` and `failures` are what a scan of `own_orders` finds
/// when the fetch for each listing brings what `fetched` has at the same
/// place: a report for each listing whose book was fetched, a failure for
/// each other listing, both in the order of the listings.
pub open spec fn scanned(
    own_orders: Seq<ExistingProfileOrder>,
    fetched: Seq<Fetched>,
    reports: Seq<OrderScanReport>,
    failures: Seq<ScanFailure>,
) -> bool
    decreases own_orders.len(),
{
    if own_orders.len() == 0 {
        fetched.len() == 0 && reports.len() == 0 && failures.len() == 0
    } else if fetched.len() != own_orders.len() {
        false
    } else {
        let own = own_orders.last();
        match fetched.last() {
            Ok(book) if book@.len() < usize::MAX => {
                &&& reports.len() > 0
                &&& reports_on(reports.last(), own, book@)
                &&& scanned(
                    own_orders.drop_last(),
                    fetched.drop_last(),
                    reports.drop_last(),
                    failures,
                )
            },
            _ => {
                &&& failures.len() > 0
                &&& fails_on(failures.last(), own, fetched.last())
                &&& scanned(
                    own_orders.drop_last(),
                    fetched.drop_last(),
                    reports,
                    failures.drop_last(),
                )
            },
        }
    }
}

/// Scans `own_orders`, one after the other, with `fetch` to get the order
/// book of the item of a listing.
///
/// Every listing is dealt with, whatever `fetch` brought for the listings
/// before it: there is a report for each listing whose book was fetched and
/// a failure for each other one, both in the order of the listings.
pub fn scan<F: Fn(&ExistingProfileOrder) -> Fetched>(
    own_orders: Vec<ExistingProfileOrder>,
    fetch: F,
) -> (found: (Vec<OrderScanReport>, Vec<ScanFailure>))
    requires
        forall|own: &ExistingProfileOrder| call_requires(fetch, (own,)),
    ensures
        exists|fetched: Seq<Fetched>|
            {
                &&& fetched.len() == own_orders@.len()
                &&& forall|i: int|
                    0 <= i < fetched.len() ==> call_ensures(
                        fetch,
                        (&own_orders@[i],),
                        #[trigger] fetched[i],
                    )
                &&& scanned(own_orders@, fetched, found.0@, found.1@)
            },
{
    let mut scan = Scan::new(own_orders);
    let ghost mut fetched: Seq<Fetched> = Seq::empty();
    proof {
        assert(own_orders@.take(0) =~= Seq::<ExistingProfileOrder>::empty());
        assert(own_orders@.skip(0) =~= own_orders@);
    }
    loop
        invariant
            forall|own: &ExistingProfileOrder| call_requires(fetch, (own,)),
            fetched.len() <= own_orders@.len(),
            scan.pending() == own_orders@.skip(fetched.len() as int),
            forall|i: int|
                0 <= i < fetched.len() ==> call_ensures(
                    fetch,
                    (&own_orders@[i],),
                    #[trigger] fetched[i],
                ),
            scanned(
                own_orders@.take(fetched.len() as int),
                fetched,
                scan.reports(),
                scan.failures(),
            ),
        ensures
            fetched.len() == own_orders@.len(),
            forall|i: int|
                0 <= i < fetched.len() ==> call_ensures(
                    fetch,
                    (&own_orders@[i],),
                    #[trigger] fetched[i],
                ),
            scanned(own_orders@, fetched, scan.reports(), scan.failures()),
        decreases own_orders@.len() - fetched.len(),
    {
        let ghost done = fetched.len() as int;
        let ghost earlier = fetched;
        let ghost before = scan;
        let outcome = match scan.next() {
            Some(own) => fetch(own),
            None => {
                proof {
                    own_orders@.lemma_take_len();
                }
                break ;
            },
        };
        proof {
            assert(own_orders@.skip(done)[0] == own_orders@[done]);
            assert(own_orders@.skip(done).drop_first() =~= own_orders@.skip(done + 1));
            assert(own_orders@.take(done + 1).drop_last() =~= own_orders@.take(done));
            assert(own_orders@.take(done + 1).last() == own_orders@[done]);
            fetched = fetched.push(outcome);
            assert(fetched.drop_last() =~= earlier);
            assert(fetched.last() == outcome);
        }
        match outcome {
            Ok(book) => {
                if book.len() < usize::MAX {
                    scan.fetched(&book);
                } else {
                    scan.fetch_failed(String::from_str("order book too large"));
                    proof {
                        assert(scan.failures().drop_last() =~= before.failures());
                    }
                }
            },
            Err(reason) => {
                scan.fetch_failed(reason);
                proof {
                    assert(scan.failures().drop_last() =~= before.failures());
                }
            },
        }
    }
    scan.finish()
}

} // verus!
