//! Resolving a batch of scan reports: the order in which the decisions go,
//! what the seller is shown before anything happens, and the request that
//! carries a decision out.

use vstd::prelude::*;
use crate::decision::{Decision, DecisionKind};
use crate::model::UpdateOrderDescriptor;
use crate::platinum::Platinum;
use crate::response::ExistingProfileOrder;
use crate::scanner::OrderScanReport;
use crate::stable::{
    lemma_filter_none, lemma_stable_sort_ascending, lemma_stable_sort_keeps_count,
    lemma_stable_sort_len, lemma_stable_sort_maps, sort_stable, stable_sort, SortKey,
};

verus! {

/// The key by which reports are put in order for resolution: the place of
/// the decision, behind the reports that have no decision yet.
pub open spec fn resolution_key(decision: Option<Decision>) -> nat {
    match decision {
        None => 0,
        Some(d) => d.rank_spec() + 1,
    }
}

fn resolution_key_of(decision: &Option<Decision>) -> (k: u8)
    ensures
        k == resolution_key(*decision),
{
    match decision {
        None => 0,
        Some(d) => d.rank() + 1,
    }
}

/// Reports are sorted by their decisions.
impl SortKey for OrderScanReport {
    open spec fn sort_key(&self) -> nat {
        resolution_key(self.decision)
    }

    fn sorts_after(&self, other: &Self) -> (b: bool) {
        resolution_key_of(&self.decision) > resolution_key_of(&other.decision)
    }
}

/// `reports` in the order of resolution: price changes, removals, hidings,
/// then what is left alone; reports with decisions of one kind in the order
/// in which `reports` has them.
pub open spec fn resolution_order(reports: Seq<OrderScanReport>) -> Seq<OrderScanReport> {
    stable_sort(reports)
}

/// Whether every report has its decision.
pub open spec fn all_decided(reports: Seq<OrderScanReport>) -> bool {
    forall|i: int| 0 <= i < reports.len() ==> (#[trigger] reports[i]).decision is Some
}

/// The reports that lack a decision.
pub open spec fn undecided() -> spec_fn(OrderScanReport) -> bool {
    |r: OrderScanReport| r.decision is None
}

/// Puts `reports` in the order of resolution. No report is added or lost,
/// and none gets or loses a decision.
pub fn order_for_resolution(reports: &mut Vec<OrderScanReport>)
    ensures
        final(reports)@ == resolution_order(old(reports)@),
        final(reports)@.len() == old(reports)@.len(),
        all_decided(final(reports)@) <==> all_decided(old(reports)@),
{
    proof {
        lemma_order_keeps_decided(reports@);
    }
    sort_stable(reports);
}

/// A report was to be resolved before a decision was attached to it.
#[derive(Clone, Debug, PartialEq)]
pub struct MissingDecision {
    /// The name of the item of the first such report.
    pub item_name: String,
}

/// What is about to happen to one listing.
#[derive(Clone, Copy, Debug, PartialEq, Eq, Structural)]
pub enum PreviewChange {
    /// The price goes from `from` to `to` whole platinum.
    Price { from: Platinum, to: u16 },
    /// The listing is removed.
    Removed,
    /// The listing is hidden.
    Hidden,
    /// The listing is left unchanged.
    Unchanged,
}

/// One line of the preview: an item and what is about to happen to the
/// seller's listing of it.
#[derive(Debug, PartialEq)]
pub struct PreviewLine {
    pub item_name: String,
    pub change: PreviewChange,
}

impl PreviewChange {
    pub open spec fn kind_spec(self) -> DecisionKind {
        match self {
            PreviewChange::Price { .. } => DecisionKind::ChangePrice,
            PreviewChange::Removed => DecisionKind::RemoveOrder,
            PreviewChange::Hidden => DecisionKind::MakeOrderPrivate,
            PreviewChange::Unchanged => DecisionKind::DoNothing,
        }
    }

    /// The kind of decision that the change comes from.
    pub fn kind(&self) -> (k: DecisionKind)
        ensures
            k == self.kind_spec(),
    {
        match self {
            PreviewChange::Price { .. } => DecisionKind::ChangePrice,
            PreviewChange::Removed => DecisionKind::RemoveOrder,
            PreviewChange::Hidden => DecisionKind::MakeOrderPrivate,
            PreviewChange::Unchanged => DecisionKind::DoNothing,
        }
    }
}

/// What `decision` does to the listing `own`.
pub open spec fn change_of(own: ExistingProfileOrder, decision: Decision) -> PreviewChange {
    match decision {
        Decision::ChangePrice { new_price } => PreviewChange::Price {
            from: own.platinum,
            to: new_price,
        },
        Decision::RemoveOrder => PreviewChange::Removed,
        Decision::MakeOrderPrivate => PreviewChange::Hidden,
        Decision::DoNothing => PreviewChange::Unchanged,
    }
}

/// The preview line of a report that has its decision.
pub open spec fn line_of(report: OrderScanReport) -> PreviewLine {
    PreviewLine {
        item_name: report.own_order.item.en.item_name,
        change: change_of(report.own_order, report.decision->Some_0),
    }
}

/// The preview of reports that stand in the order of resolution: one line
/// for each, in that order.
pub open spec fn lines_of(ordered: Seq<OrderScanReport>) -> Seq<PreviewLine> {
    Seq::new(ordered.len(), |i: int| line_of(ordered[i]))
}

/// Lines are sorted by the kind of what they announce.
impl SortKey for PreviewLine {
    open spec fn sort_key(&self) -> nat {
        self.change.kind_spec().rank_spec()
    }

    fn sorts_after(&self, other: &Self) -> (b: bool) {
        self.change.kind().rank() > other.change.kind().rank()
    }
}

/// The preview of `reports`: one line for each, the lines in the order of
/// resolution, and lines of one kind in the order of their reports.
pub open spec fn preview_spec(reports: Seq<OrderScanReport>) -> Seq<PreviewLine> {
    stable_sort(lines_of(reports))
}

/// Whether `at` is the place of the first of `reports` that lacks its
/// decision.
pub open spec fn first_undecided(reports: Seq<OrderScanReport>, at: int) -> bool {
    &&& 0 <= at < reports.len()
    &&& reports[at].decision is None
    &&& forall|j: int| 0 <= j < at ==> (#[trigger] reports[j]).decision is Some
}

/// Whether lines of one kind stand together, the kinds in the order of
/// resolution.
pub open spec fn grouped(lines: Seq<PreviewLine>) -> bool {
    forall|i: int, j: int|
        0 <= i <= j < lines.len() ==> lines[i].change.kind_spec().rank_spec()
            <= lines[j].change.kind_spec().rank_spec()
}

/// The preview line of `report`, or `None` where it has no decision.
pub fn preview_line(report: &OrderScanReport) -> (line: Option<PreviewLine>)
    ensures
        report.decision is None ==> line is None,
        report.decision is Some ==> line == Some(line_of(*report)),
{
    match report.decision {
        None => None,
        Some(decision) => {
            let change = match decision {
                Decision::ChangePrice { new_price } => PreviewChange::Price {
                    from: report.own_order.platinum,
                    to: new_price,
                },
                Decision::RemoveOrder => PreviewChange::Removed,
                Decision::MakeOrderPrivate => PreviewChange::Hidden,
                Decision::DoNothing => PreviewChange::Unchanged,
            };
            Some(PreviewLine { item_name: report.own_order.item.en.item_name.clone(), change })
        },
    }
}

/// Previews `reports`: one line for each report, the lines in the order of
/// resolution, so that the lines of one kind stand together. The reports are
/// left as they are.
///
/// Nothing is previewed where a report lacks its decision: the error names
/// the item of the first such report.
pub fn preview(reports: &Vec<OrderScanReport>) -> (lines: Result<Vec<PreviewLine>, MissingDecision>)
    ensures
        all_decided(reports@) ==> lines is Ok && lines->Ok_0@ == preview_spec(reports@)
            && grouped(lines->Ok_0@),
        !all_decided(reports@) ==> lines is Err && exists|at: int|
            first_undecided(reports@, at) && lines->Err_0.item_name
                == (#[trigger] reports@[at]).own_order.item.en.item_name,
{
    let mut lines: Vec<PreviewLine> = Vec::new();
    let mut i: usize = 0;
    while i < reports.len()
        invariant
            i <= reports.len(),
            lines.len() == i,
            forall|j: int| 0 <= j < i ==> (#[trigger] reports@[j]).decision is Some,
            forall|j: int| 0 <= j < i ==> #[trigger] lines@[j] == line_of(reports@[j]),
        decreases reports.len() - i,
    {
        match preview_line(&reports[i]) {
            None => {
                proof {
                    assert(first_undecided(reports@, i as int));
                }
                return Err(
                    MissingDecision {
                        item_name: reports[i].own_order.item.en.item_name.clone(),
                    },
                );
            },
            Some(line) => {
                lines.push(line);
            },
        }
        i += 1;
    }
    proof {
        assert(lines@ =~= lines_of(reports@));
        lemma_stable_sort_ascending(lines_of(reports@));
    }
    sort_stable(&mut lines);
    Ok(lines)
}

/// Whether a gap belongs in front of line `i` when the lines are shown: the
/// line opens a new group, and is not the first line.
pub fn opens_group(lines: &Vec<PreviewLine>, i: usize) -> (gap: bool)
    requires
        i < lines.len(),
    ensures
        gap == (i > 0 && lines@[i as int].change.kind_spec() != lines@[i - 1].change.kind_spec()),
{
    i > 0 && lines[i].change.kind() != lines[i - 1].change.kind()
}

/// Putting reports in the order of resolution neither adds nor loses a
/// report without decision.
pub proof fn lemma_order_keeps_decided(reports: Seq<OrderScanReport>)
    ensures
        all_decided(reports) <==> all_decided(resolution_order(reports)),
        resolution_order(reports).len() == reports.len(),
{
    let ordered = resolution_order(reports);
    lemma_stable_sort_len(reports);
    lemma_stable_sort_keeps_count(reports, undecided());
    if all_decided(reports) {
        lemma_filter_none(reports, undecided());
        if !all_decided(ordered) {
            let i = choose|i: int| 0 <= i < ordered.len() && (#[trigger] ordered[i]).decision is None;
            ordered.lemma_filter_contains(undecided(), i);
        }
    }
    if all_decided(ordered) {
        lemma_filter_none(ordered, undecided());
        if !all_decided(reports) {
            let i = choose|i: int| 0 <= i < reports.len() && (#[trigger] reports[i]).decision is None;
            reports.lemma_filter_contains(undecided(), i);
        }
    }
}

/// Whatever decisions a batch of reports carries, its preview has a line
/// for each report and lists every price change before any removal, every
/// removal before any hiding, and every hiding before what is left alone.
pub proof fn lemma_preview_is_grouped(reports: Seq<OrderScanReport>, i: int, j: int)
    requires
        all_decided(reports),
        0 <= i < j < preview_spec(reports).len(),
    ensures
        preview_spec(reports).len() == reports.len(),
        grouped(preview_spec(reports)),
        preview_spec(reports)[j].change is Price ==> preview_spec(reports)[i].change is Price,
        preview_spec(reports)[j].change is Removed ==> !(preview_spec(reports)[i].change
            is Hidden) && !(preview_spec(reports)[i].change is Unchanged),
        preview_spec(reports)[j].change is Hidden ==> !(preview_spec(reports)[i].change
            is Unchanged),
{
    lemma_stable_sort_ascending(lines_of(reports));
    lemma_stable_sort_len(lines_of(reports));
    let lines = preview_spec(reports);
    assert(lines[i].sort_key() <= lines[j].sort_key());
}

/// The preview lists the reports in the order in which their decisions are
/// applied: its lines are the lines of the reports in the order of
/// resolution.
pub proof fn lemma_preview_follows_resolution_order(reports: Seq<OrderScanReport>)
    requires
        all_decided(reports),
    ensures
        preview_spec(reports) == lines_of(resolution_order(reports)),
{
    let line = |report: OrderScanReport| line_of(report);
    assert forall|i: int, j: int| 0 <= i < reports.len() && 0 <= j < reports.len() implies ((
    #[trigger] reports[i]).sort_key() <= (#[trigger] reports[j]).sort_key() <==> line(
        reports[i],
    ).sort_key() <= line(reports[j]).sort_key()) by {
        assert(reports[i].decision is Some && reports[j].decision is Some);
    }
    lemma_stable_sort_maps::<OrderScanReport, PreviewLine>(reports, line);
    lemma_stable_sort_len(reports);
    assert(reports.map_values(line) =~= lines_of(reports));
    assert(resolution_order(reports).map_values(line) =~= lines_of(resolution_order(reports)));
}

/// What the seller answers when asked whether the preview is all right.
#[derive(Clone, Copy, Debug, PartialEq, Eq, Structural)]
pub enum Confirmation {
    /// Apply the decisions.
    Proceed,
    /// Apply nothing and go back to deciding.
    Abort,
}

/// The step after the preview: on with the run where the seller confirmed,
/// back to deciding where not.
pub fn confirm(confirmed: bool) -> (next: Confirmation)
    ensures
        confirmed ==> next == Confirmation::Proceed,
        !confirmed ==> next == Confirmation::Abort,
{
    if confirmed {
        Confirmation::Proceed
    } else {
        Confirmation::Abort
    }
}

/// What the marketplace is to be asked for one listing.
#[derive(Debug, PartialEq)]
pub enum Action {
    /// Update the order `order_id` to what `descriptor` says.
    Update { order_id: String, descriptor: UpdateOrderDescriptor },
    /// Delete the order `order_id`.
    Remove { order_id: String },
    /// Ask nothing.
    Nothing,
}

/// What the listing `own` is updated to where nothing changes: its price,
/// with its fraction, its quantity and its visibility.
pub open spec fn unchanged_descriptor(own: ExistingProfileOrder) -> UpdateOrderDescriptor {
    UpdateOrderDescriptor {
        platinum: own.platinum,
        quantity: own.quantity,
        visible: own.visible,
        rank: None,
        subtype: None,
    }
}

/// The request that carries out `decision` on `own`.
///
/// A price change keeps quantity and visibility and sets the new price, a
/// whole number of platinum; a hiding keeps the price, with its fraction,
/// and the quantity, and makes the listing invisible.
pub open spec fn action_of(own: ExistingProfileOrder, decision: Decision) -> Action {
    match decision {
        Decision::ChangePrice { new_price } => Action::Update {
            order_id: own.id,
            descriptor: UpdateOrderDescriptor {
                platinum: Platinum { units: new_price as u64, fraction: 0 },
                ..unchanged_descriptor(own)
            },
        },
        Decision::MakeOrderPrivate => Action::Update {
            order_id: own.id,
            descriptor: UpdateOrderDescriptor { visible: false, ..unchanged_descriptor(own) },
        },
        Decision::RemoveOrder => Action::Remove { order_id: own.id },
        Decision::DoNothing => Action::Nothing,
    }
}

/// The request that carries out the decision of `report`, or the error where
/// it has none.
pub fn plan_action(report: &OrderScanReport) -> (action: Result<Action, MissingDecision>)
    ensures
        report.decision is Some ==> action == Ok::<Action, MissingDecision>(
            action_of(report.own_order, report.decision->Some_0),
        ),
        report.decision is None ==> action is Err && action->Err_0.item_name
            == report.own_order.item.en.item_name,
{
    let own = &report.own_order;
    match report.decision {
        None => Err(MissingDecision { item_name: own.item.en.item_name.clone() }),
        Some(Decision::ChangePrice { new_price }) => Ok(
            Action::Update {
                order_id: own.id.clone(),
                descriptor: UpdateOrderDescriptor {
                    platinum: Platinum::from_units(new_price as u64),
                    quantity: own.quantity,
                    visible: own.visible,
                    rank: None,
                    subtype: None,
                },
            },
        ),
        Some(Decision::MakeOrderPrivate) => Ok(
            Action::Update {
                order_id: own.id.clone(),
                descriptor: UpdateOrderDescriptor {
                    platinum: own.platinum,
                    quantity: own.quantity,
                    visible: false,
                    rank: None,
                    subtype: None,
                },
            },
        ),
        Some(Decision::RemoveOrder) => Ok(Action::Remove { order_id: own.id.clone() }),
        Some(Decision::DoNothing) => Ok(Action::Nothing),
    }
}

} // verus!
