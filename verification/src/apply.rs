//! The run that applies the decisions of a batch of reports, one request at
//! a time, each listing for itself.
//!
//! The run decides; its caller talks to the marketplace. The caller asks the
//! run for the next request, makes it, and hands back how it went. A request
//! that fails is recorded against its listing and the run goes on: one bad
//! order does not keep the others from being fixed.

use vstd::prelude::*;
use crate::decision::Decision;
use crate::resolution::{
    action_of, all_decided, first_undecided, plan_action, Action, MissingDecision,
};
use crate::scanner::OrderScanReport;

verus! {

/// How applying the decision of one report went.
#[derive(Clone, Debug, PartialEq)]
pub enum ApplyOutcome {
    /// The marketplace did what was asked.
    Applied,
    /// The request failed; `reason` is what the marketplace client said.
    Failed { reason: String },
    /// The decision was to do nothing, and nothing was asked.
    Untouched,
}

/// How one request went, as its maker tells it.
#[derive(Clone, Debug, PartialEq)]
pub enum CallResult {
    Succeeded,
    Failed { reason: String },
}

/// The outcome recorded for a report with decision `decision` whose request
/// went as `result` says. Where nothing was to be asked, `result` does not
/// count.
pub open spec fn outcome_of(decision: Decision, result: CallResult) -> ApplyOutcome {
    if decision == Decision::DoNothing {
        ApplyOutcome::Untouched
    } else {
        match result {
            CallResult::Succeeded => ApplyOutcome::Applied,
            CallResult::Failed { reason } => ApplyOutcome::Failed { reason },
        }
    }
}

/// A run as a mathematical value: the reports, and the outcomes of those
/// handled so far.
pub struct ApplyRunView {
    pub reports: Seq<OrderScanReport>,
    pub outcomes: Seq<ApplyOutcome>,
}

impl ApplyRunView {
    /// What holds of every run: each report has its decision, and no more
    /// outcomes are recorded than there are reports.
    pub open spec fn wf(self) -> bool {
        all_decided(self.reports) && self.outcomes.len() <= self.reports.len()
    }

    /// Whether every report has been handled.
    pub open spec fn done(self) -> bool {
        self.outcomes.len() >= self.reports.len()
    }

    /// The report that is handled next.
    pub open spec fn current(self) -> OrderScanReport
        recommends
            !self.done(),
    {
        self.reports[self.outcomes.len() as int]
    }

    /// The request to make next.
    pub open spec fn next_action(self) -> Action
        recommends
            !self.done(),
    {
        action_of(self.current().own_order, self.current().decision->Some_0)
    }

    /// The run after the request for the current report went as `result`
    /// says. A run that is done stays as it is.
    pub open spec fn record(self, result: CallResult) -> ApplyRunView {
        if self.done() {
            self
        } else {
            ApplyRunView {
                reports: self.reports,
                outcomes: self.outcomes.push(outcome_of(self.current().decision->Some_0, result)),
            }
        }
    }

    /// The run after as many requests as `results` is long went as `results`
    /// says, one after the other.
    pub open spec fn record_all(self, results: Seq<CallResult>) -> ApplyRunView
        decreases results.len(),
    {
        if results.len() == 0 {
            self
        } else {
            self.record_all(results.drop_last()).record(results.last())
        }
    }
}

/// The application of the decisions of a batch of reports.
pub struct ApplyRun {
    reports: Vec<OrderScanReport>,
    outcomes: Vec<ApplyOutcome>,
}

impl View for ApplyRun {
    type V = ApplyRunView;

    closed spec fn view(&self) -> ApplyRunView {
        ApplyRunView { reports: self.reports@, outcomes: self.outcomes@ }
    }
}

impl ApplyRun {
    #[verifier::type_invariant]
    spec fn inv(self) -> bool {
        self@.wf()
    }

    /// A run over `reports`, in the order given, with nothing applied yet.
    /// There is no run where a report lacks its decision: the error names
    /// the item of the first such report.
    pub fn start(reports: Vec<OrderScanReport>) -> (run: Result<ApplyRun, MissingDecision>)
        ensures
            all_decided(reports@) ==> run is Ok && run->Ok_0@ == (ApplyRunView {
                reports: reports@,
                outcomes: Seq::empty(),
            }),
            !all_decided(reports@) ==> run is Err && exists|i: int|
                {
                    &&& 0 <= i < reports.len()
                    &&& (#[trigger] reports@[i]).decision is None
                    &&& forall|j: int| 0 <= j < i ==> (#[trigger] reports@[j]).decision is Some
                    &&& run->Err_0.item_name == reports@[i].own_order.item.en.item_name
                },
    {
        let mut i: usize = 0;
        while i < reports.len()
            invariant
                i <= reports.len(),
                forall|j: int| 0 <= j < i ==> (#[trigger] reports@[j]).decision is Some,
            decreases reports.len() - i,
        {
            if reports[i].decision.is_none() {
                return Err(
                    MissingDecision {
                        item_name: reports[i].own_order.item.en.item_name.clone(),
                    },
                );
            }
            i += 1;
        }
        Ok(ApplyRun { reports, outcomes: Vec::new() })
    }

    /// Whether every report has been handled.
    pub fn is_done(&self) -> (done: bool)
        ensures
            done == self@.done(),
            self@.wf(),
    {
        proof {
            use_type_invariant(self);
        }
        self.outcomes.len() >= self.reports.len()
    }

    /// The request to make next, or `None` when the run is done. What was
    /// recorded of earlier requests has no part in it.
    pub fn next_action(&self) -> (action: Option<Action>)
        ensures
            self@.wf(),
            self@.done() ==> action is None,
            !self@.done() ==> action == Some(self@.next_action()),
    {
        proof {
            use_type_invariant(self);
        }
        let at = self.outcomes.len();
        if at >= self.reports.len() {
            return None;
        }
        assert(self.reports@[at as int].decision is Some);
        match plan_action(&self.reports[at]) {
            Ok(action) => Some(action),
            Err(_) => None,
        }
    }

    /// Records how the request for the current report went, and moves on to
    /// the next report. Returns `false`, and changes nothing, where the run
    /// is done.
    pub fn record(&mut self, result: CallResult) -> (taken: bool)
        ensures
            taken == !old(self)@.done(),
            final(self)@ == old(self)@.record(result),
            final(self)@.wf(),
    {
        proof {
            use_type_invariant(&*self);
        }
        let at = self.outcomes.len();
        if at >= self.reports.len() {
            return false;
        }
        assert(self.reports@[at as int].decision is Some);
        let outcome = match self.reports[at].decision {
            Some(Decision::DoNothing) => ApplyOutcome::Untouched,
            _ => match result {
                CallResult::Succeeded => ApplyOutcome::Applied,
                CallResult::Failed { reason } => ApplyOutcome::Failed { reason },
            },
        };
        let mut outcomes: Vec<ApplyOutcome> = Vec::new();
        core::mem::swap(&mut self.outcomes, &mut outcomes);
        outcomes.push(outcome);
        core::mem::swap(&mut self.outcomes, &mut outcomes);
        true
    }

    /// The reports of the run, in the order in which they are handled.
    pub fn reports(&self) -> (reports: &Vec<OrderScanReport>)
        ensures
            reports@ == self@.reports,
    {
        &self.reports
    }

    /// The outcomes so far: the outcome at an index is that of the report at
    /// the same index.
    pub fn outcomes(&self) -> (outcomes: &Vec<ApplyOutcome>)
        ensures
            outcomes@ == self@.outcomes,
            self@.wf(),
    {
        proof {
            use_type_invariant(self);
        }
        &self.outcomes
    }

    /// Ends the run: the reports and the outcomes recorded, index by index.
    pub fn finish(self) -> (parts: (Vec<OrderScanReport>, Vec<ApplyOutcome>))
        ensures
            parts.0@ == self@.reports,
            parts.1@ == self@.outcomes,
            self@.wf(),
    {
        proof {
            use_type_invariant(&self);
        }
        (self.reports, self.outcomes)
    }
}

/// Applies the decisions of `reports`, one after the other, with `call` to
/// make a request and say how it went.
///
/// Nothing is applied where a report lacks its decision: no request is
/// made, the error names the item of the first such report, and the reports
/// are given up with it. Otherwise every report is handled, in the order
/// given and each for itself: the request that its decision calls for is
/// made, unless the decision is to do nothing, and its outcome is recorded,
/// however the requests before it went. The reports come back with their
/// outcomes, index by index.
pub fn apply<F: Fn(&Action) -> CallResult>(reports: Vec<OrderScanReport>, call: F) -> (applied:
    Result<(Vec<OrderScanReport>, Vec<ApplyOutcome>), MissingDecision>)
    requires
        forall|action: &Action| call_requires(call, (action,)),
    ensures
        !all_decided(reports@) ==> applied is Err && exists|at: int|
            first_undecided(reports@, at) && applied->Err_0.item_name
                == (#[trigger] reports@[at]).own_order.item.en.item_name,
        all_decided(reports@) ==> applied is Ok && applied->Ok_0.0@ == reports@ && exists|
            results: Seq<CallResult>,
        |
            {
                &&& results.len() == reports@.len()
                &&& forall|i: int|
                    0 <= i < results.len() && reports@[i].decision != Some(Decision::DoNothing)
                        ==> call_ensures(
                        call,
                        (&action_of(reports@[i].own_order, reports@[i].decision->Some_0),),
                        #[trigger] results[i],
                    )
                &&& applied->Ok_0.1@ == (ApplyRunView {
                    reports: reports@,
                    outcomes: Seq::empty(),
                }).record_all(results).outcomes
            },
{
    let mut run = match ApplyRun::start(reports) {
        Ok(run) => run,
        Err(missing) => {
            return Err(missing);
        },
    };
    let ghost start = run@;
    let ghost mut results: Seq<CallResult> = Seq::empty();
    loop
        invariant
            forall|action: &Action| call_requires(call, (action,)),
            all_decided(reports@),
            start == (ApplyRunView { reports: reports@, outcomes: Seq::empty() }),
            results.len() <= reports@.len(),
            run@ == start.record_all(results),
            run@.reports == reports@,
            run@.outcomes.len() == results.len(),
            forall|i: int|
                0 <= i < results.len() && reports@[i].decision != Some(Decision::DoNothing)
                    ==> call_ensures(
                    call,
                    (&action_of(reports@[i].own_order, reports@[i].decision->Some_0),),
                    #[trigger] results[i],
                ),
        ensures
            results.len() == reports@.len(),
            run@ == start.record_all(results),
            run@.reports == reports@,
            forall|i: int|
                0 <= i < results.len() && reports@[i].decision != Some(Decision::DoNothing)
                    ==> call_ensures(
                    call,
                    (&action_of(reports@[i].own_order, reports@[i].decision->Some_0),),
                    #[trigger] results[i],
                ),
        decreases reports@.len() - results.len(),
    {
        let ghost earlier = results;
        let result = match run.next_action() {
            None => {
                break ;
            },
            Some(Action::Nothing) => CallResult::Succeeded,
            Some(action) => call(&action),
        };
        proof {
            results = results.push(result);
            assert(results.drop_last() =~= earlier);
        }
        run.record(result);
    }
    Ok(run.finish())
}

/// The names of the items of the first `n` reports whose outcome passes
/// `wanted`, in the order of the reports.
pub open spec fn names_with(
    run: ApplyRunView,
    wanted: spec_fn(ApplyOutcome) -> bool,
    n: nat,
) -> Seq<Seq<char>>
    decreases n,
{
    if n == 0 {
        Seq::empty()
    } else {
        let before = names_with(run, wanted, (n - 1) as nat);
        if wanted(run.outcomes[n - 1]) {
            before.push(run.reports[n - 1].own_order.item.en.item_name@)
        } else {
            before
        }
    }
}

/// The outcomes that are a success.
pub open spec fn is_applied() -> spec_fn(ApplyOutcome) -> bool {
    |o: ApplyOutcome| o is Applied
}

/// The outcomes that are a failure.
pub open spec fn is_failed() -> spec_fn(ApplyOutcome) -> bool {
    |o: ApplyOutcome| o is Failed
}

/// The summary of a run: the items whose listing was changed, and the items
/// whose request failed, by name.
#[derive(Clone, Debug, PartialEq)]
pub struct ApplySummary {
    pub succeeded: Vec<String>,
    pub failed: Vec<String>,
}

/// The names in `names`, as sequences of characters.
pub open spec fn names_view(names: Seq<String>) -> Seq<Seq<char>> {
    Seq::new(names.len(), |i: int| names[i]@)
}

/// Sums up what has been recorded so far.
pub fn summarize(run: &ApplyRun) -> (summary: ApplySummary)
    ensures
        names_view(summary.succeeded@) == names_with(run@, is_applied(), run@.outcomes.len()),
        names_view(summary.failed@) == names_with(run@, is_failed(), run@.outcomes.len()),
{
    let reports = run.reports();
    let outcomes = run.outcomes();
    let mut succeeded: Vec<String> = Vec::new();
    let mut failed: Vec<String> = Vec::new();
    let mut i: usize = 0;
    proof {
        assert(names_view(succeeded@) =~= names_with(run@, is_applied(), 0));
        assert(names_view(failed@) =~= names_with(run@, is_failed(), 0));
    }
    while i < outcomes.len()
        invariant
            i <= outcomes.len(),
            outcomes@ == run@.outcomes,
            reports@ == run@.reports,
            run@.wf(),
            names_view(succeeded@) == names_with(run@, is_applied(), i as nat),
            names_view(failed@) == names_with(run@, is_failed(), i as nat),
        decreases outcomes.len() - i,
    {
        let ghost succeeded_before = names_view(succeeded@);
        let ghost failed_before = names_view(failed@);
        match &outcomes[i] {
            ApplyOutcome::Applied => {
                succeeded.push(reports[i].own_order.item.en.item_name.clone());
                proof {
                    assert(names_view(succeeded@) =~= succeeded_before.push(
                        reports@[i as int].own_order.item.en.item_name@,
                    ));
                }
            },
            ApplyOutcome::Failed { .. } => {
                failed.push(reports[i].own_order.item.en.item_name.clone());
                proof {
                    assert(names_view(failed@) =~= failed_before.push(
                        reports@[i as int].own_order.item.en.item_name@,
                    ));
                }
            },
            ApplyOutcome::Untouched => {},
        }
        i += 1;
    }
    ApplySummary { succeeded, failed }
}

/// A failure stays with its own listing. Let a run over `reports` make one
/// request for each report, and let them go as `results` says. Then every
/// report is handled, the request made at step `i` is the one that the
/// decision of report `i` calls for, and the outcome recorded for report `i`
/// is that of its own request, however the requests before and after it
/// went.
pub proof fn lemma_apply_failure_is_isolated(
    reports: Seq<OrderScanReport>,
    results: Seq<CallResult>,
    i: int,
)
    requires
        all_decided(reports),
        results.len() == reports.len(),
        0 <= i < reports.len(),
    ensures
        ({
            let start = ApplyRunView { reports, outcomes: Seq::empty() };
            let end = start.record_all(results);
            let before = start.record_all(results.take(i));
            &&& end.done()
            &&& end.reports == reports
            &&& end.outcomes.len() == reports.len()
            &&& end.outcomes[i] == outcome_of(reports[i].decision->Some_0, results[i])
            &&& !before.done()
            &&& before.next_action() == action_of(reports[i].own_order, reports[i].decision->Some_0)
        }),
{
    let start = ApplyRunView { reports, outcomes: Seq::empty() };
    lemma_record_all(start, results);
    lemma_record_all(start, results.take(i));
}

/// What a run looks like after some requests: the reports are the same, and
/// each request has left the outcome of its own report behind the outcomes
/// that were there.
pub proof fn lemma_record_all(run: ApplyRunView, results: Seq<CallResult>)
    requires
        run.wf(),
        run.outcomes.len() + results.len() <= run.reports.len(),
    ensures
        run.record_all(results).wf(),
        run.record_all(results).reports == run.reports,
        run.record_all(results).outcomes.len() == run.outcomes.len() + results.len(),
        forall|k: int|
            0 <= k < run.outcomes.len() ==> run.record_all(results).outcomes[k]
                == run.outcomes[k],
        forall|k: int|
            0 <= k < results.len() ==> #[trigger] run.record_all(results).outcomes[run.outcomes.len()
                + k] == outcome_of(
                run.reports[run.outcomes.len() + k].decision->Some_0,
                results[k],
            ),
    decreases results.len(),
{
    if results.len() > 0 {
        lemma_record_all(run, results.drop_last());
    }
}

} // verus!
