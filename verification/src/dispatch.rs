use vstd::prelude::*;

use crate::model::{
    DispatchResponse, MigrationOutcome, MigrationRequest, OutcomeModel, RequestModel,
    ResponseModel,
};

verus! {

/// A response counts as success exactly when it carries a 2xx status; any
/// other status, and any transport failure, is a per-repository failure.
pub open spec fn response_success(resp: ResponseModel) -> bool {
    resp matches ResponseModel::Status(code, _) && 200 <= code < 300
}

/// The reportable detail of a response, carried into its outcome unchanged.
pub open spec fn response_detail(resp: ResponseModel) -> Seq<char> {
    match resp {
        ResponseModel::Status(_, detail) => detail,
        ResponseModel::Transport(detail) => detail,
    }
}

/// The outcome recorded for the repository `repo_name` when its migration
/// request drew `resp`.
pub open spec fn outcome_of(repo_name: Seq<char>, resp: ResponseModel) -> OutcomeModel {
    OutcomeModel {
        repo_name,
        success: response_success(resp),
        detail: response_detail(resp),
    }
}

/// Classifies what the destination API answered for one repository.
pub fn classify_outcome(repo_name: String, resp: DispatchResponse) -> (r: MigrationOutcome)
    ensures
        r@ == outcome_of(repo_name@, resp@),
{
    match resp {
        DispatchResponse::Status(code, detail) => MigrationOutcome {
            repo_name,
            success: 200 <= code && code < 300,
            detail,
        },
        DispatchResponse::Transport(detail) => MigrationOutcome {
            repo_name,
            success: false,
            detail,
        },
    }
}

/// The outcomes of a whole batch: one per repository, each classified from
/// its own response alone.
pub open spec fn outcomes_of(names: Seq<Seq<char>>, resps: Seq<ResponseModel>) -> Seq<
    OutcomeModel,
>
    recommends
        names.len() == resps.len(),
    decreases resps.len(),
{
    if resps.len() == 0 || names.len() == 0 {
        Seq::empty()
    } else {
        outcomes_of(names.drop_last(), resps.drop_last()).push(
            outcome_of(names.last(), resps.last()),
        )
    }
}

/// Dispatch isolation: with one response per request, the batch yields
/// exactly one outcome per request, in dispatch order; each outcome carries
/// its own repository's name and succeeds exactly on its own 2xx response.
/// No failure aborts, removes or changes any other repository's outcome.
pub proof fn lemma_dispatch_isolation(names: Seq<Seq<char>>, resps: Seq<ResponseModel>)
    requires
        names.len() == resps.len(),
    ensures
        outcomes_of(names, resps).len() == names.len(),
        forall|i: int| 0 <= i < names.len() ==> outcomes_of(names, resps)[i] == outcome_of(
            names[i],
            resps[i],
        ),
    decreases resps.len(),
{
    if names.len() > 0 {
        lemma_dispatch_isolation(names.drop_last(), resps.drop_last());
    }
}

/// Mathematical image of a `DispatchBatch`.
pub ghost struct BatchModel {
    pub requests: Seq<RequestModel>,
    pub outcomes: Seq<OutcomeModel>,
}

/// The dispatch loop's state: the requests of the run, in enumeration order,
/// and the outcomes recorded so far. The caller sends request after request
/// and records what each drew; recording never touches any other outcome, so
/// one bad repository cannot abort the batch.
pub struct DispatchBatch {
    requests: Vec<MigrationRequest>,
    outcomes: Vec<MigrationOutcome>,
}

impl View for DispatchBatch {
    type V = BatchModel;

    closed spec fn view(&self) -> BatchModel {
        BatchModel {
            requests: self.requests@.map_values(|r: MigrationRequest| r@),
            outcomes: self.outcomes@.map_values(|o: MigrationOutcome| o@),
        }
    }
}

impl DispatchBatch {
    /// At every point, no more outcomes are recorded than there are
    /// requests.
    pub open spec fn wf(&self) -> bool {
        self@.outcomes.len() <= self@.requests.len()
    }

    pub fn new(requests: Vec<MigrationRequest>) -> (r: DispatchBatch)
        ensures
            r.wf(),
            r@.requests == requests@.map_values(|q: MigrationRequest| q@),
            r@.outcomes == Seq::<OutcomeModel>::empty(),
    {
        let r = DispatchBatch { requests, outcomes: Vec::new() };
        proof {
            assert(r@.outcomes =~= Seq::<OutcomeModel>::empty());
        }
        r
    }

    /// Whether every request has its outcome.
    pub fn is_done(&self) -> (r: bool)
        ensures
            r == (self@.outcomes.len() == self@.requests.len()),
    {
        self.outcomes.len() == self.requests.len()
    }

    /// The request to send next: the first one without an outcome.
    pub fn next_request(&self) -> (r: Option<&MigrationRequest>)
        requires
            self.wf(),
        ensures
            match r {
                Some(req) => self@.outcomes.len() < self@.requests.len() && req@
                    == self@.requests[self@.outcomes.len() as int],
                None => self@.outcomes.len() == self@.requests.len(),
            },
    {
        if self.outcomes.len() < self.requests.len() {
            Some(&self.requests[self.outcomes.len()])
        } else {
            None
        }
    }

    /// Records what the destination API answered for the request
    /// `next_request` handed out. Exactly one outcome is appended; every
    /// earlier outcome, and every request, stays as it was.
    pub fn record(&mut self, resp: DispatchResponse)
        requires
            old(self).wf(),
            old(self)@.outcomes.len() < old(self)@.requests.len(),
        ensures
            final(self).wf(),
            final(self)@.requests == old(self)@.requests,
            final(self)@.outcomes == old(self)@.outcomes.push(
                outcome_of(
                    old(self)@.requests[old(self)@.outcomes.len() as int].repo_name,
                    resp@,
                ),
            ),
    {
        let i = self.outcomes.len();
        let name = self.requests[i].repo_name.clone();
        let outcome = classify_outcome(name, resp);
        self.outcomes.push(outcome);
        proof {
            assert(final(self)@.outcomes =~= old(self)@.outcomes.push(
                outcome_of(
                    old(self)@.requests[old(self)@.outcomes.len() as int].repo_name,
                    resp@,
                ),
            ));
        }
    }

    /// Hands out the recorded outcomes, in dispatch order.
    pub fn into_outcomes(self) -> (r: Vec<MigrationOutcome>)
        ensures
            r@.map_values(|o: MigrationOutcome| o@) == self@.outcomes,
    {
        self.outcomes
    }
}

/// How many of the outcomes succeeded.
pub open spec fn count_successes(outcomes: Seq<OutcomeModel>) -> nat
    decreases outcomes.len(),
{
    if outcomes.len() == 0 {
        0
    } else {
        count_successes(outcomes.drop_last()) + if outcomes.last().success {
            1nat
        } else {
            0nat
        }
    }
}

/// A run's closing tally: how many repositories matched the filter, and of
/// their migrations how many the destination accepted and how many failed.
pub struct RunSummary {
    pub matched: usize,
    pub succeeded: usize,
    pub failed: usize,
}

/// Tallies the outcomes of a run: the matched count is the number of
/// outcomes, and every outcome is counted exactly once, as a success or as a
/// failure.
pub fn summarize(outcomes: &Vec<MigrationOutcome>) -> (r: RunSummary)
    ensures
        r.matched == outcomes@.len(),
        r.succeeded == count_successes(outcomes@.map_values(|o: MigrationOutcome| o@)),
        r.failed + r.succeeded == r.matched,
{
    let ghost all = outcomes@.map_values(|o: MigrationOutcome| o@);
    let mut succeeded: usize = 0;
    let mut i: usize = 0;
    while i < outcomes.len()
        invariant
            i <= outcomes@.len(),
            all == outcomes@.map_values(|o: MigrationOutcome| o@),
            all.len() == outcomes@.len(),
            succeeded as nat == count_successes(all.take(i as int)),
            succeeded <= i,
        decreases outcomes@.len() - i,
    {
        proof {
            assert(all.take(i + 1).drop_last() =~= all.take(i as int));
            assert(all.take(i + 1).last() == outcomes@[i as int]@);
        }
        if outcomes[i].success {
            succeeded = succeeded + 1;
        }
        i += 1;
    }
    proof {
        assert(all.take(outcomes@.len() as int) =~= all);
    }
    RunSummary { matched: outcomes.len(), succeeded, failed: outcomes.len() - succeeded }
}

/// The closing line a run reports, rendered from its tally.
pub fn summary_line(summary: &RunSummary) -> (r: String)
    ensures
        r@ == "migrations: "@ + crate::text::dec_digits(summary.matched as nat) + " matched, "@
            + crate::text::dec_digits(summary.succeeded as nat) + " succeeded, "@
            + crate::text::dec_digits(summary.failed as nat) + " failed"@,
{
    let mut line = "migrations: ".to_owned();
    let matched = crate::text::u64_to_decimal(summary.matched as u64);
    line.append(matched.as_str());
    line.append(" matched, ");
    let succeeded = crate::text::u64_to_decimal(summary.succeeded as u64);
    line.append(succeeded.as_str());
    line.append(" succeeded, ");
    let failed = crate::text::u64_to_decimal(summary.failed as u64);
    line.append(failed.as_str());
    line.append(" failed");
    line
}

} // verus!
