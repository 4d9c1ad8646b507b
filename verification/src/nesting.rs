//! Scenarios that run other scenarios.
//!
//! A scenario that asks for another one to be run hears only what that one hands on. A trace tells
//! what the other one heard, too.
use crate::reply::Reply;
use crate::request::{RequestView, ScenarioView};
use crate::run::{accepts, is_outcome, passes, request};
use vstd::prelude::*;

verus! {

/// All replies of a run, with those of the runs that it asked for.
#[verifier::ext_equal]
pub struct Trace {
    /// the replies
    pub replies: Seq<Reply>,
    /// the runs that were asked for, by the places of what they handed on
    pub runs: Map<int, Trace>,
}

impl Trace {
    /// The trace once a reply has come that no other run handed on.
    pub open spec fn hears(self, reply: Reply) -> Trace {
        Trace { replies: self.replies.push(reply), runs: self.runs }
    }

    /// The trace once another run has handed a reply on.
    pub open spec fn hears_from(self, run: Trace, reply: Reply) -> Trace {
        Trace {
            replies: self.replies.push(reply),
            runs: self.runs.insert(self.replies.len() as int, run),
        }
    }
}

/// How deep scenarios are nested in a scenario: the suite runs scenarios of which some run others.
pub open spec fn depth(s: ScenarioView) -> nat {
    match s {
        ScenarioView::Catalog { .. } => 2,
        ScenarioView::NamespaceSoftDeletion => 1,
        ScenarioView::Table => 1,
        ScenarioView::TableStorage => 1,
        ScenarioView::Column => 1,
        ScenarioView::Partition => 1,
        ScenarioView::ParquetFile { .. } => 1,
        ScenarioView::ListSchemas => 1,
        ScenarioView::ListSchemasSoftDeletedRows => 1,
        ScenarioView::ColumnCreateOrGetManyUnchecked => 1,
        _ => 0,
    }
}

/// Each reply to a request to run another scenario is what a run of that one handed on that passed
/// and was genuine itself, or says that it failed.
#[verifier::opaque]
pub open spec fn genuine(s: ScenarioView, trace: Trace) -> bool
    decreases depth(s),
{
    forall|k: int|
        0 <= k < trace.replies.len() ==> (request(
            s,
            trace.replies.take(k),
        ) matches RequestView::Run(other) ==> (#[trigger] trace.replies[k]) is Failed || {
            &&& depth(other) < depth(s)
            &&& trace.runs.contains_key(k)
            &&& passes(other, trace.runs[k].replies)
            &&& genuine(other, trace.runs[k])
            &&& is_outcome(other, trace.runs[k].replies, trace.replies[k])
        })
}

/// The run has passed, as have those that it asked for, and hands `reply` on.
pub open spec fn hands_on(s: ScenarioView, trace: Trace, reply: Reply) -> bool {
    &&& passes(s, trace.replies)
    &&& genuine(s, trace)
    &&& is_outcome(s, trace.replies, reply)
}

/// Reply `k` was handed on by a run of the scenario that passed.
pub open spec fn was_run(trace: Trace, k: int, other: ScenarioView) -> bool {
    &&& trace.runs.contains_key(k)
    &&& hands_on(other, trace.runs[k], trace.replies[k])
}

/// Reply `k` is what the run handed on that was asked for.
pub open spec fn came_from_its_run(s: ScenarioView, trace: Trace, k: int) -> bool {
    was_run(trace, k, request(s, trace.replies.take(k))->Run_0)
}

/// A scenario runs only scenarios in which fewer are nested, so nesting comes to an end.
pub proof fn law_nesting_ends(s: ScenarioView, h: Seq<Reply>)
    ensures
        request(s, h) matches RequestView::Run(other) ==> depth(other) < depth(s),
{
}

/// A run that has heard nothing yet is genuine. It stays so when it hears a reply to a request for
/// anything else than to run a scenario, or that a scenario failed, or what a genuine run of the
/// scenario that it asked for hands on.
pub proof fn law_runs_stay_genuine(s: ScenarioView, trace: Trace, run: Trace, reply: Reply)
    requires
        genuine(s, trace),
    ensures
        genuine(s, Trace { replies: Seq::empty(), runs: Map::empty() }),
        !(request(s, trace.replies) is Run) || reply is Failed ==> genuine(s, trace.hears(reply)),
        request(s, trace.replies) matches RequestView::Run(other) && hands_on(other, run, reply)
            ==> genuine(s, trace.hears_from(run, reply)),
{
    reveal(genuine);
    let h = trace.replies;
    assert(h.push(reply).drop_last() =~= h);
    if !(request(s, h) is Run) || reply is Failed {
        lemma_genuine_so_far(s, trace, trace.hears(reply));
    }
    if request(s, h) is Run && hands_on(request(s, h)->Run_0, run, reply) {
        lemma_genuine_so_far(s, trace, trace.hears_from(run, reply));
    }
}

proof fn lemma_genuine_so_far(s: ScenarioView, trace: Trace, now: Trace)
    requires
        genuine(s, trace),
        now.replies.len() == trace.replies.len() + 1,
        now.replies.drop_last() == trace.replies,
        forall|k: int|
            0 <= k < trace.replies.len() ==> now.runs.contains_key(k) == trace.runs.contains_key(k)
                && now.runs[k] == #[trigger] trace.runs[k],
        request(s, trace.replies) matches RequestView::Run(other) ==> now.replies.last() is Failed
            || (now.runs.contains_key(trace.replies.len() as int) && hands_on(
            other,
            now.runs[trace.replies.len() as int],
            now.replies.last(),
        )),
    ensures
        genuine(s, now),
{
    reveal(genuine);
    law_nesting_ends(s, trace.replies);
    assert forall|k: int| 0 <= k < now.replies.len() implies (request(
        s,
        now.replies.take(k),
    ) matches RequestView::Run(other) ==> (#[trigger] now.replies[k]) is Failed || {
        &&& depth(other) < depth(s)
        &&& now.runs.contains_key(k)
        &&& passes(other, now.runs[k].replies)
        &&& genuine(other, now.runs[k])
        &&& is_outcome(other, now.runs[k].replies, now.replies[k])
    }) by {
        if k < trace.replies.len() {
            assert(now.replies.take(k) =~= trace.replies.take(k));
            assert(now.replies[k] == trace.replies[k]);
            assert(now.runs[k] == trace.runs[k]);
        } else {
            assert(now.replies.take(k) =~= trace.replies);
        }
    }
}

proof fn lemma_failure_is_not_accepted(s: ScenarioView, h: Seq<Reply>)
    requires
        h.len() > 0,
        request(s, h.drop_last()) is Run,
        accepts(s, h),
    ensures
        !(h.last() is Failed),
{
}

/// A scenario passes only where each scenario that it runs does: what it heard of another scenario
/// was handed on by a run of that one that passed.
pub proof fn law_a_scenario_passes_only_where_those_it_runs_do(
    s: ScenarioView,
    trace: Trace,
    k: int,
)
    requires
        passes(s, trace.replies),
        genuine(s, trace),
        0 <= k < trace.replies.len(),
        request(s, trace.replies.take(k)) is Run,
    ensures
        came_from_its_run(s, trace, k),
{
    reveal(genuine);
    let t = trace.replies.take(k + 1);
    assert(accepts(s, t));
    assert(t.drop_last() =~= trace.replies.take(k));
    assert(t.last() == trace.replies[k]);
    lemma_failure_is_not_accepted(s, t);
}

} // verus!
