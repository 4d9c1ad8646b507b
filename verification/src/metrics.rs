//! Assertions on what a catalog has recorded of its own operations.
use crate::same::views;
use crate::text::text_eq;
use vstd::prelude::*;

verus! {

/// What was recorded under one set of attributes.
#[derive(Debug, Clone, Copy, PartialEq, Eq, Structural)]
pub enum Recorded {
    /// how long operations took, and how many there were
    DurationHistogram(u64),
    /// anything else
    Other,
}

impl Recorded {
    /// What was recorded later is of the same kind and holds at least as many operations.
    pub open spec fn grows_to(self, later: Recorded) -> bool {
        match (self, later) {
            (Recorded::DurationHistogram(a), Recorded::DurationHistogram(b)) => a <= b,
            (Recorded::Other, Recorded::Other) => true,
            _ => false,
        }
    }
}

/// A name and a value that describe an observation.
#[derive(Debug, Clone)]
pub struct Attribute {
    pub name: String,
    pub value: String,
}

/// The model of an [`Attribute`].
#[verifier::ext_equal]
pub struct AttributeView {
    pub name: Seq<char>,
    pub value: Seq<char>,
}

impl View for Attribute {
    type V = AttributeView;

    open spec fn view(&self) -> AttributeView {
        AttributeView { name: self.name@, value: self.value@ }
    }
}

/// What a metric tells of the operations with the same attributes.
#[derive(Debug, Clone)]
pub struct Observation {
    pub attributes: Vec<Attribute>,
    pub recorded: Recorded,
}

/// The model of an [`Observation`].
#[verifier::ext_equal]
pub struct ObservationView {
    pub attributes: Seq<AttributeView>,
    pub recorded: Recorded,
}

impl View for Observation {
    type V = ObservationView;

    open spec fn view(&self) -> ObservationView {
        ObservationView { attributes: views(self.attributes@), recorded: self.recorded }
    }
}

/// A metric of a catalog, and what it tells.
#[derive(Debug, Clone)]
pub struct Metric {
    pub name: String,
    pub observations: Vec<Observation>,
}

/// The model of a [`Metric`].
#[verifier::ext_equal]
pub struct MetricView {
    pub name: Seq<char>,
    pub observations: Seq<ObservationView>,
}

impl View for Metric {
    type V = MetricView;

    open spec fn view(&self) -> MetricView {
        MetricView { name: self.name@, observations: views(self.observations@) }
    }
}

impl ObservationView {
    /// The observation has an attribute of this name and value.
    pub open spec fn has(self, name: Seq<char>, value: Seq<char>) -> bool {
        self.attributes.contains(AttributeView { name, value })
    }

    /// The observation is of the successful calls of `operation`.
    pub open spec fn is_success_of(self, operation: Seq<char>) -> bool {
        self.has("op"@, operation) && self.has("result"@, "success"@)
    }
}

/// Why no call of an operation can be asserted.
#[derive(Debug, Clone, Copy, PartialEq, Eq, Structural)]
pub enum MetricFailure {
    /// the catalog has no metric of its operations
    NoMetric,
    /// an observation of the operation does not tell how many calls there were
    InvalidMetricType,
    /// there were more calls than can be counted
    TooManyCalls,
    /// there was no call
    NoCalls,
}

/// How many successful calls of `operation` the observations tell of, taken one after the other.
pub open spec fn calls(observations: Seq<ObservationView>, operation: Seq<char>) -> Result<
    nat,
    MetricFailure,
>
    decreases observations.len(),
{
    if observations.len() == 0 {
        Ok(0)
    } else {
        let last = observations.last();
        match calls(observations.drop_last(), operation) {
            Err(e) => Err(e),
            Ok(n) => if !last.is_success_of(operation) {
                Ok(n)
            } else {
                match last.recorded {
                    Recorded::Other => Err(MetricFailure::InvalidMetricType),
                    Recorded::DurationHistogram(c) => if n + c > u64::MAX {
                        Err(MetricFailure::TooManyCalls)
                    } else {
                        Ok((n + c) as nat)
                    },
                }
            },
        }
    }
}

/// What the metric of this name tells, where there is one. Of several the first counts.
pub open spec fn told_by(metrics: Seq<MetricView>, name: Seq<char>) -> Option<Seq<ObservationView>>
    decreases metrics.len(),
{
    if metrics.len() == 0 {
        None
    } else if metrics[0].name == name {
        Some(metrics[0].observations)
    } else {
        told_by(metrics.drop_first(), name)
    }
}

/// What the catalog's metric of its operations tells, where there is one.
pub open spec fn told(metrics: Seq<MetricView>) -> Option<Seq<ObservationView>> {
    told_by(metrics, "catalog_op_duration"@)
}

/// What [`assert_metric_hit`] tells.
pub open spec fn metric_hit(metrics: Seq<MetricView>, operation: Seq<char>) -> Result<
    nat,
    MetricFailure,
> {
    match told(metrics) {
        None => Err(MetricFailure::NoMetric),
        Some(observations) => match calls(observations, operation) {
            Ok(n) => if n > 0 {
                Ok(n)
            } else {
                Err(MetricFailure::NoCalls)
            },
            Err(e) => Err(e),
        },
    }
}

/// Whether the observation has an attribute of this name and value.
fn has_attribute(observation: &Observation, name: &str, value: &str) -> (found: bool)
    ensures
        found == observation@.has(name@, value@),
{
    let ghost wanted: AttributeView = AttributeView { name: name@, value: value@ };
    let ghost all: Seq<AttributeView> = observation@.attributes;
    let attributes: &Vec<Attribute> = &observation.attributes;
    let mut i: usize = 0;
    while i < attributes.len()
        invariant
            i <= attributes.len(),
            all == views(attributes@),
            wanted == (AttributeView { name: name@, value: value@ }),
            observation@.has(name@, value@) == all.contains(wanted),
            forall|j: int| 0 <= j < i ==> all[j] != wanted,
        decreases attributes.len() - i,
    {
        proof {
            assert(all[i as int] == attributes@[i as int]@);
        }
        let attribute: &Attribute = &attributes[i];
        if text_eq(attribute.name.as_str(), name) && text_eq(attribute.value.as_str(), value) {
            proof {
                assert(all[i as int] == wanted);
                assert(all.contains(wanted));
            }
            return true;
        }
        i += 1;
    }
    false
}

/// The place of the metric of the catalog's operations.
fn find_metric(metrics: &Vec<Metric>) -> (found: Option<usize>)
    ensures
        match found {
            Some(i) => i < metrics.len() && told(views(metrics@)) == Some(
                views(metrics@[i as int].observations@),
            ),
            None => told(views(metrics@)) is None,
        },
{
    let ghost all: Seq<MetricView> = views(metrics@);
    let mut i: usize = 0;
    proof {
        assert(all.skip(0) =~= all);
    }
    while i < metrics.len()
        invariant
            i <= metrics.len(),
            all == views(metrics@),
            told(all) == told(all.skip(i as int)),
        decreases metrics.len() - i,
    {
        proof {
            assert(all[i as int] == metrics@[i as int]@);
            assert(all.skip(i as int)[0] == all[i as int]);
            assert(all.skip(i as int).drop_first() =~= all.skip(i + 1));
        }
        if text_eq(metrics[i].name.as_str(), "catalog_op_duration") {
            return Some(i);
        }
        i += 1;
    }
    None
}

/// Counts the successful calls of `name`.
fn count_calls(observations: &Vec<Observation>, name: &str) -> (counted: Result<
    u64,
    MetricFailure,
>)
    ensures
        match calls(views(observations@), name@) {
            Ok(n) => counted is Ok && counted->Ok_0 == n,
            Err(e) => counted == Err::<u64, MetricFailure>(e),
        },
{
    let mut hits: u64 = 0;
    let mut i: usize = 0;
    let ghost all: Seq<ObservationView> = views(observations@);
    while i < observations.len()
        invariant
            i <= observations.len(),
            all == views(observations@),
            calls(all.take(i as int), name@) == Ok::<nat, MetricFailure>(hits as nat),
        decreases observations.len() - i,
    {
        let observation: &Observation = &observations[i];
        proof {
            assert(all[i as int] == observation@);
            assert(all.take(i + 1).drop_last() =~= all.take(i as int));
            assert(all.take(i + 1).last() == observation@);
        }
        if has_attribute(observation, "op", name)
            && has_attribute(observation, "result", "success") {
            match observation.recorded {
                Recorded::Other => {
                    proof {
                        lemma_failure_stays(all, name@, i + 1);
                    }
                    return Err(MetricFailure::InvalidMetricType);
                },
                Recorded::DurationHistogram(c) => {
                    if c > u64::MAX - hits {
                        proof {
                            lemma_failure_stays(all, name@, i + 1);
                        }
                        return Err(MetricFailure::TooManyCalls);
                    }
                    hits = hits + c;
                },
            }
        }
        i += 1;
    }
    proof {
        assert(all.take(observations@.len() as int) =~= all);
    }
    Ok(hits)
}

/// Asserts that the catalog's metric of its operations tells of at least one successful call of
/// `name`, and hands out how many there were.
pub fn assert_metric_hit(metrics: &Vec<Metric>, name: &str) -> (verdict: Result<u64, MetricFailure>)
    ensures
        match metric_hit(views(metrics@), name@) {
            Ok(n) => verdict is Ok && verdict->Ok_0 == n,
            Err(e) => verdict == Err::<u64, MetricFailure>(e),
        },
{
    match find_metric(metrics) {
        None => Err(MetricFailure::NoMetric),
        Some(i) => match count_calls(&metrics[i].observations, name) {
            Ok(0) => Err(MetricFailure::NoCalls),
            counted => counted,
        },
    }
}

proof fn lemma_failure_stays(all: Seq<ObservationView>, operation: Seq<char>, n: int)
    requires
        0 <= n <= all.len(),
        calls(all.take(n), operation) is Err,
    ensures
        calls(all, operation) == calls(all.take(n), operation),
    decreases all.len() - n,
{
    if n == all.len() {
        assert(all.take(n) =~= all);
    } else {
        assert(all.take(n + 1).drop_last() =~= all.take(n));
        lemma_failure_stays(all, operation, n + 1);
    }
}

/// The number of successful calls that the duration histograms among the observations hold.
pub open spec fn total_calls(observations: Seq<ObservationView>, operation: Seq<char>) -> nat
    decreases observations.len(),
{
    if observations.len() == 0 {
        0
    } else {
        let before = total_calls(observations.drop_last(), operation);
        match observations.last().recorded {
            Recorded::DurationHistogram(c) => if observations.last().is_success_of(operation) {
                before + c as nat
            } else {
                before
            },
            Recorded::Other => before,
        }
    }
}

/// A catalog without a metric of its operations shows no call. Where it has one, every observation
/// of the operation is a duration histogram and the calls can be counted, a hit is asserted exactly
/// when one of the histograms holds a call, and all calls are counted.
pub proof fn law_hits_are_counted(metrics: Seq<MetricView>, operation: Seq<char>)
    requires
        told(metrics) matches Some(observations) ==> {
            &&& forall|i: int|
                0 <= i < observations.len() && (#[trigger] observations[i]).is_success_of(operation)
                    ==> observations[i].recorded is DurationHistogram
            &&& total_calls(observations, operation) <= u64::MAX
        },
    ensures
        metric_hit(metrics, operation) == match told(metrics) {
            None => Err::<nat, MetricFailure>(MetricFailure::NoMetric),
            Some(observations) => if total_calls(observations, operation) > 0 {
                Ok(total_calls(observations, operation))
            } else {
                Err(MetricFailure::NoCalls)
            },
        },
{
    if told(metrics) is Some {
        lemma_calls_are_total(told(metrics)->0, operation);
    }
}

/// The places `at` of a list of this length are in its order, each named once.
pub open spec fn are_places(at: Seq<int>, length: nat) -> bool {
    &&& forall|i: int| 0 <= i < at.len() ==> 0 <= #[trigger] at[i] < length
    &&& forall|i: int, j: int| 0 <= i < j < at.len() ==> #[trigger] at[i] < #[trigger] at[j]
}

/// What a metric tells at a later time: what it told before is there, now at the places `at` and in
/// the same order, with the same attributes and at least as many calls. At other places there may
/// be further duration histograms.
pub open spec fn grows(
    before: Seq<ObservationView>,
    after: Seq<ObservationView>,
    at: Seq<int>,
) -> bool {
    &&& at.len() == before.len()
    &&& are_places(at, after.len())
    &&& forall|i: int|
        0 <= i < before.len() ==> after[#[trigger] at[i]].attributes == before[i].attributes
            && before[i].recorded.grows_to(after[at[i]].recorded)
    &&& forall|j: int|
        0 <= j < after.len() && !at.contains(j) ==> (
        #[trigger] after[j]).recorded is DurationHistogram
}

/// Since an earlier time no call of the operation was recorded: what is told of its successful
/// calls, now at the places `at`, is the same.
pub open spec fn keeps(
    before: Seq<ObservationView>,
    after: Seq<ObservationView>,
    at: Seq<int>,
    operation: Seq<char>,
) -> bool {
    &&& forall|i: int|
        0 <= i < before.len() && before[i].is_success_of(operation) ==> after[
        #[trigger] at[i]].recorded == before[i].recorded
    &&& forall|j: int|
        0 <= j < after.len() && !at.contains(j) ==> !(#[trigger] after[j]).is_success_of(operation)
}

proof fn lemma_last_place(
    before: Seq<ObservationView>,
    after: Seq<ObservationView>,
    at: Seq<int>,
    operation: Seq<char>,
)
    requires
        grows(before, after, at),
        after.len() > 0,
    ensures
        at.contains(after.len() - 1) ==> {
            &&& at.len() > 0
            &&& at.last() == after.len() - 1
            &&& grows(before.drop_last(), after.drop_last(), at.drop_last())
            &&& keeps(before, after, at, operation) ==> keeps(
                before.drop_last(),
                after.drop_last(),
                at.drop_last(),
                operation,
            )
            &&& after.last().attributes == before.last().attributes
            &&& before.last().recorded.grows_to(after.last().recorded)
        },
        !at.contains(after.len() - 1) ==> {
            &&& grows(before, after.drop_last(), at)
            &&& keeps(before, after, at, operation) ==> keeps(
                before,
                after.drop_last(),
                at,
                operation,
            )
            &&& after.last().recorded is DurationHistogram
        },
{
    let rest = after.drop_last();
    let end = after.len() - 1;
    assert(after.last() == after[end]);
    if at.contains(end) {
        let i = choose|i: int| 0 <= i < at.len() && at[i] == end;
        assert(i == at.len() - 1) by {
            if i < at.len() - 1 {
                assert(at[i] < at[at.len() - 1]);
            }
        }
        let places = at.drop_last();
        assert forall|k: int| 0 <= k < places.len() implies 0 <= #[trigger] places[k]
            < rest.len() by {
            assert(places[k] == at[k]);
            assert(at[k] < at[i]);
        }
        assert forall|k: int, l: int| 0 <= k < l < places.len() implies #[trigger] places[k]
            < #[trigger] places[l] by {
            assert(places[k] == at[k] && places[l] == at[l]);
        }
        assert forall|j: int| 0 <= j < rest.len() && !places.contains(j) implies !at.contains(
            j,
        ) by {
            if at.contains(j) {
                let k = choose|k: int| 0 <= k < at.len() && at[k] == j;
                assert(places[k] == j);
            }
        }
        assert forall|k: int| 0 <= k < places.len() implies rest[#[trigger] places[k]]
            == after[at[k]] by {}
        assert forall|j: int| 0 <= j < rest.len() && !places.contains(j) implies (
        #[trigger] rest[j]).recorded is DurationHistogram by {
            assert(rest[j] == after[j]);
        }
        assert(grows(before.drop_last(), rest, places));
        if keeps(before, after, at, operation) {
            assert forall|j: int| 0 <= j < rest.len() && !places.contains(j) implies !(
            #[trigger] rest[j]).is_success_of(operation) by {
                assert(rest[j] == after[j]);
            }
            assert(keeps(before.drop_last(), rest, places, operation));
        }
        assert(at[i] == end);
    } else {
        assert forall|k: int| 0 <= k < at.len() implies 0 <= #[trigger] at[k] < rest.len()
            && rest[at[k]] == after[at[k]] by {
            assert(at.contains(at[k]));
        }
        assert forall|j: int| 0 <= j < rest.len() && !at.contains(j) implies (
        #[trigger] rest[j]).recorded is DurationHistogram by {
            assert(rest[j] == after[j]);
        }
        if keeps(before, after, at, operation) {
            assert forall|j: int| 0 <= j < rest.len() && !at.contains(j) implies !(
            #[trigger] rest[j]).is_success_of(operation) by {
                assert(rest[j] == after[j]);
            }
        }
    }
}

proof fn lemma_calls_only_grow(
    before: Seq<ObservationView>,
    after: Seq<ObservationView>,
    at: Seq<int>,
    operation: Seq<char>,
)
    requires
        grows(before, after, at),
        calls(before, operation) is Ok,
        total_calls(after, operation) <= u64::MAX,
    ensures
        calls(after, operation) is Ok,
        calls(after, operation)->Ok_0 == total_calls(after, operation),
        calls(before, operation)->Ok_0 <= calls(after, operation)->Ok_0,
    decreases after.len(),
{
    if after.len() > 0 {
        let rest = after.drop_last();
        lemma_last_place(before, after, at, operation);
        if at.contains(after.len() - 1) {
            lemma_calls_only_grow(before.drop_last(), rest, at.drop_last(), operation);
            assert(after.last().is_success_of(operation) == before.last().is_success_of(operation));
        } else {
            lemma_calls_only_grow(before, rest, at, operation);
        }
    } else if before.len() > 0 {
        assert(0 <= at[0] < after.len());
    }
}

/// Samples are never taken away: where a hit was asserted, it still is after further samples of any
/// operation, as long as the calls can be counted.
pub proof fn law_a_hit_stays_a_hit(
    before: Seq<MetricView>,
    after: Seq<MetricView>,
    at: Seq<int>,
    operation: Seq<char>,
)
    requires
        metric_hit(before, operation) is Ok,
        told(after) is Some,
        grows(told(before)->0, told(after)->0, at),
        total_calls(told(after)->0, operation) <= u64::MAX,
    ensures
        metric_hit(after, operation) is Ok,
        metric_hit(before, operation)->Ok_0 <= metric_hit(after, operation)->Ok_0,
{
    lemma_calls_only_grow(told(before)->0, told(after)->0, at, operation);
}

/// Samples of other operations, or of calls that did not succeed, change nothing: a hit stays the
/// same hit, and where none was asserted none is, for the same reason.
pub proof fn law_other_samples_do_not_matter(
    before: Seq<MetricView>,
    after: Seq<MetricView>,
    at: Seq<int>,
    operation: Seq<char>,
)
    requires
        told(before) is Some,
        told(after) is Some,
        grows(told(before)->0, told(after)->0, at),
        keeps(told(before)->0, told(after)->0, at, operation),
    ensures
        metric_hit(after, operation) == metric_hit(before, operation),
{
    lemma_calls_stay(told(before)->0, told(after)->0, at, operation);
}

/// A metric that comes into being by samples of other operations, or of calls that did not succeed,
/// makes no hit.
pub proof fn law_first_samples_of_others_are_no_hit(
    before: Seq<MetricView>,
    after: Seq<MetricView>,
    operation: Seq<char>,
)
    requires
        told(before) is None,
        told(after) matches Some(observations) ==> keeps(
            Seq::empty(),
            observations,
            Seq::empty(),
            operation,
        ),
    ensures
        metric_hit(before, operation) is Err,
        metric_hit(after, operation) is Err,
{
    if told(after) is Some {
        let observations = told(after)->0;
        assert forall|j: int| 0 <= j < observations.len() implies !(
        #[trigger] observations[j]).is_success_of(operation) by {
            assert(!Seq::<int>::empty().contains(j));
        }
        lemma_no_calls(observations, operation);
    }
}

proof fn lemma_no_calls(observations: Seq<ObservationView>, operation: Seq<char>)
    requires
        forall|j: int|
            0 <= j < observations.len() ==> !(#[trigger] observations[j]).is_success_of(operation),
    ensures
        calls(observations, operation) == Ok::<nat, MetricFailure>(0),
    decreases observations.len(),
{
    if observations.len() > 0 {
        let rest = observations.drop_last();
        assert forall|j: int| 0 <= j < rest.len() implies !(#[trigger] rest[j]).is_success_of(
            operation,
        ) by {
            assert(rest[j] == observations[j]);
        }
        assert(!observations[observations.len() - 1].is_success_of(operation));
        lemma_no_calls(rest, operation);
    }
}

proof fn lemma_calls_stay(
    before: Seq<ObservationView>,
    after: Seq<ObservationView>,
    at: Seq<int>,
    operation: Seq<char>,
)
    requires
        grows(before, after, at),
        keeps(before, after, at, operation),
    ensures
        calls(after, operation) == calls(before, operation),
    decreases after.len(),
{
    if after.len() > 0 {
        let rest = after.drop_last();
        let end = after.len() - 1;
        lemma_last_place(before, after, at, operation);
        if at.contains(end) {
            lemma_calls_stay(before.drop_last(), rest, at.drop_last(), operation);
            assert(after.last().is_success_of(operation) == before.last().is_success_of(operation));
            assert(after[at[at.len() - 1]] == after.last());
        } else {
            lemma_calls_stay(before, rest, at, operation);
            assert(!after[end].is_success_of(operation));
        }
    } else if before.len() > 0 {
        assert(0 <= at[0] < after.len());
    }
}

proof fn lemma_calls_are_total(observations: Seq<ObservationView>, operation: Seq<char>)
    requires
        forall|i: int|
            0 <= i < observations.len() && (#[trigger] observations[i]).is_success_of(operation)
                ==> observations[i].recorded is DurationHistogram,
        total_calls(observations, operation) <= u64::MAX,
    ensures
        calls(observations, operation) == Ok::<nat, MetricFailure>(
            total_calls(observations, operation),
        ),
    decreases observations.len(),
{
    if observations.len() > 0 {
        let before = observations.drop_last();
        assert forall|i: int|
            0 <= i < before.len() && (#[trigger] before[i]).is_success_of(
                operation,
            ) implies before[i].recorded is DurationHistogram by {
            assert(before[i] == observations[i]);
        }
        assert(observations.last() == observations[observations.len() - 1]);
        lemma_calls_are_total(before, operation);
    }
}

/// The metric that counts is the first that has the name of the metric of operations.
pub proof fn law_the_metric_of_operations_is_found_by_name(metrics: Seq<MetricView>)
    ensures
        told(metrics) is None <==> forall|i: int|
            0 <= i < metrics.len() ==> (#[trigger] metrics[i]).name != "catalog_op_duration"@,
        forall|i: int|
            0 <= i < metrics.len() && (#[trigger] metrics[i]).name == "catalog_op_duration"@ && (
            forall|j: int|
                0 <= j < i ==> (#[trigger] metrics[j]).name != "catalog_op_duration"@) ==> told(
                metrics,
            ) == Some(metrics[i].observations),
    decreases metrics.len(),
{
    let name = "catalog_op_duration"@;
    if metrics.len() > 0 && metrics[0].name != name {
        let rest = metrics.drop_first();
        law_the_metric_of_operations_is_found_by_name(rest);
        assert(told(metrics) == told(rest));
        assert forall|i: int| 0 < i < metrics.len() implies #[trigger] metrics[i] == rest[
        i - 1] by {}
        if told(metrics) is None {
            assert forall|i: int| 0 <= i < metrics.len() implies (#[trigger] metrics[i]).name
                != name by {
                if i > 0 {
                    assert(rest[i - 1].name != name);
                }
            }
        } else {
            let i = choose|i: int| 0 <= i < rest.len() && (#[trigger] rest[i]).name == name;
            assert(metrics[i + 1].name == name);
        }
        assert forall|i: int|
            0 <= i < metrics.len() && (#[trigger] metrics[i]).name == name && (forall|j: int|
                0 <= j < i ==> (#[trigger] metrics[j]).name != name) implies told(metrics) == Some(
            metrics[i].observations,
        ) by {
            assert(rest[i - 1] == metrics[i]);
            assert forall|j: int| 0 <= j < i - 1 implies (#[trigger] rest[j]).name != name by {
                assert(metrics[j + 1].name != name);
            }
        }
    }
}

/// An observation is of the successful calls of an operation exactly where one of its attributes
/// names
/// the operation and one tells that it succeeded.
pub proof fn law_successes_are_told_by_attributes(o: ObservationView, operation: Seq<char>)
    ensures
        o.is_success_of(operation) <==> {
            &&& exists|i: int|
                0 <= i < o.attributes.len() && (#[trigger] o.attributes[i]).name == "op"@
                    && o.attributes[i].value == operation
            &&& exists|i: int|
                0 <= i < o.attributes.len() && (#[trigger] o.attributes[i]).name == "result"@
                    && o.attributes[i].value == "success"@
        },
{
    assert forall|name: Seq<char>, value: Seq<char>| #[trigger] o.has(
        name,
        value,
    ) <==> exists|i: int|
        0 <= i < o.attributes.len() && (#[trigger] o.attributes[i]).name == name
            && o.attributes[i].value == value by {
        if exists|i: int|
            0 <= i < o.attributes.len() && (#[trigger] o.attributes[i]).name == name
                && o.attributes[i].value == value {
            let i = choose|i: int|
                0 <= i < o.attributes.len() && (#[trigger] o.attributes[i]).name == name
                    && o.attributes[i].value == value;
            assert(o.attributes[i] == AttributeView { name, value });
        }
    }
    assert(o.has("op"@, operation) == o.attributes.contains(
        AttributeView { name: "op"@, value: operation },
    ));
}

/// The calls of two lists of observations add up, and a single observation tells of the calls that
/// its
/// histogram holds, where it is of successful calls of the operation.
pub proof fn law_calls_add_up(
    a: Seq<ObservationView>,
    b: Seq<ObservationView>,
    o: ObservationView,
    operation: Seq<char>,
)
    ensures
        total_calls(a + b, operation) == total_calls(a, operation) + total_calls(b, operation),
        total_calls(seq![o], operation) == match o.recorded {
            Recorded::DurationHistogram(c) => if o.is_success_of(operation) {
                c as int
            } else {
                0
            },
            Recorded::Other => 0,
        },
    decreases b.len(),
{
    assert(seq![o].drop_last() =~= Seq::<ObservationView>::empty());
    reveal_with_fuel(total_calls, 2);
    if b.len() == 0 {
        assert(a + b =~= a);
    } else {
        assert((a + b).drop_last() =~= a + b.drop_last());
        assert((a + b).last() == b.last());
        law_calls_add_up(a, b.drop_last(), o, operation);
    }
}

/// An observation of successful calls that is no histogram is refused, wherever it stands, unless
/// the
/// calls before it cannot be counted.
pub proof fn law_other_observations_are_refused(
    observations: Seq<ObservationView>,
    operation: Seq<char>,
    i: int,
)
    requires
        0 <= i < observations.len(),
        observations[i].is_success_of(operation),
        observations[i].recorded is Other,
    ensures
        calls(observations, operation) is Err,
        total_calls(observations, operation) <= u64::MAX ==> calls(
            observations,
            operation,
        ) == Err::<
            nat,
            MetricFailure,
        >(MetricFailure::InvalidMetricType),
    decreases observations.len(),
{
    let rest = observations.drop_last();
    if i < rest.len() {
        assert(rest[i] == observations[i]);
        law_other_observations_are_refused(rest, operation, i);
    } else if total_calls(observations, operation) <= u64::MAX {
        lemma_countable(rest, operation);
    }
}

proof fn lemma_countable(observations: Seq<ObservationView>, operation: Seq<char>)
    requires
        total_calls(observations, operation) <= u64::MAX,
    ensures
        calls(observations, operation) is Ok ==> calls(observations, operation)->Ok_0
            == total_calls(observations, operation),
        calls(observations, operation) is Err ==> calls(observations, operation)->Err_0
            == MetricFailure::InvalidMetricType,
    decreases observations.len(),
{
    if observations.len() > 0 {
        lemma_countable(observations.drop_last(), operation);
    }
}

/// Where every observation of the operation is a duration histogram but there are more calls than
/// can
/// be counted, no hit is asserted, for that reason.
pub proof fn law_too_many_calls_are_refused(metrics: Seq<MetricView>, operation: Seq<char>)
    requires
        told(metrics) is Some,
        ({
            let observations = told(metrics)->0;
            &&& forall|i: int|
                0 <= i < observations.len() && (#[trigger] observations[i]).is_success_of(operation)
                    ==> observations[i].recorded is DurationHistogram
            &&& total_calls(observations, operation) > u64::MAX
        }),
    ensures
        metric_hit(metrics, operation) == Err::<nat, MetricFailure>(MetricFailure::TooManyCalls),
{
    lemma_too_many(told(metrics)->0, operation);
}

proof fn lemma_too_many(observations: Seq<ObservationView>, operation: Seq<char>)
    requires
        forall|i: int|
            0 <= i < observations.len() && (#[trigger] observations[i]).is_success_of(operation)
                ==> observations[i].recorded is DurationHistogram,
        total_calls(observations, operation) > u64::MAX,
    ensures
        calls(observations, operation) == Err::<nat, MetricFailure>(MetricFailure::TooManyCalls),
    decreases observations.len(),
{
    let rest = observations.drop_last();
    assert forall|i: int|
        0 <= i < rest.len() && (#[trigger] rest[i]).is_success_of(
            operation,
        ) implies rest[i].recorded is DurationHistogram by {
        assert(rest[i] == observations[i]);
    }
    assert(observations.last() == observations[observations.len() - 1]);
    if total_calls(rest, operation) > u64::MAX {
        lemma_too_many(rest, operation);
    } else {
        lemma_calls_are_total(rest, operation);
    }
}

/// A metric with an observation of successful calls that is no histogram makes no hit, and where
/// the
/// calls of the others can be counted that is the reason.
pub proof fn law_metrics_of_another_kind_are_no_hit(
    metrics: Seq<MetricView>,
    operation: Seq<char>,
    i: int,
)
    requires
        told(metrics) is Some,
        0 <= i < told(metrics)->0.len(),
        told(metrics)->0[i].is_success_of(operation),
        told(metrics)->0[i].recorded is Other,
    ensures
        metric_hit(metrics, operation) is Err,
        total_calls(told(metrics)->0, operation) <= u64::MAX ==> metric_hit(metrics, operation)
            == Err::<nat, MetricFailure>(MetricFailure::InvalidMetricType),
{
    law_other_observations_are_refused(told(metrics)->0, operation, i);
}

} // verus!
