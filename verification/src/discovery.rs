//! The run of the registered collectors over one scope, and the merge of
//! what they found.

use crate::collector_core::{DiscoveryError, Entry};
use crate::record::Asset;
use crate::text::texts;
use vstd::prelude::*;

verus! {

/// A collector that failed, with its error.
#[derive(Debug)]
pub struct Failure {
    pub collector: String,
    pub error: DiscoveryError,
}

/// What a run found: the records of the collectors that succeeded, and the
/// collectors that failed.
#[derive(Debug)]
pub struct RunReport {
    pub assets: Vec<Asset>,
    pub failures: Vec<Failure>,
}

/// How the discovery of one collector ended.
#[derive(Debug)]
pub struct Outcome {
    pub collector: String,
    pub result: Result<Vec<Asset>, DiscoveryError>,
}

/// The results of a list of outcomes.
pub open spec fn results(outcomes: Seq<Outcome>) -> Seq<Result<Vec<Asset>, DiscoveryError>> {
    outcomes.map_values(|o: Outcome| o.result)
}

/// The names of the collectors of a list of outcomes.
pub open spec fn collectors(outcomes: Seq<Outcome>) -> Seq<Seq<char>> {
    outcomes.map_values(|o: Outcome| o.collector@)
}

/// The records that one collector adds to the aggregate: those it returned,
/// or none where it failed.
pub open spec fn contribution(outcome: Result<Vec<Asset>, DiscoveryError>) -> Seq<Asset> {
    match outcome {
        Ok(found) => found@,
        Err(_) => Seq::empty(),
    }
}

/// The aggregate of the outcomes of the collectors, in their order.
pub open spec fn merged(outcomes: Seq<Result<Vec<Asset>, DiscoveryError>>) -> Seq<Asset>
    decreases outcomes.len(),
{
    if outcomes.len() == 0 {
        Seq::empty()
    } else {
        merged(outcomes.drop_last()) + contribution(outcomes.last())
    }
}

/// The name and the message of a failure.
pub open spec fn failure_text(f: Failure) -> (Seq<char>, Seq<char>) {
    (f.collector@, f.error.message@)
}

/// The names and messages of a list of failures.
pub open spec fn failure_texts(failures: Seq<Failure>) -> Seq<(Seq<char>, Seq<char>)> {
    failures.map_values(|f: Failure| failure_text(f))
}

/// What the collector named `name` adds to the failures: its name and
/// message where it failed, and nothing where it succeeded.
pub open spec fn reported(name: Seq<char>, outcome: Result<Vec<Asset>, DiscoveryError>) -> Seq<
    (Seq<char>, Seq<char>),
> {
    match outcome {
        Ok(_) => Seq::empty(),
        Err(e) => seq![(name, e.message@)],
    }
}

/// The failures among the outcomes of the collectors, in their order.
pub open spec fn failed(
    names: Seq<Seq<char>>,
    outcomes: Seq<Result<Vec<Asset>, DiscoveryError>>,
) -> Seq<(Seq<char>, Seq<char>)>
    decreases outcomes.len(),
{
    if outcomes.len() == 0 || names.len() != outcomes.len() {
        Seq::empty()
    } else {
        failed(names.drop_last(), outcomes.drop_last()) + reported(names.last(), outcomes.last())
    }
}

/// The names that the entries declare.
pub open spec fn labels(entries: Seq<Entry>) -> Seq<Seq<char>> {
    entries.map_values(|e: Entry| e.collector.label())
}

/// Whether `report` is what a run over `entries` gives where the collectors
/// end in `outcomes`: each outcome is one that its collector may end in for
/// this scope, the records are those of the successful collectors in the
/// order of the entries, and the failures are those of the others.
pub open spec fn is_run_of(
    report: RunReport,
    entries: Seq<Entry>,
    regions: Seq<Seq<char>>,
    mock: bool,
    outcomes: Seq<Result<Vec<Asset>, DiscoveryError>>,
) -> bool {
    &&& outcomes.len() == entries.len()
    &&& forall|i: int|
        0 <= i < entries.len() ==> (#[trigger] entries[i]).collector.discovers(
            regions,
            mock,
            outcomes[i],
        )
    &&& report.assets@ == merged(outcomes)
    &&& failure_texts(report.failures@) == failed(labels(entries), outcomes)
}

/// The line that reports a failure.
pub open spec fn failure_line(name: Seq<char>, message: Seq<char>) -> Seq<char> {
    "collector "@ + name + " failed: "@ + message
}

impl Failure {
    /// The line that reports the failure.
    pub fn line(&self) -> (line: String)
        ensures
            line@ == failure_line(self.collector@, self.error.message@),
    {
        crate::text::join4(
            "collector ",
            self.collector.as_str(),
            " failed: ",
            self.error.message.as_str(),
        )
    }
}

impl RunReport {
    /// The report of a run in which no collector has run yet.
    pub fn new() -> (r: RunReport)
        ensures
            r.assets@.len() == 0,
            r.failures@.len() == 0,
    {
        RunReport { assets: Vec::new(), failures: Vec::new() }
    }

    /// Takes in the outcome of the collector named `name`: its records go to
    /// the end of the aggregate in their order; a failure goes to the end of
    /// the failures and adds no record.
    pub fn absorb(&mut self, name: &str, outcome: Result<Vec<Asset>, DiscoveryError>)
        ensures
            final(self).assets@ == old(self).assets@ + contribution(outcome),
            failure_texts(final(self).failures@) == failure_texts(old(self).failures@) + reported(
                name@,
                outcome,
            ),
    {
        match outcome {
            Ok(found) => {
                let mut found = found;
                self.assets.append(&mut found);
                assert(failure_texts(self.failures@) + Seq::<(Seq<char>, Seq<char>)>::empty()
                    =~= failure_texts(self.failures@));
            },
            Err(error) => {
                let failure = Failure { collector: name.to_owned(), error };
                assert(failure_texts(self.failures@.push(failure)) =~= failure_texts(
                    self.failures@,
                ) + seq![failure_text(failure)]);
                self.failures.push(failure);
                assert(self.assets@ + Seq::<Asset>::empty() =~= self.assets@);
            },
        }
    }
}

/// Merges the outcomes of collectors that ran on their own, in the order in
/// which the outcomes are given: the records of each successful collector
/// in its order, and a failure for each of the others.
pub fn merge(outcomes: Vec<Outcome>) -> (report: RunReport)
    ensures
        report.assets@ == merged(results(outcomes@)),
        failure_texts(report.failures@) == failed(collectors(outcomes@), results(outcomes@)),
{
    let mut rest = outcomes;
    let mut report = RunReport::new();
    let n: usize = rest.len();
    let mut i: usize = 0;
    proof {
        assert(rest@.subrange(0, 0) =~= Seq::<Outcome>::empty());
        assert(results(Seq::<Outcome>::empty()) =~= Seq::empty());
        assert(collectors(Seq::<Outcome>::empty()) =~= Seq::<Seq<char>>::empty());
        assert(failure_texts(report.failures@) =~= Seq::<(Seq<char>, Seq<char>)>::empty());
    }
    while i < n
        invariant
            n == outcomes@.len(),
            i <= n,
            rest@ == outcomes@.subrange(i as int, n as int),
            report.assets@ == merged(results(outcomes@.subrange(0, i as int))),
            failure_texts(report.failures@) == failed(
                collectors(outcomes@.subrange(0, i as int)),
                results(outcomes@.subrange(0, i as int)),
            ),
        decreases n - i,
    {
        let outcome = rest.remove(0);
        proof {
            assert(outcome == outcomes@[i as int]);
            assert(rest@ =~= outcomes@.subrange(i + 1, n as int));
            let done = outcomes@.subrange(0, i as int);
            let next = outcomes@.subrange(0, i + 1);
            assert(results(next).drop_last() =~= results(done));
            assert(results(next).last() == outcome.result);
            assert(collectors(next).drop_last() =~= collectors(done));
            assert(collectors(next).last() == outcome.collector@);
        }
        report.absorb(outcome.collector.as_str(), outcome.result);
        i = i + 1;
    }
    assert(outcomes@.subrange(0, n as int) =~= outcomes@);
    report
}

/// Runs every collector over the same scope, one after the other. A
/// collector that fails is reported and adds no record; the others are not
/// affected. The records of each collector stay in the order in which it
/// returned them.
pub fn run(entries: &Vec<Entry>, regions: &[String], mock: bool) -> (report: RunReport)
    ensures
        exists|outcomes: Seq<Result<Vec<Asset>, DiscoveryError>>|
            is_run_of(report, entries@, texts(regions@), mock, outcomes),
{
    let mut report = RunReport::new();
    let ghost mut outcomes: Seq<Result<Vec<Asset>, DiscoveryError>> = Seq::empty();
    let n: usize = entries.len();
    let mut i: usize = 0;
    proof {
        assert(entries@.subrange(0, 0) =~= Seq::<Entry>::empty());
        assert(failure_texts(report.failures@) =~= Seq::<(Seq<char>, Seq<char>)>::empty());
        assert(labels(Seq::<Entry>::empty()) =~= Seq::<Seq<char>>::empty());
    }
    while i < n
        invariant
            n == entries@.len(),
            i <= n,
            outcomes.len() == i,
            forall|j: int|
                0 <= j < i ==> (#[trigger] entries@[j]).collector.discovers(
                    texts(regions@),
                    mock,
                    outcomes[j],
                ),
            report.assets@ == merged(outcomes),
            failure_texts(report.failures@) == failed(
                labels(entries@.subrange(0, i as int)),
                outcomes,
            ),
        decreases n - i,
    {
        let name = entries[i].collector.name();
        let outcome = entries[i].collector.discover(regions, mock);
        proof {
            let grown = outcomes.push(outcome);
            assert(grown.drop_last() =~= outcomes);
            let names = labels(entries@.subrange(0, i + 1));
            assert(names.drop_last() =~= labels(entries@.subrange(0, i as int)));
            assert(names.last() == entries@[i as int].collector.label());
            outcomes = grown;
        }
        report.absorb(name, outcome);
        i = i + 1;
    }
    proof {
        assert(entries@.subrange(0, n as int) =~= entries@);
        assert(is_run_of(report, entries@, texts(regions@), mock, outcomes));
    }
    report
}

/// The aggregate of two lists of outcomes put one after the other is the
/// aggregate of the first followed by that of the second.
pub proof fn lemma_merged_concat(
    a: Seq<Result<Vec<Asset>, DiscoveryError>>,
    b: Seq<Result<Vec<Asset>, DiscoveryError>>,
)
    ensures
        merged(a + b) == merged(a) + merged(b),
    decreases b.len(),
{
    if b.len() == 0 {
        assert(a + b =~= a);
        assert(merged(a) + merged(b) =~= merged(a));
    } else {
        lemma_merged_concat(a, b.drop_last());
        assert((a + b).drop_last() =~= a + b.drop_last());
        assert((a + b).last() == b.last());
        assert((merged(a) + merged(b.drop_last())) + contribution(b.last()) =~= merged(a) + (merged(
            b.drop_last(),
        ) + contribution(b.last())));
    }
}

/// A collector that fails adds nothing: the aggregate is that of the other
/// collectors alone.
pub proof fn lemma_failure_is_isolated(outcomes: Seq<Result<Vec<Asset>, DiscoveryError>>, j: int)
    requires
        0 <= j < outcomes.len(),
        outcomes[j] is Err,
    ensures
        merged(outcomes) == merged(outcomes.remove(j)),
{
    let before = outcomes.subrange(0, j);
    let one = seq![outcomes[j]];
    let behind = outcomes.subrange(j + 1, outcomes.len() as int);
    assert(outcomes =~= (before + one) + behind);
    assert(outcomes.remove(j) =~= before + behind);
    lemma_merged_concat(before + one, behind);
    lemma_merged_concat(before, one);
    lemma_merged_concat(before, behind);
    assert(one.drop_last() =~= Seq::<Result<Vec<Asset>, DiscoveryError>>::empty());
    assert(merged(one.drop_last()) =~= Seq::<Asset>::empty());
    assert(one.last() == outcomes[j]);
    assert(merged(one) =~= Seq::<Asset>::empty());
    assert(merged(before) + merged(one) =~= merged(before));
}

/// A collector that fails is reported with its name and its message.
pub proof fn lemma_failure_is_reported(
    names: Seq<Seq<char>>,
    outcomes: Seq<Result<Vec<Asset>, DiscoveryError>>,
    j: int,
)
    requires
        names.len() == outcomes.len(),
        0 <= j < outcomes.len(),
        outcomes[j] is Err,
    ensures
        failed(names, outcomes).contains((names[j], outcomes[j]->Err_0.message@)),
    decreases outcomes.len(),
{
    let before = failed(names.drop_last(), outcomes.drop_last());
    let last = reported(names.last(), outcomes.last());
    let all = failed(names, outcomes);
    assert(all == before + last);
    if j == outcomes.len() - 1 {
        assert(all[before.len() as int] == last[0]);
    } else {
        lemma_failure_is_reported(names.drop_last(), outcomes.drop_last(), j);
        let entry = (names[j], outcomes[j]->Err_0.message@);
        let k = choose|k: int| 0 <= k < before.len() && before[k] == entry;
        assert(all[k] == entry);
    }
}

/// The records of a collector that succeeds stand together in the
/// aggregate, in the order in which the collector returned them, behind the
/// records of the collectors before it.
pub proof fn lemma_order_is_kept(outcomes: Seq<Result<Vec<Asset>, DiscoveryError>>, j: int)
    requires
        0 <= j < outcomes.len(),
        outcomes[j] is Ok,
    ensures
        merged(outcomes.subrange(0, j)).len() + contribution(outcomes[j]).len() <= merged(
            outcomes,
        ).len(),
        merged(outcomes).subrange(
            merged(outcomes.subrange(0, j)).len() as int,
            (merged(outcomes.subrange(0, j)).len() + contribution(outcomes[j]).len()) as int,
        ) == contribution(outcomes[j]),
{
    let before = outcomes.subrange(0, j);
    let one = seq![outcomes[j]];
    let behind = outcomes.subrange(j + 1, outcomes.len() as int);
    assert(outcomes =~= (before + one) + behind);
    lemma_merged_concat(before + one, behind);
    lemma_merged_concat(before, one);
    assert(one.drop_last() =~= Seq::<Result<Vec<Asset>, DiscoveryError>>::empty());
    assert(merged(one.drop_last()) =~= Seq::<Asset>::empty());
    assert(one.last() == outcomes[j]);
    assert(merged(one) =~= contribution(outcomes[j]));
    let off = merged(before).len() as int;
    let len = contribution(outcomes[j]).len() as int;
    assert(merged(outcomes).subrange(off, off + len) =~= contribution(outcomes[j]));
}

} // verus!
