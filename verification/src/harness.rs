//! Scoring the classifier against messages whose verdict is known.

use vstd::prelude::*;

verus! {

/// A message with the verdict that the classifier ought to reach.
#[derive(Clone, Debug)]
pub struct LabeledCase {
    pub content: String,
    pub expected_result: bool,
}

/// How many of the first cases got another verdict than expected. Cases
/// beyond the shorter of the two sequences do not count.
pub open spec fn mispredicted(expected: Seq<bool>, actual: Seq<bool>) -> nat
    decreases expected.len(),
{
    if expected.len() == 0 || expected.len() != actual.len() {
        0
    } else {
        mispredicted(expected.drop_last(), actual.drop_last()) + if expected.last()
            != actual.last() {
            1nat
        } else {
            0nat
        }
    }
}

/// The expected verdicts of a list of cases.
pub open spec fn expected_results(cases: Seq<LabeledCase>) -> Seq<bool> {
    Seq::new(cases.len(), |i: int| cases[i].expected_result)
}

/// The running score of a harness run.
#[derive(Clone, Copy, Debug, PartialEq, Eq, Structural)]
pub struct HarnessTally {
    /// The cases judged so far.
    pub total: usize,
    /// Those among them that got another verdict than expected.
    pub mispredictions: usize,
}

impl HarnessTally {
    /// A tally counts no more mispredictions than cases.
    pub open spec fn well_formed(&self) -> bool {
        self.mispredictions <= self.total
    }

    /// The tally before any case.
    pub fn new() -> (tally: HarnessTally)
        ensures
            tally.total == 0,
            tally.mispredictions == 0,
            tally.well_formed(),
    {
        HarnessTally { total: 0, mispredictions: 0 }
    }

    /// Counts one more case, as a misprediction where the verdict is not the
    /// expected one.
    pub fn record(&mut self, expected: bool, actual: bool)
        requires
            old(self).well_formed(),
            old(self).total < usize::MAX,
        ensures
            final(self).well_formed(),
            final(self).total == old(self).total + 1,
            final(self).mispredictions == old(self).mispredictions + if expected != actual {
                1int
            } else {
                0int
            },
    {
        self.total = self.total + 1;
        if expected != actual {
            self.mispredictions = self.mispredictions + 1;
        }
    }

    /// The cases that got the expected verdict.
    pub fn correct(&self) -> (count: usize)
        requires
            self.well_formed(),
        ensures
            count == self.total - self.mispredictions,
    {
        self.total - self.mispredictions
    }

    /// Whether the run passes: it does when no case was mispredicted.
    pub fn passes(&self) -> (pass: bool)
        ensures
            pass == (self.mispredictions == 0),
    {
        self.mispredictions == 0
    }
}

/// In sequences of equal length, nothing is mispredicted exactly when every
/// verdict is the expected one, and never more than there are cases.
pub proof fn lemma_mispredicted_zero(expected: Seq<bool>, actual: Seq<bool>)
    requires
        expected.len() == actual.len(),
    ensures
        mispredicted(expected, actual) <= expected.len(),
        mispredicted(expected, actual) == 0 <==> expected == actual,
    decreases expected.len(),
{
    if expected.len() == 0 {
        assert(expected =~= actual);
    } else {
        lemma_mispredicted_zero(expected.drop_last(), actual.drop_last());
        if mispredicted(expected, actual) == 0 {
            assert(expected =~= expected.drop_last().push(expected.last()));
            assert(actual =~= actual.drop_last().push(actual.last()));
        }
    }
}

/// Scores the verdicts `results` against `cases`, one verdict for each case
/// in order. There is no score where the two differ in length.
pub fn tally_results(cases: &Vec<LabeledCase>, results: &Vec<bool>) -> (tally: Option<
    HarnessTally,
>)
    ensures
        tally is Some <==> cases@.len() == results@.len(),
        tally is Some ==> {
            &&& tally.unwrap().total == cases@.len()
            &&& tally.unwrap().mispredictions == mispredicted(
                expected_results(cases@),
                results@,
            )
            &&& tally.unwrap().well_formed()
        },
{
    if cases.len() != results.len() {
        return None;
    }
    let mut tally = HarnessTally::new();
    let mut i: usize = 0;
    while i < cases.len()
        invariant
            i <= cases.len(),
            cases.len() == results.len(),
            tally.well_formed(),
            tally.total == i,
            tally.mispredictions == mispredicted(
                expected_results(cases@).take(i as int),
                results@.take(i as int),
            ),
        decreases cases.len() - i,
    {
        proof {
            let expected = expected_results(cases@);
            assert(expected.take(i + 1).drop_last() =~= expected.take(i as int));
            assert(results@.take(i + 1).drop_last() =~= results@.take(i as int));
            assert(expected.take(i + 1).last() == cases@[i as int].expected_result);
        }
        tally.record(cases[i].expected_result, results[i]);
        i = i + 1;
    }
    proof {
        assert(expected_results(cases@).take(i as int) =~= expected_results(cases@));
        assert(results@.take(i as int) =~= results@);
    }
    Some(tally)
}

/// Whether a run with the verdicts `results` for `cases` passes: every case
/// must have got the verdict expected of it.
pub fn harness_passes(cases: &Vec<LabeledCase>, results: &Vec<bool>) -> (pass: bool)
    ensures
        pass <==> (cases@.len() == results@.len() && expected_results(cases@) == results@),
{
    proof {
        if cases@.len() == results@.len() {
            lemma_mispredicted_zero(expected_results(cases@), results@);
        }
    }
    match tally_results(cases, results) {
        Some(tally) => tally.passes(),
        None => false,
    }
}

} // verus!
