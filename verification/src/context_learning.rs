//! The adaptive window learner: per model, an estimate of the token count at
//! which compaction sets in, with a confidence that grows with the number of
//! observations.

use crate::string_map::StringMap;
use vstd::prelude::*;
use vstd::string::*;

verus! {

/// Full confidence, in thousandths.
pub const FULL_CONFIDENCE: u32 = 1000;

/// What was learned about one model.
#[derive(Debug, Clone, Copy, PartialEq, Eq, Structural)]
pub struct LearnedWindow {
    /// The estimated token count at which compaction sets in: the mean of
    /// the observed counts, rounded down.
    pub compaction_point: usize,
    /// The number of observations behind the estimate.
    pub observations: u32,
    /// The confidence in the estimate, in thousandths.
    pub confidence: u32,
}

/// The confidence after a number of observations, in thousandths: none
/// without an observation, a tenth after the first, 150 more with each of the
/// next four, 50 more with each one after that, and never above full
/// confidence.
pub open spec fn confidence_for(observations: nat) -> nat {
    if observations == 0 {
        0
    } else if observations <= 5 {
        (100 + 150 * (observations - 1)) as nat
    } else if observations >= 11 {
        FULL_CONFIDENCE as nat
    } else {
        (700 + 50 * (observations - 5)) as nat
    }
}

/// Confidence never falls when observations are added, and never exceeds
/// full confidence.
pub proof fn lemma_confidence_grows(fewer: nat, more: nat)
    requires
        fewer <= more,
    ensures
        confidence_for(fewer) <= confidence_for(more) <= FULL_CONFIDENCE,
{
}

/// The anchors of the confidence scale: a tenth after one observation, four
/// tenths after three, seven tenths after five.
pub proof fn lemma_confidence_anchors()
    ensures
        confidence_for(1) == 100,
        confidence_for(3) == 400,
        confidence_for(5) == 700,
        forall|n: nat| n >= 5 ==> confidence_for(n) >= 700,
{
}

/// The mean of `count + 1` observations, given the mean of the first `count`
/// and the newest one, rounded down.
pub open spec fn updated_mean(mean: nat, count: nat, observed: nat) -> nat {
    (mean * count + observed) / (count + 1)
}

/// The record after one more observation. The count of observations stops
/// growing at the largest number it can hold.
pub open spec fn observed_once_more(record: Option<LearnedWindow>, observed: usize) -> LearnedWindow {
    match record {
        None => LearnedWindow {
            compaction_point: observed,
            observations: 1,
            confidence: confidence_for(1) as u32,
        },
        Some(before) => {
            let count: nat = if before.observations == u32::MAX {
                before.observations as nat
            } else {
                (before.observations + 1) as nat
            };
            LearnedWindow {
                compaction_point: updated_mean(
                    before.compaction_point as nat,
                    before.observations as nat,
                    observed as nat,
                ) as usize,
                observations: count as u32,
                confidence: confidence_for(count) as u32,
            }
        },
    }
}

/// The learned window of a record, if the confidence in it reaches the
/// threshold.
pub open spec fn confident_window(record: Option<LearnedWindow>, threshold: u32) -> Option<usize> {
    match record {
        Some(learned) => if learned.confidence >= threshold {
            Some(learned.compaction_point)
        } else {
            None
        },
        None => None,
    }
}

/// The confidence after a number of observations.
pub fn confidence_after(observations: u32) -> (confidence: u32)
    ensures
        confidence == confidence_for(observations as nat),
        confidence <= FULL_CONFIDENCE,
{
    if observations == 0 {
        0
    } else if observations <= 5 {
        100 + 150 * (observations - 1)
    } else if observations >= 11 {
        FULL_CONFIDENCE
    } else {
        700 + 50 * (observations - 5)
    }
}

/// The record after one more observation.
pub fn observe_once_more(record: Option<LearnedWindow>, observed: usize) -> (after: LearnedWindow)
    ensures
        after == observed_once_more(record, observed),
{
    match record {
        None => LearnedWindow {
            compaction_point: observed,
            observations: 1,
            confidence: confidence_after(1),
        },
        Some(before) => {
            let count: u32 = if before.observations == u32::MAX {
                before.observations
            } else {
                before.observations + 1
            };
            let mean = before.compaction_point as u128;
            let n = before.observations as u128;
            assert(mean * n <= 0xffff_ffff_ffff_ffff * 0xffff_ffff) by (nonlinear_arith)
                requires
                    0 <= mean <= 0xffff_ffff_ffff_ffff,
                    0 <= n <= 0xffff_ffff,
            {
            }
            let next: u128 = (mean * n + observed as u128) / (n + 1);
            assert(next <= usize::MAX) by (nonlinear_arith)
                requires
                    next == (mean * n + observed as int) / (n + 1),
                    0 <= mean <= usize::MAX,
                    0 <= observed <= usize::MAX,
                    0 <= n,
            {
                assert(mean * n + observed <= usize::MAX * (n + 1));
            }
            LearnedWindow {
                compaction_point: next as usize,
                observations: count,
                confidence: confidence_after(count),
            }
        },
    }
}

/// What was learned, by model display name.
#[derive(Debug, Clone)]
pub struct ContextLearner {
    records: StringMap<LearnedWindow>,
}

impl View for ContextLearner {
    type V = Map<Seq<char>, LearnedWindow>;

    closed spec fn view(&self) -> Map<Seq<char>, LearnedWindow> {
        self.records@
    }
}

impl ContextLearner {
    /// The record of a model, if there is one.
    pub open spec fn record_of(self, model: Seq<char>) -> Option<LearnedWindow> {
        if self@.contains_key(model) {
            Some(self@[model])
        } else {
            None
        }
    }

    /// A learner that has observed nothing.
    pub fn new() -> (learner: ContextLearner)
        ensures
            learner@ == Map::<Seq<char>, LearnedWindow>::empty(),
    {
        ContextLearner { records: StringMap::new() }
    }

    /// Puts back a record that was stored earlier.
    pub fn restore(&mut self, model_name: String, record: LearnedWindow)
        ensures
            final(self)@ == old(self)@.insert(model_name@, record),
    {
        self.records.insert(model_name, record);
    }

    /// The record of a model, if there is one.
    pub fn record(&self, model_name: &str) -> (r: Option<LearnedWindow>)
        ensures
            r == self.record_of(model_name@),
    {
        match self.records.get(model_name) {
            Some(record) => Some(*record),
            None => None,
        }
    }

    /// Takes note of a compaction of `model_name` observed at
    /// `observed_tokens`: the estimate becomes the mean of all observations
    /// and the confidence grows with their number. No other model's record
    /// changes.
    pub fn observe(&mut self, model_name: &str, observed_tokens: usize)
        ensures
            final(self)@ == old(self)@.insert(
                model_name@,
                observed_once_more(old(self).record_of(model_name@), observed_tokens),
            ),
    {
        let after = observe_once_more(self.record(model_name), observed_tokens);
        self.records.insert(model_name.to_owned(), after);
    }

    /// The learned window of a model, if the confidence in it reaches the
    /// threshold.
    pub fn get_learned_window(&self, model_name: &str, threshold: u32) -> (r: Option<usize>)
        ensures
            r == confident_window(self.record_of(model_name@), threshold),
    {
        match self.record(model_name) {
            Some(learned) => if learned.confidence >= threshold {
                Some(learned.compaction_point)
            } else {
                None
            },
            None => None,
        }
    }
}

} // verus!
