use vstd::prelude::*;
use std::collections::HashMap;
use crate::batch::{BatchAction, BatchRetryState};
use crate::drainer::spec_signatures;
use crate::types::{ForesterError, Signature};

verus! {

broadcast use vstd::std_specs::hash::group_hash_axioms;

/// The tally of confirmed batches, epoch by epoch.
#[derive(Debug, PartialEq, Eq)]
pub struct ProcessedCounter {
    pub counts: HashMap<u64, usize>,
}

impl View for ProcessedCounter {
    type V = Map<u64, usize>;

    open spec fn view(&self) -> Map<u64, usize> {
        self.counts@
    }
}

/// The tally of `epoch`: zero until a batch of that epoch has been counted.
pub open spec fn spec_count(counts: Map<u64, usize>, epoch: u64) -> usize {
    if counts.contains_key(epoch) {
        counts[epoch]
    } else {
        0
    }
}

/// The tally after one more batch; it starts over after the largest number.
pub open spec fn spec_next_count(count: usize) -> usize {
    if count == usize::MAX {
        0
    } else {
        (count + 1) as usize
    }
}

/// The tallies after one more batch of `epoch` has been counted.
pub open spec fn spec_increment(counts: Map<u64, usize>, epoch: u64) -> Map<u64, usize> {
    counts.insert(epoch, spec_next_count(spec_count(counts, epoch)))
}

/// The tallies after the outcome of one batch of `epoch`: a confirmed batch
/// is counted, any other outcome is not.
pub open spec fn spec_record(counts: Map<u64, usize>, epoch: u64, action: BatchAction) -> Map<
    u64,
    usize,
> {
    if action is Confirmed {
        spec_increment(counts, epoch)
    } else {
        counts
    }
}

/// The tallies after the outcomes of a run of batches of `epoch`.
pub open spec fn spec_record_all(counts: Map<u64, usize>, epoch: u64, actions: Seq<BatchAction>) -> Map<
    u64,
    usize,
>
    decreases actions.len(),
{
    if actions.len() == 0 {
        counts
    } else {
        spec_record(spec_record_all(counts, epoch, actions.drop_last()), epoch, actions.last())
    }
}

/// Number of confirmed batches among the outcomes.
pub open spec fn spec_confirmed(actions: Seq<BatchAction>) -> nat
    decreases actions.len(),
{
    if actions.len() == 0 {
        0
    } else {
        spec_confirmed(actions.drop_last()) + if actions.last() is Confirmed {
            1nat
        } else {
            0nat
        }
    }
}

impl ProcessedCounter {
    /// A counter that has counted nothing.
    pub fn new() -> (counter: ProcessedCounter)
        ensures
            counter@ == Map::<u64, usize>::empty(),
    {
        ProcessedCounter { counts: HashMap::new() }
    }

    /// The tally of `epoch`.
    pub fn get_processed_items_count(&self, epoch: u64) -> (count: usize)
        ensures
            count == spec_count(self@, epoch),
    {
        match self.counts.get(&epoch) {
            Some(count) => *count,
            None => 0,
        }
    }

    /// Counts one more batch of `epoch`.
    pub fn increment_processed_items_count(&mut self, epoch: u64)
        ensures
            final(self)@ == spec_increment(old(self)@, epoch),
    {
        let count = self.get_processed_items_count(epoch);
        let next = if count == usize::MAX {
            0
        } else {
            count + 1
        };
        self.counts.insert(epoch, next);
    }

    /// Takes note of the outcome of one batch of `epoch`: a confirmed batch
    /// is counted once, any other outcome leaves the tally as it is.
    pub fn record(&mut self, epoch: u64, action: &BatchAction)
        ensures
            final(self)@ == spec_record(old(self)@, epoch, *action),
    {
        match action {
            BatchAction::Confirmed { .. } => {
                self.increment_processed_items_count(epoch);
            },
            _ => {},
        }
    }
}

/// The tally of an epoch grows by the number of confirmed batches among the
/// outcomes recorded for it, and by nothing else, as long as it stays within
/// the machine's range. The tallies of other epochs stay as they are.
pub proof fn lemma_tally_counts_confirmed(
    counts: Map<u64, usize>,
    epoch: u64,
    actions: Seq<BatchAction>,
)
    requires
        spec_count(counts, epoch) + spec_confirmed(actions) <= usize::MAX,
    ensures
        spec_count(spec_record_all(counts, epoch, actions), epoch) == spec_count(counts, epoch)
            + spec_confirmed(actions),
        forall|other: u64|
            other != epoch ==> spec_count(spec_record_all(counts, epoch, actions), other)
                == spec_count(counts, other),
    decreases actions.len(),
{
    if actions.len() > 0 {
        lemma_tally_counts_confirmed(counts, epoch, actions.drop_last());
    }
}

/// Only a confirmed batch is counted. A batch that is skipped because the
/// forester holds no turn, a batch whose submission failed, and a batch that
/// waits for a retry leave every tally as it is.
pub proof fn lemma_unconfirmed_batch_is_not_counted(
    counts: Map<u64, usize>,
    epoch: u64,
    state: BatchRetryState,
    verdict_error: ForesterError,
    submission_error: ForesterError,
    jitter: u64,
)
    ensures
        spec_record(counts, epoch, state.spec_on_eligibility(Err(verdict_error)).1) == counts,
        state.spec_on_eligibility(Err(ForesterError::NotEligible)).1 == BatchAction::Skipped,
        spec_record(counts, epoch, state.spec_on_submission(Err(submission_error), jitter).1)
            == counts,
        spec_record(counts, epoch, state.spec_on_eligibility(Ok(())).1) == counts,
        spec_record(counts, epoch, state.spec_on_slept().1) == counts,
{
}

/// What each of the batches returned, for batches that have ended.
pub open spec fn spec_outcomes(actions: Seq<BatchAction>) -> Seq<
    Result<Option<Signature>, ForesterError>,
> {
    Seq::new(actions.len(), |i: int| actions[i].spec_outcome().unwrap())
}

/// The signatures that a run of batches returns are as many as the tally of
/// the epoch grows by: one for each confirmed batch, and none for a batch
/// that was skipped, stopped or failed.
pub proof fn lemma_signatures_match_tally(
    counts: Map<u64, usize>,
    epoch: u64,
    actions: Seq<BatchAction>,
)
    requires
        forall|i: int| 0 <= i < actions.len() ==> (#[trigger] actions[i]).spec_outcome().is_some(),
        spec_count(counts, epoch) + spec_confirmed(actions) <= usize::MAX,
    ensures
        spec_signatures(spec_outcomes(actions)).len() == spec_confirmed(actions),
        spec_count(spec_record_all(counts, epoch, actions), epoch) == spec_count(counts, epoch)
            + spec_signatures(spec_outcomes(actions)).len(),
    decreases actions.len(),
{
    lemma_tally_counts_confirmed(counts, epoch, actions);
    if actions.len() > 0 {
        let shorter = actions.drop_last();
        lemma_signatures_match_tally(counts, epoch, shorter);
        assert(spec_outcomes(actions).drop_last() =~= spec_outcomes(shorter));
        assert(spec_outcomes(actions).last() == actions.last().spec_outcome().unwrap());
    }
}

/// The action that ends a batch which is found eligible and confirmed, or
/// found not eligible.
pub open spec fn spec_simple_batch(state: BatchRetryState, eligible: bool, signature: Signature) -> BatchAction {
    if eligible {
        state.spec_on_eligibility(Ok(())).0.spec_on_submission(Ok(signature), 0).1
    } else {
        state.spec_on_eligibility(Err(ForesterError::NotEligible)).1
    }
}

/// Number of eligible answers among the answers of the oracle.
pub open spec fn spec_eligible_count(eligible: Seq<bool>) -> nat
    decreases eligible.len(),
{
    if eligible.len() == 0 {
        0
    } else {
        spec_eligible_count(eligible.drop_last()) + if eligible.last() {
            1nat
        } else {
            0nat
        }
    }
}

/// Where every submission confirms, the tally of an epoch grows by the
/// number of batches that the oracle found eligible. Each of the other
/// batches returns without a signature and is not counted.
pub proof fn lemma_tally_counts_eligible_batches(
    counts: Map<u64, usize>,
    epoch: u64,
    state: BatchRetryState,
    eligible: Seq<bool>,
    signatures: Seq<Signature>,
)
    requires
        eligible.len() == signatures.len(),
        spec_count(counts, epoch) + eligible.len() <= usize::MAX,
    ensures
        ({
            let actions = Seq::new(
                eligible.len(),
                |i: int| spec_simple_batch(state, eligible[i], signatures[i]),
            );
            &&& spec_confirmed(actions) == spec_eligible_count(eligible)
            &&& spec_eligible_count(eligible) <= eligible.len()
            &&& spec_count(spec_record_all(counts, epoch, actions), epoch) == spec_count(
                counts,
                epoch,
            ) + spec_eligible_count(eligible)
            &&& forall|i: int|
                0 <= i < eligible.len() ==> (#[trigger] actions[i]).spec_outcome() == Some(
                    if eligible[i] {
                        Ok::<Option<Signature>, ForesterError>(Some(signatures[i]))
                    } else {
                        Ok::<Option<Signature>, ForesterError>(None)
                    },
                )
        }),
    decreases eligible.len(),
{
    let actions = Seq::new(
        eligible.len(),
        |i: int| spec_simple_batch(state, eligible[i], signatures[i]),
    );
    if eligible.len() > 0 {
        let e = eligible.drop_last();
        let g = signatures.drop_last();
        lemma_tally_counts_eligible_batches(counts, epoch, state, e, g);
        let shorter = Seq::new(e.len(), |i: int| spec_simple_batch(state, e[i], g[i]));
        assert(actions.drop_last() =~= shorter);
    }
    lemma_tally_counts_confirmed(counts, epoch, actions);
}

/// Counting never lowers the tally of an epoch while it stays within the
/// machine's range.
pub proof fn lemma_tally_is_monotonic(counts: Map<u64, usize>, epoch: u64, action: BatchAction)
    requires
        spec_count(counts, epoch) < usize::MAX,
    ensures
        spec_count(counts, epoch) <= spec_count(spec_record(counts, epoch, action), epoch),
{
}

} // verus!
