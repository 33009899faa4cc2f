use vstd::prelude::*;
use crate::backoff::{random_jitter_ms, retry_delay_ms, spec_retry_delay_ms, MAX_JITTER_MS};
use crate::eligibility::ForesterEpochInfo;
use crate::encode::{encode_transaction, is_transaction_of, EncodedInstruction};
use crate::drainer::ForesterConfig;
use crate::instructions::{
    is_indexer_update_for, min_len, update_indexer, ForesterInstruction, IndexerUpdate, Proof,
};
use crate::protocol::{
    is_in_active_phase, lemma_active_phase_is_active_span, spec_epoch_phases, ProtocolConfig,
};
use crate::types::{ForesterError, Pubkey, Signature, WorkItem};

verus! {

/// Where one batch stands between its eligibility check and its outcome.
#[derive(Clone, Copy, Debug, PartialEq, Eq, Structural)]
pub enum BatchPhase {
    /// Waiting for the verdict of the eligibility oracle.
    CheckingEligibility,
    /// Waiting for the ledger to confirm or reject the transaction.
    Submitting,
    /// Waiting for a retry delay to pass.
    BackingOff,
    /// The outcome has been handed out.
    Finished,
}

/// The retry bookkeeping of one batch.
#[derive(Clone, Copy, Debug, PartialEq, Eq)]
pub struct BatchRetryState {
    pub phase: BatchPhase,
    /// Failed submissions so far.
    pub retries: usize,
    pub max_retries: usize,
}

/// What the driver of a batch reports back.
#[derive(Debug, PartialEq, Eq)]
pub enum BatchEvent {
    Eligibility { verdict: Result<(), ForesterError> },
    Submission { result: Result<Signature, ForesterError> },
    Slept,
}

/// What the driver of a batch has to do next.
#[derive(Clone, Debug, PartialEq, Eq)]
pub enum BatchAction {
    /// Ask the eligibility oracle at the current slot.
    CheckEligibility,
    /// Build, sign and submit the transaction and await its confirmation.
    Submit,
    /// Wait before the next attempt.
    Sleep { millis: u64 },
    /// The batch is confirmed: count it once, update the indexer, return the signature.
    Confirmed { signature: Signature },
    /// The forester holds no turn: return without a signature.
    Skipped,
    /// The active phase is over: return without a signature.
    Stopped,
    /// Give up with this error.
    Failed { error: ForesterError },
}

impl BatchAction {
    /// What the batch returns with this action: its signature where it was
    /// confirmed, nothing where it was skipped or stopped, its error where it
    /// failed, and no return yet for any other action.
    pub open spec fn spec_outcome(self) -> Option<Result<Option<Signature>, ForesterError>> {
        match self {
            BatchAction::Confirmed { signature } => Some(Ok(Some(signature))),
            BatchAction::Skipped => Some(Ok(None)),
            BatchAction::Stopped => Some(Ok(None)),
            BatchAction::Failed { error } => Some(Err(error)),
            _ => None,
        }
    }

    /// What the batch returns with this action, if it ends the batch.
    pub fn outcome(self) -> (outcome: Option<Result<Option<Signature>, ForesterError>>)
        ensures
            outcome == self.spec_outcome(),
    {
        match self {
            BatchAction::Confirmed { signature } => Some(Ok(Some(signature))),
            BatchAction::Skipped => Some(Ok(None)),
            BatchAction::Stopped => Some(Ok(None)),
            BatchAction::Failed { error } => Some(Err(error)),
            _ => None,
        }
    }
}

impl BatchRetryState {
    /// No more submissions have failed than retries are allowed.
    pub open spec fn well_formed(self) -> bool {
        self.retries <= self.max_retries
    }

    /// The state of a batch before its first eligibility check.
    pub open spec fn initial(max_retries: usize) -> BatchRetryState {
        BatchRetryState { phase: BatchPhase::CheckingEligibility, retries: 0, max_retries }
    }

    /// The transition on the answer of the eligibility oracle. An eligible
    /// batch is submitted, an ineligible one is skipped without an error, and
    /// any other error ends the batch.
    pub open spec fn spec_on_eligibility(self, verdict: Result<(), ForesterError>) -> (
        BatchRetryState,
        BatchAction,
    ) {
        match verdict {
            Ok(()) => (
                BatchRetryState { phase: BatchPhase::Submitting, ..self },
                BatchAction::Submit,
            ),
            Err(ForesterError::NotEligible) => (
                BatchRetryState { phase: BatchPhase::Finished, ..self },
                BatchAction::Skipped,
            ),
            Err(error) => (
                BatchRetryState { phase: BatchPhase::Finished, ..self },
                BatchAction::Failed { error },
            ),
        }
    }

    /// The transition on the answer of the ledger. A confirmation ends the
    /// batch. The answer that the active phase is over stops the batch at
    /// once, without a delay and without an error. Any other failure is
    /// followed by a growing delay until the retries are used up.
    pub open spec fn spec_on_submission(
        self,
        result: Result<Signature, ForesterError>,
        jitter: u64,
    ) -> (BatchRetryState, BatchAction) {
        match result {
            Ok(signature) => (
                BatchRetryState { phase: BatchPhase::Finished, ..self },
                BatchAction::Confirmed { signature },
            ),
            Err(ForesterError::NotInActivePhase) => (
                BatchRetryState { phase: BatchPhase::Finished, ..self },
                BatchAction::Stopped,
            ),
            Err(error) => if self.retries >= self.max_retries {
                (
                    BatchRetryState { phase: BatchPhase::Finished, ..self },
                    BatchAction::Failed { error },
                )
            } else {
                (
                    BatchRetryState {
                        phase: BatchPhase::BackingOff,
                        retries: (self.retries + 1) as usize,
                        ..self
                    },
                    BatchAction::Sleep {
                        millis: spec_retry_delay_ms(self.retries as nat, jitter),
                    },
                )
            },
        }
    }

    /// After a delay the batch starts over with the eligibility check.
    pub open spec fn spec_on_slept(self) -> (BatchRetryState, BatchAction) {
        (
            BatchRetryState { phase: BatchPhase::CheckingEligibility, ..self },
            BatchAction::CheckEligibility,
        )
    }

    /// One transition of the batch, or none where the event does not answer
    /// what the batch is waiting for.
    pub open spec fn spec_step(self, event: BatchEvent, jitter: u64) -> Option<
        (BatchRetryState, BatchAction),
    > {
        match (self.phase, event) {
            (BatchPhase::CheckingEligibility, BatchEvent::Eligibility { verdict }) => Some(
                self.spec_on_eligibility(verdict),
            ),
            (BatchPhase::Submitting, BatchEvent::Submission { result }) => Some(
                self.spec_on_submission(result, jitter),
            ),
            (BatchPhase::BackingOff, BatchEvent::Slept) => Some(self.spec_on_slept()),
            _ => None,
        }
    }

    /// Opens a batch for a chunk of `chunk_len` work items. An empty chunk is
    /// refused with a `Custom` error; otherwise the first thing to do is the
    /// eligibility check.
    pub fn start(chunk_len: usize, max_retries: usize) -> (opened: Result<
        BatchRetryState,
        ForesterError,
    >)
        ensures
            match opened {
                Ok(state) => chunk_len > 0 && state == BatchRetryState::initial(max_retries),
                Err(ForesterError::Custom(message)) => chunk_len == 0 && message@
                    == "Empty indexer chunk"@,
                Err(_) => false,
            },
    {
        if chunk_len == 0 {
            Err(ForesterError::Custom("Empty indexer chunk".to_owned()))
        } else {
            Ok(BatchRetryState { phase: BatchPhase::CheckingEligibility, retries: 0, max_retries })
        }
    }

    /// The transition on the answer of the eligibility oracle.
    pub fn on_eligibility(self, verdict: Result<(), ForesterError>) -> (next: (
        BatchRetryState,
        BatchAction,
    ))
        requires
            self.phase == BatchPhase::CheckingEligibility,
        ensures
            next == self.spec_on_eligibility(verdict),
    {
        match verdict {
            Ok(()) => (
                BatchRetryState {
                    phase: BatchPhase::Submitting,
                    retries: self.retries,
                    max_retries: self.max_retries,
                },
                BatchAction::Submit,
            ),
            Err(ForesterError::NotEligible) => (
                BatchRetryState {
                    phase: BatchPhase::Finished,
                    retries: self.retries,
                    max_retries: self.max_retries,
                },
                BatchAction::Skipped,
            ),
            Err(error) => (
                BatchRetryState {
                    phase: BatchPhase::Finished,
                    retries: self.retries,
                    max_retries: self.max_retries,
                },
                BatchAction::Failed { error },
            ),
        }
    }

    /// The transition on the ledger's answer for a given random addition.
    pub fn on_submission_with_jitter(
        self,
        result: Result<Signature, ForesterError>,
        jitter: u64,
    ) -> (next: (BatchRetryState, BatchAction))
        requires
            self.phase == BatchPhase::Submitting,
        ensures
            next == self.spec_on_submission(result, jitter),
    {
        match result {
            Ok(signature) => (
                BatchRetryState {
                    phase: BatchPhase::Finished,
                    retries: self.retries,
                    max_retries: self.max_retries,
                },
                BatchAction::Confirmed { signature },
            ),
            Err(ForesterError::NotInActivePhase) => (
                BatchRetryState {
                    phase: BatchPhase::Finished,
                    retries: self.retries,
                    max_retries: self.max_retries,
                },
                BatchAction::Stopped,
            ),
            Err(error) => {
                if self.retries >= self.max_retries {
                    (
                        BatchRetryState {
                            phase: BatchPhase::Finished,
                            retries: self.retries,
                            max_retries: self.max_retries,
                        },
                        BatchAction::Failed { error },
                    )
                } else {
                    let millis = retry_delay_ms(self.retries, jitter);
                    (
                        BatchRetryState {
                            phase: BatchPhase::BackingOff,
                            retries: self.retries + 1,
                            max_retries: self.max_retries,
                        },
                        BatchAction::Sleep { millis },
                    )
                }
            },
        }
    }

    /// The transition on the ledger's answer; the random addition to a delay
    /// is drawn here.
    pub fn on_submission(self, result: Result<Signature, ForesterError>) -> (next: (
        BatchRetryState,
        BatchAction,
    ))
        requires
            self.phase == BatchPhase::Submitting,
        ensures
            exists|jitter: u64|
                jitter <= MAX_JITTER_MS && next == self.spec_on_submission(result, jitter),
    {
        let jitter = random_jitter_ms();
        self.on_submission_with_jitter(result, jitter)
    }

    /// The transition after a retry delay has passed.
    pub fn on_slept(self) -> (next: (BatchRetryState, BatchAction))
        requires
            self.phase == BatchPhase::BackingOff,
        ensures
            next == self.spec_on_slept(),
    {
        (
            BatchRetryState {
                phase: BatchPhase::CheckingEligibility,
                retries: self.retries,
                max_retries: self.max_retries,
            },
            BatchAction::CheckEligibility,
        )
    }

    /// Feeds one event to the batch. An event that does not answer what the
    /// batch is waiting for is refused and changes nothing.
    pub fn step(self, event: BatchEvent) -> (next: Option<(BatchRetryState, BatchAction)>)
        ensures
            exists|jitter: u64|
                jitter <= MAX_JITTER_MS && next == self.spec_step(event, jitter),
    {
        match (self.phase, event) {
            (BatchPhase::CheckingEligibility, BatchEvent::Eligibility { verdict }) => {
                let next = Some(self.on_eligibility(verdict));
                assert(next == self.spec_step(event, 0));
                next
            },
            (BatchPhase::Submitting, BatchEvent::Submission { result }) => {
                let moved = self.on_submission(result);
                let next = Some(moved);
                proof {
                    let jitter = choose|jitter: u64|
                        jitter <= MAX_JITTER_MS && moved == self.spec_on_submission(result, jitter);
                    assert(next == self.spec_step(event, jitter));
                }
                next
            },
            (BatchPhase::BackingOff, BatchEvent::Slept) => {
                let next = Some(self.on_slept());
                assert(next == self.spec_step(event, 0));
                next
            },
            _ => {
                assert(self.spec_step(event, 0) is None);
                None
            },
        }
    }
}

/// The transaction of one batch before it is signed and sent.
#[derive(Clone, Debug, PartialEq, Eq)]
pub struct BatchTransaction {
    pub instructions: Vec<EncodedInstruction>,
    /// Who pays the fee.
    pub payer: Pubkey,
    /// Whose signatures the transaction carries.
    pub signers: Vec<Pubkey>,
}

/// Assembles the transaction of one batch at `current_slot`.
///
/// Outside the active phase of the epoch nothing may be submitted and the
/// answer is `NotInActivePhase`. Inside it the transaction holds the compute
/// unit limit of the settings first and the instructions of the batch after
/// it, in their order, each as the ledger takes it. The forester's payer
/// pays for it and is its only signer.
pub fn process_transaction_batch(
    protocol_config: &ProtocolConfig,
    config: &ForesterConfig,
    epoch_info: &ForesterEpochInfo,
    current_slot: u64,
    instructions: &Vec<ForesterInstruction>,
) -> (transaction: Result<BatchTransaction, ForesterError>)
    requires
        protocol_config.epochs_defined(),
    ensures
        match transaction {
            Ok(tx) => protocol_config.spec_in_active_phase(current_slot, epoch_info.epoch.epoch)
                && is_transaction_of(tx.instructions@, config.cu_limit, instructions@) && tx.payer
                == config.payer && tx.signers@ == seq![config.payer],
            Err(error) => !protocol_config.spec_in_active_phase(
                current_slot,
                epoch_info.epoch.epoch,
            ) && error == ForesterError::NotInActivePhase,
        },
{
    if !is_in_active_phase(protocol_config, current_slot, epoch_info.epoch.epoch) {
        return Err(ForesterError::NotInActivePhase);
    }
    let mut signers: Vec<Pubkey> = Vec::new();
    signers.push(config.payer);
    assert(signers@ =~= seq![config.payer]);
    Ok(
        BatchTransaction {
            instructions: encode_transaction(config.cu_limit, instructions),
            payer: config.payer,
            signers,
        },
    )
}

/// Concludes the submission of one batch. A confirmed batch returns its
/// signature, and the indexer is told of each work item that has a witness,
/// in their order. A batch that was not confirmed returns its error, and the
/// indexer is told nothing.
pub fn conclude_transaction_batch(
    submitted: Result<Signature, ForesterError>,
    work_items: &Vec<WorkItem>,
    proofs: &Vec<Proof>,
) -> (concluded: (Result<Signature, ForesterError>, Vec<IndexerUpdate>))
    ensures
        concluded.0 == submitted,
        submitted.is_err() ==> concluded.1@.len() == 0,
        submitted.is_ok() ==> concluded.1@.len() == min_len(
            work_items@.len() as int,
            proofs@.len() as int,
        ),
        submitted.is_ok() ==> forall|i: int|
            0 <= i < concluded.1@.len() ==> is_indexer_update_for(
                #[trigger] concluded.1@[i],
                work_items@[i],
                proofs@[i],
            ),
{
    match submitted {
        Ok(signature) => (Ok(signature), update_indexer(work_items, proofs)),
        Err(error) => (Err(error), Vec::new()),
    }
}

/// Where no slot number of the epoch is capped, a slot at or after the end of
/// the active phase of an epoch is not in that phase, so no transaction is
/// assembled for it.
pub proof fn lemma_nothing_submitted_after_active_phase(
    protocol_config: ProtocolConfig,
    slot: u64,
    epoch: u64,
)
    requires
        protocol_config.epochs_defined(),
        protocol_config.genesis_slot + protocol_config.registration_phase_length + (epoch + 1)
            * protocol_config.active_phase_length <= u64::MAX,
        slot >= spec_epoch_phases(protocol_config, epoch).active.end,
    ensures
        !protocol_config.spec_in_active_phase(slot, epoch),
{
    lemma_active_phase_is_active_span(protocol_config, slot, epoch);
}

/// The delays of a batch whose submissions fail one after another: the batch
/// is found eligible, its submission fails, and it sleeps, once for each
/// random addition in `jitters`.
pub open spec fn spec_delays_of_failures(
    state: BatchRetryState,
    error: ForesterError,
    jitters: Seq<u64>,
) -> Seq<u64>
    decreases jitters.len(),
{
    if jitters.len() == 0 {
        Seq::empty()
    } else {
        let checked = state.spec_on_eligibility(Ok(())).0;
        let (failed, action) = checked.spec_on_submission(Err(error), jitters[0]);
        let millis = match action {
            BatchAction::Sleep { millis } => millis,
            _ => 0,
        };
        seq![millis] + spec_delays_of_failures(failed.spec_on_slept().0, error, jitters.drop_first())
    }
}

/// A transaction is submitted only on the oracle's word: the one transition
/// that asks for a submission is the answer to an eligibility check that
/// found the forester eligible.
pub proof fn lemma_submit_only_when_eligible(state: BatchRetryState, event: BatchEvent, jitter: u64)
    ensures
        (state.spec_step(event, jitter) matches Some((_, BatchAction::Submit))) ==> (state.phase
            == BatchPhase::CheckingEligibility && event matches BatchEvent::Eligibility {
            verdict: Ok(_),
        }),
        (state.phase == BatchPhase::CheckingEligibility && event matches BatchEvent::Eligibility {
            verdict: Err(_),
        }) ==> (state.spec_step(event, jitter) matches Some((after, action)) && after.phase
            == BatchPhase::Finished && !(action is Submit)),
{
}

/// A batch is confirmed at most once: the transition that confirms it ends
/// it, and a finished batch accepts no further event.
pub proof fn lemma_confirmed_ends_the_batch(state: BatchRetryState, event: BatchEvent, jitter: u64)
    ensures
        state.spec_step(event, jitter) matches Some((after, BatchAction::Confirmed { signature }))
            ==> (after.phase == BatchPhase::Finished && event == (BatchEvent::Submission {
            result: Ok(signature),
        })),
        state.phase == BatchPhase::Finished ==> state.spec_step(event, jitter) is None,
{
}

/// Every transition keeps the failure count within the allowed retries.
pub proof fn lemma_step_keeps_well_formed(state: BatchRetryState, event: BatchEvent, jitter: u64)
    requires
        state.well_formed(),
    ensures
        state.spec_step(event, jitter) matches Some((after, _)) ==> (after.well_formed()
            && after.max_retries == state.max_retries),
{
}

/// The delays of a batch that keeps failing: the delay before retry `k` is
/// the base delay times two to the `k` plus the `k`-th
/// random addition, for as many retries as are allowed.
pub proof fn lemma_retry_delays(state: BatchRetryState, error: ForesterError, jitters: Seq<u64>)
    requires
        state.retries + jitters.len() <= state.max_retries,
        !(error is NotInActivePhase),
    ensures
        spec_delays_of_failures(state, error, jitters).len() == jitters.len(),
        forall|k: int|
            0 <= k < jitters.len() ==> #[trigger] spec_delays_of_failures(state, error, jitters)[k]
                == spec_retry_delay_ms((state.retries + k) as nat, jitters[k]),
    decreases jitters.len(),
{
    if jitters.len() > 0 {
        let checked = state.spec_on_eligibility(Ok(())).0;
        let (failed, action) = checked.spec_on_submission(Err(error), jitters[0]);
        let rest = jitters.drop_first();
        let next = failed.spec_on_slept().0;
        assert(next.retries == state.retries + 1);
        assert(next.max_retries == state.max_retries);
        lemma_retry_delays(next, error, rest);
        let all = spec_delays_of_failures(state, error, jitters);
        let tail = spec_delays_of_failures(next, error, rest);
        assert(all =~= seq![spec_retry_delay_ms(state.retries as nat, jitters[0])] + tail);
        assert forall|k: int| 0 <= k < jitters.len() implies #[trigger] all[k]
            == spec_retry_delay_ms((state.retries + k) as nat, jitters[k]) by {
            if k > 0 {
                assert(all[k] == tail[k - 1]);
                assert(rest[k - 1] == jitters[k]);
            }
        }
    }
}

/// The answer that the active phase is over is a signal to stop, not a
/// failure: the batch ends at once, asks for no delay, and hands on no error.
pub proof fn lemma_end_of_active_phase_stops_the_batch(state: BatchRetryState, jitter: u64)
    ensures
        state.spec_on_submission(Err(ForesterError::NotInActivePhase), jitter).1
            == BatchAction::Stopped,
        state.spec_on_submission(Err(ForesterError::NotInActivePhase), jitter).0.phase
            == BatchPhase::Finished,
        state.spec_on_submission(Err(ForesterError::NotInActivePhase), jitter).0.retries
            == state.retries,
{
}

/// Once the allowed retries are used up, the next failed submission ends the
/// batch with that failure and no further delay.
pub proof fn lemma_failure_after_last_retry(state: BatchRetryState, error: ForesterError, jitter: u64)
    requires
        state.phase == BatchPhase::Submitting,
        state.retries == state.max_retries,
        !(error is NotInActivePhase),
    ensures
        state.spec_on_submission(Err(error), jitter).1 == (BatchAction::Failed { error }),
        state.spec_on_submission(Err(error), jitter).0.phase == BatchPhase::Finished,
{
}

} // verus!
