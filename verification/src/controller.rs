use vstd::prelude::*;
use crate::counter::{spec_count, ProcessedCounter};
use crate::eligibility::{Epoch, ForesterEpochInfo, ForesterEpochPda};
use crate::protocol::{get_epoch_phases, spec_epoch_phases, EpochPhases, ProtocolConfig};
use crate::types::{ForesterError, TreeAccounts, WorkReport};

verus! {

/// Where a controller stands in the life of its epoch.
#[derive(Clone, Copy, Debug, PartialEq, Eq, Structural)]
pub enum ControllerPhase {
    /// Waiting for the current slot, to see whether registration is still open.
    Created,
    /// Waiting for the registration transaction and the read-back of its record.
    Registering,
    /// Waiting for the active phase to start.
    WaitingForActive,
    /// Waiting for the registration to be finalised and the schedules derived.
    Finalizing,
    /// Waiting for the active work to end.
    Working,
    /// Waiting for the report phase to start.
    WaitingForReport,
    /// Waiting for the report transaction.
    Reporting,
    /// Waiting for the work report to be delivered.
    Publishing,
    /// The work report has been delivered.
    Done,
    /// The controller has given up on its epoch.
    Failed,
}

/// The state machine that takes a forester through one epoch.
#[derive(Clone, Copy, Debug, PartialEq, Eq)]
pub struct EpochController {
    pub epoch: u64,
    pub phases: EpochPhases,
    pub phase: ControllerPhase,
}

/// What the driver of a controller reports back.
#[derive(Debug, PartialEq, Eq)]
pub enum ControllerEvent {
    SlotRead { slot: u64 },
    Registered { result: Result<(), ForesterError> },
    SlotReached { result: Result<(), ForesterError> },
    RegistrationFinalized { result: Result<(), ForesterError> },
    WorkPerformed { result: Result<(), ForesterError> },
    ReportSubmitted { result: Result<(), ForesterError> },
    ReportPublished { result: Result<(), ForesterError> },
}

/// What the driver of a controller has to do next.
#[derive(Debug, PartialEq, Eq)]
pub enum ControllerAction {
    /// Read the current slot from the ledger.
    ReadSlot,
    /// Submit the registration and read the registration record back.
    SubmitRegistration,
    /// Sleep until the ledger has reached this slot.
    WaitUntil { slot: u64 },
    /// Submit the finalisation, read the record again, derive the schedules.
    FinalizeRegistration,
    /// Drain the queues until the active phase ends, then sweep for rollovers.
    PerformWork,
    /// Submit the report of work.
    SubmitReport,
    /// Hand this report to the reporting channel.
    Publish { report: WorkReport },
    /// The epoch is complete.
    Finish,
    /// Log this error and end the epoch.
    Terminate { error: ForesterError },
}

/// Registration for an epoch is open while the slot lies before the end of
/// its registration phase.
pub open spec fn spec_registration_open(phases: EpochPhases, slot: u64) -> bool {
    slot < phases.registration.end
}

/// Decides whether the forester may still register: `RegistrationTooLate`
/// once the slot has reached the end of the registration phase.
pub fn register_for_epoch(phases: &EpochPhases, slot: u64) -> (outcome: Result<(), ForesterError>)
    ensures
        outcome.is_ok() == spec_registration_open(*phases, slot),
        outcome.is_err() ==> outcome == Err::<(), ForesterError>(
            ForesterError::RegistrationTooLate,
        ),
{
    if slot < phases.registration.end {
        Ok(())
    } else {
        Err(ForesterError::RegistrationTooLate)
    }
}

/// The epoch that a registration has opened. A registration that opened
/// none is an error, and a failed one hands its error on.
pub fn registered_epoch(registered: Result<Option<Epoch>, ForesterError>) -> (opened: Result<
    Epoch,
    ForesterError,
>)
    ensures
        match registered {
            Ok(Some(epoch)) => opened == Ok::<Epoch, ForesterError>(epoch),
            Ok(None) => opened matches Err(ForesterError::Custom(message)) && message@
                == "Epoch::register returned None"@,
            Err(error) => opened == Err::<Epoch, ForesterError>(error),
        },
{
    match registered {
        Ok(Some(epoch)) => Ok(epoch),
        Ok(None) => Err(ForesterError::Custom("Epoch::register returned None".to_owned())),
        Err(error) => Err(error),
    }
}

/// The working state of an epoch after registration: the epoch that was
/// opened, the registration record as it was read back, and no trees yet. A
/// record that is missing is an error, and a failed read hands its error on.
pub fn registration_info(
    epoch: Epoch,
    record: Result<Option<ForesterEpochPda>, ForesterError>,
) -> (info: Result<ForesterEpochInfo, ForesterError>)
    ensures
        match record {
            Ok(Some(pda)) => info matches Ok(i) && i.epoch == epoch && i.epoch_pda == pda
                && i.trees@.len() == 0,
            Ok(None) => info matches Err(ForesterError::Custom(message)) && message@
                == "Failed to get ForesterEpochPda: returned None"@,
            Err(error) => info == Err::<ForesterEpochInfo, ForesterError>(error),
        },
{
    match record {
        Ok(Some(pda)) => Ok(ForesterEpochInfo { epoch, epoch_pda: pda, trees: Vec::new() }),
        Ok(None) => Err(
            ForesterError::Custom("Failed to get ForesterEpochPda: returned None".to_owned()),
        ),
        Err(error) => Err(error),
    }
}

/// The registration record is one that schedules can be derived from.
pub open spec fn spec_record_is_final(pda: ForesterEpochPda) -> bool {
    &&& pda.protocol_config.slot_length != 0
    &&& pda.total_epoch_weight matches Some(weight) && weight != 0
    &&& pda.forester_index + pda.weight <= u64::MAX
}

/// The working state of an epoch at the start of its active phase: the same
/// epoch, the registration record as it was read again after finalisation,
/// the schedules that were there, and after them one schedule for each of
/// `trees`, in their order, derived from that record. A record that is
/// missing or not final is an error, and a failed read hands its error on.
pub fn active_epoch_info(
    epoch_info: ForesterEpochInfo,
    record: Result<Option<ForesterEpochPda>, ForesterError>,
    trees: &Vec<TreeAccounts>,
) -> (info: Result<ForesterEpochInfo, ForesterError>)
    ensures
        match record {
            Ok(Some(pda)) => if spec_record_is_final(pda) {
                info matches Ok(i) && i.epoch == epoch_info.epoch && i.epoch_pda == pda
                    && i.trees@.len() == epoch_info.trees@.len() + trees@.len() && (forall|k: int|
                    0 <= k < epoch_info.trees@.len() ==> #[trigger] i.trees@[k]
                        == epoch_info.trees@[k]) && (forall|k: int|
                    0 <= k < trees@.len() ==> (#[trigger] i.trees@[epoch_info.trees@.len()
                        + k]).derived_from(trees@[k], pda, pda.total_epoch_weight.unwrap()))
            } else {
                info matches Err(ForesterError::Custom(message)) && message@
                    == "ForesterEpochPda is not final"@
            },
            Ok(None) => info matches Err(ForesterError::Custom(message)) && message@
                == "Failed to get ForesterEpochPda"@,
            Err(error) => info == Err::<ForesterEpochInfo, ForesterError>(error),
        },
{
    match record {
        Ok(Some(pda)) => {
            let mut next = ForesterEpochInfo {
                epoch: epoch_info.epoch,
                epoch_pda: pda,
                trees: epoch_info.trees,
            };
            if next.is_ready_for_schedules() {
                next.add_trees_with_schedule(trees);
                Ok(next)
            } else {
                Err(ForesterError::Custom("ForesterEpochPda is not final".to_owned()))
            }
        },
        Ok(None) => Err(ForesterError::Custom("Failed to get ForesterEpochPda".to_owned())),
        Err(error) => Err(error),
    }
}

/// The slot that a registered forester waits for before it finalises.
pub fn wait_for_active_phase(phases: &EpochPhases) -> (slot: u64)
    ensures
        slot == phases.active.start,
{
    phases.active.start
}

/// The slot that a forester waits for before it reports.
pub fn wait_for_report_work_phase(phases: &EpochPhases) -> (slot: u64)
    ensures
        slot == phases.report_work.start,
{
    phases.report_work.start
}

/// The report of an epoch: the tally of that epoch at the time of reporting.
pub fn report_work(epoch: u64, counter: &ProcessedCounter) -> (report: WorkReport)
    ensures
        report.epoch == epoch,
        report.processed_items == spec_count(counter@, epoch),
{
    WorkReport { epoch, processed_items: counter.get_processed_items_count(epoch) }
}

impl EpochController {
    /// The controller of `epoch` before anything has happened.
    pub open spec fn initial(protocol_config: ProtocolConfig, epoch: u64) -> EpochController {
        EpochController {
            epoch,
            phases: spec_epoch_phases(protocol_config, epoch),
            phase: ControllerPhase::Created,
        }
    }

    /// The controller gives up with `error`.
    pub open spec fn failed(self, error: ForesterError) -> (EpochController, ControllerAction) {
        (
            EpochController { phase: ControllerPhase::Failed, ..self },
            ControllerAction::Terminate { error },
        )
    }

    /// The controller moves on to `phase` and asks for `action`.
    pub open spec fn advanced(self, phase: ControllerPhase, action: ControllerAction) -> (
        EpochController,
        ControllerAction,
    ) {
        (EpochController { phase, ..self }, action)
    }

    /// One transition of the controller, or none where the event does not
    /// answer what the controller is waiting for. `processed_items` is the
    /// tally of the epoch at the time of the event. Every failure ends the
    /// epoch; phases are passed in order and never revisited.
    pub open spec fn spec_step(self, event: ControllerEvent, processed_items: usize) -> Option<
        (EpochController, ControllerAction),
    > {
        match (self.phase, event) {
            (ControllerPhase::Created, ControllerEvent::SlotRead { slot }) => Some(
                if spec_registration_open(self.phases, slot) {
                    self.advanced(ControllerPhase::Registering, ControllerAction::SubmitRegistration)
                } else {
                    self.failed(ForesterError::RegistrationTooLate)
                },
            ),
            (ControllerPhase::Registering, ControllerEvent::Registered { result }) => Some(
                match result {
                    Ok(()) => self.advanced(
                        ControllerPhase::WaitingForActive,
                        ControllerAction::WaitUntil { slot: self.phases.active.start },
                    ),
                    Err(error) => self.failed(error),
                },
            ),
            (ControllerPhase::WaitingForActive, ControllerEvent::SlotReached { result }) => Some(
                match result {
                    Ok(()) => self.advanced(
                        ControllerPhase::Finalizing,
                        ControllerAction::FinalizeRegistration,
                    ),
                    Err(error) => self.failed(error),
                },
            ),
            (ControllerPhase::Finalizing, ControllerEvent::RegistrationFinalized { result }) => Some(
                match result {
                    Ok(()) => self.advanced(ControllerPhase::Working, ControllerAction::PerformWork),
                    Err(error) => self.failed(error),
                },
            ),
            (ControllerPhase::Working, ControllerEvent::WorkPerformed { result }) => Some(
                match result {
                    Ok(()) => self.advanced(
                        ControllerPhase::WaitingForReport,
                        ControllerAction::WaitUntil { slot: self.phases.report_work.start },
                    ),
                    Err(error) => self.failed(error),
                },
            ),
            (ControllerPhase::WaitingForReport, ControllerEvent::SlotReached { result }) => Some(
                match result {
                    Ok(()) => self.advanced(ControllerPhase::Reporting, ControllerAction::SubmitReport),
                    Err(error) => self.failed(error),
                },
            ),
            (ControllerPhase::Reporting, ControllerEvent::ReportSubmitted { result }) => Some(
                match result {
                    Ok(()) => self.advanced(
                        ControllerPhase::Publishing,
                        ControllerAction::Publish {
                            report: WorkReport { epoch: self.epoch, processed_items },
                        },
                    ),
                    Err(error) => self.failed(error),
                },
            ),
            (ControllerPhase::Publishing, ControllerEvent::ReportPublished { result }) => Some(
                match result {
                    Ok(()) => self.advanced(ControllerPhase::Done, ControllerAction::Finish),
                    Err(error) => self.failed(error),
                },
            ),
            _ => None,
        }
    }

    /// Opens the controller of `epoch`. The first thing to do is to read the
    /// current slot.
    pub fn new(protocol_config: &ProtocolConfig, epoch: u64) -> (opened: (
        EpochController,
        ControllerAction,
    ))
        ensures
            opened.0 == EpochController::initial(*protocol_config, epoch),
            opened.1 == ControllerAction::ReadSlot,
    {
        (
            EpochController {
                epoch,
                phases: get_epoch_phases(protocol_config, epoch),
                phase: ControllerPhase::Created,
            },
            ControllerAction::ReadSlot,
        )
    }

    fn fail(self, error: ForesterError) -> (next: (EpochController, ControllerAction))
        ensures
            next == self.failed(error),
    {
        (
            EpochController { epoch: self.epoch, phases: self.phases, phase: ControllerPhase::Failed },
            ControllerAction::Terminate { error },
        )
    }

    fn advance(self, phase: ControllerPhase, action: ControllerAction) -> (next: (
        EpochController,
        ControllerAction,
    ))
        ensures
            next == self.advanced(phase, action),
    {
        (EpochController { epoch: self.epoch, phases: self.phases, phase }, action)
    }

    fn advance_or_fail(
        self,
        result: Result<(), ForesterError>,
        phase: ControllerPhase,
        action: ControllerAction,
    ) -> (next: (EpochController, ControllerAction))
        ensures
            next == match result {
                Ok(()) => self.advanced(phase, action),
                Err(error) => self.failed(error),
            },
    {
        match result {
            Ok(()) => self.advance(phase, action),
            Err(error) => self.fail(error),
        }
    }

    /// Feeds one event to the controller. An event that does not answer what
    /// the controller is waiting for is refused and changes nothing.
    pub fn process_epoch(self, event: ControllerEvent, counter: &ProcessedCounter) -> (next: Option<
        (EpochController, ControllerAction),
    >)
        ensures
            next == self.spec_step(event, spec_count(counter@, self.epoch)),
    {
        match (self.phase, event) {
            (ControllerPhase::Created, ControllerEvent::SlotRead { slot }) => {
                match register_for_epoch(&self.phases, slot) {
                    Ok(()) => Some(
                        self.advance(
                            ControllerPhase::Registering,
                            ControllerAction::SubmitRegistration,
                        ),
                    ),
                    Err(error) => Some(self.fail(error)),
                }
            },
            (ControllerPhase::Registering, ControllerEvent::Registered { result }) => {
                let slot = wait_for_active_phase(&self.phases);
                Some(
                    self.advance_or_fail(
                        result,
                        ControllerPhase::WaitingForActive,
                        ControllerAction::WaitUntil { slot },
                    ),
                )
            },
            (ControllerPhase::WaitingForActive, ControllerEvent::SlotReached { result }) => Some(
                self.advance_or_fail(
                    result,
                    ControllerPhase::Finalizing,
                    ControllerAction::FinalizeRegistration,
                ),
            ),
            (ControllerPhase::Finalizing, ControllerEvent::RegistrationFinalized { result }) => Some(
                self.advance_or_fail(result, ControllerPhase::Working, ControllerAction::PerformWork),
            ),
            (ControllerPhase::Working, ControllerEvent::WorkPerformed { result }) => {
                let slot = wait_for_report_work_phase(&self.phases);
                Some(
                    self.advance_or_fail(
                        result,
                        ControllerPhase::WaitingForReport,
                        ControllerAction::WaitUntil { slot },
                    ),
                )
            },
            (ControllerPhase::WaitingForReport, ControllerEvent::SlotReached { result }) => Some(
                self.advance_or_fail(
                    result,
                    ControllerPhase::Reporting,
                    ControllerAction::SubmitReport,
                ),
            ),
            (ControllerPhase::Reporting, ControllerEvent::ReportSubmitted { result }) => {
                let report = report_work(self.epoch, counter);
                Some(
                    self.advance_or_fail(
                        result,
                        ControllerPhase::Publishing,
                        ControllerAction::Publish { report },
                    ),
                )
            },
            (ControllerPhase::Publishing, ControllerEvent::ReportPublished { result }) => Some(
                self.advance_or_fail(result, ControllerPhase::Done, ControllerAction::Finish),
            ),
            _ => None,
        }
    }
}

/// One observation of a driver: an event and the tally of the epoch at the
/// time of the event.
pub struct Observation {
    pub event: ControllerEvent,
    pub processed_items: usize,
}

/// The controller after a run of observations. Refused events change nothing.
pub open spec fn spec_run_state(start: EpochController, run: Seq<Observation>) -> EpochController
    decreases run.len(),
{
    if run.len() == 0 {
        start
    } else {
        let before = spec_run_state(start, run.drop_last());
        match before.spec_step(run.last().event, run.last().processed_items) {
            Some((after, _)) => after,
            None => before,
        }
    }
}

/// The actions that a run of observations asks for, in order.
pub open spec fn spec_run_actions(start: EpochController, run: Seq<Observation>) -> Seq<
    ControllerAction,
>
    decreases run.len(),
{
    if run.len() == 0 {
        Seq::empty()
    } else {
        let before = spec_run_state(start, run.drop_last());
        let actions = spec_run_actions(start, run.drop_last());
        match before.spec_step(run.last().event, run.last().processed_items) {
            Some((_, action)) => actions.push(action),
            None => actions,
        }
    }
}

/// Number of reports among the actions.
pub open spec fn spec_reports(actions: Seq<ControllerAction>) -> nat
    decreases actions.len(),
{
    if actions.len() == 0 {
        0
    } else {
        spec_reports(actions.drop_last()) + if actions.last() is Publish {
            1nat
        } else {
            0nat
        }
    }
}

/// Number of terminations among the actions.
pub open spec fn spec_terminations(actions: Seq<ControllerAction>) -> nat
    decreases actions.len(),
{
    if actions.len() == 0 {
        0
    } else {
        spec_terminations(actions.drop_last()) + if actions.last() is Terminate {
            1nat
        } else {
            0nat
        }
    }
}

/// The controller has neither handed out its report nor failed.
pub open spec fn before_report(phase: ControllerPhase) -> bool {
    phase != ControllerPhase::Publishing && phase != ControllerPhase::Done && phase
        != ControllerPhase::Failed
}

/// Whatever the driver observes, a controller that starts at the beginning
/// of its epoch hands out at most one work report and terminates with an
/// error at most once. It is done exactly when it has handed out its report
/// and has not terminated; it has failed exactly when it has terminated.
/// Every report it hands out names its own epoch.
pub proof fn lemma_one_report_or_one_error(start: EpochController, run: Seq<Observation>)
    requires
        start.phase == ControllerPhase::Created,
    ensures
        spec_reports(spec_run_actions(start, run)) <= 1,
        spec_terminations(spec_run_actions(start, run)) <= 1,
        spec_run_state(start, run).epoch == start.epoch,
        spec_run_state(start, run).phases == start.phases,
        spec_run_state(start, run).phase == ControllerPhase::Failed <==> spec_terminations(
            spec_run_actions(start, run),
        ) == 1,
        spec_run_state(start, run).phase == ControllerPhase::Done ==> spec_reports(
            spec_run_actions(start, run),
        ) == 1 && spec_terminations(spec_run_actions(start, run)) == 0,
        before_report(spec_run_state(start, run).phase) ==> spec_reports(
            spec_run_actions(start, run),
        ) == 0,
        spec_run_state(start, run).phase == ControllerPhase::Publishing ==> spec_reports(
            spec_run_actions(start, run),
        ) == 1,
        forall|i: int|
            0 <= i < spec_run_actions(start, run).len() ==> (#[trigger] spec_run_actions(
                start,
                run,
            )[i] matches ControllerAction::Publish { report } ==> report.epoch == start.epoch),
    decreases run.len(),
{
    if run.len() > 0 {
        let shorter = run.drop_last();
        lemma_one_report_or_one_error(start, shorter);
        let before = spec_run_state(start, shorter);
        let actions = spec_run_actions(start, shorter);
        match before.spec_step(run.last().event, run.last().processed_items) {
            Some((after, action)) => {
                let all = actions.push(action);
                assert(all.drop_last() =~= actions);
                assert(all.last() == action);
                assert(spec_run_actions(start, run) == all);
                assert forall|i: int| 0 <= i < all.len() implies (#[trigger] all[i]
                    matches ControllerAction::Publish { report } ==> report.epoch
                    == start.epoch) by {
                    if i < actions.len() {
                        assert(all[i] == actions[i]);
                    }
                }
            },
            None => {},
        }
    }
}

/// A controller that finds registration closed ends at once: it fails with
/// `RegistrationTooLate`, and nothing it observes afterwards makes it hand
/// out a report.
pub proof fn lemma_late_registration_reports_nothing(
    start: EpochController,
    slot: u64,
    processed_items: usize,
)
    requires
        start.phase == ControllerPhase::Created,
        slot >= start.phases.registration.end,
    ensures
        start.spec_step(ControllerEvent::SlotRead { slot }, processed_items) == Some(
            start.failed(ForesterError::RegistrationTooLate),
        ),
        forall|event: ControllerEvent, count: usize|
            (#[trigger] start.failed(ForesterError::RegistrationTooLate).0.spec_step(event, count))
                is None,
{
}

} // verus!
