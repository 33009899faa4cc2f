use vstd::prelude::*;
use crate::eligibility::{ForesterEpochInfo, TreeForesterSchedule};
use crate::protocol::{is_in_active_phase, ProtocolConfig};
use crate::rollover::{perform_rollover, spec_sweep_decision, RolloverReading, SweepDecision};
use crate::types::{ForesterError, Pubkey};

verus! {

/// A notice that a work queue has changed.
#[derive(Clone, Copy, Debug, PartialEq, Eq)]
pub struct QueueUpdate {
    pub pubkey: Pubkey,
    pub slot: u64,
}

/// What the react loop does with one queue update.
#[derive(Clone, Copy, Debug, PartialEq, Eq)]
pub enum UpdateDecision {
    /// The update belongs to a slot at or after the end of the active phase:
    /// leave the loop without draining.
    Stop,
    /// Drain the queue in a task of its own, then leave the loop because the
    /// active phase is over by the estimate.
    SpawnThenStop { queue: Pubkey },
    /// Drain the queue in a task of its own and wait for the next update.
    SpawnThenListen { queue: Pubkey },
}

/// What the react loop does with an update: nothing for an update of a slot
/// at or after the end of the active phase; otherwise a drainer is started,
/// and the loop goes on only while the estimate lies before that end.
pub open spec fn spec_on_queue_update(
    active_phase_end: u64,
    update: QueueUpdate,
    estimated_slot: u64,
) -> UpdateDecision {
    if update.slot >= active_phase_end {
        UpdateDecision::Stop
    } else if estimated_slot >= active_phase_end {
        UpdateDecision::SpawnThenStop { queue: update.pubkey }
    } else {
        UpdateDecision::SpawnThenListen { queue: update.pubkey }
    }
}

/// Decides what the react loop does with `update`, given the end of the
/// active phase and the slot estimated after the update was taken.
pub fn on_queue_update(active_phase_end: u64, update: &QueueUpdate, estimated_slot: u64) -> (decision:
    UpdateDecision)
    ensures
        decision == spec_on_queue_update(active_phase_end, *update, estimated_slot),
{
    if update.slot >= active_phase_end {
        UpdateDecision::Stop
    } else if estimated_slot >= active_phase_end {
        UpdateDecision::SpawnThenStop { queue: update.pubkey }
    } else {
        UpdateDecision::SpawnThenListen { queue: update.pubkey }
    }
}

/// Where the active work of an epoch stands.
#[derive(Clone, Copy, Debug, PartialEq, Eq, Structural)]
pub enum ActiveWorkPhase {
    /// Waiting for the initial drain of the queue of this tree.
    Draining { tree: usize },
    /// Waiting for the subscription to queue updates.
    Subscribing,
    /// Waiting for the next queue update.
    Reacting,
    /// Waiting for a drainer task to be started.
    Spawning { listen: bool },
    /// Waiting for the subscription to be shut down.
    ShuttingDown,
    /// Waiting for the capacity of this tree to be read.
    Reading { tree: usize },
    /// Waiting for the rollover of this tree.
    RollingOver { tree: usize },
    /// The result has been handed out.
    Finished,
}

/// The progress of the active work of one epoch.
#[derive(Clone, Copy, Debug, PartialEq, Eq)]
pub struct ActiveWork {
    pub phase: ActiveWorkPhase,
    /// Number of trees of the epoch.
    pub tree_count: usize,
    pub active_phase_end: u64,
}

/// What the driver of the active work reports back.
#[derive(Debug, PartialEq, Eq)]
pub enum ActiveWorkEvent {
    QueueDrained { result: Result<(), ForesterError> },
    Subscribed { result: Result<(), ForesterError> },
    Update { update: QueueUpdate, estimated_slot: u64 },
    SubscriptionEnded,
    Spawned,
    ShutDown,
    CapacityRead { reading: Result<RolloverReading, ForesterError> },
    RolledOver { result: Result<(), ForesterError> },
}

/// What the driver of the active work has to do next.
#[derive(Debug, PartialEq, Eq)]
pub enum ActiveWorkAction {
    /// Drain the queue of this tree and await the drain.
    DrainQueue { tree: usize },
    /// Subscribe to the updates of the queues of the epoch.
    Subscribe,
    /// Wait for the next queue update or the end of the subscription.
    AwaitUpdate,
    /// Start a detached task that drains this queue.
    SpawnDrainer { queue: Pubkey },
    /// Tell the subscription to shut down; a failure to do so is ignored.
    Shutdown,
    /// Read the rollover state and next index of this tree.
    ReadCapacity { tree: usize },
    /// Roll this tree over as the decision says.
    Rollover { tree: usize, decision: SweepDecision },
    /// Return this result.
    Finish { result: Result<(), ForesterError> },
}

impl ActiveWork {
    /// The initial drain goes on with the queue of tree `tree`, or with the
    /// subscription when every queue has been drained.
    pub open spec fn spec_drain_from(self, tree: int) -> (ActiveWork, ActiveWorkAction) {
        if tree < self.tree_count {
            (
                ActiveWork { phase: ActiveWorkPhase::Draining { tree: tree as usize }, ..self },
                ActiveWorkAction::DrainQueue { tree: tree as usize },
            )
        } else {
            (ActiveWork { phase: ActiveWorkPhase::Subscribing, ..self }, ActiveWorkAction::Subscribe)
        }
    }

    /// The sweep goes on with tree `tree`, or ends cleanly when every tree
    /// has been looked at.
    pub open spec fn spec_sweep_from(self, tree: int) -> (ActiveWork, ActiveWorkAction) {
        if tree < self.tree_count {
            (
                ActiveWork { phase: ActiveWorkPhase::Reading { tree: tree as usize }, ..self },
                ActiveWorkAction::ReadCapacity { tree: tree as usize },
            )
        } else {
            (
                ActiveWork { phase: ActiveWorkPhase::Finished, ..self },
                ActiveWorkAction::Finish { result: Ok(()) },
            )
        }
    }

    /// The react loop is left and the subscription shut down.
    pub open spec fn spec_shut_down(self) -> (ActiveWork, ActiveWorkAction) {
        (ActiveWork { phase: ActiveWorkPhase::ShuttingDown, ..self }, ActiveWorkAction::Shutdown)
    }

    /// The react loop waits for the next update.
    pub open spec fn spec_listen(self) -> (ActiveWork, ActiveWorkAction) {
        (ActiveWork { phase: ActiveWorkPhase::Reacting, ..self }, ActiveWorkAction::AwaitUpdate)
    }

    /// One transition of the active work, or none where the event does not
    /// answer what the work is waiting for.
    ///
    /// The initial drain visits every queue, whether the drain of a queue
    /// succeeded or not. A failed subscription ends the work with its error.
    /// The react loop starts a drainer for each update of a slot before the
    /// end of the active phase and stops at the first update of a later slot,
    /// at the end of the subscription, or once the estimate has reached the
    /// end of the phase. The sweep then looks at every tree: a tree whose
    /// capacity cannot be read is passed over, a tree that is due is rolled
    /// over, and a failed rollover does not stop the sweep. After the sweep
    /// the work ends cleanly.
    pub open spec fn spec_step(
        self,
        event: ActiveWorkEvent,
        trees: Seq<TreeForesterSchedule>,
    ) -> Option<(ActiveWork, ActiveWorkAction)> {
        match (self.phase, event) {
            (ActiveWorkPhase::Draining { tree }, ActiveWorkEvent::QueueDrained { result }) => if tree
                < self.tree_count {
                Some(self.spec_drain_from(tree + 1))
            } else {
                None
            },
            (ActiveWorkPhase::Subscribing, ActiveWorkEvent::Subscribed { result }) => Some(
                match result {
                    Ok(()) => self.spec_listen(),
                    Err(error) => (
                        ActiveWork { phase: ActiveWorkPhase::Finished, ..self },
                        ActiveWorkAction::Finish { result: Err(error) },
                    ),
                },
            ),
            (ActiveWorkPhase::Reacting, ActiveWorkEvent::Update { update, estimated_slot }) => Some(
                match spec_on_queue_update(self.active_phase_end, update, estimated_slot) {
                    UpdateDecision::Stop => self.spec_shut_down(),
                    UpdateDecision::SpawnThenStop { queue } => (
                        ActiveWork { phase: ActiveWorkPhase::Spawning { listen: false }, ..self },
                        ActiveWorkAction::SpawnDrainer { queue },
                    ),
                    UpdateDecision::SpawnThenListen { queue } => (
                        ActiveWork { phase: ActiveWorkPhase::Spawning { listen: true }, ..self },
                        ActiveWorkAction::SpawnDrainer { queue },
                    ),
                },
            ),
            (ActiveWorkPhase::Reacting, ActiveWorkEvent::SubscriptionEnded) => Some(
                self.spec_shut_down(),
            ),
            (ActiveWorkPhase::Spawning { listen }, ActiveWorkEvent::Spawned) => Some(
                if listen {
                    self.spec_listen()
                } else {
                    self.spec_shut_down()
                },
            ),
            (ActiveWorkPhase::ShuttingDown, ActiveWorkEvent::ShutDown) => Some(
                self.spec_sweep_from(0),
            ),
            (ActiveWorkPhase::Reading { tree }, ActiveWorkEvent::CapacityRead { reading }) => if tree
                < self.tree_count && tree < trees.len() {
                Some(
                    match reading {
                        Ok(r) => {
                            let decision = spec_sweep_decision(
                                trees[tree as int].tree_accounts.tree_type,
                                r.rolledover_slot,
                                r.rollover_threshold,
                                r.next_index,
                            );
                            if decision == SweepDecision::Leave {
                                self.spec_sweep_from(tree + 1)
                            } else {
                                (
                                    ActiveWork {
                                        phase: ActiveWorkPhase::RollingOver { tree },
                                        ..self
                                    },
                                    ActiveWorkAction::Rollover { tree, decision },
                                )
                            }
                        },
                        Err(_) => self.spec_sweep_from(tree + 1),
                    },
                )
            } else {
                None
            },
            (ActiveWorkPhase::RollingOver { tree }, ActiveWorkEvent::RolledOver { result }) => if tree
                < self.tree_count {
                Some(self.spec_sweep_from(tree + 1))
            } else {
                None
            },
            _ => None,
        }
    }

    /// How the active work begins at `current_slot`: inside the active phase
    /// of the epoch the initial drain starts with the first tree; outside it
    /// the initial drain is left out and the work starts with the
    /// subscription.
    pub open spec fn spec_begin(
        protocol_config: ProtocolConfig,
        epoch_info: ForesterEpochInfo,
        current_slot: u64,
    ) -> (ActiveWork, ActiveWorkAction) {
        let work = ActiveWork {
            phase: ActiveWorkPhase::Finished,
            tree_count: epoch_info.trees@.len() as usize,
            active_phase_end: epoch_info.epoch.phases.active.end,
        };
        if protocol_config.spec_in_active_phase(current_slot, epoch_info.epoch.epoch) {
            work.spec_drain_from(0)
        } else {
            (
                ActiveWork { phase: ActiveWorkPhase::Subscribing, ..work },
                ActiveWorkAction::Subscribe,
            )
        }
    }

    fn drain_from(self, tree: usize) -> (next: (ActiveWork, ActiveWorkAction))
        ensures
            next == self.spec_drain_from(tree as int),
    {
        if tree < self.tree_count {
            (
                ActiveWork {
                    phase: ActiveWorkPhase::Draining { tree },
                    tree_count: self.tree_count,
                    active_phase_end: self.active_phase_end,
                },
                ActiveWorkAction::DrainQueue { tree },
            )
        } else {
            (
                ActiveWork {
                    phase: ActiveWorkPhase::Subscribing,
                    tree_count: self.tree_count,
                    active_phase_end: self.active_phase_end,
                },
                ActiveWorkAction::Subscribe,
            )
        }
    }

    fn sweep_from(self, tree: usize) -> (next: (ActiveWork, ActiveWorkAction))
        ensures
            next == self.spec_sweep_from(tree as int),
    {
        if tree < self.tree_count {
            (
                ActiveWork {
                    phase: ActiveWorkPhase::Reading { tree },
                    tree_count: self.tree_count,
                    active_phase_end: self.active_phase_end,
                },
                ActiveWorkAction::ReadCapacity { tree },
            )
        } else {
            (
                ActiveWork {
                    phase: ActiveWorkPhase::Finished,
                    tree_count: self.tree_count,
                    active_phase_end: self.active_phase_end,
                },
                ActiveWorkAction::Finish { result: Ok(()) },
            )
        }
    }

    fn to_phase(self, phase: ActiveWorkPhase, action: ActiveWorkAction) -> (next: (
        ActiveWork,
        ActiveWorkAction,
    ))
        ensures
            next == (ActiveWork { phase, ..self }, action),
    {
        (
            ActiveWork {
                phase,
                tree_count: self.tree_count,
                active_phase_end: self.active_phase_end,
            },
            action,
        )
    }

    /// Feeds one event to the active work. An event that does not answer
    /// what the work is waiting for is refused and changes nothing.
    pub fn step(self, event: ActiveWorkEvent, epoch_info: &ForesterEpochInfo) -> (next: Option<
        (ActiveWork, ActiveWorkAction),
    >)
        ensures
            next == self.spec_step(event, epoch_info.trees@),
    {
        match (self.phase, event) {
            (ActiveWorkPhase::Draining { tree }, ActiveWorkEvent::QueueDrained { result }) => {
                if tree < self.tree_count {
                    Some(self.drain_from(tree + 1))
                } else {
                    None
                }
            },
            (ActiveWorkPhase::Subscribing, ActiveWorkEvent::Subscribed { result }) => {
                match result {
                    Ok(()) => Some(
                        self.to_phase(ActiveWorkPhase::Reacting, ActiveWorkAction::AwaitUpdate),
                    ),
                    Err(error) => Some(
                        self.to_phase(
                            ActiveWorkPhase::Finished,
                            ActiveWorkAction::Finish { result: Err(error) },
                        ),
                    ),
                }
            },
            (ActiveWorkPhase::Reacting, ActiveWorkEvent::Update { update, estimated_slot }) => {
                match on_queue_update(self.active_phase_end, &update, estimated_slot) {
                    UpdateDecision::Stop => Some(
                        self.to_phase(ActiveWorkPhase::ShuttingDown, ActiveWorkAction::Shutdown),
                    ),
                    UpdateDecision::SpawnThenStop { queue } => Some(
                        self.to_phase(
                            ActiveWorkPhase::Spawning { listen: false },
                            ActiveWorkAction::SpawnDrainer { queue },
                        ),
                    ),
                    UpdateDecision::SpawnThenListen { queue } => Some(
                        self.to_phase(
                            ActiveWorkPhase::Spawning { listen: true },
                            ActiveWorkAction::SpawnDrainer { queue },
                        ),
                    ),
                }
            },
            (ActiveWorkPhase::Reacting, ActiveWorkEvent::SubscriptionEnded) => Some(
                self.to_phase(ActiveWorkPhase::ShuttingDown, ActiveWorkAction::Shutdown),
            ),
            (ActiveWorkPhase::Spawning { listen }, ActiveWorkEvent::Spawned) => {
                if listen {
                    Some(self.to_phase(ActiveWorkPhase::Reacting, ActiveWorkAction::AwaitUpdate))
                } else {
                    Some(self.to_phase(ActiveWorkPhase::ShuttingDown, ActiveWorkAction::Shutdown))
                }
            },
            (ActiveWorkPhase::ShuttingDown, ActiveWorkEvent::ShutDown) => Some(self.sweep_from(0)),
            (ActiveWorkPhase::Reading { tree }, ActiveWorkEvent::CapacityRead { reading }) => {
                if tree < self.tree_count && tree < epoch_info.trees.len() {
                    match reading {
                        Ok(r) => {
                            let decision = perform_rollover(
                                &epoch_info.trees[tree].tree_accounts,
                                r.rolledover_slot,
                                r.rollover_threshold,
                                r.next_index,
                            );
                            if decision == SweepDecision::Leave {
                                Some(self.sweep_from(tree + 1))
                            } else {
                                Some(
                                    self.to_phase(
                                        ActiveWorkPhase::RollingOver { tree },
                                        ActiveWorkAction::Rollover { tree, decision },
                                    ),
                                )
                            }
                        },
                        Err(_) => Some(self.sweep_from(tree + 1)),
                    }
                } else {
                    None
                }
            },
            (ActiveWorkPhase::RollingOver { tree }, ActiveWorkEvent::RolledOver { result }) => {
                if tree < self.tree_count {
                    Some(self.sweep_from(tree + 1))
                } else {
                    None
                }
            },
            _ => None,
        }
    }
}

/// Opens the active work of the epoch at `current_slot`.
///
/// Inside the active phase of the epoch the first action is the initial
/// drain of the queue of the first tree. Outside it, and where the epoch has
/// no tree, the initial drain is left out and the first action is the
/// subscription; the react loop, the shutdown and the rollover sweep follow
/// in either case.
pub fn perform_active_work(
    protocol_config: &ProtocolConfig,
    epoch_info: &ForesterEpochInfo,
    current_slot: u64,
) -> (begun: (ActiveWork, ActiveWorkAction))
    requires
        protocol_config.epochs_defined(),
    ensures
        begun == ActiveWork::spec_begin(*protocol_config, *epoch_info, current_slot),
{
    let work = ActiveWork {
        phase: ActiveWorkPhase::Finished,
        tree_count: epoch_info.trees.len(),
        active_phase_end: epoch_info.epoch.phases.active.end,
    };
    if is_in_active_phase(protocol_config, current_slot, epoch_info.epoch.epoch) {
        work.drain_from(0)
    } else {
        work.to_phase(ActiveWorkPhase::Subscribing, ActiveWorkAction::Subscribe)
    }
}

/// The react loop starts no drainer for an update of a slot at or after the
/// end of the active phase, and waits for no further update once the
/// estimated slot has reached that end.
pub proof fn lemma_no_new_work_after_active_phase(
    active_phase_end: u64,
    update: QueueUpdate,
    estimated_slot: u64,
)
    ensures
        update.slot >= active_phase_end ==> spec_on_queue_update(
            active_phase_end,
            update,
            estimated_slot,
        ) is Stop,
        estimated_slot >= active_phase_end ==> !(spec_on_queue_update(
            active_phase_end,
            update,
            estimated_slot,
        ) is SpawnThenListen),
{
}

/// Failures of single queues and trees do not abort the active work. The
/// initial drain goes on to the next queue whatever the drain of a queue
/// returned; the sweep goes on to the next tree after a capacity read that
/// failed and after a rollover, whatever it returned; and the result after
/// the sweep is a clean return.
pub proof fn lemma_failures_do_not_abort(
    work: ActiveWork,
    trees: Seq<TreeForesterSchedule>,
    tree: usize,
    result: Result<(), ForesterError>,
    error: ForesterError,
)
    requires
        tree < work.tree_count,
        tree < trees.len(),
    ensures
        (ActiveWork { phase: ActiveWorkPhase::Draining { tree }, ..work }).spec_step(
            ActiveWorkEvent::QueueDrained { result },
            trees,
        ) == Some(work.spec_drain_from(tree + 1)),
        (ActiveWork { phase: ActiveWorkPhase::Reading { tree }, ..work }).spec_step(
            ActiveWorkEvent::CapacityRead { reading: Err(error) },
            trees,
        ) == Some(work.spec_sweep_from(tree + 1)),
        (ActiveWork { phase: ActiveWorkPhase::RollingOver { tree }, ..work }).spec_step(
            ActiveWorkEvent::RolledOver { result },
            trees,
        ) == Some(work.spec_sweep_from(tree + 1)),
        work.spec_sweep_from(work.tree_count as int).1 == (ActiveWorkAction::Finish {
            result: Ok(()),
        }),
{
}

/// The only error that the active work returns is that of a failed
/// subscription.
pub proof fn lemma_only_subscription_fails(
    work: ActiveWork,
    event: ActiveWorkEvent,
    trees: Seq<TreeForesterSchedule>,
)
    ensures
        work.spec_step(event, trees) matches Some((_, ActiveWorkAction::Finish { result: Err(e) }))
            ==> (work.phase == ActiveWorkPhase::Subscribing && event == (ActiveWorkEvent::Subscribed {
            result: Err(e),
        })),
{
}

} // verus!
