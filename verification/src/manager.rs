use vstd::prelude::*;
use crate::controller::{ControllerAction, EpochController};
use crate::counter::{spec_count, spec_increment, ProcessedCounter};
use crate::drainer::ForesterConfig;
use crate::protocol::{get_epoch_phases, saturate, spec_epoch_phases, ProtocolConfig};
use crate::types::{ForesterError, TreeAccounts};

verus! {

/// The root of the worker: it watches for epoch boundaries and opens one
/// controller for each epoch that is still open for registration.
#[derive(Debug, PartialEq, Eq)]
pub struct EpochManager {
    pub config: ForesterConfig,
    pub protocol_config: ProtocolConfig,
    pub processed_items_per_epoch_count: ProcessedCounter,
    pub trees: Vec<TreeAccounts>,
    /// The epoch that was announced last.
    pub last_epoch: Option<u64>,
}

/// The outcome of one look at the clock.
#[derive(Clone, Copy, Debug, PartialEq, Eq)]
pub struct MonitorStep {
    /// The epoch to open a controller for, if any.
    pub new_epoch: Option<u64>,
    /// The slot to sleep until before the next look.
    pub wait_until_slot: u64,
}

/// An epoch is announced when it is later than the last announced one and
/// its registration is still open.
pub open spec fn spec_announces(
    protocol_config: ProtocolConfig,
    last_epoch: Option<u64>,
    slot: u64,
) -> bool {
    let current = protocol_config.spec_current_epoch(slot) as u64;
    &&& last_epoch matches Some(last) ==> current > last
    &&& slot < spec_epoch_phases(protocol_config, current).registration.end
}

/// The start of the registration phase of the epoch after the current one.
pub open spec fn spec_next_registration_start(protocol_config: ProtocolConfig, slot: u64) -> u64 {
    spec_epoch_phases(
        protocol_config,
        saturate(protocol_config.spec_current_epoch(slot) + 1),
    ).registration.start
}

impl EpochManager {
    /// The protocol parameters allow epochs to be told apart.
    pub open spec fn well_formed(self) -> bool {
        self.protocol_config.epochs_defined()
    }

    /// A manager that has announced no epoch and counted no batch.
    pub fn new(config: ForesterConfig, protocol_config: ProtocolConfig, trees: Vec<TreeAccounts>) -> (manager:
        Result<EpochManager, ForesterError>)
        ensures
            manager matches Ok(m) && m.config == config && m.protocol_config == protocol_config
                && m.trees == trees && m.last_epoch.is_none()
                && m.processed_items_per_epoch_count@ == Map::<u64, usize>::empty(),
    {
        Ok(
            EpochManager {
                config,
                protocol_config,
                processed_items_per_epoch_count: ProcessedCounter::new(),
                trees,
                last_epoch: None,
            },
        )
    }

    /// The estimated slot together with the epoch it falls in.
    pub fn get_current_slot_and_epoch(&self, estimated_slot: u64) -> (now: (u64, u64))
        requires
            self.well_formed(),
        ensures
            now.0 == estimated_slot,
            now.1 == self.protocol_config.spec_current_epoch(estimated_slot),
    {
        (estimated_slot, self.protocol_config.get_current_epoch(estimated_slot))
    }

    /// The tally of `epoch`.
    pub fn get_processed_items_count(&self, epoch: u64) -> (count: usize)
        ensures
            count == spec_count(self.processed_items_per_epoch_count@, epoch),
    {
        self.processed_items_per_epoch_count.get_processed_items_count(epoch)
    }

    /// Counts one more batch of `epoch`.
    pub fn increment_processed_items_count(&mut self, epoch: u64)
        ensures
            final(self).processed_items_per_epoch_count@ == spec_increment(
                old(self).processed_items_per_epoch_count@,
                epoch,
            ),
            final(self).config == old(self).config,
            final(self).protocol_config == old(self).protocol_config,
            final(self).trees == old(self).trees,
            final(self).last_epoch == old(self).last_epoch,
    {
        self.processed_items_per_epoch_count.increment_processed_items_count(epoch);
    }

    /// One iteration of the monitor at `slot`: announces the current epoch if
    /// it is new and still open for registration, and names the slot at which
    /// the next epoch starts to register.
    pub fn monitor_epochs(&mut self, slot: u64) -> (step: MonitorStep)
        requires
            old(self).well_formed(),
        ensures
            final(self).well_formed(),
            final(self).config == old(self).config,
            final(self).protocol_config == old(self).protocol_config,
            final(self).trees == old(self).trees,
            final(self).processed_items_per_epoch_count == old(
                self,
            ).processed_items_per_epoch_count,
            step.wait_until_slot == spec_next_registration_start(old(self).protocol_config, slot),
            spec_announces(old(self).protocol_config, old(self).last_epoch, slot) ==> step.new_epoch
                == Some(old(self).protocol_config.spec_current_epoch(slot) as u64)
                && final(self).last_epoch == step.new_epoch,
            !spec_announces(old(self).protocol_config, old(self).last_epoch, slot)
                ==> step.new_epoch.is_none() && final(self).last_epoch == old(self).last_epoch,
    {
        let current_epoch = self.protocol_config.get_current_epoch(slot);
        let is_new = match self.last_epoch {
            Some(last) => current_epoch > last,
            None => true,
        };
        let mut new_epoch: Option<u64> = None;
        if is_new {
            let phases = get_epoch_phases(&self.protocol_config, current_epoch);
            if slot < phases.registration.end {
                new_epoch = Some(current_epoch);
                self.last_epoch = Some(current_epoch);
            }
        }
        let next_epoch: u64 = if current_epoch == u64::MAX {
            u64::MAX
        } else {
            current_epoch + 1
        };
        let next_phases = get_epoch_phases(&self.protocol_config, next_epoch);
        MonitorStep { new_epoch, wait_until_slot: next_phases.registration.start }
    }

    /// One iteration of the manager at `slot`: what the monitor says, and the
    /// controller of the epoch that it announces, with its first action.
    pub fn run(&mut self, slot: u64) -> (turn: (MonitorStep, Option<(EpochController, ControllerAction)>))
        requires
            old(self).well_formed(),
        ensures
            final(self).well_formed(),
            final(self).config == old(self).config,
            final(self).protocol_config == old(self).protocol_config,
            final(self).trees == old(self).trees,
            final(self).processed_items_per_epoch_count == old(
                self,
            ).processed_items_per_epoch_count,
            turn.0.wait_until_slot == spec_next_registration_start(old(self).protocol_config, slot),
            spec_announces(old(self).protocol_config, old(self).last_epoch, slot) ==> turn.0.new_epoch
                == Some(old(self).protocol_config.spec_current_epoch(slot) as u64)
                && final(self).last_epoch == turn.0.new_epoch,
            !spec_announces(old(self).protocol_config, old(self).last_epoch, slot)
                ==> turn.0.new_epoch.is_none() && final(self).last_epoch == old(self).last_epoch,
            match turn.0.new_epoch {
                Some(epoch) => turn.1 matches Some((controller, action)) && controller
                    == EpochController::initial(old(self).protocol_config, epoch) && action
                    == ControllerAction::ReadSlot,
                None => turn.1.is_none(),
            },
    {
        let step = self.monitor_epochs(slot);
        let opened = match step.new_epoch {
            Some(epoch) => Some(EpochController::new(&self.protocol_config, epoch)),
            None => None,
        };
        (step, opened)
    }
}

/// The epochs that the monitor announces grow strictly: after an epoch has
/// been announced, only a later one is announced again.
pub proof fn lemma_announced_epochs_increase(
    protocol_config: ProtocolConfig,
    last_epoch: u64,
    slot: u64,
)
    requires
        spec_announces(protocol_config, Some(last_epoch), slot),
    ensures
        protocol_config.spec_current_epoch(slot) as u64 > last_epoch,
{
}

} // verus!
