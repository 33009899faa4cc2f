use vstd::prelude::*;
use crate::protocol::{EpochPhases, ProtocolConfig};
use crate::types::{ForesterError, Pubkey, TreeAccounts};

verus! {

/// The on-ledger record of one forester's registration for one epoch, as far as
/// the worker reads it.
#[derive(Clone, Copy, Debug, PartialEq, Eq)]
pub struct ForesterEpochPda {
    pub epoch: u64,
    /// Width of the forester's range of schedule indices.
    pub weight: u64,
    /// First schedule index that belongs to the forester.
    pub forester_index: u64,
    pub epoch_active_phase_start_slot: u64,
    /// Registered weight of all foresters, known once registration is final.
    pub total_epoch_weight: Option<u64>,
    pub protocol_config: ProtocolConfig,
}

/// For one tree, which light slots of the epoch belong to this forester.
#[derive(Clone, Debug, PartialEq, Eq)]
pub struct TreeForesterSchedule {
    pub tree_accounts: TreeAccounts,
    /// One entry per light slot of the active phase.
    pub slots: Vec<bool>,
}

/// An epoch the forester has registered for.
#[derive(Clone, Copy, Debug, PartialEq, Eq)]
pub struct Epoch {
    pub epoch: u64,
    pub forester_epoch_pda: Pubkey,
    pub phases: EpochPhases,
}

/// A controller's working state for one epoch.
#[derive(Clone, Debug, PartialEq, Eq)]
pub struct ForesterEpochInfo {
    pub epoch: Epoch,
    pub epoch_pda: ForesterEpochPda,
    pub trees: Vec<TreeForesterSchedule>,
}

/// The schedule index that the registry assigns to a light slot of a queue
/// in an epoch: a digest of the three, reduced modulo the total weight.
pub uninterp spec fn eligible_forester_index(
    light_slot: u64,
    queue: Seq<u8>,
    total_epoch_weight: u64,
    epoch: u64,
) -> u64;

/// Calls `light_registry::ForesterEpochPda::get_eligible_forester_index`, which
/// hashes queue, epoch and light slot and reduces the digest modulo the total
/// weight, so the index is below that weight.
#[verifier::external_body]
fn registry_eligible_forester_index(
    light_slot: u64,
    queue: &Pubkey,
    total_epoch_weight: u64,
    epoch: u64,
) -> (index: Option<u64>)
    requires
        total_epoch_weight != 0,
    ensures
        index == Some(eligible_forester_index(light_slot, queue@, total_epoch_weight, epoch)),
        index.unwrap() < total_epoch_weight,
{
    light_registry::ForesterEpochPda::get_eligible_forester_index(
        light_slot,
        &queue.bytes.into(),
        total_epoch_weight,
        epoch,
    ).ok()
}

impl ForesterEpochPda {
    /// The light slot that `slot` falls in, counted from the start of the
    /// active phase; none before that start.
    pub open spec fn spec_current_light_slot(self, slot: u64) -> Option<u64> {
        if slot >= self.epoch_active_phase_start_slot {
            Some(
                ((slot - self.epoch_active_phase_start_slot) / (
                self.protocol_config.slot_length as int)) as u64,
            )
        } else {
            None
        }
    }

    /// A schedule index lies in the forester's own range.
    pub open spec fn spec_owns_index(self, index: u64) -> bool {
        self.forester_index <= index < self.forester_index + self.weight
    }

    /// Calls `light_registry::ForesterEpochPda::get_current_light_slot`, which fails
    /// for a slot before the active phase and otherwise divides the slots elapsed
    /// since its start by the light-slot length.
    #[verifier::external_body]
    fn registry_current_light_slot(&self, current_solana_slot: u64) -> (light_slot: Option<u64>)
        requires
            self.protocol_config.slot_length != 0,
        ensures
            light_slot == self.spec_current_light_slot(current_solana_slot),
    {
        light_registry::ForesterEpochPda {
            epoch_active_phase_start_slot: self.epoch_active_phase_start_slot,
            protocol_config: light_registry::protocol_config::state::ProtocolConfig {
                slot_length: self.protocol_config.slot_length,
                ..Default::default()
            },
            ..Default::default()
        }.get_current_light_slot(current_solana_slot).ok()
    }

    /// Calls `light_registry::ForesterEpochPda::is_eligible`, which tests whether an
    /// index lies in the range that starts at the forester's index and is as wide as
    /// its weight.
    #[verifier::external_body]
    fn registry_owns_index(&self, index: u64) -> (owned: bool)
        requires
            self.forester_index + self.weight <= u64::MAX,
        ensures
            owned == self.spec_owns_index(index),
    {
        light_registry::ForesterEpochPda {
            forester_index: self.forester_index,
            weight: self.weight,
            ..Default::default()
        }.is_eligible(index)
    }

    /// The light slot of `current_solana_slot`, or a `Custom` error before the
    /// active phase of the epoch has started.
    pub fn get_current_light_slot(&self, current_solana_slot: u64) -> (light_slot: Result<
        u64,
        ForesterError,
    >)
        requires
            self.protocol_config.slot_length != 0,
        ensures
            match light_slot {
                Ok(l) => self.spec_current_light_slot(current_solana_slot) == Some(l),
                Err(ForesterError::Custom(message)) => self.spec_current_light_slot(
                    current_solana_slot,
                ).is_none() && message@ == "Failed to get current light slot"@,
                Err(_) => false,
            },
    {
        match self.registry_current_light_slot(current_solana_slot) {
            Some(l) => Ok(l),
            None => Err(ForesterError::Custom("Failed to get current light slot".to_owned())),
        }
    }
}

impl TreeForesterSchedule {
    /// The forester may act on this tree in `light_slot`. A light slot beyond
    /// the schedule is never the forester's.
    pub open spec fn spec_is_eligible(self, light_slot: u64) -> bool {
        light_slot < self.slots@.len() && self.slots@[light_slot as int]
    }

    /// Whether the forester may act on this tree in `light_slot`.
    pub fn is_eligible(&self, light_slot: u64) -> (eligible: bool)
        ensures
            eligible == self.spec_is_eligible(light_slot),
    {
        if light_slot >= self.slots.len() as u64 {
            false
        } else {
            self.slots[light_slot as usize]
        }
    }

    /// The schedule of one tree: light slot `i` of the active phase belongs to
    /// the forester exactly when the index that the registry assigns to it lies
    /// in the forester's range.
    pub open spec fn derived_from(
        self,
        tree_accounts: TreeAccounts,
        pda: ForesterEpochPda,
        total_epoch_weight: u64,
    ) -> bool {
        &&& self.tree_accounts == tree_accounts
        &&& self.slots@.len() == pda.protocol_config.active_phase_length / pda.protocol_config.slot_length
        &&& forall|i: int|
            0 <= i < self.slots@.len() ==> #[trigger] self.slots@[i] == pda.spec_owns_index(
                eligible_forester_index(i as u64, tree_accounts.queue@, total_epoch_weight, pda.epoch),
            )
    }

    /// The schedule has one entry for each light slot of an active phase.
    pub open spec fn covers_active_phase(self, protocol_config: ProtocolConfig) -> bool {
        self.slots@.len() == protocol_config.active_phase_length / protocol_config.slot_length
    }

    /// Derives the schedule of one tree for the epoch of `pda`.
    pub fn new_with_eligibility(
        tree_accounts: &TreeAccounts,
        pda: &ForesterEpochPda,
        total_epoch_weight: u64,
    ) -> (schedule: TreeForesterSchedule)
        requires
            pda.protocol_config.slot_length != 0,
            total_epoch_weight != 0,
            pda.forester_index + pda.weight <= u64::MAX,
        ensures
            schedule.derived_from(*tree_accounts, *pda, total_epoch_weight),
    {
        let end_slot: u64 = pda.protocol_config.active_phase_length / pda.protocol_config.slot_length;
        let mut slots: Vec<bool> = Vec::new();
        let mut light_slot: u64 = 0;
        while light_slot < end_slot
            invariant
                light_slot <= end_slot,
                total_epoch_weight != 0,
                pda.forester_index + pda.weight <= u64::MAX,
                slots@.len() == light_slot,
                forall|i: int|
                    0 <= i < slots@.len() ==> #[trigger] slots@[i] == pda.spec_owns_index(
                        eligible_forester_index(
                            i as u64,
                            tree_accounts.queue@,
                            total_epoch_weight,
                            pda.epoch,
                        ),
                    ),
            decreases end_slot - light_slot,
        {
            let index = registry_eligible_forester_index(
                light_slot,
                &tree_accounts.queue,
                total_epoch_weight,
                pda.epoch,
            );
            let owned = match index {
                Some(i) => pda.registry_owns_index(i),
                None => false,
            };
            slots.push(owned);
            light_slot += 1;
        }
        TreeForesterSchedule { tree_accounts: *tree_accounts, slots }
    }
}

impl ForesterEpochInfo {
    /// The registration record holds what schedules are derived from: a light
    /// slot length, a final and positive total weight, and a range of
    /// indices that ends at a representable index.
    pub open spec fn can_derive_schedules(self) -> bool {
        &&& self.epoch_pda.protocol_config.slot_length != 0
        &&& self.epoch_pda.total_epoch_weight matches Some(weight) && weight != 0
        &&& self.epoch_pda.forester_index + self.epoch_pda.weight <= u64::MAX
    }

    /// Whether schedules can be derived from the registration record.
    pub fn is_ready_for_schedules(&self) -> (ready: bool)
        ensures
            ready == self.can_derive_schedules(),
    {
        let weight_is_final = match self.epoch_pda.total_epoch_weight {
            Some(weight) => weight != 0,
            None => false,
        };
        self.epoch_pda.protocol_config.slot_length != 0 && weight_is_final
            && self.epoch_pda.weight <= u64::MAX - self.epoch_pda.forester_index
    }

    /// Appends the schedule of each of `trees`, in their order, derived from
    /// the registration record of the epoch.
    pub fn add_trees_with_schedule(&mut self, trees: &Vec<TreeAccounts>)
        requires
            old(self).can_derive_schedules(),
        ensures
            final(self).epoch == old(self).epoch,
            final(self).epoch_pda == old(self).epoch_pda,
            final(self).trees@.len() == old(self).trees@.len() + trees@.len(),
            forall|i: int|
                0 <= i < old(self).trees@.len() ==> #[trigger] final(self).trees@[i] == old(
                    self,
                ).trees@[i],
            forall|i: int|
                0 <= i < trees@.len() ==> (#[trigger] final(self).trees@[old(self).trees@.len()
                    + i]).derived_from(
                    trees@[i],
                    old(self).epoch_pda,
                    old(self).epoch_pda.total_epoch_weight.unwrap(),
                ),
    {
        let ghost before = self.trees@;
        let pda = self.epoch_pda;
        let total_epoch_weight = match pda.total_epoch_weight {
            Some(weight) => weight,
            None => 1,
        };
        let mut i: usize = 0;
        while i < trees.len()
            invariant
                i <= trees@.len(),
                pda.protocol_config.slot_length != 0,
                total_epoch_weight != 0,
                pda.forester_index + pda.weight <= u64::MAX,
                self.epoch == old(self).epoch,
                self.epoch_pda == old(self).epoch_pda,
                self.trees@.len() == before.len() + i,
                forall|j: int| 0 <= j < before.len() ==> #[trigger] self.trees@[j] == before[j],
                forall|j: int|
                    0 <= j < i ==> (#[trigger] self.trees@[before.len() + j]).derived_from(
                        trees@[j],
                        pda,
                        total_epoch_weight,
                    ),
            decreases trees@.len() - i,
        {
            let ghost earlier = self.trees@;
            let schedule = TreeForesterSchedule::new_with_eligibility(
                &trees[i],
                &pda,
                total_epoch_weight,
            );
            self.trees.push(schedule);
            proof {
                assert forall|j: int| 0 <= j < i + 1 implies (#[trigger] self.trees@[before.len()
                    + j]).derived_from(trees@[j], pda, total_epoch_weight) by {
                    if j < i {
                        assert(self.trees@[before.len() + j] == earlier[before.len() + j]);
                    }
                }
            }
            i += 1;
        }
    }
}

/// A derived schedule has one entry for each light slot of the active phase.
pub proof fn lemma_derived_schedule_covers_active_phase(
    schedule: TreeForesterSchedule,
    tree_accounts: TreeAccounts,
    pda: ForesterEpochPda,
    total_epoch_weight: u64,
)
    requires
        schedule.derived_from(tree_accounts, pda, total_epoch_weight),
    ensures
        schedule.covers_active_phase(pda.protocol_config),
{
}

/// Two foresters of one epoch whose ranges of indices do not overlap are
/// never both given the same light slot of a tree.
pub proof fn lemma_disjoint_foresters_never_share_a_light_slot(
    first: TreeForesterSchedule,
    second: TreeForesterSchedule,
    tree_accounts: TreeAccounts,
    first_pda: ForesterEpochPda,
    second_pda: ForesterEpochPda,
    total_epoch_weight: u64,
    light_slot: u64,
)
    requires
        first.derived_from(tree_accounts, first_pda, total_epoch_weight),
        second.derived_from(tree_accounts, second_pda, total_epoch_weight),
        first_pda.epoch == second_pda.epoch,
        first_pda.forester_index + first_pda.weight <= second_pda.forester_index
            || second_pda.forester_index + second_pda.weight <= first_pda.forester_index,
    ensures
        !(first.spec_is_eligible(light_slot) && second.spec_is_eligible(light_slot)),
{
    if first.spec_is_eligible(light_slot) && second.spec_is_eligible(light_slot) {
        let i = light_slot as int;
        assert(first.slots@[i] == first_pda.spec_owns_index(
            eligible_forester_index(i as u64, tree_accounts.queue@, total_epoch_weight, first_pda.epoch),
        ));
        assert(second.slots@[i] == second_pda.spec_owns_index(
            eligible_forester_index(
                i as u64,
                tree_accounts.queue@,
                total_epoch_weight,
                second_pda.epoch,
            ),
        ));
    }
}

/// `index` is the first schedule in `trees` kept for the tree `wanted`.
pub open spec fn is_first_schedule_of(
    trees: Seq<TreeForesterSchedule>,
    wanted: TreeAccounts,
    index: int,
) -> bool {
    &&& 0 <= index < trees.len()
    &&& trees[index].tree_accounts.matches_accounts(wanted)
    &&& forall|j: int| 0 <= j < index ==> !(#[trigger] trees[j]).tree_accounts.matches_accounts(wanted)
}

/// No schedule in `trees` is kept for the tree `wanted`.
pub open spec fn has_no_schedule_of(trees: Seq<TreeForesterSchedule>, wanted: TreeAccounts) -> bool {
    forall|j: int| 0 <= j < trees.len() ==> !(#[trigger] trees[j]).tree_accounts.matches_accounts(wanted)
}

/// `index` is the first schedule in `trees` whose queue is `queue`.
pub open spec fn is_first_schedule_of_queue(
    trees: Seq<TreeForesterSchedule>,
    queue: Pubkey,
    index: int,
) -> bool {
    &&& 0 <= index < trees.len()
    &&& trees[index].tree_accounts.queue@ == queue@
    &&& forall|j: int| 0 <= j < index ==> (#[trigger] trees[j]).tree_accounts.queue@ != queue@
}

/// No schedule in `trees` serves the queue `queue`.
pub open spec fn has_no_schedule_of_queue(trees: Seq<TreeForesterSchedule>, queue: Pubkey) -> bool {
    forall|j: int| 0 <= j < trees.len() ==> (#[trigger] trees[j]).tree_accounts.queue@ != queue@
}

/// Position of the first schedule kept for the tree `wanted`.
pub fn find_tree_schedule(trees: &Vec<TreeForesterSchedule>, wanted: &TreeAccounts) -> (found:
    Option<usize>)
    ensures
        match found {
            Some(i) => is_first_schedule_of(trees@, *wanted, i as int),
            None => has_no_schedule_of(trees@, *wanted),
        },
{
    let mut i: usize = 0;
    while i < trees.len()
        invariant
            i <= trees.len(),
            forall|j: int| 0 <= j < i ==> !(#[trigger] trees@[j]).tree_accounts.matches_accounts(*wanted),
        decreases trees.len() - i,
    {
        if trees[i].tree_accounts.same_accounts(wanted) {
            return Some(i);
        }
        i += 1;
    }
    None
}

/// Position of the first schedule whose queue is `queue`.
pub fn find_schedule_by_queue(trees: &Vec<TreeForesterSchedule>, queue: &Pubkey) -> (found: Option<
    usize,
>)
    ensures
        match found {
            Some(i) => is_first_schedule_of_queue(trees@, *queue, i as int),
            None => has_no_schedule_of_queue(trees@, *queue),
        },
{
    let mut i: usize = 0;
    while i < trees.len()
        invariant
            i <= trees.len(),
            forall|j: int| 0 <= j < i ==> (#[trigger] trees@[j]).tree_accounts.queue@ != queue@,
        decreases trees.len() - i,
    {
        if trees[i].tree_accounts.queue.same_as(queue) {
            return Some(i);
        }
        i += 1;
    }
    None
}

/// Decides whether the forester may act on `tree_account` at `current_slot`.
///
/// The light slot is taken from the freshly read registration record `pda`;
/// the schedule is the first one that `registration_info` keeps for the tree.
/// `Ok` means eligible. `NotEligible` means the schedule does not give the
/// light slot to this forester, which includes every light slot beyond the
/// schedule. `TreeNotFound` means no schedule is kept for the tree, and a
/// `Custom` error that the slot precedes the active phase.
pub fn check_eligibility(
    registration_info: &ForesterEpochInfo,
    pda: &ForesterEpochPda,
    current_slot: u64,
    tree_account: &TreeAccounts,
) -> (verdict: Result<(), ForesterError>)
    requires
        pda.protocol_config.slot_length != 0,
    ensures
        match verdict {
            Ok(()) => exists|i: int|
                is_first_schedule_of(registration_info.trees@, *tree_account, i)
                    && pda.spec_current_light_slot(current_slot).is_some()
                    && registration_info.trees@[i].spec_is_eligible(
                    pda.spec_current_light_slot(current_slot).unwrap(),
                ),
            Err(ForesterError::NotEligible) => exists|i: int|
                is_first_schedule_of(registration_info.trees@, *tree_account, i)
                    && pda.spec_current_light_slot(current_slot).is_some()
                    && !registration_info.trees@[i].spec_is_eligible(
                    pda.spec_current_light_slot(current_slot).unwrap(),
                ),
            Err(ForesterError::TreeNotFound) => pda.spec_current_light_slot(current_slot).is_some()
                && has_no_schedule_of(registration_info.trees@, *tree_account),
            Err(ForesterError::Custom(message)) => pda.spec_current_light_slot(
                current_slot,
            ).is_none() && message@ == "Failed to get current light slot"@,
            Err(_) => false,
        },
{
    let light_slot = pda.get_current_light_slot(current_slot)?;
    match find_tree_schedule(&registration_info.trees, tree_account) {
        None => Err(ForesterError::TreeNotFound),
        Some(i) => {
            if registration_info.trees[i].is_eligible(light_slot) {
                Ok(())
            } else {
                Err(ForesterError::NotEligible)
            }
        },
    }
}

} // verus!
