use vstd::prelude::*;
use crate::backoff::{lemma_power_of_two_64, lemma_power_of_two_monotonic, power_of_two};
use crate::types::{ForesterError, Pubkey, Signature, TreeAccounts, TreeType};

verus! {

/// Number of leaves of a tree of the height that managed trees have: two to
/// the power twenty-six.
pub const TREE_CAPACITY: u64 = 67_108_864;

/// The value of `rolledover_slot` in a tree that has not been rolled over.
pub const NOT_ROLLED_OVER: u64 = u64::MAX;

/// The program that owns a newly created account.
#[derive(Clone, Copy, Debug, PartialEq, Eq, Structural)]
pub enum ProgramId {
    AccountCompression,
    LightSystem,
}

/// Size of an account and the balance that exempts it from rent.
#[derive(Clone, Copy, Debug, PartialEq, Eq)]
pub struct RentExemption {
    pub size: usize,
    pub lamports: u64,
}

/// Dimensions of a state tree account.
#[derive(Clone, Copy, Debug, PartialEq, Eq)]
pub struct StateMerkleTreeConfig {
    pub height: u32,
    pub changelog_size: u64,
    pub roots_size: u64,
    pub canopy_depth: u64,
}

/// Dimensions of an address tree account.
#[derive(Clone, Copy, Debug, PartialEq, Eq)]
pub struct AddressMerkleTreeConfig {
    pub height: u32,
    pub changelog_size: u64,
    pub roots_size: u64,
    pub canopy_depth: u64,
    pub address_changelog_size: u64,
}

/// Dimensions of a nullifier queue account.
#[derive(Clone, Copy, Debug, PartialEq, Eq)]
pub struct NullifierQueueConfig {
    pub capacity: u16,
    pub sequence_threshold: u64,
}

/// Dimensions of an address queue account.
#[derive(Clone, Copy, Debug, PartialEq, Eq)]
pub struct AddressQueueConfig {
    pub capacity: u16,
    pub sequence_threshold: u64,
}

/// A request to create one account.
#[derive(Clone, Copy, Debug, PartialEq, Eq)]
pub struct CreateAccountInputs {
    pub payer: Pubkey,
    pub size: usize,
    pub lamports: u64,
    pub owner: ProgramId,
    pub new_account: Pubkey,
}

/// The accounts that a rollover instruction names.
#[derive(Clone, Copy, Debug, PartialEq, Eq)]
pub struct CreateRolloverMerkleTreeInstructionInputs {
    pub authority: Pubkey,
    /// The key that the forester's registration record is derived from.
    pub derivation: Pubkey,
    pub new_queue: Pubkey,
    pub new_merkle_tree: Pubkey,
    pub old_queue: Pubkey,
    pub old_merkle_tree: Pubkey,
    pub cpi_context_account: Option<Pubkey>,
    pub is_metadata_forester: bool,
}

/// One instruction of a rollover transaction, before it is encoded.
#[derive(Clone, Copy, Debug, PartialEq, Eq)]
pub enum RolloverInstruction {
    CreateAccount { inputs: CreateAccountInputs },
    RolloverStateMerkleTree { inputs: CreateRolloverMerkleTreeInstructionInputs, epoch: u64 },
    RolloverAddressMerkleTree { inputs: CreateRolloverMerkleTreeInstructionInputs, epoch: u64 },
}

/// The accounts of a state tree as the indexer keeps them.
#[derive(Clone, Copy, Debug, PartialEq, Eq)]
pub struct StateMerkleTreeAccounts {
    pub merkle_tree: Pubkey,
    pub nullifier_queue: Pubkey,
    pub cpi_context: Pubkey,
}

/// The accounts of an address tree as the indexer keeps them.
#[derive(Clone, Copy, Debug, PartialEq, Eq)]
pub struct AddressMerkleTreeAccounts {
    pub merkle_tree: Pubkey,
    pub queue: Pubkey,
}

/// What the indexer is told about a fresh, empty state tree.
#[derive(Clone, Copy, Debug, PartialEq, Eq)]
pub struct StateMerkleTreeBundle {
    pub rollover_fee: u64,
    pub accounts: StateMerkleTreeAccounts,
    /// Height of the empty local copy of the tree.
    pub height: u64,
    /// Canopy depth of the empty local copy of the tree.
    pub canopy_depth: u64,
}

/// The first leaf index at which a tree with the given threshold, in percent
/// of its capacity, is due for rollover.
pub open spec fn spec_rollover_threshold(rollover_threshold: u64) -> int {
    (TREE_CAPACITY * rollover_threshold) / 100
}

/// A tree is due for rollover when it has not been rolled over yet and its
/// next leaf index has reached the threshold.
pub open spec fn spec_ready_for_rollover(
    rolledover_slot: u64,
    rollover_threshold: u64,
    next_index: u64,
) -> bool {
    rolledover_slot == NOT_ROLLED_OVER && next_index >= spec_rollover_threshold(rollover_threshold)
}

/// The capacity of a managed tree is two to the power of its height.
pub proof fn lemma_tree_capacity_is_power_of_two()
    ensures
        TREE_CAPACITY == power_of_two(26),
{
    reveal_with_fuel(power_of_two, 27);
}

/// The first leaf index at which a tree is due for rollover.
pub fn rollover_threshold_index(rollover_threshold: u64) -> (threshold: u128)
    ensures
        threshold == spec_rollover_threshold(rollover_threshold),
{
    assert(TREE_CAPACITY * rollover_threshold <= 67_108_864 * 0xffff_ffff_ffff_ffff)
        by (nonlinear_arith)
        requires
            TREE_CAPACITY == 67_108_864,
            rollover_threshold <= 0xffff_ffff_ffff_ffff,
    ;
    (TREE_CAPACITY as u128) * (rollover_threshold as u128) / 100
}

/// The capacity check of the rollover trigger, on the values read from the
/// tree account and the tree's header.
pub fn is_tree_ready_for_rollover(rolledover_slot: u64, rollover_threshold: u64, next_index: u64) -> (ready:
    bool)
    ensures
        ready == spec_ready_for_rollover(rolledover_slot, rollover_threshold, next_index),
        ready ==> rolledover_slot == NOT_ROLLED_OVER && next_index >= spec_rollover_threshold(
            rollover_threshold,
        ),
{
    if rolledover_slot != NOT_ROLLED_OVER {
        return false;
    }
    let threshold = rollover_threshold_index(rollover_threshold);
    (next_index as u128) >= threshold
}

/// What the capacity check reads from a tree account and the tree's header.
#[derive(Clone, Copy, Debug, PartialEq, Eq)]
pub struct RolloverReading {
    pub rolledover_slot: u64,
    pub rollover_threshold: u64,
    pub next_index: u64,
}

/// What the rollover sweep does with one tree.
#[derive(Clone, Copy, Debug, PartialEq, Eq, Structural)]
pub enum SweepDecision {
    Leave,
    RolloverState,
    RolloverAddress,
}

/// What the sweep does with a tree: nothing unless it is due for rollover,
/// and otherwise the rollover of its kind.
pub open spec fn spec_sweep_decision(
    tree_type: TreeType,
    rolledover_slot: u64,
    rollover_threshold: u64,
    next_index: u64,
) -> SweepDecision {
    if !spec_ready_for_rollover(rolledover_slot, rollover_threshold, next_index) {
        SweepDecision::Leave
    } else {
        match tree_type {
            TreeType::State => SweepDecision::RolloverState,
            TreeType::Address => SweepDecision::RolloverAddress,
        }
    }
}

/// Decides for one tree of the sweep whether to roll it over, and as which
/// kind of tree.
pub fn perform_rollover(
    tree_account: &TreeAccounts,
    rolledover_slot: u64,
    rollover_threshold: u64,
    next_index: u64,
) -> (decision: SweepDecision)
    ensures
        decision == spec_sweep_decision(
            tree_account.tree_type,
            rolledover_slot,
            rollover_threshold,
            next_index,
        ),
{
    if !is_tree_ready_for_rollover(rolledover_slot, rollover_threshold, next_index) {
        SweepDecision::Leave
    } else {
        match tree_account.tree_type {
            TreeType::State => SweepDecision::RolloverState,
            TreeType::Address => SweepDecision::RolloverAddress,
        }
    }
}

/// A rollover is attempted only for a tree that has not been rolled over and
/// whose next leaf index has reached the threshold.
pub proof fn lemma_rollover_only_when_ready(
    tree_type: TreeType,
    rolledover_slot: u64,
    rollover_threshold: u64,
    next_index: u64,
)
    ensures
        spec_sweep_decision(tree_type, rolledover_slot, rollover_threshold, next_index)
            != SweepDecision::Leave <==> (rolledover_slot == NOT_ROLLED_OVER && next_index
            >= spec_rollover_threshold(rollover_threshold)),
{
}

/// No more bytes than this go to the fixed part of a tree account: its
/// eight bytes of header, its metadata and the fixed fields of the tree.
pub const TREE_ACCOUNT_FIXED_BYTES: u64 = 512;

/// No more bytes than this go to one entry of a changelog, which holds a
/// path of twenty-six optional hashes and an index.
pub const CHANGELOG_ENTRY_BYTES: u64 = 1024;

/// No more bytes than this go to one entry of an indexed changelog, which
/// holds an element, a path of sixteen hashes and an index.
pub const INDEXED_CHANGELOG_ENTRY_BYTES: u64 = 1024;

/// No more bytes than this go to the fixed part of a queue account: its
/// eight bytes of header, its metadata, the fixed fields of the hash set and
/// the padding after its cells.
pub const QUEUE_ACCOUNT_FIXED_BYTES: u64 = 512;

/// No more bytes than this go to one cell of a queue, which holds a hash
/// and an optional sequence number.
pub const QUEUE_CELL_BYTES: u64 = 64;

/// The most that a tree account of these dimensions takes: the fixed part,
/// thirty-two bytes for each filled subtree, root and canopy node, and the
/// entries of its changelogs.
pub open spec fn spec_max_tree_account_size(
    height: u32,
    changelog_size: u64,
    roots_size: u64,
    canopy_depth: u64,
    indexed_changelog_size: u64,
) -> int {
    TREE_ACCOUNT_FIXED_BYTES + 32 * height + CHANGELOG_ENTRY_BYTES * changelog_size + 32
        * roots_size + 32 * (power_of_two((canopy_depth + 1) as nat) - 2)
        + INDEXED_CHANGELOG_ENTRY_BYTES * indexed_changelog_size
}

/// The most that a queue account of this capacity takes.
pub open spec fn spec_max_queue_account_size(capacity: u16) -> int {
    QUEUE_ACCOUNT_FIXED_BYTES + QUEUE_CELL_BYTES * capacity
}

/// Two to the power of the canopy depth plus one, where that is below two to
/// the sixty-fourth.
fn canopy_node_count(canopy_depth: u64) -> (nodes: Option<u128>)
    ensures
        canopy_depth <= 62 ==> nodes == Some(power_of_two((canopy_depth + 1) as nat) as u128) && 2
            <= power_of_two((canopy_depth + 1) as nat) <= 0x8000_0000_0000_0000,
        canopy_depth > 62 ==> nodes.is_none() && power_of_two((canopy_depth + 1) as nat)
            >= 0x1_0000_0000_0000_0000,
{
    proof {
        lemma_power_of_two_64();
    }
    if canopy_depth > 62 {
        proof {
            lemma_power_of_two_monotonic(64, (canopy_depth + 1) as nat);
        }
        return None;
    }
    let target: u64 = canopy_depth + 1;
    let mut nodes: u128 = 1;
    let mut i: u64 = 0;
    while i < target
        invariant
            i <= target <= 63,
            nodes == power_of_two(i as nat),
            power_of_two(63) == 0x8000_0000_0000_0000,
        decreases target - i,
    {
        proof {
            lemma_power_of_two_monotonic((i + 1) as nat, 63);
        }
        nodes = nodes * 2;
        i += 1;
    }
    proof {
        lemma_power_of_two_monotonic(1, target as nat);
        lemma_power_of_two_monotonic(target as nat, 63);
        assert(power_of_two(1) == 2) by {
            reveal_with_fuel(power_of_two, 2);
        }
    }
    Some(nodes)
}

/// Whether the most that a tree account of these dimensions takes is a size
/// that the machine can hold.
fn tree_account_fits(
    height: u32,
    changelog_size: u64,
    roots_size: u64,
    canopy_depth: u64,
    indexed_changelog_size: u64,
) -> (fits: bool)
    ensures
        fits == (spec_max_tree_account_size(
            height,
            changelog_size,
            roots_size,
            canopy_depth,
            indexed_changelog_size,
        ) <= usize::MAX),
{
    match canopy_node_count(canopy_depth) {
        None => false,
        Some(nodes) => {
            let changelog: u128 = 1024 * (changelog_size as u128);
            let indexed_changelog: u128 = 1024 * (indexed_changelog_size as u128);
            let hashes: u128 = 32 * (height as u128) + 32 * (roots_size as u128) + 32 * (nodes
                - 2);
            let total: u128 = TREE_ACCOUNT_FIXED_BYTES as u128 + hashes + changelog
                + indexed_changelog;
            assert(CHANGELOG_ENTRY_BYTES == 1024 && INDEXED_CHANGELOG_ENTRY_BYTES == 1024);
            total <= usize::MAX as u128
        },
    }
}

impl StateMerkleTreeConfig {
    /// The most that an account of these dimensions takes is a size that the
    /// machine can hold.
    pub open spec fn sizeable(self) -> bool {
        spec_max_tree_account_size(
            self.height,
            self.changelog_size,
            self.roots_size,
            self.canopy_depth,
            0,
        ) <= usize::MAX
    }

    /// Whether an account size is computed for these dimensions.
    pub fn is_sizeable(&self) -> (ok: bool)
        ensures
            ok == self.sizeable(),
    {
        tree_account_fits(self.height, self.changelog_size, self.roots_size, self.canopy_depth, 0)
    }
}

impl AddressMerkleTreeConfig {
    /// The most that an account of these dimensions takes is a size that the
    /// machine can hold.
    pub open spec fn sizeable(self) -> bool {
        spec_max_tree_account_size(
            self.height,
            self.changelog_size,
            self.roots_size,
            self.canopy_depth,
            self.address_changelog_size,
        ) <= usize::MAX
    }

    /// Whether an account size is computed for these dimensions.
    pub fn is_sizeable(&self) -> (ok: bool)
        ensures
            ok == self.sizeable(),
    {
        tree_account_fits(
            self.height,
            self.changelog_size,
            self.roots_size,
            self.canopy_depth,
            self.address_changelog_size,
        )
    }
}

/// The least size of a tree account: eight bytes of header, and thirty-two
/// bytes for each filled subtree, each root and each node of the canopy, of
/// which there are two to the power of the depth plus one, less two.
pub open spec fn spec_min_tree_account_size(height: u32, roots_size: u64, canopy_depth: u64) -> int {
    8 + 32 * height + 32 * roots_size + 32 * (power_of_two((canopy_depth + 1) as nat) - 2)
}

/// The least size of a queue account: eight bytes of header and thirty-two
/// bytes for each value that the queue can hold.
pub open spec fn spec_min_queue_account_size(capacity: u16) -> int {
    8 + 32 * capacity
}

/// Calls `account_compression::QueueAccount::size`, which adds up eight
/// bytes, the size of the account header and the size of a hash set with the
/// given capacity, and never fails. Each cell of the hash set holds a value
/// of thirty-two bytes and an optional sequence number. The exact sum depends
/// on the layout of the machine's types; it lies between the least and the
/// most that the capacity takes.
#[verifier::external_body]
fn queue_account_size(capacity: u16) -> (size: Option<usize>)
    ensures
        size.is_some(),
        spec_min_queue_account_size(capacity) <= size.unwrap() <= spec_max_queue_account_size(
            capacity,
        ),
{
    account_compression::QueueAccount::size(capacity as usize).ok()
}

/// Calls `account_compression::StateMerkleTreeAccount::size`, which adds up
/// eight bytes, the size of the account header and the size of a concurrent
/// tree with the given dimensions: its fixed fields, thirty-two bytes for each
/// filled subtree, root and canopy node, and the changelog. The exact sum
/// depends on the layout of the machine's types; it lies between the least
/// and the most that the dimensions take, and the most is required to be a
/// size that the machine can hold.
#[verifier::external_body]
fn state_tree_account_size(config: &StateMerkleTreeConfig) -> (size: usize)
    requires
        config.sizeable(),
    ensures
        spec_min_tree_account_size(config.height, config.roots_size, config.canopy_depth) <= size
            <= spec_max_tree_account_size(
            config.height,
            config.changelog_size,
            config.roots_size,
            config.canopy_depth,
            0,
        ),
{
    account_compression::StateMerkleTreeAccount::size(
        config.height as usize,
        config.changelog_size as usize,
        config.roots_size as usize,
        config.canopy_depth as usize,
    )
}

/// Calls `account_compression::AddressMerkleTreeAccount::size`, which adds up
/// eight bytes, the size of the account header and the size of an indexed
/// tree with the given dimensions: what a concurrent tree of these dimensions
/// takes, and the indexed changelog. The exact sum depends on the layout of
/// the machine's types; it lies between the least and the most that the
/// dimensions take, and the most is required to be a size that the machine
/// can hold.
#[verifier::external_body]
fn address_tree_account_size(config: &AddressMerkleTreeConfig) -> (size: usize)
    requires
        config.sizeable(),
    ensures
        spec_min_tree_account_size(config.height, config.roots_size, config.canopy_depth) <= size
            <= spec_max_tree_account_size(
            config.height,
            config.changelog_size,
            config.roots_size,
            config.canopy_depth,
            config.address_changelog_size,
        ),
{
    account_compression::AddressMerkleTreeAccount::size(
        config.height as usize,
        config.changelog_size as usize,
        config.roots_size as usize,
        config.canopy_depth as usize,
        config.address_changelog_size as usize,
    )
}

/// Reads `account_compression::utils::constants::STATE_MERKLE_TREE_HEIGHT`,
/// which is 26.
#[verifier::external_body]
fn state_merkle_tree_height() -> (height: u64)
    ensures
        height == 26,
{
    account_compression::utils::constants::STATE_MERKLE_TREE_HEIGHT
}

/// Reads `account_compression::utils::constants::STATE_MERKLE_TREE_CANOPY_DEPTH`,
/// which is 10.
#[verifier::external_body]
fn state_merkle_tree_canopy_depth() -> (depth: u64)
    ensures
        depth == 10,
{
    account_compression::utils::constants::STATE_MERKLE_TREE_CANOPY_DEPTH
}

/// Reads the `cpi_context_size` of
/// `light_registry::protocol_config::state::ProtocolConfig::default()`, which is
/// twenty kibibytes and eight bytes.
#[verifier::external_body]
fn default_cpi_context_size() -> (size: u64)
    ensures
        size == 20 * 1024 + 8,
{
    light_registry::protocol_config::state::ProtocolConfig::default().cpi_context_size
}

/// Size of the CPI context account that a state tree rollover creates.
pub fn cpi_context_account_size() -> (size: usize)
    ensures
        size == 20488,
{
    default_cpi_context_size() as usize
}

/// Sizes of a state tree account and of its nullifier queue account, tree
/// first. None where the most that the tree account can take is beyond the
/// sizes of the machine. Each size lies between the least and the most that the
/// dimensions take.
pub fn state_merkle_tree_and_queue_sizes(
    merkle_tree_config: &StateMerkleTreeConfig,
    queue_config: &NullifierQueueConfig,
) -> (sizes: Option<(usize, usize)>)
    ensures
        sizes.is_some() == merkle_tree_config.sizeable(),
        sizes matches Some((tree_size, queue_size)) ==> (spec_min_tree_account_size(
            merkle_tree_config.height,
            merkle_tree_config.roots_size,
            merkle_tree_config.canopy_depth,
        ) <= tree_size <= spec_max_tree_account_size(
            merkle_tree_config.height,
            merkle_tree_config.changelog_size,
            merkle_tree_config.roots_size,
            merkle_tree_config.canopy_depth,
            0,
        ) && spec_min_queue_account_size(queue_config.capacity) <= queue_size
            <= spec_max_queue_account_size(queue_config.capacity)),
{
    if !merkle_tree_config.is_sizeable() {
        return None;
    }
    match queue_account_size(queue_config.capacity) {
        Some(queue_size) => Some((state_tree_account_size(merkle_tree_config), queue_size)),
        None => None,
    }
}

/// Sizes of an address tree account and of its queue account, tree first.
/// None where the most that the tree account can take is beyond the sizes of
/// the machine. Each size lies between the least and the most that the
/// dimensions take.
pub fn address_merkle_tree_and_queue_sizes(
    address_merkle_tree_config: &AddressMerkleTreeConfig,
    address_queue_config: &AddressQueueConfig,
) -> (sizes: Option<(usize, usize)>)
    ensures
        sizes.is_some() == address_merkle_tree_config.sizeable(),
        sizes matches Some((tree_size, queue_size)) ==> (spec_min_tree_account_size(
            address_merkle_tree_config.height,
            address_merkle_tree_config.roots_size,
            address_merkle_tree_config.canopy_depth,
        ) <= tree_size <= spec_max_tree_account_size(
            address_merkle_tree_config.height,
            address_merkle_tree_config.changelog_size,
            address_merkle_tree_config.roots_size,
            address_merkle_tree_config.canopy_depth,
            address_merkle_tree_config.address_changelog_size,
        ) && spec_min_queue_account_size(address_queue_config.capacity) <= queue_size
            <= spec_max_queue_account_size(address_queue_config.capacity)),
{
    if !address_merkle_tree_config.is_sizeable() {
        return None;
    }
    match queue_account_size(address_queue_config.capacity) {
        Some(queue_size) => Some(
            (address_tree_account_size(address_merkle_tree_config), queue_size),
        ),
        None => None,
    }
}

/// Pairs the sizes of a state tree account and its queue account with the
/// balances that the ledger quoted for them: tree first, queue second.
pub fn get_rent_exemption_for_state_merkle_tree_and_queue(
    tree_size: usize,
    merkle_tree_rent_exempt_lamports: u64,
    queue_size: usize,
    queue_rent_exempt_lamports: u64,
) -> (rent: (RentExemption, RentExemption))
    ensures
        rent.0 == (RentExemption { size: tree_size, lamports: merkle_tree_rent_exempt_lamports }),
        rent.1 == (RentExemption { size: queue_size, lamports: queue_rent_exempt_lamports }),
{
    (
        RentExemption { lamports: merkle_tree_rent_exempt_lamports, size: tree_size },
        RentExemption { lamports: queue_rent_exempt_lamports, size: queue_size },
    )
}

/// Pairs the sizes of an address tree account and its queue account with the
/// balances that the ledger quoted for them: tree first, queue second.
pub fn get_rent_exemption_for_address_merkle_tree_and_queue(
    tree_size: usize,
    merkle_tree_rent_exempt_lamports: u64,
    queue_size: usize,
    queue_rent_exempt_lamports: u64,
) -> (rent: (RentExemption, RentExemption))
    ensures
        rent.0 == (RentExemption { size: tree_size, lamports: merkle_tree_rent_exempt_lamports }),
        rent.1 == (RentExemption { size: queue_size, lamports: queue_rent_exempt_lamports }),
{
    (
        RentExemption { lamports: merkle_tree_rent_exempt_lamports, size: tree_size },
        RentExemption { lamports: queue_rent_exempt_lamports, size: queue_size },
    )
}

/// The instructions of an address tree rollover, in the order in which they
/// are submitted.
pub open spec fn spec_address_rollover_instructions(
    authority: Pubkey,
    new_queue: Pubkey,
    new_merkle_tree: Pubkey,
    old_merkle_tree: Pubkey,
    old_queue: Pubkey,
    merkle_tree_rent: RentExemption,
    queue_rent: RentExemption,
) -> Seq<RolloverInstruction> {
    seq![
        RolloverInstruction::CreateAccount {
            inputs: CreateAccountInputs {
                payer: authority,
                size: queue_rent.size,
                lamports: queue_rent.lamports,
                owner: ProgramId::AccountCompression,
                new_account: new_queue,
            },
        },
        RolloverInstruction::CreateAccount {
            inputs: CreateAccountInputs {
                payer: authority,
                size: merkle_tree_rent.size,
                lamports: merkle_tree_rent.lamports,
                owner: ProgramId::AccountCompression,
                new_account: new_merkle_tree,
            },
        },
        RolloverInstruction::RolloverAddressMerkleTree {
            inputs: CreateRolloverMerkleTreeInstructionInputs {
                authority,
                derivation: authority,
                new_queue,
                new_merkle_tree,
                old_queue,
                old_merkle_tree,
                cpi_context_account: None,
                is_metadata_forester: false,
            },
            epoch: 0,
        },
    ]
}

/// The instructions of a state tree rollover, in the order in which they are
/// submitted.
pub open spec fn spec_state_rollover_instructions(
    authority: Pubkey,
    new_queue: Pubkey,
    new_merkle_tree: Pubkey,
    new_cpi_context: Pubkey,
    old_merkle_tree: Pubkey,
    old_queue: Pubkey,
    merkle_tree_rent: RentExemption,
    queue_rent: RentExemption,
    cpi_context_rent: RentExemption,
) -> Seq<RolloverInstruction> {
    seq![
        RolloverInstruction::CreateAccount {
            inputs: CreateAccountInputs {
                payer: authority,
                size: cpi_context_rent.size,
                lamports: cpi_context_rent.lamports,
                owner: ProgramId::LightSystem,
                new_account: new_cpi_context,
            },
        },
        RolloverInstruction::CreateAccount {
            inputs: CreateAccountInputs {
                payer: authority,
                size: queue_rent.size,
                lamports: queue_rent.lamports,
                owner: ProgramId::AccountCompression,
                new_account: new_queue,
            },
        },
        RolloverInstruction::CreateAccount {
            inputs: CreateAccountInputs {
                payer: authority,
                size: merkle_tree_rent.size,
                lamports: merkle_tree_rent.lamports,
                owner: ProgramId::AccountCompression,
                new_account: new_merkle_tree,
            },
        },
        RolloverInstruction::RolloverStateMerkleTree {
            inputs: CreateRolloverMerkleTreeInstructionInputs {
                authority,
                derivation: authority,
                new_queue,
                new_merkle_tree,
                old_queue,
                old_merkle_tree,
                cpi_context_account: Some(new_cpi_context),
                is_metadata_forester: false,
            },
            epoch: 0,
        },
    ]
}

/// Lists the instructions that replace an address tree and its queue by a
/// fresh pair: the two account creations, queue first, then the rollover.
pub fn create_rollover_address_merkle_tree_instructions(
    authority: &Pubkey,
    new_nullifier_queue: &Pubkey,
    new_address_merkle_tree: &Pubkey,
    merkle_tree_pubkey: &Pubkey,
    nullifier_queue_pubkey: &Pubkey,
    merkle_tree_rent_exemption: RentExemption,
    queue_rent_exemption: RentExemption,
) -> (instructions: Vec<RolloverInstruction>)
    ensures
        instructions@ == spec_address_rollover_instructions(
            *authority,
            *new_nullifier_queue,
            *new_address_merkle_tree,
            *merkle_tree_pubkey,
            *nullifier_queue_pubkey,
            merkle_tree_rent_exemption,
            queue_rent_exemption,
        ),
{
    let mut instructions: Vec<RolloverInstruction> = Vec::new();
    instructions.push(
        RolloverInstruction::CreateAccount {
            inputs: CreateAccountInputs {
                payer: *authority,
                size: queue_rent_exemption.size,
                lamports: queue_rent_exemption.lamports,
                owner: ProgramId::AccountCompression,
                new_account: *new_nullifier_queue,
            },
        },
    );
    instructions.push(
        RolloverInstruction::CreateAccount {
            inputs: CreateAccountInputs {
                payer: *authority,
                size: merkle_tree_rent_exemption.size,
                lamports: merkle_tree_rent_exemption.lamports,
                owner: ProgramId::AccountCompression,
                new_account: *new_address_merkle_tree,
            },
        },
    );
    instructions.push(
        RolloverInstruction::RolloverAddressMerkleTree {
            inputs: CreateRolloverMerkleTreeInstructionInputs {
                authority: *authority,
                derivation: *authority,
                new_queue: *new_nullifier_queue,
                new_merkle_tree: *new_address_merkle_tree,
                old_queue: *nullifier_queue_pubkey,
                old_merkle_tree: *merkle_tree_pubkey,
                cpi_context_account: None,
                is_metadata_forester: false,
            },
            epoch: 0,
        },
    );
    assert(instructions@ =~= spec_address_rollover_instructions(
        *authority,
        *new_nullifier_queue,
        *new_address_merkle_tree,
        *merkle_tree_pubkey,
        *nullifier_queue_pubkey,
        merkle_tree_rent_exemption,
        queue_rent_exemption,
    ));
    instructions
}

/// Lists the instructions that replace a state tree and its queue by a fresh
/// pair: the creation of the CPI context account, of the queue and of the
/// tree, then the rollover.
pub fn create_rollover_state_merkle_tree_instructions(
    authority: &Pubkey,
    new_nullifier_queue: &Pubkey,
    new_state_merkle_tree: &Pubkey,
    new_cpi_context: &Pubkey,
    merkle_tree_pubkey: &Pubkey,
    nullifier_queue_pubkey: &Pubkey,
    state_merkle_tree_rent_exemption: RentExemption,
    queue_rent_exemption: RentExemption,
    rent_cpi_config: u64,
) -> (instructions: Vec<RolloverInstruction>)
    ensures
        instructions@ == spec_state_rollover_instructions(
            *authority,
            *new_nullifier_queue,
            *new_state_merkle_tree,
            *new_cpi_context,
            *merkle_tree_pubkey,
            *nullifier_queue_pubkey,
            state_merkle_tree_rent_exemption,
            queue_rent_exemption,
            RentExemption { size: 20488, lamports: rent_cpi_config },
        ),
{
    let mut instructions: Vec<RolloverInstruction> = Vec::new();
    instructions.push(
        RolloverInstruction::CreateAccount {
            inputs: CreateAccountInputs {
                payer: *authority,
                size: cpi_context_account_size(),
                lamports: rent_cpi_config,
                owner: ProgramId::LightSystem,
                new_account: *new_cpi_context,
            },
        },
    );
    instructions.push(
        RolloverInstruction::CreateAccount {
            inputs: CreateAccountInputs {
                payer: *authority,
                size: queue_rent_exemption.size,
                lamports: queue_rent_exemption.lamports,
                owner: ProgramId::AccountCompression,
                new_account: *new_nullifier_queue,
            },
        },
    );
    instructions.push(
        RolloverInstruction::CreateAccount {
            inputs: CreateAccountInputs {
                payer: *authority,
                size: state_merkle_tree_rent_exemption.size,
                lamports: state_merkle_tree_rent_exemption.lamports,
                owner: ProgramId::AccountCompression,
                new_account: *new_state_merkle_tree,
            },
        },
    );
    instructions.push(
        RolloverInstruction::RolloverStateMerkleTree {
            inputs: CreateRolloverMerkleTreeInstructionInputs {
                authority: *authority,
                derivation: *authority,
                new_queue: *new_nullifier_queue,
                new_merkle_tree: *new_state_merkle_tree,
                old_queue: *nullifier_queue_pubkey,
                old_merkle_tree: *merkle_tree_pubkey,
                cpi_context_account: Some(*new_cpi_context),
                is_metadata_forester: false,
            },
            epoch: 0,
        },
    );
    assert(instructions@ =~= spec_state_rollover_instructions(
        *authority,
        *new_nullifier_queue,
        *new_state_merkle_tree,
        *new_cpi_context,
        *merkle_tree_pubkey,
        *nullifier_queue_pubkey,
        state_merkle_tree_rent_exemption,
        queue_rent_exemption,
        RentExemption { size: 20488, lamports: rent_cpi_config },
    ));
    instructions
}

/// A rollover transaction before it is signed and sent.
#[derive(Clone, Debug, PartialEq, Eq)]
pub struct RolloverTransaction {
    pub instructions: Vec<RolloverInstruction>,
    /// Who pays the fee.
    pub payer: Pubkey,
    /// Whose signatures the transaction carries, in order.
    pub signers: Vec<Pubkey>,
}

/// Assembles the transaction that replaces a state tree and its queue. It
/// is paid for by `payer` and signed by the payer, the new queue and the new
/// tree, in this order.
pub fn perform_state_merkle_tree_roll_over_forester(
    payer: &Pubkey,
    new_queue: &Pubkey,
    new_merkle_tree: &Pubkey,
    new_cpi_context: &Pubkey,
    old_merkle_tree_pubkey: &Pubkey,
    old_queue_pubkey: &Pubkey,
    state_merkle_tree_rent_exemption: RentExemption,
    queue_rent_exemption: RentExemption,
    rent_cpi_config: u64,
) -> (transaction: RolloverTransaction)
    ensures
        transaction.instructions@ == spec_state_rollover_instructions(
            *payer,
            *new_queue,
            *new_merkle_tree,
            *new_cpi_context,
            *old_merkle_tree_pubkey,
            *old_queue_pubkey,
            state_merkle_tree_rent_exemption,
            queue_rent_exemption,
            RentExemption { size: 20488, lamports: rent_cpi_config },
        ),
        transaction.payer == *payer,
        transaction.signers@ == seq![*payer, *new_queue, *new_merkle_tree],
{
    let instructions = create_rollover_state_merkle_tree_instructions(
        payer,
        new_queue,
        new_merkle_tree,
        new_cpi_context,
        old_merkle_tree_pubkey,
        old_queue_pubkey,
        state_merkle_tree_rent_exemption,
        queue_rent_exemption,
        rent_cpi_config,
    );
    let mut signers: Vec<Pubkey> = Vec::new();
    signers.push(*payer);
    signers.push(*new_queue);
    signers.push(*new_merkle_tree);
    assert(signers@ =~= seq![*payer, *new_queue, *new_merkle_tree]);
    RolloverTransaction { instructions, payer: *payer, signers }
}

/// Assembles the transaction that replaces an address tree and its queue.
/// It is paid for by `payer` and signed by the payer, the new queue and the
/// new tree, in this order.
pub fn perform_address_merkle_tree_roll_over(
    payer: &Pubkey,
    new_queue: &Pubkey,
    new_address_merkle_tree: &Pubkey,
    old_merkle_tree_pubkey: &Pubkey,
    old_queue_pubkey: &Pubkey,
    merkle_tree_rent_exemption: RentExemption,
    queue_rent_exemption: RentExemption,
) -> (transaction: RolloverTransaction)
    ensures
        transaction.instructions@ == spec_address_rollover_instructions(
            *payer,
            *new_queue,
            *new_address_merkle_tree,
            *old_merkle_tree_pubkey,
            *old_queue_pubkey,
            merkle_tree_rent_exemption,
            queue_rent_exemption,
        ),
        transaction.payer == *payer,
        transaction.signers@ == seq![*payer, *new_queue, *new_address_merkle_tree],
{
    let instructions = create_rollover_address_merkle_tree_instructions(
        payer,
        new_queue,
        new_address_merkle_tree,
        old_merkle_tree_pubkey,
        old_queue_pubkey,
        merkle_tree_rent_exemption,
        queue_rent_exemption,
    );
    let mut signers: Vec<Pubkey> = Vec::new();
    signers.push(*payer);
    signers.push(*new_queue);
    signers.push(*new_address_merkle_tree);
    assert(signers@ =~= seq![*payer, *new_queue, *new_address_merkle_tree]);
    RolloverTransaction { instructions, payer: *payer, signers }
}

/// Concludes a state tree rollover. Where the transaction was confirmed, the
/// result is what the indexer is told: the fresh accounts with an empty tree
/// of the standard height and canopy depth and no rollover fee. Where it was
/// not, the failure is handed on and the indexer is told nothing.
pub fn rollover_state_merkle_tree(
    new_nullifier_queue: &Pubkey,
    new_merkle_tree: &Pubkey,
    new_cpi_context: &Pubkey,
    submitted: Result<Signature, ForesterError>,
) -> (notice: Result<StateMerkleTreeBundle, ForesterError>)
    ensures
        match submitted {
            Ok(_) => notice == Ok::<StateMerkleTreeBundle, ForesterError>(
                StateMerkleTreeBundle {
                    rollover_fee: 0,
                    accounts: StateMerkleTreeAccounts {
                        merkle_tree: *new_merkle_tree,
                        nullifier_queue: *new_nullifier_queue,
                        cpi_context: *new_cpi_context,
                    },
                    height: 26,
                    canopy_depth: 10,
                },
            ),
            Err(error) => notice == Err::<StateMerkleTreeBundle, ForesterError>(error),
        },
{
    match submitted {
        Ok(_) => Ok(
            StateMerkleTreeBundle {
                rollover_fee: 0,
                accounts: StateMerkleTreeAccounts {
                    merkle_tree: *new_merkle_tree,
                    nullifier_queue: *new_nullifier_queue,
                    cpi_context: *new_cpi_context,
                },
                height: state_merkle_tree_height(),
                canopy_depth: state_merkle_tree_canopy_depth(),
            },
        ),
        Err(error) => Err(error),
    }
}

/// Concludes an address tree rollover. Where the transaction was confirmed,
/// the result is the fresh pair that the indexer is told of. Where it was
/// not, the failure is handed on and the indexer is told nothing.
pub fn rollover_address_merkle_tree(
    new_nullifier_queue: &Pubkey,
    new_merkle_tree: &Pubkey,
    submitted: Result<Signature, ForesterError>,
) -> (notice: Result<AddressMerkleTreeAccounts, ForesterError>)
    ensures
        match submitted {
            Ok(_) => notice == Ok::<AddressMerkleTreeAccounts, ForesterError>(
                AddressMerkleTreeAccounts {
                    merkle_tree: *new_merkle_tree,
                    queue: *new_nullifier_queue,
                },
            ),
            Err(error) => notice == Err::<AddressMerkleTreeAccounts, ForesterError>(error),
        },
{
    match submitted {
        Ok(_) => Ok(
            AddressMerkleTreeAccounts { merkle_tree: *new_merkle_tree, queue: *new_nullifier_queue },
        ),
        Err(error) => Err(error),
    }
}

} // verus!
