use vstd::prelude::*;
use crate::types::{Pubkey, TreeType, WorkItem};

verus! {

/// A non-inclusion witness for a new address: the low element that precedes
/// it and that element's path.
#[derive(Clone, Copy, Debug, PartialEq, Eq)]
pub struct NewAddressProofWithContext {
    pub merkle_tree: [u8; 32],
    pub root: [u8; 32],
    pub root_seq: u64,
    pub low_address_index: u64,
    pub low_address_value: [u8; 32],
    pub low_address_next_index: u64,
    pub low_address_next_value: [u8; 32],
    pub low_address_proof: [[u8; 32]; 16],
}

/// An inclusion witness for a leaf of a state tree.
#[derive(Debug, PartialEq, Eq)]
pub struct MerkleProof {
    /// The leaf, in base 58.
    pub hash: String,
    pub leaf_index: u64,
    pub merkle_tree: String,
    pub merkle_path: Vec<[u8; 32]>,
    pub root_seq: u64,
}

/// The witness that goes with one work item.
#[derive(Debug, PartialEq, Eq)]
pub enum Proof {
    AddressProof(NewAddressProofWithContext),
    StateProof(MerkleProof),
}

/// What an address insertion instruction is built from.
#[derive(Clone, Copy, Debug, PartialEq, Eq)]
pub struct UpdateAddressMerkleTreeInstructionInputs {
    pub authority: Pubkey,
    /// The key that the forester's registration record is derived from.
    pub derivation: Pubkey,
    pub address_merkle_tree: Pubkey,
    pub address_queue: Pubkey,
    pub changelog_index: u16,
    pub indexed_changelog_index: u16,
    pub value: u16,
    pub low_address_index: u64,
    pub low_address_value: [u8; 32],
    pub low_address_next_index: u64,
    pub low_address_next_value: [u8; 32],
    pub low_address_proof: [[u8; 32]; 16],
    pub is_metadata_forester: bool,
}

/// What a nullification instruction is built from.
#[derive(Debug, PartialEq, Eq)]
pub struct CreateNullifyInstructionInputs {
    pub authority: Pubkey,
    pub nullifier_queue: Pubkey,
    pub merkle_tree: Pubkey,
    pub change_log_indices: Vec<u64>,
    pub leaves_queue_indices: Vec<u16>,
    pub indices: Vec<u64>,
    pub proofs: Vec<Vec<[u8; 32]>>,
    pub derivation: Pubkey,
    pub is_metadata_forester: bool,
}

/// One maintenance instruction, before it is encoded for the ledger.
#[derive(Debug, PartialEq, Eq)]
pub enum ForesterInstruction {
    UpdateAddressMerkleTree { inputs: UpdateAddressMerkleTreeInstructionInputs, epoch: u64 },
    Nullify { inputs: CreateNullifyInstructionInputs, epoch: u64 },
}

/// What the indexer is told after a confirmed batch, for one work item.
#[derive(Debug, PartialEq, Eq)]
pub enum IndexerUpdate {
    AddressTreeUpdated { merkle_tree: Pubkey, address_proof: NewAddressProofWithContext },
    AccountNullified { merkle_tree: Pubkey, hash: String },
}

/// Number of changelog entries that an address tree keeps.
pub const ADDRESS_CHANGELOG_WINDOW: u64 = 1400;

/// Number of indexed changelog entries that an address tree keeps.
pub const ADDRESS_INDEXED_CHANGELOG_WINDOW: u64 = 1400;

/// Number of changelog entries that a state tree keeps.
pub const STATE_CHANGELOG_WINDOW: u64 = 1400;

/// The text that `bs58` gives for a byte string in its default alphabet.
pub uninterp spec fn base58_encoding(bytes: Seq<u8>) -> Seq<char>;

/// Calls `bs58::encode` and `into_string` on the 32 bytes of a hash, which
/// gives their base-58 text in the default alphabet.
#[verifier::external_body]
fn encode_base58(hash: &[u8; 32]) -> (text: String)
    ensures
        text@ == base58_encoding(hash@),
{
    bs58::encode(hash).into_string()
}

/// Reads `account_compression::utils::constants::ADDRESS_MERKLE_TREE_CHANGELOG`,
/// which is 1400.
#[verifier::external_body]
fn address_merkle_tree_changelog() -> (window: u64)
    ensures
        window == ADDRESS_CHANGELOG_WINDOW,
{
    account_compression::utils::constants::ADDRESS_MERKLE_TREE_CHANGELOG
}

/// Reads
/// `account_compression::utils::constants::ADDRESS_MERKLE_TREE_INDEXED_CHANGELOG`,
/// which is 1400.
#[verifier::external_body]
fn address_merkle_tree_indexed_changelog() -> (window: u64)
    ensures
        window == ADDRESS_INDEXED_CHANGELOG_WINDOW,
{
    account_compression::utils::constants::ADDRESS_MERKLE_TREE_INDEXED_CHANGELOG
}

/// Reads `account_compression::utils::constants::STATE_MERKLE_TREE_CHANGELOG`,
/// which is 1400.
#[verifier::external_body]
fn state_merkle_tree_changelog() -> (window: u64)
    ensures
        window == STATE_CHANGELOG_WINDOW,
{
    account_compression::utils::constants::STATE_MERKLE_TREE_CHANGELOG
}

/// The work items of `items` that belong to trees of type `tree_type`, in
/// their order.
pub open spec fn spec_items_of_type(items: Seq<WorkItem>, tree_type: TreeType) -> Seq<WorkItem>
    decreases items.len(),
{
    if items.len() == 0 {
        Seq::empty()
    } else {
        let before = spec_items_of_type(items.drop_last(), tree_type);
        if items.last().tree_account.tree_type == tree_type {
            before.push(items.last())
        } else {
            before
        }
    }
}

/// The hashes of `items`, in their order.
pub open spec fn spec_hashes(items: Seq<WorkItem>) -> Seq<Seq<u8>> {
    Seq::new(items.len(), |i: int| items[i].queue_item_data.hash@)
}

/// The low 16 bits of a queue index.
pub open spec fn spec_queue_value(index: u32) -> u16 {
    (index % 65536) as u16
}

/// The inputs of the address insertion for one work item and its witness.
pub open spec fn spec_update_address_inputs(
    authority: Pubkey,
    item: WorkItem,
    witness: NewAddressProofWithContext,
) -> UpdateAddressMerkleTreeInstructionInputs {
    UpdateAddressMerkleTreeInstructionInputs {
        authority,
        derivation: authority,
        address_merkle_tree: item.tree_account.merkle_tree,
        address_queue: item.tree_account.queue,
        changelog_index: (witness.root_seq % ADDRESS_CHANGELOG_WINDOW) as u16,
        indexed_changelog_index: (witness.root_seq % ADDRESS_INDEXED_CHANGELOG_WINDOW) as u16,
        value: spec_queue_value(item.queue_item_data.index),
        low_address_index: witness.low_address_index,
        low_address_value: witness.low_address_value,
        low_address_next_index: witness.low_address_next_index,
        low_address_next_value: witness.low_address_next_value,
        low_address_proof: witness.low_address_proof,
        is_metadata_forester: false,
    }
}

/// `inputs` are the inputs of the nullification for one work item and its
/// witness: one leaf, one changelog index, one path.
pub open spec fn is_nullify_inputs_for(
    inputs: CreateNullifyInstructionInputs,
    authority: Pubkey,
    item: WorkItem,
    witness: MerkleProof,
) -> bool {
    &&& inputs.authority == authority
    &&& inputs.derivation == authority
    &&& inputs.nullifier_queue == item.tree_account.queue
    &&& inputs.merkle_tree == item.tree_account.merkle_tree
    &&& inputs.change_log_indices@ == seq![(witness.root_seq % STATE_CHANGELOG_WINDOW) as u64]
    &&& inputs.leaves_queue_indices@ == seq![spec_queue_value(item.queue_item_data.index)]
    &&& inputs.indices@ == seq![witness.leaf_index]
    &&& inputs.proofs@.len() == 1
    &&& inputs.proofs@[0]@ == witness.merkle_path@
    &&& !inputs.is_metadata_forester
}

/// `copy` holds what `proof` holds.
pub open spec fn is_same_merkle_proof(copy: MerkleProof, witness: MerkleProof) -> bool {
    &&& copy.hash@ == witness.hash@
    &&& copy.leaf_index == witness.leaf_index
    &&& copy.merkle_tree@ == witness.merkle_tree@
    &&& copy.merkle_path@ == witness.merkle_path@
    &&& copy.root_seq == witness.root_seq
}

/// The work items of one tree type, in their order.
pub fn items_of_type(work_items: &Vec<WorkItem>, tree_type: TreeType) -> (chosen: Vec<WorkItem>)
    ensures
        chosen@ == spec_items_of_type(work_items@, tree_type),
{
    let mut chosen: Vec<WorkItem> = Vec::new();
    let mut i: usize = 0;
    while i < work_items.len()
        invariant
            i <= work_items.len(),
            chosen@ == spec_items_of_type(work_items@.take(i as int), tree_type),
        decreases work_items.len() - i,
    {
        proof {
            assert(work_items@.take(i + 1).drop_last() =~= work_items@.take(i as int));
        }
        if work_items[i].tree_account.tree_type == tree_type {
            chosen.push(work_items[i]);
        }
        i += 1;
    }
    proof {
        assert(work_items@.take(i as int) =~= work_items@);
    }
    chosen
}

/// Splits a chunk of work items by tree type: address items first, state
/// items second, each in their order.
pub fn partition_work_items(work_items: &Vec<WorkItem>) -> (parts: (Vec<WorkItem>, Vec<WorkItem>))
    ensures
        parts.0@ == spec_items_of_type(work_items@, TreeType::Address),
        parts.1@ == spec_items_of_type(work_items@, TreeType::State),
{
    (items_of_type(work_items, TreeType::Address), items_of_type(work_items, TreeType::State))
}

/// What the indexer is asked for the address items of a chunk: the tree of
/// the first item and the addresses of all of them. None where there is no
/// address item.
pub fn address_proof_request(address_items: &Vec<WorkItem>) -> (request: Option<
    ([u8; 32], Vec<[u8; 32]>),
>)
    ensures
        request.is_some() == (address_items@.len() > 0),
        request matches Some((tree, addresses)) ==> tree == address_items@[0].tree_account.merkle_tree.bytes
            && addresses@.len() == address_items@.len() && forall|i: int|
            0 <= i < addresses@.len() ==> #[trigger] addresses@[i]
                == address_items@[i].queue_item_data.hash,
{
    if address_items.len() == 0 {
        return None;
    }
    let mut addresses: Vec<[u8; 32]> = Vec::new();
    let mut i: usize = 0;
    while i < address_items.len()
        invariant
            i <= address_items.len(),
            addresses@.len() == i,
            forall|j: int|
                0 <= j < i ==> #[trigger] addresses@[j] == address_items@[j].queue_item_data.hash,
        decreases address_items.len() - i,
    {
        addresses.push(address_items[i].queue_item_data.hash);
        i += 1;
    }
    Some((address_items[0].tree_account.merkle_tree.to_bytes(), addresses))
}

/// What the indexer is asked for the state items of a chunk: the hash of
/// each, as base-58 text.
pub fn state_proof_request(state_items: &Vec<WorkItem>) -> (hashes: Vec<String>)
    ensures
        hashes@.len() == state_items@.len(),
        forall|i: int|
            0 <= i < hashes@.len() ==> (#[trigger] hashes@[i])@ == base58_encoding(
                state_items@[i].queue_item_data.hash@,
            ),
{
    let mut hashes: Vec<String> = Vec::new();
    let mut i: usize = 0;
    while i < state_items.len()
        invariant
            i <= state_items.len(),
            hashes@.len() == i,
            forall|j: int|
                0 <= j < i ==> (#[trigger] hashes@[j])@ == base58_encoding(
                    state_items@[j].queue_item_data.hash@,
                ),
        decreases state_items.len() - i,
    {
        hashes.push(encode_base58(&state_items[i].queue_item_data.hash));
        i += 1;
    }
    hashes
}

fn queue_value(index: u32) -> (value: u16)
    ensures
        value == spec_queue_value(index),
{
    (index % 65536) as u16
}

fn copy_path(path: &Vec<[u8; 32]>) -> (copy: Vec<[u8; 32]>)
    ensures
        copy@ == path@,
{
    let mut copy: Vec<[u8; 32]> = Vec::new();
    let mut i: usize = 0;
    while i < path.len()
        invariant
            i <= path.len(),
            copy@ == path@.take(i as int),
        decreases path.len() - i,
    {
        copy.push(path[i]);
        assert(copy@ =~= path@.take(i + 1));
        i += 1;
    }
    assert(path@.take(i as int) =~= path@);
    copy
}

impl MerkleProof {
    /// A copy that holds what this witness holds.
    pub fn duplicate(&self) -> (copy: MerkleProof)
        ensures
            is_same_merkle_proof(copy, *self),
    {
        MerkleProof {
            hash: self.hash.clone(),
            leaf_index: self.leaf_index,
            merkle_tree: self.merkle_tree.clone(),
            merkle_path: copy_path(&self.merkle_path),
            root_seq: self.root_seq,
        }
    }
}

/// The address insertion for one work item and its witness.
pub fn create_update_address_merkle_tree_inputs(
    authority: &Pubkey,
    item: &WorkItem,
    witness: &NewAddressProofWithContext,
) -> (inputs: UpdateAddressMerkleTreeInstructionInputs)
    ensures
        inputs == spec_update_address_inputs(*authority, *item, *witness),
{
    UpdateAddressMerkleTreeInstructionInputs {
        authority: *authority,
        derivation: *authority,
        address_merkle_tree: item.tree_account.merkle_tree,
        address_queue: item.tree_account.queue,
        changelog_index: (witness.root_seq % address_merkle_tree_changelog()) as u16,
        indexed_changelog_index: (witness.root_seq % address_merkle_tree_indexed_changelog()) as u16,
        value: queue_value(item.queue_item_data.index),
        low_address_index: witness.low_address_index,
        low_address_value: witness.low_address_value,
        low_address_next_index: witness.low_address_next_index,
        low_address_next_value: witness.low_address_next_value,
        low_address_proof: witness.low_address_proof,
        is_metadata_forester: false,
    }
}

/// The nullification for one work item and its witness.
pub fn create_nullify_inputs(authority: &Pubkey, item: &WorkItem, witness: &MerkleProof) -> (inputs:
    CreateNullifyInstructionInputs)
    ensures
        is_nullify_inputs_for(inputs, *authority, *item, *witness),
{
    let mut change_log_indices: Vec<u64> = Vec::new();
    change_log_indices.push(witness.root_seq % state_merkle_tree_changelog());
    let mut leaves_queue_indices: Vec<u16> = Vec::new();
    leaves_queue_indices.push(queue_value(item.queue_item_data.index));
    let mut indices: Vec<u64> = Vec::new();
    indices.push(witness.leaf_index);
    let mut proofs: Vec<Vec<[u8; 32]>> = Vec::new();
    proofs.push(copy_path(&witness.merkle_path));
    assert(change_log_indices@ =~= seq![(witness.root_seq % STATE_CHANGELOG_WINDOW) as u64]);
    assert(leaves_queue_indices@ =~= seq![spec_queue_value(item.queue_item_data.index)]);
    assert(indices@ =~= seq![witness.leaf_index]);
    CreateNullifyInstructionInputs {
        authority: *authority,
        nullifier_queue: item.tree_account.queue,
        merkle_tree: item.tree_account.merkle_tree,
        change_log_indices,
        leaves_queue_indices,
        indices,
        proofs,
        derivation: *authority,
        is_metadata_forester: false,
    }
}

/// The smaller of two lengths.
pub open spec fn min_len(a: int, b: int) -> int {
    if a <= b {
        a
    } else {
        b
    }
}

/// `proofs` and `instructions` are what a chunk of work items and the
/// witnesses fetched for it give: first one address insertion for each
/// address item that has a witness, then one nullification for each state
/// item that has one, each list in the order of the items.
pub open spec fn is_batch_for(
    proofs: Seq<Proof>,
    instructions: Seq<ForesterInstruction>,
    authority: Pubkey,
    epoch: u64,
    work_items: Seq<WorkItem>,
    address_proofs: Seq<NewAddressProofWithContext>,
    state_proofs: Seq<MerkleProof>,
) -> bool {
    let address_items = spec_items_of_type(work_items, TreeType::Address);
    let state_items = spec_items_of_type(work_items, TreeType::State);
    let n_address = min_len(address_items.len() as int, address_proofs.len() as int);
    let n_state = min_len(state_items.len() as int, state_proofs.len() as int);
    &&& proofs.len() == n_address + n_state
    &&& instructions.len() == n_address + n_state
    &&& forall|i: int|
        0 <= i < n_address ==> (#[trigger] proofs[i]) == Proof::AddressProof(address_proofs[i])
    &&& forall|i: int|
        0 <= i < n_address ==> (#[trigger] instructions[i])
            == (ForesterInstruction::UpdateAddressMerkleTree {
            inputs: spec_update_address_inputs(authority, address_items[i], address_proofs[i]),
            epoch,
        })
    &&& forall|i: int|
        0 <= i < n_state ==> ((#[trigger] proofs[n_address + i]) matches Proof::StateProof(p)
            && is_same_merkle_proof(p, state_proofs[i]))
    &&& forall|i: int|
        0 <= i < n_state ==> ((#[trigger] instructions[n_address + i])
            matches ForesterInstruction::Nullify { inputs, epoch: e } && e == epoch
            && is_nullify_inputs_for(inputs, authority, state_items[i], state_proofs[i]))
}

/// Every work item is an address item or a state item.
pub proof fn lemma_partition_covers_items(items: Seq<WorkItem>)
    ensures
        spec_items_of_type(items, TreeType::Address).len() + spec_items_of_type(
            items,
            TreeType::State,
        ).len() == items.len(),
    decreases items.len(),
{
    if items.len() > 0 {
        lemma_partition_covers_items(items.drop_last());
    }
}

/// Where the indexer returned a witness for every item, a batch holds one
/// witness and one instruction for each work item.
pub proof fn lemma_batch_has_one_instruction_per_item(
    proofs: Seq<Proof>,
    instructions: Seq<ForesterInstruction>,
    authority: Pubkey,
    epoch: u64,
    work_items: Seq<WorkItem>,
    address_proofs: Seq<NewAddressProofWithContext>,
    state_proofs: Seq<MerkleProof>,
)
    requires
        is_batch_for(proofs, instructions, authority, epoch, work_items, address_proofs, state_proofs),
        address_proofs.len() >= spec_items_of_type(work_items, TreeType::Address).len(),
        state_proofs.len() >= spec_items_of_type(work_items, TreeType::State).len(),
    ensures
        instructions.len() == work_items.len(),
        proofs.len() == work_items.len(),
{
    lemma_partition_covers_items(work_items);
}

/// Builds the witnesses and instructions of one chunk of work items from the
/// witnesses that the indexer returned for its address items and for its
/// state items.
pub fn fetch_proofs_and_create_instructions(
    authority: &Pubkey,
    epoch: u64,
    work_items: &Vec<WorkItem>,
    address_proofs: &Vec<NewAddressProofWithContext>,
    state_proofs: &Vec<MerkleProof>,
) -> (batch: (Vec<Proof>, Vec<ForesterInstruction>))
    ensures
        is_batch_for(
            batch.0@,
            batch.1@,
            *authority,
            epoch,
            work_items@,
            address_proofs@,
            state_proofs@,
        ),
{
    let mut proofs: Vec<Proof> = Vec::new();
    let mut instructions: Vec<ForesterInstruction> = Vec::new();
    let (address_items, state_items) = partition_work_items(work_items);
    let n_address = if address_items.len() <= address_proofs.len() {
        address_items.len()
    } else {
        address_proofs.len()
    };
    let n_state = if state_items.len() <= state_proofs.len() {
        state_items.len()
    } else {
        state_proofs.len()
    };
    let mut i: usize = 0;
    while i < n_address
        invariant
            i <= n_address,
            n_address <= address_items@.len(),
            n_address <= address_proofs@.len(),
            proofs@.len() == i,
            instructions@.len() == i,
            forall|j: int|
                0 <= j < i ==> (#[trigger] proofs@[j]) == Proof::AddressProof(address_proofs@[j]),
            forall|j: int|
                0 <= j < i ==> (#[trigger] instructions@[j])
                    == (ForesterInstruction::UpdateAddressMerkleTree {
                    inputs: spec_update_address_inputs(
                        *authority,
                        address_items@[j],
                        address_proofs@[j],
                    ),
                    epoch,
                }),
        decreases n_address - i,
    {
        proofs.push(Proof::AddressProof(address_proofs[i]));
        let inputs = create_update_address_merkle_tree_inputs(
            authority,
            &address_items[i],
            &address_proofs[i],
        );
        instructions.push(ForesterInstruction::UpdateAddressMerkleTree { inputs, epoch });
        i += 1;
    }
    let mut k: usize = 0;
    while k < n_state
        invariant
            k <= n_state,
            n_state <= state_items@.len(),
            n_state <= state_proofs@.len(),
            proofs@.len() == n_address + k,
            instructions@.len() == n_address + k,
            forall|j: int|
                0 <= j < n_address ==> (#[trigger] proofs@[j]) == Proof::AddressProof(
                    address_proofs@[j],
                ),
            forall|j: int|
                0 <= j < n_address ==> (#[trigger] instructions@[j])
                    == (ForesterInstruction::UpdateAddressMerkleTree {
                    inputs: spec_update_address_inputs(
                        *authority,
                        address_items@[j],
                        address_proofs@[j],
                    ),
                    epoch,
                }),
            forall|j: int|
                0 <= j < k ==> ((#[trigger] proofs@[n_address + j]) matches Proof::StateProof(p)
                    && is_same_merkle_proof(p, state_proofs@[j])),
            forall|j: int|
                0 <= j < k ==> ((#[trigger] instructions@[n_address + j])
                    matches ForesterInstruction::Nullify { inputs, epoch: e } && e == epoch
                    && is_nullify_inputs_for(inputs, *authority, state_items@[j], state_proofs@[j])),
        decreases n_state - k,
    {
        let ghost old_proofs = proofs@;
        let ghost old_instructions = instructions@;
        proofs.push(Proof::StateProof(state_proofs[k].duplicate()));
        let inputs = create_nullify_inputs(authority, &state_items[k], &state_proofs[k]);
        instructions.push(ForesterInstruction::Nullify { inputs, epoch });
        proof {
            assert forall|j: int| 0 <= j < k + 1 implies ((#[trigger] proofs@[n_address + j])
                matches Proof::StateProof(p) && is_same_merkle_proof(p, state_proofs@[j])) by {
                if j < k {
                    assert(proofs@[n_address + j] == old_proofs[n_address + j]);
                }
            }
            assert forall|j: int| 0 <= j < k + 1 implies ((#[trigger] instructions@[n_address + j])
                matches ForesterInstruction::Nullify { inputs, epoch: e } && e == epoch
                && is_nullify_inputs_for(inputs, *authority, state_items@[j], state_proofs@[j])) by {
                if j < k {
                    assert(instructions@[n_address + j] == old_instructions[n_address + j]);
                }
            }
        }
        k += 1;
    }
    (proofs, instructions)
}

/// `update` is what the indexer is told for one work item and its witness:
/// an address tree update with the witness, or the nullification of the
/// witness's leaf, in the tree of the work item.
pub open spec fn is_indexer_update_for(update: IndexerUpdate, item: WorkItem, witness: Proof) -> bool {
    match witness {
        Proof::AddressProof(address_proof) => update == (IndexerUpdate::AddressTreeUpdated {
            merkle_tree: item.tree_account.merkle_tree,
            address_proof,
        }),
        Proof::StateProof(state_proof) => update matches IndexerUpdate::AccountNullified {
            merkle_tree,
            hash,
        } && merkle_tree == item.tree_account.merkle_tree && hash@ == state_proof.hash@,
    }
}

/// Lists what the indexer is told after a confirmed batch: one update for
/// each work item that has a witness, in their order.
pub fn update_indexer(work_items: &Vec<WorkItem>, proofs: &Vec<Proof>) -> (updates: Vec<
    IndexerUpdate,
>)
    ensures
        updates@.len() == min_len(work_items@.len() as int, proofs@.len() as int),
        forall|i: int|
            0 <= i < updates@.len() ==> is_indexer_update_for(
                #[trigger] updates@[i],
                work_items@[i],
                proofs@[i],
            ),
{
    let n = if work_items.len() <= proofs.len() {
        work_items.len()
    } else {
        proofs.len()
    };
    let mut updates: Vec<IndexerUpdate> = Vec::new();
    let mut i: usize = 0;
    while i < n
        invariant
            i <= n,
            n <= work_items@.len(),
            n <= proofs@.len(),
            updates@.len() == i,
            forall|j: int|
                0 <= j < i ==> is_indexer_update_for(
                    #[trigger] updates@[j],
                    work_items@[j],
                    proofs@[j],
                ),
        decreases n - i,
    {
        let merkle_tree = work_items[i].tree_account.merkle_tree;
        let update = match &proofs[i] {
            Proof::AddressProof(address_proof) => IndexerUpdate::AddressTreeUpdated {
                merkle_tree,
                address_proof: *address_proof,
            },
            Proof::StateProof(state_proof) => IndexerUpdate::AccountNullified {
                merkle_tree,
                hash: state_proof.hash.clone(),
            },
        };
        updates.push(update);
        i += 1;
    }
    updates
}

} // verus!
