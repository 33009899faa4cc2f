use vstd::prelude::*;
use vstd::bytes::{spec_u32_to_le_bytes, spec_u64_to_le_bytes};
use light_registry::account_compression_cpi::sdk::{
    create_nullify_instruction, create_rollover_address_merkle_tree_instruction,
    create_rollover_state_merkle_tree_instruction, create_update_address_merkle_tree_instruction,
};
use crate::instructions::{
    CreateNullifyInstructionInputs, ForesterInstruction, UpdateAddressMerkleTreeInstructionInputs,
};
use crate::rollover::{
    CreateRolloverMerkleTreeInstructionInputs, ProgramId, RolloverInstruction,
};
use crate::types::Pubkey;

verus! {

/// One account that an instruction names.
#[derive(Clone, Copy, Debug, PartialEq, Eq)]
pub struct AccountMeta {
    pub pubkey: Pubkey,
    pub is_signer: bool,
    pub is_writable: bool,
}

/// An instruction as the ledger takes it.
#[derive(Clone, Debug, PartialEq, Eq)]
pub struct EncodedInstruction {
    pub program_id: Pubkey,
    pub accounts: Vec<AccountMeta>,
    pub data: Vec<u8>,
}

/// The contents of an encoded instruction.
pub struct InstructionContents {
    pub program_id: Pubkey,
    pub accounts: Seq<AccountMeta>,
    pub data: Seq<u8>,
}

impl View for EncodedInstruction {
    type V = InstructionContents;

    open spec fn view(&self) -> InstructionContents {
        InstructionContents {
            program_id: self.program_id,
            accounts: self.accounts@,
            data: self.data@,
        }
    }
}

/// The contents of a nullification input.
pub struct NullifyContents {
    pub authority: Pubkey,
    pub nullifier_queue: Pubkey,
    pub merkle_tree: Pubkey,
    pub change_log_indices: Seq<u64>,
    pub leaves_queue_indices: Seq<u16>,
    pub indices: Seq<u64>,
    pub proofs: Seq<Seq<[u8; 32]>>,
    pub derivation: Pubkey,
    pub is_metadata_forester: bool,
}

impl View for CreateNullifyInstructionInputs {
    type V = NullifyContents;

    open spec fn view(&self) -> NullifyContents {
        NullifyContents {
            authority: self.authority,
            nullifier_queue: self.nullifier_queue,
            merkle_tree: self.merkle_tree,
            change_log_indices: self.change_log_indices@,
            leaves_queue_indices: self.leaves_queue_indices@,
            indices: self.indices@,
            proofs: Seq::new(self.proofs@.len(), |i: int| self.proofs@[i]@),
            derivation: self.derivation,
            is_metadata_forester: self.is_metadata_forester,
        }
    }
}

// The builders of the registry derive the addresses of its records by a
// search over bump seeds, which fails only if none of the candidate seeds
// gives an address off the curve.

/// The address of the compute budget program.
pub open spec fn spec_compute_budget_program_id() -> Seq<u8> {
    seq![
        3u8, 6, 70, 111, 229, 33, 23, 50, 255, 236, 173, 186, 114, 195, 155, 231,
        188, 140, 229, 187, 197, 247, 18, 107, 44, 67, 155, 58, 64, 0, 0, 0,
    ]
}

/// The address of the system program: thirty-two zero bytes.
pub open spec fn spec_system_program_id() -> Seq<u8> {
    Seq::new(32, |i: int| 0u8)
}

/// `built` sets the compute unit limit of a transaction to `units`: it goes
/// to the compute budget program, names no account, and holds the tag 2 and
/// the limit in little-endian bytes.
pub open spec fn is_compute_unit_limit_instruction(built: InstructionContents, units: u32) -> bool {
    &&& built.program_id@ == spec_compute_budget_program_id()
    &&& built.accounts.len() == 0
    &&& built.data == seq![2u8] + spec_u32_to_le_bytes(units)
}

/// `built` creates an account: it goes to the system program, names the
/// payer and the new account, both signing and writable, and holds the tag 0
/// in four bytes, the balance and the size in eight little-endian bytes each,
/// and the address of the owning program.
pub open spec fn is_create_account_instruction(
    built: InstructionContents,
    payer: Pubkey,
    new_account: Pubkey,
    lamports: u64,
    space: u64,
    owner: Seq<u8>,
) -> bool {
    &&& built.program_id@ == spec_system_program_id()
    &&& built.accounts.len() == 2
    &&& built.accounts[0].pubkey@ == payer@
    &&& built.accounts[0].is_signer
    &&& built.accounts[0].is_writable
    &&& built.accounts[1].pubkey@ == new_account@
    &&& built.accounts[1].is_signer
    &&& built.accounts[1].is_writable
    &&& built.data == spec_u32_to_le_bytes(0) + spec_u64_to_le_bytes(lamports)
        + spec_u64_to_le_bytes(space) + owner
}

/// What the registry's builder gives for a nullification.
pub uninterp spec fn nullify_instruction(inputs: NullifyContents, epoch: u64) -> InstructionContents;

/// What the registry's builder gives for an address insertion.
pub uninterp spec fn update_address_merkle_tree_instruction(
    inputs: UpdateAddressMerkleTreeInstructionInputs,
    epoch: u64,
) -> InstructionContents;

/// What the registry's builder gives for the rollover of a state tree.
pub uninterp spec fn rollover_state_merkle_tree_instruction(
    inputs: CreateRolloverMerkleTreeInstructionInputs,
    epoch: u64,
) -> InstructionContents;

/// What the registry's builder gives for the rollover of an address tree.
pub uninterp spec fn rollover_address_merkle_tree_instruction(
    inputs: CreateRolloverMerkleTreeInstructionInputs,
    epoch: u64,
) -> InstructionContents;

/// What the registry's builder gives for the finalisation of a registration.
pub uninterp spec fn finalize_registration_instruction(
    authority: Pubkey,
    derivation: Pubkey,
    epoch: u64,
) -> InstructionContents;

/// What the registry's builder gives for a report of work.
pub uninterp spec fn report_work_instruction(
    authority: Pubkey,
    derivation: Pubkey,
    epoch: u64,
) -> InstructionContents;

/// The address of a program that owns accounts created at a rollover.
pub open spec fn spec_program_id(program: ProgramId) -> Seq<u8> {
    match program {
        ProgramId::AccountCompression => seq![
            9u8, 44, 54, 236, 34, 245, 23, 131, 0, 253, 180, 74, 170, 106, 255, 207,
            240, 164, 110, 28, 188, 100, 28, 14, 62, 208, 157, 161, 59, 158, 245, 8,
        ],
        ProgramId::LightSystem => seq![
            6u8, 167, 85, 248, 33, 57, 5, 77, 68, 36, 177, 90, 240, 196, 48, 207,
            47, 75, 127, 152, 121, 58, 218, 18, 82, 212, 143, 54, 102, 198, 203, 206,
        ],
    }
}

/// Reads `account_compression::ID`, the address that the account compression
/// program declares for itself.
#[verifier::external_body]
fn account_compression_id() -> (id: Pubkey)
    ensures
        id@ == spec_program_id(ProgramId::AccountCompression),
{
    Pubkey { bytes: account_compression::ID.to_bytes() }
}

/// Reads `light_system_program::ID`, the address that the system program of
/// the protocol declares for itself.
#[verifier::external_body]
fn light_system_program_id() -> (id: Pubkey)
    ensures
        id@ == spec_program_id(ProgramId::LightSystem),
{
    Pubkey { bytes: light_system_program::ID.to_bytes() }
}

/// Calls `solana_sdk::compute_budget::ComputeBudgetInstruction::set_compute_unit_limit`
/// and hands out the program, accounts and data of the instruction it
/// builds: the compute budget program, no account, and the tag 2 followed by
/// the limit in little-endian bytes.
#[verifier::external_body]
fn build_compute_unit_limit(units: u32) -> (built: EncodedInstruction)
    ensures
        is_compute_unit_limit_instruction(built@, units),
{
    let ix = solana_sdk::compute_budget::ComputeBudgetInstruction::set_compute_unit_limit(units);
    EncodedInstruction {
        program_id: Pubkey { bytes: ix.program_id.to_bytes() },
        accounts: ix.accounts.iter().map(|a| AccountMeta {
            pubkey: Pubkey { bytes: a.pubkey.to_bytes() }, is_signer: a.is_signer, is_writable: a.is_writable,
        }).collect(),
        data: ix.data,
    }
}

/// Calls `solana_sdk::system_instruction::create_account` and hands out the
/// program, accounts and data of the instruction it builds: the system
/// program, the payer and the new account as writable signers, and the
/// fixed-width little-endian encoding of the creation with its balance, its
/// size and its owner.
#[verifier::external_body]
fn build_create_account(payer: &Pubkey, new_account: &Pubkey, lamports: u64, space: u64, owner: &Pubkey) -> (built:
    EncodedInstruction)
    ensures
        is_create_account_instruction(built@, *payer, *new_account, lamports, space, owner@),
{
    let ix = solana_sdk::system_instruction::create_account(
        &payer.bytes.into(), &new_account.bytes.into(), lamports, space, &owner.bytes.into(),
    );
    EncodedInstruction {
        program_id: Pubkey { bytes: ix.program_id.to_bytes() },
        accounts: ix.accounts.iter().map(|a| AccountMeta {
            pubkey: Pubkey { bytes: a.pubkey.to_bytes() }, is_signer: a.is_signer, is_writable: a.is_writable,
        }).collect(),
        data: ix.data,
    }
}

/// Calls `light_registry::account_compression_cpi::sdk::create_nullify_instruction`
/// and hands out the program, accounts and data of the instruction it builds.
#[verifier::external_body]
fn build_nullify(i: &CreateNullifyInstructionInputs, epoch: u64) -> (built: EncodedInstruction)
    ensures
        built@ == nullify_instruction(i@, epoch),
{
    let ix = create_nullify_instruction(light_registry::account_compression_cpi::sdk::CreateNullifyInstructionInputs {
        authority: i.authority.bytes.into(), nullifier_queue: i.nullifier_queue.bytes.into(),
        merkle_tree: i.merkle_tree.bytes.into(), change_log_indices: i.change_log_indices.clone(),
        leaves_queue_indices: i.leaves_queue_indices.clone(), indices: i.indices.clone(),
        proofs: i.proofs.clone(), derivation: i.derivation.bytes.into(),
        is_metadata_forester: i.is_metadata_forester,
    }, epoch);
    EncodedInstruction {
        program_id: Pubkey { bytes: ix.program_id.to_bytes() },
        accounts: ix.accounts.iter().map(|a| AccountMeta {
            pubkey: Pubkey { bytes: a.pubkey.to_bytes() }, is_signer: a.is_signer, is_writable: a.is_writable,
        }).collect(),
        data: ix.data,
    }
}

/// Calls
/// `light_registry::account_compression_cpi::sdk::create_update_address_merkle_tree_instruction`
/// and hands out the program, accounts and data of the instruction it builds.
#[verifier::external_body]
fn build_update_address(i: &UpdateAddressMerkleTreeInstructionInputs, epoch: u64) -> (built: EncodedInstruction)
    ensures
        built@ == update_address_merkle_tree_instruction(*i, epoch),
{
    let ix = create_update_address_merkle_tree_instruction(light_registry::account_compression_cpi::sdk::UpdateAddressMerkleTreeInstructionInputs {
        authority: i.authority.bytes.into(), derivation: i.derivation.bytes.into(),
        address_merkle_tree: i.address_merkle_tree.bytes.into(), address_queue: i.address_queue.bytes.into(),
        changelog_index: i.changelog_index, indexed_changelog_index: i.indexed_changelog_index,
        value: i.value, low_address_index: i.low_address_index, low_address_value: i.low_address_value,
        low_address_next_index: i.low_address_next_index, low_address_next_value: i.low_address_next_value,
        low_address_proof: i.low_address_proof, is_metadata_forester: i.is_metadata_forester,
    }, epoch);
    EncodedInstruction {
        program_id: Pubkey { bytes: ix.program_id.to_bytes() },
        accounts: ix.accounts.iter().map(|a| AccountMeta {
            pubkey: Pubkey { bytes: a.pubkey.to_bytes() }, is_signer: a.is_signer, is_writable: a.is_writable,
        }).collect(),
        data: ix.data,
    }
}

/// Calls
/// `light_registry::account_compression_cpi::sdk::create_rollover_state_merkle_tree_instruction`,
/// which needs the new CPI context account, and hands out the program,
/// accounts and data of the instruction it builds.
#[verifier::external_body]
fn build_rollover_state(i: &CreateRolloverMerkleTreeInstructionInputs, epoch: u64) -> (built: EncodedInstruction)
    requires
        i.cpi_context_account.is_some(),
    ensures
        built@ == rollover_state_merkle_tree_instruction(*i, epoch),
{
    let ix = create_rollover_state_merkle_tree_instruction(light_registry::account_compression_cpi::sdk::CreateRolloverMerkleTreeInstructionInputs {
        authority: i.authority.bytes.into(), derivation: i.derivation.bytes.into(),
        new_queue: i.new_queue.bytes.into(), new_merkle_tree: i.new_merkle_tree.bytes.into(),
        old_queue: i.old_queue.bytes.into(), old_merkle_tree: i.old_merkle_tree.bytes.into(),
        cpi_context_account: i.cpi_context_account.map(|k| k.bytes.into()),
        is_metadata_forester: i.is_metadata_forester,
    }, epoch);
    EncodedInstruction {
        program_id: Pubkey { bytes: ix.program_id.to_bytes() },
        accounts: ix.accounts.iter().map(|a| AccountMeta {
            pubkey: Pubkey { bytes: a.pubkey.to_bytes() }, is_signer: a.is_signer, is_writable: a.is_writable,
        }).collect(),
        data: ix.data,
    }
}

/// Calls
/// `light_registry::account_compression_cpi::sdk::create_rollover_address_merkle_tree_instruction`
/// and hands out the program, accounts and data of the instruction it builds.
#[verifier::external_body]
fn build_rollover_address(i: &CreateRolloverMerkleTreeInstructionInputs, epoch: u64) -> (built: EncodedInstruction)
    ensures
        built@ == rollover_address_merkle_tree_instruction(*i, epoch),
{
    let ix = create_rollover_address_merkle_tree_instruction(light_registry::account_compression_cpi::sdk::CreateRolloverMerkleTreeInstructionInputs {
        authority: i.authority.bytes.into(), derivation: i.derivation.bytes.into(),
        new_queue: i.new_queue.bytes.into(), new_merkle_tree: i.new_merkle_tree.bytes.into(),
        old_queue: i.old_queue.bytes.into(), old_merkle_tree: i.old_merkle_tree.bytes.into(),
        cpi_context_account: i.cpi_context_account.map(|k| k.bytes.into()),
        is_metadata_forester: i.is_metadata_forester,
    }, epoch);
    EncodedInstruction {
        program_id: Pubkey { bytes: ix.program_id.to_bytes() },
        accounts: ix.accounts.iter().map(|a| AccountMeta {
            pubkey: Pubkey { bytes: a.pubkey.to_bytes() }, is_signer: a.is_signer, is_writable: a.is_writable,
        }).collect(),
        data: ix.data,
    }
}

/// Calls `light_registry::sdk::create_finalize_registration_instruction` and
/// hands out the program, accounts and data of the instruction it builds.
#[verifier::external_body]
fn build_finalize_registration(authority: &Pubkey, derivation: &Pubkey, epoch: u64) -> (built: EncodedInstruction)
    ensures
        built@ == finalize_registration_instruction(*authority, *derivation, epoch),
{
    let ix = light_registry::sdk::create_finalize_registration_instruction(
        &authority.bytes.into(), &derivation.bytes.into(), epoch,
    );
    EncodedInstruction {
        program_id: Pubkey { bytes: ix.program_id.to_bytes() },
        accounts: ix.accounts.iter().map(|a| AccountMeta {
            pubkey: Pubkey { bytes: a.pubkey.to_bytes() }, is_signer: a.is_signer, is_writable: a.is_writable,
        }).collect(),
        data: ix.data,
    }
}

/// Calls `light_registry::sdk::create_report_work_instruction` and hands out
/// the program, accounts and data of the instruction it builds.
#[verifier::external_body]
fn build_report_work(authority: &Pubkey, derivation: &Pubkey, epoch: u64) -> (built: EncodedInstruction)
    ensures
        built@ == report_work_instruction(*authority, *derivation, epoch),
{
    let ix = light_registry::sdk::create_report_work_instruction(
        &authority.bytes.into(), &derivation.bytes.into(), epoch,
    );
    EncodedInstruction {
        program_id: Pubkey { bytes: ix.program_id.to_bytes() },
        accounts: ix.accounts.iter().map(|a| AccountMeta {
            pubkey: Pubkey { bytes: a.pubkey.to_bytes() }, is_signer: a.is_signer, is_writable: a.is_writable,
        }).collect(),
        data: ix.data,
    }
}

/// The address of a program that owns accounts created at a rollover.
pub fn program_id(program: ProgramId) -> (id: Pubkey)
    ensures
        id@ == spec_program_id(program),
{
    match program {
        ProgramId::AccountCompression => account_compression_id(),
        ProgramId::LightSystem => light_system_program_id(),
    }
}

/// The instruction that finalises the registration of the forester `payer`
/// for `epoch`.
pub fn create_finalize_registration_instruction(payer: &Pubkey, epoch: u64) -> (built:
    EncodedInstruction)
    ensures
        built@ == finalize_registration_instruction(*payer, *payer, epoch),
{
    build_finalize_registration(payer, payer, epoch)
}

/// The instruction that reports the work of the forester `payer` for `epoch`.
pub fn create_report_work_instruction(payer: &Pubkey, epoch: u64) -> (built: EncodedInstruction)
    ensures
        built@ == report_work_instruction(*payer, *payer, epoch),
{
    build_report_work(payer, payer, epoch)
}

/// What a maintenance instruction is encoded as.
pub open spec fn spec_encode_forester_instruction(instruction: ForesterInstruction) -> InstructionContents {
    match instruction {
        ForesterInstruction::UpdateAddressMerkleTree { inputs, epoch } =>
            update_address_merkle_tree_instruction(inputs, epoch),
        ForesterInstruction::Nullify { inputs, epoch } => nullify_instruction(inputs@, epoch),
    }
}

/// Encodes one maintenance instruction.
pub fn encode_forester_instruction(instruction: &ForesterInstruction) -> (built: EncodedInstruction)
    ensures
        built@ == spec_encode_forester_instruction(*instruction),
{
    match instruction {
        ForesterInstruction::UpdateAddressMerkleTree { inputs, epoch } => build_update_address(
            inputs,
            *epoch,
        ),
        ForesterInstruction::Nullify { inputs, epoch } => build_nullify(inputs, *epoch),
    }
}

/// `built` is the transaction of a batch: the compute unit limit first, then
/// the encoding of each instruction of the batch, in their order.
pub open spec fn is_transaction_of(
    built: Seq<EncodedInstruction>,
    cu_limit: u32,
    instructions: Seq<ForesterInstruction>,
) -> bool {
    &&& built.len() == instructions.len() + 1
    &&& is_compute_unit_limit_instruction(built[0]@, cu_limit)
    &&& forall|i: int|
        0 <= i < instructions.len() ==> (#[trigger] built[i + 1])@
            == spec_encode_forester_instruction(instructions[i])
}

/// The instruction that sets the compute unit limit of a transaction.
pub fn set_compute_unit_limit(units: u32) -> (built: EncodedInstruction)
    ensures
        is_compute_unit_limit_instruction(built@, units),
{
    build_compute_unit_limit(units)
}

/// Encodes the transaction of one batch.
pub fn encode_transaction(cu_limit: u32, instructions: &Vec<ForesterInstruction>) -> (built: Vec<
    EncodedInstruction,
>)
    ensures
        is_transaction_of(built@, cu_limit, instructions@),
{
    let mut built: Vec<EncodedInstruction> = Vec::new();
    built.push(set_compute_unit_limit(cu_limit));
    let mut i: usize = 0;
    while i < instructions.len()
        invariant
            i <= instructions@.len(),
            built@.len() == i + 1,
            is_compute_unit_limit_instruction(built@[0]@, cu_limit),
            forall|j: int|
                0 <= j < i ==> (#[trigger] built@[j + 1])@ == spec_encode_forester_instruction(
                    instructions@[j],
                ),
        decreases instructions@.len() - i,
    {
        let ghost before = built@;
        built.push(encode_forester_instruction(&instructions[i]));
        proof {
            assert forall|j: int| 0 <= j < i + 1 implies (#[trigger] built@[j + 1])@
                == spec_encode_forester_instruction(instructions@[j]) by {
                if j < i {
                    assert(built@[j + 1] == before[j + 1]);
                }
            }
        }
        i += 1;
    }
    built
}

/// Encodes one instruction of a rollover. A state tree rollover that names
/// no CPI context account cannot be encoded.
pub fn encode_rollover_instruction(instruction: &RolloverInstruction) -> (built: Option<
    EncodedInstruction,
>)
    ensures
        match *instruction {
            RolloverInstruction::CreateAccount { inputs } => built.is_some()
                && is_create_account_instruction(
                built.unwrap()@,
                inputs.payer,
                inputs.new_account,
                inputs.lamports,
                inputs.size as u64,
                spec_program_id(inputs.owner),
            ),
            RolloverInstruction::RolloverStateMerkleTree { inputs, epoch } => if inputs.cpi_context_account.is_some() {
                built.is_some() && built.unwrap()@ == rollover_state_merkle_tree_instruction(
                    inputs,
                    epoch,
                )
            } else {
                built.is_none()
            },
            RolloverInstruction::RolloverAddressMerkleTree { inputs, epoch } => built.is_some()
                && built.unwrap()@ == rollover_address_merkle_tree_instruction(inputs, epoch),
        },
{
    match instruction {
        RolloverInstruction::CreateAccount { inputs } => {
            let owner = program_id(inputs.owner);
            let space: u64 = inputs.size as u64;
            let created = build_create_account(
                &inputs.payer,
                &inputs.new_account,
                inputs.lamports,
                space,
                &owner,
            );
            Some(created)
        },
        RolloverInstruction::RolloverStateMerkleTree { inputs, epoch } => {
            if inputs.cpi_context_account.is_some() {
                Some(build_rollover_state(inputs, *epoch))
            } else {
                None
            }
        },
        RolloverInstruction::RolloverAddressMerkleTree { inputs, epoch } => Some(
            build_rollover_address(inputs, *epoch),
        ),
    }
}

} // verus!
