use forester::encode::{
    create_finalize_registration_instruction, create_report_work_instruction,
    encode_forester_instruction, encode_rollover_instruction, encode_transaction, program_id,
    set_compute_unit_limit, AccountMeta, EncodedInstruction,
};
use forester::instructions::{
    create_nullify_inputs, create_update_address_merkle_tree_inputs, ForesterInstruction,
    MerkleProof, NewAddressProofWithContext,
};
use forester::rollover::{
    create_rollover_address_merkle_tree_instructions,
    create_rollover_state_merkle_tree_instructions, CreateRolloverMerkleTreeInstructionInputs,
    ProgramId, RentExemption, RolloverInstruction,
};
use forester::types::{Pubkey, QueueItemData, TreeAccounts, TreeType, WorkItem};
use solana_sdk::instruction::Instruction;

fn key(byte: u8) -> Pubkey {
    Pubkey::new_from_array([byte; 32])
}

fn outside(byte: u8) -> solana_sdk::pubkey::Pubkey {
    solana_sdk::pubkey::Pubkey::new_from_array([byte; 32])
}

fn same(built: &EncodedInstruction, expected: &Instruction) {
    assert_eq!(built.program_id.to_bytes(), expected.program_id.to_bytes());
    assert_eq!(built.data, expected.data);
    let accounts: Vec<AccountMeta> = expected
        .accounts
        .iter()
        .map(|a| AccountMeta {
            pubkey: Pubkey::new_from_array(a.pubkey.to_bytes()),
            is_signer: a.is_signer,
            is_writable: a.is_writable,
        })
        .collect();
    assert_eq!(built.accounts, accounts);
}

fn item(tree_type: TreeType) -> WorkItem {
    WorkItem {
        tree_account: TreeAccounts::new(key(1), key(2), tree_type),
        queue_item_data: QueueItemData { hash: [3; 32], index: 4 },
    }
}

#[test]
fn program_ids_are_the_declared_addresses() {
    let compression = program_id(ProgramId::AccountCompression);
    assert_eq!(
        compression.to_bytes().to_vec(),
        bs58::decode("compr6CUsB5m2jS4Y3831ztGSTnDpnKJTKS95d64XVq").into_vec().unwrap()
    );
    assert_eq!(compression.to_bytes(), account_compression::ID.to_bytes());
    assert_eq!(compression.to_bytes()[0], 9);
    assert_eq!(compression.to_bytes()[31], 8);
    let system = program_id(ProgramId::LightSystem);
    assert_eq!(
        system.to_bytes().to_vec(),
        bs58::decode("SySTEM1eSU2p4BGQfQpimFEWWSC1XDFeun3Nqzz3rT7").into_vec().unwrap()
    );
    assert_eq!(system.to_bytes(), light_system_program::ID.to_bytes());
    assert_eq!(system.to_bytes()[0], 6);
    assert_eq!(system.to_bytes()[31], 206);
}

#[test]
fn program_ids_byte_by_byte() {
    assert_eq!(
        program_id(ProgramId::AccountCompression).to_bytes(),
        [
            9, 44, 54, 236, 34, 245, 23, 131, 0, 253, 180, 74, 170, 106, 255, 207, 240, 164, 110, 28,
            188, 100, 28, 14, 62, 208, 157, 161, 59, 158, 245, 8,
        ]
    );
    assert_eq!(
        program_id(ProgramId::LightSystem).to_bytes(),
        [
            6, 167, 85, 248, 33, 57, 5, 77, 68, 36, 177, 90, 240, 196, 48, 207, 47, 75, 127, 152,
            121, 58, 218, 18, 82, 212, 143, 54, 102, 198, 203, 206,
        ]
    );
}

#[test]
fn compute_unit_limit_is_encoded_by_the_budget_program() {
    let built = set_compute_unit_limit(1_000_000);
    let expected = solana_sdk::compute_budget::ComputeBudgetInstruction::set_compute_unit_limit(1_000_000);
    same(&built, &expected);
    assert!(built.accounts.is_empty());
    assert_eq!(built.data, vec![2, 0x40, 0x42, 0x0f, 0]);
    assert_eq!(
        built.program_id.to_bytes(),
        [
            3, 6, 70, 111, 229, 33, 23, 50, 255, 236, 173, 186, 114, 195, 155, 231, 188, 140, 229,
            187, 197, 247, 18, 107, 44, 67, 155, 58, 64, 0, 0, 0,
        ]
    );
    let other = set_compute_unit_limit(0x0102_0304);
    assert_eq!(other.data, vec![2, 4, 3, 2, 1]);
}

#[test]
fn nullification_is_encoded_by_the_registry() {
    let witness = MerkleProof {
        hash: "leaf".to_string(),
        leaf_index: 77,
        merkle_tree: "tree".to_string(),
        merkle_path: vec![[8; 32]; 16],
        root_seq: 2805,
    };
    let inputs = create_nullify_inputs(&key(50), &item(TreeType::State), &witness);
    let built = encode_forester_instruction(&ForesterInstruction::Nullify { inputs, epoch: 6 });
    let expected = light_registry::account_compression_cpi::sdk::create_nullify_instruction(
        light_registry::account_compression_cpi::sdk::CreateNullifyInstructionInputs {
            authority: outside(50),
            nullifier_queue: outside(2),
            merkle_tree: outside(1),
            change_log_indices: vec![5],
            leaves_queue_indices: vec![4],
            indices: vec![77],
            proofs: vec![vec![[8; 32]; 16]],
            derivation: outside(50),
            is_metadata_forester: false,
        },
        6,
    );
    same(&built, &expected);
    assert_eq!(built.program_id.to_bytes(), light_registry::ID.to_bytes());
    assert!(!built.data.is_empty());
}

#[test]
fn address_insertion_is_encoded_by_the_registry() {
    let witness = NewAddressProofWithContext {
        merkle_tree: [1; 32],
        root: [2; 32],
        root_seq: 1401,
        low_address_index: 3,
        low_address_value: [4; 32],
        low_address_next_index: 5,
        low_address_next_value: [6; 32],
        low_address_proof: [[7; 32]; 16],
    };
    let inputs = create_update_address_merkle_tree_inputs(&key(50), &item(TreeType::Address), &witness);
    let built = encode_forester_instruction(&ForesterInstruction::UpdateAddressMerkleTree { inputs, epoch: 6 });
    let expected = light_registry::account_compression_cpi::sdk::create_update_address_merkle_tree_instruction(
        light_registry::account_compression_cpi::sdk::UpdateAddressMerkleTreeInstructionInputs {
            authority: outside(50),
            derivation: outside(50),
            address_merkle_tree: outside(1),
            address_queue: outside(2),
            changelog_index: 1,
            indexed_changelog_index: 1,
            value: 4,
            low_address_index: 3,
            low_address_value: [4; 32],
            low_address_next_index: 5,
            low_address_next_value: [6; 32],
            low_address_proof: [[7; 32]; 16],
            is_metadata_forester: false,
        },
        6,
    );
    same(&built, &expected);
}

#[test]
fn transaction_is_encoded_in_order() {
    let witness = MerkleProof {
        hash: "leaf".to_string(),
        leaf_index: 77,
        merkle_tree: "tree".to_string(),
        merkle_path: vec![[8; 32]; 16],
        root_seq: 2805,
    };
    let ixs = vec![
        ForesterInstruction::Nullify {
            inputs: create_nullify_inputs(&key(50), &item(TreeType::State), &witness),
            epoch: 6,
        },
        ForesterInstruction::Nullify {
            inputs: create_nullify_inputs(&key(51), &item(TreeType::State), &witness),
            epoch: 6,
        },
    ];
    let built = encode_transaction(5, &ixs);
    assert_eq!(built.len(), 3);
    assert_eq!(built[0], set_compute_unit_limit(5));
    assert_eq!(built[1], encode_forester_instruction(&ixs[0]));
    assert_eq!(built[2], encode_forester_instruction(&ixs[1]));
    assert_ne!(built[1], built[2]);
    assert_eq!(encode_transaction(9, &Vec::new()), vec![set_compute_unit_limit(9)]);
}

#[test]
fn state_rollover_is_encoded() {
    let plan = create_rollover_state_merkle_tree_instructions(
        &key(10),
        &key(11),
        &key(12),
        &key(13),
        &key(1),
        &key(2),
        RentExemption { size: 1000, lamports: 5 },
        RentExemption { size: 2000, lamports: 6 },
        7,
    );
    let built: Vec<EncodedInstruction> =
        plan.iter().map(|ix| encode_rollover_instruction(ix).unwrap()).collect();
    same(
        &built[0],
        &solana_sdk::system_instruction::create_account(&outside(10), &outside(13), 7, 20488, &light_system_program::ID),
    );
    same(
        &built[1],
        &solana_sdk::system_instruction::create_account(&outside(10), &outside(11), 6, 2000, &account_compression::ID),
    );
    same(
        &built[2],
        &solana_sdk::system_instruction::create_account(&outside(10), &outside(12), 5, 1000, &account_compression::ID),
    );
    same(
        &built[3],
        &light_registry::account_compression_cpi::sdk::create_rollover_state_merkle_tree_instruction(
            light_registry::account_compression_cpi::sdk::CreateRolloverMerkleTreeInstructionInputs {
                authority: outside(10),
                derivation: outside(10),
                new_queue: outside(11),
                new_merkle_tree: outside(12),
                old_queue: outside(2),
                old_merkle_tree: outside(1),
                cpi_context_account: Some(outside(13)),
                is_metadata_forester: false,
            },
            0,
        ),
    );
}

#[test]
fn account_creation_is_spelled_out() {
    let plan = create_rollover_address_merkle_tree_instructions(
        &key(10),
        &key(11),
        &key(12),
        &key(1),
        &key(2),
        RentExemption { size: 0x0102, lamports: 0x0a0b_0c0d },
        RentExemption { size: 2000, lamports: 6 },
    );
    let built = encode_rollover_instruction(&plan[1]).unwrap();
    assert_eq!(built.program_id.to_bytes(), [0u8; 32]);
    assert_eq!(
        built.accounts,
        vec![
            AccountMeta { pubkey: key(10), is_signer: true, is_writable: true },
            AccountMeta { pubkey: key(12), is_signer: true, is_writable: true },
        ]
    );
    let mut data = vec![0u8, 0, 0, 0];
    data.extend_from_slice(&0x0a0b_0c0du64.to_le_bytes());
    data.extend_from_slice(&0x0102u64.to_le_bytes());
    data.extend_from_slice(&program_id(ProgramId::AccountCompression).to_bytes());
    assert_eq!(built.data, data);
    assert_eq!(built.data.len(), 52);
    assert_eq!(&built.data[4..12], &[0x0d, 0x0c, 0x0b, 0x0a, 0, 0, 0, 0]);
}

#[test]
fn address_rollover_is_encoded() {
    let plan = create_rollover_address_merkle_tree_instructions(
        &key(10),
        &key(11),
        &key(12),
        &key(1),
        &key(2),
        RentExemption { size: 1000, lamports: 5 },
        RentExemption { size: 2000, lamports: 6 },
    );
    let last = encode_rollover_instruction(&plan[2]).unwrap();
    same(
        &last,
        &light_registry::account_compression_cpi::sdk::create_rollover_address_merkle_tree_instruction(
            light_registry::account_compression_cpi::sdk::CreateRolloverMerkleTreeInstructionInputs {
                authority: outside(10),
                derivation: outside(10),
                new_queue: outside(11),
                new_merkle_tree: outside(12),
                old_queue: outside(2),
                old_merkle_tree: outside(1),
                cpi_context_account: None,
                is_metadata_forester: false,
            },
            0,
        ),
    );
}

#[test]
fn state_rollover_without_cpi_context_is_not_encoded() {
    let inputs = CreateRolloverMerkleTreeInstructionInputs {
        authority: key(10),
        derivation: key(10),
        new_queue: key(11),
        new_merkle_tree: key(12),
        old_queue: key(2),
        old_merkle_tree: key(1),
        cpi_context_account: None,
        is_metadata_forester: false,
    };
    assert_eq!(
        encode_rollover_instruction(&RolloverInstruction::RolloverStateMerkleTree { inputs, epoch: 0 }),
        None
    );
    assert!(encode_rollover_instruction(&RolloverInstruction::RolloverAddressMerkleTree { inputs, epoch: 0 })
        .is_some());
}

#[test]
fn registration_and_report_are_encoded_by_the_registry() {
    same(
        &create_finalize_registration_instruction(&key(50), 9),
        &light_registry::sdk::create_finalize_registration_instruction(&outside(50), &outside(50), 9),
    );
    same(
        &create_report_work_instruction(&key(50), 9),
        &light_registry::sdk::create_report_work_instruction(&outside(50), &outside(50), 9),
    );
    assert_ne!(
        create_finalize_registration_instruction(&key(50), 9),
        create_report_work_instruction(&key(50), 9)
    );
    assert_ne!(
        create_finalize_registration_instruction(&key(50), 9),
        create_finalize_registration_instruction(&key(50), 10)
    );
}
