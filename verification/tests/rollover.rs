use forester::rollover::{
    address_merkle_tree_and_queue_sizes, cpi_context_account_size,
    create_rollover_address_merkle_tree_instructions,
    create_rollover_state_merkle_tree_instructions,
    get_rent_exemption_for_address_merkle_tree_and_queue,
    get_rent_exemption_for_state_merkle_tree_and_queue, is_tree_ready_for_rollover,
    perform_address_merkle_tree_roll_over, perform_state_merkle_tree_roll_over_forester,
    perform_rollover, rollover_address_merkle_tree, rollover_state_merkle_tree,
    rollover_threshold_index, state_merkle_tree_and_queue_sizes, AddressMerkleTreeAccounts,
    AddressMerkleTreeConfig, AddressQueueConfig, CreateAccountInputs,
    CreateRolloverMerkleTreeInstructionInputs, NullifierQueueConfig, ProgramId, RentExemption,
    RolloverInstruction, StateMerkleTreeAccounts, StateMerkleTreeBundle, StateMerkleTreeConfig,
    SweepDecision, NOT_ROLLED_OVER, TREE_CAPACITY,
};
use forester::types::{ForesterError, Pubkey, Signature, TreeAccounts, TreeType};

fn key(byte: u8) -> Pubkey {
    Pubkey::new_from_array([byte; 32])
}

#[test]
fn threshold_is_a_percentage_of_capacity() {
    assert_eq!(TREE_CAPACITY, 1 << 26);
    assert_eq!(rollover_threshold_index(95), 63_753_420);
    assert_eq!(rollover_threshold_index(0), 0);
    assert_eq!(rollover_threshold_index(100), 67_108_864);
    assert_eq!(rollover_threshold_index(1), 671_088);
    assert_eq!(rollover_threshold_index(u64::MAX), (1u128 << 26) * (u64::MAX as u128) / 100);
}

#[test]
fn tree_is_ready_at_the_threshold() {
    assert!(!is_tree_ready_for_rollover(NOT_ROLLED_OVER, 95, 63_753_419));
    assert!(is_tree_ready_for_rollover(NOT_ROLLED_OVER, 95, 63_753_420));
    assert!(is_tree_ready_for_rollover(NOT_ROLLED_OVER, 95, u64::MAX));
    assert!(is_tree_ready_for_rollover(NOT_ROLLED_OVER, 0, 0));
    assert!(!is_tree_ready_for_rollover(NOT_ROLLED_OVER, u64::MAX, u64::MAX));
}

#[test]
fn rolled_over_tree_is_never_ready() {
    assert!(!is_tree_ready_for_rollover(0, 95, u64::MAX));
    assert!(!is_tree_ready_for_rollover(12345, 0, 0));
    assert!(!is_tree_ready_for_rollover(u64::MAX - 1, 95, 67_108_864));
}

#[test]
fn sweep_rolls_over_by_tree_type() {
    let state = TreeAccounts::new(key(1), key(2), TreeType::State);
    let address = TreeAccounts::new(key(3), key(4), TreeType::Address);
    assert_eq!(perform_rollover(&state, u64::MAX, 95, 64_000_000), SweepDecision::RolloverState);
    assert_eq!(perform_rollover(&address, u64::MAX, 95, 64_000_000), SweepDecision::RolloverAddress);
    assert_eq!(perform_rollover(&state, u64::MAX, 95, 10), SweepDecision::Leave);
    assert_eq!(perform_rollover(&address, 77, 95, 64_000_000), SweepDecision::Leave);
}

#[test]
fn rollover_trigger() {
    let next_index = (1u64 << 26) * 96 / 100;
    assert!(is_tree_ready_for_rollover(u64::MAX, 95, next_index));
    let tree = TreeAccounts::new(key(1), key(2), TreeType::State);
    assert_eq!(perform_rollover(&tree, u64::MAX, 95, next_index), SweepDecision::RolloverState);
    let instructions = create_rollover_state_merkle_tree_instructions(
        &key(10),
        &key(11),
        &key(12),
        &key(13),
        &tree.merkle_tree,
        &tree.queue,
        RentExemption { size: 1000, lamports: 5 },
        RentExemption { size: 2000, lamports: 6 },
        7,
    );
    assert_eq!(instructions.len(), 4);
    let notice = rollover_state_merkle_tree(&key(11), &key(12), &key(13), Ok(Signature { bytes: [1; 64] }));
    assert_eq!(
        notice,
        Ok(StateMerkleTreeBundle {
            rollover_fee: 0,
            accounts: StateMerkleTreeAccounts {
                merkle_tree: key(12),
                nullifier_queue: key(11),
                cpi_context: key(13),
            },
            height: 26,
            canopy_depth: 10,
        })
    );
}

#[test]
fn failed_rollover_tells_the_indexer_nothing() {
    assert_eq!(
        rollover_state_merkle_tree(&key(11), &key(12), &key(13), Err(ForesterError::RpcFailure)),
        Err(ForesterError::RpcFailure)
    );
    assert_eq!(
        rollover_address_merkle_tree(&key(11), &key(12), Err(ForesterError::Timeout)),
        Err(ForesterError::Timeout)
    );
    assert_eq!(
        rollover_address_merkle_tree(&key(11), &key(12), Ok(Signature { bytes: [0; 64] })),
        Ok(AddressMerkleTreeAccounts { merkle_tree: key(12), queue: key(11) })
    );
}

#[test]
fn state_rollover_instructions_in_order() {
    let instructions = create_rollover_state_merkle_tree_instructions(
        &key(10),
        &key(11),
        &key(12),
        &key(13),
        &key(1),
        &key(2),
        RentExemption { size: 1000, lamports: 5 },
        RentExemption { size: 2000, lamports: 6 },
        7,
    );
    assert_eq!(
        instructions,
        vec![
            RolloverInstruction::CreateAccount {
                inputs: CreateAccountInputs {
                    payer: key(10),
                    size: 20 * 1024 + 8,
                    lamports: 7,
                    owner: ProgramId::LightSystem,
                    new_account: key(13),
                },
            },
            RolloverInstruction::CreateAccount {
                inputs: CreateAccountInputs {
                    payer: key(10),
                    size: 2000,
                    lamports: 6,
                    owner: ProgramId::AccountCompression,
                    new_account: key(11),
                },
            },
            RolloverInstruction::CreateAccount {
                inputs: CreateAccountInputs {
                    payer: key(10),
                    size: 1000,
                    lamports: 5,
                    owner: ProgramId::AccountCompression,
                    new_account: key(12),
                },
            },
            RolloverInstruction::RolloverStateMerkleTree {
                inputs: CreateRolloverMerkleTreeInstructionInputs {
                    authority: key(10),
                    derivation: key(10),
                    new_queue: key(11),
                    new_merkle_tree: key(12),
                    old_queue: key(2),
                    old_merkle_tree: key(1),
                    cpi_context_account: Some(key(13)),
                    is_metadata_forester: false,
                },
                epoch: 0,
            },
        ]
    );
}

#[test]
fn address_rollover_instructions_in_order() {
    let instructions = create_rollover_address_merkle_tree_instructions(
        &key(10),
        &key(11),
        &key(12),
        &key(1),
        &key(2),
        RentExemption { size: 1000, lamports: 5 },
        RentExemption { size: 2000, lamports: 6 },
    );
    assert_eq!(
        instructions,
        vec![
            RolloverInstruction::CreateAccount {
                inputs: CreateAccountInputs {
                    payer: key(10),
                    size: 2000,
                    lamports: 6,
                    owner: ProgramId::AccountCompression,
                    new_account: key(11),
                },
            },
            RolloverInstruction::CreateAccount {
                inputs: CreateAccountInputs {
                    payer: key(10),
                    size: 1000,
                    lamports: 5,
                    owner: ProgramId::AccountCompression,
                    new_account: key(12),
                },
            },
            RolloverInstruction::RolloverAddressMerkleTree {
                inputs: CreateRolloverMerkleTreeInstructionInputs {
                    authority: key(10),
                    derivation: key(10),
                    new_queue: key(11),
                    new_merkle_tree: key(12),
                    old_queue: key(2),
                    old_merkle_tree: key(1),
                    cpi_context_account: None,
                    is_metadata_forester: false,
                },
                epoch: 0,
            },
        ]
    );
}

#[test]
fn rollover_transactions_are_signed_by_payer_queue_and_tree() {
    let tx = perform_state_merkle_tree_roll_over_forester(
        &key(10),
        &key(11),
        &key(12),
        &key(13),
        &key(1),
        &key(2),
        RentExemption { size: 1000, lamports: 5 },
        RentExemption { size: 2000, lamports: 6 },
        7,
    );
    assert_eq!(tx.payer, key(10));
    assert_eq!(tx.signers, vec![key(10), key(11), key(12)]);
    assert_eq!(
        tx.instructions,
        create_rollover_state_merkle_tree_instructions(
            &key(10),
            &key(11),
            &key(12),
            &key(13),
            &key(1),
            &key(2),
            RentExemption { size: 1000, lamports: 5 },
            RentExemption { size: 2000, lamports: 6 },
            7,
        )
    );
    let tx = perform_address_merkle_tree_roll_over(
        &key(10),
        &key(11),
        &key(12),
        &key(1),
        &key(2),
        RentExemption { size: 1000, lamports: 5 },
        RentExemption { size: 2000, lamports: 6 },
    );
    assert_eq!(tx.payer, key(10));
    assert_eq!(tx.signers, vec![key(10), key(11), key(12)]);
    assert_eq!(tx.instructions.len(), 3);
}

#[test]
fn cpi_context_size_is_the_registry_default() {
    assert_eq!(cpi_context_account_size(), 20488);
    assert_eq!(
        cpi_context_account_size() as u64,
        light_registry::protocol_config::state::ProtocolConfig::default().cpi_context_size
    );
}

#[test]
fn rent_exemption_pairs_tree_first() {
    let (tree, queue) = get_rent_exemption_for_state_merkle_tree_and_queue(10, 1, 20, 2);
    assert_eq!(tree, RentExemption { size: 10, lamports: 1 });
    assert_eq!(queue, RentExemption { size: 20, lamports: 2 });
    let (tree, queue) = get_rent_exemption_for_address_merkle_tree_and_queue(30, 3, 40, 4);
    assert_eq!(tree, RentExemption { size: 30, lamports: 3 });
    assert_eq!(queue, RentExemption { size: 40, lamports: 4 });
}

#[test]
fn account_sizes_come_from_the_account_program() {
    let tree = StateMerkleTreeConfig { height: 26, changelog_size: 1400, roots_size: 2400, canopy_depth: 10 };
    let queue = NullifierQueueConfig { capacity: 28_807, sequence_threshold: 2400 };
    let (tree_size, queue_size) = state_merkle_tree_and_queue_sizes(&tree, &queue).unwrap();
    assert_eq!(tree_size, account_compression::StateMerkleTreeAccount::size(26, 1400, 2400, 10));
    assert_eq!(queue_size, account_compression::QueueAccount::size(28_807).unwrap());
    assert!(tree_size > 1400 * 26 * 32);
    assert!(queue_size > 28_807 * 32);
    assert!(tree_size >= 8 + 32 * 26 + 32 * 2400 + 32 * ((1 << 11) - 2));
    assert!(queue_size >= 8 + 32 * 28_807);
    let address = AddressMerkleTreeConfig {
        height: 26,
        changelog_size: 1400,
        roots_size: 2400,
        canopy_depth: 10,
        address_changelog_size: 1400,
    };
    let address_queue = AddressQueueConfig { capacity: 28_807, sequence_threshold: 2400 };
    let (a_tree, a_queue) = address_merkle_tree_and_queue_sizes(&address, &address_queue).unwrap();
    assert_eq!(
        a_tree,
        account_compression::AddressMerkleTreeAccount::size(26, 1400, 2400, 10, 1400)
    );
    assert_eq!(a_queue, queue_size);
    assert!(a_tree > tree_size);
    let small = StateMerkleTreeConfig { height: 0, changelog_size: 0, roots_size: 0, canopy_depth: 0 };
    let (small_tree, small_queue) =
        state_merkle_tree_and_queue_sizes(&small, &NullifierQueueConfig { capacity: 0, sequence_threshold: 0 })
            .unwrap();
    assert!(small_tree >= 8);
    assert!(small_queue >= 8);
}

#[test]
fn oversized_trees_have_no_size() {
    let mut tree = StateMerkleTreeConfig { height: 26, changelog_size: 1400, roots_size: 2400, canopy_depth: 10 };
    let queue = NullifierQueueConfig { capacity: 1, sequence_threshold: 0 };
    assert!(tree.is_sizeable());
    tree.canopy_depth = 21;
    tree.height = 65;
    assert!(tree.is_sizeable());
    assert!(state_merkle_tree_and_queue_sizes(&tree, &queue).is_some());
    tree.canopy_depth = 63;
    assert!(!tree.is_sizeable());
    assert_eq!(state_merkle_tree_and_queue_sizes(&tree, &queue), None);
    tree.canopy_depth = u64::MAX;
    assert!(!tree.is_sizeable());
    tree.canopy_depth = 10;
    tree.changelog_size = u64::MAX;
    assert_eq!(state_merkle_tree_and_queue_sizes(&tree, &queue), None);
    tree.changelog_size = 0;
    tree.roots_size = u64::MAX / 32;
    assert_eq!(state_merkle_tree_and_queue_sizes(&tree, &queue), None);
    let address = AddressMerkleTreeConfig {
        height: 26,
        changelog_size: 1,
        roots_size: 1,
        canopy_depth: 1,
        address_changelog_size: u64::MAX / 1024,
    };
    assert!(!address.is_sizeable());
    assert_eq!(
        address_merkle_tree_and_queue_sizes(&address, &AddressQueueConfig { capacity: 1, sequence_threshold: 0 }),
        None
    );
}

#[test]
fn account_sizes_lie_within_their_bounds() {
    for (height, changelog, roots, canopy, indexed) in
        [(0u32, 0u64, 0u64, 0u64, 0u64), (26, 1400, 2400, 10, 1400), (26, 1, 0, 0, 1), (40, 10, 10, 12, 3)]
    {
        let nodes = (1u64 << (canopy + 1)) - 2;
        let least = 8 + 32 * height as u64 + 32 * roots + 32 * nodes;
        let state = StateMerkleTreeConfig { height, changelog_size: changelog, roots_size: roots, canopy_depth: canopy };
        let queue = NullifierQueueConfig { capacity: changelog as u16, sequence_threshold: 0 };
        let (tree_size, queue_size) = state_merkle_tree_and_queue_sizes(&state, &queue).unwrap();
        assert!(tree_size as u64 >= least);
        assert!(tree_size as u64 <= 512 + 32 * height as u64 + 1024 * changelog + 32 * roots + 32 * nodes);
        assert!(queue_size as u64 >= 8 + 32 * (changelog as u16) as u64);
        assert!(queue_size as u64 <= 512 + 64 * (changelog as u16) as u64);
        let address = AddressMerkleTreeConfig {
            height,
            changelog_size: changelog,
            roots_size: roots,
            canopy_depth: canopy,
            address_changelog_size: indexed,
        };
        let (a_tree, _) =
            address_merkle_tree_and_queue_sizes(&address, &AddressQueueConfig { capacity: 7, sequence_threshold: 0 })
                .unwrap();
        assert!(a_tree as u64 >= least);
        assert!(
            a_tree as u64
                <= 512 + 32 * height as u64 + 1024 * changelog + 32 * roots + 32 * nodes + 1024 * indexed
        );
    }
}

#[test]
fn parts_of_an_account_stay_below_their_bounds() {
    let fixed = account_compression::StateMerkleTreeAccount::size(0, 0, 0, 0);
    assert!(fixed <= 512);
    assert!(account_compression::StateMerkleTreeAccount::size(0, 1, 0, 0) - fixed <= 1024);
    assert_eq!(account_compression::StateMerkleTreeAccount::size(1, 0, 0, 0) - fixed, 32);
    assert_eq!(account_compression::StateMerkleTreeAccount::size(0, 0, 1, 0) - fixed, 32);
    assert_eq!(account_compression::StateMerkleTreeAccount::size(0, 0, 0, 1) - fixed, 64);
    let address_fixed = account_compression::AddressMerkleTreeAccount::size(0, 0, 0, 0, 0);
    assert!(address_fixed <= 512);
    assert!(account_compression::AddressMerkleTreeAccount::size(0, 1, 0, 0, 0) - address_fixed <= 1024);
    assert!(account_compression::AddressMerkleTreeAccount::size(0, 0, 0, 0, 1) - address_fixed <= 1024);
    let queue_fixed = account_compression::QueueAccount::size(0).unwrap();
    assert!(queue_fixed <= 512);
    let cell = account_compression::QueueAccount::size(8).unwrap() - queue_fixed;
    assert!(cell <= 64 * 8);
    assert!(cell >= 32 * 8);
    assert!(account_compression::QueueAccount::size(65_535).unwrap() <= 512 + 64 * 65_535);
}
