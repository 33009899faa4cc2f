use forester::batch::{process_transaction_batch, BatchAction, BatchEvent, BatchRetryState};
use forester::encode::set_compute_unit_limit;
use forester::instructions::{fetch_proofs_and_create_instructions, MerkleProof};
use forester::controller::{ControllerAction, ControllerEvent, ControllerPhase, EpochController};
use forester::counter::ProcessedCounter;
use forester::drainer::{
    chunk_work_items, collect_signatures, fetch_work_items, process_queue, process_queues,
    process_work_items, ChunkAction, ChunkScheduler, ForesterConfig, QueuePlan, WorkItemsRun,
};
use forester::eligibility::{
    check_eligibility, Epoch, ForesterEpochInfo, ForesterEpochPda, TreeForesterSchedule,
};
use forester::protocol::{get_epoch_phases, ProtocolConfig};
use forester::types::{
    ForesterError, Pubkey, QueueItemData, Signature, TreeAccounts, TreeType, WorkItem, WorkReport,
};

fn protocol() -> ProtocolConfig {
    ProtocolConfig {
        genesis_slot: 0,
        slot_length: 10,
        registration_phase_length: 100,
        active_phase_length: 1000,
        report_work_phase_length: 100,
        cpi_context_size: 20488,
    }
}

fn key(byte: u8) -> Pubkey {
    Pubkey::new_from_array([byte; 32])
}

fn config() -> ForesterConfig {
    ForesterConfig {
        payer: key(1),
        indexer_batch_size: 10,
        indexer_max_concurrent_batches: 2,
        transaction_batch_size: 5,
        transaction_max_concurrent_batches: 2,
        cu_limit: 1_000_000,
        max_retries: 3,
    }
}

fn info(epoch: u64, trees: Vec<TreeForesterSchedule>) -> ForesterEpochInfo {
    let phases = get_epoch_phases(&protocol(), epoch);
    ForesterEpochInfo {
        epoch: Epoch { epoch, forester_epoch_pda: key(9), phases },
        epoch_pda: ForesterEpochPda {
            epoch,
            weight: 1,
            forester_index: 0,
            epoch_active_phase_start_slot: phases.active.start,
            total_epoch_weight: Some(1),
            protocol_config: protocol(),
        },
        trees,
    }
}

fn queue_data(n: usize) -> Vec<QueueItemData> {
    (0..n).map(|i| QueueItemData { hash: [i as u8; 32], index: i as u32 }).collect()
}

/// Runs one batch to its end with the given oracle verdict and ledger answer.
fn run_batch(
    counter: &mut ProcessedCounter,
    epoch: u64,
    chunk: &[WorkItem],
    verdict: Result<(), ForesterError>,
    signature: Signature,
) -> Result<Option<Signature>, ForesterError> {
    let state = BatchRetryState::start(chunk.len(), config().max_retries)?;
    let (state, action) = state.step(BatchEvent::Eligibility { verdict }).unwrap();
    counter.record(epoch, &action);
    match action {
        BatchAction::Skipped => return Ok(None),
        BatchAction::Failed { error } => return Err(error),
        BatchAction::Submit => {}
        other => panic!("{:?}", other),
    }
    let (_, action) = state.step(BatchEvent::Submission { result: Ok(signature) }).unwrap();
    counter.record(epoch, &action);
    match action {
        BatchAction::Confirmed { signature } => Ok(Some(signature)),
        other => panic!("{:?}", other),
    }
}

#[test]
fn happy_epoch() {
    let epoch = 1u64;
    let trees: Vec<TreeForesterSchedule> = [1u8, 2]
        .iter()
        .map(|b| TreeForesterSchedule {
            tree_accounts: TreeAccounts::new(key(*b), key(*b + 100), TreeType::State),
            slots: vec![true; 100],
        })
        .collect();
    let epoch_info = info(epoch, trees);
    let mut counter = ProcessedCounter::new();
    let slot = epoch_info.epoch.phases.active.start + 5;

    let (mut controller, _) = EpochController::new(&protocol(), epoch);
    for event in [
        ControllerEvent::SlotRead { slot: 1000 },
        ControllerEvent::Registered { result: Ok(()) },
        ControllerEvent::SlotReached { result: Ok(()) },
        ControllerEvent::RegistrationFinalized { result: Ok(()) },
    ] {
        controller = controller.process_epoch(event, &counter).unwrap().0;
    }
    assert_eq!(controller.phase, ControllerPhase::Working);

    let mut submitted_per_tree = Vec::new();
    for queue in process_queues(&epoch_info) {
        let tree_index = match process_queue(&protocol(), &epoch_info, slot, &queue) {
            Ok(QueuePlan::Drain { tree_index }) => tree_index,
            other => panic!("{:?}", other),
        };
        let work_items = fetch_work_items(&epoch_info.trees[tree_index], &queue_data(15));
        let indexer_chunks = chunk_work_items(&work_items, config().indexer_batch_size);
        assert_eq!(indexer_chunks.len(), 2);
        let mut scheduler = ChunkScheduler::new(indexer_chunks.len(), config().indexer_max_concurrent_batches);
        let mut submitted = 0usize;
        loop {
            match scheduler.next_action() {
                ChunkAction::Spawn { chunk } => {
                    let mut outcomes = Vec::new();
                    for batch in chunk_work_items(&indexer_chunks[chunk], config().transaction_batch_size) {
                        assert_eq!(process_work_items(&protocol(), &epoch_info, slot), Ok(()));
                        let verdict =
                            check_eligibility(&epoch_info, &epoch_info.epoch_pda, slot, &batch[0].tree_account);
                        outcomes.push(run_batch(
                            &mut counter,
                            epoch,
                            &batch,
                            verdict,
                            Signature { bytes: [submitted as u8; 64] },
                        ));
                        submitted += 1;
                    }
                    assert_eq!(collect_signatures(&outcomes).len(), outcomes.len());
                }
                ChunkAction::AwaitCompletion => scheduler.on_completed(),
                ChunkAction::Finished => break,
            }
        }
        submitted_per_tree.push(submitted);
    }
    assert_eq!(submitted_per_tree, vec![3, 3]);

    let mut report = None;
    for event in [
        ControllerEvent::WorkPerformed { result: Ok(()) },
        ControllerEvent::SlotReached { result: Ok(()) },
        ControllerEvent::ReportSubmitted { result: Ok(()) },
        ControllerEvent::ReportPublished { result: Ok(()) },
    ] {
        let (next, action) = controller.process_epoch(event, &counter).unwrap();
        if let ControllerAction::Publish { report: r } = action {
            assert!(report.is_none());
            report = Some(r);
        }
        controller = next;
    }
    assert_eq!(controller.phase, ControllerPhase::Done);
    assert_eq!(report, Some(WorkReport { epoch: 1, processed_items: 6 }));
}

#[test]
fn ineligibility_midway() {
    let epoch = 0u64;
    let tree = TreeAccounts::new(key(1), key(101), TreeType::State);
    let mut slots = vec![true; 5];
    slots.extend(vec![false; 95]);
    let epoch_info = info(epoch, vec![TreeForesterSchedule { tree_accounts: tree, slots }]);
    let mut counter = ProcessedCounter::new();
    let work_items = fetch_work_items(&epoch_info.trees[0], &queue_data(100));
    let batches = chunk_work_items(&work_items, 5);
    assert_eq!(batches.len(), 20);
    let start = epoch_info.epoch.phases.active.start;
    let mut outcomes = Vec::new();
    for (k, batch) in batches.iter().enumerate() {
        let slot = start + 5 * k as u64;
        let verdict = check_eligibility(&epoch_info, &epoch_info.epoch_pda, slot, &tree);
        let light_slot = epoch_info.epoch_pda.get_current_light_slot(slot).unwrap();
        assert_eq!(verdict.is_ok(), light_slot <= 4);
        outcomes.push(run_batch(&mut counter, epoch, batch, verdict, Signature { bytes: [k as u8; 64] }));
    }
    for (k, outcome) in outcomes.iter().enumerate() {
        if k < 10 {
            assert_eq!(*outcome, Ok(Some(Signature { bytes: [k as u8; 64] })));
        } else {
            assert_eq!(*outcome, Ok(None));
        }
    }
    assert_eq!(collect_signatures(&outcomes).len(), 10);
    assert_eq!(counter.get_processed_items_count(epoch), 10);
}

#[test]
fn two_overlapping_epochs() {
    let mut counter = ProcessedCounter::new();
    counter.increment_processed_items_count(4);
    counter.increment_processed_items_count(5);
    counter.increment_processed_items_count(5);
    let (mut older, _) = EpochController::new(&protocol(), 4);
    let (mut newer, _) = EpochController::new(&protocol(), 5);
    for event in [
        ControllerEvent::SlotRead { slot: 4000 },
        ControllerEvent::Registered { result: Ok(()) },
        ControllerEvent::SlotReached { result: Ok(()) },
        ControllerEvent::RegistrationFinalized { result: Ok(()) },
        ControllerEvent::WorkPerformed { result: Ok(()) },
    ] {
        older = older.process_epoch(event, &counter).unwrap().0;
    }
    assert_eq!(older.phase, ControllerPhase::WaitingForReport);
    let (n, action) = newer.process_epoch(ControllerEvent::SlotRead { slot: 5000 }, &counter).unwrap();
    assert_eq!(action, ControllerAction::SubmitRegistration);
    newer = n;
    assert!(older.phases.report_work.start < newer.phases.report_work.start);
    assert!(newer.phases.registration.start < older.phases.report_work.start);

    let mut reports = Vec::new();
    let mut drive = |controller: &mut EpochController, event: ControllerEvent, reports: &mut Vec<WorkReport>| {
        let (next, action) = controller.process_epoch(event, &counter).unwrap();
        if let ControllerAction::Publish { report } = action {
            reports.push(report);
        }
        *controller = next;
    };
    drive(&mut newer, ControllerEvent::Registered { result: Ok(()) }, &mut reports);
    drive(&mut older, ControllerEvent::SlotReached { result: Ok(()) }, &mut reports);
    drive(&mut newer, ControllerEvent::SlotReached { result: Ok(()) }, &mut reports);
    drive(&mut older, ControllerEvent::ReportSubmitted { result: Ok(()) }, &mut reports);
    drive(&mut newer, ControllerEvent::RegistrationFinalized { result: Ok(()) }, &mut reports);
    drive(&mut older, ControllerEvent::ReportPublished { result: Ok(()) }, &mut reports);
    drive(&mut newer, ControllerEvent::WorkPerformed { result: Ok(()) }, &mut reports);
    drive(&mut newer, ControllerEvent::SlotReached { result: Ok(()) }, &mut reports);
    drive(&mut newer, ControllerEvent::ReportSubmitted { result: Ok(()) }, &mut reports);
    drive(&mut newer, ControllerEvent::ReportPublished { result: Ok(()) }, &mut reports);
    assert_eq!(older.phase, ControllerPhase::Done);
    assert_eq!(newer.phase, ControllerPhase::Done);
    assert_eq!(
        reports,
        vec![
            WorkReport { epoch: 4, processed_items: 1 },
            WorkReport { epoch: 5, processed_items: 2 },
        ]
    );
}

#[test]
fn ten_items_in_batches_of_five() {
    let epoch = 0u64;
    let tree = TreeAccounts::new(key(1), key(101), TreeType::State);
    let epoch_info = info(epoch, vec![TreeForesterSchedule { tree_accounts: tree, slots: vec![true; 100] }]);
    let mut settings = config();
    settings.transaction_max_concurrent_batches = 1;
    let mut counter = ProcessedCounter::new();
    let slot = epoch_info.epoch.phases.active.start;
    let work_items = fetch_work_items(&epoch_info.trees[0], &queue_data(10));
    let mut run = WorkItemsRun::start(&work_items, &settings);
    let mut submitted = Vec::new();
    let mut pending = Vec::new();
    loop {
        match run.next_action() {
            ChunkAction::Spawn { chunk } => {
                assert_eq!(process_work_items(&protocol(), &epoch_info, slot), Ok(()));
                let items = run.batches[chunk].clone();
                let witnesses: Vec<MerkleProof> = items
                    .iter()
                    .map(|_| MerkleProof {
                        hash: "leaf".to_string(),
                        leaf_index: 1,
                        merkle_tree: "tree".to_string(),
                        merkle_path: vec![[8; 32]; 16],
                        root_seq: 2,
                    })
                    .collect();
                let (proofs, instructions) =
                    fetch_proofs_and_create_instructions(&settings.payer, epoch, &items, &Vec::new(), &witnesses);
                assert_eq!(proofs.len(), 5);
                let verdict = check_eligibility(&epoch_info, &epoch_info.epoch_pda, slot, &tree);
                let state = BatchRetryState::start(items.len(), settings.max_retries).unwrap();
                let (state, action) = state.step(BatchEvent::Eligibility { verdict }).unwrap();
                assert_eq!(action, BatchAction::Submit);
                let tx = process_transaction_batch(&protocol(), &settings, &epoch_info, slot, &instructions)
                    .unwrap();
                assert_eq!(tx.instructions.len(), 6);
                assert_eq!(tx.instructions[0], set_compute_unit_limit(settings.cu_limit));
                assert_eq!(tx.signers, vec![settings.payer]);
                let signature = Signature { bytes: [chunk as u8; 64] };
                let (_, action) = state.step(BatchEvent::Submission { result: Ok(signature) }).unwrap();
                counter.record(epoch, &action);
                submitted.push(tx);
                pending.push(Ok(Some(signature)));
            }
            ChunkAction::AwaitCompletion => run.on_outcome(pending.remove(0)),
            ChunkAction::Finished => break,
        }
    }
    assert_eq!(submitted.len(), 2);
    assert_eq!(run.outcome().unwrap().len(), 2);
    assert_eq!(counter.get_processed_items_count(epoch), 2);
}
