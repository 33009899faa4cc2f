use forester::drainer::{
    chunk_bounds, chunk_count, chunk_work_items, collect_signatures, fetch_work_items,
    process_queue, process_queues, process_work_items, ChunkAction, ChunkScheduler,
    ForesterConfig, PermitPool, QueueDrain, QueuePlan, WorkItemsRun,
};
use forester::eligibility::{Epoch, ForesterEpochInfo, ForesterEpochPda, TreeForesterSchedule};
use forester::protocol::{get_epoch_phases, ProtocolConfig};
use forester::types::{
    ForesterError, Pubkey, QueueItemData, Signature, TreeAccounts, TreeType, WorkItem,
};

fn key(byte: u8) -> Pubkey {
    Pubkey::new_from_array([byte; 32])
}

fn protocol() -> ProtocolConfig {
    ProtocolConfig {
        genesis_slot: 0,
        slot_length: 10,
        registration_phase_length: 100,
        active_phase_length: 1000,
        report_work_phase_length: 100,
        cpi_context_size: 20488,
    }
}

fn schedule(byte: u8) -> TreeForesterSchedule {
    TreeForesterSchedule {
        tree_accounts: TreeAccounts::new(key(byte), key(byte + 100), TreeType::State),
        slots: vec![true; 100],
    }
}

fn info(trees: Vec<TreeForesterSchedule>) -> ForesterEpochInfo {
    ForesterEpochInfo {
        epoch: Epoch { epoch: 0, forester_epoch_pda: key(9), phases: get_epoch_phases(&protocol(), 0) },
        epoch_pda: ForesterEpochPda {
            epoch: 0,
            weight: 1,
            forester_index: 0,
            epoch_active_phase_start_slot: 100,
            total_epoch_weight: Some(1),
            protocol_config: protocol(),
        },
        trees,
    }
}

fn items(n: usize) -> Vec<WorkItem> {
    (0..n)
        .map(|i| WorkItem {
            tree_account: TreeAccounts::new(key(1), key(101), TreeType::State),
            queue_item_data: QueueItemData { hash: [i as u8; 32], index: i as u32 },
        })
        .collect()
}

#[test]
fn chunk_count_rounds_up() {
    assert_eq!(chunk_count(0, 5), 0);
    assert_eq!(chunk_count(1, 5), 1);
    assert_eq!(chunk_count(5, 5), 1);
    assert_eq!(chunk_count(6, 5), 2);
    assert_eq!(chunk_count(15, 5), 3);
    assert_eq!(chunk_count(15, 10), 2);
    assert_eq!(chunk_count(100, 5), 20);
    assert_eq!(chunk_count(usize::MAX, 1), usize::MAX);
    assert_eq!(chunk_count(usize::MAX, usize::MAX), 1);
    assert_eq!(chunk_count(usize::MAX, 2), usize::MAX / 2 + 1);
}

#[test]
fn chunk_bounds_cover_the_items() {
    assert_eq!(chunk_bounds(0, 3), Vec::new());
    assert_eq!(chunk_bounds(15, 10), vec![(0, 10), (10, 15)]);
    assert_eq!(chunk_bounds(15, 5), vec![(0, 5), (5, 10), (10, 15)]);
    assert_eq!(chunk_bounds(4, 5), vec![(0, 4)]);
    assert_eq!(chunk_bounds(3, 1), vec![(0, 1), (1, 2), (2, 3)]);
    assert_eq!(chunk_bounds(7, usize::MAX), vec![(0, 7)]);
}

#[test]
fn chunks_hold_the_items_in_order() {
    let all = items(7);
    let chunks = chunk_work_items(&all, 3);
    assert_eq!(chunks.len(), 3);
    assert_eq!(chunks[0], all[0..3].to_vec());
    assert_eq!(chunks[1], all[3..6].to_vec());
    assert_eq!(chunks[2], all[6..7].to_vec());
    let std_chunks: Vec<Vec<WorkItem>> = all.chunks(3).map(|c| c.to_vec()).collect();
    assert_eq!(chunks, std_chunks);
    assert!(chunk_work_items(&Vec::new(), 3).is_empty());
}

#[test]
fn config_needs_positive_sizes() {
    let good = ForesterConfig {
        payer: key(1),
        indexer_batch_size: 10,
        indexer_max_concurrent_batches: 2,
        transaction_batch_size: 5,
        transaction_max_concurrent_batches: 2,
        cu_limit: 1_000_000,
        max_retries: 3,
    };
    assert!(good.is_well_formed());
    let mut bad = good;
    bad.indexer_batch_size = 0;
    assert!(!bad.is_well_formed());
    let mut bad = good;
    bad.transaction_max_concurrent_batches = 0;
    assert!(!bad.is_well_formed());
    let mut zero_retries = good;
    zero_retries.max_retries = 0;
    assert!(zero_retries.is_well_formed());
}

#[test]
fn queue_is_skipped_outside_the_active_phase() {
    let i = info(vec![schedule(1)]);
    assert_eq!(process_queue(&protocol(), &i, 1100, &key(101)), Ok(QueuePlan::Skip));
    assert_eq!(process_queue(&protocol(), &i, 5000, &key(77)), Ok(QueuePlan::Skip));
    assert_eq!(process_queue(&protocol(), &i, 99, &key(101)), Ok(QueuePlan::Skip));
    assert_eq!(process_queue(&protocol(), &i, 0, &key(77)), Ok(QueuePlan::Skip));
}

#[test]
fn queue_is_drained_for_its_tree() {
    let i = info(vec![schedule(1), schedule(2), schedule(2)]);
    assert_eq!(process_queue(&protocol(), &i, 100, &key(101)), Ok(QueuePlan::Drain { tree_index: 0 }));
    assert_eq!(process_queue(&protocol(), &i, 1099, &key(102)), Ok(QueuePlan::Drain { tree_index: 1 }));
    assert_eq!(process_queue(&protocol(), &i, 500, &key(1)), Err(ForesterError::TreeNotFound));
}

#[test]
fn initial_drain_visits_every_queue() {
    let i = info(vec![schedule(1), schedule(2)]);
    assert_eq!(process_queues(&i), vec![key(101), key(102)]);
    assert!(process_queues(&info(Vec::new())).is_empty());
}

#[test]
fn work_items_carry_their_tree() {
    let s = schedule(4);
    let data = vec![QueueItemData { hash: [1; 32], index: 7 }, QueueItemData { hash: [2; 32], index: 8 }];
    let work = fetch_work_items(&s, &data);
    assert_eq!(
        work,
        vec![
            WorkItem { tree_account: s.tree_accounts, queue_item_data: data[0] },
            WorkItem { tree_account: s.tree_accounts, queue_item_data: data[1] },
        ]
    );
}

#[test]
fn work_stops_outside_the_active_phase() {
    let i = info(vec![schedule(1)]);
    assert_eq!(process_work_items(&protocol(), &i, 100), Ok(()));
    assert_eq!(process_work_items(&protocol(), &i, 1099), Ok(()));
    assert_eq!(process_work_items(&protocol(), &i, 1100), Err(ForesterError::NotInActivePhase));
    assert_eq!(process_work_items(&protocol(), &i, 0), Err(ForesterError::NotInActivePhase));
}

#[test]
fn signatures_of_confirmed_batches_only() {
    let a = Signature { bytes: [1; 64] };
    let b = Signature { bytes: [2; 64] };
    let outcomes = vec![
        Ok(Some(a)),
        Ok(None),
        Err(ForesterError::RpcFailure),
        Ok(Some(b)),
        Ok(None),
    ];
    assert_eq!(collect_signatures(&outcomes), vec![a, b]);
    assert!(collect_signatures(&Vec::new()).is_empty());
}

#[test]
fn permits_bound_the_tasks_in_flight() {
    let mut pool = PermitPool::new(2);
    assert!(pool.try_acquire());
    assert!(pool.try_acquire());
    assert!(!pool.try_acquire());
    assert_eq!(pool.in_flight, 2);
    pool.release();
    assert_eq!(pool.in_flight, 1);
    assert!(pool.try_acquire());
    pool.release();
    pool.release();
    pool.release();
    assert_eq!(pool.in_flight, 0);
    let mut none = PermitPool::new(0);
    assert!(!none.try_acquire());
}

#[test]
fn scheduler_never_exceeds_its_permits() {
    let mut s = ChunkScheduler::new(5, 2);
    let mut spawned = Vec::new();
    let mut steps = 0;
    loop {
        steps += 1;
        assert!(steps < 100);
        match s.next_action() {
            ChunkAction::Spawn { chunk } => spawned.push(chunk),
            ChunkAction::AwaitCompletion => {
                assert!(s.permits.in_flight > 0);
                s.on_completed();
            }
            ChunkAction::Finished => break,
        }
        assert!(s.permits.in_flight <= 2);
        assert_eq!(s.permits.in_flight, s.started - s.completed);
    }
    assert_eq!(spawned, vec![0, 1, 2, 3, 4]);
    assert_eq!(s.completed, 5);
    assert_eq!(ChunkScheduler::new(0, 3).next_action(), ChunkAction::Finished);
}

#[test]
fn completion_without_a_task_changes_nothing() {
    let mut s = ChunkScheduler::new(2, 1);
    s.on_completed();
    assert_eq!(s, ChunkScheduler::new(2, 1));
    assert_eq!(s.next_action(), ChunkAction::Spawn { chunk: 0 });
    assert_eq!(s.next_action(), ChunkAction::AwaitCompletion);
    s.on_completed();
    assert_eq!(s.next_action(), ChunkAction::Spawn { chunk: 1 });
}

fn settings() -> ForesterConfig {
    ForesterConfig {
        payer: key(1),
        indexer_batch_size: 10,
        indexer_max_concurrent_batches: 2,
        transaction_batch_size: 5,
        transaction_max_concurrent_batches: 1,
        cu_limit: 1_000_000,
        max_retries: 3,
    }
}

#[test]
fn drain_runs_every_chunk_once_and_returns_cleanly() {
    let all = items(25);
    let mut drain = QueueDrain::start(&all, &settings());
    assert_eq!(drain.chunks.len(), 3);
    assert_eq!(drain.chunks.concat(), all);
    assert_eq!(drain.outcome(), None);
    let mut spawned = Vec::new();
    let mut steps = 0;
    loop {
        steps += 1;
        assert!(steps < 50);
        match drain.next_action() {
            ChunkAction::Spawn { chunk } => spawned.push(chunk),
            ChunkAction::AwaitCompletion => {
                assert!(drain.scheduler.permits.in_flight <= 2);
                if drain.scheduler.completed == 0 {
                    drain.on_report(&Err(ForesterError::IndexerFailure));
                } else {
                    drain.on_report(&Ok(Vec::new()));
                }
            }
            ChunkAction::Finished => break,
        }
    }
    assert_eq!(spawned, vec![0, 1, 2]);
    assert_eq!(drain.outcome(), Some(Ok(())));
    let mut empty = QueueDrain::start(&Vec::new(), &settings());
    assert_eq!(empty.next_action(), ChunkAction::Finished);
    assert_eq!(empty.outcome(), Some(Ok(())));
}

#[test]
fn run_returns_the_signatures_of_its_confirmed_batches() {
    let all = items(15);
    let mut run = WorkItemsRun::start(&all, &settings());
    assert_eq!(run.batches.len(), 3);
    assert_eq!(run.batches.concat(), all);
    let a = Signature { bytes: [1; 64] };
    let c = Signature { bytes: [3; 64] };
    let answers = vec![Ok(Some(a)), Err(ForesterError::RpcFailure), Ok(Some(c))];
    let mut answers = answers.into_iter();
    let mut spawned = Vec::new();
    loop {
        match run.next_action() {
            ChunkAction::Spawn { chunk } => spawned.push(chunk),
            ChunkAction::AwaitCompletion => {
                assert_eq!(run.outcome(), None);
                run.on_outcome(answers.next().unwrap());
            }
            ChunkAction::Finished => break,
        }
    }
    assert_eq!(spawned, vec![0, 1, 2]);
    assert_eq!(run.outcome(), Some(vec![a, c]));
}

#[test]
fn outcome_without_a_batch_in_flight_is_ignored() {
    let mut run = WorkItemsRun::start(&items(5), &settings());
    run.on_outcome(Ok(Some(Signature { bytes: [1; 64] })));
    assert!(run.outcomes.is_empty());
    assert_eq!(run.scheduler.completed, 0);
}

#[test]
fn stopped_run_starts_no_further_batch() {
    let mut run = WorkItemsRun::start(&items(15), &settings());
    assert_eq!(run.next_action(), ChunkAction::Spawn { chunk: 0 });
    let a = Signature { bytes: [1; 64] };
    run.on_outcome(Ok(Some(a)));
    assert_eq!(run.next_action(), ChunkAction::Spawn { chunk: 1 });
    run.on_outcome(Ok(None));
    run.stop();
    assert_eq!(run.next_action(), ChunkAction::Finished);
    assert_eq!(run.outcome(), Some(vec![a]));
    assert_eq!(run.batches.len(), 3);
}

#[test]
fn permits_stay_as_configured() {
    let mut wide = settings();
    wide.transaction_max_concurrent_batches = 2;
    let mut run = WorkItemsRun::start(&items(25), &wide);
    let mut drain = QueueDrain::start(&items(45), &wide);
    for _ in 0..4 {
        run.next_action();
        drain.next_action();
        assert_eq!(run.scheduler.permits.capacity, 2);
        assert_eq!(drain.scheduler.permits.capacity, 2);
        assert!(run.scheduler.permits.in_flight <= 2);
        assert!(drain.scheduler.permits.in_flight <= 2);
    }
    assert_eq!(run.scheduler.started, 2);
    assert_eq!(drain.scheduler.started, 2);
}
