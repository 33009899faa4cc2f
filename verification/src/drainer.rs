use vstd::prelude::*;
use crate::eligibility::{
    find_schedule_by_queue, has_no_schedule_of_queue, is_first_schedule_of_queue,
    ForesterEpochInfo, TreeForesterSchedule,
};
use crate::protocol::{is_in_active_phase, ProtocolConfig};
use crate::types::{ForesterError, Pubkey, QueueItemData, Signature, WorkItem};

verus! {

/// The worker's own settings.
#[derive(Clone, Copy, Debug, PartialEq, Eq)]
pub struct ForesterConfig {
    pub payer: Pubkey,
    pub indexer_batch_size: usize,
    pub indexer_max_concurrent_batches: usize,
    pub transaction_batch_size: usize,
    pub transaction_max_concurrent_batches: usize,
    pub cu_limit: u32,
    pub max_retries: usize,
}

impl ForesterConfig {
    /// Batches hold at least one item and at least one batch may run.
    pub open spec fn well_formed(self) -> bool {
        &&& self.indexer_batch_size > 0
        &&& self.indexer_max_concurrent_batches > 0
        &&& self.transaction_batch_size > 0
        &&& self.transaction_max_concurrent_batches > 0
    }

    /// Whether the settings are well formed.

    pub fn is_well_formed(&self) -> (ok: bool)
        ensures
            ok == self.well_formed(),
    {
        self.indexer_batch_size > 0 && self.indexer_max_concurrent_batches > 0
            && self.transaction_batch_size > 0 && self.transaction_max_concurrent_batches > 0
    }
}

/// Number of chunks of at most `chunk_size` items that `len` items fall
/// into: `len / chunk_size`, rounded up.
pub open spec fn spec_chunk_count(len: nat, chunk_size: nat) -> nat {
    ((len + chunk_size - 1) / (chunk_size as int)) as nat
}

/// Where chunk `index` starts and ends among `len` items: chunks are as long
/// as `chunk_size` allows, and the last one takes what is left.
pub open spec fn spec_chunk_bounds(len: nat, chunk_size: nat, index: nat) -> (nat, nat) {
    (
        index * chunk_size,
        if (index + 1) * chunk_size <= len {
            (index + 1) * chunk_size
        } else {
            len
        },
    )
}

proof fn lemma_chunk_count_between(len: nat, chunk_size: nat, n: nat)
    requires
        chunk_size > 0,
        n * chunk_size < len <= (n + 1) * chunk_size,
    ensures
        spec_chunk_count(len, chunk_size) == n + 1,
{
    let s = chunk_size as int;
    let x = len + chunk_size - 1;
    assert((n + 1) * s <= x < (n + 2) * s) by (nonlinear_arith)
        requires
            s > 0,
            n * s < len <= (n + 1) * s,
            x == len + s - 1,
    ;
    assert(x / s == n + 1) by (nonlinear_arith)
        requires
            s > 0,
            (n + 1) * s <= x < (n + 2) * s,
    ;
}

proof fn lemma_chunk_count_zero(chunk_size: nat)
    requires
        chunk_size > 0,
    ensures
        spec_chunk_count(0, chunk_size) == 0,
{
    let s = chunk_size as int;
    assert((s - 1) / s == 0) by (nonlinear_arith)
        requires
            s > 0,
    ;
}

/// Number of chunks that `len` items fall into.
pub fn chunk_count(len: usize, chunk_size: usize) -> (count: usize)
    requires
        chunk_size > 0,
    ensures
        count == spec_chunk_count(len as nat, chunk_size as nat),
{
    let full = len / chunk_size;
    let rest = len % chunk_size;
    proof {
        let s = chunk_size as int;
        let l = len as int;
        let f = full as int;
        let r = rest as int;
        assert(f == l / s);
        assert(r == l % s);
        assert(l == f * s + r && 0 <= r < s && f >= 0) by (nonlinear_arith)
            requires
                s > 0,
                l >= 0,
                f == l / s,
                r == l % s,
        ;
        assert(f <= f * s) by (nonlinear_arith)
            requires
                s > 0,
                f >= 0,
        ;
        if r == 0 {
            if f == 0 {
                assert(l == 0) by (nonlinear_arith)
                    requires
                        l == f * s + r,
                        r == 0,
                        f == 0,
                ;
                lemma_chunk_count_zero(chunk_size as nat);
            } else {
                assert((f - 1) * s < l && l <= ((f - 1) + 1) * s) by (nonlinear_arith)
                    requires
                        l == f * s + r,
                        r == 0,
                        s > 0,
                ;
                lemma_chunk_count_between(len as nat, chunk_size as nat, (f - 1) as nat);
            }
        } else {
            assert(f * s < l && l <= (f + 1) * s) by (nonlinear_arith)
                requires
                    l == f * s + r,
                    0 < r < s,
            ;
            lemma_chunk_count_between(len as nat, chunk_size as nat, f as nat);
        }
    }
    if rest == 0 {
        full
    } else {
        full + 1
    }
}

/// The bounds follow one another without a gap from the first item to the
/// last: each chunk starts where the one before it ends.
pub open spec fn is_contiguous_cover(bounds: Seq<(usize, usize)>, len: nat) -> bool {
    &&& bounds.len() == 0 ==> len == 0
    &&& bounds.len() > 0 ==> bounds[0].0 == 0 && bounds[bounds.len() - 1].1 == len
    &&& forall|i: int| 0 < i < bounds.len() ==> (#[trigger] bounds[i]).0 == bounds[i - 1].1
}

/// The items of the chunks, one chunk after the other.
pub open spec fn spec_concat(chunks: Seq<Vec<WorkItem>>) -> Seq<WorkItem>
    decreases chunks.len(),
{
    if chunks.len() == 0 {
        Seq::empty()
    } else {
        spec_concat(chunks.drop_last()) + chunks.last()@
    }
}

/// Where each chunk of at most `chunk_size` items starts and ends among
/// `len` items, in order.
pub fn chunk_bounds(len: usize, chunk_size: usize) -> (bounds: Vec<(usize, usize)>)
    requires
        chunk_size > 0,
    ensures
        bounds@.len() == spec_chunk_count(len as nat, chunk_size as nat),
        forall|i: int|
            0 <= i < bounds@.len() ==> (#[trigger] bounds@[i]).0 == spec_chunk_bounds(
                len as nat,
                chunk_size as nat,
                i as nat,
            ).0 && bounds@[i].1 == spec_chunk_bounds(len as nat, chunk_size as nat, i as nat).1,
        forall|i: int|
            0 <= i < bounds@.len() ==> (#[trigger] bounds@[i]).0 < bounds@[i].1 <= len
                && bounds@[i].1 - bounds@[i].0 <= chunk_size,
        is_contiguous_cover(bounds@, len as nat),
{
    let mut bounds: Vec<(usize, usize)> = Vec::new();
    let mut start: usize = 0;
    proof {
        lemma_chunk_count_zero(chunk_size as nat);
        assert(bounds@.len() * chunk_size == 0) by (nonlinear_arith)
            requires
                bounds@.len() == 0,
        ;
    }
    while start < len
        invariant
            chunk_size > 0,
            start <= len,
            start < len ==> start == bounds@.len() * chunk_size,
            start == len ==> bounds@.len() == spec_chunk_count(len as nat, chunk_size as nat),
            bounds@.len() == 0 ==> start == 0,
            bounds@.len() > 0 ==> bounds@[0].0 == 0 && bounds@[bounds@.len() - 1].1 == start,
            forall|i: int| 0 < i < bounds@.len() ==> (#[trigger] bounds@[i]).0 == bounds@[i - 1].1,
            forall|i: int|
                0 <= i < bounds@.len() ==> (#[trigger] bounds@[i]).0 == spec_chunk_bounds(
                    len as nat,
                    chunk_size as nat,
                    i as nat,
                ).0 && bounds@[i].1 == spec_chunk_bounds(len as nat, chunk_size as nat, i as nat).1,
            forall|i: int|
                0 <= i < bounds@.len() ==> (#[trigger] bounds@[i]).0 < bounds@[i].1 <= len
                    && bounds@[i].1 - bounds@[i].0 <= chunk_size,
        decreases len - start,
    {
        let ghost n = bounds@.len();
        let end: usize = if len - start > chunk_size {
            start + chunk_size
        } else {
            len
        };
        proof {
            assert((n + 1) * chunk_size == n * chunk_size + chunk_size) by (nonlinear_arith);
            if end == len {
                lemma_chunk_count_between(len as nat, chunk_size as nat, n);
            }
        }
        bounds.push((start, end));
        start = end;
    }
    bounds
}

/// The items of each chunk of at most `chunk_size` work items, in order.
pub fn chunk_work_items(work_items: &Vec<WorkItem>, chunk_size: usize) -> (chunks: Vec<
    Vec<WorkItem>,
>)
    requires
        chunk_size > 0,
    ensures
        chunks@.len() == spec_chunk_count(work_items@.len(), chunk_size as nat),
        forall|i: int|
            0 <= i < chunks@.len() ==> (#[trigger] chunks@[i])@ == work_items@.subrange(
                spec_chunk_bounds(work_items@.len(), chunk_size as nat, i as nat).0 as int,
                spec_chunk_bounds(work_items@.len(), chunk_size as nat, i as nat).1 as int,
            ),
        spec_concat(chunks@) == work_items@,
{
    let bounds = chunk_bounds(work_items.len(), chunk_size);
    let mut chunks: Vec<Vec<WorkItem>> = Vec::new();
    let mut i: usize = 0;
    while i < bounds.len()
        invariant
            i <= bounds@.len(),
            chunks@.len() == i,
            is_contiguous_cover(bounds@, work_items@.len()),
            spec_concat(chunks@) == work_items@.subrange(
                0,
                if i == 0 {
                    0
                } else {
                    bounds@[i - 1].1 as int
                },
            ),
            forall|j: int|
                0 <= j < bounds@.len() ==> (#[trigger] bounds@[j]).0 == spec_chunk_bounds(
                    work_items@.len(),
                    chunk_size as nat,
                    j as nat,
                ).0 && bounds@[j].1 == spec_chunk_bounds(
                    work_items@.len(),
                    chunk_size as nat,
                    j as nat,
                ).1,
            forall|j: int|
                0 <= j < bounds@.len() ==> (#[trigger] bounds@[j]).0 < bounds@[j].1
                    <= work_items@.len(),
            forall|j: int|
                0 <= j < i ==> (#[trigger] chunks@[j])@ == work_items@.subrange(
                    spec_chunk_bounds(work_items@.len(), chunk_size as nat, j as nat).0 as int,
                    spec_chunk_bounds(work_items@.len(), chunk_size as nat, j as nat).1 as int,
                ),
        decreases bounds@.len() - i,
    {
        let (start, end) = bounds[i];
        let mut chunk: Vec<WorkItem> = Vec::new();
        let mut k: usize = start;
        while k < end
            invariant
                start <= k <= end <= work_items@.len(),
                chunk@ == work_items@.subrange(start as int, k as int),
            decreases end - k,
        {
            chunk.push(work_items[k]);
            assert(chunk@ =~= work_items@.subrange(start as int, k + 1));
            k += 1;
        }
        proof {
            let grown = chunks@.push(chunk);
            assert(grown.drop_last() =~= chunks@);
            assert(spec_concat(grown) == spec_concat(chunks@) + chunk@);
            assert(spec_concat(grown) =~= work_items@.subrange(0, end as int));
        }
        chunks.push(chunk);
        i += 1;
    }
    assert(spec_concat(chunks@) =~= work_items@);
    chunks
}

/// What the drainer does with a queue notification.
#[derive(Clone, Copy, Debug, PartialEq, Eq, Structural)]
pub enum QueuePlan {
    /// The slot is outside the active phase of the epoch: return cleanly.
    Skip,
    /// Fetch and process the queue of the tree at this position.
    Drain { tree_index: usize },
}

/// Decides how to serve the queue `queue_pubkey` at `current_slot`.
///
/// Outside the active phase of the epoch nothing is done and the call
/// returns cleanly. Inside it, the queue is drained for the first tree of
/// the epoch that it belongs to, and `TreeNotFound` is returned where it
/// belongs to none.
pub fn process_queue(
    protocol_config: &ProtocolConfig,
    epoch_info: &ForesterEpochInfo,
    current_slot: u64,
    queue_pubkey: &Pubkey,
) -> (plan: Result<QueuePlan, ForesterError>)
    requires
        protocol_config.epochs_defined(),
    ensures
        match plan {
            Ok(QueuePlan::Skip) => !protocol_config.spec_in_active_phase(
                current_slot,
                epoch_info.epoch.epoch,
            ),
            Ok(QueuePlan::Drain { tree_index }) => protocol_config.spec_in_active_phase(
                current_slot,
                epoch_info.epoch.epoch,
            ) && is_first_schedule_of_queue(epoch_info.trees@, *queue_pubkey, tree_index as int),
            Err(ForesterError::TreeNotFound) => protocol_config.spec_in_active_phase(
                current_slot,
                epoch_info.epoch.epoch,
            ) && has_no_schedule_of_queue(epoch_info.trees@, *queue_pubkey),
            Err(_) => false,
        },
{
    if !is_in_active_phase(protocol_config, current_slot, epoch_info.epoch.epoch) {
        return Ok(QueuePlan::Skip);
    }
    match find_schedule_by_queue(&epoch_info.trees, queue_pubkey) {
        Some(tree_index) => Ok(QueuePlan::Drain { tree_index }),
        None => Err(ForesterError::TreeNotFound),
    }
}

/// The queues that the initial drain serves: the queue of each tree of the
/// epoch, in the order of the trees.
pub fn process_queues(epoch_info: &ForesterEpochInfo) -> (queues: Vec<Pubkey>)
    ensures
        queues@.len() == epoch_info.trees@.len(),
        forall|i: int|
            0 <= i < queues@.len() ==> #[trigger] queues@[i]
                == epoch_info.trees@[i].tree_accounts.queue,
{
    let mut queues: Vec<Pubkey> = Vec::new();
    let mut i: usize = 0;
    while i < epoch_info.trees.len()
        invariant
            i <= epoch_info.trees@.len(),
            queues@.len() == i,
            forall|j: int|
                0 <= j < i ==> #[trigger] queues@[j] == epoch_info.trees@[j].tree_accounts.queue,
        decreases epoch_info.trees@.len() - i,
    {
        queues.push(epoch_info.trees[i].tree_accounts.queue);
        i += 1;
    }
    queues
}

/// Turns the entries read from the queue of `tree` into work items for that
/// tree, in their order.
pub fn fetch_work_items(tree: &TreeForesterSchedule, queue_item_data: &Vec<QueueItemData>) -> (work_items:
    Vec<WorkItem>)
    ensures
        work_items@.len() == queue_item_data@.len(),
        forall|i: int|
            0 <= i < work_items@.len() ==> #[trigger] work_items@[i] == (WorkItem {
                tree_account: tree.tree_accounts,
                queue_item_data: queue_item_data@[i],
            }),
{
    let mut work_items: Vec<WorkItem> = Vec::new();
    let mut i: usize = 0;
    while i < queue_item_data.len()
        invariant
            i <= queue_item_data@.len(),
            work_items@.len() == i,
            forall|j: int|
                0 <= j < i ==> #[trigger] work_items@[j] == (WorkItem {
                    tree_account: tree.tree_accounts,
                    queue_item_data: queue_item_data@[j],
                }),
        decreases queue_item_data@.len() - i,
    {
        work_items.push(
            WorkItem { tree_account: tree.tree_accounts, queue_item_data: queue_item_data[i] },
        );
        i += 1;
    }
    work_items
}

/// The signatures among the outcomes of a run of batches, in their order:
/// one for each batch that was confirmed, none for a skipped or failed one.
pub open spec fn spec_signatures(outcomes: Seq<Result<Option<Signature>, ForesterError>>) -> Seq<
    Signature,
>
    decreases outcomes.len(),
{
    if outcomes.len() == 0 {
        Seq::empty()
    } else {
        let before = spec_signatures(outcomes.drop_last());
        match outcomes.last() {
            Ok(Some(signature)) => before.push(signature),
            _ => before,
        }
    }
}

/// Gate of every transaction chunk: work goes on only inside the active
/// phase of the epoch, and stops with `NotInActivePhase` outside it.
pub fn process_work_items(
    protocol_config: &ProtocolConfig,
    epoch_info: &ForesterEpochInfo,
    current_slot: u64,
) -> (gate: Result<(), ForesterError>)
    requires
        protocol_config.epochs_defined(),
    ensures
        gate.is_ok() == protocol_config.spec_in_active_phase(current_slot, epoch_info.epoch.epoch),
        gate.is_err() ==> gate == Err::<(), ForesterError>(ForesterError::NotInActivePhase),
{
    if is_in_active_phase(protocol_config, current_slot, epoch_info.epoch.epoch) {
        Ok(())
    } else {
        Err(ForesterError::NotInActivePhase)
    }
}

/// Gathers the signatures of the confirmed batches of a chunk.
pub fn collect_signatures(outcomes: &Vec<Result<Option<Signature>, ForesterError>>) -> (signatures:
    Vec<Signature>)
    ensures
        signatures@ == spec_signatures(outcomes@),
{
    let mut signatures: Vec<Signature> = Vec::new();
    let mut i: usize = 0;
    while i < outcomes.len()
        invariant
            i <= outcomes@.len(),
            signatures@ == spec_signatures(outcomes@.take(i as int)),
        decreases outcomes@.len() - i,
    {
        proof {
            assert(outcomes@.take(i + 1).drop_last() =~= outcomes@.take(i as int));
        }
        match &outcomes[i] {
            Ok(Some(signature)) => {
                signatures.push(*signature);
            },
            _ => {},
        }
        i += 1;
    }
    proof {
        assert(outcomes@.take(i as int) =~= outcomes@);
    }
    signatures
}

/// A counting gate for tasks that run side by side.
#[derive(Clone, Copy, Debug, PartialEq, Eq)]
pub struct PermitPool {
    pub capacity: usize,
    pub in_flight: usize,
}

impl PermitPool {
    /// No more tasks hold a permit than the pool has.
    pub open spec fn well_formed(self) -> bool {
        self.in_flight <= self.capacity
    }

    /// A pool of `capacity` permits, all free.
    pub fn new(capacity: usize) -> (pool: PermitPool)
        ensures
            pool.well_formed(),
            pool.capacity == capacity,
            pool.in_flight == 0,
    {
        PermitPool { capacity, in_flight: 0 }
    }

    /// Takes a permit if one is free.
    pub fn try_acquire(&mut self) -> (granted: bool)
        requires
            old(self).well_formed(),
        ensures
            final(self).well_formed(),
            final(self).capacity == old(self).capacity,
            granted == (old(self).in_flight < old(self).capacity),
            granted ==> final(self).in_flight == old(self).in_flight + 1,
            !granted ==> final(self).in_flight == old(self).in_flight,
    {
        if self.in_flight < self.capacity {
            self.in_flight = self.in_flight + 1;
            true
        } else {
            false
        }
    }

    /// Gives a permit back. Without a permit out, nothing changes.
    pub fn release(&mut self)
        requires
            old(self).well_formed(),
        ensures
            final(self).well_formed(),
            final(self).capacity == old(self).capacity,
            old(self).in_flight > 0 ==> final(self).in_flight == old(self).in_flight - 1,
            old(self).in_flight == 0 ==> final(self).in_flight == 0,
    {
        if self.in_flight > 0 {
            self.in_flight = self.in_flight - 1;
        }
    }
}

/// The progress of one run over the chunks of a queue or of a work list.
#[derive(Clone, Copy, Debug, PartialEq, Eq)]
pub struct ChunkScheduler {
    pub total_chunks: usize,
    /// Chunks handed to a task so far.
    pub started: usize,
    /// Chunks whose task has reported back.
    pub completed: usize,
    pub permits: PermitPool,
}

/// What the driver of a run does next.
#[derive(Clone, Copy, Debug, PartialEq, Eq, Structural)]
pub enum ChunkAction {
    /// Start a task for the chunk at this position.
    Spawn { chunk: usize },
    /// Wait for a running task to report back.
    AwaitCompletion,
    /// All chunks have reported back.
    Finished,
}

impl ChunkScheduler {
    /// The tasks in flight are those started and not yet completed, and they
    /// never outnumber the permits.
    pub open spec fn well_formed(self) -> bool {
        &&& self.completed <= self.started <= self.total_chunks
        &&& self.permits.in_flight == self.started - self.completed
        &&& self.permits.well_formed()
        &&& self.permits.capacity > 0
    }

    /// The next action in the given progress.
    pub open spec fn spec_next_action(self) -> ChunkAction {
        if self.started < self.total_chunks && self.permits.in_flight < self.permits.capacity {
            ChunkAction::Spawn { chunk: self.started }
        } else if self.completed < self.total_chunks {
            ChunkAction::AwaitCompletion
        } else {
            ChunkAction::Finished
        }
    }

    /// A run over `total_chunks` chunks with at most `max_concurrent` tasks
    /// side by side.
    pub fn new(total_chunks: usize, max_concurrent: usize) -> (scheduler: ChunkScheduler)
        requires
            max_concurrent > 0,
        ensures
            scheduler.well_formed(),
            scheduler.total_chunks == total_chunks,
            scheduler.started == 0,
            scheduler.completed == 0,
            scheduler.permits.capacity == max_concurrent,
    {
        ChunkScheduler {
            total_chunks,
            started: 0,
            completed: 0,
            permits: PermitPool::new(max_concurrent),
        }
    }

    /// Says what to do next, and counts a chunk as started where the answer
    /// is to start one.
    pub fn next_action(&mut self) -> (action: ChunkAction)
        requires
            old(self).well_formed(),
        ensures
            final(self).well_formed(),
            action == old(self).spec_next_action(),
            final(self).total_chunks == old(self).total_chunks,
            final(self).completed == old(self).completed,
            final(self).permits.capacity == old(self).permits.capacity,
            action is Spawn ==> final(self).started == old(self).started + 1,
            !(action is Spawn) ==> final(self).started == old(self).started,
    {
        if self.started < self.total_chunks {
            let granted = self.permits.try_acquire();
            if granted {
                let chunk = self.started;
                self.started = self.started + 1;
                return ChunkAction::Spawn { chunk };
            }
        }
        if self.completed < self.total_chunks {
            ChunkAction::AwaitCompletion
        } else {
            ChunkAction::Finished
        }
    }

    /// Records that one running task has reported back. Without a task in
    /// flight, nothing changes.
    pub fn on_completed(&mut self)
        requires
            old(self).well_formed(),
        ensures
            final(self).well_formed(),
            final(self).total_chunks == old(self).total_chunks,
            final(self).started == old(self).started,
            final(self).permits.capacity == old(self).permits.capacity,
            old(self).completed < old(self).started ==> final(self).completed == old(
                self,
            ).completed + 1,
            old(self).completed == old(self).started ==> final(self).completed == old(
                self,
            ).completed,
    {
        if self.completed < self.started {
            self.permits.release();
            self.completed = self.completed + 1;
        }
    }
}

/// The drain of one queue: its items in chunks, and the progress over them.
#[derive(Clone, Debug, PartialEq, Eq)]
pub struct QueueDrain {
    pub chunks: Vec<Vec<WorkItem>>,
    pub scheduler: ChunkScheduler,
}

impl QueueDrain {
    /// The progress runs over the chunks of the drain.
    pub open spec fn well_formed(self) -> bool {
        self.scheduler.well_formed() && self.scheduler.total_chunks == self.chunks@.len()
    }

    /// Every chunk has reported back.
    pub open spec fn finished(self) -> bool {
        self.scheduler.completed == self.scheduler.total_chunks
    }

    /// Opens the drain of a queue whose items are `work_items`: they fall
    /// into chunks of the indexer batch size, each item in one chunk, and as
    /// many chunks run side by side as the settings allow.
    pub fn start(work_items: &Vec<WorkItem>, config: &ForesterConfig) -> (drain: QueueDrain)
        requires
            config.well_formed(),
        ensures
            drain.well_formed(),
            drain.chunks@.len() == spec_chunk_count(
                work_items@.len(),
                config.indexer_batch_size as nat,
            ),
            forall|i: int|
                0 <= i < drain.chunks@.len() ==> (#[trigger] drain.chunks@[i])@
                    == work_items@.subrange(
                    spec_chunk_bounds(
                        work_items@.len(),
                        config.indexer_batch_size as nat,
                        i as nat,
                    ).0 as int,
                    spec_chunk_bounds(
                        work_items@.len(),
                        config.indexer_batch_size as nat,
                        i as nat,
                    ).1 as int,
                ),
            spec_concat(drain.chunks@) == work_items@,
            drain.scheduler.started == 0,
            drain.scheduler.completed == 0,
            drain.scheduler.permits.capacity == config.indexer_max_concurrent_batches,
    {
        let chunks = chunk_work_items(work_items, config.indexer_batch_size);
        let scheduler = ChunkScheduler::new(chunks.len(), config.indexer_max_concurrent_batches);
        QueueDrain { chunks, scheduler }
    }

    /// Says what to do next: start the task of the next chunk while a permit
    /// is free, wait for a report while tasks are running, and finish when
    /// every chunk has reported.
    pub fn next_action(&mut self) -> (action: ChunkAction)
        requires
            old(self).well_formed(),
        ensures
            final(self).well_formed(),
            final(self).chunks == old(self).chunks,
            final(self).scheduler.permits.capacity == old(self).scheduler.permits.capacity,
            final(self).scheduler.total_chunks == old(self).scheduler.total_chunks,
            final(self).scheduler.started - final(self).scheduler.completed <= final(
                self).scheduler.permits.capacity,
            action == old(self).scheduler.spec_next_action(),
            action matches ChunkAction::Spawn { chunk } ==> (chunk < final(self).chunks@.len()
                && final(self).scheduler.started == old(self).scheduler.started + 1),
            !(action is Spawn) ==> final(self).scheduler == old(self).scheduler,
            final(self).scheduler.completed == old(self).scheduler.completed,
            action is Finished <==> old(self).finished(),
    {
        self.scheduler.next_action()
    }

    /// Takes the report of one chunk task. A chunk counts as done whether it
    /// reported signatures or an error: no chunk is run again, and a failure
    /// does not stop the drain.
    pub fn on_report(&mut self, report: &Result<Vec<Signature>, ForesterError>)
        requires
            old(self).well_formed(),
        ensures
            final(self).well_formed(),
            final(self).chunks == old(self).chunks,
            final(self).scheduler.started == old(self).scheduler.started,
            final(self).scheduler.total_chunks == old(self).scheduler.total_chunks,
            final(self).scheduler.permits.capacity == old(self).scheduler.permits.capacity,
            old(self).scheduler.completed < old(self).scheduler.started
                ==> final(self).scheduler.completed == old(self).scheduler.completed + 1,
            old(self).scheduler.completed == old(self).scheduler.started
                ==> final(self).scheduler.completed == old(self).scheduler.completed,
    {
        self.scheduler.on_completed();
    }

    /// What the drain returns: nothing while chunks are outstanding, and a
    /// clean return once every chunk has reported, whatever they reported.
    pub fn outcome(&self) -> (outcome: Option<Result<(), ForesterError>>)
        requires
            self.well_formed(),
        ensures
            self.finished() ==> outcome == Some(Ok::<(), ForesterError>(())),
            !self.finished() ==> outcome.is_none(),
    {
        if self.scheduler.completed == self.scheduler.total_chunks {
            Some(Ok(()))
        } else {
            None
        }
    }
}

/// The processing of one indexer chunk: its items in transaction batches,
/// the progress over them, and what the batches have returned so far.
#[derive(Debug, PartialEq, Eq)]
pub struct WorkItemsRun {
    pub batches: Vec<Vec<WorkItem>>,
    pub scheduler: ChunkScheduler,
    pub outcomes: Vec<Result<Option<Signature>, ForesterError>>,
}

impl WorkItemsRun {
    /// The progress runs over the batches, and one outcome is kept for each
    /// batch that has returned.
    pub open spec fn well_formed(self) -> bool {
        &&& self.scheduler.well_formed()
        &&& self.scheduler.total_chunks <= self.batches@.len()
        &&& self.outcomes@.len() == self.scheduler.completed
    }

    /// Every batch has returned.
    pub open spec fn finished(self) -> bool {
        self.scheduler.completed == self.scheduler.total_chunks
    }

    /// Opens the run over `work_items`: they fall into batches of the
    /// transaction batch size, each item in one batch, and as many batches
    /// run side by side as the settings allow.
    pub fn start(work_items: &Vec<WorkItem>, config: &ForesterConfig) -> (run: WorkItemsRun)
        requires
            config.well_formed(),
        ensures
            run.well_formed(),
            run.batches@.len() == spec_chunk_count(
                work_items@.len(),
                config.transaction_batch_size as nat,
            ),
            forall|i: int|
                0 <= i < run.batches@.len() ==> (#[trigger] run.batches@[i])@
                    == work_items@.subrange(
                    spec_chunk_bounds(
                        work_items@.len(),
                        config.transaction_batch_size as nat,
                        i as nat,
                    ).0 as int,
                    spec_chunk_bounds(
                        work_items@.len(),
                        config.transaction_batch_size as nat,
                        i as nat,
                    ).1 as int,
                ),
            spec_concat(run.batches@) == work_items@,
            run.scheduler.total_chunks == run.batches@.len(),
            run.scheduler.started == 0,
            run.scheduler.completed == 0,
            run.scheduler.permits.capacity == config.transaction_max_concurrent_batches,
            run.outcomes@.len() == 0,
    {
        let batches = chunk_work_items(work_items, config.transaction_batch_size);
        let scheduler = ChunkScheduler::new(
            batches.len(),
            config.transaction_max_concurrent_batches,
        );
        WorkItemsRun { batches, scheduler, outcomes: Vec::new() }
    }

    /// Says what to do next: start the next batch while a permit is free,
    /// wait for a batch to return while batches are running, and finish when
    /// every batch has returned.
    pub fn next_action(&mut self) -> (action: ChunkAction)
        requires
            old(self).well_formed(),
        ensures
            final(self).well_formed(),
            final(self).batches == old(self).batches,
            final(self).outcomes == old(self).outcomes,
            final(self).scheduler.permits.capacity == old(self).scheduler.permits.capacity,
            final(self).scheduler.total_chunks == old(self).scheduler.total_chunks,
            final(self).scheduler.completed == old(self).scheduler.completed,
            final(self).scheduler.started - final(self).scheduler.completed <= final(
                self).scheduler.permits.capacity,
            action == old(self).scheduler.spec_next_action(),
            action matches ChunkAction::Spawn { chunk } ==> (chunk < final(self).batches@.len()
                && final(self).scheduler.started == old(self).scheduler.started + 1),
            !(action is Spawn) ==> final(self).scheduler == old(self).scheduler,
            action is Finished <==> old(self).finished(),
    {
        self.scheduler.next_action()
    }

    /// Takes what one batch returned. The batch counts as done whether it
    /// was confirmed, skipped or failed: a failure is kept among the
    /// outcomes and does not stop the batches after it. Without a batch in
    /// flight, nothing changes.
    pub fn on_outcome(&mut self, outcome: Result<Option<Signature>, ForesterError>)
        requires
            old(self).well_formed(),
        ensures
            final(self).well_formed(),
            final(self).batches == old(self).batches,
            final(self).scheduler.started == old(self).scheduler.started,
            final(self).scheduler.total_chunks == old(self).scheduler.total_chunks,
            final(self).scheduler.permits.capacity == old(self).scheduler.permits.capacity,
            old(self).scheduler.completed < old(self).scheduler.started ==> (final(self).outcomes@
                == old(self).outcomes@.push(outcome) && final(self).scheduler.completed == old(
                self).scheduler.completed + 1),
            old(self).scheduler.completed == old(self).scheduler.started ==> (final(self).outcomes@
                == old(self).outcomes@ && final(self).scheduler.completed == old(
                self).scheduler.completed),
    {
        if self.scheduler.completed < self.scheduler.started {
            self.scheduler.on_completed();
            self.outcomes.push(outcome);
        }
    }

    /// Stops the run because the active phase is over: no further batch is
    /// started. The batches that have been started still return, and the run
    /// then returns what they gave.
    pub fn stop(&mut self)
        requires
            old(self).well_formed(),
        ensures
            final(self).well_formed(),
            final(self).batches == old(self).batches,
            final(self).outcomes == old(self).outcomes,
            final(self).scheduler.total_chunks == old(self).scheduler.started,
            final(self).scheduler.started == old(self).scheduler.started,
            final(self).scheduler.completed == old(self).scheduler.completed,
            final(self).scheduler.permits == old(self).scheduler.permits,
            final(self).scheduler.spec_next_action() != (ChunkAction::Spawn {
                chunk: final(self).scheduler.started,
            }),
    {
        self.scheduler.total_chunks = self.scheduler.started;
    }

    /// What the run returns: nothing while batches are outstanding, and once
    /// every batch has returned, the signatures of the confirmed ones, in the
    /// order in which they returned.
    pub fn outcome(&self) -> (signatures: Option<Vec<Signature>>)
        requires
            self.well_formed(),
        ensures
            self.finished() ==> (signatures matches Some(v) && v@ == spec_signatures(
                self.outcomes@,
            )),
            !self.finished() ==> signatures.is_none(),
    {
        if self.scheduler.completed == self.scheduler.total_chunks {
            Some(collect_signatures(&self.outcomes))
        } else {
            None
        }
    }
}

/// A failed batch adds nothing to the signatures of a run and takes none
/// away: the run returns exactly the signatures of its confirmed batches.
pub proof fn lemma_failure_leaves_signatures(
    outcomes: Seq<Result<Option<Signature>, ForesterError>>,
    error: ForesterError,
    signature: Signature,
)
    ensures
        spec_signatures(outcomes.push(Err(error))) == spec_signatures(outcomes),
        spec_signatures(outcomes.push(Ok(None))) == spec_signatures(outcomes),
        spec_signatures(outcomes.push(Ok(Some(signature)))) == spec_signatures(outcomes).push(
            signature,
        ),
{
    assert(outcomes.push(Err(error)).drop_last() =~= outcomes);
    assert(outcomes.push(Ok(None)).drop_last() =~= outcomes);
    assert(outcomes.push(Ok(Some(signature))).drop_last() =~= outcomes);
}

/// At every point of a run the number of tasks in flight is at most the
/// number of permits, and a task is started only while a permit is free.
pub proof fn lemma_in_flight_is_bounded(scheduler: ChunkScheduler)
    requires
        scheduler.well_formed(),
    ensures
        scheduler.started - scheduler.completed <= scheduler.permits.capacity,
        scheduler.spec_next_action() is Spawn ==> scheduler.started - scheduler.completed
            < scheduler.permits.capacity,
        scheduler.spec_next_action() is Finished ==> scheduler.completed
            == scheduler.total_chunks,
{
}

} // verus!
