use vstd::prelude::*;

verus! {

/// A 32-byte ledger account identifier.
#[derive(Clone, Copy, Debug, PartialEq, Eq)]
pub struct Pubkey {
    pub bytes: [u8; 32],
}

impl View for Pubkey {
    type V = Seq<u8>;

    open spec fn view(&self) -> Seq<u8> {
        self.bytes@
    }
}

impl Pubkey {
    /// The identifier with the given bytes.
    pub fn new_from_array(bytes: [u8; 32]) -> (key: Pubkey)
        ensures
            key.bytes == bytes,
    {
        Pubkey { bytes }
    }

    /// The bytes of the identifier.
    pub fn to_bytes(&self) -> (bytes: [u8; 32])
        ensures
            bytes == self.bytes,
    {
        self.bytes
    }

    /// Byte-wise comparison of two identifiers.
    pub fn same_as(&self, other: &Pubkey) -> (same: bool)
        ensures
            same == (self@ == other@),
    {
        let mut i: usize = 0;
        while i < 32
            invariant
                i <= 32,
                forall|j: int| 0 <= j < i ==> self.bytes@[j] == other.bytes@[j],
            decreases 32 - i,
        {
            if self.bytes[i] != other.bytes[i] {
                return false;
            }
            i += 1;
        }
        assert(self.bytes@ =~= other.bytes@);
        true
    }
}

/// The confirmation handle of a submitted ledger transaction.
#[derive(Clone, Copy, Debug, PartialEq, Eq)]
pub struct Signature {
    pub bytes: [u8; 64],
}

/// Which kind of authenticated structure a managed tree is.
#[derive(Clone, Copy, Debug, PartialEq, Eq, Structural)]
pub enum TreeType {
    State,
    Address,
}

/// Identity of one managed tree and its work queue.
#[derive(Clone, Copy, Debug, PartialEq, Eq)]
pub struct TreeAccounts {
    pub merkle_tree: Pubkey,
    pub queue: Pubkey,
    pub tree_type: TreeType,
}

impl TreeAccounts {
    /// Two records name the same tree, queue and tree type.
    pub open spec fn matches_accounts(self, other: TreeAccounts) -> bool {
        &&& self.merkle_tree@ == other.merkle_tree@
        &&& self.queue@ == other.queue@
        &&& self.tree_type == other.tree_type
    }

    /// The record of a tree, its queue and its type.
    pub fn new(merkle_tree: Pubkey, queue: Pubkey, tree_type: TreeType) -> (accounts: TreeAccounts)
        ensures
            accounts.merkle_tree == merkle_tree,
            accounts.queue == queue,
            accounts.tree_type == tree_type,
    {
        TreeAccounts { merkle_tree, queue, tree_type }
    }

    /// Whether two records name the same tree, queue and tree type.
    pub fn same_accounts(&self, other: &TreeAccounts) -> (same: bool)
        ensures
            same == self.matches_accounts(*other),
    {
        self.merkle_tree.same_as(&other.merkle_tree) && self.queue.same_as(&other.queue)
            && self.tree_type == other.tree_type
    }
}

/// Failures and control-flow signals of the worker.
#[derive(Clone, Debug, PartialEq, Eq)]
pub enum ForesterError {
    RpcFailure,
    IndexerFailure,
    /// Expected: the forester holds no turn in the current light slot.
    NotEligible,
    /// Expected: the slot lies outside the active phase of the epoch.
    NotInActivePhase,
    TreeNotFound,
    RegistrationTooLate,
    Timeout,
    Cancelled,
    Custom(String),
}

/// One pending maintenance action read from a queue.
#[derive(Clone, Copy, Debug, PartialEq, Eq)]
pub struct QueueItemData {
    pub hash: [u8; 32],
    pub index: u32,
}

/// A queued action together with the tree it applies to.
#[derive(Clone, Copy, Debug, PartialEq, Eq)]
pub struct WorkItem {
    pub tree_account: TreeAccounts,
    pub queue_item_data: QueueItemData,
}

/// What a controller publishes once an epoch has been reported.
#[derive(Clone, Copy, Debug, PartialEq, Eq)]
pub struct WorkReport {
    pub epoch: u64,
    pub processed_items: usize,
}

} // verus!
