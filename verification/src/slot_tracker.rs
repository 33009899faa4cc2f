use vstd::prelude::*;
use crate::protocol::saturate;

verus! {

/// The slot that the ledger has reached by the estimate: the last slot that
/// was observed, plus one slot for each full slot duration that has passed
/// since, and never beyond the largest slot number.
pub open spec fn spec_estimated_slot(
    last_known_slot: u64,
    elapsed_ms: u64,
    slot_duration_ms: u64,
) -> u64 {
    saturate(last_known_slot + elapsed_ms / slot_duration_ms)
}

/// The estimate of the current slot from the last observation and the time
/// that has passed since.
pub fn estimated_current_slot(last_known_slot: u64, elapsed_ms: u64, slot_duration_ms: u64) -> (slot:
    u64)
    requires
        slot_duration_ms > 0,
    ensures
        slot == spec_estimated_slot(last_known_slot, elapsed_ms, slot_duration_ms),
{
    let passed: u64 = elapsed_ms / slot_duration_ms;
    if passed > u64::MAX - last_known_slot {
        u64::MAX
    } else {
        last_known_slot + passed
    }
}

/// Number of slots between the estimate and a target; none once the target
/// has been reached.
pub fn slots_to_wait(target_slot: u64, current_slot: u64) -> (slots: u64)
    ensures
        current_slot >= target_slot ==> slots == 0,
        current_slot < target_slot ==> slots == target_slot - current_slot,
{
    if current_slot >= target_slot {
        0
    } else {
        target_slot - current_slot
    }
}

/// The estimate never runs backwards as time passes.
pub proof fn lemma_estimate_is_monotonic(
    last_known_slot: u64,
    earlier_ms: u64,
    later_ms: u64,
    slot_duration_ms: u64,
)
    requires
        slot_duration_ms > 0,
        earlier_ms <= later_ms,
    ensures
        last_known_slot <= spec_estimated_slot(last_known_slot, earlier_ms, slot_duration_ms)
            <= spec_estimated_slot(last_known_slot, later_ms, slot_duration_ms),
{
    let d = slot_duration_ms as int;
    let a = earlier_ms as int;
    let b = later_ms as int;
    assert(0 <= a / d <= b / d) by (nonlinear_arith)
        requires
            d > 0,
            0 <= a <= b,
    ;
}

} // verus!
