//! The slot window calculator.
//!
//! Authoring proceeds on a fixed time cadence: wall-clock time is divided
//! into consecutive windows ("slots") of a fixed duration, and every attempt
//! is given a bounded time budget that is independent of the slot duration.

use vstd::arithmetic::div_mod::lemma_div_is_ordered;
use vstd::prelude::*;

verus! {

/// Default width of one slot, in milliseconds.
pub const DEFAULT_SLOT_DURATION_MS: u64 = 12000;

/// Default time budget of one authoring attempt, in milliseconds.
pub const DEFAULT_ATTEMPT_BUDGET_MS: u64 = 500;

/// The slot window an authoring attempt runs in: which slot the current
/// instant falls into, the instant itself, and the instant by which the
/// attempt should be over.
#[derive(Clone, Copy, PartialEq, Eq, Structural, Debug)]
pub struct SlotWindow {
    /// Index of the slot that contains `timestamp_ms`.
    pub slot_index: u64,
    /// The wall-clock instant the attempt started at, in milliseconds.
    pub timestamp_ms: u64,
    /// The instant the attempt's budget runs out at, in milliseconds.
    pub deadline_ms: u64,
}

/// Index of the slot that contains the instant `now_ms`: how many whole
/// durations have elapsed.
pub open spec fn spec_slot_index(now_ms: u64, duration_ms: u64) -> int
    recommends
        duration_ms > 0,
{
    now_ms as int / duration_ms as int
}

/// Instant at which an attempt started at `now_ms` must be over.
pub open spec fn spec_deadline(now_ms: u64, budget_ms: u64) -> int {
    now_ms + budget_ms
}

/// The whole window for an attempt started at `now_ms`.
pub open spec fn spec_slot_window(now_ms: u64, duration_ms: u64, budget_ms: u64) -> SlotWindow
    recommends
        duration_ms > 0,
        now_ms + budget_ms <= u64::MAX,
{
    (SlotWindow {
        slot_index: spec_slot_index(now_ms, duration_ms) as u64,
        timestamp_ms: now_ms,
        deadline_ms: spec_deadline(now_ms, budget_ms) as u64,
    })
}

/// Computes the index of the slot that contains `now_ms`.
pub fn slot_index_at(now_ms: u64, duration_ms: u64) -> (index: u64)
    requires
        duration_ms > 0,
    ensures
        index == spec_slot_index(now_ms, duration_ms),
{
    now_ms / duration_ms
}

/// Computes the deadline of an attempt started at `now_ms` with budget
/// `budget_ms`.
pub fn deadline_at(now_ms: u64, budget_ms: u64) -> (deadline: u64)
    requires
        now_ms + budget_ms <= u64::MAX,
    ensures
        deadline == spec_deadline(now_ms, budget_ms),
{
    now_ms + budget_ms
}

/// Computes the whole slot window for an attempt started at `now_ms`.
pub fn slot_window_at(now_ms: u64, duration_ms: u64, budget_ms: u64) -> (window: SlotWindow)
    requires
        duration_ms > 0,
        now_ms + budget_ms <= u64::MAX,
    ensures
        window == spec_slot_window(now_ms, duration_ms, budget_ms),
        window.slot_index == spec_slot_index(now_ms, duration_ms),
        window.timestamp_ms == now_ms,
        window.deadline_ms == now_ms + budget_ms,
{
    SlotWindow {
        slot_index: slot_index_at(now_ms, duration_ms),
        timestamp_ms: now_ms,
        deadline_ms: deadline_at(now_ms, budget_ms),
    }
}

/// The slot index never decreases as time advances: an attempt started later
/// never lands in an earlier slot.
pub proof fn lemma_slot_index_non_decreasing(earlier_ms: u64, later_ms: u64, duration_ms: u64)
    requires
        duration_ms > 0,
        earlier_ms <= later_ms,
    ensures
        spec_slot_index(earlier_ms, duration_ms) <= spec_slot_index(later_ms, duration_ms),
{
    lemma_div_is_ordered(earlier_ms as int, later_ms as int, duration_ms as int);
}

/// The deadline depends on the start instant and the attempt budget alone:
/// two windows computed at the same instant with the same budget share their
/// deadline (and their timestamp), whatever their slot durations.
pub proof fn lemma_deadline_independent_of_duration(
    now_ms: u64,
    duration_a_ms: u64,
    duration_b_ms: u64,
    budget_ms: u64,
)
    requires
        duration_a_ms > 0,
        duration_b_ms > 0,
    ensures
        spec_slot_window(now_ms, duration_a_ms, budget_ms).deadline_ms == spec_slot_window(
            now_ms,
            duration_b_ms,
            budget_ms,
        ).deadline_ms,
        spec_slot_window(now_ms, duration_a_ms, budget_ms).timestamp_ms == spec_slot_window(
            now_ms,
            duration_b_ms,
            budget_ms,
        ).timestamp_ms,
{
}

} // verus!
