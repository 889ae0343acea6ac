//! Admission tickets of the rate limiter.
//!
//! A slot marks one task's claim on one unit of per-second throughput.
//! It carries the priority ordinal of the task, the time of its admission
//! attempt, and whether it was chosen to preempt a lower-priority slot.

use vstd::prelude::*;

use crate::clock;
use crate::priority::Priority;

verus! {

/// How long a slot occupies capacity, in milliseconds.
pub const SLOT_LIFETIME_MS: u64 = 1000;

/// One admission ticket.
#[derive(Debug, Clone, Copy, PartialEq, Eq, Structural)]
pub struct Slots {
    /// Priority ordinal: 0 = none, 1 = low, 2 = medium, 3 = high.
    pub priority: u8,
    /// When the ticket was created, in milliseconds of wall-clock time.
    pub timestamp_ms: u64,
    /// Whether this ticket was found to outrank a live slot and so may
    /// preempt it.
    pub checked: bool,
}

impl Slots {
    /// A slot is well formed when its priority is one of the four ordinals.
    pub open spec fn wf(self) -> bool {
        self.priority <= 3
    }

    /// A slot has expired once it is a full lifetime old.
    pub open spec fn spec_expired(self, now_ms: u64) -> bool {
        now_ms >= self.timestamp_ms + SLOT_LIFETIME_MS
    }

    /// A ticket for a task of the given priority, stamped `timestamp_ms`.
    pub fn new_at(priority: &Priority, timestamp_ms: u64) -> (s: Slots)
        ensures
            s.priority == priority.ordinal(),
            s.timestamp_ms == timestamp_ms,
            !s.checked,
            s.wf(),
    {
        Slots { priority: priority.to_value(), timestamp_ms, checked: false }
    }

    /// A ticket for a task of the given priority, stamped with the time of
    /// the call.
    pub fn new(priority: &Priority) -> (s: Slots)
        ensures
            s.priority == priority.ordinal(),
            !s.checked,
            s.wf(),
    {
        Slots::new_at(priority, clock::now_millis())
    }

    /// Whether this slot has expired at the given reading of the clock.
    pub fn is_expired(&self, now_ms: u64) -> (e: bool)
        ensures
            e == self.spec_expired(now_ms),
    {
        now_ms >= self.timestamp_ms && now_ms - self.timestamp_ms >= SLOT_LIFETIME_MS
    }

    /// The time this slot was stamped with, in milliseconds.
    pub fn get_current_timestamp(&self) -> (t: u64)
        ensures
            t == self.timestamp_ms,
    {
        self.timestamp_ms
    }

    /// Scan the live slots for a preemption victim for `current_slot`.
    ///
    /// When the incoming task carries a real priority and some live slot
    /// ranks strictly below the candidate, the candidate is marked as a
    /// preemptor (`checked`) and the scan returns the index of the
    /// lowest-ranking slot, the earliest such slot winning ties. Otherwise
    /// nothing changes and nothing is returned.
    pub fn check_priority(
        current_slot: &mut Slots,
        priority: &Priority,
        slots_queue: &Vec<Slots>,
    ) -> (victim: Option<usize>)
        requires
            old(current_slot).wf(),
            forall|j: int| 0 <= j < slots_queue@.len() ==> (#[trigger] slots_queue@[j]).wf(),
        ensures
            victim is Some <==> *priority != Priority::NoPriority
                && slots_queue@.len() > 0
                && (exists|j: int|
                    0 <= j < slots_queue@.len()
                        && (#[trigger] slots_queue@[j]).priority
                            < old(current_slot).priority),
            victim matches Some(i) ==> {
                &&& 0 <= i < slots_queue@.len()
                &&& forall|j: int|
                    0 <= j < slots_queue@.len()
                        ==> (#[trigger] slots_queue@[j]).priority
                            >= slots_queue@[i as int].priority
                &&& forall|j: int|
                    0 <= j < i
                        ==> (#[trigger] slots_queue@[j]).priority
                            > slots_queue@[i as int].priority
                &&& slots_queue@[i as int].priority < old(current_slot).priority
                &&& *final(current_slot) == Slots { checked: true, ..*old(current_slot) }
            },
            victim is None ==> *final(current_slot) == *old(current_slot),
    {
        let mut min_index_to_remove: Option<usize> = None;
        let mut min_value: u8 = 10;

        if *priority != Priority::NoPriority && slots_queue.len() > 0 {
            let mut idx: usize = 0;
            while idx < slots_queue.len()
                invariant
                    0 <= idx <= slots_queue@.len(),
                    forall|j: int|
                        0 <= j < slots_queue@.len()
                            ==> (#[trigger] slots_queue@[j]).wf(),
                    idx == 0 ==> min_index_to_remove is None && min_value == 10,
                    idx > 0 ==> (min_index_to_remove matches Some(k)
                        && 0 <= k < idx
                        && slots_queue@[k as int].priority == min_value
                        && (forall|j: int|
                            0 <= j < idx
                                ==> (#[trigger] slots_queue@[j]).priority >= min_value)
                        && (forall|j: int|
                            0 <= j < k
                                ==> (#[trigger] slots_queue@[j]).priority > min_value)),
                decreases slots_queue@.len() - idx,
            {
                if slots_queue[idx].priority < min_value {
                    min_value = slots_queue[idx].priority;
                    min_index_to_remove = Some(idx);
                }
                idx += 1;
            }
            if current_slot.priority > min_value {
                current_slot.checked = true;
                return min_index_to_remove;
            }
        }
        None
    }
}

} // verus!
