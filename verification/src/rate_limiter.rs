//! Priority-aware, slot-based admission rate limiting.
//!
//! The limiter caps how many tasks may be admitted per second: each
//! admission occupies one slot for one second. A full table delays new
//! arrivals ("soft" limiting — admission is never refused outright), with
//! one exception: an arrival whose priority strictly outranks the
//! lowest-ranking live slot evicts that slot and takes its place at once.
//!
//! One admission is `begin_admission` (build the ticket and settle
//! preemption) followed by `try_admit` until it succeeds. The wait between
//! attempts is real time passing, which is the embedding program's part;
//! every decision in between is made — and verified — here.

use vstd::prelude::*;
use vstd::seq_lib::group_filter_ensures;

use crate::priority::Priority;
use crate::slots::Slots;

verus! {

/// The slots of `slots` that are still live (not expired) at `now_ms`,
/// in their original order.
pub open spec fn live_slots(slots: Seq<Slots>, now_ms: u64) -> Seq<Slots> {
    slots.filter(|s: Slots| !s.spec_expired(now_ms))
}

/// Once every slot of a table has expired, a sweep leaves nothing: any
/// positive rate limit then has free capacity, which is why an admission
/// can be delayed but never permanently refused.
pub proof fn lemma_expiry_frees_capacity(slots: Seq<Slots>, now_ms: u64)
    requires
        forall|i: int|
            0 <= i < slots.len() ==> (#[trigger] slots[i]).spec_expired(now_ms),
    ensures
        live_slots(slots, now_ms).len() == 0,
{
    let pred = |s: Slots| !s.spec_expired(now_ms);
    assert(slots.all(|s: Slots| !pred(s))) by {
        reveal(Seq::all);
    }
    slots.lemma_all_neg_filter_empty(pred);
}

/// Preemption frees capacity at once: evicting a victim from a table that
/// sits exactly at the limit leaves the table below the limit, so the very
/// next admission attempt succeeds with no slot expiry consulted.
pub proof fn lemma_preemption_admits_without_expiry(
    slots: Seq<Slots>,
    victim: int,
    limit: usize,
)
    requires
        slots.len() == limit,
        0 <= victim < slots.len(),
    ensures
        slots.remove(victim).len() < limit,
{
}

/// The admission gate: a bound on admissions per second and the table of
/// live slots.
#[derive(Debug, Clone, PartialEq, Eq)]
pub struct SlotRateLimiter {
    pub rate_limit_per_sec: usize,
    pub slots: Vec<Slots>,
}

impl SlotRateLimiter {
    /// Every slot in the table carries a well-formed priority ordinal.
    pub open spec fn wf(self) -> bool {
        forall|i: int| 0 <= i < self.slots@.len() ==> (#[trigger] self.slots@[i]).wf()
    }

    /// A limiter with an empty table.
    pub fn new(rate_limit_per_sec: usize) -> (r: SlotRateLimiter)
        ensures
            r.rate_limit_per_sec == rate_limit_per_sec,
            r.slots@.len() == 0,
            r.wf(),
    {
        SlotRateLimiter { rate_limit_per_sec, slots: Vec::new() }
    }

    /// Append a ticket to the table.
    pub fn add_task_to_slot(&mut self, current_slot: Slots)
        ensures
            final(self).slots@ == old(self).slots@.push(current_slot),
            final(self).rate_limit_per_sec == old(self).rate_limit_per_sec,
    {
        self.slots.push(current_slot)
    }

    /// Evict the ticket at the given index.
    pub fn remove_task_from_slot(&mut self, index_of_slot_to_remove: usize)
        requires
            index_of_slot_to_remove < old(self).slots@.len(),
        ensures
            final(self).slots@ == old(self).slots@.remove(
                index_of_slot_to_remove as int,
            ),
            final(self).rate_limit_per_sec == old(self).rate_limit_per_sec,
    {
        self.slots.remove(index_of_slot_to_remove);
    }

    /// Sweep the table, dropping every slot that has expired at `now_ms`.
    /// Exactly the live slots remain, in order, so an expired slot never
    /// counts against the next capacity check.
    pub fn free_slot_space(&mut self, now_ms: u64)
        ensures
            final(self).slots@ == live_slots(old(self).slots@, now_ms),
            final(self).rate_limit_per_sec == old(self).rate_limit_per_sec,
            final(self).slots@.len() <= old(self).slots@.len(),
            forall|i: int|
                0 <= i < final(self).slots@.len()
                    ==> !(#[trigger] final(self).slots@[i]).spec_expired(now_ms),
            old(self).wf() ==> final(self).wf(),
    {
        broadcast use group_filter_ensures;

        let ghost pred = |s: Slots| !s.spec_expired(now_ms);
        let mut kept: Vec<Slots> = Vec::new();
        let mut i: usize = 0;
        while i < self.slots.len()
            invariant
                i <= self.slots@.len(),
                pred == (|s: Slots| !s.spec_expired(now_ms)),
                kept@ == self.slots@.subrange(0, i as int).filter(pred),
            decreases self.slots@.len() - i,
        {
            proof {
                let prefix = self.slots@.subrange(0, i as int);
                assert(self.slots@.subrange(0, i as int + 1)
                    =~= prefix + seq![self.slots@[i as int]]);
                Seq::filter_distributes_over_add(
                    prefix,
                    seq![self.slots@[i as int]],
                    pred,
                );
                assert(seq![self.slots@[i as int]].filter(pred) =~= if pred(
                    self.slots@[i as int],
                ) {
                    seq![self.slots@[i as int]]
                } else {
                    Seq::<Slots>::empty()
                }) by {
                    reveal_with_fuel(Seq::filter, 2);
                }
                assert(prefix.filter(pred) + seq![self.slots@[i as int]]
                    =~= prefix.filter(pred).push(self.slots@[i as int]));
                assert(prefix.filter(pred) + Seq::<Slots>::empty()
                    =~= prefix.filter(pred));
            }
            if !self.slots[i].is_expired(now_ms) {
                kept.push(self.slots[i]);
            }
            i += 1;
        }
        proof {
            assert(self.slots@.subrange(0, self.slots@.len() as int) =~= self.slots@);
            if self.wf() {
                assert forall|k: int| 0 <= k < kept@.len() implies (#[trigger] kept@[k]).wf() by {
                    assert(kept@.contains(kept@[k]));
                    self.slots@.lemma_filter_contains_rev(pred, kept@[k]);
                    let j = choose|j: int|
                        0 <= j < self.slots@.len() && self.slots@[j] == kept@[k];
                    assert(self.slots@[j].wf());
                }
            }
        }
        self.slots = kept;
    }

    /// Start one admission: build the candidate's ticket and settle
    /// preemption. When the candidate carries a real priority and some live
    /// slot ranks strictly below it, the candidate is marked a preemptor;
    /// if the table moreover sits at (or above) the limit, the
    /// lowest-ranking slot — earliest first on ties — is evicted at once.
    /// Otherwise the table is left alone.
    pub fn begin_admission(&mut self, priority: &Priority) -> (cand: Slots)
        requires
            old(self).wf(),
        ensures
            final(self).wf(),
            final(self).rate_limit_per_sec == old(self).rate_limit_per_sec,
            cand.priority == priority.ordinal(),
            cand.wf(),
            cand.checked <==> Self::spec_can_preempt(old(self).slots@, *priority),
            (Self::spec_can_preempt(old(self).slots@, *priority)
                && old(self).slots@.len() >= old(self).rate_limit_per_sec) ==> (exists|i: int|
                {
                    &&& 0 <= i < old(self).slots@.len()
                    &&& (forall|j: int|
                        0 <= j < old(self).slots@.len()
                            ==> (#[trigger] old(self).slots@[j]).priority
                                >= old(self).slots@[i].priority)
                    &&& (forall|j: int|
                        0 <= j < i ==> (#[trigger] old(self).slots@[j]).priority
                            > old(self).slots@[i].priority)
                    &&& old(self).slots@[i].priority < priority.ordinal()
                    &&& final(self).slots@ == old(self).slots@.remove(i)
                }),
            !(Self::spec_can_preempt(old(self).slots@, *priority)
                && old(self).slots@.len() >= old(self).rate_limit_per_sec)
                ==> final(self).slots@ == old(self).slots@,
            (Self::spec_can_preempt(old(self).slots@, *priority)
                && old(self).slots@.len() == old(self).rate_limit_per_sec)
                ==> final(self).slots@.len() < old(self).rate_limit_per_sec,
            final(self).slots@.len() <= old(self).slots@.len(),
    {
        let mut current_slot = Slots::new(priority);
        let min_idx = Slots::check_priority(&mut current_slot, priority, &self.slots);
        match min_idx {
            Some(idx) => {
                if self.slots.len() >= self.rate_limit_per_sec {
                    self.remove_task_from_slot(idx);
                }
            },
            None => {},
        }
        current_slot
    }

    /// Whether an arrival of this priority may preempt: it carries a real
    /// priority and some slot of the table ranks strictly below it.
    pub open spec fn spec_can_preempt(slots: Seq<Slots>, priority: Priority) -> bool {
        priority != Priority::NoPriority && slots.len() > 0 && (exists|j: int|
            0 <= j < slots.len() && (#[trigger] slots[j]).priority < priority.ordinal())
    }

    /// One admission attempt for a prepared ticket. A table below the limit
    /// admits at once, untouched; a table at the limit is swept of expired
    /// slots and admits exactly when the sweep brings it below the limit.
    /// Admission keeps the count of live slots within the rate limit, and
    /// once every slot has expired, a positive limit always admits.
    pub fn try_admit(&mut self, current_slot: &Slots, now_ms: u64) -> (admitted: bool)
        requires
            old(self).wf(),
            current_slot.wf(),
        ensures
            final(self).wf(),
            final(self).rate_limit_per_sec == old(self).rate_limit_per_sec,
            old(self).slots@.len() < old(self).rate_limit_per_sec ==> admitted
                && final(self).slots@ == old(self).slots@.push(*current_slot),
            old(self).slots@.len() >= old(self).rate_limit_per_sec ==> ({
                let swept = live_slots(old(self).slots@, now_ms);
                if swept.len() < old(self).rate_limit_per_sec {
                    admitted && final(self).slots@ == swept.push(*current_slot)
                } else {
                    !admitted && final(self).slots@ == swept
                }
            }),
            admitted ==> final(self).slots@.len() <= old(self).rate_limit_per_sec
                && final(self).slots@.last() == *current_slot,
            old(self).slots@.len() <= old(self).rate_limit_per_sec
                ==> final(self).slots@.len() <= old(self).rate_limit_per_sec,
            (old(self).rate_limit_per_sec >= 1 && (forall|i: int|
                0 <= i < old(self).slots@.len()
                    ==> (#[trigger] old(self).slots@[i]).spec_expired(now_ms)))
                ==> admitted,
    {
        proof {
            if forall|i: int|
                0 <= i < self.slots@.len()
                    ==> (#[trigger] self.slots@[i]).spec_expired(now_ms) {
                lemma_expiry_frees_capacity(self.slots@, now_ms);
            }
        }
        if self.slots.len() < self.rate_limit_per_sec {
            self.add_task_to_slot(*current_slot);
            true
        } else {
            self.free_slot_space(now_ms);
            if self.slots.len() < self.rate_limit_per_sec {
                self.add_task_to_slot(*current_slot);
                true
            } else {
                false
            }
        }
    }
}

} // verus!
