use task_executor::priority::Priority;
use task_executor::rate_limiter::SlotRateLimiter;
use task_executor::slots::Slots;

#[test]
fn test_new_should_return_slot_rate_limiter_instance() {
    let default_rate_limit = 5;
    let rate_limiter = SlotRateLimiter::new(default_rate_limit);

    assert_eq!(rate_limiter.rate_limit_per_sec, default_rate_limit);
    assert_eq!(rate_limiter.slots, vec![]);

    assert!(true)
}

#[test]
fn test_add_task_to_slots_should_be_valid() {
    let mut rate_limiter = SlotRateLimiter::new(5);
    let task_slot = Slots::new(&Priority::NoPriority);

    assert_eq!(rate_limiter.slots.len(), 0);

    rate_limiter.add_task_to_slot(task_slot.clone());
    assert_eq!(rate_limiter.slots.len(), 1);

    rate_limiter.add_task_to_slot(task_slot.clone());
    assert_eq!(rate_limiter.slots.len(), 2);
}

#[test]
fn test_free_slot_space_should_be_valid() {
    let mut rate_limiter = SlotRateLimiter::new(5);

    assert_eq!(rate_limiter.slots.len(), 0);

    let task_slot = Slots::new_at(&Priority::NoPriority, 0);

    rate_limiter.add_task_to_slot(task_slot.clone());
    assert_eq!(rate_limiter.slots.len(), 1);

    rate_limiter.add_task_to_slot(task_slot.clone());
    assert_eq!(rate_limiter.slots.len(), 2);

    rate_limiter.add_task_to_slot(task_slot.clone());
    assert_eq!(rate_limiter.slots.len(), 3);

    rate_limiter.add_task_to_slot(task_slot.clone());
    rate_limiter.add_task_to_slot(task_slot.clone());
    rate_limiter.add_task_to_slot(task_slot.clone());
    rate_limiter.add_task_to_slot(task_slot.clone());

    // One full slot lifetime after the tickets were stamped, a sweep
    // removes every one of them.
    rate_limiter.free_slot_space(1000);
    assert_eq!(rate_limiter.slots.len(), 0);

    rate_limiter.add_task_to_slot(task_slot.clone());
    assert_eq!(rate_limiter.slots.len(), 1);
}

#[test]
fn test_remove_task_from_slot_evicts_by_index() {
    let mut rate_limiter = SlotRateLimiter::new(5);
    rate_limiter.add_task_to_slot(Slots::new_at(&Priority::Low, 0));
    rate_limiter.add_task_to_slot(Slots::new_at(&Priority::High, 1));
    rate_limiter.remove_task_from_slot(0);

    assert_eq!(rate_limiter.slots.len(), 1);
    assert_eq!(rate_limiter.slots[0].priority, 3);
    assert_eq!(rate_limiter.slots[0].timestamp_ms, 1);
}

#[test]
fn test_expiry_excludes_slot_from_capacity_check() {
    // A table full of slots stamped at time 0 blocks a new arrival while
    // the slots are younger than one second ...
    let mut rate_limiter = SlotRateLimiter::new(2);
    let cand = Slots::new_at(&Priority::NoPriority, 0);
    assert!(rate_limiter.try_admit(&cand, 0));
    let cand = Slots::new_at(&Priority::NoPriority, 0);
    assert!(rate_limiter.try_admit(&cand, 0));
    let blocked = Slots::new_at(&Priority::NoPriority, 999);
    assert!(!rate_limiter.try_admit(&blocked, 999));

    // ... and is admitted as soon as the old slots are a full second old:
    // expired slots no longer count against the capacity check.
    assert!(rate_limiter.try_admit(&blocked, 1000));
    assert_eq!(rate_limiter.slots.len(), 1);
}

#[test]
fn test_preemption_admits_high_priority_without_waiting() {
    // Fill the table with a low-priority slot; an incoming high-priority
    // task evicts it and is admitted at once, with no slot yet expired.
    let mut rate_limiter = SlotRateLimiter::new(1);
    let low = rate_limiter.begin_admission(&Priority::Low);
    assert!(rate_limiter.try_admit(&low, 0));
    assert_eq!(rate_limiter.slots.len(), 1);

    let high = rate_limiter.begin_admission(&Priority::High);
    assert!(high.checked);
    assert_eq!(rate_limiter.slots.len(), 0);
    assert!(rate_limiter.try_admit(&high, 1));
    assert_eq!(rate_limiter.slots.len(), 1);
    assert_eq!(rate_limiter.slots[0].priority, 3);
}

#[test]
fn test_none_priority_never_preempts() {
    let mut rate_limiter = SlotRateLimiter::new(1);
    let low = rate_limiter.begin_admission(&Priority::Low);
    assert!(rate_limiter.try_admit(&low, 0));

    let none = rate_limiter.begin_admission(&Priority::NoPriority);
    assert!(!none.checked);
    assert_eq!(rate_limiter.slots.len(), 1);
    assert!(!rate_limiter.try_admit(&none, 1));
}

#[test]
fn test_preemption_victim_is_first_lowest_priority() {
    let mut rate_limiter = SlotRateLimiter::new(3);
    rate_limiter.add_task_to_slot(Slots::new_at(&Priority::Medium, 10));
    rate_limiter.add_task_to_slot(Slots::new_at(&Priority::Low, 20));
    rate_limiter.add_task_to_slot(Slots::new_at(&Priority::Low, 30));

    let high = rate_limiter.begin_admission(&Priority::High);
    assert!(high.checked);
    // The earliest of the two lowest-ranking slots is the victim.
    assert_eq!(rate_limiter.slots.len(), 2);
    assert_eq!(rate_limiter.slots[0].timestamp_ms, 10);
    assert_eq!(rate_limiter.slots[1].timestamp_ms, 30);
}

#[test]
fn test_capacity_never_exceeded_on_admission() {
    // Scenario: six unprioritized submissions against a rate limit of 5.
    // The first five are admitted at once; the sixth is delayed until a
    // slot expires a full second later, and the live count never passes 5.
    let mut rate_limiter = SlotRateLimiter::new(5);
    for _ in 0..5 {
        let cand = Slots::new_at(&Priority::NoPriority, 0);
        assert!(rate_limiter.try_admit(&cand, 0));
        assert!(rate_limiter.slots.len() <= 5);
    }
    let sixth = Slots::new_at(&Priority::NoPriority, 400);
    assert!(!rate_limiter.try_admit(&sixth, 400));
    assert!(!rate_limiter.try_admit(&sixth, 999));
    assert!(rate_limiter.try_admit(&sixth, 1000));
    assert!(rate_limiter.slots.len() <= 5);
}

#[test]
fn test_check_priority_finds_minimum() {
    let slots_queue = vec![
        Slots::new_at(&Priority::Medium, 0),
        Slots::new_at(&Priority::Low, 0),
        Slots::new_at(&Priority::High, 0),
    ];
    let mut cand = Slots::new_at(&Priority::High, 5);
    let victim = Slots::check_priority(&mut cand, &Priority::High, &slots_queue);
    assert_eq!(victim, Some(1));
    assert!(cand.checked);

    let mut cand_low = Slots::new_at(&Priority::Low, 5);
    let victim_low = Slots::check_priority(&mut cand_low, &Priority::Low, &slots_queue);
    assert_eq!(victim_low, None);
    assert!(!cand_low.checked);
}

#[test]
fn test_slot_expiry_boundary() {
    let slot = Slots::new_at(&Priority::NoPriority, 500);
    assert!(!slot.is_expired(500));
    assert!(!slot.is_expired(1499));
    assert!(slot.is_expired(1500));
    assert_eq!(slot.get_current_timestamp(), 500);
}
