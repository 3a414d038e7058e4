use janitor::util::locks::{LockError, LockOutcome, Released, SelfRemoving, UserLocks};

fn acquired(outcome: LockOutcome) -> SelfRemoving {
    match outcome {
        LockOutcome::Acquired(guard) => guard,
        LockOutcome::Queued(_) => panic!("queued"),
    }
}

fn queued(outcome: LockOutcome) -> SelfRemoving {
    match outcome {
        LockOutcome::Queued(guard) => guard,
        LockOutcome::Acquired(_) => panic!("acquired"),
    }
}

#[test]
fn a_second_caller_waits_for_the_first() {
    let mut locks = UserLocks::new();
    let first = acquired(locks.lock_user_id(5).unwrap());
    let second = queued(locks.lock_user_id(5).unwrap());
    assert_ne!(first.ticket, second.ticket);
    assert_eq!(first.id, second.id);
    assert!(locks.is_holder(&first));
    assert!(!locks.is_holder(&second));
    assert_eq!(locks.waiting(), 1);

    assert_eq!(locks.drop_guard(first), Released::HandedOver(second.ticket));
    assert!(locks.is_holder(&second));
    assert!(!locks.is_holder(&first));
    assert!(locks.is_locked(5));
    assert_eq!(locks.waiting(), 0);
}

#[test]
fn the_lock_is_handed_over_in_the_order_of_arrival() {
    let mut locks = UserLocks::new();
    let a = acquired(locks.lock_user_id(5).unwrap());
    let other = acquired(locks.lock_user_id(6).unwrap());
    let b = queued(locks.lock_user_id(5).unwrap());
    let other_waiter = queued(locks.lock_user_id(6).unwrap());
    let c = queued(locks.lock_user_id(5).unwrap());
    let d = queued(locks.lock_user_id(5).unwrap());
    assert_eq!(locks.drop_guard(a), Released::HandedOver(b.ticket));
    assert!(!locks.is_holder(&a));
    assert_eq!(locks.drop_guard(b), Released::HandedOver(c.ticket));
    assert_eq!(locks.drop_guard(c), Released::HandedOver(d.ticket));
    assert_eq!(locks.drop_guard(d), Released::Dropped);
    assert!(!locks.contains(5));
    assert!(locks.is_holder(&other));
    assert_eq!(locks.drop_guard(other), Released::HandedOver(other_waiter.ticket));
    assert_eq!(locks.drop_guard(other_waiter), Released::Dropped);
    assert!(!locks.contains(6));
}

#[test]
fn nothing_is_remembered_of_a_user_once_the_only_guard_is_dropped() {
    let mut locks = UserLocks::new();
    assert!(!locks.contains(5));
    let guard = acquired(locks.lock_user_id(5).unwrap());
    assert!(locks.contains(5));
    assert!(locks.is_locked(5));
    assert_eq!(locks.drop_guard(guard), Released::Dropped);
    assert!(!locks.contains(5));
    assert!(!locks.is_locked(5));
    assert_eq!(locks.drop_guard(guard), Released::Stale);
}

#[test]
fn locks_of_different_users_do_not_meet() {
    let mut locks = UserLocks::new();
    let a = acquired(locks.lock_user_id(5).unwrap());
    let b = acquired(locks.lock_user_id(6).unwrap());
    assert!(locks.is_holder(&a));
    assert!(locks.is_holder(&b));
    assert_eq!(locks.drop_guard(a), Released::Dropped);
    assert!(locks.is_holder(&b));
    assert!(!locks.contains(5));
    assert!(locks.contains(6));
}

#[test]
fn a_late_cleanup_leaves_a_newer_entry_alone() {
    let mut locks = UserLocks::new();
    let old = acquired(locks.lock_user_id(5).unwrap());
    assert_eq!(locks.release(&old), Released::Dropped);
    assert!(locks.contains(5));
    assert!(!locks.is_locked(5));

    let new = acquired(locks.lock_user_id(5).unwrap());
    assert_ne!(new.id, old.id);
    assert!(!locks.cleanup(&old));
    assert!(locks.is_holder(&new));

    assert!(!locks.cleanup(&new));
    assert!(locks.is_holder(&new));
    assert_eq!(locks.release(&new), Released::Dropped);
    assert!(locks.cleanup(&new));
    assert!(!locks.contains(5));
}

#[test]
fn the_registry_refuses_when_the_tickets_run_out() {
    let mut locks = UserLocks::starting_at(u64::MAX - 1);
    let last = acquired(locks.lock_user_id(5).unwrap());
    assert_eq!(last.ticket, u64::MAX - 1);
    assert_eq!(locks.lock_user_id(5), Err(LockError::Exhausted));
    assert_eq!(locks.lock_user_id(6), Err(LockError::Exhausted));
    assert!(locks.is_holder(&last));
    assert!(!locks.contains(6));
    assert_eq!(locks.waiting(), 0);
    assert_eq!(locks.drop_guard(last), Released::Dropped);
    assert!(!locks.contains(5));
}

#[test]
fn a_queued_caller_that_leaves_is_never_handed_the_lock() {
    let mut locks = UserLocks::new();
    let first = acquired(locks.lock_user_id(5).unwrap());
    let gone = queued(locks.lock_user_id(5).unwrap());
    let patient = queued(locks.lock_user_id(5).unwrap());
    assert_eq!(locks.waiting(), 2);

    assert_eq!(locks.drop_guard(gone), Released::Withdrawn);
    assert_eq!(locks.waiting(), 1);
    assert!(locks.is_holder(&first));
    assert_eq!(locks.drop_guard(gone), Released::Stale);

    assert_eq!(locks.drop_guard(first), Released::HandedOver(patient.ticket));
    assert!(locks.is_holder(&patient));
    assert!(!locks.is_holder(&gone));
    assert_eq!(locks.drop_guard(patient), Released::Dropped);
    assert!(!locks.contains(5));
}

#[test]
fn a_lock_whose_only_waiter_left_dies_with_its_holder() {
    let mut locks = UserLocks::new();
    let first = acquired(locks.lock_user_id(5).unwrap());
    let gone = queued(locks.lock_user_id(5).unwrap());
    assert_eq!(locks.release(&gone), Released::Withdrawn);
    assert_eq!(locks.drop_guard(first), Released::Dropped);
    assert!(!locks.contains(5));
    assert_eq!(locks.waiting(), 0);
}
