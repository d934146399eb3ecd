use spisen::slots::{AlreadyPending, Slots, Spawn, Task};

#[test]
fn new_slots_are_free() {
    let slots = Slots::new();
    assert!(!slots.is_pending(Task::CheckDoor));
    assert!(!slots.is_pending(Task::RunOven));
}

#[test]
fn first_request_is_granted() {
    let mut slots = Slots::new();
    assert_eq!(slots.request(Task::CheckDoor), Ok(()));
    assert!(slots.is_pending(Task::CheckDoor));
    assert!(!slots.is_pending(Task::RunOven));
}

#[test]
fn second_request_is_dropped_as_already_pending() {
    let mut slots = Slots::new();
    assert_eq!(slots.request(Task::RunOven), Ok(()));
    assert_eq!(slots.request(Task::RunOven), Err(AlreadyPending));
    assert_eq!(slots.request(Task::RunOven), Err(AlreadyPending));
    assert!(slots.is_pending(Task::RunOven));
    assert!(!slots.is_pending(Task::CheckDoor));
}

#[test]
fn tasks_do_not_share_a_slot() {
    let mut slots = Slots::new();
    assert_eq!(slots.request(Task::RunOven), Ok(()));
    assert_eq!(slots.request(Task::CheckDoor), Ok(()));
    assert_eq!(slots.request(Task::CheckDoor), Err(AlreadyPending));
    assert!(slots.start(Task::CheckDoor));
    assert!(slots.is_pending(Task::RunOven));
    assert!(!slots.is_pending(Task::CheckDoor));
}

#[test]
fn start_frees_the_slot() {
    let mut slots = Slots::new();
    assert_eq!(slots.request(Task::CheckDoor), Ok(()));
    assert!(slots.start(Task::CheckDoor));
    assert!(!slots.is_pending(Task::CheckDoor));
    assert_eq!(slots.request(Task::CheckDoor), Ok(()));
}

#[test]
fn start_of_a_task_that_was_never_asked_for() {
    let mut slots = Slots::new();
    assert!(!slots.start(Task::RunOven));
    assert!(!slots.is_pending(Task::RunOven));
    assert_eq!(slots.request(Task::RunOven), Ok(()));
    assert!(slots.start(Task::RunOven));
    assert!(!slots.start(Task::RunOven));
}

#[test]
fn requests_compare_by_task_and_delay() {
    assert_eq!(Spawn::Now(Task::RunOven), Spawn::Now(Task::RunOven));
    assert_ne!(Spawn::Now(Task::RunOven), Spawn::Now(Task::CheckDoor));
    assert_ne!(Spawn::Now(Task::RunOven), Spawn::After(Task::RunOven, 0));
    assert_ne!(Spawn::After(Task::RunOven, 10), Spawn::After(Task::RunOven, 100));
}
