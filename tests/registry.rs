use pallet_tasking::{Error, Event, Pallet, Task};

#[test]
fn task_actions() {
    let mut tasking = Pallet::new();
    // Create a task.
    assert!(tasking.create_task(1, 1, 1).is_ok());
    println!("{:?}", tasking.events());

    // Get the list of all tasks
    let tasks = vec![1];
    let expected_event = Event::GetTask(tasks);
    let listed = tasking.get_task();
    assert_eq!(listed, vec![1]);

    assert_eq!(tasking.events()[1], expected_event);
}

#[test]
fn new_registry_is_empty() {
    let mut tasking = Pallet::new();
    assert!(tasking.events().is_empty());
    assert_eq!(tasking.task(0), None);
    assert_eq!(tasking.get_task(), Vec::<u32>::new());
    assert_eq!(tasking.events(), &vec![Event::GetTask(vec![])]);
}

#[test]
fn create_stores_owner_and_height() {
    let mut tasking = Pallet::new();
    assert_eq!(tasking.create_task(5, 9, 42), Ok(()));
    assert_eq!(tasking.task(9), Some(Task { owner: 5, created_at: 42 }));
    assert_eq!(tasking.events(), &vec![Event::NewTask(5, 9)]);
    assert_eq!(tasking.get_task(), vec![9]);
}

#[test]
fn create_twice_fails_and_keeps_state() {
    let mut tasking = Pallet::new();
    assert_eq!(tasking.create_task(1, 3, 10), Ok(()));
    assert_eq!(tasking.create_task(1, 3, 11), Err(Error::TaskAlreadyExists));
    assert_eq!(tasking.create_task(2, 3, 12), Err(Error::TaskAlreadyExists));
    assert_eq!(tasking.task(3), Some(Task { owner: 1, created_at: 10 }));
    assert_eq!(tasking.events(), &vec![Event::NewTask(1, 3)]);
}

#[test]
fn remove_absent_fails() {
    let mut tasking = Pallet::new();
    assert_eq!(tasking.remove_task(1, 4), Err(Error::TaskDoesNotExist));
    assert_eq!(tasking.create_task(1, 5, 1), Ok(()));
    assert_eq!(tasking.remove_task(7, 4), Err(Error::TaskDoesNotExist));
    assert_eq!(tasking.events(), &vec![Event::NewTask(1, 5)]);
}

#[test]
fn remove_by_other_caller_fails() {
    let mut tasking = Pallet::new();
    assert_eq!(tasking.create_task(1, 2, 3), Ok(()));
    assert_eq!(tasking.remove_task(2, 2), Err(Error::WrongOwner));
    assert_eq!(tasking.task(2), Some(Task { owner: 1, created_at: 3 }));
    assert_eq!(tasking.events(), &vec![Event::NewTask(1, 2)]);
}

#[test]
fn repeated_failures_change_nothing() {
    let mut tasking = Pallet::new();
    assert_eq!(tasking.create_task(1, 1, 1), Ok(()));
    for _ in 0..5 {
        assert_eq!(tasking.create_task(1, 1, 2), Err(Error::TaskAlreadyExists));
        assert_eq!(tasking.remove_task(2, 1), Err(Error::WrongOwner));
        assert_eq!(tasking.remove_task(1, 8), Err(Error::TaskDoesNotExist));
    }
    assert_eq!(tasking.task(1), Some(Task { owner: 1, created_at: 1 }));
    assert_eq!(tasking.events(), &vec![Event::NewTask(1, 1)]);
}

#[test]
fn create_remove_round_trip() {
    let mut tasking = Pallet::new();
    assert_eq!(tasking.create_task(30, 6, 1), Ok(()));
    assert_eq!(tasking.create_task(30, 7, 2), Ok(()));
    assert_eq!(tasking.remove_task(30, 7), Ok(()));
    let listed = tasking.get_task();
    assert!(!listed.contains(&7));
    assert_eq!(listed, vec![6]);
    assert_eq!(tasking.task(7), None);
    assert_eq!(
        tasking.events(),
        &vec![
            Event::NewTask(30, 6),
            Event::NewTask(30, 7),
            Event::RemoveTask(30, 7),
            Event::GetTask(vec![6]),
        ]
    );
}

#[test]
fn removed_id_can_be_created_again() {
    let mut tasking = Pallet::new();
    assert_eq!(tasking.create_task(1, 7, 1), Ok(()));
    assert_eq!(tasking.remove_task(1, 7), Ok(()));
    assert_eq!(tasking.create_task(2, 7, 5), Ok(()));
    assert_eq!(tasking.task(7), Some(Task { owner: 2, created_at: 5 }));
}

#[test]
fn full_scenario() {
    let mut tasking = Pallet::new();
    assert_eq!(tasking.create_task(1, 1, 1), Ok(()));
    assert_eq!(tasking.get_task(), vec![1]);
    assert_eq!(tasking.events().last(), Some(&Event::GetTask(vec![1])));
    assert_eq!(tasking.create_task(1, 1, 1), Err(Error::TaskAlreadyExists));
    assert_eq!(tasking.remove_task(2, 1), Err(Error::WrongOwner));
    assert_eq!(tasking.remove_task(1, 1), Ok(()));
    assert_eq!(tasking.get_task(), Vec::<u32>::new());
    assert_eq!(
        tasking.events(),
        &vec![
            Event::NewTask(1, 1),
            Event::GetTask(vec![1]),
            Event::RemoveTask(1, 1),
            Event::GetTask(vec![]),
        ]
    );
}

#[test]
fn listing_holds_every_task_once() {
    let mut tasking = Pallet::new();
    for id in [4u32, 0, u32::MAX, 17, 2] {
        assert_eq!(tasking.create_task(u64::MAX, id, u64::MAX), Ok(()));
    }
    let mut listed = tasking.get_task();
    let carried = match tasking.events().last() {
        Some(Event::GetTask(ids)) => ids.clone(),
        other => panic!("unexpected notification {:?}", other),
    };
    assert_eq!(carried, listed);
    listed.sort();
    assert_eq!(listed, vec![0, 2, 4, 17, u32::MAX]);
    assert_eq!(tasking.task(u32::MAX), Some(Task { owner: u64::MAX, created_at: u64::MAX }));
}
