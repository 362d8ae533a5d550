use calendar_hub::supervisor::{ExitCause, SuperviseReport, TaskSupervisor, abort_targets};

#[test]
fn first_exit_aborts_exactly_the_siblings() {
    // Three long-lived tasks; the middle one exits first: the other two
    // are the ones to abort, and the report names the middle one.
    let targets = abort_targets(3, 1);
    assert_eq!(targets, vec![0, 2]);

    let report = SuperviseReport { index: 1, cause: ExitCause::Failed };
    assert_eq!(report.index, 1);
    assert_eq!(report.cause, ExitCause::Failed);
}

#[test]
fn abort_targets_cover_every_other_index() {
    assert_eq!(abort_targets(1, 0), Vec::<usize>::new());
    assert_eq!(abort_targets(4, 0), vec![1, 2, 3]);
    assert_eq!(abort_targets(4, 3), vec![0, 1, 2]);
    assert_eq!(abort_targets(5, 2), vec![0, 1, 3, 4]);
}

#[test]
fn snapshot_takes_the_current_set_and_later_tasks_are_not_covered() {
    let mut supervisor: TaskSupervisor<&'static str> = TaskSupervisor::new();
    supervisor.add_join_handles(vec!["a", "b", "c"]);
    assert_eq!(supervisor.long_lived_count(), 3);

    let snapshot = supervisor.take_long_lived();
    assert_eq!(snapshot, vec!["a", "b", "c"]);
    assert_eq!(supervisor.long_lived_count(), 0);

    // A task added after the snapshot lands in a fresh set, untouched by
    // the abort pass over the snapshot.
    supervisor.add_join_handles(vec!["late"]);
    assert_eq!(supervisor.long_lived_count(), 1);
    let second = supervisor.take_long_lived();
    assert_eq!(second, vec!["late"]);
}

#[test]
fn temporary_ids_start_at_zero_and_count_up() {
    let mut supervisor: TaskSupervisor<u32> = TaskSupervisor::new();
    assert_eq!(supervisor.next_temp_id(), 0);

    supervisor.add_temp_join_handles(vec![10, 11]);
    assert_eq!(supervisor.next_temp_id(), 2);
    assert!(supervisor.contains_temp_task(0));
    assert!(supervisor.contains_temp_task(1));
    assert!(!supervisor.contains_temp_task(2));
}

#[test]
fn temporary_ids_strictly_increase_across_calls() {
    let mut supervisor: TaskSupervisor<u32> = TaskSupervisor::new();

    supervisor.add_temp_join_handles(vec![1, 2, 3]);
    let first_batch_end = supervisor.next_temp_id();

    // Whatever happened to the earlier tasks — completion order does not
    // matter, entries are never reused — the next batch draws only ids
    // past every id handed out before.
    supervisor.add_temp_join_handles(vec![4]);
    supervisor.add_temp_join_handles(vec![5, 6]);

    assert_eq!(first_batch_end, 3);
    assert_eq!(supervisor.next_temp_id(), 6);
    for id in 3..6 {
        assert!(supervisor.contains_temp_task(id));
    }
}

#[test]
fn long_lived_and_temporary_sets_are_independent() {
    let mut supervisor: TaskSupervisor<u8> = TaskSupervisor::new();
    supervisor.add_join_handles(vec![1, 2]);
    supervisor.add_temp_join_handles(vec![3]);
    assert_eq!(supervisor.long_lived_count(), 2);
    assert_eq!(supervisor.next_temp_id(), 1);

    let _ = supervisor.take_long_lived();
    // Taking the long-lived snapshot leaves temporary tasks alone.
    assert!(supervisor.contains_temp_task(0));
    assert_eq!(supervisor.next_temp_id(), 1);
}
