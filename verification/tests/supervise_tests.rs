use web_worker::registry::WorkerRegistry;
use web_worker::supervise::summarize_drive_results;
use web_worker::supervise::DriveOutcome;
use web_worker::worker::WorkerError;

#[test]
fn faulted_tasks_become_one_aggregate_error() {
    let results = vec![
        (0u64, DriveOutcome::Finished(Ok(()))),
        (1u64, DriveOutcome::Faulted),
        (2u64, DriveOutcome::Finished(Err(WorkerError::ExecutionFault("boom".to_string())))),
        (3u64, DriveOutcome::Faulted),
    ];
    match summarize_drive_results(results) {
        Err(WorkerError::DriveTaskFailure(ids)) => assert_eq!(ids, vec![1, 3]),
        other => panic!("expected an aggregate drive failure, got {:?}", other),
    }
}

#[test]
fn first_worker_error_surfaces_when_no_task_faulted() {
    let results = vec![
        (0u64, DriveOutcome::Finished(Ok(()))),
        (1u64, DriveOutcome::Finished(Err(WorkerError::ExecutionFault("first".to_string())))),
        (2u64, DriveOutcome::Finished(Err(WorkerError::ExecutionFault("second".to_string())))),
    ];
    match summarize_drive_results(results) {
        Err(WorkerError::ExecutionFault(msg)) => assert_eq!(msg, "first"),
        other => panic!("expected the first worker error, got {:?}", other),
    }
}

#[test]
fn clean_batch_is_ok() {
    let results = vec![
        (0u64, DriveOutcome::Finished(Ok(()))),
        (1u64, DriveOutcome::Finished(Ok(()))),
    ];
    assert!(summarize_drive_results(results).is_ok());
    assert!(summarize_drive_results(Vec::new()).is_ok());
}

#[test]
fn registry_hands_out_fresh_ids_and_forgets_exactly_the_unregistered() {
    let mut registry = WorkerRegistry::new();
    let a = registry.register();
    let b = registry.register();
    let c = registry.register();
    assert_eq!((a, b, c), (0, 1, 2));
    assert!(registry.is_registered(a) && registry.is_registered(b) && registry.is_registered(c));

    assert!(registry.unregister(b));
    assert!(!registry.is_registered(b));
    assert!(registry.is_registered(a) && registry.is_registered(c));
    assert!(!registry.unregister(b));

    // Ids are never reused, even after an unregister.
    let d = registry.register();
    assert_eq!(d, 3);
}
