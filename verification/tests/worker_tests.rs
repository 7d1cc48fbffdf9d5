use web_worker::channel::RecvPoll;
use web_worker::channel::SendPoll;
use web_worker::registry::WorkerRegistry;
use web_worker::worker::Capability;
use web_worker::worker::Lifecycle;
use web_worker::worker::StepOutcome;
use web_worker::worker::WebWorker;
use web_worker::worker::Worker;
use web_worker::worker::WorkerError;

fn create_test_worker(registry: &mut WorkerRegistry) -> WebWorker {
    WebWorker::new(
        "TEST".to_string(),
        b"bootstrapWorkerRuntime(\"TEST\"); runWorkerMessageLoop()".to_vec(),
        4,
        registry,
    )
}

/// The model of the test script: on each inbound message it echoes
/// `[1,2,3]`, unless the message is the JSON string `"exit"`, when it
/// removes its own listener so the execution context completes naturally.
fn drive_echo_script(w: &mut Worker, registry: &mut WorkerRegistry) {
    loop {
        match w.take_inbound() {
            RecvPoll::Message(m) => {
                if m == b"\"exit\"".to_vec() {
                    let done = w.drive_step(StepOutcome::Completed(Ok(())), registry);
                    assert!(done);
                    return;
                }
                assert_eq!(m, b"\"hi\"".to_vec());
                match w.post_output(b"[1,2,3]".to_vec()) {
                    SendPoll::Sent => {}
                    _ => panic!("echo reply was not accepted"),
                }
                let done = w.drive_step(StepOutcome::Progressed, registry);
                assert!(!done);
            }
            RecvPoll::Pending => return,
            RecvPoll::Closed => {
                let done = w.drive_step(StepOutcome::Completed(Ok(())), registry);
                assert!(done);
                return;
            }
        }
    }
}

#[test]
fn test_worker_messages() {
    let mut registry = WorkerRegistry::new();
    let mut worker = create_test_worker(&mut registry);
    let handle = worker.0.thread_safe_handle();

    let msg = b"\"hi\"".to_vec();
    let r = handle.post_message(&mut worker.0, msg.clone());
    assert!(matches!(r, SendPoll::Sent));
    drive_echo_script(&mut worker.0, &mut registry);

    let maybe_msg = handle.get_message(&mut worker.0);
    assert!(matches!(maybe_msg, RecvPoll::Message(_)));

    let r = handle.post_message(&mut worker.0, msg.clone());
    assert!(matches!(r, SendPoll::Sent));
    drive_echo_script(&mut worker.0, &mut registry);

    let maybe_msg = handle.get_message(&mut worker.0);
    match maybe_msg {
        RecvPoll::Message(m) => assert_eq!(&m[..], b"[1,2,3]"),
        _ => panic!("expected an echoed message"),
    }

    let msg = b"\"exit\"".to_vec();
    let r = handle.post_message(&mut worker.0, msg);
    assert!(matches!(r, SendPoll::Sent));
    drive_echo_script(&mut worker.0, &mut registry);
    assert!(matches!(worker.0.lifecycle, Lifecycle::Completed(Ok(()))));
}

#[test]
fn removed_from_resource_table_on_close() {
    let mut registry = WorkerRegistry::new();
    let mut worker = WebWorker::new(
        "TEST".to_string(),
        b"onmessage = () => { delete self.onmessage; }".to_vec(),
        4,
        &mut registry,
    );
    let handle = worker.0.thread_safe_handle();
    let id = worker.0.id;
    assert!(registry.is_registered(id));

    let r = handle.post_message(&mut worker.0, b"\"hi\"".to_vec());
    assert!(matches!(r, SendPoll::Sent));

    // The script removes its listener on the first message, so the context
    // reports natural completion on the next drive.
    assert!(matches!(worker.0.take_inbound(), RecvPoll::Message(_)));
    let done = worker.0.drive_step(StepOutcome::Completed(Ok(())), &mut registry);
    assert!(done);
    assert!(matches!(worker.0.lifecycle, Lifecycle::Completed(Ok(()))));
    assert!(!registry.is_registered(id));
}

#[test]
fn worker_w1_echo_scenario() {
    // Create worker "W1"; send it "hi"; its script echoes [1,2,3] back; the
    // owner reads exactly those bytes; then "exit" removes the listener and
    // the worker completes with Ok.
    let mut registry = WorkerRegistry::new();
    let mut worker = Worker::new("W1".to_string(), Vec::new(), 4, &mut registry);
    let handle = worker.thread_safe_handle();

    assert!(matches!(handle.post_message(&mut worker, b"hi".to_vec()), SendPoll::Sent));
    match worker.take_inbound() {
        RecvPoll::Message(m) => {
            assert_eq!(&m[..], b"hi");
            assert!(matches!(worker.post_output(b"[1,2,3]".to_vec()), SendPoll::Sent));
            assert!(!worker.drive_step(StepOutcome::Progressed, &mut registry));
        }
        _ => panic!("the worker should see the posted message"),
    }
    match handle.get_message(&mut worker) {
        RecvPoll::Message(m) => assert_eq!(&m[..], b"[1,2,3]"),
        _ => panic!("the owner should see the echoed reply"),
    }

    assert!(matches!(handle.post_message(&mut worker, b"exit".to_vec()), SendPoll::Sent));
    match worker.take_inbound() {
        RecvPoll::Message(m) => {
            assert_eq!(&m[..], b"exit");
            assert!(worker.drive_step(StepOutcome::Completed(Ok(())), &mut registry));
        }
        _ => panic!("the worker should see the exit message"),
    }
    assert!(matches!(worker.lifecycle, Lifecycle::Completed(Ok(()))));
}

#[test]
fn web_worker_capability_order_is_fixed() {
    let mut registry = WorkerRegistry::new();
    let worker = create_test_worker(&mut registry);
    assert_eq!(
        worker.0.capabilities,
        vec![
            Capability::Runtime,
            Capability::WebWorkerOps,
            Capability::WorkerHost,
            Capability::ErrorSurfacing,
            Capability::Timers,
            Capability::Fetch,
        ]
    );
}

#[test]
fn execution_error_completes_worker_and_unregisters_once() {
    let mut registry = WorkerRegistry::new();
    let mut worker = create_test_worker(&mut registry);
    let id = worker.0.id;
    assert!(registry.is_registered(id));

    let done = worker
        .0
        .drive_step(StepOutcome::Completed(Err("boom".to_string())), &mut registry);
    assert!(done);
    match &worker.0.lifecycle {
        Lifecycle::Completed(Err(WorkerError::ExecutionFault(msg))) => assert_eq!(msg, "boom"),
        other => panic!("unexpected lifecycle: {:?}", other),
    }
    assert!(!registry.is_registered(id));
    // The entry is gone; a later unregister of the same id finds nothing.
    assert!(!registry.unregister(id));
}

#[test]
fn post_without_reply_still_succeeds() {
    // The script removes its listener immediately and never replies: posting
    // still succeeds, and awaiting the worker still completes cleanly.
    let mut registry = WorkerRegistry::new();
    let mut worker = create_test_worker(&mut registry);
    let handle = worker.0.thread_safe_handle();

    let r = handle.post_message(&mut worker.0, b"\"hi\"".to_vec());
    assert!(matches!(r, SendPoll::Sent));

    let done = worker.0.drive_step(StepOutcome::Completed(Ok(())), &mut registry);
    assert!(done);
    assert!(matches!(worker.0.lifecycle, Lifecycle::Completed(Ok(()))));

    // No reply ever arrives: the reply direction is closed and empty.
    assert!(matches!(handle.get_message(&mut worker.0), RecvPoll::Closed));
}

#[test]
fn drive_to_completion_consumes_outcomes_until_completed() {
    let mut registry = WorkerRegistry::new();
    let mut worker = create_test_worker(&mut registry);
    let id = worker.0.id;

    let outcomes = vec![
        StepOutcome::Idle,
        StepOutcome::Progressed,
        StepOutcome::Completed(Ok(())),
        StepOutcome::Progressed,
    ];
    let done = worker.0.drive_to_completion(outcomes, &mut registry);
    assert!(done);
    assert!(matches!(worker.0.lifecycle, Lifecycle::Completed(Ok(()))));
    assert!(!registry.is_registered(id));
}

#[test]
fn drive_to_completion_without_completion_keeps_running() {
    let mut registry = WorkerRegistry::new();
    let mut worker = create_test_worker(&mut registry);
    let id = worker.0.id;

    let outcomes = vec![StepOutcome::Idle, StepOutcome::Progressed];
    let done = worker.0.drive_to_completion(outcomes, &mut registry);
    assert!(!done);
    assert!(matches!(worker.0.lifecycle, Lifecycle::Running));
    assert!(registry.is_registered(id));
}

#[test]
fn terminate_completes_and_unregisters() {
    let mut registry = WorkerRegistry::new();
    let mut worker = create_test_worker(&mut registry);
    let id = worker.0.id;

    worker.0.terminate(&mut registry);
    assert!(matches!(worker.0.lifecycle, Lifecycle::Completed(Ok(()))));
    assert!(!registry.is_registered(id));

    // Posting after termination hands the message back as Closed.
    let handle = worker.0.thread_safe_handle();
    match handle.post_message(&mut worker.0, b"late".to_vec()) {
        SendPoll::Closed(back) => assert_eq!(back, b"late".to_vec()),
        _ => panic!("send after completion should observe the closed channel"),
    }
}

#[test]
fn handle_close_stops_inbound_but_not_replies() {
    let mut registry = WorkerRegistry::new();
    let mut worker = create_test_worker(&mut registry);
    let handle = worker.0.thread_safe_handle();

    match worker.0.post_output(b"reply".to_vec()) {
        SendPoll::Sent => {}
        _ => panic!("reply was not accepted"),
    }
    handle.close(&mut worker.0);

    // New inbound messages are refused...
    assert!(matches!(
        handle.post_message(&mut worker.0, b"x".to_vec()),
        SendPoll::Closed(_)
    ));
    // ...the worker sees end-of-channel once drained...
    assert!(matches!(worker.0.take_inbound(), RecvPoll::Closed));
    // ...but the already queued reply is still delivered.
    match handle.get_message(&mut worker.0) {
        RecvPoll::Message(m) => assert_eq!(&m[..], b"reply"),
        _ => panic!("queued reply should still be drainable"),
    }
}

#[test]
fn per_sender_order_is_kept_across_interleaved_handles() {
    let mut registry = WorkerRegistry::new();
    let mut worker = create_test_worker(&mut registry);
    let first = worker.0.thread_safe_handle();
    let second = first.clone();

    // Two handle clones interleave their posts; each sender's own order
    // must survive in what the worker receives.
    assert!(matches!(first.post_message(&mut worker.0, b"a1".to_vec()), SendPoll::Sent));
    assert!(matches!(second.post_message(&mut worker.0, b"b1".to_vec()), SendPoll::Sent));
    assert!(matches!(first.post_message(&mut worker.0, b"a2".to_vec()), SendPoll::Sent));
    assert!(matches!(second.post_message(&mut worker.0, b"b2".to_vec()), SendPoll::Sent));

    let mut received = Vec::new();
    loop {
        match worker.0.take_inbound() {
            RecvPoll::Message(m) => received.push(m),
            _ => break,
        }
    }
    let of_first: Vec<&Vec<u8>> = received.iter().filter(|m| m[0] == b'a').collect();
    let of_second: Vec<&Vec<u8>> = received.iter().filter(|m| m[0] == b'b').collect();
    assert_eq!(of_first, vec![&b"a1".to_vec(), &b"a2".to_vec()]);
    assert_eq!(of_second, vec![&b"b1".to_vec(), &b"b2".to_vec()]);
}
