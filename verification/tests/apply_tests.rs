use task_scheduler_rust::apply::{Applier, ApplierState, Request, StepOutcome};
use task_scheduler_rust::echo;
use task_scheduler_rust::errors::EngineError;

fn command(kind: &str, message: &str) -> Request {
    let mut req = Request::new();
    req.echo_request = Some(echo::Request { kind: kind.to_string(), message: message.to_string() });
    req
}

#[test]
fn test_apply_create() {
    let mut applier = Applier::new(1, 0);
    let (id, mut rx) = applier.submit(command("create", "hello")).unwrap();

    match applier.step() {
        StepOutcome::Applied { id: applied_id, value, delivered } => {
            assert_eq!(applied_id, id);
            assert!(delivered);
            assert_eq!(value, "SUCCESS create hello");
        }
        other => panic!("expected an applied command, got {:?}", other),
    }
    assert_eq!(rx.try_recv().unwrap(), "SUCCESS create hello");
}

#[test]
fn test_apply_delete() {
    let mut applier = Applier::new(1, 0);
    let (id, mut rx) = applier.submit(command("delete", "x")).unwrap();

    match applier.step() {
        StepOutcome::Applied { id: applied_id, value, delivered } => {
            assert_eq!(applied_id, id);
            assert!(delivered);
            assert_eq!(value, "SUCCESS delete x");
        }
        other => panic!("expected an applied command, got {:?}", other),
    }
    assert_eq!(rx.try_recv().unwrap(), "SUCCESS delete x");
}

#[test]
fn test_apply_unknown_kind_is_domain_error() {
    let mut applier = Applier::new(1, 0);
    // An unrecognized kind comes back as a domain error folded into the
    // delivered payload, not as an engine-level failure.
    let submitted = applier.submit(command("unknown", ""));
    assert!(submitted.is_ok());
    let (_, mut rx) = submitted.unwrap();

    match applier.step() {
        StepOutcome::Applied { value, delivered, .. } => {
            assert!(delivered);
            assert_eq!(value, "failed unexpected none field value for kind unknown");
        }
        other => panic!("expected an applied command, got {:?}", other),
    }
    assert_eq!(rx.try_recv().unwrap(), "failed unexpected none field value for kind unknown");
}

#[test]
fn test_two_submissions_in_order_not_swapped() {
    let mut applier = Applier::new(1, 0);
    let (id1, mut rx1) = applier.submit(command("create", "hello")).unwrap();
    let (id2, mut rx2) = applier.submit(command("delete", "x")).unwrap();
    assert_ne!(id1, id2);

    // The first submission is applied strictly before the second.
    match applier.step() {
        StepOutcome::Applied { id, .. } => assert_eq!(id, id1),
        other => panic!("expected an applied command, got {:?}", other),
    }
    match applier.step() {
        StepOutcome::Applied { id, .. } => assert_eq!(id, id2),
        other => panic!("expected an applied command, got {:?}", other),
    }

    // Each caller sees its own result.
    assert_eq!(rx1.try_recv().unwrap(), "SUCCESS create hello");
    assert_eq!(rx2.try_recv().unwrap(), "SUCCESS delete x");
}

#[test]
fn test_timed_out_caller_does_not_block_loop() {
    let mut applier = Applier::new(1, 0);
    let (id1, rx1) = applier.submit(command("create", "slow")).unwrap();
    let (id2, mut rx2) = applier.submit(command("create", "fast")).unwrap();

    // The first caller gives up before its command is applied.
    drop(rx1);
    assert!(applier.abandon(id1));

    // The abandoned command is still applied; its unobserved resolution
    // is swallowed rather than surfaced.
    match applier.step() {
        StepOutcome::Applied { id, value, delivered } => {
            assert_eq!(id, id1);
            assert_eq!(value, "SUCCESS create slow");
            assert!(!delivered);
        }
        other => panic!("expected an applied command, got {:?}", other),
    }

    // The loop keeps serving later submissions.
    match applier.step() {
        StepOutcome::Applied { id, delivered, .. } => {
            assert_eq!(id, id2);
            assert!(delivered);
        }
        other => panic!("expected an applied command, got {:?}", other),
    }
    assert_eq!(rx2.try_recv().unwrap(), "SUCCESS create fast");
}

#[test]
fn test_stop_rejects_further_submissions() {
    let mut applier = Applier::new(1, 0);
    applier.stop();
    assert_eq!(applier.state, ApplierState::Stopped);

    let rejected = applier.submit(command("create", "late"));
    assert_eq!(rejected.unwrap_err(), EngineError::EnqueueFailed);

    // Stopping again is safe and leaves the loop stopped.
    applier.stop();
    assert_eq!(applier.state, ApplierState::Stopped);
}

#[test]
fn test_stop_leaves_queued_work_uncancelled() {
    let mut applier = Applier::new(1, 0);
    let (_, _rx1) = applier.submit(command("create", "a")).unwrap();
    let (_, _rx2) = applier.submit(command("delete", "b")).unwrap();

    applier.stop();
    assert_eq!(applier.state, ApplierState::Stopped);
    // Queued-but-unconsumed commands are not cancelled; their callers
    // simply time out.
    assert_eq!(applier.queue.len(), 2);

    match applier.step() {
        StepOutcome::Exited => {}
        other => panic!("expected the loop to stay exited, got {:?}", other),
    }
}

#[test]
fn test_step_with_empty_queue_is_idle() {
    let mut applier = Applier::new(1, 0);
    match applier.step() {
        StepOutcome::Idle => {}
        other => panic!("expected an idle step, got {:?}", other),
    }
    assert_eq!(applier.state, ApplierState::Running);
}

#[test]
fn test_empty_envelope_is_skipped() {
    let mut applier = Applier::new(1, 0);
    let (id, mut rx) = applier.submit(Request::new()).unwrap();

    match applier.step() {
        StepOutcome::Skipped { id: skipped_id } => assert_eq!(skipped_id, id),
        other => panic!("expected a skipped envelope, got {:?}", other),
    }
    // Nothing was resolved for it.
    assert!(rx.try_recv().is_err());
}
