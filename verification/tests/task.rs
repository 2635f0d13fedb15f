use gizmo_setup_wizard::error::{ErrorKind, WizardError};
use gizmo_setup_wizard::task::{Poll, TaskSlot, WorkerReport};
use gizmo_setup_wizard::threads::JoinOutcome;

fn exited(join: JoinOutcome, message: Option<Result<u32, WizardError>>) -> WorkerReport<u32> {
    WorkerReport::Exited { join, message }
}

#[test]
fn a_new_slot_is_empty() {
    let slot = TaskSlot::new();
    assert!(slot.is_empty());
}

#[test]
fn start_fills_the_slot() {
    let mut slot = TaskSlot::new();
    assert!(slot.start().is_ok());
    assert!(!slot.is_empty());
}

#[test]
fn a_second_start_is_reported_and_keeps_the_task() {
    let mut slot = TaskSlot::new();
    slot.start().unwrap();
    let error = slot.start().unwrap_err();
    assert_eq!(error.kind, ErrorKind::SlotBusy);
    assert_eq!(error.message(), "A background task is already running.");
    assert!(!slot.is_empty());
}

#[test]
fn polling_an_empty_slot_reports_empty() {
    let mut slot = TaskSlot::new();
    assert!(matches!(slot.poll(WorkerReport::<u32>::Running), Poll::Empty));
    assert!(matches!(slot.poll(exited(JoinOutcome::Returned, Some(Ok(1)))), Poll::Empty));
    assert!(slot.is_empty());
}

#[test]
fn a_running_worker_is_pending_and_stays_in_the_slot() {
    let mut slot = TaskSlot::new();
    slot.start().unwrap();
    assert!(matches!(slot.poll(WorkerReport::<u32>::Running), Poll::Pending));
    assert!(!slot.is_empty());
    assert!(matches!(slot.poll(WorkerReport::<u32>::Running), Poll::Pending));
}

#[test]
fn a_delivered_value_is_ready_and_frees_the_slot() {
    let mut slot = TaskSlot::new();
    slot.start().unwrap();
    let polled = slot.poll(exited(JoinOutcome::Returned, Some(Ok(7))));
    assert!(matches!(polled, Poll::Ready(7)));
    assert!(slot.is_empty());
    assert!(slot.start().is_ok());
}

#[test]
fn an_error_sent_by_the_worker_fails_the_task() {
    let mut slot = TaskSlot::new();
    slot.start().unwrap();
    let sent = WizardError::with_detail(ErrorKind::Operation, "no network");
    match slot.poll(exited(JoinOutcome::Returned, Some(Err(sent)))) {
        Poll::Failed(error) => {
            assert_eq!(error.kind, ErrorKind::Operation);
            assert_eq!(error.message(), "no network");
        }
        other => panic!("expected a failure, got {:?}", other),
    }
    assert!(slot.is_empty());
}

#[test]
fn a_worker_that_panicked_fails_the_task_and_never_stays_pending() {
    let mut slot = TaskSlot::new();
    slot.start().unwrap();
    let report = exited(JoinOutcome::PanickedWith("Failed to format drive.".to_string()), None);
    match slot.poll(report) {
        Poll::Failed(error) => {
            assert_eq!(error.kind, ErrorKind::WorkerPanicked);
            assert_eq!(error.message(), "Background thread failed: Failed to format drive.");
        }
        other => panic!("expected a failure, got {:?}", other),
    }
    assert!(slot.is_empty());
}

#[test]
fn a_panic_wins_over_a_message_in_the_channel() {
    let mut slot = TaskSlot::new();
    slot.start().unwrap();
    let polled = slot.poll(exited(JoinOutcome::PanickedOpaque, Some(Ok(3))));
    match polled {
        Poll::Failed(error) => assert_eq!(error.kind, ErrorKind::WorkerPanickedUnknown),
        other => panic!("expected a failure, got {:?}", other),
    }
    assert!(slot.is_empty());
}

#[test]
fn a_worker_that_returned_without_a_message_fails_the_task() {
    let mut slot = TaskSlot::new();
    slot.start().unwrap();
    match slot.poll(exited(JoinOutcome::Returned, None)) {
        Poll::Failed(error) => {
            assert_eq!(error.kind, ErrorKind::ChannelEmpty);
            assert_eq!(error.message(), "channel is empty and sending half is closed");
        }
        other => panic!("expected a failure, got {:?}", other),
    }
    assert!(slot.is_empty());
}

#[test]
fn a_missing_worker_fails_the_task() {
    let mut slot = TaskSlot::new();
    slot.start().unwrap();
    match slot.poll(WorkerReport::<u32>::Absent) {
        Poll::Failed(error) => assert_eq!(error.kind, ErrorKind::WorkerMissing),
        other => panic!("expected a failure, got {:?}", other),
    }
    assert!(slot.is_empty());
}
