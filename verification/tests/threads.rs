use gizmo_setup_wizard::error::ErrorKind;
use gizmo_setup_wizard::threads::{join_thread, JoinOutcome};

#[test]
fn join_of_a_worker_that_returned_is_ok() {
    assert!(join_thread(JoinOutcome::Returned).is_ok());
}

#[test]
fn join_of_a_worker_that_panicked_with_text_names_the_text() {
    let error = join_thread(JoinOutcome::PanickedWith("boom".to_string())).unwrap_err();
    assert_eq!(error.kind, ErrorKind::WorkerPanicked);
    assert_eq!(error.message(), "Background thread failed: boom");
}

#[test]
fn join_of_a_worker_that_panicked_without_text_says_so() {
    let error = join_thread(JoinOutcome::PanickedOpaque).unwrap_err();
    assert_eq!(error.kind, ErrorKind::WorkerPanickedUnknown);
    assert_eq!(error.message(), "Background thread failed with unknown error type.");
}
