//! Turning the end of a background worker into an ordinary result.

use crate::error::{ErrorKind, ErrorModel, WizardError};
use vstd::prelude::*;

verus! {

/// How a background worker ended, as seen by whoever joined it.
#[derive(Debug)]
pub enum JoinOutcome {
    /// The worker returned normally.
    Returned,
    /// The worker panicked with a text message.
    PanickedWith(String),
    /// The worker panicked with a payload that is not text.
    PanickedOpaque,
}

/// The mathematical content of a [`JoinOutcome`].
pub ghost enum JoinModel {
    Returned,
    PanickedWith(Seq<char>),
    PanickedOpaque,
}

impl View for JoinOutcome {
    type V = JoinModel;

    open spec fn view(&self) -> JoinModel {
        match self {
            JoinOutcome::Returned => JoinModel::Returned,
            JoinOutcome::PanickedWith(text) => JoinModel::PanickedWith(text@),
            JoinOutcome::PanickedOpaque => JoinModel::PanickedOpaque,
        }
    }
}

/// The error, if any, that joining a worker with the given outcome reports.
pub open spec fn join_error(outcome: JoinModel) -> Option<ErrorModel> {
    match outcome {
        JoinModel::Returned => None,
        JoinModel::PanickedWith(text) => Some(
            ErrorModel { kind: ErrorKind::WorkerPanicked, detail: text },
        ),
        JoinModel::PanickedOpaque => Some(
            ErrorModel { kind: ErrorKind::WorkerPanickedUnknown, detail: Seq::empty() },
        ),
    }
}

/// Converts the way a worker ended into a result: a worker that returned is
/// fine, one that panicked becomes an error that names the panic message when
/// there is one.
pub fn join_thread(outcome: JoinOutcome) -> (result: Result<(), WizardError>)
    ensures
        result is Ok <==> join_error(outcome@) is None,
        result matches Err(e) ==> Some(e@) == join_error(outcome@),
{
    match outcome {
        JoinOutcome::Returned => Ok(()),
        JoinOutcome::PanickedWith(text) => Err(
            WizardError { kind: ErrorKind::WorkerPanicked, detail: text },
        ),
        JoinOutcome::PanickedOpaque => Err(WizardError::new(ErrorKind::WorkerPanickedUnknown)),
    }
}

} // verus!
