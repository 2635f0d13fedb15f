//! The bridge between the render loop and one background worker.
//!
//! A [`TaskSlot`] remembers whether a worker is outstanding. The render loop
//! observes its worker without blocking, hands the observation to
//! [`TaskSlot::poll`] as a [`WorkerReport`], and gets back what the observation
//! means. Threads and channels live with the caller; the slot holds the rules.

use crate::error::{ErrorKind, ErrorModel, WizardError};
use crate::threads::{join_error, join_thread, JoinOutcome};
use vstd::prelude::*;

verus! {

/// What the render loop saw when it looked at its worker.
#[derive(Debug)]
pub enum WorkerReport<T> {
    /// There is no worker.
    Absent,
    /// The worker has not terminated yet.
    Running,
    /// The worker has terminated. It was joined, and its channel was read once
    /// with a bounded wait: `message` is what the channel held, if anything.
    Exited { join: JoinOutcome, message: Option<Result<T, WizardError>> },
}

/// The state of a task as [`TaskSlot::poll`] reports it.
#[derive(Debug)]
pub enum Poll<T> {
    /// No task is outstanding.
    Empty,
    /// The task is outstanding and has no result yet.
    Pending,
    /// The task has finished with this value.
    Ready(T),
    /// The task has failed.
    Failed(WizardError),
}

/// The mathematical content of a [`Poll`].
pub ghost enum PollModel<T> {
    Empty,
    Pending,
    Ready(T),
    Failed(ErrorModel),
}

impl<T> Poll<T> {
    /// The poll with its error, if any, replaced by the error's content.
    pub open spec fn model(self) -> PollModel<T> {
        match self {
            Poll::Empty => PollModel::Empty,
            Poll::Pending => PollModel::Pending,
            Poll::Ready(value) => PollModel::Ready(value),
            Poll::Failed(error) => PollModel::Failed(error@),
        }
    }
}

/// What a report means for a slot that is busy or not.
///
/// An empty slot has nothing to report. For a busy slot, a running worker is
/// pending; a worker that panicked has failed with the panic's error; a worker
/// that returned has delivered what its channel holds, and has failed if the
/// channel holds nothing.
pub open spec fn poll_result<T>(busy: bool, report: WorkerReport<T>) -> PollModel<T> {
    if !busy {
        PollModel::Empty
    } else {
        match report {
            WorkerReport::Absent => PollModel::Failed(
                ErrorModel { kind: ErrorKind::WorkerMissing, detail: Seq::empty() },
            ),
            WorkerReport::Running => PollModel::Pending,
            WorkerReport::Exited { join, message } => match join_error(join@) {
                Some(error) => PollModel::Failed(error),
                None => match message {
                    None => PollModel::Failed(
                        ErrorModel { kind: ErrorKind::ChannelEmpty, detail: Seq::empty() },
                    ),
                    Some(Ok(value)) => PollModel::Ready(value),
                    Some(Err(error)) => PollModel::Failed(error@),
                },
            },
        }
    }
}

/// Room for at most one outstanding background task.
#[derive(Debug)]
pub struct TaskSlot {
    busy: bool,
}

impl TaskSlot {
    /// Whether a task is outstanding.
    pub closed spec fn busy(&self) -> bool {
        self.busy
    }

    /// An empty slot.
    pub fn new() -> (slot: TaskSlot)
        ensures
            !slot.busy(),
    {
        TaskSlot { busy: false }
    }

    /// Whether no task is outstanding.
    pub fn is_empty(&self) -> (empty: bool)
        ensures
            empty == !self.busy(),
    {
        !self.busy
    }

    /// Records that a task has been started. Starting a task while another is
    /// outstanding is an error, and leaves the outstanding task in place.
    pub fn start(&mut self) -> (result: Result<(), WizardError>)
        ensures
            final(self).busy(),
            result is Ok <==> !old(self).busy(),
            result matches Err(e) ==> e@ == (ErrorModel {
                kind: ErrorKind::SlotBusy,
                detail: Seq::empty(),
            }),
    {
        if self.busy {
            Err(WizardError::new(ErrorKind::SlotBusy))
        } else {
            self.busy = true;
            Ok(())
        }
    }

    /// Says what the report means for this slot, and empties the slot unless
    /// the task is still pending.
    pub fn poll<T>(&mut self, report: WorkerReport<T>) -> (result: Poll<T>)
        ensures
            result.model() == poll_result(old(self).busy(), report),
            final(self).busy() == (result is Pending),
    {
        if !self.busy {
            return Poll::Empty;
        }
        match report {
            WorkerReport::Running => Poll::Pending,
            WorkerReport::Absent => {
                self.busy = false;
                Poll::Failed(WizardError::new(ErrorKind::WorkerMissing))
            },
            WorkerReport::Exited { join, message } => {
                self.busy = false;
                match join_thread(join) {
                    Err(error) => Poll::Failed(error),
                    Ok(()) => match message {
                        None => Poll::Failed(WizardError::new(ErrorKind::ChannelEmpty)),
                        Some(Ok(value)) => Poll::Ready(value),
                        Some(Err(error)) => Poll::Failed(error),
                    },
                }
            },
        }
    }
}

/// A worker that ended abnormally is reported as failed, and the slot is free
/// again: it is never left pending.
pub proof fn lemma_abnormal_exit_fails<T>(report: WorkerReport<T>)
    requires
        report matches WorkerReport::Exited { join, .. } && !(join is Returned),
    ensures
        poll_result(true, report) is Failed,
{
}

/// Whatever is reported about a worker that has terminated, a busy slot does
/// not stay pending.
pub proof fn lemma_exit_is_never_pending<T>(busy: bool, report: WorkerReport<T>)
    requires
        !(report is Running),
    ensures
        !(poll_result(busy, report) is Pending),
{
}

} // verus!
