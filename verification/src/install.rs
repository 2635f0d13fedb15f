//! What a worker does to install onto a drive, one decision at a time.
//!
//! An [`InstallJob`] formats a drive for a team, unpacks an archive onto it and
//! flushes it, strictly in this order. The worker performs each action that
//! the job hands out and tells the job how it went; the job says what comes
//! next. After a failure nothing comes next.

use crate::drive_management::{
    continue_format, flush_command, flushed, format_drive, format_next, format_start, judged,
    caused, DriveInfo, DriveModel, FormatModel, FormatProgress, FormatStage, Launched, Platform,
    write_filesystem_cache,
};
use crate::error::{plain_error, ErrorKind, ErrorModel, WizardError};
use crate::paths::{file_name, file_name_of, join_path, joined_path, parent_of, parent_path};
use crate::shell::{CommandModel, ShellCommand};
use vstd::prelude::*;
use vstd::string::StringExecFns;

verus! {

/// Where an installation is.
#[derive(Clone, Copy, PartialEq, Eq, Structural, Debug)]
pub enum InstallStage {
    /// The drive is being formatted.
    Formatting,
    /// The archive is being unpacked onto the drive.
    Extracting,
    /// The drive is being flushed.
    Flushing,
    /// The installation is complete.
    Done,
    /// The installation has failed.
    Failed,
}

/// The installation of an archive on a drive for a team.
#[derive(Debug)]
pub struct InstallJob {
    pub platform: Platform,
    pub drive: DriveInfo,
    pub team_number: String,
    pub archive_path: String,
    pub stage: InstallStage,
    pub format: FormatProgress,
}

/// The mathematical content of an [`InstallJob`].
pub ghost struct JobModel {
    pub platform: Platform,
    pub drive: DriveModel,
    pub team_number: Seq<char>,
    pub archive_path: Seq<char>,
    pub stage: InstallStage,
    pub format: FormatModel,
}

impl View for InstallJob {
    type V = JobModel;

    open spec fn view(&self) -> JobModel {
        JobModel {
            platform: self.platform,
            drive: self.drive@,
            team_number: self.team_number@,
            archive_path: self.archive_path@,
            stage: self.stage,
            format: self.format@,
        }
    }
}

/// What the worker is to do next.
#[derive(Debug)]
pub enum InstallAction {
    /// Run this command and report how it went.
    Run(ShellCommand),
    /// Unpack the archive into the directory, overwriting what is there, and
    /// report how it went. `strip_toplevel` says whether a single top-level
    /// directory of the archive is left out.
    Extract { archive_path: String, target_dir: String, strip_toplevel: bool },
    /// Nothing: the installation is complete.
    Finished,
}

/// The mathematical content of an [`InstallAction`].
pub ghost enum ActionModel {
    Run(CommandModel),
    Extract { archive_path: Seq<char>, target_dir: Seq<char>, strip_toplevel: bool },
    Finished,
}

impl View for InstallAction {
    type V = ActionModel;

    open spec fn view(&self) -> ActionModel {
        match self {
            InstallAction::Run(command) => ActionModel::Run(command@),
            InstallAction::Extract {
                archive_path,
                target_dir,
                strip_toplevel,
            } => ActionModel::Extract {
                archive_path: archive_path@,
                target_dir: target_dir@,
                strip_toplevel: *strip_toplevel,
            },
            InstallAction::Finished => ActionModel::Finished,
        }
    }
}

/// How the action that the worker performed went.
#[derive(Debug)]
pub enum InstallEvent {
    /// The command has run, or could not be run.
    Command(Launched),
    /// The archive has been unpacked, or could not be, for the reason given.
    Extracted(Result<(), String>),
}

/// The content of the result of a step of an installation.
pub open spec fn step_view(result: Result<InstallAction, WizardError>) -> Result<
    ActionModel,
    ErrorModel,
> {
    match result {
        Ok(action) => Ok(action@),
        Err(error) => Err(error@),
    }
}

/// How an installation begins: with the formatting of the drive.
pub open spec fn install_start(
    platform: Platform,
    drive: DriveModel,
    team_number: Seq<char>,
    archive_path: Seq<char>,
) -> Result<(JobModel, CommandModel), ErrorModel> {
    match format_start(platform, drive, team_number) {
        Ok((format, command)) => Ok(
            (
                JobModel {
                    platform,
                    drive,
                    team_number,
                    archive_path,
                    stage: InstallStage::Formatting,
                    format,
                },
                command,
            ),
        ),
        Err(error) => Err(error),
    }
}

/// The name that the formatting gives to the drive of a team.
pub open spec fn drive_label(team_number: Seq<char>) -> Seq<char> {
    "GIZMO"@ + team_number
}

/// Where a drive is found once it has been formatted for a team. On Windows
/// it is where it was. On Linux a drive is mounted under its label, which the
/// formatting has changed: it is found beside where it was, under its new
/// label. A path without a parent has no such place.
pub open spec fn formatted_path(platform: Platform, drive_path: Seq<char>, team_number: Seq<char>)
    -> Option<Seq<char>> {
    match platform {
        Platform::Windows => Some(drive_path),
        Platform::Linux => match parent_path(drive_path) {
            Some(parent) => Some(joined_path(parent, drive_label(team_number))),
            None => None,
        },
    }
}

/// The installation once it has failed.
pub open spec fn failed(pre: JobModel) -> JobModel {
    JobModel { stage: InstallStage::Failed, ..pre }
}

/// One step of an installation: what the outcome of the last action leads to.
///
/// While the drive is being formatted, the outcome of each command leads to
/// the next command of the formatting; when the formatting is done, to the
/// unpacking of the archive onto the drive where it is then found. A
/// successful unpacking leads to the command that flushes the drive, and the
/// success of that command completes the installation. Any failure, and any
/// outcome that the stage does not wait for, fails the installation; a failed
/// installation answers every step with an error.
pub open spec fn install_step(pre: JobModel, event: InstallEvent) -> (
    JobModel,
    Result<ActionModel, ErrorModel>,
) {
    match pre.stage {
        InstallStage::Formatting => match event {
            InstallEvent::Command(outcome) => {
                if pre.format.stage == FormatStage::Done || pre.format.stage
                    == FormatStage::Failed {
                    (failed(pre), Err(plain_error(ErrorKind::JobFailed)))
                } else {
                    let (format, next) = format_next(
                        pre.platform,
                        pre.team_number,
                        pre.format,
                        outcome,
                    );
                    let heard = JobModel { format, ..pre };
                    match next {
                        Err(error) => (failed(heard), Err(error)),
                        Ok(Some(command)) => (heard, Ok(ActionModel::Run(command))),
                        Ok(None) => match formatted_path(
                            pre.platform,
                            pre.drive.drive_path,
                            pre.team_number,
                        ) {
                            Some(target_dir) => (
                                JobModel {
                                    stage: InstallStage::Extracting,
                                    drive: DriveModel { drive_path: target_dir, ..pre.drive },
                                    ..heard
                                },
                                Ok(
                                    ActionModel::Extract {
                                        archive_path: pre.archive_path,
                                        target_dir,
                                        strip_toplevel: true,
                                    },
                                ),
                            ),
                            None => (failed(heard), Err(plain_error(ErrorKind::NoParentPath))),
                        },
                    }
                }
            },
            InstallEvent::Extracted(_) => (
                failed(pre),
                Err(plain_error(ErrorKind::UnexpectedEvent)),
            ),
        },
        InstallStage::Extracting => match event {
            InstallEvent::Extracted(Ok(())) => match flush_command(pre.platform, pre.drive) {
                Ok(command) => (
                    JobModel { stage: InstallStage::Flushing, ..pre },
                    Ok(ActionModel::Run(command)),
                ),
                Err(error) => (failed(pre), Err(error)),
            },
            InstallEvent::Extracted(Err(reason)) => (
                failed(pre),
                Err(ErrorModel { kind: ErrorKind::ExtractFailed, detail: reason@ }),
            ),
            InstallEvent::Command(_) => (failed(pre), Err(plain_error(ErrorKind::UnexpectedEvent))),
        },
        InstallStage::Flushing => match event {
            InstallEvent::Command(outcome) => match judged(outcome) {
                Ok(_) => (JobModel { stage: InstallStage::Done, ..pre }, Ok(ActionModel::Finished)),
                Err(cause) => (failed(pre), Err(caused(ErrorKind::FlushFailed, cause))),
            },
            InstallEvent::Extracted(_) => (
                failed(pre),
                Err(plain_error(ErrorKind::UnexpectedEvent)),
            ),
        },
        InstallStage::Done => (pre, Ok(ActionModel::Finished)),
        InstallStage::Failed => (pre, Err(plain_error(ErrorKind::JobFailed))),
    }
}

/// Computes [`formatted_path`].
pub fn path_after_format(platform: Platform, drive_path: &str, team_number: &str) -> (path: Option<
    String,
>)
    ensures
        path.deep_view() == formatted_path(platform, drive_path@, team_number@),
{
    match platform {
        Platform::Windows => Some(String::from_str(drive_path)),
        Platform::Linux => match parent_of(drive_path) {
            Some(parent) => {
                let label = String::from_str("GIZMO").concat(team_number);
                Some(join_path(parent.as_str(), label.as_str()))
            },
            None => None,
        },
    }
}

impl InstallJob {
    /// Begins the installation of an archive on a drive for a team. The
    /// result is the job and the first command for the worker to run.
    pub fn start(platform: Platform, drive: DriveInfo, team_number: String, archive_path: String)
        -> (begun: Result<(InstallJob, ShellCommand), WizardError>)
        ensures
            match begun {
                Ok((job, command)) => install_start(
                    platform,
                    drive@,
                    team_number@,
                    archive_path@,
                ) == Ok::<(JobModel, CommandModel), ErrorModel>((job@, command@)),
                Err(error) => install_start(platform, drive@, team_number@, archive_path@)
                    == Err::<(JobModel, CommandModel), ErrorModel>(error@),
            },
    {
        match format_drive(platform, &drive, team_number.as_str()) {
            Ok((format, command)) => Ok(
                (
                    InstallJob {
                        platform,
                        drive,
                        team_number,
                        archive_path,
                        stage: InstallStage::Formatting,
                        format,
                    },
                    command,
                ),
            ),
            Err(error) => Err(error),
        }
    }

    /// Tells the job how the action that it handed out went, and gets the
    /// next action.
    pub fn step(&mut self, event: InstallEvent) -> (next: Result<InstallAction, WizardError>)
        ensures
            (final(self)@, step_view(next)) == install_step(old(self)@, event),
    {
        match self.stage {
            InstallStage::Formatting => match event {
                InstallEvent::Command(outcome) => {
                    if self.format.stage == FormatStage::Done || self.format.stage
                        == FormatStage::Failed {
                        self.stage = InstallStage::Failed;
                        return Err(WizardError::new(ErrorKind::JobFailed));
                    }
                    match continue_format(
                        self.platform,
                        self.team_number.as_str(),
                        &mut self.format,
                        outcome,
                    ) {
                        Err(error) => {
                            self.stage = InstallStage::Failed;
                            Err(error)
                        },
                        Ok(Some(command)) => Ok(InstallAction::Run(command)),
                        Ok(None) => match path_after_format(
                            self.platform,
                            self.drive.drive_path.as_str(),
                            self.team_number.as_str(),
                        ) {
                            Some(target_dir) => {
                                self.drive.drive_path = target_dir.clone();
                                self.stage = InstallStage::Extracting;
                                Ok(
                                    InstallAction::Extract {
                                        archive_path: self.archive_path.clone(),
                                        target_dir,
                                        strip_toplevel: true,
                                    },
                                )
                            },
                            None => {
                                self.stage = InstallStage::Failed;
                                Err(WizardError::new(ErrorKind::NoParentPath))
                            },
                        },
                    }
                },
                InstallEvent::Extracted(_) => {
                    self.stage = InstallStage::Failed;
                    Err(WizardError::new(ErrorKind::UnexpectedEvent))
                },
            },
            InstallStage::Extracting => match event {
                InstallEvent::Extracted(Ok(())) => match write_filesystem_cache(
                    self.platform,
                    &self.drive,
                ) {
                    Ok(command) => {
                        self.stage = InstallStage::Flushing;
                        Ok(InstallAction::Run(command))
                    },
                    Err(error) => {
                        self.stage = InstallStage::Failed;
                        Err(error)
                    },
                },
                InstallEvent::Extracted(Err(reason)) => {
                    self.stage = InstallStage::Failed;
                    Err(WizardError { kind: ErrorKind::ExtractFailed, detail: reason })
                },
                InstallEvent::Command(_) => {
                    self.stage = InstallStage::Failed;
                    Err(WizardError::new(ErrorKind::UnexpectedEvent))
                },
            },
            InstallStage::Flushing => match event {
                InstallEvent::Command(outcome) => match flushed(outcome) {
                    Ok(()) => {
                        self.stage = InstallStage::Done;
                        Ok(InstallAction::Finished)
                    },
                    Err(error) => {
                        self.stage = InstallStage::Failed;
                        Err(error)
                    },
                },
                InstallEvent::Extracted(_) => {
                    self.stage = InstallStage::Failed;
                    Err(WizardError::new(ErrorKind::UnexpectedEvent))
                },
            },
            InstallStage::Done => Ok(InstallAction::Finished),
            InstallStage::Failed => Err(WizardError::new(ErrorKind::JobFailed)),
        }
    }
}

/// The archive is unpacked only when the formatting is done: the action is
/// handed out only while the drive is being formatted, in answer to a command
/// that succeeded and was the last of the formatting.
pub proof fn lemma_write_follows_format(pre: JobModel, event: InstallEvent)
    requires
        install_step(pre, event).1 matches Ok(ActionModel::Extract { .. }),
    ensures
        pre.stage == InstallStage::Formatting,
        event matches InstallEvent::Command(outcome) && judged(outcome) is Ok && format_next(
            pre.platform,
            pre.team_number,
            pre.format,
            outcome,
        ).0.stage == FormatStage::Done,
        install_step(pre, event).0.stage == InstallStage::Extracting,
{
}

/// The drive is flushed only when the archive is unpacked: the installation
/// comes to wait for the flush only from the unpacking, in answer to its
/// success.
pub proof fn lemma_flush_follows_write(pre: JobModel, event: InstallEvent)
    requires
        install_step(pre, event).0.stage == InstallStage::Flushing,
    ensures
        pre.stage == InstallStage::Extracting,
        event matches InstallEvent::Extracted(Ok(())),
{
}

/// A formatting command that fails fails the installation: the step answers
/// with an error and hands out no action.
pub proof fn lemma_failed_format_fails(pre: JobModel, outcome: Launched)
    requires
        pre.stage == InstallStage::Formatting,
        judged(outcome) is Err,
    ensures
        install_step(pre, InstallEvent::Command(outcome)).1 is Err,
        install_step(pre, InstallEvent::Command(outcome)).0.stage == InstallStage::Failed,
{
}

/// A failure is final: a step that answers with an error leaves the
/// installation failed, and a failed installation stays as it is and answers
/// every step with an error. So after a failure no command is run and nothing
/// is unpacked.
pub proof fn lemma_failure_is_final(pre: JobModel, event: InstallEvent, later: InstallEvent)
    requires
        install_step(pre, event).1 is Err,
    ensures
        install_step(pre, event).0.stage == InstallStage::Failed,
        install_step(install_step(pre, event).0, later).1 is Err,
        install_step(install_step(pre, event).0, later).0 == install_step(pre, event).0,
{
}

/// The stages of an installation follow one another in one order: a step
/// leaves the stage as it is or moves it on to the next, or fails.
pub proof fn lemma_stages_in_order(pre: JobModel, event: InstallEvent)
    ensures
        ({
            let post = install_step(pre, event).0.stage;
            match pre.stage {
                InstallStage::Formatting => post == InstallStage::Formatting || post
                    == InstallStage::Extracting || post == InstallStage::Failed,
                InstallStage::Extracting => post == InstallStage::Flushing || post
                    == InstallStage::Failed,
                InstallStage::Flushing => post == InstallStage::Done || post
                    == InstallStage::Failed,
                InstallStage::Done => post == InstallStage::Done,
                InstallStage::Failed => post == InstallStage::Failed,
            }
        }),
{
}

/// The installation after a run of steps, one for each event.
pub open spec fn job_after(pre: JobModel, events: Seq<InstallEvent>) -> JobModel
    decreases events.len(),
{
    if events.len() == 0 {
        pre
    } else {
        install_step(job_after(pre, events.drop_last()), events.last()).0
    }
}

/// After a step of a run has failed, the installation is failed at every
/// later step.
proof fn lemma_failed_from_then_on(
    pre: JobModel,
    events: Seq<InstallEvent>,
    failed_at: int,
    later: int,
)
    requires
        0 <= failed_at < later <= events.len(),
        install_step(job_after(pre, events.take(failed_at)), events[failed_at]).1 is Err,
    ensures
        job_after(pre, events.take(later)).stage == InstallStage::Failed,
    decreases later - failed_at,
{
    assert(events.take(later).drop_last() =~= events.take(later - 1));
    if later - 1 > failed_at {
        lemma_failed_from_then_on(pre, events, failed_at, later - 1);
    }
}

/// Nothing follows a failure: in any run of steps, once a step has answered
/// with an error, every later step answers with an error too, and so hands
/// out neither a command nor the unpacking. A formatting that has failed is
/// therefore followed by no write and no flush.
pub proof fn lemma_nothing_follows_a_failure(
    pre: JobModel,
    events: Seq<InstallEvent>,
    failed_at: int,
    later: int,
)
    requires
        0 <= failed_at < later < events.len(),
        install_step(job_after(pre, events.take(failed_at)), events[failed_at]).1 is Err,
    ensures
        install_step(job_after(pre, events.take(later)), events[later]).1 is Err,
{
    lemma_failed_from_then_on(pre, events, failed_at, later);
}

/// What copying a firmware file onto a drive comes to.
#[derive(Debug)]
pub struct CopyPlan {
    /// The file to copy.
    pub source: String,
    /// The file to write: on the drive, under the name of the source.
    pub destination: String,
}

/// The mathematical content of a [`CopyPlan`].
pub ghost struct CopyModel {
    pub source: Seq<char>,
    pub destination: Seq<char>,
}

impl View for CopyPlan {
    type V = CopyModel;

    open spec fn view(&self) -> CopyModel {
        CopyModel { source: self.source@, destination: self.destination@ }
    }
}

/// The copy of a firmware file onto a drive: to the drive's path, under the
/// file's own name. A path without a file name is an error.
pub open spec fn copy_plan(firmware_path: Seq<char>, drive: DriveModel) -> Result<
    CopyModel,
    ErrorModel,
> {
    match file_name_of(firmware_path) {
        Some(name) => Ok(
            CopyModel { source: firmware_path, destination: joined_path(drive.drive_path, name) },
        ),
        None => Err(plain_error(ErrorKind::NoFileName)),
    }
}

/// Plans the copy of a firmware file onto a drive.
pub fn plan_firmware_copy(firmware_path: &str, drive: &DriveInfo) -> (plan: Result<
    CopyPlan,
    WizardError,
>)
    ensures
        match plan {
            Ok(plan) => copy_plan(firmware_path@, drive@) == Ok::<CopyModel, ErrorModel>(plan@),
            Err(error) => copy_plan(firmware_path@, drive@) == Err::<CopyModel, ErrorModel>(
                error@,
            ),
        },
{
    match file_name(firmware_path) {
        Some(name) => Ok(
            CopyPlan {
                source: String::from_str(firmware_path),
                destination: join_path(drive.drive_path.as_str(), name.as_str()),
            },
        ),
        None => Err(WizardError::new(ErrorKind::NoFileName)),
    }
}

} // verus!
