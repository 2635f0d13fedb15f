//! What the installation flows share: the tasks they hand to a worker, the
//! results they expect back, and the steps that every flow has in the same
//! form (choosing a release, choosing a drive).
//!
//! A flow is advanced once per frame. The caller reports what it has seen of
//! the worker, and is told whether to start a new task. Between frames it
//! passes on what the operator did.

use crate::drive_management::{DriveInfo, DriveModel};
use crate::error::{plain_error, ErrorKind, ErrorModel, WizardError};
use crate::github::{GithubRelease, GithubReleaseAsset, AssetModel, ReleaseModel};
use crate::task::{poll_result, Poll, PollModel, TaskSlot, WorkerReport};
use vstd::prelude::*;
use vstd::string::StringExecFns;

pub mod driver_station_setup;
pub mod student_starter_code;
pub mod system_firmware;

verus! {

/// What a finished task hands back.
#[derive(Debug)]
pub enum TaskResult {
    /// The releases of a repository, the latest one marked.
    Releases(Vec<GithubRelease>),
    /// The local path of a downloaded file.
    Path(String),
    /// The removable drives that are present.
    Drives(Vec<DriveInfo>),
    /// Nothing but the news that the task is done.
    Finished,
}

/// The mathematical content of a [`TaskResult`].
pub ghost enum TaskResultModel {
    Releases(Seq<ReleaseModel>),
    Path(Seq<char>),
    Drives(Seq<DriveModel>),
    Finished,
}

impl View for TaskResult {
    type V = TaskResultModel;

    open spec fn view(&self) -> TaskResultModel {
        match self {
            TaskResult::Releases(releases) => TaskResultModel::Releases(releases.deep_view()),
            TaskResult::Path(path) => TaskResultModel::Path(path@),
            TaskResult::Drives(drives) => TaskResultModel::Drives(drives.deep_view()),
            TaskResult::Finished => TaskResultModel::Finished,
        }
    }
}

/// A task for the worker.
#[derive(Debug)]
pub enum TaskRequest {
    /// Fetch the list of releases of a repository.
    FetchReleases { repo_owner: String, repo_name: String },
    /// Download an asset of a release of a repository.
    DownloadAsset {
        asset: GithubReleaseAsset,
        repo_owner: String,
        repo_name: String,
        release: GithubRelease,
    },
    /// List the removable drives.
    ListDrives,
    /// Format a drive for a team, unpack an archive onto it and flush it.
    InstallArchive { archive_path: String, drive: DriveInfo, team_number: String },
    /// Copy a firmware file onto a drive.
    CopyFirmware { firmware_path: String, drive: DriveInfo },
}

/// The mathematical content of a [`TaskRequest`].
pub ghost enum TaskRequestModel {
    FetchReleases { repo_owner: Seq<char>, repo_name: Seq<char> },
    DownloadAsset {
        asset: AssetModel,
        repo_owner: Seq<char>,
        repo_name: Seq<char>,
        release: ReleaseModel,
    },
    ListDrives,
    InstallArchive { archive_path: Seq<char>, drive: DriveModel, team_number: Seq<char> },
    CopyFirmware { firmware_path: Seq<char>, drive: DriveModel },
}

impl View for TaskRequest {
    type V = TaskRequestModel;

    open spec fn view(&self) -> TaskRequestModel {
        match self {
            TaskRequest::FetchReleases { repo_owner, repo_name } => TaskRequestModel::FetchReleases {
                repo_owner: repo_owner@,
                repo_name: repo_name@,
            },
            TaskRequest::DownloadAsset {
                asset,
                repo_owner,
                repo_name,
                release,
            } => TaskRequestModel::DownloadAsset {
                asset: asset@,
                repo_owner: repo_owner@,
                repo_name: repo_name@,
                release: release@,
            },
            TaskRequest::ListDrives => TaskRequestModel::ListDrives,
            TaskRequest::InstallArchive {
                archive_path,
                drive,
                team_number,
            } => TaskRequestModel::InstallArchive {
                archive_path: archive_path@,
                drive: drive@,
                team_number: team_number@,
            },
            TaskRequest::CopyFirmware { firmware_path, drive } => TaskRequestModel::CopyFirmware {
                firmware_path: firmware_path@,
                drive: drive@,
            },
        }
    }
}

/// What the caller reports of its worker at the start of a frame.
pub type PageReport = WorkerReport<TaskResult>;

/// What a frame asks of the caller: to start a task, or nothing; or the error
/// that ends the flow.
pub type Frame = Result<Option<TaskRequest>, WizardError>;

/// The mathematical content of a [`Frame`].
pub type FrameModel = Result<Option<TaskRequestModel>, ErrorModel>;

/// The content of a request, if there is one.
pub open spec fn request_view(request: Option<TaskRequest>) -> Option<TaskRequestModel> {
    match request {
        Some(request) => Some(request@),
        None => None,
    }
}

/// The content of a frame.
pub open spec fn frame_view(frame: Frame) -> FrameModel {
    match frame {
        Ok(Some(request)) => Ok(Some(request@)),
        Ok(None) => Ok(None),
        Err(error) => Err(error@),
    }
}

/// What a report means for a step: the content of what the task delivered,
/// nothing while there is no news, or the error that the task ended with.
pub open spec fn delivered(busy: bool, report: PageReport) -> Result<
    Option<TaskResultModel>,
    ErrorModel,
> {
    match poll_result(busy, report) {
        PollModel::Empty => Ok(None),
        PollModel::Pending => Ok(None),
        PollModel::Ready(value) => Ok(Some(value@)),
        PollModel::Failed(error) => Err(error),
    }
}

/// Whether a task is still outstanding after a report.
pub open spec fn pending_after(busy: bool, report: PageReport) -> bool {
    poll_result(busy, report) is Pending
}

/// Polls the slot and hands out what the task delivered, if it has.
pub fn poll_task(task: &mut TaskSlot, report: PageReport) -> (result: Result<
    Option<TaskResult>,
    WizardError,
>)
    ensures
        final(task).busy() == pending_after(old(task).busy(), report),
        match result {
            Ok(Some(value)) => delivered(old(task).busy(), report) == Ok::<
                Option<TaskResultModel>,
                ErrorModel,
            >(Some(value@)),
            Ok(None) => delivered(old(task).busy(), report) == Ok::<
                Option<TaskResultModel>,
                ErrorModel,
            >(None),
            Err(error) => delivered(old(task).busy(), report) == Err::<
                Option<TaskResultModel>,
                ErrorModel,
            >(error@),
        },
{
    match task.poll(report) {
        Poll::Empty => Ok(None),
        Poll::Pending => Ok(None),
        Poll::Ready(value) => Ok(Some(value)),
        Poll::Failed(error) => Err(error),
    }
}

/// Whether `position` is that of the first release of the list that is marked
/// as the latest.
pub open spec fn is_first_latest(releases: Seq<ReleaseModel>, position: int) -> bool {
    &&& 0 <= position < releases.len()
    &&& releases[position].latest
    &&& forall|j: int| 0 <= j < position ==> !(#[trigger] releases[j]).latest
}

/// Whether some release of the list is marked as the latest.
pub open spec fn has_latest(releases: Seq<ReleaseModel>) -> bool {
    exists|i: int| 0 <= i < releases.len() && (#[trigger] releases[i]).latest
}

/// The position of the first release marked as the latest, in a list that has
/// one.
pub open spec fn first_latest(releases: Seq<ReleaseModel>) -> int {
    choose|position: int| is_first_latest(releases, position)
}

/// The first release of the list that is marked as the latest, if there is one.
pub fn latest_release(releases: &Vec<GithubRelease>) -> (found: Option<GithubRelease>)
    ensures
        found is Some <==> has_latest(releases.deep_view()),
        found matches Some(release) ==> {
            &&& is_first_latest(releases.deep_view(), first_latest(releases.deep_view()))
            &&& release@ == releases.deep_view()[first_latest(releases.deep_view())]
        },
{
    let mut i: usize = 0;
    while i < releases.len()
        invariant
            i <= releases.len(),
            forall|j: int| 0 <= j < i ==> !(#[trigger] releases.deep_view()[j]).latest,
        decreases releases.len() - i,
    {
        if releases[i].latest {
            proof {
                let list = releases.deep_view();
                assert(is_first_latest(list, i as int));
                let chosen = first_latest(list);
                if chosen < i {
                    assert(!list[chosen].latest);
                } else if i < chosen {
                    assert(!list[i as int].latest);
                }
            }
            return Some(releases[i].clone());
        }
        i += 1;
    }
    None
}

/// What every flow remembers: the releases on offer and the one chosen, the
/// drives on offer and the one chosen, and whether a task is outstanding.
#[derive(Debug)]
pub struct Session {
    pub available_releases: Option<Vec<GithubRelease>>,
    pub software_version: Option<GithubRelease>,
    pub available_drives: Option<Vec<DriveInfo>>,
    pub selected_drive: Option<DriveInfo>,
    pub task: TaskSlot,
}

/// The mathematical content of a [`Session`].
pub ghost struct SessionModel {
    pub available_releases: Option<Seq<ReleaseModel>>,
    pub software_version: Option<ReleaseModel>,
    pub available_drives: Option<Seq<DriveModel>>,
    pub selected_drive: Option<DriveModel>,
    pub busy: bool,
}

impl View for Session {
    type V = SessionModel;

    open spec fn view(&self) -> SessionModel {
        SessionModel {
            available_releases: self.available_releases.deep_view(),
            software_version: self.software_version.deep_view(),
            available_drives: self.available_drives.deep_view(),
            selected_drive: self.selected_drive.deep_view(),
            busy: self.task.busy(),
        }
    }
}

/// The session in which nothing is known and nothing is outstanding.
pub open spec fn empty_session() -> SessionModel {
    SessionModel {
        available_releases: None,
        software_version: None,
        available_drives: None,
        selected_drive: None,
        busy: false,
    }
}

/// The session once its task slot has heard the report.
pub open spec fn after_report(pre: SessionModel, report: PageReport) -> SessionModel {
    SessionModel { busy: pending_after(pre.busy, report), ..pre }
}

/// The session with the latest release chosen, where releases are known and
/// none is chosen yet. Releases of which none is the latest are an error.
pub open spec fn with_default_version(session: SessionModel) -> Result<SessionModel, ErrorModel> {
    match session.available_releases {
        Some(releases) if session.software_version is None => {
            if has_latest(releases) {
                Ok(
                    SessionModel {
                        software_version: Some(releases[first_latest(releases)]),
                        ..session
                    },
                )
            } else {
                Err(plain_error(ErrorKind::LatestReleaseNotFound))
            }
        },
        _ => Ok(session),
    }
}

/// One frame of the step that offers the releases of a repository.
///
/// While no releases are known and no task is outstanding, the releases are
/// requested. Otherwise the task is polled: a list of releases is stored, any
/// other result is an error, and so is a failed task. Once releases are known
/// and none is chosen, the latest is chosen.
pub open spec fn choose_version_frame(
    pre: SessionModel,
    repo_owner: Seq<char>,
    repo_name: Seq<char>,
    report: PageReport,
) -> (SessionModel, FrameModel) {
    if pre.available_releases is None && !pre.busy {
        (
            SessionModel { busy: true, ..pre },
            Ok(Some(TaskRequestModel::FetchReleases { repo_owner, repo_name })),
        )
    } else {
        let heard = after_report(pre, report);
        match delivered(pre.busy, report) {
            Err(error) => (heard, Err(error)),
            Ok(Some(TaskResultModel::Releases(releases))) => {
                let stored = SessionModel { available_releases: Some(releases), ..heard };
                match with_default_version(stored) {
                    Ok(chosen) => (chosen, Ok(None)),
                    Err(error) => (stored, Err(error)),
                }
            },
            Ok(Some(_)) => (heard, Err(plain_error(ErrorKind::UnexpectedResult))),
            Ok(None) => match with_default_version(heard) {
                Ok(chosen) => (chosen, Ok(None)),
                Err(error) => (heard, Err(error)),
            },
        }
    }
}

/// One frame of the step that offers the removable drives.
///
/// While no drives are known and no task is outstanding, the drives are
/// requested. Otherwise the task is polled: a list of drives is stored, any
/// other result is an error, and so is a failed task.
pub open spec fn choose_drive_frame(pre: SessionModel, report: PageReport) -> (
    SessionModel,
    FrameModel,
) {
    if pre.available_drives is None && !pre.busy {
        (SessionModel { busy: true, ..pre }, Ok(Some(TaskRequestModel::ListDrives)))
    } else {
        let heard = after_report(pre, report);
        match delivered(pre.busy, report) {
            Err(error) => (heard, Err(error)),
            Ok(Some(TaskResultModel::Drives(drives))) => (
                SessionModel { available_drives: Some(drives), ..heard },
                Ok(None),
            ),
            Ok(Some(_)) => (heard, Err(plain_error(ErrorKind::UnexpectedResult))),
            Ok(None) => (heard, Ok(None)),
        }
    }
}

/// What a report means for a step that waits for a downloaded file: its path,
/// nothing while there is no news, or an error.
pub open spec fn delivered_path(busy: bool, report: PageReport) -> Result<
    Option<Seq<char>>,
    ErrorModel,
> {
    match delivered(busy, report) {
        Err(error) => Err(error),
        Ok(Some(TaskResultModel::Path(path))) => Ok(Some(path)),
        Ok(Some(_)) => Err(plain_error(ErrorKind::UnexpectedResult)),
        Ok(None) => Ok(None),
    }
}

/// What a report means for a step that waits for a task without a value:
/// whether it is done, or an error.
pub open spec fn delivered_finish(busy: bool, report: PageReport) -> Result<bool, ErrorModel> {
    match delivered(busy, report) {
        Err(error) => Err(error),
        Ok(Some(TaskResultModel::Finished)) => Ok(true),
        Ok(Some(_)) => Err(plain_error(ErrorKind::UnexpectedResult)),
        Ok(None) => Ok(false),
    }
}

/// The session with the release at `index` chosen, if releases are known and
/// there is one at `index`; otherwise unchanged.
pub open spec fn version_selected(pre: SessionModel, index: int) -> SessionModel {
    match pre.available_releases {
        Some(releases) if 0 <= index < releases.len() => SessionModel {
            software_version: Some(releases[index]),
            ..pre
        },
        _ => pre,
    }
}

/// The session with the drive at `index` chosen, if drives are known and there
/// is one at `index`; otherwise unchanged.
pub open spec fn drive_selected(pre: SessionModel, index: int) -> SessionModel {
    match pre.available_drives {
        Some(drives) if 0 <= index < drives.len() => SessionModel {
            selected_drive: Some(drives[index]),
            ..pre
        },
        _ => pre,
    }
}

/// The session with neither drives nor a chosen drive.
pub open spec fn drives_forgotten(pre: SessionModel) -> SessionModel {
    SessionModel { available_drives: None, selected_drive: None, ..pre }
}

impl Session {
    /// The session in which nothing is known and nothing is outstanding.
    pub fn new() -> (session: Session)
        ensures
            session@ == empty_session(),
    {
        Session {
            available_releases: None,
            software_version: None,
            available_drives: None,
            selected_drive: None,
            task: TaskSlot::new(),
        }
    }

    /// Records that `request` goes to the worker, and hands it back for the
    /// caller to start. With a task outstanding this is an error and nothing
    /// is started.
    pub fn begin(&mut self, request: TaskRequest) -> (frame: Frame)
        ensures
            final(self)@ == (SessionModel { busy: true, ..old(self)@ }),
            frame_view(frame) == if old(self)@.busy {
                Err::<Option<TaskRequestModel>, ErrorModel>(plain_error(ErrorKind::SlotBusy))
            } else {
                Ok::<Option<TaskRequestModel>, ErrorModel>(Some(request@))
            },
    {
        match self.task.start() {
            Ok(()) => Ok(Some(request)),
            Err(error) => Err(error),
        }
    }

    /// Advances the step that offers the releases of a repository by one frame.
    pub fn run_choose_version(
        &mut self,
        repo_owner: &str,
        repo_name: &str,
        report: PageReport,
    ) -> (frame: Frame)
        ensures
            (final(self)@, frame_view(frame)) == choose_version_frame(
                old(self)@,
                repo_owner@,
                repo_name@,
                report,
            ),
    {
        if self.available_releases.is_none() && self.task.is_empty() {
            return self.begin(
                TaskRequest::FetchReleases {
                    repo_owner: String::from_str(repo_owner),
                    repo_name: String::from_str(repo_name),
                },
            );
        }
        match poll_task(&mut self.task, report) {
            Err(error) => {
                return Err(error);
            },
            Ok(Some(TaskResult::Releases(releases))) => {
                self.available_releases = Some(releases);
            },
            Ok(Some(_)) => {
                return Err(WizardError::new(ErrorKind::UnexpectedResult));
            },
            Ok(None) => {},
        }
        if self.software_version.is_none() {
            if let Some(releases) = &self.available_releases {
                match latest_release(releases) {
                    Some(release) => {
                        self.software_version = Some(release);
                    },
                    None => {
                        return Err(WizardError::new(ErrorKind::LatestReleaseNotFound));
                    },
                }
            }
        }
        Ok(None)
    }

    /// Advances the step that offers the removable drives by one frame.
    pub fn run_choose_drive(&mut self, report: PageReport) -> (frame: Frame)
        ensures
            (final(self)@, frame_view(frame)) == choose_drive_frame(old(self)@, report),
    {
        if self.available_drives.is_none() && self.task.is_empty() {
            return self.begin(TaskRequest::ListDrives);
        }
        match poll_task(&mut self.task, report) {
            Err(error) => Err(error),
            Ok(Some(TaskResult::Drives(drives))) => {
                self.available_drives = Some(drives);
                Ok(None)
            },
            Ok(Some(_)) => Err(WizardError::new(ErrorKind::UnexpectedResult)),
            Ok(None) => Ok(None),
        }
    }

    /// Polls the task of a step that waits for a downloaded file.
    pub fn expect_path(&mut self, report: PageReport) -> (result: Result<
        Option<String>,
        WizardError,
    >)
        ensures
            final(self)@ == after_report(old(self)@, report),
            match result {
                Ok(Some(path)) => delivered_path(old(self)@.busy, report) == Ok::<
                    Option<Seq<char>>,
                    ErrorModel,
                >(Some(path@)),
                Ok(None) => delivered_path(old(self)@.busy, report) == Ok::<
                    Option<Seq<char>>,
                    ErrorModel,
                >(None),
                Err(error) => delivered_path(old(self)@.busy, report) == Err::<
                    Option<Seq<char>>,
                    ErrorModel,
                >(error@),
            },
    {
        match poll_task(&mut self.task, report) {
            Err(error) => Err(error),
            Ok(Some(TaskResult::Path(path))) => Ok(Some(path)),
            Ok(Some(_)) => Err(WizardError::new(ErrorKind::UnexpectedResult)),
            Ok(None) => Ok(None),
        }
    }

    /// Polls the task of a step that waits for a task without a value.
    pub fn expect_finish(&mut self, report: PageReport) -> (result: Result<bool, WizardError>)
        ensures
            final(self)@ == after_report(old(self)@, report),
            match result {
                Ok(done) => delivered_finish(old(self)@.busy, report) == Ok::<bool, ErrorModel>(
                    done,
                ),
                Err(error) => delivered_finish(old(self)@.busy, report) == Err::<
                    bool,
                    ErrorModel,
                >(error@),
            },
    {
        match poll_task(&mut self.task, report) {
            Err(error) => Err(error),
            Ok(Some(TaskResult::Finished)) => Ok(true),
            Ok(Some(_)) => Err(WizardError::new(ErrorKind::UnexpectedResult)),
            Ok(None) => Ok(false),
        }
    }

    /// The operator picks the release at `index` of the list on offer.
    pub fn select_version(&mut self, index: usize)
        ensures
            final(self)@ == version_selected(old(self)@, index as int),
    {
        if let Some(releases) = &self.available_releases {
            if index < releases.len() {
                self.software_version = Some(releases[index].clone());
            }
        }
    }

    /// The operator picks the drive at `index` of the list on offer.
    pub fn select_drive(&mut self, index: usize)
        ensures
            final(self)@ == drive_selected(old(self)@, index as int),
    {
        if let Some(drives) = &self.available_drives {
            if index < drives.len() {
                self.selected_drive = Some(drives[index].clone());
            }
        }
    }

    /// Forgets the drives on offer and the one chosen, so that the drives are
    /// listed anew.
    pub fn forget_drives(&mut self)
        ensures
            final(self)@ == drives_forgotten(old(self)@),
    {
        self.available_drives = None;
        self.selected_drive = None;
    }

    /// Whether the release at `index` of the list on offer is the chosen one:
    /// whether it has the chosen one's name.
    pub fn is_version_selected(&self, index: usize) -> (selected: bool)
        ensures
            selected <==> {
                &&& self@.available_releases matches Some(releases)
                &&& self@.software_version matches Some(chosen)
                &&& index < releases.len()
                &&& releases[index as int].name == chosen.name
            },
    {
        match (&self.available_releases, &self.software_version) {
            (Some(releases), Some(chosen)) => index < releases.len() && releases[index] == *chosen,
            _ => false,
        }
    }

    /// Whether the drive at `index` of the list on offer is the chosen one:
    /// whether it has the chosen one's path.
    pub fn is_drive_selected(&self, index: usize) -> (selected: bool)
        ensures
            selected <==> {
                &&& self@.available_drives matches Some(drives)
                &&& self@.selected_drive matches Some(chosen)
                &&& index < drives.len()
                &&& drives[index as int].drive_path == chosen.drive_path
            },
    {
        match (&self.available_drives, &self.selected_drive) {
            (Some(drives), Some(chosen)) => index < drives.len() && drives[index] == *chosen,
            _ => false,
        }
    }
}

/// What the operator did on the screen of a step.
#[derive(Debug)]
pub enum PageEvent {
    /// Asked to go on from the current step.
    Next,
    /// Picked the release at this position of the list on offer.
    SelectVersion(usize),
    /// Typed this text as the team numbers.
    EditTeamNumbers(String),
    /// Picked the firmware file at this position of the list on offer.
    SelectFirmware(usize),
    /// Picked the drive at this position of the list on offer.
    SelectDrive(usize),
    /// Asked for the drives to be listed anew.
    RefreshDrives,
}

/// An installation flow: a sequence of steps that is advanced once per frame
/// and told what the operator did.
pub trait Page {
    /// Whether a task of the flow is outstanding.
    spec fn busy(&self) -> bool;

    /// Advances the flow by one frame. `report` is what the caller has seen of
    /// its worker since the last frame. The result is the task that the caller
    /// is to start now, if any, or the error that ends the flow. A task is
    /// asked for only while none is outstanding, and is outstanding from then
    /// on.
    fn run(&mut self, report: PageReport) -> (outcome: Frame)
        ensures
            outcome matches Ok(Some(_)) ==> !old(self).busy() && final(self).busy(),
    ;

    /// Tells the flow what the operator did. This neither starts a task nor
    /// ends one.
    fn handle(&mut self, event: PageEvent)
        ensures
            final(self).busy() == old(self).busy(),
    ;

    /// The title of the flow.
    fn get_title(&self) -> (title: String)
    ;
}

} // verus!
