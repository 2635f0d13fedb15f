//! The flow that installs the default program on a student processor: choose
//! a release, download its program file, then choose a device and copy the
//! file onto it, as often as the operator likes.

use crate::error::{plain_error, ErrorKind, ErrorModel, WizardError};
use crate::github::{first_named, has_named};
use crate::pages::{
    after_report, choose_drive_frame, choose_version_frame, delivered_finish, delivered_path,
    drive_selected, drives_forgotten, empty_session, frame_view, version_selected, Frame,
    FrameModel, Page, PageEvent, PageReport, Session, SessionModel, TaskRequest,
    TaskRequestModel,
};
use vstd::prelude::*;
use vstd::string::StringExecFns;

verus! {

/// The steps of the flow, in the order in which they are first visited.
#[derive(Clone, Copy, PartialEq, Eq, Structural, Debug)]
pub enum Step {
    ChooseVersion,
    DownloadFirmware,
    ChooseDrive,
    InstallFirmware,
    PostInstall,
}

/// The state of the flow.
#[derive(Debug)]
pub struct StudentStarterCodePage {
    current_step: Step,
    session: Session,
    firmware_path: Option<String>,
}

/// The mathematical content of a [`StudentStarterCodePage`].
pub ghost struct StudentStarterCodeModel {
    pub step: Step,
    pub session: SessionModel,
    /// The local path of the downloaded program file.
    pub firmware_path: Option<Seq<char>>,
}

impl View for StudentStarterCodePage {
    type V = StudentStarterCodeModel;

    closed spec fn view(&self) -> StudentStarterCodeModel {
        StudentStarterCodeModel {
            step: self.current_step,
            session: self.session@,
            firmware_path: self.firmware_path.deep_view(),
        }
    }
}

/// The owner of the repository that holds the default program.
pub open spec fn repo_owner() -> Seq<char> {
    "gizmo-platform"@
}

/// The name of the repository that holds the default program.
pub open spec fn repo_name() -> Seq<char> {
    "CircuitPython_Gizmo"@
}

/// The name of the program file of the release with the given tag.
pub open spec fn program_name(tag_name: Seq<char>) -> Seq<char> {
    "best-default-program-"@ + tag_name + ".uf2"@
}

/// The flow as it begins: at its first step, with nothing known.
pub open spec fn initial() -> StudentStarterCodeModel {
    StudentStarterCodeModel {
        step: Step::ChooseVersion,
        session: empty_session(),
        firmware_path: None,
    }
}

/// One frame of the download step.
///
/// While no program file is stored and no task is outstanding, the download
/// of the program file of the chosen release is requested; it is an error if
/// no release is chosen or the release has no such file. Otherwise the task is
/// polled, and a path that it delivers is stored. With a program file stored
/// the flow goes on to the choice of a device.
pub open spec fn download_firmware_frame(pre: StudentStarterCodeModel, report: PageReport) -> (
    StudentStarterCodeModel,
    FrameModel,
) {
    if pre.firmware_path is None && !pre.session.busy {
        match pre.session.software_version {
            None => (pre, Err(plain_error(ErrorKind::MissingSoftwareVersion))),
            Some(release) => {
                let name = program_name(release.tag_name);
                if has_named(release.assets, name) {
                    (
                        StudentStarterCodeModel {
                            session: SessionModel { busy: true, ..pre.session },
                            ..pre
                        },
                        Ok(
                            Some(
                                TaskRequestModel::DownloadAsset {
                                    asset: release.assets[first_named(release.assets, name)],
                                    repo_owner: repo_owner(),
                                    repo_name: repo_name(),
                                    release,
                                },
                            ),
                        ),
                    )
                } else {
                    (pre, Err(ErrorModel { kind: ErrorKind::AssetNotFound, detail: name }))
                }
            },
        }
    } else {
        let heard = StudentStarterCodeModel { session: after_report(pre.session, report), ..pre };
        match delivered_path(pre.session.busy, report) {
            Err(error) => (heard, Err(error)),
            Ok(Some(path)) => (
                StudentStarterCodeModel {
                    firmware_path: Some(path),
                    step: Step::ChooseDrive,
                    ..heard
                },
                Ok(None),
            ),
            Ok(None) => if pre.firmware_path is Some {
                (StudentStarterCodeModel { step: Step::ChooseDrive, ..heard }, Ok(None))
            } else {
                (heard, Ok(None))
            },
        }
    }
}

/// One frame of the install step.
///
/// While no task is outstanding, the copy of the program file onto the chosen
/// device is requested; it is an error if the file or the device is missing.
/// Otherwise the task is polled: once it is done the flow goes on to its last
/// step.
pub open spec fn install_firmware_frame(pre: StudentStarterCodeModel, report: PageReport) -> (
    StudentStarterCodeModel,
    FrameModel,
) {
    if !pre.session.busy {
        if pre.firmware_path is None {
            (pre, Err(plain_error(ErrorKind::MissingFirmwarePath)))
        } else if pre.session.selected_drive is None {
            (pre, Err(plain_error(ErrorKind::MissingSelectedDrive)))
        } else {
            (
                StudentStarterCodeModel {
                    session: SessionModel { busy: true, ..pre.session },
                    ..pre
                },
                Ok(
                    Some(
                        TaskRequestModel::CopyFirmware {
                            firmware_path: pre.firmware_path->0,
                            drive: pre.session.selected_drive->0,
                        },
                    ),
                ),
            )
        }
    } else {
        let heard = StudentStarterCodeModel { session: after_report(pre.session, report), ..pre };
        match delivered_finish(pre.session.busy, report) {
            Err(error) => (heard, Err(error)),
            Ok(true) => (StudentStarterCodeModel { step: Step::PostInstall, ..heard }, Ok(None)),
            Ok(false) => (heard, Ok(None)),
        }
    }
}

/// One frame of the flow: that of its current step. The last step, at which
/// the operator only reads, leaves the flow as it is.
pub open spec fn frame(pre: StudentStarterCodeModel, report: PageReport) -> (
    StudentStarterCodeModel,
    FrameModel,
) {
    match pre.step {
        Step::ChooseVersion => {
            let (session, outcome) = choose_version_frame(
                pre.session,
                repo_owner(),
                repo_name(),
                report,
            );
            (StudentStarterCodeModel { session, ..pre }, outcome)
        },
        Step::DownloadFirmware => download_firmware_frame(pre, report),
        Step::ChooseDrive => {
            let (session, outcome) = choose_drive_frame(pre.session, report);
            (StudentStarterCodeModel { session, ..pre }, outcome)
        },
        Step::InstallFirmware => install_firmware_frame(pre, report),
        Step::PostInstall => (pre, Ok(None)),
    }
}

/// Whether the control that leads on from the current step is enabled: a
/// release is chosen, a device is chosen, or an installation is complete.
pub open spec fn next_enabled(pre: StudentStarterCodeModel) -> bool {
    match pre.step {
        Step::ChooseVersion => pre.session.software_version is Some,
        Step::DownloadFirmware => false,
        Step::ChooseDrive => pre.session.selected_drive is Some,
        Step::InstallFirmware => false,
        Step::PostInstall => true,
    }
}

/// The flow after the operator has asked to go on. Where that is not enabled
/// nothing changes. From the last step the flow goes back to the choice of a
/// device, with no device chosen or known.
pub open spec fn after_next(pre: StudentStarterCodeModel) -> StudentStarterCodeModel {
    if !next_enabled(pre) {
        pre
    } else {
        match pre.step {
            Step::ChooseVersion => StudentStarterCodeModel { step: Step::DownloadFirmware, ..pre },
            Step::ChooseDrive => StudentStarterCodeModel { step: Step::InstallFirmware, ..pre },
            Step::PostInstall => StudentStarterCodeModel {
                step: Step::ChooseDrive,
                session: drives_forgotten(pre.session),
                ..pre
            },
            _ => pre,
        }
    }
}

/// Whether the current step shows a progress indicator in place of controls.
pub open spec fn loading(pre: StudentStarterCodeModel) -> bool {
    match pre.step {
        Step::ChooseVersion => pre.session.available_releases is None,
        Step::DownloadFirmware => true,
        Step::ChooseDrive => pre.session.available_drives is None,
        Step::InstallFirmware => true,
        Step::PostInstall => false,
    }
}

impl StudentStarterCodePage {
    /// The flow at its first step, with nothing known.
    pub fn new() -> (page: Self)
        ensures
            page@ == initial(),
    {
        StudentStarterCodePage {
            current_step: Step::ChooseVersion,
            session: Session::new(),
            firmware_path: None,
        }
    }

    /// Puts the flow back to its first step, with nothing known.
    pub fn reset(&mut self)
        ensures
            final(self)@ == initial(),
    {
        *self = StudentStarterCodePage::new();
    }

    fn run_choose_version(&mut self, report: PageReport) -> (outcome: Frame)
        requires
            old(self)@.step == Step::ChooseVersion,
        ensures
            (final(self)@, frame_view(outcome)) == frame(old(self)@, report),
    {
        self.session.run_choose_version("gizmo-platform", "CircuitPython_Gizmo", report)
    }

    fn run_download_firmware(&mut self, report: PageReport) -> (outcome: Frame)
        requires
            old(self)@.step == Step::DownloadFirmware,
        ensures
            (final(self)@, frame_view(outcome)) == frame(old(self)@, report),
    {
        if self.firmware_path.is_none() && self.session.task.is_empty() {
            let release = match &self.session.software_version {
                Some(release) => release.clone(),
                None => {
                    return Err(WizardError::new(ErrorKind::MissingSoftwareVersion));
                },
            };
            let asset_name = String::from_str("best-default-program-").concat(
                release.tag_name.as_str(),
            ).concat(".uf2");
            let asset = match release.find_asset(asset_name.as_str()) {
                Some(asset) => asset.clone(),
                None => {
                    return Err(WizardError { kind: ErrorKind::AssetNotFound, detail: asset_name });
                },
            };
            return self.session.begin(
                TaskRequest::DownloadAsset {
                    asset,
                    repo_owner: String::from_str("gizmo-platform"),
                    repo_name: String::from_str("CircuitPython_Gizmo"),
                    release,
                },
            );
        }
        match self.session.expect_path(report) {
            Err(error) => {
                return Err(error);
            },
            Ok(Some(path)) => {
                self.firmware_path = Some(path);
            },
            Ok(None) => {},
        }
        if self.firmware_path.is_some() {
            self.current_step = Step::ChooseDrive;
        }
        Ok(None)
    }

    fn run_choose_drive(&mut self, report: PageReport) -> (outcome: Frame)
        requires
            old(self)@.step == Step::ChooseDrive,
        ensures
            (final(self)@, frame_view(outcome)) == frame(old(self)@, report),
    {
        self.session.run_choose_drive(report)
    }

    fn run_install_firmware(&mut self, report: PageReport) -> (outcome: Frame)
        requires
            old(self)@.step == Step::InstallFirmware,
        ensures
            (final(self)@, frame_view(outcome)) == frame(old(self)@, report),
    {
        if self.session.task.is_empty() {
            let firmware_path = match &self.firmware_path {
                Some(path) => path.clone(),
                None => {
                    return Err(WizardError::new(ErrorKind::MissingFirmwarePath));
                },
            };
            let drive = match &self.session.selected_drive {
                Some(drive) => drive.clone(),
                None => {
                    return Err(WizardError::new(ErrorKind::MissingSelectedDrive));
                },
            };
            return self.session.begin(TaskRequest::CopyFirmware { firmware_path, drive });
        }
        match self.session.expect_finish(report) {
            Err(error) => Err(error),
            Ok(true) => {
                self.current_step = Step::PostInstall;
                Ok(None)
            },
            Ok(false) => Ok(None),
        }
    }

    /// The operator asks to go on from the current step. Says whether that
    /// was enabled; if not, nothing has changed.
    pub fn next(&mut self) -> (advanced: bool)
        ensures
            advanced == next_enabled(old(self)@),
            final(self)@ == after_next(old(self)@),
    {
        match self.current_step {
            Step::ChooseVersion => {
                if self.session.software_version.is_some() {
                    self.current_step = Step::DownloadFirmware;
                    return true;
                }
                false
            },
            Step::ChooseDrive => {
                if self.session.selected_drive.is_some() {
                    self.current_step = Step::InstallFirmware;
                    return true;
                }
                false
            },
            Step::PostInstall => {
                self.session.forget_drives();
                self.current_step = Step::ChooseDrive;
                true
            },
            _ => false,
        }
    }

    /// Whether the control that leads on from the current step is enabled.
    pub fn is_next_enabled(&self) -> (enabled: bool)
        ensures
            enabled == next_enabled(self@),
    {
        match self.current_step {
            Step::ChooseVersion => self.session.software_version.is_some(),
            Step::ChooseDrive => self.session.selected_drive.is_some(),
            Step::PostInstall => true,
            _ => false,
        }
    }

    /// Whether the current step shows a progress indicator in place of
    /// controls.
    pub fn is_loading(&self) -> (busy: bool)
        ensures
            busy == loading(self@),
    {
        match self.current_step {
            Step::ChooseVersion => self.session.available_releases.is_none(),
            Step::DownloadFirmware => true,
            Step::ChooseDrive => self.session.available_drives.is_none(),
            Step::InstallFirmware => true,
            Step::PostInstall => false,
        }
    }

    /// The operator picks the release at `index` of the list on offer. This
    /// has an effect at the choice of a release only.
    pub fn select_version(&mut self, index: usize)
        ensures
            final(self)@ == if old(self)@.step == Step::ChooseVersion {
                StudentStarterCodeModel {
                    session: version_selected(old(self)@.session, index as int),
                    ..old(self)@
                }
            } else {
                old(self)@
            },
    {
        if let Step::ChooseVersion = self.current_step {
            self.session.select_version(index);
        }
    }

    /// The operator picks the device at `index` of the list on offer. This has
    /// an effect at the choice of a device only.
    pub fn select_drive(&mut self, index: usize)
        ensures
            final(self)@ == if old(self)@.step == Step::ChooseDrive {
                StudentStarterCodeModel {
                    session: drive_selected(old(self)@.session, index as int),
                    ..old(self)@
                }
            } else {
                old(self)@
            },
    {
        if let Step::ChooseDrive = self.current_step {
            self.session.select_drive(index);
        }
    }

    /// The operator asks for the devices to be listed anew. This has an
    /// effect at the choice of a device, once devices are known: they are
    /// forgotten, and so is the chosen one.
    pub fn refresh_drives(&mut self)
        ensures
            final(self)@ == if old(self)@.step == Step::ChooseDrive
                && old(self)@.session.available_drives is Some {
                StudentStarterCodeModel {
                    session: drives_forgotten(old(self)@.session),
                    ..old(self)@
                }
            } else {
                old(self)@
            },
    {
        if let Step::ChooseDrive = self.current_step {
            if self.session.available_drives.is_some() {
                self.session.forget_drives();
            }
        }
    }

    /// The current step.
    pub fn current_step(&self) -> (step: Step)
        ensures
            step == self@.step,
    {
        self.current_step
    }

    /// What the flow shares with the other flows.
    pub fn session(&self) -> (session: &Session)
        ensures
            session@ == self@.session,
    {
        &self.session
    }

    /// The local path of the downloaded program file, once there is one.
    pub fn firmware_path(&self) -> (path: &Option<String>)
        ensures
            path.deep_view() == self@.firmware_path,
    {
        &self.firmware_path
    }
}

/// The flow after the operator has done something. What does not belong to
/// the current step changes nothing.
pub open spec fn after_event(
    pre: StudentStarterCodeModel,
    event: PageEvent,
) -> StudentStarterCodeModel {
    match event {
        PageEvent::Next => after_next(pre),
        PageEvent::SelectVersion(index) if pre.step == Step::ChooseVersion => StudentStarterCodeModel {
            session: version_selected(pre.session, index as int),
            ..pre
        },
        PageEvent::SelectDrive(index) if pre.step == Step::ChooseDrive => StudentStarterCodeModel {
            session: drive_selected(pre.session, index as int),
            ..pre
        },
        PageEvent::RefreshDrives if pre.step == Step::ChooseDrive
            && pre.session.available_drives is Some => StudentStarterCodeModel {
            session: drives_forgotten(pre.session),
            ..pre
        },
        _ => pre,
    }
}

impl Page for StudentStarterCodePage {
    open spec fn busy(&self) -> bool {
        self@.session.busy
    }

    fn run(&mut self, report: PageReport) -> (outcome: Frame)
        ensures
            (final(self)@, frame_view(outcome)) == frame(old(self)@, report),
    {
        match self.current_step {
            Step::ChooseVersion => self.run_choose_version(report),
            Step::DownloadFirmware => self.run_download_firmware(report),
            Step::ChooseDrive => self.run_choose_drive(report),
            Step::InstallFirmware => self.run_install_firmware(report),
            Step::PostInstall => Ok(None),
        }
    }

    fn handle(&mut self, event: PageEvent)
        ensures
            final(self)@ == after_event(old(self)@, event),
    {
        match event {
            PageEvent::Next => {
                self.next();
            },
            PageEvent::SelectVersion(index) => self.select_version(index),
            PageEvent::SelectDrive(index) => self.select_drive(index),
            PageEvent::RefreshDrives => self.refresh_drives(),
            PageEvent::EditTeamNumbers(_) => {},
            PageEvent::SelectFirmware(_) => {},
        }
    }

    fn get_title(&self) -> (title: String)
        ensures
            title@ == "BEST Default Program Install"@,
    {
        String::from_str("BEST Default Program Install")
    }
}

/// A frame asks for a task only while none is outstanding, and the task is
/// outstanding from then on. With a task outstanding no frame asks for another.
pub proof fn lemma_request_needs_empty_slot(pre: StudentStarterCodeModel, report: PageReport)
    ensures
        frame(pre, report).1 matches Ok(Some(_)) ==> !pre.session.busy && frame(
            pre,
            report,
        ).0.session.busy,
        pre.session.busy ==> !(frame(pre, report).1 matches Ok(Some(_))),
{
}

/// Once a frame has asked for a task, the frames that follow ask for none as
/// long as the worker is reported running, whatever the operator does in
/// between.
pub proof fn lemma_no_second_start(pre: StudentStarterCodeModel, first: PageReport, event: PageEvent)
    requires
        frame(pre, first).1 matches Ok(Some(_)),
    ensures
        frame(frame(pre, first).0, PageReport::Running) == (
            frame(pre, first).0,
            Ok::<Option<TaskRequestModel>, ErrorModel>(None),
        ),
        after_event(frame(pre, first).0, event).session.busy,
        frame(after_event(frame(pre, first).0, event), PageReport::Running).1 == Ok::<
            Option<TaskRequestModel>,
            ErrorModel,
        >(None),
{
}

/// A task stops being outstanding only when a frame has heard that it ended:
/// with a result that the frame took, or as a failure.
pub proof fn lemma_slot_is_freed_by_a_result(pre: StudentStarterCodeModel, report: PageReport)
    requires
        pre.session.busy,
        !frame(pre, report).0.session.busy,
    ensures
        crate::task::poll_result(true, report) is Ready || crate::task::poll_result(
            true,
            report,
        ) is Failed,
{
}

/// What a step has already obtained it does not ask for again.
pub proof fn lemma_known_results_are_not_requested(pre: StudentStarterCodeModel, report: PageReport)
    ensures
        pre.step == Step::ChooseVersion && pre.session.available_releases is Some ==> !(frame(
            pre,
            report,
        ).1 matches Ok(Some(_))),
        pre.step == Step::DownloadFirmware && pre.firmware_path is Some ==> !(frame(
            pre,
            report,
        ).1 matches Ok(Some(_))),
        pre.step == Step::ChooseDrive && pre.session.available_drives is Some ==> !(frame(
            pre,
            report,
        ).1 matches Ok(Some(_))),
{
}

/// After an installation, going on leads to the choice of a device with no
/// device chosen or known, and keeps the downloaded file.
pub proof fn lemma_another_device(pre: StudentStarterCodeModel)
    requires
        pre.step == Step::PostInstall,
    ensures
        next_enabled(pre),
        after_next(pre).step == Step::ChooseDrive,
        after_next(pre).session.selected_drive is None,
        after_next(pre).session.available_drives is None,
        after_next(pre).firmware_path == pre.firmware_path,
{
}

} // verus!
