//! The flow that installs the firmware of a system processor: choose a
//! release and the revision of the board, download the firmware file for it,
//! then choose a device and copy the file onto it, as often as the operator
//! likes.

use crate::error::{plain_error, ErrorKind, ErrorModel, WizardError};
use crate::github::{AssetModel, GithubRelease, GithubReleaseAsset, ReleaseModel};
use crate::pages::{
    after_report, choose_drive_frame, choose_version_frame, delivered_finish, delivered_path,
    drive_selected, drives_forgotten, empty_session, frame_view, version_selected, Frame,
    FrameModel, Page, PageEvent, PageReport, Session, SessionModel, TaskRequest,
    TaskRequestModel,
};
use crate::text::{
    ends_with, starts_with, strip_leading, strip_trailing, without_leading, without_trailing,
};
use vstd::prelude::*;
use vstd::string::StringExecFns;

verus! {

/// The steps of the flow, in the order in which they are first visited.
#[derive(Clone, Copy, PartialEq, Eq, Structural, Debug)]
pub enum Step {
    ChooseVersion,
    ChooseBoardRevision,
    DownloadFirmware,
    ChooseDrive,
    InstallFirmware,
    PostInstall,
}

/// The state of the flow.
#[derive(Debug)]
pub struct SystemFirmwarePage {
    current_step: Step,
    session: Session,
    available_firmwares: Option<Vec<GithubReleaseAsset>>,
    selected_firmware: Option<GithubReleaseAsset>,
    firmware_path: Option<String>,
}

/// The mathematical content of a [`SystemFirmwarePage`].
pub ghost struct SystemFirmwareModel {
    pub step: Step,
    pub session: SessionModel,
    /// The firmware files of the chosen release, one for each board revision.
    pub available_firmwares: Option<Seq<AssetModel>>,
    /// The firmware file for the operator's board.
    pub selected_firmware: Option<AssetModel>,
    /// The local path of the downloaded firmware file.
    pub firmware_path: Option<Seq<char>>,
}

impl View for SystemFirmwarePage {
    type V = SystemFirmwareModel;

    closed spec fn view(&self) -> SystemFirmwareModel {
        SystemFirmwareModel {
            step: self.current_step,
            session: self.session@,
            available_firmwares: self.available_firmwares.deep_view(),
            selected_firmware: self.selected_firmware.deep_view(),
            firmware_path: self.firmware_path.deep_view(),
        }
    }
}

/// The owner of the repository that holds the firmware.
pub open spec fn repo_owner() -> Seq<char> {
    "gizmo-platform"@
}

/// The name of the repository that holds the firmware.
pub open spec fn repo_name() -> Seq<char> {
    "firmware"@
}

/// What the name of every firmware file begins with.
pub open spec fn firmware_prefix() -> Seq<char> {
    "gss-"@
}

/// What the name of every firmware file of the release with the given tag
/// ends with.
pub open spec fn firmware_suffix(tag_name: Seq<char>) -> Seq<char> {
    "-"@ + tag_name + ".uf2"@
}

/// Whether an asset of the release with the given tag is a firmware file: its
/// name begins and ends as the names of firmware files do.
pub open spec fn is_firmware_name(name: Seq<char>, tag_name: Seq<char>) -> bool {
    firmware_prefix().is_prefix_of(name) && firmware_suffix(tag_name).is_suffix_of(name)
}

/// The firmware files among the assets of a release, in their order.
pub open spec fn firmware_files(release: ReleaseModel) -> Seq<AssetModel> {
    release.assets.filter(|asset: AssetModel| is_firmware_name(asset.name, release.tag_name))
}

/// The board revision that a firmware file is for: its name without what the
/// names of the firmware files of the release begin and end with.
pub open spec fn board_revision_text(name: Seq<char>, tag_name: Seq<char>) -> Seq<char> {
    without_trailing(without_leading(name, firmware_prefix()), firmware_suffix(tag_name))
}

/// Computes [`firmware_suffix`].
fn suffix_for(tag_name: &str) -> (suffix: String)
    ensures
        suffix@ == firmware_suffix(tag_name@),
{
    String::from_str("-").concat(tag_name).concat(".uf2")
}

/// The firmware files among the assets of a release, in their order.
pub fn firmware_assets(release: &GithubRelease) -> (files: Vec<GithubReleaseAsset>)
    ensures
        files.deep_view() == firmware_files(release@),
{
    let suffix = suffix_for(release.tag_name.as_str());
    let mut files: Vec<GithubReleaseAsset> = Vec::new();
    let mut i: usize = 0;
    proof {
        reveal(Seq::filter);
    }
    while i < release.assets.len()
        invariant
            i <= release.assets.len(),
            suffix@ == firmware_suffix(release@.tag_name),
            files.deep_view() == release@.assets.take(i as int).filter(
                |asset: AssetModel| is_firmware_name(asset.name, release@.tag_name),
            ),
        decreases release.assets.len() - i,
    {
        let ghost taken = release@.assets.take(i + 1);
        proof {
            reveal(Seq::filter);
            assert(taken.drop_last() =~= release@.assets.take(i as int));
        }
        let name = release.assets[i].name.as_str();
        if starts_with(name, "gss-") && ends_with(name, suffix.as_str()) {
            files.push(release.assets[i].clone());
        }
        i += 1;
    }
    proof {
        assert(release@.assets.take(i as int) =~= release@.assets);
    }
    files
}

/// The board revision that a firmware file of the release with the given tag
/// is for, as it is shown to the operator.
pub fn board_revision(asset_name: &str, tag_name: &str) -> (text: String)
    ensures
        text@ == board_revision_text(asset_name@, tag_name@),
{
    let suffix = suffix_for(tag_name);
    String::from_str(strip_trailing(strip_leading(asset_name, "gss-"), suffix.as_str()))
}

/// The flow as it begins: at its first step, with nothing known.
pub open spec fn initial() -> SystemFirmwareModel {
    SystemFirmwareModel {
        step: Step::ChooseVersion,
        session: empty_session(),
        available_firmwares: None,
        selected_firmware: None,
        firmware_path: None,
    }
}

/// One frame of the choice of the board revision.
///
/// As long as no drives are known and a release is chosen, the firmware files
/// on offer are those of the chosen release. No task is involved.
pub open spec fn choose_board_revision_frame(pre: SystemFirmwareModel) -> SystemFirmwareModel {
    match pre.session.software_version {
        Some(release) if pre.session.available_drives is None => SystemFirmwareModel {
            available_firmwares: Some(firmware_files(release)),
            ..pre
        },
        _ => pre,
    }
}

/// One frame of the download step.
///
/// While no firmware file is stored and no task is outstanding, the download
/// of the chosen firmware file is requested; it is an error if no release or
/// no firmware file is chosen. Otherwise the task is polled, and a path that
/// it delivers is stored. With a firmware file stored the flow goes on to the
/// choice of a device.
pub open spec fn download_firmware_frame(pre: SystemFirmwareModel, report: PageReport) -> (
    SystemFirmwareModel,
    FrameModel,
) {
    if pre.firmware_path is None && !pre.session.busy {
        if pre.session.software_version is None {
            (pre, Err(plain_error(ErrorKind::MissingSoftwareVersion)))
        } else if pre.selected_firmware is None {
            (pre, Err(plain_error(ErrorKind::MissingSelectedFirmware)))
        } else {
            (
                SystemFirmwareModel { session: SessionModel { busy: true, ..pre.session }, ..pre },
                Ok(
                    Some(
                        TaskRequestModel::DownloadAsset {
                            asset: pre.selected_firmware->0,
                            repo_owner: repo_owner(),
                            repo_name: repo_name(),
                            release: pre.session.software_version->0,
                        },
                    ),
                ),
            )
        }
    } else {
        let heard = SystemFirmwareModel { session: after_report(pre.session, report), ..pre };
        match delivered_path(pre.session.busy, report) {
            Err(error) => (heard, Err(error)),
            Ok(Some(path)) => (
                SystemFirmwareModel { firmware_path: Some(path), step: Step::ChooseDrive, ..heard },
                Ok(None),
            ),
            Ok(None) => if pre.firmware_path is Some {
                (SystemFirmwareModel { step: Step::ChooseDrive, ..heard }, Ok(None))
            } else {
                (heard, Ok(None))
            },
        }
    }
}

/// One frame of the install step.
///
/// While no task is outstanding, the copy of the firmware file onto the chosen
/// device is requested; it is an error if the file or the device is missing.
/// Otherwise the task is polled: once it is done the flow goes on to its last
/// step.
pub open spec fn install_firmware_frame(pre: SystemFirmwareModel, report: PageReport) -> (
    SystemFirmwareModel,
    FrameModel,
) {
    if !pre.session.busy {
        if pre.firmware_path is None {
            (pre, Err(plain_error(ErrorKind::MissingFirmwarePath)))
        } else if pre.session.selected_drive is None {
            (pre, Err(plain_error(ErrorKind::MissingSelectedDrive)))
        } else {
            (
                SystemFirmwareModel {
                    session: SessionModel { busy: true, ..pre.session },
                    ..pre
                },
                Ok(
                    Some(
                        TaskRequestModel::CopyFirmware {
                            firmware_path: pre.firmware_path->0,
                            drive: pre.session.selected_drive->0,
                        },
                    ),
                ),
            )
        }
    } else {
        let heard = SystemFirmwareModel { session: after_report(pre.session, report), ..pre };
        match delivered_finish(pre.session.busy, report) {
            Err(error) => (heard, Err(error)),
            Ok(true) => (SystemFirmwareModel { step: Step::PostInstall, ..heard }, Ok(None)),
            Ok(false) => (heard, Ok(None)),
        }
    }
}

/// One frame of the flow: that of its current step. The last step, at which
/// the operator only reads, leaves the flow as it is.
pub open spec fn frame(pre: SystemFirmwareModel, report: PageReport) -> (
    SystemFirmwareModel,
    FrameModel,
) {
    match pre.step {
        Step::ChooseVersion => {
            let (session, outcome) = choose_version_frame(
                pre.session,
                repo_owner(),
                repo_name(),
                report,
            );
            (SystemFirmwareModel { session, ..pre }, outcome)
        },
        Step::ChooseBoardRevision => (choose_board_revision_frame(pre), Ok(None)),
        Step::DownloadFirmware => download_firmware_frame(pre, report),
        Step::ChooseDrive => {
            let (session, outcome) = choose_drive_frame(pre.session, report);
            (SystemFirmwareModel { session, ..pre }, outcome)
        },
        Step::InstallFirmware => install_firmware_frame(pre, report),
        Step::PostInstall => (pre, Ok(None)),
    }
}

/// Whether the control that leads on from the current step is enabled: a
/// release is chosen, a firmware file is chosen, a device is chosen, or an
/// installation is complete.
pub open spec fn next_enabled(pre: SystemFirmwareModel) -> bool {
    match pre.step {
        Step::ChooseVersion => pre.session.software_version is Some,
        Step::ChooseBoardRevision => pre.selected_firmware is Some,
        Step::DownloadFirmware => false,
        Step::ChooseDrive => pre.session.selected_drive is Some,
        Step::InstallFirmware => false,
        Step::PostInstall => true,
    }
}

/// The flow after the operator has asked to go on. Where that is not enabled
/// nothing changes. From the last step the flow goes back to the choice of a
/// device, with no device chosen or known.
pub open spec fn after_next(pre: SystemFirmwareModel) -> SystemFirmwareModel {
    if !next_enabled(pre) {
        pre
    } else {
        match pre.step {
            Step::ChooseVersion => SystemFirmwareModel { step: Step::ChooseBoardRevision, ..pre },
            Step::ChooseBoardRevision => SystemFirmwareModel {
                step: Step::DownloadFirmware,
                ..pre
            },
            Step::ChooseDrive => SystemFirmwareModel { step: Step::InstallFirmware, ..pre },
            Step::PostInstall => SystemFirmwareModel {
                step: Step::ChooseDrive,
                session: drives_forgotten(pre.session),
                ..pre
            },
            _ => pre,
        }
    }
}

/// Whether the current step shows a progress indicator in place of controls.
pub open spec fn loading(pre: SystemFirmwareModel) -> bool {
    match pre.step {
        Step::ChooseVersion => pre.session.available_releases is None,
        Step::ChooseBoardRevision => false,
        Step::DownloadFirmware => true,
        Step::ChooseDrive => pre.session.available_drives is None,
        Step::InstallFirmware => true,
        Step::PostInstall => false,
    }
}

impl SystemFirmwarePage {
    /// The flow at its first step, with nothing known.
    pub fn new() -> (page: Self)
        ensures
            page@ == initial(),
    {
        SystemFirmwarePage {
            current_step: Step::ChooseVersion,
            session: Session::new(),
            available_firmwares: None,
            selected_firmware: None,
            firmware_path: None,
        }
    }

    /// Puts the flow back to its first step, with nothing known.
    pub fn reset(&mut self)
        ensures
            final(self)@ == initial(),
    {
        *self = SystemFirmwarePage::new();
    }

    fn run_choose_version(&mut self, report: PageReport) -> (outcome: Frame)
        requires
            old(self)@.step == Step::ChooseVersion,
        ensures
            (final(self)@, frame_view(outcome)) == frame(old(self)@, report),
    {
        self.session.run_choose_version("gizmo-platform", "firmware", report)
    }

    fn run_choose_board_revision(&mut self) -> (outcome: Frame)
        requires
            old(self)@.step == Step::ChooseBoardRevision,
        ensures
            final(self)@ == choose_board_revision_frame(old(self)@),
            frame_view(outcome) == Ok::<Option<TaskRequestModel>, ErrorModel>(None),
    {
        if self.session.available_drives.is_none() {
            if let Some(release) = &self.session.software_version {
                self.available_firmwares = Some(firmware_assets(release));
            }
        }
        Ok(None)
    }

    fn run_download_firmware(&mut self, report: PageReport) -> (outcome: Frame)
        requires
            old(self)@.step == Step::DownloadFirmware,
        ensures
            (final(self)@, frame_view(outcome)) == frame(old(self)@, report),
    {
        if self.firmware_path.is_none() && self.session.task.is_empty() {
            let release = match &self.session.software_version {
                Some(release) => release.clone(),
                None => {
                    return Err(WizardError::new(ErrorKind::MissingSoftwareVersion));
                },
            };
            let asset = match &self.selected_firmware {
                Some(asset) => asset.clone(),
                None => {
                    return Err(WizardError::new(ErrorKind::MissingSelectedFirmware));
                },
            };
            return self.session.begin(
                TaskRequest::DownloadAsset {
                    asset,
                    repo_owner: String::from_str("gizmo-platform"),
                    repo_name: String::from_str("firmware"),
                    release,
                },
            );
        }
        match self.session.expect_path(report) {
            Err(error) => {
                return Err(error);
            },
            Ok(Some(path)) => {
                self.firmware_path = Some(path);
            },
            Ok(None) => {},
        }
        if self.firmware_path.is_some() {
            self.current_step = Step::ChooseDrive;
        }
        Ok(None)
    }

    fn run_choose_drive(&mut self, report: PageReport) -> (outcome: Frame)
        requires
            old(self)@.step == Step::ChooseDrive,
        ensures
            (final(self)@, frame_view(outcome)) == frame(old(self)@, report),
    {
        self.session.run_choose_drive(report)
    }

    fn run_install_firmware(&mut self, report: PageReport) -> (outcome: Frame)
        requires
            old(self)@.step == Step::InstallFirmware,
        ensures
            (final(self)@, frame_view(outcome)) == frame(old(self)@, report),
    {
        if self.session.task.is_empty() {
            let firmware_path = match &self.firmware_path {
                Some(path) => path.clone(),
                None => {
                    return Err(WizardError::new(ErrorKind::MissingFirmwarePath));
                },
            };
            let drive = match &self.session.selected_drive {
                Some(drive) => drive.clone(),
                None => {
                    return Err(WizardError::new(ErrorKind::MissingSelectedDrive));
                },
            };
            return self.session.begin(TaskRequest::CopyFirmware { firmware_path, drive });
        }
        match self.session.expect_finish(report) {
            Err(error) => Err(error),
            Ok(true) => {
                self.current_step = Step::PostInstall;
                Ok(None)
            },
            Ok(false) => Ok(None),
        }
    }

    /// The operator asks to go on from the current step. Says whether that
    /// was enabled; if not, nothing has changed.
    pub fn next(&mut self) -> (advanced: bool)
        ensures
            advanced == next_enabled(old(self)@),
            final(self)@ == after_next(old(self)@),
    {
        match self.current_step {
            Step::ChooseVersion => {
                if self.session.software_version.is_some() {
                    self.current_step = Step::ChooseBoardRevision;
                    return true;
                }
                false
            },
            Step::ChooseBoardRevision => {
                if self.selected_firmware.is_some() {
                    self.current_step = Step::DownloadFirmware;
                    return true;
                }
                false
            },
            Step::ChooseDrive => {
                if self.session.selected_drive.is_some() {
                    self.current_step = Step::InstallFirmware;
                    return true;
                }
                false
            },
            Step::PostInstall => {
                self.session.forget_drives();
                self.current_step = Step::ChooseDrive;
                true
            },
            _ => false,
        }
    }

    /// Whether the control that leads on from the current step is enabled.
    pub fn is_next_enabled(&self) -> (enabled: bool)
        ensures
            enabled == next_enabled(self@),
    {
        match self.current_step {
            Step::ChooseVersion => self.session.software_version.is_some(),
            Step::ChooseBoardRevision => self.selected_firmware.is_some(),
            Step::ChooseDrive => self.session.selected_drive.is_some(),
            Step::PostInstall => true,
            _ => false,
        }
    }

    /// Whether the current step shows a progress indicator in place of
    /// controls.
    pub fn is_loading(&self) -> (busy: bool)
        ensures
            busy == loading(self@),
    {
        match self.current_step {
            Step::ChooseVersion => self.session.available_releases.is_none(),
            Step::ChooseBoardRevision => false,
            Step::DownloadFirmware => true,
            Step::ChooseDrive => self.session.available_drives.is_none(),
            Step::InstallFirmware => true,
            Step::PostInstall => false,
        }
    }

    /// The operator picks the release at `index` of the list on offer. This
    /// has an effect at the choice of a release only.
    pub fn select_version(&mut self, index: usize)
        ensures
            final(self)@ == if old(self)@.step == Step::ChooseVersion {
                SystemFirmwareModel {
                    session: version_selected(old(self)@.session, index as int),
                    ..old(self)@
                }
            } else {
                old(self)@
            },
    {
        if let Step::ChooseVersion = self.current_step {
            self.session.select_version(index);
        }
    }

    /// The operator picks the firmware file at `index` of the list on offer.
    /// This has an effect at the choice of the board revision, where there is
    /// a file at `index`.
    pub fn select_firmware(&mut self, index: usize)
        ensures
            final(self)@ == firmware_selected(old(self)@, index as int),
    {
        if let Step::ChooseBoardRevision = self.current_step {
            if let Some(files) = &self.available_firmwares {
                if index < files.len() {
                    self.selected_firmware = Some(files[index].clone());
                }
            }
        }
    }

    /// Whether the firmware file at `index` of the list on offer is the chosen
    /// one: whether it has the chosen one's name and address.
    pub fn is_firmware_selected(&self, index: usize) -> (selected: bool)
        ensures
            selected <==> {
                &&& self@.available_firmwares matches Some(files)
                &&& self@.selected_firmware matches Some(chosen)
                &&& index < files.len()
                &&& files[index as int] == chosen
            },
    {
        match (&self.available_firmwares, &self.selected_firmware) {
            (Some(files), Some(chosen)) => index < files.len() && files[index] == *chosen,
            _ => false,
        }
    }

    /// The operator picks the device at `index` of the list on offer. This has
    /// an effect at the choice of a device only.
    pub fn select_drive(&mut self, index: usize)
        ensures
            final(self)@ == if old(self)@.step == Step::ChooseDrive {
                SystemFirmwareModel {
                    session: drive_selected(old(self)@.session, index as int),
                    ..old(self)@
                }
            } else {
                old(self)@
            },
    {
        if let Step::ChooseDrive = self.current_step {
            self.session.select_drive(index);
        }
    }

    /// The operator asks for the devices to be listed anew. This has an
    /// effect at the choice of a device, once devices are known: they are
    /// forgotten, and so is the chosen one.
    pub fn refresh_drives(&mut self)
        ensures
            final(self)@ == if old(self)@.step == Step::ChooseDrive
                && old(self)@.session.available_drives is Some {
                SystemFirmwareModel {
                    session: drives_forgotten(old(self)@.session),
                    ..old(self)@
                }
            } else {
                old(self)@
            },
    {
        if let Step::ChooseDrive = self.current_step {
            if self.session.available_drives.is_some() {
                self.session.forget_drives();
            }
        }
    }

    /// The current step.
    pub fn current_step(&self) -> (step: Step)
        ensures
            step == self@.step,
    {
        self.current_step
    }

    /// What the flow shares with the other flows.
    pub fn session(&self) -> (session: &Session)
        ensures
            session@ == self@.session,
    {
        &self.session
    }

    /// The firmware files on offer, once a release is chosen.
    pub fn available_firmwares(&self) -> (files: &Option<Vec<GithubReleaseAsset>>)
        ensures
            files.deep_view() == self@.available_firmwares,
    {
        &self.available_firmwares
    }

    /// The firmware file for the operator's board, once one is chosen.
    pub fn selected_firmware(&self) -> (file: &Option<GithubReleaseAsset>)
        ensures
            file.deep_view() == self@.selected_firmware,
    {
        &self.selected_firmware
    }

    /// The local path of the downloaded firmware file, once there is one.
    pub fn firmware_path(&self) -> (path: &Option<String>)
        ensures
            path.deep_view() == self@.firmware_path,
    {
        &self.firmware_path
    }
}

/// The flow with the firmware file at `index` chosen, at the choice of the
/// board revision and where there is a file at `index`; otherwise unchanged.
pub open spec fn firmware_selected(pre: SystemFirmwareModel, index: int) -> SystemFirmwareModel {
    match pre.available_firmwares {
        Some(files) if pre.step == Step::ChooseBoardRevision && 0 <= index < files.len() => SystemFirmwareModel {
            selected_firmware: Some(files[index]),
            ..pre
        },
        _ => pre,
    }
}

/// The flow after the operator has done something. What does not belong to
/// the current step changes nothing.
pub open spec fn after_event(pre: SystemFirmwareModel, event: PageEvent) -> SystemFirmwareModel {
    match event {
        PageEvent::Next => after_next(pre),
        PageEvent::SelectVersion(index) if pre.step == Step::ChooseVersion => SystemFirmwareModel {
            session: version_selected(pre.session, index as int),
            ..pre
        },
        PageEvent::SelectFirmware(index) => firmware_selected(pre, index as int),
        PageEvent::SelectDrive(index) if pre.step == Step::ChooseDrive => SystemFirmwareModel {
            session: drive_selected(pre.session, index as int),
            ..pre
        },
        PageEvent::RefreshDrives if pre.step == Step::ChooseDrive
            && pre.session.available_drives is Some => SystemFirmwareModel {
            session: drives_forgotten(pre.session),
            ..pre
        },
        _ => pre,
    }
}

impl Page for SystemFirmwarePage {
    open spec fn busy(&self) -> bool {
        self@.session.busy
    }

    fn run(&mut self, report: PageReport) -> (outcome: Frame)
        ensures
            (final(self)@, frame_view(outcome)) == frame(old(self)@, report),
    {
        match self.current_step {
            Step::ChooseVersion => self.run_choose_version(report),
            Step::ChooseBoardRevision => self.run_choose_board_revision(),
            Step::DownloadFirmware => self.run_download_firmware(report),
            Step::ChooseDrive => self.run_choose_drive(report),
            Step::InstallFirmware => self.run_install_firmware(report),
            Step::PostInstall => Ok(None),
        }
    }

    fn handle(&mut self, event: PageEvent)
        ensures
            final(self)@ == after_event(old(self)@, event),
    {
        match event {
            PageEvent::Next => {
                self.next();
            },
            PageEvent::SelectVersion(index) => self.select_version(index),
            PageEvent::SelectFirmware(index) => self.select_firmware(index),
            PageEvent::SelectDrive(index) => self.select_drive(index),
            PageEvent::RefreshDrives => self.refresh_drives(),
            PageEvent::EditTeamNumbers(_) => {},
        }
    }

    fn get_title(&self) -> (title: String)
        ensures
            title@ == "System Firmware Install"@,
    {
        String::from_str("System Firmware Install")
    }
}

/// A frame asks for a task only while none is outstanding, and the task is
/// outstanding from then on. With a task outstanding no frame asks for another.
pub proof fn lemma_request_needs_empty_slot(pre: SystemFirmwareModel, report: PageReport)
    ensures
        frame(pre, report).1 matches Ok(Some(_)) ==> !pre.session.busy && frame(
            pre,
            report,
        ).0.session.busy,
        pre.session.busy ==> !(frame(pre, report).1 matches Ok(Some(_))),
{
}

/// Once a frame has asked for a task, the frames that follow ask for none as
/// long as the worker is reported running, whatever the operator does in
/// between.
pub proof fn lemma_no_second_start(pre: SystemFirmwareModel, first: PageReport, event: PageEvent)
    requires
        frame(pre, first).1 matches Ok(Some(_)),
    ensures
        frame(frame(pre, first).0, PageReport::Running) == (
            frame(pre, first).0,
            Ok::<Option<TaskRequestModel>, ErrorModel>(None),
        ),
        after_event(frame(pre, first).0, event).session.busy,
        frame(after_event(frame(pre, first).0, event), PageReport::Running).1 == Ok::<
            Option<TaskRequestModel>,
            ErrorModel,
        >(None),
{
}

/// A task stops being outstanding only when a frame has heard that it ended:
/// with a result that the frame took, or as a failure.
pub proof fn lemma_slot_is_freed_by_a_result(pre: SystemFirmwareModel, report: PageReport)
    requires
        pre.session.busy,
        !frame(pre, report).0.session.busy,
    ensures
        crate::task::poll_result(true, report) is Ready || crate::task::poll_result(
            true,
            report,
        ) is Failed,
{
}

/// What a step has already obtained it does not ask for again.
pub proof fn lemma_known_results_are_not_requested(pre: SystemFirmwareModel, report: PageReport)
    ensures
        pre.step == Step::ChooseVersion && pre.session.available_releases is Some ==> !(frame(
            pre,
            report,
        ).1 matches Ok(Some(_))),
        pre.step == Step::ChooseBoardRevision ==> !(frame(pre, report).1 matches Ok(Some(_))),
        pre.step == Step::DownloadFirmware && pre.firmware_path is Some ==> !(frame(
            pre,
            report,
        ).1 matches Ok(Some(_))),
        pre.step == Step::ChooseDrive && pre.session.available_drives is Some ==> !(frame(
            pre,
            report,
        ).1 matches Ok(Some(_))),
{
}

/// After an installation, going on leads to the choice of a device with no
/// device chosen or known, and keeps the downloaded file.
pub proof fn lemma_another_device(pre: SystemFirmwareModel)
    requires
        pre.step == Step::PostInstall,
    ensures
        next_enabled(pre),
        after_next(pre).step == Step::ChooseDrive,
        after_next(pre).session.selected_drive is None,
        after_next(pre).session.available_drives is None,
        after_next(pre).firmware_path == pre.firmware_path,
{
}

} // verus!
