//! The flow that installs the driver station software: choose a release,
//! enter the team numbers, download the archive, then for each team choose a
//! card, install onto it and have it removed.

use crate::error::{plain_error, ErrorKind, ErrorModel, WizardError};
use crate::github::{first_named, has_named};
use crate::pages::{
    after_report, choose_drive_frame, choose_version_frame, delivered_finish, delivered_path,
    drive_selected, drives_forgotten, empty_session, frame_view, version_selected, Frame,
    FrameModel, Page, PageEvent, PageReport, Session, SessionModel, TaskRequest,
    TaskRequestModel,
};
use crate::text::{ascii_digit, is_ascii_digit, lines, lines_of};
use vstd::prelude::*;
use vstd::std_specs::iter::IteratorSpec;
use vstd::string::StringExecFns;

verus! {

/// The steps of the flow, in the order in which they are first visited.
#[derive(Clone, Copy, PartialEq, Eq, Structural, Debug)]
pub enum Step {
    ChooseVersion,
    EnterTeamNumbers,
    DownloadArchive,
    ChooseDrive,
    InstallSoftware,
    RemoveCard,
}

/// The state of the flow.
#[derive(Debug)]
pub struct DriverStationSetupPage {
    current_step: Step,
    session: Session,
    archive_path: Option<String>,
    team_numbers_text: String,
    team_numbers: Vec<String>,
    team_number_index: usize,
}

/// The mathematical content of a [`DriverStationSetupPage`].
pub ghost struct DriverStationModel {
    pub step: Step,
    pub session: SessionModel,
    /// The local path of the downloaded archive.
    pub archive_path: Option<Seq<char>>,
    /// The team numbers as the operator typed them.
    pub team_numbers_text: Seq<char>,
    /// The team numbers, one card each.
    pub team_numbers: Seq<Seq<char>>,
    /// The position of the team whose card is being made.
    pub team_number_index: int,
}

impl View for DriverStationSetupPage {
    type V = DriverStationModel;

    closed spec fn view(&self) -> DriverStationModel {
        DriverStationModel {
            step: self.current_step,
            session: self.session@,
            archive_path: self.archive_path.deep_view(),
            team_numbers_text: self.team_numbers_text@,
            team_numbers: self.team_numbers.deep_view(),
            team_number_index: self.team_number_index as int,
        }
    }
}

/// The owner of the repository that holds the driver station software.
pub open spec fn repo_owner() -> Seq<char> {
    "gizmo-platform"@
}

/// The name of the repository that holds the driver station software.
pub open spec fn repo_name() -> Seq<char> {
    "gizmo"@
}

/// The name of the asset that holds the driver station software.
pub open spec fn archive_name() -> Seq<char> {
    "ds-ramdisk.zip"@
}

/// Whether a text consists of digits and line feeds only.
pub open spec fn is_team_text(text: Seq<char>) -> bool {
    forall|i: int| 0 <= i < text.len() ==> is_ascii_digit(#[trigger] text[i]) || text[i] == '\n'
}

/// The lines that are not empty.
pub open spec fn nonempty_lines(all: Seq<Seq<char>>) -> Seq<Seq<char>> {
    all.filter(|line: Seq<char>| line.len() > 0)
}

/// The team numbers that a text holds: its lines that are not empty, if it
/// consists of digits and line feeds only, and none otherwise.
pub open spec fn team_numbers_of(text: Seq<char>) -> Seq<Seq<char>> {
    if is_team_text(text) {
        nonempty_lines(lines_of(text))
    } else {
        Seq::empty()
    }
}

/// Computes [`is_team_text`].
pub fn valid_team_text(text: &str) -> (valid: bool)
    ensures
        valid == is_team_text(text@),
{
    let mut rest = text.chars();
    let ghost mut seen: int = 0;
    loop
        invariant
            0 <= seen <= text@.len(),
            rest.remaining() == text@.skip(seen),
            forall|i: int|
                0 <= i < seen ==> is_ascii_digit(#[trigger] text@[i]) || text@[i] == '\n',
        ensures
            seen == text@.len(),
            forall|i: int|
                0 <= i < seen ==> is_ascii_digit(#[trigger] text@[i]) || text@[i] == '\n',
        decreases text@.len() - seen,
    {
        match rest.next() {
            Some(c) => {
                if !(ascii_digit(c) || c == '\n') {
                    return false;
                }
                proof {
                    seen = seen + 1;
                }
            },
            None => {
                break ;
            },
        }
    }
    true
}

/// Computes [`team_numbers_of`].
pub fn parse_team_numbers(text: &str) -> (numbers: Vec<String>)
    ensures
        numbers.deep_view() == team_numbers_of(text@),
{
    let mut numbers: Vec<String> = Vec::new();
    if !valid_team_text(text) {
        return numbers;
    }
    let all = lines(text);
    let mut i: usize = 0;
    proof {
        reveal(Seq::filter);
    }
    while i < all.len()
        invariant
            i <= all.len(),
            numbers.deep_view() == nonempty_lines(all.deep_view().take(i as int)),
        decreases all.len() - i,
    {
        let ghost taken = all.deep_view().take(i + 1);
        proof {
            reveal(Seq::filter);
            assert(taken.drop_last() =~= all.deep_view().take(i as int));
        }
        if all[i].as_str().unicode_len() > 0 {
            numbers.push(all[i].clone());
        }
        i += 1;
    }
    proof {
        assert(all.deep_view().take(i as int) =~= all.deep_view());
    }
    numbers
}

/// The flow as it begins: at its first step, with nothing known.
pub open spec fn initial() -> DriverStationModel {
    DriverStationModel {
        step: Step::ChooseVersion,
        session: empty_session(),
        archive_path: None,
        team_numbers_text: Seq::empty(),
        team_numbers: Seq::empty(),
        team_number_index: 0,
    }
}

/// One frame of the download step.
///
/// While no archive is stored and no task is outstanding, the download of the
/// archive of the chosen release is requested; it is an error if no release is
/// chosen or the release has no archive. Otherwise the task is polled: a path
/// is stored and the flow goes on to the choice of a drive.
pub open spec fn download_archive_frame(pre: DriverStationModel, report: PageReport) -> (
    DriverStationModel,
    FrameModel,
) {
    if pre.archive_path is None && !pre.session.busy {
        match pre.session.software_version {
            None => (pre, Err(plain_error(ErrorKind::MissingSoftwareVersion))),
            Some(release) => if has_named(release.assets, archive_name()) {
                (
                    DriverStationModel {
                        session: SessionModel { busy: true, ..pre.session },
                        ..pre
                    },
                    Ok(
                        Some(
                            TaskRequestModel::DownloadAsset {
                                asset: release.assets[first_named(release.assets, archive_name())],
                                repo_owner: repo_owner(),
                                repo_name: repo_name(),
                                release,
                            },
                        ),
                    ),
                )
            } else {
                (pre, Err(ErrorModel { kind: ErrorKind::AssetNotFound, detail: archive_name() }))
            },
        }
    } else {
        let heard = DriverStationModel { session: after_report(pre.session, report), ..pre };
        match delivered_path(pre.session.busy, report) {
            Err(error) => (heard, Err(error)),
            Ok(Some(path)) => (
                DriverStationModel { archive_path: Some(path), step: Step::ChooseDrive, ..heard },
                Ok(None),
            ),
            Ok(None) => (heard, Ok(None)),
        }
    }
}

/// One frame of the install step.
///
/// While no task is outstanding, the installation of the archive on the
/// chosen drive for the current team is requested; it is an error if the
/// archive, the drive or the team number is missing. Otherwise the task is
/// polled: once it is done the flow goes on to the removal of the card.
pub open spec fn install_software_frame(pre: DriverStationModel, report: PageReport) -> (
    DriverStationModel,
    FrameModel,
) {
    if !pre.session.busy {
        if pre.archive_path is None {
            (pre, Err(plain_error(ErrorKind::MissingArchivePath)))
        } else if pre.session.selected_drive is None {
            (pre, Err(plain_error(ErrorKind::MissingSelectedDrive)))
        } else if !(0 <= pre.team_number_index < pre.team_numbers.len()) {
            (pre, Err(plain_error(ErrorKind::MissingTeamNumber)))
        } else {
            (
                DriverStationModel { session: SessionModel { busy: true, ..pre.session }, ..pre },
                Ok(
                    Some(
                        TaskRequestModel::InstallArchive {
                            archive_path: pre.archive_path->0,
                            drive: pre.session.selected_drive->0,
                            team_number: pre.team_numbers[pre.team_number_index],
                        },
                    ),
                ),
            )
        }
    } else {
        let heard = DriverStationModel { session: after_report(pre.session, report), ..pre };
        match delivered_finish(pre.session.busy, report) {
            Err(error) => (heard, Err(error)),
            Ok(true) => (DriverStationModel { step: Step::RemoveCard, ..heard }, Ok(None)),
            Ok(false) => (heard, Ok(None)),
        }
    }
}

/// One frame of the flow: that of its current step. The steps at which the
/// operator types or only reads leave the flow as it is.
pub open spec fn frame(pre: DriverStationModel, report: PageReport) -> (
    DriverStationModel,
    FrameModel,
) {
    match pre.step {
        Step::ChooseVersion => {
            let (session, outcome) = choose_version_frame(
                pre.session,
                repo_owner(),
                repo_name(),
                report,
            );
            (DriverStationModel { session, ..pre }, outcome)
        },
        Step::EnterTeamNumbers => (pre, Ok(None)),
        Step::DownloadArchive => download_archive_frame(pre, report),
        Step::ChooseDrive => {
            let (session, outcome) = choose_drive_frame(pre.session, report);
            (DriverStationModel { session, ..pre }, outcome)
        },
        Step::InstallSoftware => install_software_frame(pre, report),
        Step::RemoveCard => (pre, Ok(None)),
    }
}

/// Whether the control that leads on from the current step is enabled: a
/// release is chosen, a team number is entered, a drive is chosen, or another
/// team is waiting for its card.
pub open spec fn next_enabled(pre: DriverStationModel) -> bool {
    match pre.step {
        Step::ChooseVersion => pre.session.software_version is Some,
        Step::EnterTeamNumbers => pre.team_numbers.len() > 0,
        Step::DownloadArchive => false,
        Step::ChooseDrive => pre.session.selected_drive is Some,
        Step::InstallSoftware => false,
        Step::RemoveCard => pre.team_number_index + 1 < pre.team_numbers.len(),
    }
}

/// The flow after the operator has asked to go on. Where that is not enabled
/// nothing changes. From the removal of a card the flow goes back to the
/// choice of a drive for the next team, with no drive chosen or known.
pub open spec fn after_next(pre: DriverStationModel) -> DriverStationModel {
    if !next_enabled(pre) {
        pre
    } else {
        match pre.step {
            Step::ChooseVersion => DriverStationModel { step: Step::EnterTeamNumbers, ..pre },
            Step::EnterTeamNumbers => DriverStationModel { step: Step::DownloadArchive, ..pre },
            Step::ChooseDrive => DriverStationModel { step: Step::InstallSoftware, ..pre },
            Step::RemoveCard => DriverStationModel {
                step: Step::ChooseDrive,
                team_number_index: pre.team_number_index + 1,
                session: drives_forgotten(pre.session),
                ..pre
            },
            _ => pre,
        }
    }
}

/// Whether the current step shows a progress indicator in place of controls:
/// it waits for releases, for a download, for drives or for an installation.
pub open spec fn loading(pre: DriverStationModel) -> bool {
    match pre.step {
        Step::ChooseVersion => pre.session.available_releases is None,
        Step::EnterTeamNumbers => false,
        Step::DownloadArchive => true,
        Step::ChooseDrive => pre.session.available_drives is None,
        Step::InstallSoftware => true,
        Step::RemoveCard => false,
    }
}

impl DriverStationSetupPage {
    /// The flow at its first step, with nothing known.
    pub fn new() -> (page: Self)
        ensures
            page@ == initial(),
    {
        let team_numbers: Vec<String> = Vec::new();
        assert(team_numbers.deep_view() =~= Seq::<Seq<char>>::empty());
        DriverStationSetupPage {
            current_step: Step::ChooseVersion,
            session: Session::new(),
            archive_path: None,
            team_numbers_text: String::new(),
            team_numbers,
            team_number_index: 0,
        }
    }

    /// Puts the flow back to its first step, with nothing known.
    pub fn reset(&mut self)
        ensures
            final(self)@ == initial(),
    {
        *self = DriverStationSetupPage::new();
    }

    fn run_choose_version(&mut self, report: PageReport) -> (outcome: Frame)
        requires
            old(self)@.step == Step::ChooseVersion,
        ensures
            (final(self)@, frame_view(outcome)) == frame(old(self)@, report),
    {
        self.session.run_choose_version("gizmo-platform", "gizmo", report)
    }

    fn run_download_archive(&mut self, report: PageReport) -> (outcome: Frame)
        requires
            old(self)@.step == Step::DownloadArchive,
        ensures
            (final(self)@, frame_view(outcome)) == frame(old(self)@, report),
    {
        if self.archive_path.is_none() && self.session.task.is_empty() {
            let release = match &self.session.software_version {
                Some(release) => release.clone(),
                None => {
                    return Err(WizardError::new(ErrorKind::MissingSoftwareVersion));
                },
            };
            let asset = match release.find_asset("ds-ramdisk.zip") {
                Some(asset) => asset.clone(),
                None => {
                    return Err(WizardError::with_detail(ErrorKind::AssetNotFound, "ds-ramdisk.zip"));
                },
            };
            return self.session.begin(
                TaskRequest::DownloadAsset {
                    asset,
                    repo_owner: String::from_str("gizmo-platform"),
                    repo_name: String::from_str("gizmo"),
                    release,
                },
            );
        }
        match self.session.expect_path(report) {
            Err(error) => Err(error),
            Ok(Some(path)) => {
                self.archive_path = Some(path);
                self.current_step = Step::ChooseDrive;
                Ok(None)
            },
            Ok(None) => Ok(None),
        }
    }

    fn run_choose_drive(&mut self, report: PageReport) -> (outcome: Frame)
        requires
            old(self)@.step == Step::ChooseDrive,
        ensures
            (final(self)@, frame_view(outcome)) == frame(old(self)@, report),
    {
        self.session.run_choose_drive(report)
    }

    fn run_install_software(&mut self, report: PageReport) -> (outcome: Frame)
        requires
            old(self)@.step == Step::InstallSoftware,
        ensures
            (final(self)@, frame_view(outcome)) == frame(old(self)@, report),
    {
        if self.session.task.is_empty() {
            let archive_path = match &self.archive_path {
                Some(path) => path.clone(),
                None => {
                    return Err(WizardError::new(ErrorKind::MissingArchivePath));
                },
            };
            let drive = match &self.session.selected_drive {
                Some(drive) => drive.clone(),
                None => {
                    return Err(WizardError::new(ErrorKind::MissingSelectedDrive));
                },
            };
            if self.team_number_index >= self.team_numbers.len() {
                return Err(WizardError::new(ErrorKind::MissingTeamNumber));
            }
            let team_number = self.team_numbers[self.team_number_index].clone();
            return self.session.begin(
                TaskRequest::InstallArchive { archive_path, drive, team_number },
            );
        }
        match self.session.expect_finish(report) {
            Err(error) => Err(error),
            Ok(true) => {
                self.current_step = Step::RemoveCard;
                Ok(None)
            },
            Ok(false) => Ok(None),
        }
    }

    /// The operator asks to go on from the current step. Says whether that
    /// was enabled; if not, nothing has changed.
    pub fn next(&mut self) -> (advanced: bool)
        ensures
            advanced == next_enabled(old(self)@),
            final(self)@ == after_next(old(self)@),
    {
        match self.current_step {
            Step::ChooseVersion => {
                if self.session.software_version.is_some() {
                    self.current_step = Step::EnterTeamNumbers;
                    return true;
                }
                false
            },
            Step::EnterTeamNumbers => {
                if self.team_numbers.len() > 0 {
                    self.current_step = Step::DownloadArchive;
                    return true;
                }
                false
            },
            Step::ChooseDrive => {
                if self.session.selected_drive.is_some() {
                    self.current_step = Step::InstallSoftware;
                    return true;
                }
                false
            },
            Step::RemoveCard => {
                if self.team_number_index < self.team_numbers.len()
                    && self.team_number_index + 1 < self.team_numbers.len() {
                    self.team_number_index = self.team_number_index + 1;
                    self.session.forget_drives();
                    self.current_step = Step::ChooseDrive;
                    return true;
                }
                false
            },
            _ => false,
        }
    }

    /// Whether the control that leads on from the current step is enabled.
    pub fn is_next_enabled(&self) -> (enabled: bool)
        ensures
            enabled == next_enabled(self@),
    {
        match self.current_step {
            Step::ChooseVersion => self.session.software_version.is_some(),
            Step::EnterTeamNumbers => self.team_numbers.len() > 0,
            Step::ChooseDrive => self.session.selected_drive.is_some(),
            Step::RemoveCard => self.team_number_index < self.team_numbers.len()
                && self.team_number_index + 1 < self.team_numbers.len(),
            _ => false,
        }
    }

    /// Whether the current step shows a progress indicator in place of
    /// controls.
    pub fn is_loading(&self) -> (busy: bool)
        ensures
            busy == loading(self@),
    {
        match self.current_step {
            Step::ChooseVersion => self.session.available_releases.is_none(),
            Step::EnterTeamNumbers => false,
            Step::DownloadArchive => true,
            Step::ChooseDrive => self.session.available_drives.is_none(),
            Step::InstallSoftware => true,
            Step::RemoveCard => false,
        }
    }

    /// The operator picks the release at `index` of the list on offer. This
    /// has an effect at the choice of a release only.
    pub fn select_version(&mut self, index: usize)
        ensures
            final(self)@ == if old(self)@.step == Step::ChooseVersion {
                DriverStationModel {
                    session: version_selected(old(self)@.session, index as int),
                    ..old(self)@
                }
            } else {
                old(self)@
            },
    {
        if let Step::ChooseVersion = self.current_step {
            self.session.select_version(index);
        }
    }

    /// The operator has typed `text` as the team numbers. This has an effect
    /// at the entry of the team numbers only. The text is kept as it is; the
    /// team numbers are those that it holds.
    pub fn edit_team_numbers(&mut self, text: &str)
        ensures
            final(self)@ == if old(self)@.step == Step::EnterTeamNumbers {
                DriverStationModel {
                    team_numbers_text: text@,
                    team_numbers: team_numbers_of(text@),
                    ..old(self)@
                }
            } else {
                old(self)@
            },
    {
        if let Step::EnterTeamNumbers = self.current_step {
            self.team_numbers_text = String::from_str(text);
            self.team_numbers = parse_team_numbers(text);
        }
    }

    /// The operator picks the drive at `index` of the list on offer. This has
    /// an effect at the choice of a drive only.
    pub fn select_drive(&mut self, index: usize)
        ensures
            final(self)@ == if old(self)@.step == Step::ChooseDrive {
                DriverStationModel {
                    session: drive_selected(old(self)@.session, index as int),
                    ..old(self)@
                }
            } else {
                old(self)@
            },
    {
        if let Step::ChooseDrive = self.current_step {
            self.session.select_drive(index);
        }
    }

    /// The operator asks for the drives to be listed anew. This has an effect
    /// at the choice of a drive, once drives are known: they are forgotten,
    /// and so is the chosen one.
    pub fn refresh_drives(&mut self)
        ensures
            final(self)@ == if old(self)@.step == Step::ChooseDrive
                && old(self)@.session.available_drives is Some {
                DriverStationModel { session: drives_forgotten(old(self)@.session), ..old(self)@ }
            } else {
                old(self)@
            },
    {
        if let Step::ChooseDrive = self.current_step {
            if self.session.available_drives.is_some() {
                self.session.forget_drives();
            }
        }
    }

    /// The current step.
    pub fn current_step(&self) -> (step: Step)
        ensures
            step == self@.step,
    {
        self.current_step
    }

    /// What the flow shares with the other flows.
    pub fn session(&self) -> (session: &Session)
        ensures
            session@ == self@.session,
    {
        &self.session
    }

    /// The local path of the downloaded archive, once there is one.
    pub fn archive_path(&self) -> (path: &Option<String>)
        ensures
            path.deep_view() == self@.archive_path,
    {
        &self.archive_path
    }

    /// The team numbers as the operator typed them.
    pub fn team_numbers_text(&self) -> (text: &String)
        ensures
            text@ == self@.team_numbers_text,
    {
        &self.team_numbers_text
    }

    /// The team numbers, one card each.
    pub fn team_numbers(&self) -> (numbers: &Vec<String>)
        ensures
            numbers.deep_view() == self@.team_numbers,
    {
        &self.team_numbers
    }

    /// The position of the team whose card is being made.
    pub fn team_number_index(&self) -> (index: usize)
        ensures
            index == self@.team_number_index,
    {
        self.team_number_index
    }

    /// The number of the team whose card is being made, if there is one.
    pub fn current_team_number(&self) -> (number: Option<&String>)
        ensures
            match number {
                Some(text) => self@.team_number_index < self@.team_numbers.len() && text@
                    == self@.team_numbers[self@.team_number_index],
                None => self@.team_number_index >= self@.team_numbers.len(),
            },
    {
        if self.team_number_index < self.team_numbers.len() {
            Some(&self.team_numbers[self.team_number_index])
        } else {
            None
        }
    }
}

/// The flow after the operator has done something. What does not belong to
/// the current step changes nothing.
pub open spec fn after_event(pre: DriverStationModel, event: PageEvent) -> DriverStationModel {
    match event {
        PageEvent::Next => after_next(pre),
        PageEvent::SelectVersion(index) if pre.step == Step::ChooseVersion => DriverStationModel {
            session: version_selected(pre.session, index as int),
            ..pre
        },
        PageEvent::EditTeamNumbers(text) if pre.step == Step::EnterTeamNumbers => DriverStationModel {
            team_numbers_text: text@,
            team_numbers: team_numbers_of(text@),
            ..pre
        },
        PageEvent::SelectDrive(index) if pre.step == Step::ChooseDrive => DriverStationModel {
            session: drive_selected(pre.session, index as int),
            ..pre
        },
        PageEvent::RefreshDrives if pre.step == Step::ChooseDrive
            && pre.session.available_drives is Some => DriverStationModel {
            session: drives_forgotten(pre.session),
            ..pre
        },
        _ => pre,
    }
}

impl Page for DriverStationSetupPage {
    open spec fn busy(&self) -> bool {
        self@.session.busy
    }

    fn run(&mut self, report: PageReport) -> (outcome: Frame)
        ensures
            (final(self)@, frame_view(outcome)) == frame(old(self)@, report),
    {
        match self.current_step {
            Step::ChooseVersion => self.run_choose_version(report),
            Step::EnterTeamNumbers => Ok(None),
            Step::DownloadArchive => self.run_download_archive(report),
            Step::ChooseDrive => self.run_choose_drive(report),
            Step::InstallSoftware => self.run_install_software(report),
            Step::RemoveCard => Ok(None),
        }
    }

    fn handle(&mut self, event: PageEvent)
        ensures
            final(self)@ == after_event(old(self)@, event),
    {
        match event {
            PageEvent::Next => {
                self.next();
            },
            PageEvent::SelectVersion(index) => self.select_version(index),
            PageEvent::EditTeamNumbers(text) => self.edit_team_numbers(text.as_str()),
            PageEvent::SelectDrive(index) => self.select_drive(index),
            PageEvent::RefreshDrives => self.refresh_drives(),
            PageEvent::SelectFirmware(_) => {},
        }
    }

    fn get_title(&self) -> (title: String)
        ensures
            title@ == "Driver Station Software Install"@,
    {
        String::from_str("Driver Station Software Install")
    }
}

/// A frame asks for a task only while none is outstanding, and the task is
/// outstanding from then on. With a task outstanding no frame asks for another.
pub proof fn lemma_request_needs_empty_slot(pre: DriverStationModel, report: PageReport)
    ensures
        frame(pre, report).1 matches Ok(Some(_)) ==> !pre.session.busy && frame(
            pre,
            report,
        ).0.session.busy,
        pre.session.busy ==> !(frame(pre, report).1 matches Ok(Some(_))),
{
}

/// Once a frame has asked for a task, the frames that follow ask for none as
/// long as the worker is reported running, whatever the operator does in
/// between.
pub proof fn lemma_no_second_start(pre: DriverStationModel, first: PageReport, event: PageEvent)
    requires
        frame(pre, first).1 matches Ok(Some(_)),
    ensures
        frame(frame(pre, first).0, PageReport::Running) == (
            frame(pre, first).0,
            Ok::<Option<TaskRequestModel>, ErrorModel>(None),
        ),
        after_event(frame(pre, first).0, event).session.busy,
        frame(after_event(frame(pre, first).0, event), PageReport::Running).1 == Ok::<
            Option<TaskRequestModel>,
            ErrorModel,
        >(None),
{
}

/// A task stops being outstanding only when a frame has heard that it ended:
/// with a result that the frame took, or as a failure.
pub proof fn lemma_slot_is_freed_by_a_result(pre: DriverStationModel, report: PageReport)
    requires
        pre.session.busy,
        !frame(pre, report).0.session.busy,
    ensures
        crate::task::poll_result(true, report) is Ready || crate::task::poll_result(
            true,
            report,
        ) is Failed,
{
}

/// What a step has already obtained it does not ask for again.
pub proof fn lemma_known_results_are_not_requested(pre: DriverStationModel, report: PageReport)
    ensures
        pre.step == Step::ChooseVersion && pre.session.available_releases is Some ==> !(frame(
            pre,
            report,
        ).1 matches Ok(Some(_))),
        pre.step == Step::DownloadArchive && pre.archive_path is Some ==> !(frame(
            pre,
            report,
        ).1 matches Ok(Some(_))),
        pre.step == Step::ChooseDrive && pre.session.available_drives is Some ==> !(frame(
            pre,
            report,
        ).1 matches Ok(Some(_))),
{
}

/// After a card has been made: while another team is waiting, going on leads
/// to the choice of a drive for the next team, with no drive chosen or known;
/// after the last team, going on is not on offer and changes nothing.
pub proof fn lemma_next_target(pre: DriverStationModel)
    requires
        pre.step == Step::RemoveCard,
    ensures
        next_enabled(pre) <==> pre.team_number_index + 1 < pre.team_numbers.len(),
        next_enabled(pre) ==> {
            &&& after_next(pre).step == Step::ChooseDrive
            &&& after_next(pre).team_number_index == pre.team_number_index + 1
            &&& after_next(pre).session.selected_drive is None
            &&& after_next(pre).session.available_drives is None
            &&& after_next(pre).team_numbers == pre.team_numbers
            &&& after_next(pre).archive_path == pre.archive_path
        },
        !next_enabled(pre) ==> after_next(pre) == pre,
{
}

} // verus!
