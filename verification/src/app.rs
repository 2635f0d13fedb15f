//! The installer as a whole: the launcher, the flow that is open, and the
//! error that has stopped it.
//!
//! While an error is set nothing moves: the open flow is neither advanced nor
//! told what the operator does, until the operator acknowledges the error or
//! starts over. Either way the installer is back where it began.

use crate::error::{ErrorModel, WizardError};
use crate::pages::driver_station_setup;
use crate::pages::driver_station_setup::{DriverStationModel, DriverStationSetupPage};
use crate::pages::student_starter_code;
use crate::pages::student_starter_code::{StudentStarterCodeModel, StudentStarterCodePage};
use crate::pages::system_firmware;
use crate::pages::system_firmware::{SystemFirmwareModel, SystemFirmwarePage};
use crate::pages::{
    frame_view, request_view, Frame, FrameModel, Page, PageEvent, PageReport, TaskRequest,
    TaskRequestModel,
};
use vstd::prelude::*;
use vstd::string::StringExecFns;

verus! {

/// The installation flows that the launcher offers.
#[derive(Clone, Copy, PartialEq, Eq, Structural, Debug)]
pub enum PageKind {
    DriverStation,
    SystemFirmware,
    StudentStarterCode,
}

/// A flow that is open.
#[derive(Debug)]
pub enum ActivePage {
    DriverStation(DriverStationSetupPage),
    SystemFirmware(SystemFirmwarePage),
    StudentStarterCode(StudentStarterCodePage),
}

/// The mathematical content of an [`ActivePage`].
pub ghost enum PageModel {
    DriverStation(DriverStationModel),
    SystemFirmware(SystemFirmwareModel),
    StudentStarterCode(StudentStarterCodeModel),
}

impl View for ActivePage {
    type V = PageModel;

    open spec fn view(&self) -> PageModel {
        match self {
            ActivePage::DriverStation(page) => PageModel::DriverStation(page@),
            ActivePage::SystemFirmware(page) => PageModel::SystemFirmware(page@),
            ActivePage::StudentStarterCode(page) => PageModel::StudentStarterCode(page@),
        }
    }
}

/// The flow of the given kind as it begins.
pub open spec fn fresh_page(kind: PageKind) -> PageModel {
    match kind {
        PageKind::DriverStation => PageModel::DriverStation(driver_station_setup::initial()),
        PageKind::SystemFirmware => PageModel::SystemFirmware(system_firmware::initial()),
        PageKind::StudentStarterCode => PageModel::StudentStarterCode(
            student_starter_code::initial(),
        ),
    }
}

/// One frame of an open flow: that of the flow it is.
pub open spec fn page_frame(pre: PageModel, report: PageReport) -> (PageModel, FrameModel) {
    match pre {
        PageModel::DriverStation(page) => {
            let (after, outcome) = driver_station_setup::frame(page, report);
            (PageModel::DriverStation(after), outcome)
        },
        PageModel::SystemFirmware(page) => {
            let (after, outcome) = system_firmware::frame(page, report);
            (PageModel::SystemFirmware(after), outcome)
        },
        PageModel::StudentStarterCode(page) => {
            let (after, outcome) = student_starter_code::frame(page, report);
            (PageModel::StudentStarterCode(after), outcome)
        },
    }
}

/// An open flow after the operator has done something.
pub open spec fn page_after_event(pre: PageModel, event: PageEvent) -> PageModel {
    match pre {
        PageModel::DriverStation(page) => PageModel::DriverStation(
            driver_station_setup::after_event(page, event),
        ),
        PageModel::SystemFirmware(page) => PageModel::SystemFirmware(
            system_firmware::after_event(page, event),
        ),
        PageModel::StudentStarterCode(page) => PageModel::StudentStarterCode(
            student_starter_code::after_event(page, event),
        ),
    }
}

/// Whether a task of an open flow is outstanding.
pub open spec fn page_busy(page: PageModel) -> bool {
    match page {
        PageModel::DriverStation(page) => page.session.busy,
        PageModel::SystemFirmware(page) => page.session.busy,
        PageModel::StudentStarterCode(page) => page.session.busy,
    }
}

impl ActivePage {
    /// The flow of the given kind at its first step, with nothing known.
    pub fn new(kind: PageKind) -> (page: ActivePage)
        ensures
            page@ == fresh_page(kind),
    {
        match kind {
            PageKind::DriverStation => ActivePage::DriverStation(DriverStationSetupPage::new()),
            PageKind::SystemFirmware => ActivePage::SystemFirmware(SystemFirmwarePage::new()),
            PageKind::StudentStarterCode => ActivePage::StudentStarterCode(
                StudentStarterCodePage::new(),
            ),
        }
    }

    /// Which flow this is.
    pub fn kind(&self) -> (kind: PageKind)
        ensures
            kind == match self@ {
                PageModel::DriverStation(_) => PageKind::DriverStation,
                PageModel::SystemFirmware(_) => PageKind::SystemFirmware,
                PageModel::StudentStarterCode(_) => PageKind::StudentStarterCode,
            },
    {
        match self {
            ActivePage::DriverStation(_) => PageKind::DriverStation,
            ActivePage::SystemFirmware(_) => PageKind::SystemFirmware,
            ActivePage::StudentStarterCode(_) => PageKind::StudentStarterCode,
        }
    }
}

impl Page for ActivePage {
    open spec fn busy(&self) -> bool {
        page_busy(self@)
    }

    fn run(&mut self, report: PageReport) -> (outcome: Frame)
        ensures
            (final(self)@, frame_view(outcome)) == page_frame(old(self)@, report),
    {
        match self {
            ActivePage::DriverStation(page) => page.run(report),
            ActivePage::SystemFirmware(page) => page.run(report),
            ActivePage::StudentStarterCode(page) => page.run(report),
        }
    }

    fn handle(&mut self, event: PageEvent)
        ensures
            final(self)@ == page_after_event(old(self)@, event),
    {
        match self {
            ActivePage::DriverStation(page) => page.handle(event),
            ActivePage::SystemFirmware(page) => page.handle(event),
            ActivePage::StudentStarterCode(page) => page.handle(event),
        }
    }

    fn get_title(&self) -> (title: String)
        ensures
            title@ == match self@ {
                PageModel::DriverStation(_) => "Driver Station Software Install"@,
                PageModel::SystemFirmware(_) => "System Firmware Install"@,
                PageModel::StudentStarterCode(_) => "BEST Default Program Install"@,
            },
    {
        match self {
            ActivePage::DriverStation(page) => page.get_title(),
            ActivePage::SystemFirmware(page) => page.get_title(),
            ActivePage::StudentStarterCode(page) => page.get_title(),
        }
    }
}

/// What a frame of the installer shows.
#[derive(Clone, Copy, PartialEq, Eq, Structural, Debug)]
pub enum Screen {
    /// The launcher, which offers the flows.
    Launcher,
    /// The current step of the open flow.
    Step,
    /// The error that has stopped the open flow.
    Error,
}

/// The installer.
#[derive(Debug)]
pub struct MyApp {
    current_page: Option<ActivePage>,
    page_error: Option<WizardError>,
}

/// The mathematical content of a [`MyApp`].
pub ghost struct AppModel {
    /// The open flow, if one is open.
    pub page: Option<PageModel>,
    /// The error that has stopped the open flow, if one has.
    pub error: Option<ErrorModel>,
}

impl View for MyApp {
    type V = AppModel;

    closed spec fn view(&self) -> AppModel {
        AppModel {
            page: match self.current_page {
                Some(page) => Some(page@),
                None => None,
            },
            error: match self.page_error {
                Some(error) => Some(error@),
                None => None,
            },
        }
    }
}

/// The installer as it begins: at the launcher, with no flow open and no
/// error.
pub open spec fn launcher() -> AppModel {
    AppModel { page: None, error: None }
}

/// The screen that the installer shows.
pub open spec fn screen_of(app: AppModel) -> Screen {
    if app.page is None {
        Screen::Launcher
    } else if app.error is Some {
        Screen::Error
    } else {
        Screen::Step
    }
}

/// One frame of the installer. At the launcher, and while an error is set,
/// nothing moves. Otherwise the open flow is advanced by one frame; an error
/// that this yields is set, and asks for no task.
pub open spec fn app_frame(pre: AppModel, report: PageReport) -> (
    AppModel,
    Option<TaskRequestModel>,
) {
    match pre.page {
        Some(page) if pre.error is None => {
            let (after, outcome) = page_frame(page, report);
            match outcome {
                Ok(request) => (AppModel { page: Some(after), ..pre }, request),
                Err(error) => (AppModel { page: Some(after), error: Some(error) }, None),
            }
        },
        _ => (pre, None),
    }
}

/// The installer after the operator has done something in the open flow. At
/// the launcher, and while an error is set, nothing changes.
pub open spec fn app_after_event(pre: AppModel, event: PageEvent) -> AppModel {
    match pre.page {
        Some(page) if pre.error is None => AppModel {
            page: Some(page_after_event(page, event)),
            ..pre
        },
        _ => pre,
    }
}

/// The installer after the operator has picked a flow at the launcher. With a
/// flow open nothing changes.
pub open spec fn app_after_open(pre: AppModel, kind: PageKind) -> AppModel {
    if pre.page is None {
        AppModel { page: Some(fresh_page(kind)), ..pre }
    } else {
        pre
    }
}

/// The installer after an operation of the caller has failed. The error is
/// set if a flow is open and no error is set yet.
pub open spec fn app_after_failure(pre: AppModel, error: ErrorModel) -> AppModel {
    if pre.page is Some && pre.error is None {
        AppModel { error: Some(error), ..pre }
    } else {
        pre
    }
}

impl MyApp {
    /// The installer at the launcher, with no flow open and no error.
    pub fn new() -> (app: MyApp)
        ensures
            app@ == launcher(),
    {
        MyApp { current_page: None, page_error: None }
    }

    /// Advances the installer by one frame. `report` is what the caller has
    /// seen of its worker since the last frame. The result is the screen to
    /// show and the task that the caller is to start now, if any.
    pub fn update(&mut self, report: PageReport) -> (shown: (Screen, Option<TaskRequest>))
        ensures
            final(self)@ == app_frame(old(self)@, report).0,
            shown.0 == screen_of(final(self)@),
            request_view(shown.1) == app_frame(old(self)@, report).1,
    {
        if self.page_error.is_some() {
            return (self.screen(), None);
        }
        match &mut self.current_page {
            None => (Screen::Launcher, None),
            Some(page) => match page.run(report) {
                Ok(request) => (Screen::Step, request),
                Err(error) => {
                    self.page_error = Some(error);
                    (Screen::Error, None)
                },
            },
        }
    }

    /// The screen that the installer shows.
    pub fn screen(&self) -> (shown: Screen)
        ensures
            shown == screen_of(self@),
    {
        if self.current_page.is_none() {
            Screen::Launcher
        } else if self.page_error.is_some() {
            Screen::Error
        } else {
            Screen::Step
        }
    }

    /// The operator picks a flow at the launcher.
    pub fn open_page(&mut self, kind: PageKind)
        ensures
            final(self)@ == app_after_open(old(self)@, kind),
    {
        if self.current_page.is_none() {
            self.current_page = Some(ActivePage::new(kind));
        }
    }

    /// Tells the open flow what the operator did.
    pub fn handle(&mut self, event: PageEvent)
        ensures
            final(self)@ == app_after_event(old(self)@, event),
    {
        if self.page_error.is_none() {
            match &mut self.current_page {
                Some(page) => page.handle(event),
                None => {},
            }
        }
    }

    /// Records that an operation of the caller has failed, so that the open
    /// flow stops with this error.
    pub fn fail(&mut self, error: WizardError)
        ensures
            final(self)@ == app_after_failure(old(self)@, error@),
    {
        if self.current_page.is_some() && self.page_error.is_none() {
            self.page_error = Some(error);
        }
    }

    /// The operator acknowledges the error. The installer is back at the
    /// launcher, with no flow open and no error.
    pub fn acknowledge_error(&mut self)
        ensures
            final(self)@ == launcher(),
    {
        self.page_error = None;
        self.current_page = None;
    }

    /// The operator starts over. The installer is back at the launcher, with
    /// no flow open and no error, whatever it was doing.
    pub fn reset(&mut self)
        ensures
            final(self)@ == launcher(),
    {
        self.page_error = None;
        self.current_page = None;
    }

    /// The open flow, if one is open.
    pub fn current_page(&self) -> (page: &Option<ActivePage>)
        ensures
            match *page {
                Some(open) => self@.page == Some(open@),
                None => self@.page is None,
            },
    {
        &self.current_page
    }

    /// The error that has stopped the open flow, if one has.
    pub fn page_error(&self) -> (error: &Option<WizardError>)
        ensures
            match *error {
                Some(set) => self@.error == Some(set@),
                None => self@.error is None,
            },
    {
        &self.page_error
    }

    /// The text of the error screen: the message of the error, or a notice
    /// that there is none.
    pub fn error_text(&self) -> (text: String)
        ensures
            text@ == match self@.error {
                Some(error) => crate::error::message_text(error.kind, error.detail),
                None => "No error information found."@,
            },
    {
        match &self.page_error {
            Some(error) => error.message(),
            None => String::from_str("No error information found."),
        }
    }
}

/// While an error is set, no frame moves the installer or asks for a task,
/// and nothing that the operator does in the flow changes it.
pub proof fn lemma_error_freezes(pre: AppModel, report: PageReport, event: PageEvent)
    requires
        pre.error is Some,
    ensures
        app_frame(pre, report) == (pre, None::<TaskRequestModel>),
        app_after_event(pre, event) == pre,
{
}

/// A frame of the installer asks for a task only while none is outstanding in
/// the open flow, and the task is outstanding from then on.
pub proof fn lemma_request_needs_empty_slot(pre: AppModel, report: PageReport)
    requires
        app_frame(pre, report).1 is Some,
    ensures
        pre.page is Some,
        pre.error is None,
        !page_busy(pre.page->0),
        app_frame(pre, report).0.page is Some,
        page_busy(app_frame(pre, report).0.page->0),
{
}

/// After the operator has started over, picking a flow opens it as it begins:
/// at its first step, with nothing known and nothing outstanding.
pub proof fn lemma_start_over_leaves_nothing(kind: PageKind)
    ensures
        app_after_open(launcher(), kind).page == Some(fresh_page(kind)),
        app_after_open(launcher(), kind).error is None,
        !page_busy(fresh_page(kind)),
{
}

/// What happens in one frame: what the caller reports of its worker at the
/// start, and what the operator does on the screen afterwards.
pub ghost struct FrameInput {
    pub report: PageReport,
    pub events: Seq<PageEvent>,
}

/// An open flow after the operator has done several things in a row.
pub open spec fn page_after_events(pre: PageModel, events: Seq<PageEvent>) -> PageModel
    decreases events.len(),
{
    if events.len() == 0 {
        pre
    } else {
        page_after_event(page_after_events(pre, events.drop_last()), events.last())
    }
}

/// An open flow at the start of frame `n` of a run of frames: after the frames
/// before it, each advanced by its report and followed by its events.
pub open spec fn page_at(pre: PageModel, frames: Seq<FrameInput>, n: int) -> PageModel
    decreases n,
{
    if n <= 0 {
        pre
    } else {
        page_after_events(
            page_frame(page_at(pre, frames, n - 1), frames[n - 1].report).0,
            frames[n - 1].events,
        )
    }
}

/// Whether frame `n` of a run asks for a task.
pub open spec fn requested_at(pre: PageModel, frames: Seq<FrameInput>, n: int) -> bool {
    page_frame(page_at(pre, frames, n), frames[n].report).1 matches Ok(Some(_))
}

/// Whether frame `n` of a run hears the end of an outstanding task: its
/// result, which the frame takes, or its failure.
pub open spec fn consumed_at(pre: PageModel, frames: Seq<FrameInput>, n: int) -> bool {
    &&& page_busy(page_at(pre, frames, n))
    &&& crate::task::poll_result(true, frames[n].report) is Ready || crate::task::poll_result(
        true,
        frames[n].report,
    ) is Failed
}

/// What the operator does neither starts a task nor ends one.
pub proof fn lemma_events_keep_the_slot(pre: PageModel, events: Seq<PageEvent>)
    ensures
        page_busy(page_after_events(pre, events)) == page_busy(pre),
    decreases events.len(),
{
    if events.len() > 0 {
        lemma_events_keep_the_slot(pre, events.drop_last());
    }
}

/// As long as no frame hears the end of the task, the task that a frame has
/// asked for stays outstanding.
proof fn lemma_task_stays_outstanding(pre: PageModel, frames: Seq<FrameInput>, first: int, n: int)
    requires
        0 <= first < n <= frames.len(),
        requested_at(pre, frames, first),
        forall|k: int| first < k < n ==> !consumed_at(pre, frames, k),
    ensures
        page_busy(page_at(pre, frames, n)),
    decreases n - first,
{
    let before = page_at(pre, frames, n - 1);
    let heard = page_frame(before, frames[n - 1].report).0;
    lemma_events_keep_the_slot(heard, frames[n - 1].events);
    if n - 1 > first {
        lemma_task_stays_outstanding(pre, frames, first, n - 1);
        assert(!consumed_at(pre, frames, n - 1));
    }
}

/// No task is asked for twice without its result having been taken in
/// between: in any run of frames, between two frames that each ask for a task
/// lies a frame that hears the end of the first one, with its result or as a
/// failure.
pub proof fn lemma_one_task_at_a_time(
    pre: PageModel,
    frames: Seq<FrameInput>,
    first: int,
    second: int,
)
    requires
        0 <= first < second < frames.len(),
        requested_at(pre, frames, first),
        requested_at(pre, frames, second),
    ensures
        exists|k: int| first < k < second && consumed_at(pre, frames, k),
{
    if forall|k: int| first < k < second ==> !consumed_at(pre, frames, k) {
        lemma_task_stays_outstanding(pre, frames, first, second);
    }
}

} // verus!
