//! The door every event comes through, and the dispatch behind it. Nothing
//! here decides what a subsystem does with its event, only which one is
//! asked.

use vstd::prelude::*;
use vstd::view::View as _;
use vstd::string::*;

use crate::app;
use crate::app::{App, Chain, Model, Monitor, Pending, RunState, Terminal, View};
use crate::app::file_browser;
use crate::app::file_browser::{DeviceView, Transfer};
use crate::app::flash_view::{DeferredQuery, FirmwareCheck};
use crate::app::install_view::InstallUpdate;
use crate::app::keys::KeyInput;
use crate::app::mouse::MouseInput;
use crate::app::ota_view::OtaUpdate;
use crate::effect::{Effect, Task, TextTask};
use crate::geometry;
use crate::geometry::Rect;
use crate::input;
use crate::logs;
use crate::logs::{Level, LogLine};
use crate::overlay::{Overlay, SyncPlan};
use crate::panels::{DeviceInfo, Discovery, FirmwareVerdict, FlashFirmware, PaneError, ScriptState};
use crate::text;

verus! {

broadcast use crate::overlay::group_overlay_models;

/// What a process outside reported.
pub enum ProcessEvent {
    /// Decoded terminal output.
    Output { id: u64, text: String },
    /// Raw terminal output.
    Bytes { id: u64, data: Vec<u8> },
    Line { id: u64, text: String },
    /// It ended, and how.
    Finished { id: u64, summary: String },
}

/// The session a process belongs to.
#[derive(Debug, Clone, Copy, PartialEq, Eq, Structural)]
pub enum Session {
    /// Asking a new device whether a script runs.
    Probe,
    /// Listening for a boot banner.
    Version,
    /// Listening for the board's address.
    Address,
    Monitor,
    Shell,
    Run,
}

/// What the file browser made of an event.
pub struct BrowserUpdate {
    pub notices: Vec<LogLine>,
    pub device_scan: Option<Result<Vec<DeviceInfo>, String>>,
    pub device_view: Option<DeviceView>,
    /// The device did not answer as MicroPython does.
    pub prompt_micropython_flash: bool,
    pub script_running: Option<bool>,
    pub transfer: Option<Transfer>,
    pub sync_plan: Option<SyncPlan>,
    /// The device directory that was listed.
    pub listed: Option<String>,
}

/// What the build panel made of an event.
pub struct BuildUpdate {
    pub notices: Vec<LogLine>,
    /// A flash finished: the board carries something else now.
    pub flashed: bool,
    /// A size report finished.
    pub reported: bool,
}

/// What the flash panel made of an event.
pub struct FlashUpdate {
    pub notices: Vec<LogLine>,
    pub offer_flash: bool,
    pub search_online_for_firmware: bool,
    pub fetch_notices: Vec<LogLine>,
    pub download_finished: bool,
    pub firmware_invalidated: bool,
    pub firmware_read_finished: bool,
    pub chip_query_finished: bool,
}

/// What the panels made of an event.
pub struct PanelUpdates {
    pub browser: BrowserUpdate,
    pub install: InstallUpdate,
    pub ota: OtaUpdate,
    pub build: BuildUpdate,
    pub flash: FlashUpdate,
}

/// What a tick finds outside.
pub struct TickFacts {
    /// Serial ports present.
    pub port_count: usize,
    /// The browser's local directory changed.
    pub local_changed: bool,
    /// The workspace pane's directory changed.
    pub files_changed: bool,
}

/// A notice with its text as a sequence of characters.
pub open spec fn notice_view(notice: Option<(Level, String)>) -> Option<(Level, Seq<char>)> {
    match notice {
        Some((level, text)) => Some((level, text@)),
        None => None,
    }
}

/// Everything that reaches the application.
pub enum AppEvent {
    Key(KeyInput),
    Paste(String),
    Resize,
    Mouse(MouseInput),
    Tick(TickFacts),
    /// A process event, whether the package index took it, and what the
    /// panels made of it.
    Process(ProcessEvent, bool, PanelUpdates),
    /// What the documentation fetches had to say.
    Docs(Option<(Level, String)>),
}

impl Model {
    /// The session `event` belongs to; `None` when the panels are asked.
    pub open spec fn session_of(self, event: ProcessEvent) -> Option<Session> {
        let address = match self.capture {
            Some(capture) => Some(capture.process),
            None => None,
        };
        match event {
            ProcessEvent::Output { id, .. } => if self.chain.probe == Some(id) {
                Some(Session::Probe)
            } else if self.chain.version_capture == Some(id) {
                Some(Session::Version)
            } else if address == Some(id) {
                Some(Session::Address)
            } else if self.monitor.device == Some(id) {
                Some(Session::Monitor)
            } else if self.monitor.run == Some(id) {
                Some(Session::Run)
            } else {
                None
            },
            ProcessEvent::Line { id, .. } => if self.monitor.device == Some(id) {
                Some(Session::Monitor)
            } else {
                None
            },
            ProcessEvent::Bytes { id, .. } => if self.terminal.process == Some(id) {
                Some(Session::Shell)
            } else {
                None
            },
            ProcessEvent::Finished { id, .. } => if self.chain.probe == Some(id) {
                Some(Session::Probe)
            } else if self.chain.version_capture == Some(id) {
                Some(Session::Version)
            } else if address == Some(id) {
                Some(Session::Address)
            } else if self.monitor.device == Some(id) {
                Some(Session::Monitor)
            } else if self.terminal.process == Some(id) {
                Some(Session::Shell)
            } else if self.monitor.run == Some(id) {
                Some(Session::Run)
            } else {
                None
            },
        }
    }

    /// A session's output, handed to whoever reads it.
    pub open spec fn session_spoke(self, session: Session, text: Seq<char>) -> Model {
        match session {
            Session::Probe => self.emit(Effect::Text(TextTask::ProbeOutput, text)),
            Session::Version => self.emit(Effect::Text(TextTask::VersionCaptureOutput, text)),
            Session::Address => self.emit(Effect::Text(TextTask::AddressCaptureOutput, text)),
            Session::Monitor => self.emit(Effect::Text(TextTask::MonitorOutput, text)),
            Session::Run => self.emit(Effect::Text(TextTask::RunOutput, text)),
            Session::Shell => self,
        }
    }

    /// A session's end: its id is forgotten, and a live pane says so.
    pub open spec fn session_ended(self, session: Session, summary: Seq<char>) -> Model {
        match session {
            Session::Probe => self.with_chain(Chain { probe: None, ..self.chain }).task(
                Task::FinishProbe,
            ),
            Session::Version => self.with_chain(
                Chain { version_capture: None, ..self.chain },
            ).task(Task::FinishVersionCapture),
            Session::Address => self.capture_finished(),
            Session::Monitor => self.with_monitor(Monitor { device: None, ..self.monitor }).emit(
                Effect::Text(TextTask::MonitorLine, "[monitor "@ + summary + "]"@),
            ),
            Session::Shell => self.with_terminal(
                Terminal { process: None, detached: false, ..self.terminal },
            ).emit(Effect::Text(TextTask::ShellText, "\r\n[shell "@ + summary + "]\r\n"@)),
            Session::Run => self.with_monitor(
                Monitor { run: None, run_state: RunState::Finished, ..self.monitor },
            ).emit(Effect::Text(TextTask::RunLine, "[run "@ + summary + "]"@)).script_marked(
                ScriptState::Stopped,
            ),
        }
    }

    /// An event for the session it belongs to.
    #[verifier::opaque]
    pub open spec fn session_heard(self, session: Session, event: ProcessEvent) -> Model {
        match event {
            ProcessEvent::Output { text, .. } => self.session_spoke(session, text@),
            ProcessEvent::Line { text, .. } => self.emit(
                Effect::Text(TextTask::MonitorLine, text@),
            ),
            ProcessEvent::Bytes { data, .. } => self.emit(Effect::ShellBytes(data@)),
            ProcessEvent::Finished { summary, .. } => self.session_ended(session, summary@),
        }
    }

    /// The answer to a device scan: nothing there, a choice to make, or the
    /// one board whose identification is asked for before its listing.
    #[verifier::opaque]
    pub open spec fn devices_found(self, devices: Vec<DeviceInfo>) -> Model {
        let m = self.with_devices(self.panels.devices.with_devices(devices));
        if devices@.len() == 0 {
            m.pane_failed(PaneError::NoDevice).disconnected()
        } else if m.panels.devices.undecided() {
            m.device_picker_opened()
        } else {
            m.identification_requested().root_loaded()
        }
    }

    #[verifier::opaque]
    pub open spec fn scan_failed(self, error: String) -> Model {
        self.with_devices(self.panels.devices.failed(Discovery::Failed(error))).pane_failed(
            PaneError::Reported(error),
        ).disconnected()
    }

    pub open spec fn scan_heard(self, scan: Option<Result<Vec<DeviceInfo>, String>>) -> Model {
        match scan {
            Some(Ok(devices)) => self.devices_found(devices),
            Some(Err(error)) => self.scan_failed(error),
            None => self,
        }
    }

    #[verifier::opaque]
    pub open spec fn view_heard(self, view: Option<DeviceView>) -> Model {
        match view {
            Some(view) => self.device_viewed(view.path@, file_browser::content_view(view.content)),
            None => self,
        }
    }

    /// The erase question, unless it is open already.
    #[verifier::opaque]
    pub open spec fn erase_asked(self, wanted: bool) -> Model {
        if wanted && !(self.overlay matches Some(Overlay::ConfirmEraseForMicroPython { .. })) {
            self.shown(Overlay::ConfirmEraseForMicroPython { confirm: false })
        } else {
            self
        }
    }

    #[verifier::opaque]
    pub open spec fn script_heard(self, running: Option<bool>) -> Model {
        match running {
            Some(true) => self.script_marked(ScriptState::Running),
            Some(false) => self.script_marked(ScriptState::Stopped),
            None => self,
        }
    }

    #[verifier::opaque]
    pub open spec fn transfer_heard(self, transfer: Option<Transfer>) -> Model {
        match transfer {
            Some(transfer) => self.transferred(transfer.model()),
            None => self,
        }
    }

    /// The sync plan's review, which opens on No.
    #[verifier::opaque]
    pub open spec fn plan_heard(self, plan: Option<SyncPlan>) -> Model {
        match plan {
            Some(plan) => self.shown(Overlay::SyncPreview { plan, confirm: false }),
            None => self,
        }
    }

    pub open spec fn listing_heard(self, listed: Option<String>) -> Model {
        match listed {
            Some(path) => self.emit(Effect::Text(TextTask::DeviceListed, path@)),
            None => self,
        }
    }

    /// What the browser reported.
    #[verifier::opaque]
    pub open spec fn browser_heard(self, update: BrowserUpdate) -> Model {
        if self.panels.browser is None {
            self
        } else {
            self.told(logs::lines_view(update.notices@)).scan_heard(
                update.device_scan,
            ).view_heard(update.device_view).erase_asked(
                update.prompt_micropython_flash,
            ).script_heard(update.script_running).transfer_heard(update.transfer).plan_heard(
                update.sync_plan,
            ).listing_heard(update.listed)
        }
    }

    pub open spec fn reidentified_if(self, changed: bool) -> Model {
        if changed {
            self.reidentified()
        } else {
            self
        }
    }

    /// What the build panel reported.
    #[verifier::opaque]
    pub open spec fn build_heard(self, update: BuildUpdate) -> Model {
        if self.panels.build is None {
            self
        } else {
            let m = self.told(logs::lines_view(update.notices@)).reidentified_if(update.flashed);
            if update.reported {
                m.dashboard_reopened()
            } else {
                m
            }
        }
    }

    /// The flash panel's follow-up questions.
    #[verifier::opaque]
    pub open spec fn offers_heard(self, update: FlashUpdate) -> Model {
        let m = self.told(logs::lines_view(update.notices@));
        let m = if update.offer_flash {
            m.write_offered()
        } else {
            m
        };
        let m = if update.search_online_for_firmware {
            m.search_asked(false).viewed(View::Flash)
        } else {
            m
        };
        let m = m.told(logs::lines_view(update.fetch_notices@));
        if update.download_finished {
            m.erase_offered()
        } else {
            m
        }
    }

    /// The firmware read's end: under anything but MicroPython there was no
    /// script to bring back.
    pub open spec fn read_finished(self) -> Model {
        let m = self.with_chain(Chain { firmware_check: FirmwareCheck::Idle, ..self.chain });
        if m.runs_foreign_firmware() {
            m.with_chain(Chain { restore_pending: false, ..m.chain })
        } else {
            m
        }
    }

    pub open spec fn runs_foreign_firmware(self) -> bool {
        match self.flash {
            Some(flash) => match flash.firmware {
                Some(FirmwareVerdict::Firmware(FlashFirmware::MicroPython, _)) => false,
                Some(_) => true,
                None => false,
            },
            None => false,
        }
    }

    /// The identification chain moved on by what the flash panel read.
    #[verifier::opaque]
    pub open spec fn chain_heard(self, update: FlashUpdate) -> Model {
        let m = self.reidentified_if(update.firmware_invalidated);
        let m = if update.firmware_read_finished {
            m.read_finished()
        } else {
            m
        };
        let m = if update.chip_query_finished {
            m.check_armed()
        } else {
            m
        };
        if update.chip_query_finished || update.firmware_read_finished {
            m.held_driven()
        } else {
            m
        }
    }

    /// What the flash panel reported.
    pub open spec fn flash_heard(self, update: FlashUpdate) -> Model {
        if self.flash is None {
            self
        } else {
            self.offers_heard(update).chain_heard(update)
        }
    }

    /// The deferred chip query; where it can never start the held listing
    /// goes on without it.
    #[verifier::opaque]
    pub open spec fn query_driven(self) -> Model {
        let (m, outcome) = self.query_polled();
        if outcome == DeferredQuery::Dropped {
            m.held_driven()
        } else {
            m
        }
    }

    #[verifier::opaque]
    pub open spec fn check_driven(self) -> Model {
        self.check_polled().0
    }

    #[verifier::opaque]
    pub open spec fn hunt_driven(self) -> Model {
        self.hunt_polled()
    }

    #[verifier::opaque]
    pub open spec fn listing_driven(self) -> Model {
        self.held_driven()
    }

    /// The identification question, the interrupt question or the restore
    /// question, whichever is due first.
    #[verifier::opaque]
    pub open spec fn questions_asked(self) -> Model {
        self.identification_asked().gate_checked().restore_offered()
    }

    /// An event for the panels, and everything it lets go on.
    #[verifier::opaque]
    pub open spec fn panels_heard(self, updates: PanelUpdates) -> Model {
        self.browser_heard(updates.browser).install_updated(updates.install).ota_updated(
            updates.ota,
        ).build_heard(updates.build).flash_heard(
            updates.flash,
        ).query_driven().check_driven().hunt_driven().listing_driven().questions_asked()
    }

    /// A process event: the package index's own, a session's, or the
    /// panels'.
    pub open spec fn process_heard(
        self,
        event: ProcessEvent,
        claimed: bool,
        updates: PanelUpdates,
    ) -> Model {
        if claimed {
            self
        } else {
            match self.session_of(event) {
                Some(session) => self.session_heard(session, event),
                None => self.panels_heard(updates),
            }
        }
    }

    /// Whether nothing speaks against a look at the ports this tick.
    pub open spec fn ports_due(self) -> bool {
        &&& self.caps().filesystem || self.caps().monitor
        &&& self.pending.ticks % 4 == 0
        &&& self.overlay is None
        &&& self.panels.devices.discovery != Discovery::Scanning
        &&& !self.browser_busy()
        &&& self.chain.probe is None
        &&& self.monitor.device is None
        &&& self.monitor.run is None
    }

    /// The once-a-second look at the ports: a board that came or left is
    /// scanned for, unless a query is resetting it.
    #[verifier::opaque]
    pub open spec fn hotplug_checked(self, count: usize) -> Model {
        if !self.ports_due() {
            self
        } else {
            let m = if self.pending.last_port_count is Some && self.pending.last_port_count
                != Some(count) && !self.flash_busy() {
                let m = self.info("device connection change detected, rescanning..."@);
                if self.caps().filesystem {
                    m.devices_asked()
                } else {
                    m.serial_asked()
                }
            } else {
                self
            };
            m.with_pending(Pending { last_port_count: Some(count), ..m.pending })
        }
    }

    pub open spec fn ticked(self) -> Model {
        self.with_pending(
            Pending {
                ticks: (if self.pending.ticks == u64::MAX {
                    0
                } else {
                    self.pending.ticks + 1
                }) as u64,
                ..self.pending
            },
        )
    }

    /// A tick, up to what is asked of the probe.
    #[verifier::opaque]
    pub open spec fn time_passed(self, facts: TickFacts) -> Model {
        self.ticked().hotplug_checked(facts.port_count).listings_refreshed(
            facts.local_changed,
            facts.files_changed,
        ).task(Task::RefreshRequirements).task(Task::TickProbe).task(Task::ContinueTick)
    }

    /// The rest of a tick: the questions, then every link of the
    /// identification chain that can move on.
    #[verifier::opaque]
    pub open spec fn tick_continued(self) -> Model {
        self.questions_asked().check_driven().hunt_driven().query_driven().listing_driven().docs_driven().ota_driven()
    }

    /// A documentation notice: an error, a warning, or a plain line.
    pub open spec fn docs_heard(self, notice: Option<(Level, Seq<char>)>) -> Model {
        match notice {
            Some((Level::Error, text)) => self.error(text),
            Some((Level::Warn, text)) => self.warn(text),
            Some((_, text)) => self.info(text),
            None => self,
        }
    }

    /// Pasted text, which only a live shell reads.
    pub open spec fn pasted(self, text: Seq<char>) -> Model {
        if self.terminal_active() {
            self.emit(Effect::Text(TextTask::PasteIntoShell, text))
        } else {
            self
        }
    }
}

impl App {
    /// The session `event` belongs to.
    pub fn owning_session(&self, event: &ProcessEvent) -> (r: Option<Session>)
        ensures
            r == self@.session_of(*event),
    {
        reveal(app::opt_capture);
        let address: Option<u64> = match &self.capture {
            Some(capture) => Some(capture.process),
            None => None,
        };
        match event {
            ProcessEvent::Output { id, .. } => {
                let id: Option<u64> = Some(*id);
                if self.chain.probe == id {
                    Some(Session::Probe)
                } else if self.chain.version_capture == id {
                    Some(Session::Version)
                } else if address == id {
                    Some(Session::Address)
                } else if self.monitor.device == id {
                    Some(Session::Monitor)
                } else if self.monitor.run == id {
                    Some(Session::Run)
                } else {
                    None
                }
            },
            ProcessEvent::Line { id, .. } => if self.monitor.device == Some(*id) {
                Some(Session::Monitor)
            } else {
                None
            },
            ProcessEvent::Bytes { id, .. } => if self.terminal.process == Some(*id) {
                Some(Session::Shell)
            } else {
                None
            },
            ProcessEvent::Finished { id, .. } => {
                let id: Option<u64> = Some(*id);
                if self.chain.probe == id {
                    Some(Session::Probe)
                } else if self.chain.version_capture == id {
                    Some(Session::Version)
                } else if address == id {
                    Some(Session::Address)
                } else if self.monitor.device == id {
                    Some(Session::Monitor)
                } else if self.terminal.process == id {
                    Some(Session::Shell)
                } else if self.monitor.run == id {
                    Some(Session::Run)
                } else {
                    None
                }
            },
        }
    }

    fn hear_output(&mut self, session: Session, text: String)
        ensures
            final(self)@ == old(self)@.session_spoke(session, text@),
    {
        match session {
            Session::Probe => self.emit(Effect::Text(TextTask::ProbeOutput, text)),
            Session::Version => self.emit(Effect::Text(TextTask::VersionCaptureOutput, text)),
            Session::Address => self.emit(Effect::Text(TextTask::AddressCaptureOutput, text)),
            Session::Monitor => self.emit(Effect::Text(TextTask::MonitorOutput, text)),
            Session::Run => self.emit(Effect::Text(TextTask::RunOutput, text)),
            Session::Shell => {},
        }
    }

    fn end_session(&mut self, session: Session, summary: &str)
        ensures
            final(self)@ == old(self)@.session_ended(session, summary@),
    {
        match session {
            Session::Probe => {
                self.chain.probe = None;
                self.task(Task::FinishProbe);
            },
            Session::Version => {
                self.chain.version_capture = None;
                self.task(Task::FinishVersionCapture);
            },
            Session::Address => self.finish_address_capture(),
            Session::Monitor => {
                self.monitor.device = None;
                let line = text::join3("[monitor ", summary, "]");
                self.emit(Effect::Text(TextTask::MonitorLine, line));
            },
            Session::Shell => {
                self.terminal.process = None;
                self.terminal.detached = false;
                let line = text::join3("\r\n[shell ", summary, "]\r\n");
                self.emit(Effect::Text(TextTask::ShellText, line));
            },
            Session::Run => {
                self.monitor.run = None;
                self.monitor.run_state = RunState::Finished;
                let line = text::join3("[run ", summary, "]");
                self.emit(Effect::Text(TextTask::RunLine, line));
                self.set_script_state(ScriptState::Stopped);
            },
        }
    }

    fn hear_session(&mut self, session: Session, event: ProcessEvent)
        ensures
            final(self)@ == old(self)@.session_heard(session, event),
    {
        reveal(Model::session_heard);
        match event {
            ProcessEvent::Output { text, .. } => self.hear_output(session, text),
            ProcessEvent::Line { text, .. } => self.emit(
                Effect::Text(TextTask::MonitorLine, text),
            ),
            ProcessEvent::Bytes { data, .. } => self.emit(Effect::ShellBytes(data)),
            ProcessEvent::Finished { summary, .. } => self.end_session(session, summary.as_str()),
        }
    }

    fn hear_devices(&mut self, devices: Vec<DeviceInfo>)
        ensures
            final(self)@ == old(self)@.devices_found(devices),
    {
        reveal(Model::devices_found);
        let empty: bool = devices.len() == 0;
        self.panels.devices.set_devices(devices);
        if empty {
            self.set_device_pane_error(PaneError::NoDevice);
            self.device_disconnected();
        } else if self.panels.devices.needs_selection() {
            self.open_device_picker();
        } else {
            self.request_device_identify();
            self.load_device_root();
        }
    }

    fn hear_scan_failure(&mut self, error: String)
        ensures
            final(self)@ == old(self)@.scan_failed(error),
    {
        reveal(Model::scan_failed);
        self.panels.devices.set_failed(Discovery::Failed(error.clone()));
        self.set_device_pane_error(PaneError::Reported(error));
        self.device_disconnected();
    }

    fn hear_scan(&mut self, scan: Option<Result<Vec<DeviceInfo>, String>>)
        ensures
            final(self)@ == old(self)@.scan_heard(scan),
    {
        match scan {
            Some(Ok(devices)) => self.hear_devices(devices),
            Some(Err(error)) => self.hear_scan_failure(error),
            None => {},
        }
    }

    fn hear_view(&mut self, view: Option<DeviceView>)
        ensures
            final(self)@ == old(self)@.view_heard(view),
    {
        reveal(Model::view_heard);
        if let Some(view) = view {
            self.apply_device_view(view);
        }
    }

    fn ask_erase(&mut self, wanted: bool)
        ensures
            final(self)@ == old(self)@.erase_asked(wanted),
    {
        reveal(Model::erase_asked);
        reveal(app::opt_overlay);
        reveal(Overlay::model);
        let open: bool = match &self.overlay {
            Some(Overlay::ConfirmEraseForMicroPython { .. }) => true,
            _ => false,
        };
        if wanted && !open {
            self.show(Overlay::ConfirmEraseForMicroPython { confirm: false });
        }
    }

    fn hear_script(&mut self, running: Option<bool>)
        ensures
            final(self)@ == old(self)@.script_heard(running),
    {
        reveal(Model::script_heard);
        match running {
            Some(true) => self.set_script_state(ScriptState::Running),
            Some(false) => self.set_script_state(ScriptState::Stopped),
            None => {},
        }
    }

    fn hear_transfer(&mut self, transfer: Option<Transfer>)
        ensures
            final(self)@ == old(self)@.transfer_heard(transfer),
    {
        reveal(Model::transfer_heard);
        if let Some(transfer) = transfer {
            self.apply_transfer(transfer);
        }
    }

    fn hear_plan(&mut self, plan: Option<SyncPlan>)
        ensures
            final(self)@ == old(self)@.plan_heard(plan),
    {
        reveal(Model::plan_heard);
        if let Some(plan) = plan {
            self.show(Overlay::SyncPreview { plan, confirm: false });
        }
    }

    fn hear_listing(&mut self, listed: Option<String>)
        ensures
            final(self)@ == old(self)@.listing_heard(listed),
    {
        if let Some(path) = listed {
            self.emit(Effect::Text(TextTask::DeviceListed, path));
        }
    }

    /// Takes what the file browser made of an event.
    pub fn hear_browser(&mut self, update: BrowserUpdate)
        ensures
            final(self)@ == old(self)@.browser_heard(update),
    {
        reveal(Model::browser_heard);
        if self.panels.browser.is_none() {
            return;
        }
        self.tell(&update.notices);
        self.hear_scan(update.device_scan);
        self.hear_view(update.device_view);
        self.ask_erase(update.prompt_micropython_flash);
        self.hear_script(update.script_running);
        self.hear_transfer(update.transfer);
        self.hear_plan(update.sync_plan);
        self.hear_listing(update.listed);
    }

    fn reidentify_if(&mut self, changed: bool)
        ensures
            final(self)@ == old(self)@.reidentified_if(changed),
    {
        if changed {
            self.reidentify_firmware_after_flash();
        }
    }

    /// Takes what the build panel made of an event.
    pub fn hear_build(&mut self, update: BuildUpdate)
        ensures
            final(self)@ == old(self)@.build_heard(update),
    {
        reveal(Model::build_heard);
        if self.panels.build.is_none() {
            return;
        }
        self.tell(&update.notices);
        self.reidentify_if(update.flashed);
        if update.reported {
            self.reopen_dashboard_on_memory();
        }
    }

    fn hear_offers(&mut self, update: &FlashUpdate)
        ensures
            final(self)@ == old(self)@.offers_heard(*update),
    {
        reveal(Model::offers_heard);
        self.tell(&update.notices);
        if update.offer_flash {
            self.offer_flash_after_erase();
        }
        if update.search_online_for_firmware {
            self.search_online(false);
            self.screen.view = View::Flash;
        }
        self.tell(&update.fetch_notices);
        if update.download_finished {
            self.offer_flash_after_download();
        }
    }

    fn is_foreign_firmware(&self) -> (r: bool)
        ensures
            r == self@.runs_foreign_firmware(),
    {
        match &self.flash {
            Some(flash) => match &flash.firmware {
                Some(FirmwareVerdict::Firmware(FlashFirmware::MicroPython, _)) => false,
                Some(_) => true,
                None => false,
            },
            None => false,
        }
    }

    fn finish_read(&mut self)
        ensures
            final(self)@ == old(self)@.read_finished(),
    {
        self.chain.firmware_check = FirmwareCheck::Idle;
        if self.is_foreign_firmware() {
            self.chain.restore_pending = false;
        }
    }

    fn hear_chain(&mut self, update: &FlashUpdate)
        ensures
            final(self)@ == old(self)@.chain_heard(*update),
    {
        reveal(Model::chain_heard);
        self.reidentify_if(update.firmware_invalidated);
        if update.firmware_read_finished {
            self.finish_read();
        }
        if update.chip_query_finished {
            self.arm_firmware_check();
        }
        if update.chip_query_finished || update.firmware_read_finished {
            self.drive_held_root_listing();
        }
    }

    /// Takes what the flash panel made of an event.
    pub fn hear_flash(&mut self, update: &FlashUpdate)
        ensures
            final(self)@ == old(self)@.flash_heard(*update),
    {
        if self.flash.is_none() {
            return;
        }
        self.hear_offers(update);
        self.hear_chain(update);
    }

    /// Runs the deferred chip query, and the held listing past one that can
    /// never start.
    pub fn drive_query(&mut self)
        ensures
            final(self)@ == old(self)@.query_driven(),
    {
        reveal(Model::query_driven);
        if self.maybe_run_deferred_flash_query() == DeferredQuery::Dropped {
            self.drive_held_root_listing();
        }
    }

    fn drive_check(&mut self)
        ensures
            final(self)@ == old(self)@.check_driven(),
    {
        reveal(Model::check_driven);
        let _ = self.maybe_run_deferred_firmware_check();
    }

    fn drive_hunt(&mut self)
        ensures
            final(self)@ == old(self)@.hunt_driven(),
    {
        reveal(Model::hunt_driven);
        self.maybe_run_deferred_version_hunt();
    }

    fn drive_listing(&mut self)
        ensures
            final(self)@ == old(self)@.listing_driven(),
    {
        reveal(Model::listing_driven);
        self.drive_held_root_listing();
    }

    /// Asks what an event or a tick left to ask.
    pub fn ask_follow_ups(&mut self)
        ensures
            final(self)@ == old(self)@.questions_asked(),
    {
        reveal(Model::questions_asked);
        self.maybe_ask_identification();
        self.check_interrupt_gate();
        self.maybe_offer_restore();
    }

    fn hear_panels(&mut self, updates: PanelUpdates)
        ensures
            final(self)@ == old(self)@.panels_heard(updates),
    {
        reveal(Model::panels_heard);
        self.hear_browser(updates.browser);
        self.install_on_process(updates.install);
        self.ota_on_process(updates.ota);
        self.hear_build(updates.build);
        self.hear_flash(&updates.flash);
        self.drive_query();
        self.drive_check();
        self.drive_hunt();
        self.drive_listing();
        self.ask_follow_ups();
    }

    /// Routes a process event to whatever asked for it. `claimed` says that
    /// the package index took it, `updates` what the panels made of it.
    pub fn on_process(&mut self, event: ProcessEvent, claimed: bool, updates: PanelUpdates)
        ensures
            final(self)@ == old(self)@.process_heard(event, claimed, updates),
    {
        if claimed {
            return;
        }
        match self.owning_session(&event) {
            Some(session) => self.hear_session(session, event),
            None => self.hear_panels(updates),
        }
    }

    fn are_ports_due(&self) -> (r: bool)
        ensures
            r == self@.ports_due(),
    {
        let caps = self.capabilities();
        let scanning: bool = match &self.panels.devices.discovery {
            Discovery::Scanning => true,
            _ => false,
        };
        (caps.filesystem || caps.monitor) && self.pending.ticks % 4 == 0 && !self.has_overlay()
            && !scanning && !self.is_browser_busy() && self.chain.probe.is_none()
            && self.monitor.device.is_none() && self.monitor.run.is_none()
    }

    /// The once-a-second look at the ports; `count` is how many there are.
    pub fn check_device_hotplug(&mut self, count: usize)
        ensures
            final(self)@ == old(self)@.hotplug_checked(count),
    {
        reveal(Model::hotplug_checked);
        if !self.are_ports_due() {
            return;
        }
        let changed: bool = match self.pending.last_port_count {
            Some(last) => last != count,
            None => false,
        };
        if changed && !self.is_flash_busy() {
            self.info("device connection change detected, rescanning...");
            let caps = self.capabilities();
            if caps.filesystem {
                self.scan_devices();
            } else {
                self.scan_serial_devices();
            }
        }
        self.pending.last_port_count = Some(count);
    }

    fn advance_ticks(&mut self)
        ensures
            final(self)@ == old(self)@.ticked(),
    {
        self.pending.ticks = if self.pending.ticks == u64::MAX {
            0
        } else {
            self.pending.ticks + 1
        };
    }

    /// Handles a tick.
    pub fn on_tick(&mut self, facts: TickFacts)
        ensures
            final(self)@ == old(self)@.time_passed(facts),
    {
        reveal(Model::time_passed);
        self.advance_ticks();
        self.check_device_hotplug(facts.port_count);
        self.refresh_local_listings(facts.local_changed, facts.files_changed);
        self.task(Task::RefreshRequirements);
        self.task(Task::TickProbe);
        self.task(Task::ContinueTick);
    }

    /// Goes on with a tick, the probe having had its turn.
    pub fn continue_tick(&mut self)
        ensures
            final(self)@ == old(self)@.tick_continued(),
    {
        reveal(Model::tick_continued);
        self.ask_follow_ups();
        self.drive_check();
        self.drive_hunt();
        self.drive_query();
        self.drive_listing();
        self.drive_docs_selection();
        self.drive_ota();
    }

    pub fn on_paste(&mut self, text: String)
        ensures
            final(self)@ == old(self)@.pasted(text@),
    {
        if self.is_terminal_active() {
            self.emit(Effect::Text(TextTask::PasteIntoShell, text));
        }
    }

    fn on_docs(&mut self, notice: Option<(Level, String)>)
        ensures
            final(self)@ == old(self)@.docs_heard(notice_view(notice)),
    {
        if let Some((level, text)) = notice {
            match level {
                Level::Error => self.error(text.as_str()),
                Level::Warn => self.warn(text.as_str()),
                _ => self.info(text.as_str()),
            }
        }
    }

    /// Handles an event. A gesture is dropped while reporting is off.
    pub fn handle(&mut self, event: AppEvent)
        requires
            event matches AppEvent::Mouse(input) ==> input.frame.fits(),
        ensures
            match event {
                AppEvent::Key(input) => final(self)@ == old(self)@.key_pressed(
                    input.key,
                    input::opt_bytes(input.shell_bytes),
                    input.claimed,
                ),
                AppEvent::Paste(text) => final(self)@ == old(self)@.pasted(text@),
                AppEvent::Resize => final(self)@ == old(self)@.with_logs(
                    old(self)@.logs.followed(),
                ),
                AppEvent::Mouse(input) => if old(self)@.prefs.mouse_enabled {
                    exists|buttons: Option<(Rect, Rect)>| #[trigger]
                        geometry::buttons_of(input.frame.popup, buttons) && final(self)@ == old(
                            self,
                        )@.gestured(input.event, input.frame, input.now, buttons)
                } else {
                    final(self)@ == old(self)@
                },
                AppEvent::Tick(facts) => final(self)@ == old(self)@.time_passed(facts),
                AppEvent::Process(event, claimed, updates) => final(self)@ == old(
                    self,
                )@.process_heard(event, claimed, updates),
                AppEvent::Docs(notice) => final(self)@ == old(self)@.docs_heard(
                    notice_view(notice),
                ),
            },
    {
        match event {
            AppEvent::Key(input) => self.on_key(input),
            AppEvent::Paste(text) => self.on_paste(text),
            AppEvent::Resize => self.logs.scroll_to_bottom(),
            AppEvent::Mouse(input) => if self.prefs.mouse_enabled {
                self.on_mouse(input);
            },
            AppEvent::Tick(facts) => self.on_tick(facts),
            AppEvent::Process(event, claimed, updates) => self.on_process(event, claimed, updates),
            AppEvent::Docs(notice) => self.on_docs(notice),
        }
    }
}

} // verus!
