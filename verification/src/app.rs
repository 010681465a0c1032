//! Application state and the doors events come through.
//!
//! [`App`] is the whole state; its contracts speak of [`Model`], the same
//! state with every text as a sequence of characters. Each submodule holds
//! one subsystem's transitions: a function of the model that says what a key
//! or an event does, and the executable method proved to do exactly that.

use vstd::prelude::*;
use vstd::string::*;
use vstd::view::View as _;

pub mod address_capture;
pub mod build_dashboard_view;
pub mod build_laws;
pub mod build_view;
pub mod click_laws;
pub mod command_laws;
pub mod device_laws;
pub mod devices;
pub mod dialog_laws;
pub mod event_laws;
pub mod events;
pub mod file_browser;
pub mod file_laws;
pub mod flash_laws;
pub mod flash_view;
pub mod focus;
pub mod gesture_laws;
pub mod help;
pub mod help_laws;
pub mod identify_laws;
pub mod install_laws;
pub mod install_view;
pub mod keys;
pub mod launch;
pub mod monitor_view;
pub mod mouse;
pub mod ota_laws;
pub mod ota_view;
pub mod overlay_keys;
pub mod overlay_laws;
pub mod preferences;
pub mod report_laws;
pub mod screen_laws;
pub mod session_laws;
pub mod state_laws;
pub mod tools;

use crate::app::address_capture::{AddressCapture, CaptureModel};
use crate::app::build_dashboard_view::{DashModel, DashboardState};
use crate::app::file_browser::{FileViewer, ViewerModel};
use crate::app::flash_view::{FirmwareCheck, IdentifyAuth};
use crate::app::monitor_view::{MonitorScroll, MonitorSource, MonitorView};
use crate::app::tools::ToolPath;
use crate::backend::Capabilities;
use crate::effect;
use crate::effect::{Effect, EffectModel, Task};
use crate::geometry::Rect;
use crate::logs::{Level, LogModel, LogStore};
use crate::overlay;
use crate::overlay::{DevicePath, Overlay};
use crate::panels::{
    Browser, BuildPanel, DeviceState, FlashPanel, Installer, Lists, OtaPanel, Packages,
    ProjectManager, WorkspacePanel,
};
use crate::theme::{IconSet, ThemeChoice};

verus! {

/// Which screen is showing.
#[derive(Debug, Clone, Copy, PartialEq, Eq, Structural)]
pub enum View {
    Dashboard,
    /// Chip information, erase and write.
    Flash,
}

/// Which pane receives navigation keys.
#[derive(Debug, Clone, Copy, PartialEq, Eq, Structural)]
pub enum Focus {
    Project,
    DeviceInfo,
    FilesLocal,
    FilesDevice,
    Workspace,
    Build,
    Logs,
}

/// One navigable row of the Project pane.
#[derive(Debug, Clone, Copy, PartialEq, Eq, Structural)]
pub enum ProjectRow {
    /// Where is the Zephyr installation?
    ZephyrPath,
    /// Where are your Zephyr projects?
    ProjectsBase,
    /// What am I building?
    ProjectPath,
    /// For which target? The board, its optional shield on the same line.
    BoardShield,
    /// Where are your MicroPython projects?
    MpyProjectsBase,
    /// Which project to browse?
    MpyProjectPath,
    /// Dependency coverage.
    MpyDependencies,
    /// What the next boot runs.
    MpyBoot,
}

/// Which tab row 3 is showing.
#[derive(Debug, Clone, Copy, PartialEq, Eq, Structural)]
pub enum LogTab {
    Log,
    Monitor,
    /// The user's own shell.
    Terminal,
}

/// Which tab the device pane is showing.
#[derive(Debug, Clone, Copy, PartialEq, Eq, Structural)]
pub enum DevicePaneTab {
    Files,
    Actions,
}

/// Which half of a picker's body holds the navigation keys.
#[derive(Debug, Clone, Copy, PartialEq, Eq, Structural)]
pub enum DocsFocus {
    List,
    Details,
}

impl DocsFocus {
    pub open spec fn other(self) -> DocsFocus {
        match self {
            DocsFocus::List => DocsFocus::Details,
            DocsFocus::Details => DocsFocus::List,
        }
    }

    /// The other half.
    pub fn toggled(self) -> (r: DocsFocus)
        ensures
            r == self.other(),
            r.other() == self,
    {
        match self {
            DocsFocus::List => DocsFocus::Details,
            DocsFocus::Details => DocsFocus::List,
        }
    }
}

/// State of a script run shown in the Monitor tab.
#[derive(Debug, Clone, Copy, PartialEq, Eq, Structural)]
pub enum RunState {
    Idle,
    Running,
    Finished,
}

/// `time::OffsetDateTime`: a moment. Nothing is said of it.
#[verifier::external_type_specification]
#[verifier::external_body]
pub struct ExOffsetDateTime(time::OffsetDateTime);

/// `time::OffsetDateTime::now_utc`: the current moment. It depends on the
/// clock, so nothing is promised of it.
#[verifier::external_body]
fn now_utc() -> time::OffsetDateTime {
    time::OffsetDateTime::now_utc()
}

/// One line of streamed run output with its wall-clock timestamp.
#[derive(Debug)]
pub struct RunLine {
    pub timestamp: time::OffsetDateTime,
    pub text: String,
}

impl RunLine {
    /// An empty line, stamped now.
    pub fn blank() -> (r: RunLine)
        ensures
            r.text@ == Seq::<char>::empty(),
    {
        RunLine { timestamp: now_utc(), text: String::new() }
    }

    pub fn text(&self) -> (r: &str)
        ensures
            r@ == self.text@,
    {
        self.text.as_str()
    }
}

/// The texts of a run's lines.
pub open spec fn run_texts(lines: Seq<RunLine>) -> Seq<Seq<char>> {
    lines.map_values(|l: RunLine| l.text@)
}

/// A file queued for `$EDITOR`, and where to send it back to afterward.
#[derive(Debug, Clone, PartialEq, Eq)]
pub struct PendingEdit<T = String> {
    pub path: T,
    /// Set when the edit came from a device file: a successful exit
    /// re-uploads there.
    pub device_target: Option<DevicePath<T>>,
}

pub open spec fn opt_path(p: Option<DevicePath>) -> Option<DevicePath<Seq<char>>> {
    match p {
        Some(p) => Some(p.model()),
        None => None,
    }
}

impl PendingEdit<String> {
    pub open spec fn model(self) -> PendingEdit<Seq<char>> {
        PendingEdit { path: self.path@, device_target: opt_path(self.device_target) }
    }
}

#[verifier::opaque]
pub open spec fn opt_edit(p: Option<PendingEdit>) -> Option<PendingEdit<Seq<char>>> {
    match p {
        Some(p) => Some(p.model()),
        None => None,
    }
}

/// The glyphs the tab strips are drawn with.
pub struct Glyphs {
    pub list: String,
    pub screen: String,
    pub prompt: String,
    pub bolt: String,
    pub folder: String,
    pub dashboard: String,
}

/// What is on screen, and where the cursor is.
pub struct Screen {
    pub view: View,
    pub focus: Focus,
    /// Which of row 3's tabs is showing.
    pub log_tab: LogTab,
    pub device_pane_tab: DevicePaneTab,
    /// Row 3 claims the whole dashboard body.
    pub row3_fullscreen: bool,
    pub project_cursor: usize,
    /// Which half of the merged board row the keys act on: the board.
    pub board_segment: bool,
    /// The last list click: pane, row, and when in milliseconds.
    pub last_click: Option<(Focus, usize, u64)>,
    /// The pane letters are showing.
    pub shortcuts_overlay_active: bool,
    /// The last drawn frame's area.
    pub frame_area: Option<Rect>,
}

/// The Monitor tab, and the sessions it can show.
pub struct Monitor {
    /// Which live feed the tab renders.
    pub source: MonitorSource,
    pub scroll: MonitorScroll,
    /// The tab's on-screen geometry, published by the renderer.
    pub view: MonitorView,
    /// The interactive device session.
    pub device: Option<u64>,
    /// The column that session types at.
    pub column: usize,
    /// The script run session.
    pub run: Option<u64>,
    pub run_state: RunState,
}

/// The Terminal tab's shell.
pub struct Terminal {
    pub process: Option<u64>,
    pub program: Option<String>,
    /// The shell keeps running, the keyboard is the dashboard's.
    pub detached: bool,
}

/// Heights and offsets the renderer published, so that paging and clicks
/// match what is drawn.
pub struct Drawn {
    pub log_viewport: usize,
    pub docs_viewport: usize,
    pub dashboard_viewport: usize,
    pub install_viewport: usize,
    pub ota_viewport: usize,
    pub viewer_viewport: usize,
    pub docs_list_offset: usize,
    pub dashboard_list_offset: usize,
}

/// The identification chain a device selection starts: probe, chip,
/// firmware, listing.
pub struct Chain {
    /// A background chip query is due.
    pub flash_query_pending: bool,
    /// The first device listing waits behind the chain.
    pub held_root_listing: bool,
    /// The listing must not be answered from what an earlier board showed.
    pub force_listing: bool,
    /// Where the user's leave to identify the device stands.
    pub identify: IdentifyAuth,
    /// The port the identification question was answered for.
    pub identify_port: Option<String>,
    /// The port the identification read covers.
    pub firmware_check_port: Option<String>,
    pub firmware_check: FirmwareCheck,
    /// The session asking a new device whether a script runs.
    pub probe: Option<u64>,
    /// The backend's tool can hold such a session.
    pub probes: bool,
    /// The port the last such session covered.
    pub probed_port: Option<String>,
    /// The session listening for a boot banner.
    pub version_capture: Option<u64>,
    /// An accepted interruption's script is to be offered back.
    pub restore_pending: bool,
    /// The version the board's banner named.
    pub mpy_version: Option<String>,
}

/// The subsystems' facts.
pub struct Panels {
    pub devices: DeviceState,
    pub browser: Option<Browser>,
    pub build: Option<BuildPanel>,
    pub workspace: Option<WorkspacePanel>,
    pub installer: Option<Installer>,
    pub ota: Option<OtaPanel>,
    pub packages: Packages,
    pub lists: Lists,
}

/// The project, and the questions it leaves open.
pub struct Project {
    pub manager: ProjectManager,
    /// The Project pane's rows.
    pub rows: Vec<ProjectRow>,
    /// The first of them still open.
    pub first_open_row: usize,
    pub mpy_projects: Option<String>,
    pub mpy_project_count: usize,
    /// Where serial ports are looked for.
    pub serial_dir: String,
}

/// What the user prefers, and what the terminal can do.
pub struct Prefs {
    pub theme: ThemeChoice,
    pub icons: IconSet,
    pub glyphs: Glyphs,
    pub keyboard_enhanced: bool,
    pub mouse_enabled: bool,
}

/// What waits to be picked up or answered.
pub struct Pending {
    /// The open shared confirm is the installer's.
    pub install_confirm: bool,
    /// A command to run with the screen handed over.
    pub command: Option<String>,
    pub clipboard: Option<String>,
    /// The user asked for the home screen.
    pub switch_requested: bool,
    pub should_quit: bool,
    pub last_port_count: Option<usize>,
    /// Commands running outside.
    pub commands_running: usize,
    pub ticks: u64,
    pub address_capture_tried: bool,
}

/// The texts and lists the user works on.
pub struct Desk {
    pub viewer: Option<FileViewer>,
    pub pending_edit: Option<PendingEdit>,
    /// The script last run.
    pub run_script: Option<String>,
    pub run_output: Vec<RunLine>,
    /// The SDK toolchains picked, in the order they were.
    pub picked: Vec<usize>,
    /// The programs the installer's tools are pointed at.
    pub installer_tools: Vec<ToolPath>,
    /// The program the OTA client is pointed at.
    pub ota_tool: Option<String>,
    pub home_dir: String,
    pub config_dir: String,
}

/// The desk as the contracts see it.
pub struct DeskModel {
    pub viewer: Option<ViewerModel>,
    pub pending_edit: Option<PendingEdit<Seq<char>>>,
    pub run_script: Option<Seq<char>>,
    pub run_output: Seq<Seq<char>>,
    pub picked: Seq<usize>,
    pub installer_tools: Seq<ToolPath<Seq<char>>>,
    pub ota_tool: Option<Seq<char>>,
    pub home_dir: Seq<char>,
    pub config_dir: Seq<char>,
}

impl Desk {
    pub open spec fn model(self) -> DeskModel {
        DeskModel {
            viewer: opt_viewer(self.viewer),
            pending_edit: opt_edit(self.pending_edit),
            run_script: overlay::opt_text(self.run_script),
            run_output: run_texts(self.run_output@),
            picked: self.picked@,
            installer_tools: tools::tools_model(self.installer_tools@),
            ota_tool: overlay::opt_text(self.ota_tool),
            home_dir: self.home_dir@,
            config_dir: self.config_dir@,
        }
    }
}

/// The application.
pub struct App {
    pub screen: Screen,
    pub monitor: Monitor,
    pub terminal: Terminal,
    pub drawn: Drawn,
    pub chain: Chain,
    pub panels: Panels,
    pub project: Project,
    pub prefs: Prefs,
    pub pending: Pending,
    pub overlay: Option<Overlay>,
    pub flash: Option<FlashPanel>,
    pub dashboard: DashboardState,
    pub desk: Desk,
    pub logs: LogStore,
    /// The address capture in flight.
    pub capture: Option<AddressCapture>,
    /// What is asked of the shell, oldest first.
    pub effects: Vec<Effect>,
}

/// The application as the contracts see it.
pub struct Model {
    pub screen: Screen,
    pub monitor: Monitor,
    pub terminal: Terminal,
    pub drawn: Drawn,
    pub chain: Chain,
    pub panels: Panels,
    pub project: Project,
    pub prefs: Prefs,
    pub pending: Pending,
    pub overlay: Option<Overlay<Seq<char>>>,
    pub flash: Option<FlashPanel<Seq<char>>>,
    pub dashboard: DashModel,
    pub desk: DeskModel,
    pub logs: LogModel,
    pub capture: Option<CaptureModel>,
    pub effects: Seq<EffectModel>,
}

#[verifier::opaque]
pub open spec fn opt_overlay(o: Option<Overlay>) -> Option<Overlay<Seq<char>>> {
    match o {
        Some(o) => Some(o.model()),
        None => None,
    }
}

pub open spec fn opt_flash(f: Option<FlashPanel>) -> Option<FlashPanel<Seq<char>>> {
    match f {
        Some(f) => Some(f.model()),
        None => None,
    }
}

#[verifier::opaque]
pub open spec fn opt_capture(c: Option<AddressCapture>) -> Option<CaptureModel> {
    match c {
        Some(c) => Some(c.model()),
        None => None,
    }
}

#[verifier::opaque]
pub open spec fn opt_viewer(v: Option<FileViewer>) -> Option<ViewerModel> {
    match v {
        Some(v) => Some(v.model()),
        None => None,
    }
}

impl vstd::view::View for App {
    type V = Model;

    open spec fn view(&self) -> Model {
        Model {
            screen: self.screen,
            monitor: self.monitor,
            terminal: self.terminal,
            drawn: self.drawn,
            chain: self.chain,
            panels: self.panels,
            project: self.project,
            prefs: self.prefs,
            pending: self.pending,
            overlay: opt_overlay(self.overlay),
            flash: opt_flash(self.flash),
            dashboard: self.dashboard.model(),
            desk: self.desk.model(),
            logs: self.logs@,
            capture: opt_capture(self.capture),
            effects: effect::effects_model(self.effects@),
        }
    }
}

impl Model {
    /// The same state with the overlay `o` showing.
    pub open spec fn shown(self, o: Overlay<Seq<char>>) -> Model {
        Model { overlay: Some(o), ..self }
    }

    /// The same state with no overlay.
    pub open spec fn closed(self) -> Model {
        Model { overlay: None, ..self }
    }

    pub open spec fn with_screen(self, screen: Screen) -> Model {
        Model { screen, ..self }
    }

    pub open spec fn with_monitor(self, monitor: Monitor) -> Model {
        Model { monitor, ..self }
    }

    pub open spec fn with_terminal(self, terminal: Terminal) -> Model {
        Model { terminal, ..self }
    }

    pub open spec fn with_drawn(self, drawn: Drawn) -> Model {
        Model { drawn, ..self }
    }

    pub open spec fn with_chain(self, chain: Chain) -> Model {
        Model { chain, ..self }
    }

    pub open spec fn with_panels(self, panels: Panels) -> Model {
        Model { panels, ..self }
    }

    pub open spec fn with_project(self, project: Project) -> Model {
        Model { project, ..self }
    }

    pub open spec fn with_prefs(self, prefs: Prefs) -> Model {
        Model { prefs, ..self }
    }

    pub open spec fn with_pending(self, pending: Pending) -> Model {
        Model { pending, ..self }
    }

    pub open spec fn with_desk(self, desk: DeskModel) -> Model {
        Model { desk, ..self }
    }

    pub open spec fn with_dashboard(self, dashboard: DashModel) -> Model {
        Model { dashboard, ..self }
    }

    pub open spec fn with_flash(self, flash: FlashPanel<Seq<char>>) -> Model {
        Model { flash: Some(flash), ..self }
    }

    /// One more line in the log.
    pub open spec fn logged(self, level: Level, text: Seq<char>) -> Model {
        Model { logs: self.logs.push(level, text), ..self }
    }

    pub open spec fn info(self, text: Seq<char>) -> Model {
        self.logged(Level::Info, text)
    }

    pub open spec fn warn(self, text: Seq<char>) -> Model {
        self.logged(Level::Warn, text)
    }

    pub open spec fn error(self, text: Seq<char>) -> Model {
        self.logged(Level::Error, text)
    }

    /// One more effect asked for.
    pub open spec fn emit(self, effect: EffectModel) -> Model {
        Model { effects: self.effects.push(effect), ..self }
    }

    /// One more task asked for.
    pub open spec fn task(self, task: Task) -> Model {
        self.emit(Effect::Task(task))
    }

    pub open spec fn focused(self, focus: Focus) -> Model {
        self.with_screen(Screen { focus, ..self.screen })
    }

    pub open spec fn caps(self) -> Capabilities {
        self.project.manager.caps()
    }

    pub open spec fn port(self) -> Option<String> {
        self.panels.devices.port()
    }
}

impl App {
    /// Appends an effect.
    pub fn emit(&mut self, effect: Effect)
        ensures
            final(self)@ == old(self)@.emit(effect.model()),
    {
        self.effects.push(effect);
        assert(effect::effects_model(self.effects@) =~= effect::effects_model(old(self).effects@).push(
            effect.model(),
        ));
    }

    pub fn task(&mut self, task: Task)
        ensures
            final(self)@ == old(self)@.task(task),
    {
        self.emit(Effect::Task(task));
    }

    pub fn log(&mut self, level: Level, text: &str)
        ensures
            final(self)@ == old(self)@.logged(level, text@),
    {
        self.logs.push(level, text.to_owned());
    }

    pub fn info(&mut self, text: &str)
        ensures
            final(self)@ == old(self)@.info(text@),
    {
        self.log(Level::Info, text);
    }

    pub fn warn(&mut self, text: &str)
        ensures
            final(self)@ == old(self)@.warn(text@),
    {
        self.log(Level::Warn, text);
    }

    pub fn error(&mut self, text: &str)
        ensures
            final(self)@ == old(self)@.error(text@),
    {
        self.log(Level::Error, text);
    }

    /// Takes the effects asked for so far, oldest first.
    pub fn take_effects(&mut self) -> (r: Vec<Effect>)
        ensures
            effect::effects_model(r@) == old(self)@.effects,
            final(self)@ == (Model { effects: Seq::empty(), ..old(self)@ }),
    {
        let mut taken: Vec<Effect> = Vec::new();
        std::mem::swap(&mut taken, &mut self.effects);
        assert(effect::effects_model(self.effects@) =~= Seq::empty());
        taken
    }

    /// Opens an overlay, in place of whichever was open.
    pub fn show(&mut self, overlay: Overlay)
        ensures
            final(self)@ == old(self)@.shown(overlay.model()),
    {
        reveal(opt_overlay);
        self.overlay = Some(overlay);
    }

    /// Closes the overlay.
    pub fn close(&mut self)
        ensures
            final(self)@ == old(self)@.closed(),
    {
        reveal(opt_overlay);
        self.overlay = None;
    }

    /// Closes the overlay, handing it over.
    pub fn take_overlay(&mut self) -> (r: Option<Overlay>)
        ensures
            final(self)@ == old(self)@.closed(),
            match r {
                Some(overlay) => old(self)@.overlay == Some(overlay.model()),
                None => old(self)@.overlay is None,
            },
    {
        reveal(opt_overlay);
        self.overlay.take()
    }

    /// Whether a modal owns the screen.
    pub fn has_overlay(&self) -> (r: bool)
        ensures
            r == (self@.overlay is Some),
    {
        reveal(opt_overlay);
        self.overlay.is_some()
    }

    pub fn capabilities(&self) -> (r: Capabilities)
        ensures
            r == self@.caps(),
    {
        self.project.manager.capabilities()
    }

    pub fn port(&self) -> (r: Option<String>)
        ensures
            r == self@.port(),
    {
        self.panels.devices.selected_port()
    }
}

} // verus!
