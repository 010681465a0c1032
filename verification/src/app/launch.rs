//! A session's first state.

use vstd::prelude::*;
use vstd::view::View as _;
use vstd::string::*;

use crate::app;
use crate::app::{
    App, Chain, Desk, DeskModel, DevicePaneTab, DocsFocus, Drawn, Focus, Glyphs, LogTab, Model,
    Monitor, Panels, Pending, Prefs, Project, RunState, Screen, Terminal, View,
};
use crate::app::build_dashboard_view;
use crate::app::build_dashboard_view::{DashModel, DashPane, DashboardState};
use crate::app::flash_view::{FirmwareCheck, IdentifyAuth};
use crate::app::monitor_view::{MonitorScroll, MonitorSource, MonitorView};
use crate::app::tools;
use crate::app::tools::ToolPath;
use crate::effect::EffectModel;
use crate::logs::{LogModel, LogStore};
use crate::overlay;
use crate::panels::{DeviceState, Discovery, Lists, Packages, ProjectManager, ScriptState};
use crate::theme;
use crate::theme::{resolve_icons, resolve_theme};

verus! {

/// What a session starts from: the directory, the user's home and stored
/// choices, and the tables the shell draws with.
pub struct Launch {
    pub start_dir: String,
    pub home_dir: String,
    /// Where the user configuration lives.
    pub config_dir: String,
    /// The stored theme's slug.
    pub theme: Option<String>,
    /// The stored icon set's slug.
    pub icons: Option<String>,
    pub glyphs: Glyphs,
    /// The build dashboard's tabs, in strip order.
    pub dashboard_labels: Vec<String>,
    /// The Memory tab's place among them.
    pub memory_tab: usize,
    /// The largest device file worth previewing, in bytes.
    pub max_view_bytes: u64,
}

/// A dashboard pane nothing was typed or selected in.
pub open spec fn blank_pane() -> DashPane<Seq<char>> {
    DashPane { input: Seq::empty(), selected: 0, scroll: 0, rows: 0 }
}

fn blank_panes(count: usize) -> (r: Vec<DashPane>)
    ensures
        build_dashboard_view::panes_model(r@) == Seq::new(count as nat, |i: int| blank_pane()),
{
    let mut r: Vec<DashPane> = Vec::new();
    let mut i: usize = 0;
    while i < count
        invariant
            i <= count,
            r@.len() == i,
            forall|k: int| 0 <= k < i ==> (#[trigger] r@[k]).model() == blank_pane(),
        decreases count - i,
    {
        let pane = DashPane { input: String::new(), selected: 0, scroll: 0, rows: 0 };
        assert(pane.model().input =~= Seq::<char>::empty());
        r.push(pane);
        i = i + 1;
    }
    assert(build_dashboard_view::panes_model(r@) =~= Seq::new(
        count as nat,
        |i: int| blank_pane(),
    ));
    r
}

impl Lists {
    /// Nothing is listed yet.
    pub open spec fn blank(self) -> bool {
        &&& self.pane_actions@.len() == 0
        &&& self.online_boards@.len() == 0
        &&& self.online_firmware@.len() == 0
        &&& self.build_actions@.len() == 0
        &&& self.variants@.len() == 0
        &&& self.boards@.len() == 0
        &&& self.shields@.len() == 0
        &&& self.build_dirs@.len() == 0
        &&& self.device_entries@.len() == 0
        &&& self.install_steps@.len() == 0
    }

    fn new(max_view_bytes: u64) -> (r: Lists)
        ensures
            r.blank(),
            r.max_view_bytes == max_view_bytes,
    {
        Lists {
            pane_actions: Vec::new(),
            online_boards: Vec::new(),
            online_firmware: Vec::new(),
            build_actions: Vec::new(),
            variants: Vec::new(),
            boards: Vec::new(),
            shields: Vec::new(),
            build_dirs: Vec::new(),
            device_entries: Vec::new(),
            max_view_bytes,
            install_steps: Vec::new(),
        }
    }
}

impl Screen {
    pub open spec fn fresh() -> Screen {
        Screen {
            view: View::Dashboard,
            focus: Focus::FilesLocal,
            log_tab: LogTab::Log,
            device_pane_tab: DevicePaneTab::Files,
            row3_fullscreen: false,
            project_cursor: 0,
            board_segment: true,
            last_click: None,
            shortcuts_overlay_active: false,
            frame_area: None,
        }
    }
}

impl Monitor {
    pub open spec fn fresh() -> Monitor {
        Monitor {
            source: MonitorSource::Device,
            scroll: MonitorScroll::tail(),
            view: MonitorView { rows: 0, viewport: 0, width: 0 },
            device: None,
            column: 0,
            run: None,
            run_state: RunState::Idle,
        }
    }
}

impl Drawn {
    pub open spec fn fresh() -> Drawn {
        Drawn {
            log_viewport: 1,
            docs_viewport: 1,
            dashboard_viewport: 1,
            install_viewport: 0,
            ota_viewport: 0,
            viewer_viewport: 1,
            docs_list_offset: 0,
            dashboard_list_offset: 0,
        }
    }
}

impl Chain {
    pub open spec fn fresh() -> Chain {
        Chain {
            flash_query_pending: false,
            held_root_listing: false,
            force_listing: false,
            identify: IdentifyAuth::Idle,
            identify_port: None,
            firmware_check_port: None,
            firmware_check: FirmwareCheck::Idle,
            probe: None,
            probes: false,
            probed_port: None,
            version_capture: None,
            restore_pending: false,
            mpy_version: None,
        }
    }
}

impl Pending {
    pub open spec fn fresh() -> Pending {
        Pending {
            install_confirm: false,
            command: None,
            clipboard: None,
            switch_requested: false,
            should_quit: false,
            last_port_count: None,
            commands_running: 0,
            ticks: 0,
            address_capture_tried: false,
        }
    }
}

impl Panels {
    /// No subsystem is there yet.
    pub open spec fn bare(self) -> bool {
        &&& self.devices.devices@.len() == 0
        &&& self.devices.selected is None
        &&& self.devices.discovery == Discovery::NotScanned
        &&& self.devices.script == ScriptState::Unknown
        &&& self.browser is None
        &&& self.build is None
        &&& self.workspace is None
        &&& self.installer is None
        &&& self.ota is None
        &&& self.packages == (Packages { details_focused: false, selected: 0, scroll: 0, len: 0 })
        &&& self.lists.blank()
    }
}

impl Model {
    /// The state a session opens in: the dashboard, focus on the local
    /// files, nothing running and nothing asked for.
    pub open spec fn opens(self, launch: Launch) -> bool {
        &&& self.screen == Screen::fresh()
        &&& self.monitor == Monitor::fresh()
        &&& self.terminal == (Terminal { process: None, program: None, detached: false })
        &&& self.drawn == Drawn::fresh()
        &&& self.chain == Chain::fresh()
        &&& self.pending == Pending::fresh()
        &&& self.panels.bare()
        &&& self.panels.lists.max_view_bytes == launch.max_view_bytes
        &&& self.project.manager == (ProjectManager {
            detected: None,
            chosen: None,
            root: None,
            start_dir: launch.start_dir,
        })
        &&& self.project.rows@.len() == 0
        &&& self.project.first_open_row == 0
        &&& self.project.mpy_projects is None
        &&& self.project.mpy_project_count == 0
        &&& self.project.serial_dir@ == "/dev"@
        &&& self.prefs == (Prefs {
            theme: theme::stored_theme(overlay::opt_text(launch.theme)),
            icons: theme::stored_icons(overlay::opt_text(launch.icons)),
            glyphs: launch.glyphs,
            keyboard_enhanced: false,
            mouse_enabled: false,
        })
        &&& self.overlay is None
        &&& self.flash is None
        &&& self.dashboard == (DashModel {
            tab: 0,
            focus: DocsFocus::List,
            panes: Seq::new(launch.dashboard_labels@.len(), |i: int| blank_pane()),
            labels: launch.dashboard_labels,
            memory_tab: launch.memory_tab,
            prompt_selected: false,
        })
        &&& self.desk == (DeskModel {
            viewer: None,
            pending_edit: None,
            run_script: None,
            run_output: Seq::empty(),
            picked: Seq::empty(),
            installer_tools: Seq::empty(),
            ota_tool: None,
            home_dir: launch.home_dir@,
            config_dir: launch.config_dir@,
        })
        &&& self.logs == (LogModel { lines: Seq::empty(), scroll: 0 })
        &&& self.capture is None
        &&& self.effects == Seq::<EffectModel>::empty()
    }
}

fn first_screen() -> (r: Screen)
    ensures
        r == Screen::fresh(),
{
    Screen {
        view: View::Dashboard,
        focus: Focus::FilesLocal,
        log_tab: LogTab::Log,
        device_pane_tab: DevicePaneTab::Files,
        row3_fullscreen: false,
        project_cursor: 0,
        board_segment: true,
        last_click: None,
        shortcuts_overlay_active: false,
        frame_area: None,
    }
}

fn first_monitor() -> (r: Monitor)
    ensures
        r == Monitor::fresh(),
{
    Monitor {
        source: MonitorSource::Device,
        scroll: MonitorScroll::default(),
        view: MonitorView { rows: 0, viewport: 0, width: 0 },
        device: None,
        column: 0,
        run: None,
        run_state: RunState::Idle,
    }
}

fn first_chain() -> (r: Chain)
    ensures
        r == Chain::fresh(),
{
    Chain {
        flash_query_pending: false,
        held_root_listing: false,
        force_listing: false,
        identify: IdentifyAuth::Idle,
        identify_port: None,
        firmware_check_port: None,
        firmware_check: FirmwareCheck::Idle,
        probe: None,
        probes: false,
        probed_port: None,
        version_capture: None,
        restore_pending: false,
        mpy_version: None,
    }
}

fn first_pending() -> (r: Pending)
    ensures
        r == Pending::fresh(),
{
    Pending {
        install_confirm: false,
        command: None,
        clipboard: None,
        switch_requested: false,
        should_quit: false,
        last_port_count: None,
        commands_running: 0,
        ticks: 0,
        address_capture_tried: false,
    }
}

fn first_panels(max_view_bytes: u64) -> (r: Panels)
    ensures
        r.bare(),
        r.lists.max_view_bytes == max_view_bytes,
{
    Panels {
        devices: DeviceState {
            devices: Vec::new(),
            selected: None,
            discovery: Discovery::NotScanned,
            script: ScriptState::Unknown,
        },
        browser: None,
        build: None,
        workspace: None,
        installer: None,
        ota: None,
        packages: Packages { details_focused: false, selected: 0, scroll: 0, len: 0 },
        lists: Lists::new(max_view_bytes),
    }
}

fn first_desk(home_dir: String, config_dir: String) -> (r: Desk)
    ensures
        r.model() == (DeskModel {
            viewer: None,
            pending_edit: None,
            run_script: None,
            run_output: Seq::empty(),
            picked: Seq::empty(),
            installer_tools: Seq::empty(),
            ota_tool: None,
            home_dir: home_dir@,
            config_dir: config_dir@,
        }),
{
    reveal(app::opt_viewer);
    reveal(app::opt_edit);
    let r = Desk {
        viewer: None,
        pending_edit: None,
        run_script: None,
        run_output: Vec::new(),
        picked: Vec::new(),
        installer_tools: Vec::new(),
        ota_tool: None,
        home_dir,
        config_dir,
    };
    assert(app::run_texts(r.run_output@) =~= Seq::<Seq<char>>::empty());
    assert(r.picked@ =~= Seq::<usize>::empty());
    assert(tools::tools_model(r.installer_tools@) =~= Seq::<ToolPath<Seq<char>>>::empty());
    r
}

impl App {
    /// A session's first state.
    pub fn new(launch: Launch) -> (r: App)
        ensures
            r@.opens(launch),
    {
        reveal(app::opt_overlay);
        reveal(app::opt_capture);
        let theme = match &launch.theme {
            Some(slug) => resolve_theme(Some(slug.as_str())),
            None => resolve_theme(None),
        };
        let icons = match &launch.icons {
            Some(slug) => resolve_icons(Some(slug.as_str())),
            None => resolve_icons(None),
        };
        let panes = blank_panes(launch.dashboard_labels.len());
        let r = App {
            screen: first_screen(),
            monitor: first_monitor(),
            terminal: Terminal { process: None, program: None, detached: false },
            drawn: Drawn {
                log_viewport: 1,
                docs_viewport: 1,
                dashboard_viewport: 1,
                install_viewport: 0,
                ota_viewport: 0,
                viewer_viewport: 1,
                docs_list_offset: 0,
                dashboard_list_offset: 0,
            },
            chain: first_chain(),
            panels: first_panels(launch.max_view_bytes),
            project: Project {
                manager: ProjectManager {
                    detected: None,
                    chosen: None,
                    root: None,
                    start_dir: launch.start_dir,
                },
                rows: Vec::new(),
                first_open_row: 0,
                mpy_projects: None,
                mpy_project_count: 0,
                serial_dir: "/dev".to_owned(),
            },
            prefs: Prefs {
                theme,
                icons,
                glyphs: launch.glyphs,
                keyboard_enhanced: false,
                mouse_enabled: false,
            },
            pending: first_pending(),
            overlay: None,
            flash: None,
            dashboard: DashboardState {
                tab: 0,
                focus: DocsFocus::List,
                panes,
                labels: launch.dashboard_labels,
                memory_tab: launch.memory_tab,
                prompt_selected: false,
            },
            desk: first_desk(launch.home_dir, launch.config_dir),
            logs: LogStore::new(),
            capture: None,
            effects: Vec::new(),
        };
        assert(r@.effects =~= Seq::<EffectModel>::empty());
        r
    }
}

} // verus!
