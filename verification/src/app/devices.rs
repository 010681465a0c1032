//! Device discovery and selection: looking for a board, the device picker,
//! and a backend choice taking effect.

use vstd::prelude::*;
use vstd::string::*;

use crate::app;
use crate::app::{App, Chain, Focus, LogTab, Model, Monitor, Panels, Project, Screen};
use crate::app::file_browser;
use crate::app::flash_view::{FirmwareCheck, FirmwareHold, IdentifyAuth};
use crate::app::monitor_view::MonitorSource;
use crate::backend::{BackendKind, Capability};
use crate::effect::{Effect, Task};
use crate::logs::Level;
use crate::overlay::Overlay;
use crate::panels;
use crate::panels::{
    Browser, BuildPanel, DeviceInfo, DeviceState, Discovery, PaneState, ProjectManager,
    ScriptState, WorkspacePanel,
};
use crate::text;

verus! {

broadcast use crate::overlay::group_overlay_models;

/// The names a host gives its USB serial ports.
pub open spec fn is_serial_port(name: Seq<char>) -> bool {
    ||| "ttyUSB"@.is_prefix_of(name)
    ||| "ttyACM"@.is_prefix_of(name)
    ||| "cu.usb"@.is_prefix_of(name)
    ||| "tty.usb"@.is_prefix_of(name)
}

fn serial_port_name(name: &str) -> (r: bool)
    ensures
        r == is_serial_port(name@),
{
    text::starts_with(name, "ttyUSB") || text::starts_with(name, "ttyACM") || text::starts_with(
        name,
        "cu.usb",
    ) || text::starts_with(name, "tty.usb")
}

/// How many of a device directory's entries are serial ports.
pub fn count_serial_ports(names: &Vec<String>) -> (r: usize)
    ensures
        r == names@.filter(|name: String| is_serial_port(name@)).len(),
{
    let ghost keep = |name: String| is_serial_port(name@);
    let mut count: usize = 0;
    let mut i: usize = 0;
    assert(names@.take(0).filter(keep).len() == 0) by {
        reveal(Seq::filter);
    }
    while i < names.len()
        invariant
            count <= i <= names.len(),
            keep == (|name: String| is_serial_port(name@)),
            count == names@.take(i as int).filter(keep).len(),
        decreases names.len() - i,
    {
        proof {
            let t = names@.take(i + 1);
            assert(t.drop_last() =~= names@.take(i as int));
            assert(t.last() == names@[i as int]);
            reveal(Seq::filter);
        }
        if serial_port_name(names[i].as_str()) {
            count = count + 1;
        }
        i = i + 1;
    }
    assert(names@.take(names@.len() as int) =~= names@);
    count
}

/// A row of the backend picker: `Automatic` first, then each backend.
#[derive(Debug, Clone, Copy, PartialEq, Eq, Structural)]
pub enum PickerOption {
    /// What detection concludes.
    Automatic,
    Backend(BackendKind),
}

impl PickerOption {
    pub open spec fn spec_at(index: int) -> Option<PickerOption> {
        if index == 0 {
            Some(PickerOption::Automatic)
        } else {
            match BackendKind::spec_at(index - 1) {
                Some(kind) => Some(PickerOption::Backend(kind)),
                None => None,
            }
        }
    }

    /// The option in row `index`.
    pub fn at(index: usize) -> (r: Option<PickerOption>)
        ensures
            r == Self::spec_at(index as int),
    {
        if index == 0 {
            return Some(PickerOption::Automatic);
        }
        match BackendKind::at(index - 1) {
            Some(kind) => Some(PickerOption::Backend(kind)),
            None => None,
        }
    }
}

impl Model {
    pub open spec fn with_devices(self, devices: DeviceState) -> Model {
        self.with_panels(Panels { devices, ..self.panels })
    }

    pub open spec fn browser_busy(self) -> bool {
        self.panels.browser matches Some(browser) && browser.busy
    }

    /// The device pane waiting for an answer.
    pub open spec fn pane_loading(self) -> Model {
        match self.panels.browser {
            Some(browser) => self.with_browser(
                Browser { device_state: PaneState::Loading, ..browser },
            ),
            None => self,
        }
    }

    /// The file browser created for a backend without a build panel, and a
    /// device scan started with it where there is a filesystem to list.
    pub open spec fn browser_ensured(self) -> Model {
        if self.panels.browser is Some || self.builds() {
            self
        } else {
            let dir = self.project.manager.spec_dir();
            let m = self.with_browser(Browser::fresh(dir)).task(Task::CreateBrowser { root: dir });
            if self.caps().filesystem {
                m.devices_asked()
            } else {
                m
            }
        }
    }

    /// The build panel, and the workspace pane beside it, created once.
    pub open spec fn build_ensured(self) -> Model {
        let dir = self.project.manager.spec_dir();
        let m = if self.builds() && self.panels.build is None {
            self.with_panels(
                Panels { build: Some(BuildPanel::fresh(dir)), ..self.panels },
            ).task(Task::CreateBuildPanel { root: dir })
        } else {
            self
        };
        if self.caps().workspace_sync && self.panels.workspace is None {
            m.with_panels(
                Panels { workspace: Some(WorkspacePanel::fresh()), ..m.panels },
            ).task(Task::CreateWorkspacePanel)
        } else {
            m
        }
    }

    /// The walk over the serial ports asked for.
    pub open spec fn serial_asked(self) -> Model {
        self.with_devices(
            DeviceState { discovery: Discovery::Scanning, ..self.panels.devices },
        ).task(Task::ScanSerialPorts { dir: self.project.serial_dir })
    }

    /// Everything a backend's arrival makes possible, looked for at once.
    pub open spec fn discovered(self) -> Model {
        let m = self.browser_ensured().build_ensured();
        if m.caps().filesystem || !m.caps().monitor {
            m
        } else {
            m.serial_asked()
        }
    }

    /// What the walk found: one port selects itself, several ask, none says
    /// why.
    pub open spec fn serial_found(self, devices: Vec<DeviceInfo>) -> Model {
        if devices@.len() == 0 {
            self.with_devices(self.panels.devices.failed(Discovery::NoSerialPort))
        } else {
            let m = self.with_devices(self.panels.devices.with_devices(devices));
            if m.panels.devices.undecided() {
                m.device_picker_opened()
            } else {
                m
            }
        }
    }

    /// A device listing asked for, the pane waiting on it.
    pub open spec fn devices_asked(self) -> Model {
        if self.panels.browser is None {
            self
        } else {
            self.with_devices(
                DeviceState { discovery: Discovery::Scanning, ..self.panels.devices },
            ).pane_loading().task(Task::ScanDevices)
        }
    }

    /// Nothing is known of the selected device, and nothing asked it yet.
    pub open spec fn probe_wanted(self) -> bool {
        &&& self.chain.probes
        &&& self.chain.probe is None
        &&& self.panels.browser is Some
        &&& self.panels.devices.script == ScriptState::Unknown
        &&& match (self.port(), self.chain.probed_port) {
            (Some(port), Some(probed)) => port@ != probed@,
            (Some(_), None) => true,
            (None, _) => false,
        }
    }

    /// The probe asked for, its port noted, the listing waiting on it.
    pub open spec fn probe_asked(self) -> Model {
        self.with_chain(Chain { probed_port: self.port(), ..self.chain }).task(
            Task::StartProbe { port: self.port() },
        ).pane_loading()
    }

    pub open spec fn root_listed(self, force: bool) -> Model {
        if self.panels.browser is Some {
            self.task(Task::LoadDevice { port: self.port(), force })
        } else {
            self
        }
    }

    /// The listing nothing holds any longer.
    pub open spec fn root_released(self) -> Model {
        self.with_chain(Chain { force_listing: false, ..self.chain }).root_listed(
            self.chain.force_listing,
        )
    }

    /// The device's root, behind the probe, the identification question,
    /// the chip query and the firmware read, whichever still owns the port.
    pub open spec fn root_loaded(self) -> Model {
        if self.probe_wanted() {
            self.probe_asked()
        } else {
            let (chip, held) = self.chip_held();
            if held {
                chip
            } else {
                let (m, hold) = chip.firmware_held();
                match hold {
                    FirmwareHold::Release => m.root_released(),
                    _ => m,
                }
            }
        }
    }

    /// The probe asked for was started, or could not be: then the listing
    /// goes on without it.
    pub open spec fn probe_answered(self, id: Option<u64>) -> Model {
        match id {
            Some(id) => self.with_chain(Chain { probe: Some(id), ..self.chain }),
            None => self.root_loaded(),
        }
    }

    /// What is believed of user code on the device, and the browser's gate
    /// in step with it.
    pub open spec fn script_marked(self, state: ScriptState) -> Model {
        let m = self.with_devices(DeviceState { script: state, ..self.panels.devices });
        let m = if self.panels.devices.script == state {
            m
        } else {
            match state {
                ScriptState::Running => m.warn(
                    "device marked as running --- device operations will ask before interrupting"@,
                ),
                ScriptState::Stopped => m.info("device script marked as stopped"@),
                ScriptState::Unknown => m,
            }
        };
        if self.panels.browser is Some {
            m.task(Task::InterruptGate { hold: state == ScriptState::Running, port: m.port() })
        } else {
            m
        }
    }

    /// What the live monitor shows of it.
    pub open spec fn monitor_told(self, state: ScriptState) -> Model {
        if self.panels.devices.script == state {
            self
        } else {
            let m = match state {
                ScriptState::Running => self.info(
                    "monitor shows a running script --- device operations will ask before interrupting"@,
                ),
                ScriptState::Stopped => self.info("monitor shows an idle REPL"@),
                ScriptState::Unknown => self,
            };
            m.script_marked(state)
        }
    }

    /// Requests, or the first listing behind its identification, wait for a
    /// script believed running.
    pub open spec fn interruption_wanted(self) -> bool {
        ||| self.panels.browser matches Some(browser) && browser.held
        ||| self.chain.held_root_listing && self.chain.flash_query_pending
            && self.panels.devices.script == ScriptState::Running
    }

    /// The interrupt question, when something waits on its answer and the
    /// screen is free; over the package manager it takes its place for a
    /// while.
    pub open spec fn gate_checked(self) -> Model {
        if !self.interruption_wanted() {
            self
        } else {
            match self.overlay {
                None => self.shown(
                    Overlay::ConfirmInterruptDevice { confirm: false, return_to_packages: false },
                ),
                Some(Overlay::Packages) => self.shown(
                    Overlay::ConfirmInterruptDevice { confirm: false, return_to_packages: true },
                ),
                Some(_) => self,
            }
        }
    }

    /// The identification chain is not through yet.
    pub open spec fn identifying(self) -> bool {
        ||| self.chain.identify == IdentifyAuth::Pending
        ||| self.chain.flash_query_pending
        ||| self.chain.firmware_check != FirmwareCheck::Idle
        ||| (self.flash matches Some(flash) && flash.chip_query_running)
    }

    /// The restore question, once the operations an interruption let through
    /// have drained. `Leave it stopped` is highlighted.
    pub open spec fn restore_offered(self) -> Model {
        if !self.chain.restore_pending || self.chain.probe is Some || self.browser_busy()
            || self.identifying() {
            self
        } else {
            let m = self.with_chain(Chain { restore_pending: false, ..self.chain });
            match self.overlay {
                None => m.shown(
                    Overlay::RestoreDeviceScript { selected: 2, return_to_packages: false },
                ),
                Some(Overlay::Packages) => m.shown(
                    Overlay::RestoreDeviceScript { selected: 2, return_to_packages: true },
                ),
                Some(_) => self,
            }
        }
    }

    pub open spec fn device_picker_opened(self) -> Model {
        self.shown(
            Overlay::DevicePicker {
                selected: match self.panels.devices.selected {
                    Some(index) => index,
                    None => 0,
                },
            },
        )
    }

    /// The device in row `selected` chosen by hand: its identification is
    /// asked about, its listing waits.
    pub open spec fn device_picked(self, selected: usize) -> Model {
        let devices = self.panels.devices;
        if selected >= devices.known() {
            self
        } else {
            let m = self.with_devices(devices.chosen(selected)).info(
                "device set to "@ + devices.devices@[selected as int].label@,
            );
            if !m.caps().filesystem {
                m
            } else {
                m.with_chain(
                    Chain { identify_port: None, force_listing: true, ..m.chain },
                ).identification_requested().root_loaded()
            }
        }
    }

    /// The backend picker's row for the answer in force.
    pub open spec fn picker_row(self) -> int {
        match self.project.manager.chosen {
            None => 0,
            Some(BackendKind::MicroPython) => 1,
            Some(BackendKind::Zephyr) => 2,
        }
    }

    pub open spec fn overridden(self, kind: Option<BackendKind>) -> Model {
        self.with_project(
            Project {
                manager: ProjectManager { chosen: kind, ..self.project.manager },
                ..self.project
            },
        )
    }

    /// The backend picker's answer.
    pub open spec fn backend_picked(self, selected: usize) -> Model {
        match PickerOption::spec_at(selected as int) {
            None => self,
            Some(PickerOption::Automatic) => {
                let m = self.overridden(None);
                match m.project.manager.spec_kind() {
                    Some(kind) => m.info(
                        "override cleared; detection selects "@ + kind.spec_label(),
                    ),
                    None => m.warn("override cleared; detection did not identify a backend"@),
                }.discovered().focus_clamped()
            },
            Some(PickerOption::Backend(kind)) => self.overridden(Some(kind)).info(
                "backend overridden to "@ + kind.spec_label(),
            ).task(Task::ReportTools).discovered().focus_clamped(),
        }
    }

    /// The empty project's answer: in force for the session, and asked to be
    /// kept in the project.
    pub open spec fn project_set_up(self, selected: usize) -> Model {
        match BackendKind::spec_at(selected as int) {
            None => self,
            Some(kind) => {
                let m = self.overridden(Some(kind)).task(Task::SaveScaffold(kind));
                let m = if kind == BackendKind::MicroPython {
                    m.task(Task::EnsureLayout)
                } else {
                    m
                };
                m.task(Task::ReportTools).discovered().focus_clamped()
            },
        }
    }

    pub open spec fn scaffold_answered(
        self,
        kind: BackendKind,
        failure: Option<Seq<char>>,
    ) -> Model {
        match failure {
            None => self.logged(
                Level::Success,
                kind.spec_label() + " selected and saved to chiptui.toml in this project"@,
            ),
            Some(e) => self.warn(
                kind.spec_label()
                    + " selected for this session, but chiptui.toml could not be saved: "@ + e,
            ),
        }
    }

    pub open spec fn monitor_asked(self) -> Model {
        if self.project.manager.spec_kind() is Some {
            self.task(Task::SpawnMonitor { port: self.port() })
        } else {
            self
        }
    }

    /// The monitor's session started as `outcome`, or failed with it: the
    /// tab shows and owns the keyboard either way.
    pub open spec fn monitor_answered(self, outcome: Result<u64, Seq<char>>) -> Model {
        let m = self.with_screen(
            Screen { focus: Focus::Logs, log_tab: LogTab::Monitor, ..self.screen },
        ).with_monitor(
            Monitor {
                source: MonitorSource::Device,
                column: 0,
                device: match outcome {
                    Ok(id) => Some(id),
                    Err(_) => None,
                },
                ..self.monitor
            },
        );
        match outcome {
            Ok(_) => m,
            Err(e) => m.error("could not open monitor: "@ + e),
        }
    }
}

impl App {
    pub fn is_browser_busy(&self) -> (r: bool)
        ensures
            r == self@.browser_busy(),
    {
        match &self.panels.browser {
            Some(browser) => browser.busy,
            None => false,
        }
    }

    fn set_pane_loading(&mut self)
        ensures
            final(self)@ == old(self)@.pane_loading(),
    {
        if let Some(browser) = &mut self.panels.browser {
            browser.device_state = PaneState::Loading;
        }
    }

    /// Creates whatever the backend's panes need, once, and looks for
    /// devices.
    pub fn maybe_scan_devices(&mut self)
        ensures
            final(self)@ == old(self)@.discovered(),
    {
        self.ensure_browser_scanning();
        self.ensure_build_panel();
        self.maybe_scan_serial_ports();
    }

    fn maybe_scan_serial_ports(&mut self)
        ensures
            final(self)@ == if old(self)@.caps().filesystem || !old(self)@.caps().monitor {
                old(self)@
            } else {
                old(self)@.serial_asked()
            },
    {
        let caps = self.capabilities();
        if caps.contains(Capability::Filesystem) || !caps.contains(Capability::Monitor) {
            return;
        }
        self.scan_serial_devices();
    }

    /// Points the serial scan at another directory.
    pub fn set_serial_dir(&mut self, dir: String)
        ensures
            final(self)@ == old(self)@.with_project(
                Project { serial_dir: dir, ..old(self)@.project },
            ),
    {
        self.project.serial_dir = dir;
    }

    /// Walks the serial ports.
    pub fn scan_serial_devices(&mut self)
        ensures
            final(self)@ == old(self)@.serial_asked(),
    {
        self.panels.devices.set_scanning();
        let dir = self.project.serial_dir.clone();
        self.task(Task::ScanSerialPorts { dir });
    }

    /// The walk over the serial ports ended.
    pub fn serial_ports_found(&mut self, devices: Vec<DeviceInfo>)
        ensures
            final(self)@ == old(self)@.serial_found(devices),
    {
        if devices.len() == 0 {
            self.panels.devices.set_failed(Discovery::NoSerialPort);
            return;
        }
        self.panels.devices.set_devices(devices);
        if self.panels.devices.needs_selection() {
            self.open_device_picker();
        }
    }

    fn ensure_browser_scanning(&mut self)
        ensures
            final(self)@ == old(self)@.browser_ensured(),
    {
        if self.panels.browser.is_some() || self.build_pane_visible_precondition() {
            return;
        }
        let dir = self.project.manager.dir();
        self.panels.browser = Some(Browser::new(dir.clone()));
        self.task(Task::CreateBrowser { root: dir });
        if self.capabilities().contains(Capability::Filesystem) {
            self.scan_devices();
        }
    }

    /// The file browser asked for was opened: on the project's `src/` when
    /// it has one, on its root otherwise.
    pub fn browser_opened(&mut self, has_src: bool)
        ensures
            ({
                let root = old(self)@.project.manager.spec_dir()@;
                match (old(self)@.panels.browser, final(self)@.panels.browser) {
                    (Some(before), Some(after)) => {
                        &&& after.local_path@ == if has_src {
                            text::joined(root, "src"@)
                        } else {
                            root
                        }
                        &&& final(self)@ == old(self)@.with_browser(
                            Browser { local_path: after.local_path, ..before },
                        )
                    },
                    (None, None) => final(self)@ == old(self)@,
                    _ => false,
                }
            }),
    {
        let root = self.project.manager.dir();
        let dir = if has_src {
            text::join_path(root.as_str(), "src")
        } else {
            root
        };
        if let Some(browser) = &mut self.panels.browser {
            browser.local_path = dir;
        }
    }

    fn ensure_build_panel(&mut self)
        ensures
            final(self)@ == old(self)@.build_ensured(),
    {
        let dir = self.project.manager.dir();
        if self.build_pane_visible_precondition() && self.panels.build.is_none() {
            self.panels.build = Some(BuildPanel::new(dir.clone()));
            self.task(Task::CreateBuildPanel { root: dir });
        }
        if self.capabilities().contains(Capability::WorkspaceSync)
            && self.panels.workspace.is_none() {
            self.panels.workspace = Some(WorkspacePanel::new());
            self.task(Task::CreateWorkspacePanel);
        }
    }

    /// Asks the listing tool for devices.
    pub fn scan_devices(&mut self)
        ensures
            final(self)@ == old(self)@.devices_asked(),
    {
        if self.panels.browser.is_none() {
            return;
        }
        self.panels.devices.set_scanning();
        self.set_pane_loading();
        self.task(Task::ScanDevices);
    }

    fn is_probe_wanted(&self) -> (r: bool)
        ensures
            r == self@.probe_wanted(),
    {
        let new_port: bool = match (self.port(), &self.chain.probed_port) {
            (Some(port), Some(probed)) => port != *probed,
            (Some(_), None) => true,
            (None, _) => false,
        };
        self.chain.probes && self.chain.probe.is_none() && self.panels.browser.is_some()
            && self.panels.devices.script == ScriptState::Unknown && new_port
    }

    /// Asks a newly selected device whether a script runs, before anything
    /// interrupts it; `false` when there is nothing to ask.
    pub fn start_device_probe(&mut self) -> (r: bool)
        ensures
            r == old(self)@.probe_wanted(),
            final(self)@ == if r {
                old(self)@.probe_asked()
            } else {
                old(self)@
            },
    {
        if !self.is_probe_wanted() {
            return false;
        }
        let port = self.port();
        self.chain.probed_port = self.port();
        self.task(Task::StartProbe { port });
        self.set_pane_loading();
        true
    }

    fn list_root(&mut self, force: bool)
        ensures
            final(self)@ == old(self)@.root_listed(force),
    {
        if self.panels.browser.is_some() {
            let port = self.port();
            self.task(Task::LoadDevice { port, force });
        }
    }

    /// Lists the device's root, once nothing in the identification chain
    /// owns the port.
    pub fn load_device_root(&mut self)
        ensures
            final(self)@ == old(self)@.root_loaded(),
    {
        if self.start_device_probe() {
            return;
        }
        if self.hold_root_listing_for_chip_identity() {
            return;
        }
        match self.hold_root_listing_for_firmware() {
            FirmwareHold::Release => {
                let force: bool = self.chain.force_listing;
                self.chain.force_listing = false;
                self.list_root(force);
            },
            _ => {},
        }
    }

    /// The probe asked for was started, or could not be.
    pub fn probe_started(&mut self, id: Option<u64>)
        ensures
            final(self)@ == old(self)@.probe_answered(id),
    {
        match id {
            Some(id) => {
                self.chain.probe = Some(id);
            },
            None => self.load_device_root(),
        }
    }

    /// Updates what is believed about user code on the selected device:
    /// while a script runs, device requests are held until confirmed.
    pub fn set_script_state(&mut self, state: ScriptState)
        ensures
            final(self)@ == old(self)@.script_marked(state),
    {
        if self.panels.devices.set_script_state(state) {
            match state {
                ScriptState::Running => self.warn(
                    "device marked as running --- device operations will ask before interrupting",
                ),
                ScriptState::Stopped => self.info("device script marked as stopped"),
                ScriptState::Unknown => {},
            }
        }
        if self.panels.browser.is_some() {
            let port = self.port();
            self.task(Task::InterruptGate { hold: state == ScriptState::Running, port });
        }
    }

    /// Takes what the live monitor session shows of a script.
    pub fn update_script_from_monitor(&mut self, seen: Option<ScriptState>)
        ensures
            final(self)@ == match seen {
                Some(state) => old(self)@.monitor_told(state),
                None => old(self)@,
            },
    {
        if let Some(state) = seen {
            if self.panels.devices.script == state {
                return;
            }
            match state {
                ScriptState::Running => self.info(
                    "monitor shows a running script --- device operations will ask before interrupting",
                ),
                ScriptState::Stopped => self.info("monitor shows an idle REPL"),
                ScriptState::Unknown => {},
            }
            self.set_script_state(state);
        }
    }

    /// What the one overlay slot holds, as far as a question that may open
    /// over the package manager is concerned.
    fn slot(&self) -> (r: Slot)
        ensures
            r == match self@.overlay {
                None => Slot::Free,
                Some(Overlay::Packages) => Slot::Packages,
                Some(_) => Slot::Taken,
            },
    {
        reveal(app::opt_overlay);
        reveal(Overlay::model);
        match &self.overlay {
            None => Slot::Free,
            Some(Overlay::Packages) => Slot::Packages,
            Some(_) => Slot::Taken,
        }
    }

    /// Opens the interrupt confirmation when device requests or the first
    /// listing are held behind a running script, and waits politely while
    /// another overlay is open.
    pub fn check_interrupt_gate(&mut self)
        ensures
            final(self)@ == old(self)@.gate_checked(),
    {
        let held: bool = match &self.panels.browser {
            Some(browser) => browser.held,
            None => false,
        };
        let listing: bool = self.chain.held_root_listing && self.chain.flash_query_pending
            && self.panels.devices.script == ScriptState::Running;
        if !held && !listing {
            return;
        }
        match self.slot() {
            Slot::Free => self.show(
                Overlay::ConfirmInterruptDevice { confirm: false, return_to_packages: false },
            ),
            Slot::Packages => self.show(
                Overlay::ConfirmInterruptDevice { confirm: false, return_to_packages: true },
            ),
            Slot::Taken => {},
        }
    }

    fn is_identifying(&self) -> (r: bool)
        ensures
            r == self@.identifying(),
    {
        let querying: bool = match &self.flash {
            Some(flash) => flash.chip_query_running,
            None => false,
        };
        self.chain.identify == IdentifyAuth::Pending || self.chain.flash_query_pending
            || self.chain.firmware_check != FirmwareCheck::Idle || querying
    }

    /// Asks how to bring an interrupted script back, once what the user let
    /// through has drained.
    pub fn maybe_offer_restore(&mut self)
        ensures
            final(self)@ == old(self)@.restore_offered(),
    {
        if !self.chain.restore_pending || self.chain.probe.is_some() || self.is_browser_busy()
            || self.is_identifying() {
            return;
        }
        match self.slot() {
            Slot::Free => {
                self.chain.restore_pending = false;
                self.show(
                    Overlay::RestoreDeviceScript { selected: 2, return_to_packages: false },
                );
            },
            Slot::Packages => {
                self.chain.restore_pending = false;
                self.show(Overlay::RestoreDeviceScript { selected: 2, return_to_packages: true });
            },
            Slot::Taken => {},
        }
    }

    pub fn open_device_picker(&mut self)
        ensures
            final(self)@ == old(self)@.device_picker_opened(),
    {
        let selected: usize = match self.panels.devices.selected {
            Some(index) => index,
            None => 0,
        };
        self.show(Overlay::DevicePicker { selected });
    }

    /// Selects the device in row `selected`, and starts what a newly
    /// selected device earns.
    pub fn apply_device_picker(&mut self, selected: usize)
        ensures
            final(self)@ == old(self)@.device_picked(selected),
    {
        if !self.panels.devices.select(selected) {
            return;
        }
        let label = self.panels.devices.devices[selected].label.clone();
        self.info(text::join("device set to ", label.as_str()).as_str());
        if !self.capabilities().contains(Capability::Filesystem) {
            return;
        }
        self.chain.identify_port = None;
        self.chain.force_listing = true;
        self.request_device_identify();
        self.load_device_root();
    }

    /// The backend picker's row for the answer in force.
    pub fn picker_row(&self) -> (r: usize)
        ensures
            r == self@.picker_row(),
            PickerOption::spec_at(r as int) == Some(
                match self@.project.manager.chosen {
                    Some(kind) => PickerOption::Backend(kind),
                    None => PickerOption::Automatic,
                },
            ),
    {
        match self.project.manager.chosen {
            None => 0,
            Some(BackendKind::MicroPython) => 1,
            Some(BackendKind::Zephyr) => 2,
        }
    }

    /// Applies the backend picker's row.
    pub fn apply_picker(&mut self, selected: usize)
        ensures
            final(self)@ == old(self)@.backend_picked(selected),
    {
        match PickerOption::at(selected) {
            None => {
                return;
            },
            Some(PickerOption::Automatic) => {
                self.project.manager.set_override(None);
                match self.project.manager.selected_kind() {
                    Some(kind) => self.info(
                        text::join("override cleared; detection selects ", kind.label()).as_str(),
                    ),
                    None => self.warn("override cleared; detection did not identify a backend"),
                }
            },
            Some(PickerOption::Backend(kind)) => {
                self.project.manager.set_override(Some(kind));
                self.info(text::join("backend overridden to ", kind.label()).as_str());
                self.task(Task::ReportTools);
            },
        }
        self.maybe_scan_devices();
        self.clamp_focus();
    }

    /// Applies the empty project's answer, and asks for it to be kept.
    pub fn apply_project_setup(&mut self, selected: usize)
        ensures
            final(self)@ == old(self)@.project_set_up(selected),
    {
        match BackendKind::at(selected) {
            None => {},
            Some(kind) => {
                self.project.manager.set_override(Some(kind));
                self.task(Task::SaveScaffold(kind));
                if kind == BackendKind::MicroPython {
                    self.task(Task::EnsureLayout);
                }
                self.task(Task::ReportTools);
                self.maybe_scan_devices();
                self.clamp_focus();
            },
        }
    }

    /// The choice was kept in the project, or could not be.
    pub fn scaffold_saved(&mut self, kind: BackendKind, outcome: Result<(), String>)
        ensures
            final(self)@ == old(self)@.scaffold_answered(
                kind,
                file_browser::failure_view(outcome),
            ),
    {
        match outcome {
            Ok(_) => self.log(
                Level::Success,
                text::join(
                    kind.label(),
                    " selected and saved to chiptui.toml in this project",
                ).as_str(),
            ),
            Err(e) => self.warn(
                text::join3(
                    kind.label(),
                    " selected for this session, but chiptui.toml could not be saved: ",
                    e.as_str(),
                ).as_str(),
            ),
        }
    }

    /// The project's directories could not be created.
    pub fn layout_failed(&mut self, reason: &str)
        ensures
            final(self)@ == old(self)@.warn(
                "could not create src/firmware layout: "@ + reason@,
            ),
    {
        self.warn(text::join("could not create src/firmware layout: ", reason).as_str());
    }

    /// Asks for an interactive device monitor.
    pub fn open_monitor(&mut self)
        ensures
            final(self)@ == old(self)@.monitor_asked(),
    {
        if self.project.manager.selected_kind().is_some() {
            let port = self.port();
            self.task(Task::SpawnMonitor { port });
        }
    }

    /// The monitor's session started, or could not.
    pub fn monitor_opened(&mut self, outcome: Result<u64, String>)
        ensures
            final(self)@ == old(self)@.monitor_answered(
                match outcome {
                    Ok(id) => Ok(id),
                    Err(e) => Err(e@),
                },
            ),
    {
        self.screen.focus = Focus::Logs;
        self.screen.log_tab = LogTab::Monitor;
        self.monitor.source = MonitorSource::Device;
        self.monitor.column = 0;
        match outcome {
            Ok(id) => {
                self.monitor.device = Some(id);
            },
            Err(e) => {
                self.monitor.device = None;
                self.error(text::join("could not open monitor: ", e.as_str()).as_str());
            },
        }
    }
}

/// Whether a question may open in the one overlay slot.
#[derive(Debug, Clone, Copy, PartialEq, Eq, Structural)]
pub enum Slot {
    Free,
    /// The package manager holds it, and can be given it back.
    Packages,
    Taken,
}

/// What a running script holds up is asked about before anything interrupts
/// it, with No highlighted, and asked about once.
pub proof fn held_requests_are_asked_about(m: Model)
    requires
        m.interruption_wanted(),
        m.overlay is None,
    ensures
        m.gate_checked() == m.shown(
            Overlay::ConfirmInterruptDevice { confirm: false, return_to_packages: false },
        ),
        m.gate_checked().gate_checked() == m.gate_checked(),
{
}

/// The restore question is asked once, and rests on leaving the script
/// stopped.
pub proof fn restoring_is_offered_once(m: Model)
    ensures
        m.restore_offered().restore_offered() == m.restore_offered(),
        m.overlay is None ==> (m.restore_offered().overlay matches Some(o) ==> (o
            matches Overlay::RestoreDeviceScript { selected, .. } && selected == 2)),
{
}

/// A script believed running makes the browser hold its requests, and only
/// that does.
pub proof fn the_gate_follows_the_script(m: Model, state: ScriptState)
    requires
        m.panels.browser is Some,
    ensures
        m.script_marked(state).panels.devices.script == state,
        m.script_marked(state).effects == m.effects.push(
            Effect::Task(
                Task::InterruptGate { hold: state == ScriptState::Running, port: m.port() },
            ),
        ),
{
}

/// A rescan that still reports the chosen board keeps it chosen.
pub proof fn a_rescan_keeps_the_chosen_board(d: DeviceState, devices: Vec<DeviceInfo>)
    requires
        d.port() is Some,
        panels::port_index(devices@, d.port()->0@) is Some,
        devices@.len() <= usize::MAX,
    ensures
        d.with_devices(devices).port() is Some,
        d.with_devices(devices).port()->0@ == d.port()->0@,
        d.with_devices(devices).script == d.script,
{
    the_place_holds_the_port(devices@, d.port()->0@);
}

proof fn the_place_holds_the_port(devices: Seq<DeviceInfo>, port: Seq<char>)
    requires
        panels::port_index(devices, port) is Some,
    ensures
        0 <= panels::port_index(devices, port)->0 < devices.len(),
        devices[panels::port_index(devices, port)->0].port@ == port,
    decreases devices.len(),
{
    if devices[0].port@ != port {
        the_place_holds_the_port(devices.drop_first(), port);
    }
}

/// The user's answer outranks the detection's, and withdrawing it brings the
/// detection's back.
pub proof fn an_answer_outranks_detection(m: Model, kind: BackendKind)
    ensures
        m.overridden(Some(kind)).project.manager.spec_kind() == Some(kind),
        m.overridden(Some(kind)).overridden(None).project.manager.spec_kind()
            == m.project.manager.detected,
{
}

} // verus!
