//! What the application knows of the subsystems it drives: the device list,
//! the file browser, the build, flash, workspace, install and OTA panels.
//! Each holds the facts the decisions read and the cursors they move; the
//! work itself happens outside, asked for by an [`crate::effect::Effect`].

use vstd::prelude::*;
use vstd::string::*;

use crate::backend::{BackendKind, Capabilities};
use crate::text;

verus! {

/// Which project the session is about, and which backend serves it.
pub struct ProjectManager {
    /// What detection concluded.
    pub detected: Option<BackendKind>,
    /// What the user answered instead, for this session.
    pub chosen: Option<BackendKind>,
    /// The detected project's directory.
    pub root: Option<String>,
    /// The directory the session started in.
    pub start_dir: String,
}

impl ProjectManager {
    pub open spec fn spec_kind(self) -> Option<BackendKind> {
        if self.chosen is Some {
            self.chosen
        } else {
            self.detected
        }
    }

    /// The backend in force: the user's answer over the detection's.
    pub fn selected_kind(&self) -> (r: Option<BackendKind>)
        ensures
            r == self.spec_kind(),
    {
        if self.chosen.is_some() {
            self.chosen
        } else {
            self.detected
        }
    }

    /// Answers for the detection, or withdraws the answer.
    pub fn set_override(&mut self, kind: Option<BackendKind>)
        ensures
            *final(self) == (ProjectManager { chosen: kind, ..*old(self) }),
    {
        self.chosen = kind;
    }

    pub open spec fn caps(self) -> Capabilities {
        match self.spec_kind() {
            Some(kind) => kind.spec_capabilities(),
            None => Capabilities::spec_empty(),
        }
    }

    /// What the backend in force can do; nothing without one.
    pub fn capabilities(&self) -> (r: Capabilities)
        ensures
            r == self.caps(),
    {
        match self.selected_kind() {
            Some(kind) => kind.capabilities(),
            None => Capabilities::empty(),
        }
    }

    pub open spec fn spec_dir(self) -> String {
        match self.root {
            Some(root) => root,
            None => self.start_dir,
        }
    }

    /// The project's directory, or where the session started.
    pub fn dir(&self) -> (r: String)
        ensures
            r == self.spec_dir(),
    {
        match &self.root {
            Some(root) => root.clone(),
            None => self.start_dir.clone(),
        }
    }
}

/// Where looking for devices stands.
#[derive(Debug, Clone, PartialEq, Eq)]
pub enum Discovery {
    NotScanned,
    Scanning,
    Ready,
    /// The walk over the serial ports found none.
    NoSerialPort,
    /// The scan failed, for this reason.
    Failed(String),
}

impl Discovery {
    /// Why there is no device to choose from; `None` while nothing failed.
    pub open spec fn spec_failure(self) -> Option<Seq<char>> {
        match self {
            Discovery::NoSerialPort => Some(
                "no USB serial port found — connect the board and press 'd'"@,
            ),
            Discovery::Failed(reason) => Some(reason@),
            _ => None,
        }
    }

    pub fn failure(&self) -> (r: Option<String>)
        ensures
            self.spec_failure() == match r {
                Some(text) => Some(text@),
                None => None,
            },
    {
        match self {
            Discovery::NoSerialPort => Some(
                "no USB serial port found — connect the board and press 'd'".to_owned(),
            ),
            Discovery::Failed(reason) => Some(reason.clone()),
            _ => None,
        }
    }
}

/// What is believed about user code on the selected device.
#[derive(Debug, Clone, Copy, PartialEq, Eq, Structural)]
pub enum ScriptState {
    Unknown,
    Running,
    Stopped,
}

/// One device a scan reported.
#[derive(Debug, Clone, PartialEq, Eq)]
pub struct DeviceInfo {
    pub port: String,
    /// How the device is named in lists and in the log.
    pub label: String,
}

/// The devices known, and the one selected among them.
pub struct DeviceState {
    pub devices: Vec<DeviceInfo>,
    pub selected: Option<usize>,
    pub discovery: Discovery,
    pub script: ScriptState,
}

/// The first device of `devices` on the port `port`.
pub open spec fn port_index(devices: Seq<DeviceInfo>, port: Seq<char>) -> Option<int>
    decreases devices.len(),
{
    if devices.len() == 0 {
        None
    } else if devices[0].port@ == port {
        Some(0)
    } else {
        match port_index(devices.drop_first(), port) {
            Some(i) => Some(i + 1),
            None => None,
        }
    }
}

impl DeviceState {
    /// The selected device.
    pub open spec fn spec_selected(self) -> Option<DeviceInfo> {
        match self.selected {
            Some(i) => if i < self.devices@.len() {
                Some(self.devices@[i as int])
            } else {
                None
            },
            None => None,
        }
    }

    pub open spec fn port(self) -> Option<String> {
        match self.spec_selected() {
            Some(device) => Some(device.port),
            None => None,
        }
    }

    /// The selected device's port.
    pub fn selected_port(&self) -> (r: Option<String>)
        ensures
            r == self.port(),
    {
        match self.selected {
            Some(i) => if i < self.devices.len() {
                Some(self.devices[i].port.clone())
            } else {
                None
            },
            None => None,
        }
    }

    /// The device a scan's result leaves selected: the only one there is,
    /// else the previous choice where it is still present.
    pub open spec fn kept_selection(self, devices: Seq<DeviceInfo>) -> Option<int> {
        if devices.len() == 1 {
            Some(0)
        } else {
            match self.port() {
                Some(port) => port_index(devices, port@),
                None => None,
            }
        }
    }

    /// How many devices there are to choose from: none after a failed scan.
    pub open spec fn known(self) -> nat {
        match self.discovery {
            Discovery::NoSerialPort | Discovery::Failed(_) => 0,
            _ => self.devices@.len(),
        }
    }

    pub fn count(&self) -> (r: usize)
        ensures
            r == self.known(),
    {
        match self.discovery {
            Discovery::NoSerialPort | Discovery::Failed(_) => 0,
            _ => self.devices.len(),
        }
    }

    /// Several devices, and none of them chosen.
    pub open spec fn undecided(self) -> bool {
        self.known() > 0 && self.selected is None
    }

    pub fn needs_selection(&self) -> (r: bool)
        ensures
            r == self.undecided(),
    {
        self.count() > 0 && self.selected.is_none()
    }

    pub fn set_scanning(&mut self)
        ensures
            *final(self) == (DeviceState { discovery: Discovery::Scanning, ..*old(self) }),
    {
        self.discovery = Discovery::Scanning;
    }

    /// The scan failed, `discovery` saying how: nothing is selected.
    pub open spec fn failed(self, discovery: Discovery) -> DeviceState {
        DeviceState { selected: None, discovery, script: ScriptState::Unknown, ..self }
    }

    pub fn set_failed(&mut self, discovery: Discovery)
        ensures
            *final(self) == old(self).failed(discovery),
    {
        self.selected = None;
        self.discovery = discovery;
        self.script = ScriptState::Unknown;
    }

    /// Takes a scan's result.
    pub fn set_devices(&mut self, devices: Vec<DeviceInfo>)
        ensures
            *final(self) == old(self).with_devices(devices),
    {
        let selected: Option<usize> = if devices.len() == 1 {
            Some(0)
        } else {
            match self.selected_port() {
                Some(port) => index_of_port(&devices, &port),
                None => None,
            }
        };
        if selected.is_none() {
            self.script = ScriptState::Unknown;
        }
        self.selected = selected;
        self.devices = devices;
        self.discovery = Discovery::Ready;
    }

    pub open spec fn with_devices(self, devices: Vec<DeviceInfo>) -> DeviceState {
        let kept = self.kept_selection(devices@);
        DeviceState {
            devices,
            selected: match kept {
                Some(i) => Some(i as usize),
                None => None,
            },
            discovery: Discovery::Ready,
            script: if kept is None {
                ScriptState::Unknown
            } else {
                self.script
            },
        }
    }

    /// Records what is believed of user code; says whether that is news.
    pub fn set_script_state(&mut self, state: ScriptState) -> (r: bool)
        ensures
            r == (old(self).script != state),
            *final(self) == (DeviceState { script: state, ..*old(self) }),
    {
        let changed: bool = self.script != state;
        self.script = state;
        changed
    }

    /// The row `index` chosen by hand. A different board's script state is
    /// not known yet.
    pub open spec fn chosen(self, index: usize) -> DeviceState {
        DeviceState {
            selected: Some(index),
            script: if self.selected == Some(index) {
                self.script
            } else {
                ScriptState::Unknown
            },
            ..self
        }
    }

    /// Selects the device at `index`; `false`, and nothing changed, when
    /// there is none.
    pub fn select(&mut self, index: usize) -> (r: bool)
        ensures
            r == (index < old(self).known()),
            *final(self) == if r {
                old(self).chosen(index)
            } else {
                *old(self)
            },
    {
        if index >= self.count() {
            return false;
        }
        match self.selected {
            Some(i) if i == index => {},
            _ => {
                self.script = ScriptState::Unknown;
            },
        }
        self.selected = Some(index);
        true
    }
}

fn index_of_port(devices: &Vec<DeviceInfo>, port: &String) -> (r: Option<usize>)
    ensures
        match r {
            Some(i) => i < devices@.len() && port_index(devices@, port@) == Some(i as int),
            None => port_index(devices@, port@) is None,
        },
{
    let mut i: usize = 0;
    assert(devices@.skip(0) =~= devices@);
    while i < devices.len()
        invariant
            i <= devices.len(),
            port_index(devices@, port@) == match port_index(devices@.skip(i as int), port@) {
                Some(k) => Some(k + i),
                None => None,
            },
        decreases devices.len() - i,
    {
        let ghost rest = devices@.skip(i as int);
        if devices[i].port == *port {
            assert(rest[0].port@ == port@);
            return Some(i);
        }
        assert(rest.drop_first() =~= devices@.skip(i + 1));
        i = i + 1;
    }
    assert(devices@.skip(i as int).len() == 0);
    None
}

/// Which column of the file browser.
#[derive(Debug, Clone, Copy, PartialEq, Eq, Structural)]
pub enum Side {
    Local,
    Device,
}

/// How a file's two copies compare.
#[derive(Debug, Clone, Copy, PartialEq, Eq, Structural)]
pub enum SyncStatus {
    LocalOnly,
    DeviceOnly,
    Differs,
    /// The sizes agree; the contents were not compared.
    SameSize,
    Same,
}

/// What kind of firmware a flash read found.
#[derive(Debug, Clone, Copy, PartialEq, Eq, Structural)]
pub enum FlashFirmware {
    MicroPython,
    Zephyr,
    EspIdf,
}

impl FlashFirmware {
    pub open spec fn spec_label(self) -> Seq<char> {
        match self {
            FlashFirmware::MicroPython => "MicroPython"@,
            FlashFirmware::Zephyr => "Zephyr"@,
            FlashFirmware::EspIdf => "ESP-IDF"@,
        }
    }

    pub fn label(self) -> (r: &'static str)
        ensures
            r@ == self.spec_label(),
    {
        match self {
            FlashFirmware::MicroPython => "MicroPython",
            FlashFirmware::Zephyr => "Zephyr",
            FlashFirmware::EspIdf => "ESP-IDF",
        }
    }
}

/// What the identification read concluded of a board's flash.
#[derive(Debug, Clone, PartialEq, Eq)]
pub enum FirmwareVerdict {
    /// The firmware found, and its version when the read named one.
    Firmware(FlashFirmware, Option<String>),
    Erased,
}

impl FirmwareVerdict {
    pub fn copied(&self) -> (r: FirmwareVerdict)
        ensures
            r == *self,
    {
        match self {
            FirmwareVerdict::Firmware(firmware, Some(version)) => FirmwareVerdict::Firmware(
                *firmware,
                Some(version.clone()),
            ),
            FirmwareVerdict::Firmware(firmware, None) => FirmwareVerdict::Firmware(*firmware, None),
            FirmwareVerdict::Erased => FirmwareVerdict::Erased,
        }
    }
}

/// Why the device pane has no listing.
#[derive(Debug, Clone, PartialEq, Eq)]
pub enum PaneError {
    /// The scan answered, and nothing is connected.
    NoDevice,
    /// The board runs something else than MicroPython.
    Firmware(FirmwareVerdict),
    /// What a tool reported.
    Reported(String),
}

/// What the device pane shows.
#[derive(Debug, Clone, PartialEq, Eq)]
pub enum PaneState {
    Idle,
    Loading,
    Ready,
    Failed(PaneError),
}

/// An entry under a column's cursor.
#[derive(Debug, Clone, PartialEq, Eq)]
pub struct SelectedEntry {
    pub name: String,
    pub is_dir: bool,
    /// The name is a text file's.
    pub is_text: bool,
    pub status: Option<SyncStatus>,
}

/// A device entry's name and, for a file, its size.
#[derive(Debug, Clone, PartialEq, Eq)]
pub struct DeviceEntry {
    pub name: String,
    pub size: Option<u64>,
}

/// The two-column file browser.
pub struct Browser {
    pub focus: Side,
    pub local_path: String,
    /// The device directory listed; `None` is the root.
    pub device_path: Option<String>,
    pub local_cursor: usize,
    pub device_cursor: usize,
    /// Rows each column lists.
    pub local_len: usize,
    pub device_len: usize,
    /// Where each column's drawn list is scrolled to.
    pub local_offset: usize,
    pub device_offset: usize,
    pub local_selected: Option<SelectedEntry>,
    pub device_selected: Option<SelectedEntry>,
    pub device_state: PaneState,
    /// A request is on the port.
    pub busy: bool,
    /// Requests wait behind the interrupt question.
    pub held: bool,
}

impl Browser {
    /// A browser just opened on `dir`, nothing listed yet.
    pub open spec fn fresh(dir: String) -> Browser {
        Browser {
            focus: Side::Local,
            local_path: dir,
            device_path: None,
            local_cursor: 0,
            device_cursor: 0,
            local_len: 0,
            device_len: 0,
            local_offset: 0,
            device_offset: 0,
            local_selected: None,
            device_selected: None,
            device_state: PaneState::Idle,
            busy: false,
            held: false,
        }
    }

    pub fn new(dir: String) -> (r: Browser)
        ensures
            r == Browser::fresh(dir),
    {
        Browser {
            focus: Side::Local,
            local_path: dir,
            device_path: None,
            local_cursor: 0,
            device_cursor: 0,
            local_len: 0,
            device_len: 0,
            local_offset: 0,
            device_offset: 0,
            local_selected: None,
            device_selected: None,
            device_state: PaneState::Idle,
            busy: false,
            held: false,
        }
    }

    pub open spec fn spec_selected(self, side: Side) -> Option<SelectedEntry> {
        match side {
            Side::Local => self.local_selected,
            Side::Device => self.device_selected,
        }
    }

    /// The entry under `side`'s cursor.
    pub fn selected(&self, side: Side) -> (r: Option<SelectedEntry>)
        ensures
            r == self.spec_selected(side),
    {
        let found = match side {
            Side::Local => &self.local_selected,
            Side::Device => &self.device_selected,
        };
        match found {
            Some(entry) => Some(
                SelectedEntry {
                    name: entry.name.clone(),
                    is_dir: entry.is_dir,
                    is_text: entry.is_text,
                    status: entry.status,
                },
            ),
            None => None,
        }
    }
}

/// A build command's flavour.
#[derive(Debug, Clone, Copy, PartialEq, Eq, Structural)]
pub enum BuildKind {
    Build,
    Clean,
    Rebuild,
}

impl BuildKind {
    pub open spec fn spec_label(self) -> Seq<char> {
        match self {
            BuildKind::Build => "Build"@,
            BuildKind::Clean => "Clean"@,
            BuildKind::Rebuild => "Rebuild"@,
        }
    }

    pub fn label(self) -> (r: &'static str)
        ensures
            r@ == self.spec_label(),
    {
        match self {
            BuildKind::Build => "Build",
            BuildKind::Clean => "Clean",
            BuildKind::Rebuild => "Rebuild",
        }
    }
}

/// One action of the build panel.
#[derive(Debug, Clone, Copy, PartialEq, Eq, Structural)]
pub enum BuildAction {
    Stop,
    Build(BuildKind),
    Flash,
    Menuconfig,
    UpdateZephyr,
    InstallZephyr,
    Dashboard,
    SizeReport,
    Run,
}

/// One target a project can be built for.
#[derive(Debug, Clone, PartialEq, Eq)]
pub struct Variant {
    pub name: String,
    pub simulator: bool,
}

/// The build panel. The lists it offers are in [`Lists`].
pub struct BuildPanel {
    pub cursor: usize,
    pub busy: bool,
    /// Both checklist answers are there.
    pub lifecycle_ready: bool,
    /// The project keeps a host target beside the board.
    pub offers_build_choice: bool,
    /// The last answer to where a build runs.
    pub remembered_simulator: bool,
    /// The selected target among the variants.
    pub variant: Option<usize>,
    pub root: String,
    pub board: Option<String>,
    pub shield: Option<String>,
    /// The root holds build elements.
    pub buildable: bool,
}

impl BuildPanel {
    /// A panel just created for the project at `root`.
    pub open spec fn fresh(root: String) -> BuildPanel {
        BuildPanel {
            cursor: 0,
            busy: false,
            lifecycle_ready: false,
            offers_build_choice: false,
            remembered_simulator: false,
            variant: None,
            root,
            board: None,
            shield: None,
            buildable: false,
        }
    }

    pub fn new(root: String) -> (r: BuildPanel)
        ensures
            r == BuildPanel::fresh(root),
    {
        BuildPanel {
            cursor: 0,
            busy: false,
            lifecycle_ready: false,
            offers_build_choice: false,
            remembered_simulator: false,
            variant: None,
            root,
            board: None,
            shield: None,
            buildable: false,
        }
    }
}

/// The first variant that is (or is not) the simulator.
pub open spec fn variant_for(variants: Seq<Variant>, simulator: bool) -> Option<int>
    decreases variants.len(),
{
    if variants.len() == 0 {
        None
    } else if variants[0].simulator == simulator {
        Some(0)
    } else {
        match variant_for(variants.drop_first(), simulator) {
            Some(i) => Some(i + 1),
            None => None,
        }
    }
}

pub fn variant_index_for(variants: &Vec<Variant>, simulator: bool) -> (r: Option<usize>)
    ensures
        match r {
            Some(i) => i < variants@.len() && variant_for(variants@, simulator) == Some(i as int),
            None => variant_for(variants@, simulator) is None,
        },
{
    let mut i: usize = 0;
    assert(variants@.skip(0) =~= variants@);
    while i < variants.len()
        invariant
            i <= variants.len(),
            variant_for(variants@, simulator) == match variant_for(
                variants@.skip(i as int),
                simulator,
            ) {
                Some(k) => Some(k + i),
                None => None,
            },
        decreases variants.len() - i,
    {
        let ghost rest = variants@.skip(i as int);
        if variants[i].simulator == simulator {
            assert(rest[0].simulator == simulator);
            return Some(i);
        }
        assert(rest.drop_first() =~= variants@.skip(i + 1));
        i = i + 1;
    }
    assert(variants@.skip(i as int).len() == 0);
    None
}

/// A list's names that mention `filter`, whatever the case; all of them
/// under an empty filter.
pub open spec fn filtered(names: Seq<String>, filter: Seq<char>) -> Seq<String> {
    names.filter(|name: String| name_matches(name@, filter))
}

pub open spec fn name_matches(name: Seq<char>, filter: Seq<char>) -> bool {
    text::lowercase(filter).len() == 0 || text::mentions(
        text::lowercase(name),
        text::lowercase(filter),
    )
}

pub fn filtered_names(names: &Vec<String>, filter: &str) -> (r: Vec<String>)
    ensures
        r@ == filtered(names@, filter@),
{
    let low = text::to_lowercase(filter);
    let all: bool = low.as_str().unicode_len() == 0;
    let mut r: Vec<String> = Vec::new();
    let mut i: usize = 0;
    let ghost keep = |name: String| name_matches(name@, filter@);
    assert(names@.take(0).filter(keep) =~= Seq::<String>::empty()) by {
        reveal(Seq::filter);
    }
    while i < names.len()
        invariant
            i <= names.len(),
            low@ == text::lowercase(filter@),
            all == (low@.len() == 0),
            keep == (|name: String| name_matches(name@, filter@)),
            r@ == names@.take(i as int).filter(keep),
        decreases names.len() - i,
    {
        let hit: bool = all || text::contains(
            text::to_lowercase(names[i].as_str()).as_str(),
            low.as_str(),
        );
        proof {
            let t = names@.take(i + 1);
            assert(t.drop_last() =~= names@.take(i as int));
            assert(t.last() == names@[i as int]);
            reveal(Seq::filter);
        }
        if hit {
            r.push(names[i].clone());
        }
        i = i + 1;
    }
    assert(names@.take(names@.len() as int) =~= names@);
    r
}

/// The workspace pane.
pub struct WorkspacePanel {
    /// The resolved installation's directory.
    pub dir: Option<String>,
    /// The configured projects folder.
    pub projects: Option<String>,
    /// How many projects that folder holds.
    pub project_count: usize,
    pub zephyr_version: Option<String>,
    /// The project whose files the pane lists.
    pub files_root: Option<String>,
    /// The directory the list shows.
    pub files_path: Option<String>,
    pub files_cursor: usize,
    pub files_offset: usize,
    pub files_len: usize,
    /// An error owns the pane instead of a list.
    pub files_error: bool,
}

impl WorkspacePanel {
    /// A pane just created, nothing resolved yet.
    pub open spec fn fresh() -> WorkspacePanel {
        WorkspacePanel {
            dir: None,
            projects: None,
            project_count: 0,
            zephyr_version: None,
            files_root: None,
            files_path: None,
            files_cursor: 0,
            files_offset: 0,
            files_len: 0,
            files_error: false,
        }
    }

    pub fn new() -> (r: WorkspacePanel)
        ensures
            r == WorkspacePanel::fresh(),
    {
        WorkspacePanel {
            dir: None,
            projects: None,
            project_count: 0,
            zephyr_version: None,
            files_root: None,
            files_path: None,
            files_cursor: 0,
            files_offset: 0,
            files_len: 0,
            files_error: false,
        }
    }
}

/// What the installer's button does.
#[derive(Debug, Clone, Copy, PartialEq, Eq, Structural)]
pub enum InstallAction {
    Stop,
    PickToolchains,
    Adopt,
    InstallSdk,
    AddToolchains,
    Install,
    Retry,
    Blocked,
    Done,
}

/// How one installation step stands.
#[derive(Debug, Clone, Copy, PartialEq, Eq, Structural)]
pub enum StepState {
    Pending,
    Running,
    Done,
    Failed,
}

/// The Zephyr installer.
pub struct Installer {
    /// The folder the picker accepted.
    pub dir: String,
    /// The workspace goes into `zephyr/` inside it.
    pub nested: bool,
    pub busy: bool,
    pub action: InstallAction,
    pub can_start: bool,
    pub prereqs_ready: bool,
    /// A complete installation sits at the target.
    pub complete: bool,
    /// The first command the sequence would run.
    pub next_command: Option<String>,
    /// Where a workspace is initialised from.
    pub manifest_url: String,
    pub failed_step: Option<String>,
    pub sdk: Option<String>,
}

/// The toolchains an SDK offers.
pub const TOOLCHAIN_COUNT: usize = 37;

/// What a firmware update needs next.
#[derive(Debug, Clone, Copy, PartialEq, Eq, Structural)]
pub enum OtaAction {
    Stop,
    SetAddress,
    RecaptureAddress,
    Rebuild,
    Done,
    ResumeVerify,
    Prepare,
    Update,
    RetryUpdate,
    ConfirmImage,
    Blocked,
}

/// A question the OTA window asks before it writes.
#[derive(Debug, Clone, Copy, PartialEq, Eq, Structural)]
pub enum OtaConfirm {
    Prepare,
    Update,
    ConfirmImage,
}

impl OtaAction {
    pub open spec fn question(self) -> Option<OtaConfirm> {
        match self {
            OtaAction::Prepare => Some(OtaConfirm::Prepare),
            OtaAction::Update | OtaAction::RetryUpdate => Some(OtaConfirm::Update),
            OtaAction::ConfirmImage => Some(OtaConfirm::ConfirmImage),
            _ => None,
        }
    }

    /// The question the action asks first, if it asks one.
    pub fn confirm(self) -> (r: Option<OtaConfirm>)
        ensures
            r == self.question(),
    {
        match self {
            OtaAction::Prepare => Some(OtaConfirm::Prepare),
            OtaAction::Update | OtaAction::RetryUpdate => Some(OtaConfirm::Update),
            OtaAction::ConfirmImage => Some(OtaConfirm::ConfirmImage),
            _ => None,
        }
    }
}

/// The transports an update can go over.
pub const TRANSPORT_COUNT: usize = 2;

/// The OTA window's panel.
pub struct OtaPanel {
    pub busy: bool,
    pub action: OtaAction,
    pub address: Option<String>,
    /// The transport's place among them.
    pub transport: usize,
    pub auto_confirm: bool,
    /// The project's root.
    pub root: String,
    /// The panel describes the project, board and build directory in force.
    pub serves_current: bool,
}

/// A flash action.
#[derive(Debug, Clone, Copy, PartialEq, Eq, Structural)]
pub enum FlashAction {
    ChipInfo,
    FlashInfo,
    EraseFlash,
    WriteFlash,
    VerifyFlash,
}

/// How many actions the flash menu lists.
pub const FLASH_ACTION_COUNT: usize = 5;

impl FlashAction {
    /// Whether the action changes what the flash holds.
    pub open spec fn destructive(self) -> bool {
        self == FlashAction::EraseFlash || self == FlashAction::WriteFlash
    }

    pub fn is_destructive(self) -> (r: bool)
        ensures
            r == self.destructive(),
    {
        self == FlashAction::EraseFlash || self == FlashAction::WriteFlash
    }

    /// Whether the action needs a firmware file.
    pub open spec fn wants_firmware(self) -> bool {
        self == FlashAction::WriteFlash || self == FlashAction::VerifyFlash
    }

    pub fn needs_firmware(self) -> (r: bool)
        ensures
            r == self.wants_firmware(),
    {
        self == FlashAction::WriteFlash || self == FlashAction::VerifyFlash
    }

    pub open spec fn spec_at(index: int) -> FlashAction {
        if index == 0 {
            FlashAction::ChipInfo
        } else if index == 1 {
            FlashAction::FlashInfo
        } else if index == 2 {
            FlashAction::EraseFlash
        } else if index == 3 {
            FlashAction::WriteFlash
        } else {
            FlashAction::VerifyFlash
        }
    }

    /// The action in the menu's row `index`.
    pub fn at(index: usize) -> (r: FlashAction)
        ensures
            r == Self::spec_at(index as int),
    {
        if index == 0 {
            FlashAction::ChipInfo
        } else if index == 1 {
            FlashAction::FlashInfo
        } else if index == 2 {
            FlashAction::EraseFlash
        } else if index == 3 {
            FlashAction::WriteFlash
        } else {
            FlashAction::VerifyFlash
        }
    }
}

/// One row of the device pane's actions tab.
#[derive(Debug, Clone, Copy, PartialEq, Eq, Structural)]
pub enum FlashPaneAction {
    Run(FlashAction),
    SearchOnline,
    Stop,
}

/// A screen of the flash view.
#[derive(Debug, Clone, Copy, PartialEq, Eq, Structural)]
pub enum FlashScreen {
    Menu,
    Options,
    OnlineBoards,
    OnlineFirmware,
    CustomUrl,
}

/// A field of the options screen.
#[derive(Debug, Clone, Copy, PartialEq, Eq, Structural)]
pub enum OptionsField {
    Chip,
    FlashMode,
    FlashFreq,
    FlashSize,
    Offset,
    ExtraArgs,
}

/// The flash panel.
pub struct FlashPanel<T = String> {
    pub screen: FlashScreen,
    /// The menu's cursor.
    pub cursor: usize,
    /// The actions tab's cursor.
    pub pane_cursor: usize,
    /// The online lists' cursor.
    pub online_cursor: usize,
    pub options_focus: OptionsField,
    pub custom_url: T,
    /// A command or a query is running.
    pub busy: bool,
    /// The background chip query is the one running.
    pub chip_query_running: bool,
    /// The panel would start a background query.
    pub query_ready: bool,
    /// The last command succeeded.
    pub succeeded: bool,
    /// A version hunt is armed.
    pub version_hunt: bool,
    /// The chip's name in the online index, once it is known.
    pub mcu: Option<String>,
    /// Local firmware files found.
    pub firmware_count: usize,
    /// One of them is selected.
    pub firmware_selected: bool,
    /// The action a confirmation guards.
    pub pending: Option<FlashAction>,
    /// The board's MAC, once it was read.
    pub mac: Option<String>,
    /// Anything at all was read of the board.
    pub identified: bool,
    pub firmware: Option<FirmwareVerdict>,
}

impl FlashPanel<String> {
    pub open spec fn model(self) -> FlashPanel<Seq<char>> {
        FlashPanel {
            screen: self.screen,
            cursor: self.cursor,
            pane_cursor: self.pane_cursor,
            online_cursor: self.online_cursor,
            options_focus: self.options_focus,
            custom_url: self.custom_url@,
            busy: self.busy,
            chip_query_running: self.chip_query_running,
            query_ready: self.query_ready,
            succeeded: self.succeeded,
            version_hunt: self.version_hunt,
            mcu: self.mcu,
            firmware_count: self.firmware_count,
            firmware_selected: self.firmware_selected,
            pending: self.pending,
            mac: self.mac,
            identified: self.identified,
            firmware: self.firmware,
        }
    }

    pub fn new() -> (r: FlashPanel)
        ensures
            r.model() == FlashPanel::<Seq<char>>::fresh(),
    {
        FlashPanel {
            screen: FlashScreen::Menu,
            cursor: 0,
            pane_cursor: 0,
            online_cursor: 0,
            options_focus: OptionsField::Chip,
            custom_url: String::new(),
            busy: false,
            chip_query_running: false,
            query_ready: true,
            succeeded: false,
            version_hunt: false,
            mcu: None,
            firmware_count: 0,
            firmware_selected: false,
            pending: None,
            mac: None,
            identified: false,
            firmware: None,
        }
    }
}

impl FlashPanel<Seq<char>> {
    /// A panel just created, nothing read and nothing running.
    pub open spec fn fresh() -> FlashPanel<Seq<char>> {
        FlashPanel {
            screen: FlashScreen::Menu,
            cursor: 0,
            pane_cursor: 0,
            online_cursor: 0,
            options_focus: OptionsField::Chip,
            custom_url: Seq::empty(),
            busy: false,
            chip_query_running: false,
            query_ready: true,
            succeeded: false,
            version_hunt: false,
            mcu: None,
            firmware_count: 0,
            firmware_selected: false,
            pending: None,
            mac: None,
            identified: false,
            firmware: None,
        }
    }
}

/// The lists the panels offer, published with the facts above.
pub struct Lists {
    /// The actions tab's rows.
    pub pane_actions: Vec<FlashPaneAction>,
    /// The boards the online index answered.
    pub online_boards: Vec<String>,
    /// The firmware downloads of the board chosen.
    pub online_firmware: Vec<String>,
    /// The build panel's rows.
    pub build_actions: Vec<BuildAction>,
    pub variants: Vec<Variant>,
    pub boards: Vec<String>,
    pub shields: Vec<String>,
    pub build_dirs: Vec<String>,
    /// The device directory's entries.
    pub device_entries: Vec<DeviceEntry>,
    /// The largest device file worth previewing, in bytes.
    pub max_view_bytes: u64,
    /// The installer's steps.
    pub install_steps: Vec<StepState>,
}

/// The package manager's keyboard state.
#[derive(Debug, Clone, Copy, PartialEq, Eq, Structural)]
pub struct Packages {
    pub details_focused: bool,
    pub selected: usize,
    pub scroll: u16,
    /// Rows the window lists.
    pub len: usize,
}

} // verus!
