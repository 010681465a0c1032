//! What a handler asks of the world. Effects are appended in the order the
//! work is wanted, and carried out by the shell in that order.

use vstd::prelude::*;

use crate::backend::BackendKind;
use crate::input::KeyEvent;
use crate::overlay::{DirPurpose, RemoveTarget, SyncPlan};
use crate::panels::{BuildAction, FlashAction, OptionsField, OtaConfirm};

verus! {

/// A request to the file browser that names no entry.
#[derive(Debug, Clone, PartialEq, Eq)]
pub enum BrowserRequest {
    Enter,
    Ascend,
    VerifySelected,
    Sync,
    ExecuteSync { plan: SyncPlan, deletes: bool },
    Reset,
    HardReset,
    RelaunchMain,
    CancelHeld,
}

/// Work described by plain values alone.
#[derive(Debug, Clone, PartialEq, Eq)]
pub enum Task {
    // ---- processes ----
    Cancel(u64),
    /// Open the device monitor in a terminal of its own.
    SpawnMonitor { port: Option<String> },
    /// Start the user's shell.
    SpawnShell,
    /// Attach to the board's console until it names its address.
    SpawnAddressCapture { then_ask: bool },
    // ---- the file browser ----
    CreateBrowser { root: String },
    Dispatch { request: BrowserRequest, port: Option<String> },
    /// Move the focused column's cursor by so many rows.
    MoveFileCursor { down: bool, rows: u8 },
    FileCursorToStart,
    FileCursorToEnd,
    ReloadLocal,
    ToggleHidden,
    EnterFiles,
    ReloadFiles,
    /// Ask the listing tool for devices.
    ScanDevices,
    /// Walk the serial ports under this directory.
    ScanSerialPorts { dir: String },
    /// List the device's root.
    LoadDevice { port: Option<String>, force: bool },
    /// Hold device requests (or release them).
    InterruptGate { hold: bool, port: Option<String> },
    /// Reload the device pane through the identification chain.
    ReloadDevicePane,
    OpenPackageManager,
    // ---- the device ----
    StartProbe { port: Option<String> },
    DeclineHeldListing,
    // ---- the flash panel ----
    CreateFlashPanel { root: String, firmware_dir: bool },
    QueryDeviceInfo { device: String },
    QueryFirmware { device: String },
    HuntVersion { device: String },
    DropVersionHunt,
    ClearDeviceDetails,
    ClearFirmwareIdentity,
    /// Look for firmware files, for this action or for the list alone.
    DiscoverFirmware { wanted: Option<FlashAction> },
    SelectFirmware(usize),
    SearchOnline { mcu: String, dialog: bool },
    FetchBoard { id: String },
    RunFlash { action: FlashAction, port: Option<String> },
    /// Say whether the action is blocked, and quote its command.
    PreviewFlash { action: FlashAction, port: Option<String> },
    StopFlash,
    MoveFlashCursor { down: bool },
    MoveOnlineCursor { down: bool },
    StepOptionsFocus { forward: bool },
    CycleOption { field: OptionsField, forward: bool },
    OptionBackspace(OptionsField),
    OptionChar(OptionsField, char),
    // ---- the build panel ----
    CreateBuildPanel { root: String },
    CreateWorkspacePanel,
    FetchBoards,
    FetchShields,
    DriveDocs,
    StartBuild(BuildAction),
    /// Compose the memory report's command, from the installation there.
    ComposeReport { installation: String },
    StopBuild,
    Menuconfig,
    RefreshBoardRoots { root: String, stop_at: Option<String> },
    RefreshVariants { root: String },
    SetProject { root: String },
    /// Look up what was answered for the project at `root`.
    ReadProjectAnswers { root: String },
    /// Record the target's answers for the project at `root`.
    PersistTarget {
        root: String,
        board: Option<String>,
        shield: Option<String>,
        variant: Option<String>,
    },
    SelectVariant(usize),
    ClearShield,
    WorkspaceUpdate,
    RefreshWorkspace,
    /// Load what the build dashboard's tab needs.
    LoadReport { root: String, tab: usize },
    InvalidateMemoryReport,
    ExpandRow,
    CollapseRow,
    ToggleRow,
    // ---- the installer ----
    ProbePrerequisites,
    ScrollInstall { down: bool, rows: usize, viewport: usize },
    ToggleSdk,
    StopInstall,
    StartInstall,
    StartSdkOnly,
    RefreshSdkStep,
    OpenProjectsPicker,
    OpenPurposePicker(DirPurpose),
    // ---- the OTA panel ----
    OpenOta { root: String, board: String },
    RefreshOta { probe: bool },
    ProbeOtaRequirements,
    ScrollOta { down: bool, rows: usize, viewport: usize },
    ToggleNetShell,
    ToggleAddressLog,
    ProbeBoard,
    SetAutoConfirm(bool),
    SetTransport(usize),
    StopOta,
    EndOtaCycle,
    StartOta(OtaConfirm),
    ResumeOta,
    DriveOta,
    // ---- the session ----
    ProjectKey(KeyEvent),
    WorkspaceKey(KeyEvent),
    PackagesKey(KeyEvent),
    DirPickerKey(KeyEvent),
    ApplyMpyProject(usize),
    Detect,
    ReportTools,
    OpenProjectSetup,
    SaveScaffold(BackendKind),
    EnsureLayout,
    RefreshRequirements,
    TickProbe,
    /// Go on with the tick, once everything before this is done.
    ContinueTick,
    FinishProbe,
    FinishVersionCapture,
}

/// Work on one text.
#[derive(Debug, Clone, PartialEq, Eq)]
pub enum TextTask {
    Upload { port: Option<String> },
    UploadDir { port: Option<String> },
    Download { port: Option<String> },
    DownloadDir { port: Option<String> },
    EditDownload { port: Option<String> },
    RemoveOnDevice { port: Option<String> },
    RemoveDirOnDevice { port: Option<String> },
    MakeDirOnDevice { port: Option<String> },
    TouchOnDevice { port: Option<String> },
    ViewOnDevice { port: Option<String> },
    RemoveFile,
    RemoveDir,
    CreateFile,
    CreateDir,
    ReadFile,
    /// Start the script in a terminal of its own.
    SpawnRun { port: Option<String> },
    PersistTheme,
    PersistIcons,
    /// Load the documentation index of this release.
    EnsureDocsIndex,
    /// Fetch what the documentation says of this board, or shield.
    DriveBoardDocs,
    DriveShieldDocs,
    SetBoard,
    /// The board the project's configuration names.
    SetConfigBoard,
    SetShield,
    SetBuildDir(usize),
    ApplyProject(usize),
    RemovePackage { targets: Vec<RemoveTarget>, declared: bool },
    RequestDownload,
    InspectInstallDir { toolchains: bool },
    /// Record the installation at this path, and its SDK.
    SaveInstallation { sdk: Option<String> },
    CreateInstallRoot,
    /// Record the board's address, typed or captured.
    SetOtaAddress { captured: bool },
    SetOtaTool,
    /// The device directory that was just listed.
    DeviceListed,
    ProbeOutput,
    VersionCaptureOutput,
    AddressCaptureOutput,
    MonitorOutput,
    MonitorLine,
    RunOutput,
    RunLine,
    ShellText,
    PasteIntoShell,
}

/// Work on two texts.
#[derive(Debug, Clone, PartialEq, Eq)]
pub enum PairTask {
    /// Rename the first to the second.
    Rename,
    /// Download the first to the second.
    StartDownload,
    /// Upload the first to the second after an edit.
    Reupload { port: Option<String> },
    /// Point the installer's tool named by the first at the second.
    SetInstallerTool,
    /// Write the second into the file named by the first.
    SaveText,
    /// Compare the file named by the first with the contents in the second.
    ComputeDiff,
}

/// One thing asked of the world.
#[derive(Debug, Clone, PartialEq, Eq)]
pub enum Effect<T = String, B = Vec<u8>> {
    Task(Task),
    Text(TextTask, T),
    Pair(PairTask, T, T),
    /// Write to a process's terminal.
    Stdin { id: u64, bytes: B },
    /// Feed the shell's terminal.
    ShellBytes(B),
}

/// The effect with its texts and bytes as sequences.
pub type EffectModel = Effect<Seq<char>, Seq<u8>>;

impl Effect<String, Vec<u8>> {
    pub open spec fn model(self) -> EffectModel {
        match self {
            Effect::Task(task) => Effect::Task(task),
            Effect::Text(task, t) => Effect::Text(task, t@),
            Effect::Pair(task, a, b) => Effect::Pair(task, a@, b@),
            Effect::Stdin { id, bytes } => Effect::Stdin { id, bytes: bytes@ },
            Effect::ShellBytes(bytes) => Effect::ShellBytes(bytes@),
        }
    }
}

/// A queue of effects with their texts and bytes as sequences.
pub open spec fn effects_model(effects: Seq<Effect>) -> Seq<EffectModel> {
    effects.map_values(|e: Effect| e.model())
}

} // verus!
