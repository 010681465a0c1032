//! Dashboard file-browser dispatch: navigation, the per-file action menu,
//! the local/device viewer, and the transfers they trigger.

use vstd::prelude::*;
use vstd::string::*;

use crate::app;
use crate::app::{
    App, DeskModel, Focus, LogTab, Model, Monitor, Panels, Pending, PendingEdit, RunLine, RunState,
    Screen,
};
use crate::app::monitor_view::{MonitorScroll, MonitorSource};
use crate::backend::{Capabilities, Capability};
use crate::effect::{BrowserRequest, Effect, EffectModel, PairTask, Task, TextTask};
use crate::input;
use crate::input::{KeyCode, KeyEvent, down_key, up_key};
use crate::logs;
use crate::logs::{Level, LineModel, LogLine};
use crate::overlay::{DevicePath, Overlay};
use crate::panels::{Browser, DeviceEntry, Side, SyncStatus};
use crate::text;

verus! {

broadcast use crate::overlay::group_overlay_models;

/// One action offered for the entry under the cursor.
#[derive(Debug, Clone, Copy, PartialEq, Eq, Structural)]
pub enum FileAction {
    /// Descends into a directory.
    Open,
    SendToDevice,
    Download,
    /// Runs a local file on the device without copying it in.
    Run,
    View,
    Edit,
    /// The local copy against the device copy.
    Diff,
    Delete,
}

/// `a` when it is offered, nothing otherwise.
pub open spec fn only(offered: bool, a: FileAction) -> Seq<FileAction> {
    if offered {
        seq![a]
    } else {
        Seq::empty()
    }
}

impl FileAction {
    /// The action's line in the menu: every word starts in the same column.
    pub fn label(self) -> (r: &'static str)
        ensures
            r@ == match self {
                FileAction::Open => "📂 Open"@,
                FileAction::SendToDevice => "📤 Send to device"@,
                FileAction::Download => "📥 Download"@,
                FileAction::Run => "▶  Run"@,
                FileAction::View => "🔍 View"@,
                FileAction::Edit => "📝 Edit"@,
                FileAction::Diff => "🔀 Diff"@,
                FileAction::Delete => "🚮 Delete"@,
            },
    {
        match self {
            FileAction::Open => "📂 Open",
            FileAction::SendToDevice => "📤 Send to device",
            FileAction::Download => "📥 Download",
            FileAction::Run => "▶  Run",
            FileAction::View => "🔍 View",
            FileAction::Edit => "📝 Edit",
            FileAction::Diff => "🔀 Diff",
            FileAction::Delete => "🚮 Delete",
        }
    }

    /// The menu of an entry: a directory opens, is sent or downloaded, and
    /// deleted; a file is sent or downloaded, and --- when it is text --- run,
    /// viewed, edited and, where the copies may differ, compared.
    pub open spec fn offered(
        side: Side,
        is_dir: bool,
        is_text: bool,
        status: Option<SyncStatus>,
        caps: Capabilities,
    ) -> Seq<FileAction> {
        let local = side == Side::Local;
        let send = only(local && caps.upload, FileAction::SendToDevice);
        let fetch = only(!local, FileAction::Download);
        if is_dir {
            seq![FileAction::Open] + send + fetch + seq![FileAction::Delete]
        } else {
            send + fetch + only(is_text && local && caps.run, FileAction::Run) + only(
                is_text,
                FileAction::View,
            ) + only(is_text, FileAction::Edit) + only(
                is_text && caps.filesystem && (status == Some(SyncStatus::Differs) || status
                    == Some(SyncStatus::SameSize)),
                FileAction::Diff,
            ) + seq![FileAction::Delete]
        }
    }

    /// The actions offered for the entry under the cursor, in menu order.
    pub fn for_entry(
        side: Side,
        is_dir: bool,
        is_text: bool,
        status: Option<SyncStatus>,
        capabilities: Capabilities,
    ) -> (r: Vec<FileAction>)
        ensures
            r@ == Self::offered(side, is_dir, is_text, status, capabilities),
            r@.len() > 0,
    {
        let mut actions: Vec<FileAction> = Vec::new();
        let local: bool = side == Side::Local;
        if is_dir {
            actions.push(FileAction::Open);
        }
        if local {
            if capabilities.contains(Capability::Upload) {
                actions.push(FileAction::SendToDevice);
            }
        } else {
            actions.push(FileAction::Download);
        }
        if !is_dir && is_text {
            if local && capabilities.contains(Capability::Run) {
                actions.push(FileAction::Run);
            }
            actions.push(FileAction::View);
            actions.push(FileAction::Edit);
            let differ: bool = match status {
                Some(SyncStatus::Differs) | Some(SyncStatus::SameSize) => true,
                _ => false,
            };
            if capabilities.contains(Capability::Filesystem) && differ {
                actions.push(FileAction::Diff);
            }
        }
        actions.push(FileAction::Delete);
        assert(actions@ =~= Self::offered(side, is_dir, is_text, status, capabilities));
        actions
    }
}

/// Every menu ends with `Delete`, and a directory's starts with `Open`.
pub proof fn menus_frame_their_actions(
    side: Side,
    is_dir: bool,
    is_text: bool,
    status: Option<SyncStatus>,
    caps: Capabilities,
)
    ensures
        ({
            let menu = FileAction::offered(side, is_dir, is_text, status, caps);
            &&& menu.len() > 0
            &&& menu.last() == FileAction::Delete
            &&& is_dir ==> menu.first() == FileAction::Open
        }),
{
}

/// Whether an action applies to an entry at all: directories open, text is
/// run, viewed, edited and compared, and each transfer, run and comparison
/// needs the capability behind it.
pub open spec fn applies(
    action: FileAction,
    side: Side,
    is_dir: bool,
    is_text: bool,
    status: Option<SyncStatus>,
    caps: Capabilities,
) -> bool {
    match action {
        FileAction::Open => is_dir,
        FileAction::SendToDevice => side == Side::Local && caps.upload,
        FileAction::Download => side == Side::Device,
        FileAction::Run => !is_dir && is_text && side == Side::Local && caps.run,
        FileAction::View | FileAction::Edit => !is_dir && is_text,
        FileAction::Diff => !is_dir && is_text && caps.filesystem && (status == Some(
            SyncStatus::Differs,
        ) || status == Some(SyncStatus::SameSize)),
        FileAction::Delete => true,
    }
}

proof fn found_in_either(s: Seq<FileAction>, t: Seq<FileAction>, x: FileAction)
    ensures
        (s + t).contains(x) == (s.contains(x) || t.contains(x)),
{
    if s.contains(x) {
        let i = choose|i: int| 0 <= i < s.len() && s[i] == x;
        assert((s + t)[i] == x);
    }
    if t.contains(x) {
        let i = choose|i: int| 0 <= i < t.len() && t[i] == x;
        assert((s + t)[s.len() + i] == x);
    }
    if (s + t).contains(x) {
        let i = choose|i: int| 0 <= i < (s + t).len() && (s + t)[i] == x;
        assert(if i < s.len() {
            s[i] == x
        } else {
            t[i - s.len()] == x
        });
    }
}

proof fn found_alone(offered: bool, a: FileAction, x: FileAction)
    ensures
        only(offered, a).contains(x) == (offered && a == x),
        seq![a].contains(x) == (a == x),
{
    assert(seq![a][0] == a);
}

/// A menu offers exactly the actions that apply.
pub proof fn menus_offer_what_applies(
    action: FileAction,
    side: Side,
    is_dir: bool,
    is_text: bool,
    status: Option<SyncStatus>,
    caps: Capabilities,
)
    ensures
        FileAction::offered(side, is_dir, is_text, status, caps).contains(action) == applies(
            action,
            side,
            is_dir,
            is_text,
            status,
            caps,
        ),
{
    let local = side == Side::Local;
    let send = only(local && caps.upload, FileAction::SendToDevice);
    let fetch = only(!local, FileAction::Download);
    let delete = seq![FileAction::Delete];
    found_alone(local && caps.upload, FileAction::SendToDevice, action);
    found_alone(!local, FileAction::Download, action);
    found_alone(true, FileAction::Delete, action);
    found_alone(true, FileAction::Open, action);
    if is_dir {
        let open = seq![FileAction::Open];
        found_in_either(open, send, action);
        found_in_either(open + send, fetch, action);
        found_in_either(open + send + fetch, delete, action);
    } else {
        let differ = status == Some(SyncStatus::Differs) || status == Some(SyncStatus::SameSize);
        let run = only(is_text && local && caps.run, FileAction::Run);
        let view = only(is_text, FileAction::View);
        let edit = only(is_text, FileAction::Edit);
        let diff = only(is_text && caps.filesystem && differ, FileAction::Diff);
        found_alone(is_text && local && caps.run, FileAction::Run, action);
        found_alone(is_text, FileAction::View, action);
        found_alone(is_text, FileAction::Edit, action);
        found_alone(is_text && caps.filesystem && differ, FileAction::Diff, action);
        found_in_either(send, fetch, action);
        found_in_either(send + fetch, run, action);
        found_in_either(send + fetch + run, view, action);
        found_in_either(send + fetch + run + view, edit, action);
        found_in_either(send + fetch + run + view + edit, diff, action);
        found_in_either(send + fetch + run + view + edit + diff, delete, action);
    }
}

/// Where a viewer's content came from.
#[derive(Debug, Clone, PartialEq, Eq)]
pub enum ViewerSource<T = String> {
    Local(T),
    Device(DevicePath<T>),
    /// Captured output of a script run on the device.
    RunOutput(T),
    /// The local copy against the device copy.
    Diff { local: T, device: DevicePath<T> },
}

impl ViewerSource<String> {
    pub open spec fn model(self) -> ViewerSource<Seq<char>> {
        match self {
            ViewerSource::Local(path) => ViewerSource::Local(path@),
            ViewerSource::Device(path) => ViewerSource::Device(path.model()),
            ViewerSource::RunOutput(path) => ViewerSource::RunOutput(path@),
            ViewerSource::Diff { local, device } => ViewerSource::Diff {
                local: local@,
                device: device.model(),
            },
        }
    }
}

/// What a viewer shows.
#[derive(Debug, Clone, PartialEq, Eq)]
pub enum ViewerState<T = String, L = Vec<String>> {
    Loading,
    Ready { lines: L },
    /// The file could not be shown, for this reason.
    Error(T),
}

impl ViewerState<String, Vec<String>> {
    pub open spec fn model(self) -> ViewerState<Seq<char>, Seq<Seq<char>>> {
        match self {
            ViewerState::Loading => ViewerState::Loading,
            ViewerState::Ready { lines } => ViewerState::Ready { lines: text::texts(lines@) },
            ViewerState::Error(message) => ViewerState::Error(message@),
        }
    }
}

/// Contents behind the file viewer.
pub struct FileViewer {
    pub source: ViewerSource,
    pub state: ViewerState,
    /// Index of the first visible line.
    pub scroll: usize,
}

/// The viewer as the contracts see it.
pub struct ViewerModel {
    pub source: ViewerSource<Seq<char>>,
    pub state: ViewerState<Seq<char>, Seq<Seq<char>>>,
    pub scroll: usize,
}

/// What a viewer is called: a file by its name alone, wherever it lies.
pub open spec fn viewer_name(source: ViewerSource<Seq<char>>) -> Seq<char> {
    match source {
        ViewerSource::Local(path) => text::file_name(path),
        ViewerSource::Device(path) => text::file_name(path.text),
        ViewerSource::RunOutput(path) => path + " — output"@,
        ViewerSource::Diff { local, .. } => "Diff: "@ + text::file_name(local)
            + "  (local ↔ device)"@,
    }
}

impl FileViewer {
    pub open spec fn model(self) -> ViewerModel {
        ViewerModel {
            source: self.source.model(),
            state: self.state.model(),
            scroll: self.scroll,
        }
    }

    /// Name to detect a syntax-highlighting language from.
    pub fn display_name(&self) -> (r: String)
        ensures
            r@ == viewer_name(self.source.model()),
    {
        match &self.source {
            ViewerSource::Local(path) => text::file_name_of(path.as_str()),
            ViewerSource::Device(path) => text::file_name_of(path.text.as_str()),
            ViewerSource::RunOutput(path) => text::join(path.as_str(), " — output"),
            ViewerSource::Diff { local, .. } => {
                let name = text::file_name_of(local.as_str());
                text::join3("Diff: ", name.as_str(), "  (local ↔ device)")
            },
        }
    }
}

/// What a transfer was.
pub enum TransferKind<T = String> {
    Download { local_path: T, then_edit: bool, source: DevicePath<T> },
    Upload { after_edit: bool },
}

/// A finished transfer.
pub struct Transfer<T = String> {
    pub kind: TransferKind<T>,
    pub ok: bool,
}

impl Transfer<String> {
    pub open spec fn model(self) -> Transfer<Seq<char>> {
        Transfer {
            kind: match self.kind {
                TransferKind::Download { local_path, then_edit, source } =>
                    TransferKind::Download {
                    local_path: local_path@,
                    then_edit,
                    source: source.model(),
                },
                TransferKind::Upload { after_edit } => TransferKind::Upload { after_edit },
            },
            ok: self.ok,
        }
    }
}

/// A device file's contents, or why they could not be read.
pub struct DeviceView {
    pub path: String,
    pub content: Result<String, String>,
}

/// `name` in the device directory `dir`, the root being `None`.
pub open spec fn device_child(dir: Option<String>, name: Seq<char>) -> Seq<char> {
    match dir {
        Some(dir) => text::joined(dir@, name),
        None => seq!['/'] + name,
    }
}

/// The size of the first entry called `name`.
pub open spec fn size_of(entries: Seq<DeviceEntry>, name: Seq<char>) -> Option<u64>
    decreases entries.len(),
{
    if entries.len() == 0 {
        None
    } else if entries[0].name@ == name {
        entries[0].size
    } else {
        size_of(entries.drop_first(), name)
    }
}

fn device_entry_size(entries: &Vec<DeviceEntry>, name: &String) -> (r: Option<u64>)
    ensures
        r == size_of(entries@, name@),
{
    let mut i: usize = 0;
    assert(entries@.skip(0) =~= entries@);
    while i < entries.len()
        invariant
            i <= entries.len(),
            size_of(entries@, name@) == size_of(entries@.skip(i as int), name@),
        decreases entries.len() - i,
    {
        let ghost rest = entries@.skip(i as int);
        if entries[i].name == *name {
            assert(rest[0].name@ == name@);
            return entries[i].size;
        }
        assert(rest.drop_first() =~= entries@.skip(i + 1));
        i = i + 1;
    }
    None
}

impl Model {
    pub open spec fn with_browser(self, browser: Browser) -> Model {
        self.with_panels(Panels { browser: Some(browser), ..self.panels })
    }

    pub open spec fn flash_busy(self) -> bool {
        self.flash matches Some(flash) && flash.busy
    }

    /// A browser request handed over: refused while a run, the probe or a
    /// flash command holds the port.
    pub open spec fn dispatched(self, effect: EffectModel) -> Model {
        if self.monitor.run is Some {
            self.warn("a script is running — wait for it to finish first"@)
        } else if self.chain.probe is Some {
            self.warn("still checking the device — try again in a moment"@)
        } else if self.flash_busy() {
            self.warn("reading device info — try again in a moment"@)
        } else if self.panels.browser is None {
            self
        } else {
            self.emit(effect)
        }
    }

    /// What the browser made of a request handed over: its notices, whether
    /// it is on the port now, or held at the interrupt gate, which then asks.
    pub open spec fn dispatch_answered(
        self,
        notices: Seq<LineModel>,
        busy: bool,
        held: bool,
    ) -> Model {
        match self.panels.browser {
            Some(browser) => self.told(notices).with_browser(
                Browser { busy, held, ..browser },
            ).gate_checked(),
            None => self,
        }
    }

    pub open spec fn requested(self, request: BrowserRequest) -> Model {
        self.dispatched(Effect::Task(Task::Dispatch { request, port: self.port() }))
    }

    /// A key while a file column holds focus.
    #[verifier::opaque]
    pub open spec fn files_key(self, key: KeyEvent) -> Model {
        let code = key.code;
        let fs = self.caps().filesystem;
        match self.panels.browser {
            None => self,
            Some(browser) => {
                let side = if self.screen.focus == Focus::FilesDevice {
                    Side::Device
                } else {
                    Side::Local
                };
                let b = Browser { focus: side, ..browser };
                let m = self.with_browser(b);
                if fs && code == KeyCode::Char('r') && side == Side::Device {
                    m.task(Task::ReloadDevicePane)
                } else if code == KeyCode::Right {
                    m.requested(BrowserRequest::Enter)
                } else if code == KeyCode::Left || code == KeyCode::Backspace {
                    m.requested(BrowserRequest::Ascend)
                } else if fs && code == KeyCode::Char('c') {
                    m.requested(BrowserRequest::VerifySelected)
                } else if fs && code == KeyCode::Char('S') {
                    m.requested(BrowserRequest::Sync)
                } else if input::is_up(code) {
                    m.task(Task::MoveFileCursor { down: false, rows: 1 })
                } else if input::is_down(code) {
                    m.task(Task::MoveFileCursor { down: true, rows: 1 })
                } else if code == KeyCode::PageUp {
                    m.task(Task::MoveFileCursor { down: false, rows: 10 })
                } else if code == KeyCode::PageDown {
                    m.task(Task::MoveFileCursor { down: true, rows: 10 })
                } else if code == KeyCode::Home {
                    m.task(Task::FileCursorToStart)
                } else if code == KeyCode::End {
                    m.task(Task::FileCursorToEnd)
                } else if code == KeyCode::Enter {
                    m.menu_opened(side)
                } else if code == KeyCode::Char('r') {
                    m.task(Task::ReloadLocal)
                } else if code == KeyCode::Char('a') {
                    m.shown(Overlay::CreateEntry { side, input: Seq::empty() })
                } else if code == KeyCode::Char('h') {
                    m.task(Task::ToggleHidden)
                } else if code == KeyCode::Char('i') && side == Side::Device
                    && self.caps().package_install {
                    m.task(Task::OpenPackageManager)
                } else {
                    m
                }
            },
        }
    }

    /// The menu of the entry under `side`'s cursor.
    pub open spec fn menu_opened(self, side: Side) -> Model {
        match self.panels.browser {
            Some(browser) => match browser.spec_selected(side) {
                Some(entry) => self.shown(
                    Overlay::FileActions {
                        side,
                        name: entry.name@,
                        is_dir: entry.is_dir,
                        is_text: entry.is_text,
                        status: entry.status,
                        selected: 0,
                    },
                ),
                None => self,
            },
            None => self,
        }
    }

    /// The directory the active local source is showing.
    pub open spec fn local_dir(self) -> Option<Seq<char>> {
        match self.panels.browser {
            Some(browser) => Some(browser.local_path@),
            None => match self.panels.workspace {
                Some(panel) => Some(
                    match panel.files_path {
                        Some(path) => path@,
                        None => Seq::empty(),
                    },
                ),
                None => None,
            },
        }
    }

    pub open spec fn local_reloaded(self) -> Model {
        if self.panels.browser is Some {
            self.task(Task::ReloadLocal)
        } else if self.panels.workspace is Some {
            self.task(Task::ReloadFiles)
        } else {
            self
        }
    }

    /// An effect on the local entry `name`, where a local directory shows.
    pub open spec fn on_local(self, task: TextTask, name: Seq<char>) -> Model {
        match self.local_dir() {
            Some(dir) => self.emit(Effect::Text(task, text::joined(dir, name))),
            None => self,
        }
    }

    /// A device request that names an entry.
    pub open spec fn on_device(self, task: TextTask, name: Seq<char>) -> Model {
        self.dispatched(Effect::Text(task, name))
    }

    /// The action chosen from an entry's menu.
    pub open spec fn file_action(
        self,
        side: Side,
        name: Seq<char>,
        is_dir: bool,
        action: FileAction,
    ) -> Model {
        let port = self.port();
        match action {
            FileAction::Open => if self.panels.browser is Some {
                self.requested(BrowserRequest::Enter)
            } else if self.panels.workspace is Some {
                self.task(Task::EnterFiles)
            } else {
                self
            },
            FileAction::Diff => self.diff_opened(name),
            FileAction::View => match side {
                Side::Local => self.on_local(TextTask::ReadFile, name),
                Side::Device => self.device_viewer_opened(name),
            },
            FileAction::Edit => match side {
                Side::Local => match self.local_dir() {
                    Some(dir) => self.with_desk(
                        DeskModel {
                            pending_edit: Some(
                                PendingEdit {
                                    path: text::joined(dir, name),
                                    device_target: None,
                                },
                            ),
                            ..self.desk
                        },
                    ),
                    None => self,
                },
                Side::Device => self.on_device(TextTask::EditDownload { port }, name),
            },
            FileAction::SendToDevice => match side {
                Side::Local => self.shown(Overlay::ConfirmUpload { name, is_dir, confirm: false }),
                Side::Device => self,
            },
            FileAction::Run => match side {
                Side::Local => self.run_opened(name),
                Side::Device => self,
            },
            FileAction::Download => match side {
                Side::Local => self,
                Side::Device => if is_dir {
                    self.on_device(TextTask::DownloadDir { port }, name)
                } else {
                    self.on_device(TextTask::Download { port }, name)
                },
            },
            FileAction::Delete => self.shown(
                Overlay::ConfirmDelete { side, name, is_dir, confirm: false },
            ),
        }
    }

    /// The deletion of an entry, once confirmed.
    pub open spec fn file_deleted(self, side: Side, name: Seq<char>, is_dir: bool) -> Model {
        let port = self.port();
        match (side, is_dir) {
            (Side::Local, false) => self.on_local(TextTask::RemoveFile, name),
            (Side::Local, true) => self.on_local(TextTask::RemoveDir, name),
            (Side::Device, false) => self.on_device(TextTask::RemoveOnDevice { port }, name),
            (Side::Device, true) => self.on_device(TextTask::RemoveDirOnDevice { port }, name),
        }
    }

    /// The creation of an entry: a trailing `/` asks for a directory.
    pub open spec fn entry_asked(self, side: Side, typed: Seq<char>) -> Model {
        let typed = text::trimmed(typed);
        let is_dir = typed.len() > 0 && typed.last() == '/';
        let name = text::trimmed(text::trim_last(typed, '/'));
        let port = self.port();
        if name.len() == 0 {
            self.warn("type a name first"@)
        } else {
            match side {
                Side::Local => self.on_local(
                    if is_dir {
                        TextTask::CreateDir
                    } else {
                        TextTask::CreateFile
                    },
                    name,
                ),
                Side::Device => self.on_device(
                    if is_dir {
                        TextTask::MakeDirOnDevice { port }
                    } else {
                        TextTask::TouchOnDevice { port }
                    },
                    name,
                ),
            }
        }
    }

    /// A rename: within the directory, to a name of its own.
    pub open spec fn rename_asked(self, from: Seq<char>, typed: Seq<char>) -> Model {
        let name = text::trim_last(text::trimmed(typed), '/');
        if name.len() == 0 {
            self.warn("type a name first"@)
        } else if name == from {
            self
        } else if name.contains('/') {
            self.warn("rename stays in this directory (a name, not a path)"@)
        } else {
            match self.local_dir() {
                Some(dir) => self.emit(
                    Effect::Pair(
                        PairTask::Rename,
                        text::joined(dir, from),
                        text::joined(dir, name),
                    ),
                ),
                None => self,
            }
        }
    }

    pub open spec fn viewing(self, source: ViewerSource<Seq<char>>) -> Model {
        self.with_desk(
            DeskModel {
                viewer: Some(ViewerModel { source, state: ViewerState::Loading, scroll: 0 }),
                ..self.desk
            },
        ).shown(Overlay::FileViewer)
    }

    /// Whether the device entry is too large to show.
    pub open spec fn oversized(self, name: Seq<char>) -> Option<u64> {
        match size_of(self.panels.lists.device_entries@, name) {
            Some(size) => if size > self.panels.lists.max_view_bytes {
                Some(size)
            } else {
                None
            },
            None => None,
        }
    }

    pub open spec fn too_large(self, path: Seq<char>, what: Seq<char>, size: u64) -> Model {
        self.warn(
            path + what + text::decimal((size / 1048576) as nat)
                + " MiB) --- use 'Download' or 'Edit' instead"@,
        )
    }

    /// The viewer on a device file, its contents asked for.
    pub open spec fn device_viewer_opened(self, name: Seq<char>) -> Model {
        match self.panels.browser {
            None => self,
            Some(browser) => {
                let path = device_child(browser.device_path, name);
                match self.oversized(name) {
                    Some(size) => self.too_large(path, ": too large to preview ("@, size),
                    None => self.viewing(
                        ViewerSource::Device(DevicePath { text: path, name }),
                    ).on_device(TextTask::ViewOnDevice { port: self.port() }, name),
                }
            },
        }
    }

    /// The viewer on a comparison, the device half asked for.
    pub open spec fn diff_opened(self, name: Seq<char>) -> Model {
        match self.panels.browser {
            None => self,
            Some(browser) => {
                let local = text::joined(browser.local_path@, name);
                let device = device_child(browser.device_path, name);
                match self.oversized(name) {
                    Some(size) => self.too_large(device, ": too large to diff ("@, size),
                    None => self.info("diffing "@ + name + " (local ↔ device)"@).viewing(
                        ViewerSource::Diff { local, device: DevicePath { text: device, name } },
                    ).on_device(TextTask::ViewOnDevice { port: self.port() }, name),
                }
            },
        }
    }

    /// A script run, refused while something else holds the device.
    pub open spec fn run_opened(self, name: Seq<char>) -> Model {
        match self.panels.browser {
            Some(browser) => if browser.busy {
                self.warn("device is busy — wait for the current operation to finish"@)
            } else if browser.held {
                self.warn("a script is running — answer the interrupt prompt first"@)
            } else if self.monitor.device is Some {
                self.warn("close the monitor/REPL before running a script"@)
            } else if self.chain.version_capture is Some {
                self.warn("reading the firmware version — wait for it to finish"@)
            } else {
                self.run_started(text::joined(browser.local_path@, name))
            },
            None => if self.monitor.device is Some {
                self.warn("close the monitor/REPL before running a script"@)
            } else if self.chain.version_capture is Some {
                self.warn("reading the firmware version — wait for it to finish"@)
            } else {
                self
            },
        }
    }

    pub open spec fn run_started(self, path: Seq<char>) -> Model {
        let m = self.with_desk(
            DeskModel { run_script: Some(path), run_output: Seq::empty(), ..self.desk },
        ).with_monitor(
            Monitor {
                run_state: RunState::Running,
                source: MonitorSource::Run,
                scroll: MonitorScroll::tail(),
                ..self.monitor
            },
        ).with_screen(Screen { focus: Focus::Logs, log_tab: LogTab::Monitor, ..self.screen });
        m.info("running "@ + path).emit(
            Effect::Text(TextTask::SpawnRun { port: self.port() }, path),
        )
    }

    /// The run's output kept beside its script, as `{stem}.output.txt`.
    pub open spec fn run_output_kept(self) -> Model {
        match self.desk.run_script {
            None => self,
            Some(script) => if self.desk.run_output.len() == 0 {
                self.warn("no run output to save"@)
            } else {
                self.emit(
                    Effect::Pair(
                        PairTask::SaveText,
                        output_file(script),
                        text::lines_text(self.desk.run_output),
                    ),
                )
            },
        }
    }

    pub open spec fn viewer_scrolled_to(self, scroll: usize) -> Model {
        match self.desk.viewer {
            Some(viewer) => self.with_desk(
                DeskModel { viewer: Some(ViewerModel { scroll, ..viewer }), ..self.desk },
            ),
            None => self,
        }
    }

    /// The last position that keeps the viewer's page full; `None` while
    /// there is nothing to page through.
    pub open spec fn viewer_end(self) -> Option<int> {
        let viewport = if self.drawn.viewer_viewport == 0 {
            1
        } else {
            self.drawn.viewer_viewport as int
        };
        match self.desk.viewer {
            Some(viewer) => match viewer.state {
                ViewerState::Ready { lines } => Some(
                    if lines.len() > viewport {
                        lines.len() - viewport
                    } else {
                        0
                    },
                ),
                _ => None,
            },
            None => None,
        }
    }

    /// The viewer `rows` further down (or up), inside its document.
    pub open spec fn viewer_stepped(self, down: bool, rows: usize) -> Model {
        match (self.viewer_end(), self.desk.viewer) {
            (Some(end), Some(viewer)) => {
                let next = if down {
                    viewer.scroll + rows
                } else {
                    viewer.scroll - rows
                };
                self.viewer_scrolled_to(
                    (if next < 0 {
                        0
                    } else if next > end {
                        end
                    } else {
                        next
                    }) as usize,
                )
            },
            _ => self,
        }
    }

    /// The viewer at `target`, or at its end before that.
    pub open spec fn viewer_jumped(self, target: usize) -> Model {
        match self.viewer_end() {
            Some(end) => self.viewer_scrolled_to(
                (if target < end {
                    target as int
                } else {
                    end
                }) as usize,
            ),
            None => self,
        }
    }

    /// A finished transfer's consequence.
    pub open spec fn transferred(self, transfer: Transfer<Seq<char>>) -> Model {
        match transfer.kind {
            TransferKind::Download { local_path, then_edit, source } => if then_edit
                && transfer.ok {
                self.with_desk(
                    DeskModel {
                        pending_edit: Some(
                            PendingEdit { path: local_path, device_target: Some(source) },
                        ),
                        ..self.desk
                    },
                )
            } else {
                self
            },
            TransferKind::Upload { after_edit } => if after_edit && transfer.ok {
                self.shown(Overlay::ConfirmRestartDevice { confirm: false })
            } else {
                self
            },
        }
    }

    /// How to bring an interrupted script back.
    pub open spec fn restored(self, selected: usize) -> Model {
        if selected == 0 {
            self.requested(BrowserRequest::HardReset)
        } else if selected == 1 {
            self.requested(BrowserRequest::RelaunchMain)
        } else {
            self
        }
    }

    /// Local listings that changed outside, reloaded once a second.
    pub open spec fn listings_refreshed(self, local: bool, files: bool) -> Model {
        if self.pending.ticks % 4 != 0 {
            self
        } else if self.panels.browser is Some && local {
            self.task(Task::ReloadLocal)
        } else if self.panels.workspace is Some && files {
            self.task(Task::ReloadFiles)
        } else {
            self
        }
    }

    /// The directory an editor runs from: the project folder.
    pub open spec fn editor_dir(self) -> String {
        match self.panels.workspace {
            Some(panel) => match panel.files_root {
                Some(root) => if root@.len() > 0 {
                    root
                } else {
                    self.project.manager.spec_dir()
                },
                None => self.project.manager.spec_dir(),
            },
            None => self.project.manager.spec_dir(),
        }
    }
}

/// The file a script's output is kept in.
pub open spec fn output_file(script: Seq<char>) -> Seq<char> {
    let name = text::file_name(script);
    let kept = if name.len() == 0 {
        "run"@
    } else {
        text::stem(name)
    };
    text::joined(text::parent_dir(script), kept + ".output.txt"@)
}

impl Model {
    /// What a try at removing a local entry came to.
    pub open spec fn removed(self, path: Seq<char>, failure: Option<Seq<char>>) -> Model {
        match failure {
            None => self.logged(Level::Success, path + " removed"@).local_reloaded(),
            Some(e) => self.error(path + ": remove failed: "@ + e),
        }
    }

    pub open spec fn created(self, path: Seq<char>, failure: Option<Seq<char>>) -> Model {
        match failure {
            None => self.logged(Level::Success, path + " created"@).local_reloaded(),
            Some(e) => self.error(path + ": create failed: "@ + e),
        }
    }

    pub open spec fn renamed(
        self,
        from: Seq<char>,
        to: Seq<char>,
        failure: Option<Seq<char>>,
    ) -> Model {
        match failure {
            None => self.logged(Level::Success, from + " renamed to "@ + to).local_reloaded(),
            Some(e) => self.error(from + ": rename failed: "@ + e),
        }
    }

    pub open spec fn output_saved(self, dest: Seq<char>, failure: Option<Seq<char>>) -> Model {
        match failure {
            None => self.logged(Level::Success, "run output saved to "@ + dest),
            Some(e) => self.error("could not save run output: "@ + e),
        }
    }

    /// A local file's contents, or the reason in their place, in the viewer.
    pub open spec fn file_viewed(
        self,
        path: Seq<char>,
        content: Result<Seq<char>, Seq<char>>,
    ) -> Model {
        self.with_desk(
            DeskModel {
                viewer: Some(
                    ViewerModel {
                        source: ViewerSource::Local(path),
                        state: content_state(content),
                        scroll: 0,
                    },
                ),
                ..self.desk
            },
        ).shown(Overlay::FileViewer)
    }

    pub open spec fn viewer_state(
        self,
        state: ViewerState<Seq<char>, Seq<Seq<char>>>,
    ) -> Model {
        match self.desk.viewer {
            Some(viewer) => self.with_desk(
                DeskModel { viewer: Some(ViewerModel { state, ..viewer }), ..self.desk },
            ),
            None => self,
        }
    }

    /// A device file's contents: for the viewer waiting on that path alone.
    /// A comparison goes on with the local copy as it is now.
    pub open spec fn device_viewed(
        self,
        path: Seq<char>,
        content: Result<Seq<char>, Seq<char>>,
    ) -> Model {
        match self.desk.viewer {
            Some(viewer) => match viewer.source {
                ViewerSource::Device(shown) => if shown.text == path {
                    self.viewer_state(content_state(content))
                } else {
                    self
                },
                ViewerSource::Diff { local, device } => if device.text == path {
                    match content {
                        Ok(text) => self.emit(Effect::Pair(PairTask::ComputeDiff, local, text)),
                        Err(_) => self.viewer_state(content_state(content)),
                    }
                } else {
                    self
                },
                _ => self,
            },
            None => self,
        }
    }

    /// A comparison's lines; one line says so where there are none.
    pub open spec fn compared(
        self,
        local: Seq<char>,
        outcome: Result<Seq<Seq<char>>, Seq<char>>,
    ) -> Model {
        match self.desk.viewer {
            Some(viewer) => match viewer.source {
                ViewerSource::Diff { local: shown, .. } => if shown == local {
                    self.viewer_state(
                        match outcome {
                            Ok(lines) => if lines.len() == 0 {
                                ViewerState::Ready {
                                    lines: seq!["(no differences — files are identical)"@],
                                }
                            } else {
                                ViewerState::Ready { lines }
                            },
                            Err(e) => ViewerState::Error(e),
                        },
                    )
                } else {
                    self
                },
                _ => self,
            },
            None => self,
        }
    }

    /// The run asked for, started as `outcome` or refused with it.
    pub open spec fn run_answered(self, outcome: Result<u64, Seq<char>>) -> Model {
        match outcome {
            Ok(id) => self.with_monitor(Monitor { run: Some(id), ..self.monitor }),
            Err(e) => self.error("could not start run: "@ + e).with_monitor(
                Monitor { run_state: RunState::Idle, ..self.monitor },
            ),
        }
    }
}

/// What a viewer shows of contents, or of the reason there are none.
pub open spec fn content_state(
    content: Result<Seq<char>, Seq<char>>,
) -> ViewerState<Seq<char>, Seq<Seq<char>>> {
    match content {
        Ok(text) => ViewerState::Ready { lines: text::lines(text) },
        Err(e) => ViewerState::Error(e),
    }
}

/// Contents, or why there are none, as sequences.
pub open spec fn content_view(content: Result<String, String>) -> Result<Seq<char>, Seq<char>> {
    match content {
        Ok(text) => Ok(text@),
        Err(e) => Err(e@),
    }
}

/// The failure of a piece of work that returns nothing.
pub open spec fn failure_view(outcome: Result<(), String>) -> Option<Seq<char>> {
    match outcome {
        Ok(_) => None,
        Err(e) => Some(e@),
    }
}

fn read_state(content: Result<String, String>) -> (r: ViewerState)
    ensures
        r.model() == content_state(content_view(content)),
{
    match content {
        Ok(text) => ViewerState::Ready { lines: text::lines_of(text.as_str()) },
        Err(e) => ViewerState::Error(e),
    }
}

impl App {
    fn set_viewer(&mut self, viewer: FileViewer)
        ensures
            final(self)@ == old(self)@.with_desk(
                DeskModel { viewer: Some(viewer.model()), ..old(self)@.desk },
            ),
    {
        reveal(app::opt_viewer);
        self.desk.viewer = Some(viewer);
    }

    fn set_pending_edit(&mut self, edit: PendingEdit)
        ensures
            final(self)@ == old(self)@.with_desk(
                DeskModel { pending_edit: Some(edit.model()), ..old(self)@.desk },
            ),
    {
        reveal(app::opt_edit);
        self.desk.pending_edit = Some(edit);
    }

    /// Hands a request to the file browser, unless something else holds the
    /// device's port: a run, the probe, or a flash command.
    pub fn dispatch_browser(&mut self, effect: Effect)
        ensures
            final(self)@ == old(self)@.dispatched(effect.model()),
    {
        if self.monitor.run.is_some() {
            self.warn("a script is running — wait for it to finish first");
            return;
        }
        if self.chain.probe.is_some() {
            self.warn("still checking the device — try again in a moment");
            return;
        }
        if self.is_flash_busy() {
            self.warn("reading device info — try again in a moment");
            return;
        }
        if self.panels.browser.is_some() {
            self.emit(effect);
        }
    }

    /// Takes the browser's answer to a request handed over.
    pub fn browser_dispatched(&mut self, notices: &Vec<LogLine>, busy: bool, held: bool)
        ensures
            final(self)@ == old(self)@.dispatch_answered(logs::lines_view(notices@), busy, held),
    {
        if self.panels.browser.is_none() {
            return;
        }
        self.tell(notices);
        if let Some(browser) = &mut self.panels.browser {
            browser.busy = busy;
            browser.held = held;
        }
        self.check_interrupt_gate();
    }

    pub fn is_flash_busy(&self) -> (r: bool)
        ensures
            r == self@.flash_busy(),
    {
        match &self.flash {
            Some(flash) => flash.busy,
            None => false,
        }
    }

    pub fn request_browser(&mut self, request: BrowserRequest)
        ensures
            final(self)@ == old(self)@.requested(request),
    {
        let port = self.port();
        self.dispatch_browser(Effect::Task(Task::Dispatch { request, port }));
    }

    /// Handles a key while a file column holds focus. Keys that can reach the
    /// device go through the dispatch, which keeps the port's users apart.
    pub fn on_files_key(&mut self, key: KeyEvent)
        ensures
            final(self)@ == old(self)@.files_key(key),
    {
        reveal(Model::files_key);
        let code = key.code;
        let caps = self.capabilities();
        let fs: bool = caps.contains(Capability::Filesystem);
        let side: Side = if self.screen.focus == Focus::FilesDevice {
            Side::Device
        } else {
            Side::Local
        };
        match &mut self.panels.browser {
            None => {
                return;
            },
            Some(browser) => {
                browser.focus = side;
            },
        }
        if fs && code == KeyCode::Char('r') && side == Side::Device {
            self.task(Task::ReloadDevicePane);
        } else if code == KeyCode::Right {
            self.request_browser(BrowserRequest::Enter);
        } else if code == KeyCode::Left || code == KeyCode::Backspace {
            self.request_browser(BrowserRequest::Ascend);
        } else if fs && code == KeyCode::Char('c') {
            self.request_browser(BrowserRequest::VerifySelected);
        } else if fs && code == KeyCode::Char('S') {
            self.request_browser(BrowserRequest::Sync);
        } else if up_key(code) {
            self.task(Task::MoveFileCursor { down: false, rows: 1 });
        } else if down_key(code) {
            self.task(Task::MoveFileCursor { down: true, rows: 1 });
        } else if code == KeyCode::PageUp {
            self.task(Task::MoveFileCursor { down: false, rows: 10 });
        } else if code == KeyCode::PageDown {
            self.task(Task::MoveFileCursor { down: true, rows: 10 });
        } else if code == KeyCode::Home {
            self.task(Task::FileCursorToStart);
        } else if code == KeyCode::End {
            self.task(Task::FileCursorToEnd);
        } else if code == KeyCode::Enter {
            self.open_file_menu(side);
        } else if code == KeyCode::Char('r') {
            self.task(Task::ReloadLocal);
        } else if code == KeyCode::Char('a') {
            self.show(Overlay::CreateEntry { side, input: String::new() });
        } else if code == KeyCode::Char('h') {
            self.task(Task::ToggleHidden);
        } else if code == KeyCode::Char('i') && side == Side::Device && caps.contains(
            Capability::PackageInstall,
        ) {
            self.task(Task::OpenPackageManager);
        }
    }

    /// Opens the menu of the entry under `side`'s cursor.
    pub fn open_file_menu(&mut self, side: Side)
        ensures
            final(self)@ == old(self)@.menu_opened(side),
    {
        let found = match &self.panels.browser {
            Some(browser) => browser.selected(side),
            None => None,
        };
        if let Some(entry) = found {
            self.show(
                Overlay::FileActions {
                    side,
                    name: entry.name,
                    is_dir: entry.is_dir,
                    is_text: entry.is_text,
                    status: entry.status,
                    selected: 0,
                },
            );
        }
    }

    fn local_entry_path(&self, name: &str) -> (r: Option<String>)
        ensures
            match (r, self@.local_dir()) {
                (Some(path), Some(dir)) => path@ == text::joined(dir, name@),
                (None, None) => true,
                _ => false,
            },
    {
        if let Some(browser) = &self.panels.browser {
            return Some(text::join_path(browser.local_path.as_str(), name));
        }
        match &self.panels.workspace {
            Some(panel) => match &panel.files_path {
                Some(path) => Some(text::join_path(path.as_str(), name)),
                None => {
                    let here = String::new();
                    assert(here@ =~= Seq::<char>::empty());
                    Some(text::join_path(here.as_str(), name))
                },
            },
            None => None,
        }
    }

    fn ask_local(&mut self, task: TextTask, name: &str)
        ensures
            final(self)@ == old(self)@.on_local(task, name@),
    {
        if let Some(path) = self.local_entry_path(name) {
            self.emit(Effect::Text(task, path));
        }
    }

    fn ask_device(&mut self, task: TextTask, name: &str)
        ensures
            final(self)@ == old(self)@.on_device(task, name@),
    {
        self.dispatch_browser(Effect::Text(task, name.to_owned()));
    }

    fn reload_local_pane(&mut self)
        ensures
            final(self)@ == old(self)@.local_reloaded(),
    {
        if self.panels.browser.is_some() {
            self.task(Task::ReloadLocal);
        } else if self.panels.workspace.is_some() {
            self.task(Task::ReloadFiles);
        }
    }

    /// Re-reads the local pane after an editor closed.
    pub fn reload_local_files(&mut self)
        ensures
            final(self)@ == old(self)@.local_reloaded(),
    {
        self.reload_local_pane();
    }

    /// Refreshes whichever local source changed outside the program
    /// (`local`, `files`), once a second.
    pub fn refresh_local_listings(&mut self, local: bool, files: bool)
        ensures
            final(self)@ == old(self)@.listings_refreshed(local, files),
    {
        if self.pending.ticks % 4 != 0 {
            return;
        }
        if self.panels.browser.is_some() && local {
            self.task(Task::ReloadLocal);
        } else if self.panels.workspace.is_some() && files {
            self.task(Task::ReloadFiles);
        }
    }

    /// Runs the action chosen from an entry's menu.
    pub fn run_file_action(&mut self, side: Side, name: &str, is_dir: bool, action: FileAction)
        ensures
            final(self)@ == old(self)@.file_action(side, name@, is_dir, action),
    {
        let port = self.port();
        match action {
            FileAction::Open => {
                if self.panels.browser.is_some() {
                    self.request_browser(BrowserRequest::Enter);
                } else if self.panels.workspace.is_some() {
                    self.task(Task::EnterFiles);
                }
            },
            FileAction::Diff => self.open_diff(name),
            FileAction::View => match side {
                Side::Local => self.ask_local(TextTask::ReadFile, name),
                Side::Device => self.open_device_file_viewer(name),
            },
            FileAction::Edit => match side {
                Side::Local => {
                    if let Some(path) = self.local_entry_path(name) {
                        self.set_pending_edit(PendingEdit { path, device_target: None });
                    }
                },
                Side::Device => self.ask_device(TextTask::EditDownload { port }, name),
            },
            FileAction::SendToDevice => {
                if side == Side::Local {
                    let name = name.to_owned();
                    self.show(Overlay::ConfirmUpload { name, is_dir, confirm: false });
                }
            },
            FileAction::Run => {
                if side == Side::Local {
                    self.open_run_session(name);
                }
            },
            FileAction::Download => {
                if side == Side::Device {
                    if is_dir {
                        self.ask_device(TextTask::DownloadDir { port }, name);
                    } else {
                        self.ask_device(TextTask::Download { port }, name);
                    }
                }
            },
            FileAction::Delete => {
                let name = name.to_owned();
                self.show(Overlay::ConfirmDelete { side, name, is_dir, confirm: false });
            },
        }
    }

    /// Removes the entry, once the user confirmed it.
    pub fn delete_file(&mut self, side: Side, name: &str, is_dir: bool)
        ensures
            final(self)@ == old(self)@.file_deleted(side, name@, is_dir),
    {
        let port = self.port();
        match (side, is_dir) {
            (Side::Local, false) => self.ask_local(TextTask::RemoveFile, name),
            (Side::Local, true) => self.ask_local(TextTask::RemoveDir, name),
            (Side::Device, false) => self.ask_device(TextTask::RemoveOnDevice { port }, name),
            (Side::Device, true) => self.ask_device(TextTask::RemoveDirOnDevice { port }, name),
        }
    }

    /// The removal asked for ended.
    pub fn entry_removed(&mut self, path: &str, outcome: Result<(), String>)
        ensures
            final(self)@ == old(self)@.removed(path@, failure_view(outcome)),
    {
        match outcome {
            Ok(_) => {
                self.log(Level::Success, text::join(path, " removed").as_str());
                self.reload_local_pane();
            },
            Err(e) => self.error(text::join3(path, ": remove failed: ", e.as_str()).as_str()),
        }
    }

    /// Creates the entry typed: a directory when the name ends in `/`.
    pub fn create_entry(&mut self, side: Side, input: &str)
        ensures
            final(self)@ == old(self)@.entry_asked(side, input@),
    {
        let typed = text::trim(input);
        let is_dir: bool = text::ends_with(typed.as_str(), '/');
        let bare = text::trim_end_matches(typed.as_str(), '/');
        let name = text::trim(bare.as_str());
        if name.as_str().unicode_len() == 0 {
            self.warn("type a name first");
            return;
        }
        let port = self.port();
        match side {
            Side::Local => {
                if is_dir {
                    self.ask_local(TextTask::CreateDir, name.as_str());
                } else {
                    self.ask_local(TextTask::CreateFile, name.as_str());
                }
            },
            Side::Device => {
                if is_dir {
                    self.ask_device(TextTask::MakeDirOnDevice { port }, name.as_str());
                } else {
                    self.ask_device(TextTask::TouchOnDevice { port }, name.as_str());
                }
            },
        }
    }

    /// The creation asked for ended.
    pub fn entry_created(&mut self, path: &str, outcome: Result<(), String>)
        ensures
            final(self)@ == old(self)@.created(path@, failure_view(outcome)),
    {
        match outcome {
            Ok(_) => {
                self.log(Level::Success, text::join(path, " created").as_str());
                self.reload_local_pane();
            },
            Err(e) => self.error(text::join3(path, ": create failed: ", e.as_str()).as_str()),
        }
    }

    /// Renames the entry `from`, inside its directory.
    pub fn rename_entry(&mut self, from: &str, input: &str)
        ensures
            final(self)@ == old(self)@.rename_asked(from@, input@),
    {
        let typed = text::trim(input);
        let name = text::trim_end_matches(typed.as_str(), '/');
        if name.as_str().unicode_len() == 0 {
            self.warn("type a name first");
            return;
        }
        if text::same(name.as_str(), from) {
            return;
        }
        if text::has_char(name.as_str(), '/') {
            self.warn("rename stays in this directory (a name, not a path)");
            return;
        }
        if let (Some(source), Some(target)) = (
            self.local_entry_path(from),
            self.local_entry_path(name.as_str()),
        ) {
            self.emit(Effect::Pair(PairTask::Rename, source, target));
        }
    }

    /// The rename asked for ended.
    pub fn entry_renamed(&mut self, from: &str, to: &str, outcome: Result<(), String>)
        ensures
            final(self)@ == old(self)@.renamed(from@, to@, failure_view(outcome)),
    {
        match outcome {
            Ok(_) => {
                self.log(Level::Success, text::join3(from, " renamed to ", to).as_str());
                self.reload_local_pane();
            },
            Err(e) => self.error(text::join3(from, ": rename failed: ", e.as_str()).as_str()),
        }
    }

    /// A local file was read, or could not be.
    pub fn file_read(&mut self, path: String, content: Result<String, String>)
        ensures
            final(self)@ == old(self)@.file_viewed(path@, content_view(content)),
    {
        let state = read_state(content);
        self.set_viewer(FileViewer { source: ViewerSource::Local(path), state, scroll: 0 });
        self.show(Overlay::FileViewer);
    }

    fn device_child_path(&self, name: &str) -> (r: Option<String>)
        ensures
            match (r, self@.panels.browser) {
                (Some(path), Some(browser)) => path@ == device_child(browser.device_path, name@),
                (None, None) => true,
                _ => false,
            },
    {
        match &self.panels.browser {
            Some(browser) => match &browser.device_path {
                Some(dir) => Some(text::join_path(dir.as_str(), name)),
                None => {
                    let mut path = String::new();
                    path.push('/');
                    assert(path@ =~= seq!['/']);
                    Some(path.concat(name))
                },
            },
            None => None,
        }
    }

    fn oversized_entry(&self, name: &str) -> (r: Option<u64>)
        ensures
            r == self@.oversized(name@),
    {
        match device_entry_size(&self.panels.lists.device_entries, &name.to_owned()) {
            Some(size) => if size > self.panels.lists.max_view_bytes {
                Some(size)
            } else {
                None
            },
            None => None,
        }
    }

    fn refuse_oversized(&mut self, path: &str, what: &str, size: u64)
        ensures
            final(self)@ == old(self)@.too_large(path@, what@, size),
    {
        let message = text::join3(path, what, text::decimal_of(size / 1048576).as_str());
        self.warn(text::join(message.as_str(), " MiB) --- use 'Download' or 'Edit' instead").as_str());
    }

    /// Opens the viewer on a device file and asks for its contents.
    pub fn open_device_file_viewer(&mut self, name: &str)
        ensures
            final(self)@ == old(self)@.device_viewer_opened(name@),
    {
        let port = self.port();
        if let Some(path) = self.device_child_path(name) {
            if let Some(size) = self.oversized_entry(name) {
                self.refuse_oversized(path.as_str(), ": too large to preview (", size);
                return;
            }
            let source = ViewerSource::Device(DevicePath { text: path, name: name.to_owned() });
            self.set_viewer(FileViewer { source, state: ViewerState::Loading, scroll: 0 });
            self.show(Overlay::FileViewer);
            self.ask_device(TextTask::ViewOnDevice { port }, name);
        }
    }

    /// Opens the viewer on a comparison of the two copies of `name`.
    pub fn open_diff(&mut self, name: &str)
        ensures
            final(self)@ == old(self)@.diff_opened(name@),
    {
        let port = self.port();
        if let (Some(device), Some(local)) = (
            self.device_child_path(name),
            self.local_entry_path(name),
        ) {
            if let Some(size) = self.oversized_entry(name) {
                self.refuse_oversized(device.as_str(), ": too large to diff (", size);
                return;
            }
            self.info(text::join3("diffing ", name, " (local ↔ device)").as_str());
            let device = DevicePath { text: device, name: name.to_owned() };
            let source = ViewerSource::Diff { local, device };
            self.set_viewer(FileViewer { source, state: ViewerState::Loading, scroll: 0 });
            self.show(Overlay::FileViewer);
            self.ask_device(TextTask::ViewOnDevice { port }, name);
        }
    }

    /// Starts a script on the device, shown in the Monitor tab.
    pub fn open_run_session(&mut self, name: &str)
        ensures
            final(self)@ == old(self)@.run_opened(name@),
    {
        if let Some(browser) = &self.panels.browser {
            if browser.busy {
                self.warn("device is busy — wait for the current operation to finish");
                return;
            }
            if browser.held {
                self.warn("a script is running — answer the interrupt prompt first");
                return;
            }
        }
        if self.monitor.device.is_some() {
            self.warn("close the monitor/REPL before running a script");
            return;
        }
        if self.chain.version_capture.is_some() {
            self.warn("reading the firmware version — wait for it to finish");
            return;
        }
        let path = match &self.panels.browser {
            Some(browser) => text::join_path(browser.local_path.as_str(), name),
            None => {
                return;
            },
        };
        let port = self.port();
        let line = text::join("running ", path.as_str());
        self.desk.run_script = Some(path.clone());
        self.desk.run_output = Vec::new();
        assert(app::run_texts(self.desk.run_output@) =~= Seq::<Seq<char>>::empty());
        self.monitor.run_state = RunState::Running;
        self.set_monitor_source(MonitorSource::Run);
        self.screen.focus = Focus::Logs;
        self.screen.log_tab = LogTab::Monitor;
        self.info(line.as_str());
        self.emit(Effect::Text(TextTask::SpawnRun { port }, path));
    }

    /// The run asked for was started, or could not be.
    pub fn run_spawned(&mut self, outcome: Result<u64, String>)
        ensures
            final(self)@ == old(self)@.run_answered(
                match outcome {
                    Ok(id) => Ok(id),
                    Err(e) => Err(e@),
                },
            ),
    {
        match outcome {
            Ok(id) => {
                self.monitor.run = Some(id);
            },
            Err(e) => {
                self.error(text::join("could not start run: ", e.as_str()).as_str());
                self.monitor.run_state = RunState::Idle;
            },
        }
    }

    /// Keeps the run's output, its text alone, beside the script.
    pub fn save_run_output(&mut self)
        ensures
            final(self)@ == old(self)@.run_output_kept(),
    {
        let dest = match &self.desk.run_script {
            None => {
                return;
            },
            Some(script) => output_file_of(script.as_str()),
        };
        if self.desk.run_output.len() == 0 {
            self.warn("no run output to save");
            return;
        }
        let content = output_text(&self.desk.run_output);
        self.emit(Effect::Pair(PairTask::SaveText, dest, content));
    }

    /// The run's output was written, or could not be.
    pub fn run_output_saved(&mut self, dest: &str, outcome: Result<(), String>)
        ensures
            final(self)@ == old(self)@.output_saved(dest@, failure_view(outcome)),
    {
        match outcome {
            Ok(_) => self.log(Level::Success, text::join("run output saved to ", dest).as_str()),
            Err(e) => self.error(text::join("could not save run output: ", e.as_str()).as_str()),
        }
    }

    fn set_viewer_state(&mut self, state: ViewerState)
        ensures
            final(self)@ == old(self)@.viewer_state(state.model()),
    {
        reveal(app::opt_viewer);
        if let Some(viewer) = &mut self.desk.viewer {
            viewer.state = state;
        }
    }

    /// Feeds a device file's contents into the viewer that waits on them; a
    /// reply for a viewer closed or replaced since is dropped.
    pub fn apply_device_view(&mut self, view: DeviceView)
        ensures
            final(self)@ == old(self)@.device_viewed(view.path@, content_view(view.content)),
    {
        reveal(app::opt_viewer);
        let compared: Option<String> = match &self.desk.viewer {
            None => {
                return;
            },
            Some(viewer) => match &viewer.source {
                ViewerSource::Device(path) => {
                    if path.text != view.path {
                        return;
                    }
                    None
                },
                ViewerSource::Diff { local, device } => {
                    if device.text != view.path {
                        return;
                    }
                    Some(local.clone())
                },
                _ => {
                    return;
                },
            },
        };
        match (compared, view.content) {
            (Some(local), Ok(content)) => {
                self.emit(Effect::Pair(PairTask::ComputeDiff, local, content));
            },
            (_, content) => {
                let state = read_state(content);
                self.set_viewer_state(state);
            },
        }
    }

    /// A comparison's lines arrived, or why there are none.
    pub fn diff_ready(&mut self, local: &str, outcome: Result<Vec<String>, String>)
        ensures
            final(self)@ == old(self)@.compared(
                local@,
                match outcome {
                    Ok(lines) => Ok(text::texts(lines@)),
                    Err(e) => Err(e@),
                },
            ),
    {
        reveal(app::opt_viewer);
        match &self.desk.viewer {
            Some(viewer) => match &viewer.source {
                ViewerSource::Diff { local: shown, .. } => {
                    if !text::same(shown.as_str(), local) {
                        return;
                    }
                },
                _ => {
                    return;
                },
            },
            None => {
                return;
            },
        }
        let state = match outcome {
            Ok(lines) => {
                if lines.len() == 0 {
                    let mut lines: Vec<String> = Vec::new();
                    lines.push("(no differences — files are identical)".to_owned());
                    assert(text::texts(lines@) =~= seq!["(no differences — files are identical)"@]);
                    ViewerState::Ready { lines }
                } else {
                    ViewerState::Ready { lines }
                }
            },
            Err(e) => ViewerState::Error(e),
        };
        self.set_viewer_state(state);
    }

    /// Reacts to a finished transfer: a device file downloaded for editing
    /// queues the editor, its re-upload offers a restart.
    pub fn apply_transfer(&mut self, transfer: Transfer)
        ensures
            final(self)@ == old(self)@.transferred(transfer.model()),
    {
        match transfer.kind {
            TransferKind::Download { local_path, then_edit, source } => {
                if then_edit && transfer.ok {
                    self.set_pending_edit(
                        PendingEdit { path: local_path, device_target: Some(source) },
                    );
                }
            },
            TransferKind::Upload { after_edit } => {
                if after_edit && transfer.ok {
                    self.show(Overlay::ConfirmRestartDevice { confirm: false });
                }
            },
        }
    }

    /// Re-uploads an edited device file.
    pub fn request_device_reupload(&mut self, local_path: String, target: String)
        ensures
            final(self)@ == old(self)@.dispatched(
                Effect::Pair(
                    PairTask::Reupload { port: old(self)@.port() },
                    local_path@,
                    target@,
                ),
            ),
    {
        let port = self.port();
        self.dispatch_browser(Effect::Pair(PairTask::Reupload { port }, local_path, target));
    }

    /// Restarts the device.
    pub fn restart_device(&mut self)
        ensures
            final(self)@ == old(self)@.requested(BrowserRequest::Reset),
    {
        self.request_browser(BrowserRequest::Reset);
    }

    /// Brings an interrupted script back: by a hard reset, by relaunching
    /// it, or not at all.
    pub fn apply_restore_device_script(&mut self, selected: usize)
        ensures
            final(self)@ == old(self)@.restored(selected),
    {
        if selected == 0 {
            self.request_browser(BrowserRequest::HardReset);
        } else if selected == 1 {
            self.request_browser(BrowserRequest::RelaunchMain);
        }
    }

    fn viewer_end(&self) -> (r: Option<usize>)
        ensures
            match (r, self@.viewer_end()) {
                (Some(a), Some(b)) => a == b && self@.desk.viewer is Some,
                (None, None) => true,
                _ => false,
            },
    {
        reveal(app::opt_viewer);
        let viewport: usize = if self.drawn.viewer_viewport == 0 {
            1
        } else {
            self.drawn.viewer_viewport
        };
        match &self.desk.viewer {
            Some(viewer) => match &viewer.state {
                ViewerState::Ready { lines } => {
                    assert(text::texts(lines@).len() == lines@.len());
                    Some(lines.len().saturating_sub(viewport))
                },
                _ => None,
            },
            None => None,
        }
    }

    fn set_viewer_scroll(&mut self, scroll: usize)
        ensures
            final(self)@ == old(self)@.viewer_scrolled_to(scroll),
    {
        reveal(app::opt_viewer);
        if let Some(viewer) = &mut self.desk.viewer {
            viewer.scroll = scroll;
        }
    }

    fn viewer_scroll(&self) -> (r: usize)
        requires
            self@.desk.viewer is Some,
        ensures
            self@.desk.viewer matches Some(viewer) && r == viewer.scroll,
    {
        reveal(app::opt_viewer);
        match &self.desk.viewer {
            Some(viewer) => viewer.scroll,
            None => 0,
        }
    }

    /// Scrolls the viewer, keeping its page full. Nothing moves while there
    /// is nothing to page through.
    pub fn scroll_viewer(&mut self, down: bool, rows: usize)
        ensures
            final(self)@ == old(self)@.viewer_stepped(down, rows),
    {
        if let Some(end) = self.viewer_end() {
            let scroll: usize = self.viewer_scroll();
            let next: usize = if down {
                scroll.saturating_add(rows)
            } else {
                scroll.saturating_sub(rows)
            };
            self.set_viewer_scroll(
                if next > end {
                    end
                } else {
                    next
                },
            );
        }
    }

    /// Jumps the viewer to `target`, or to its end before that.
    pub fn jump_viewer(&mut self, target: usize)
        ensures
            final(self)@ == old(self)@.viewer_jumped(target),
    {
        if let Some(end) = self.viewer_end() {
            self.set_viewer_scroll(
                if target < end {
                    target
                } else {
                    end
                },
            );
        }
    }

    /// Takes the file queued for the editor.
    pub fn take_pending_edit(&mut self) -> (r: Option<PendingEdit>)
        ensures
            app::opt_edit(r) == old(self)@.desk.pending_edit,
            final(self)@ == old(self)@.with_desk(
                DeskModel { pending_edit: None, ..old(self)@.desk },
            ),
    {
        reveal(app::opt_edit);
        self.desk.pending_edit.take()
    }

    /// The directory an editor runs from.
    pub fn editor_cwd(&self) -> (r: String)
        ensures
            r == self@.editor_dir(),
    {
        if let Some(panel) = &self.panels.workspace {
            if let Some(root) = &panel.files_root {
                if root.as_str().unicode_len() > 0 {
                    return root.clone();
                }
            }
        }
        self.project.manager.dir()
    }

    /// Takes the command queued to run with the screen handed over.
    pub fn take_pending_command(&mut self) -> (r: Option<String>)
        ensures
            r == old(self)@.pending.command,
            final(self)@ == old(self)@.with_pending(Pending { command: None, ..old(self)@.pending }),
    {
        self.pending.command.take()
    }
}

fn output_file_of(script: &str) -> (r: String)
    ensures
        r@ == output_file(script@),
{
    let name = text::file_name_of(script);
    let kept = if name.as_str().unicode_len() == 0 {
        "run".to_owned()
    } else {
        text::stem_of(name.as_str())
    };
    text::join_path(
        text::parent_dir_of(script).as_str(),
        text::join(kept.as_str(), ".output.txt").as_str(),
    )
}

fn output_text(lines: &Vec<RunLine>) -> (r: String)
    ensures
        r@ == text::lines_text(app::run_texts(lines@)),
{
    let mut r = String::new();
    let mut i: usize = 0;
    let ghost all = app::run_texts(lines@);
    assert(r@ =~= Seq::<char>::empty());
    while i < lines.len()
        invariant
            i <= lines.len(),
            all == app::run_texts(lines@),
            r@ == text::lines_text(all.take(i as int)),
        decreases lines.len() - i,
    {
        proof {
            let t = all.take(i + 1);
            assert(t.drop_last() =~= all.take(i as int));
            assert(t.last() == lines@[i as int].text@);
        }
        r = r.concat(lines[i].text());
        r.push('\n');
        i = i + 1;
    }
    assert(all.take(i as int) =~= all);
    r
}

/// Nothing reaches the device while a run, the probe or a flash command
/// holds its port: the request is answered with a warning alone.
pub proof fn a_held_port_refuses_requests(m: Model, effect: EffectModel)
    requires
        m.monitor.run is Some || m.chain.probe is Some || m.flash_busy(),
    ensures
        m.dispatched(effect).effects == m.effects,
        m.dispatched(effect).logs.lines.len() == m.logs.lines.len() + 1,
        m.dispatched(effect).overlay == m.overlay,
{
}

/// Sending or deleting an entry asks first, with No highlighted; nothing is
/// done until the answer.
pub proof fn transfers_and_deletions_ask_first(m: Model, side: Side, name: Seq<char>, is_dir: bool)
    ensures
        m.file_action(side, name, is_dir, FileAction::Delete) == m.shown(
            Overlay::ConfirmDelete { side, name, is_dir, confirm: false },
        ),
        m.file_action(Side::Local, name, is_dir, FileAction::SendToDevice) == m.shown(
            Overlay::ConfirmUpload { name, is_dir, confirm: false },
        ),
{
}

/// The viewer never scrolls past the last full page.
pub proof fn the_viewer_keeps_its_page_full(m: Model, down: bool, rows: usize)
    requires
        m.viewer_end() is Some,
    ensures
        ({
            let after = m.viewer_stepped(down, rows);
            &&& after.viewer_end() == m.viewer_end()
            &&& after.desk.viewer matches Some(viewer) && 0 <= viewer.scroll
                <= after.viewer_end().unwrap()
        }),
{
}

/// `Home` and `End` reach the two ends of the document.
pub proof fn jumps_reach_both_ends(m: Model)
    requires
        m.viewer_end() is Some,
    ensures
        m.viewer_jumped(0).desk.viewer matches Some(viewer) && viewer.scroll == 0,
        m.viewer_end().unwrap() <= usize::MAX ==> m.viewer_jumped(usize::MAX).desk.viewer is Some
            && m.viewer_jumped(usize::MAX).desk.viewer.unwrap().scroll == m.viewer_end().unwrap(),
{
}

/// A reply for a file no viewer waits on changes nothing.
pub proof fn stale_contents_are_dropped(
    m: Model,
    path: Seq<char>,
    content: Result<Seq<char>, Seq<char>>,
)
    requires
        match m.desk.viewer {
            Some(viewer) => match viewer.source {
                ViewerSource::Device(shown) => shown.text != path,
                ViewerSource::Diff { device, .. } => device.text != path,
                _ => true,
            },
            None => true,
        },
    ensures
        m.device_viewed(path, content) == m,
{
}

/// An unedited rename is a quiet no-op, and a rename never leaves the
/// entry's directory.
pub proof fn renames_stay_in_their_directory(m: Model, from: Seq<char>, typed: Seq<char>)
    ensures
        ({
            let name = text::trim_last(text::trimmed(typed), '/');
            let after = m.rename_asked(from, typed);
            &&& name.len() > 0 && name == from ==> after == m
            &&& name.contains('/') && name != from ==> after.effects == m.effects
            &&& after.effects != m.effects ==> m.local_dir() is Some && after.effects
                == m.effects.push(
                Effect::Pair(
                    PairTask::Rename,
                    text::joined(m.local_dir().unwrap(), from),
                    text::joined(m.local_dir().unwrap(), name),
                ),
            )
        }),
{
}

} // verus!
