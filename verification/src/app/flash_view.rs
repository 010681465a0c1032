//! Flash-view dispatch: the menu, the options screen, the online search, and
//! everything that decides when a destructive action needs confirmation ---
//! and the identification chain a device selection starts.

use vstd::prelude::*;
use vstd::view::View as _;
use vstd::string::*;

use crate::app::{App, Chain, Focus, LogTab, Model, Screen, View};
use crate::app::monitor_view::MonitorSource;
use crate::effect::{Effect, PairTask, Task, TextTask};
use crate::geometry;
use crate::geometry::page_step;
use crate::input;
use crate::input::{KeyCode, KeyEvent, down_key, leave_key, up_key};
use crate::logs;
use crate::logs::{LineModel, LogLine, errors_of};
use crate::overlay;
use crate::overlay::Overlay;
use crate::panels::{
    FirmwareVerdict, FlashAction, FlashFirmware, FlashPaneAction, FlashPanel, FlashScreen,
    OptionsField, PaneError, PaneState, ScriptState,
};
use crate::text;

verus! {

broadcast use crate::overlay::group_overlay_models;

/// What trying to start a deferred query concluded.
#[derive(Debug, Clone, Copy, PartialEq, Eq, Structural)]
pub enum DeferredQuery {
    /// A guard still holds it; it will be tried again.
    Waiting,
    /// The query is running.
    Started,
    /// The query was consumed and could not start: nothing follows it.
    Dropped,
}

/// Where the user's leave to identify the selected device stands. Reading its
/// chip and its firmware restarts the board, so neither starts unasked.
#[derive(Debug, Clone, Copy, PartialEq, Eq, Structural)]
pub enum IdentifyAuth {
    /// Nothing to ask: the question was answered, or never came up.
    Idle,
    /// The question is due, or open.
    Pending,
}

/// Where the firmware-identification read stands for the port it was armed
/// for.
#[derive(Debug, Clone, Copy, PartialEq, Eq, Structural)]
pub enum FirmwareCheck {
    Idle,
    /// Armed, waiting for every port holder to be gone.
    Pending,
    /// The read is running.
    Running,
}

/// Whether the first device listing may go past the firmware read.
#[derive(Debug, Clone, Copy, PartialEq, Eq, Structural)]
pub enum FirmwareHold {
    /// List: it is MicroPython, or nothing can be said.
    Release,
    /// The read owns the ordering.
    Held,
    /// The board runs something else: there is nothing to list.
    Blocked,
}

/// The firmware and the version a refusal names.
pub open spec fn named_firmware(firmware: FlashFirmware, version: Option<String>) -> Seq<char> {
    match version {
        Some(version) => firmware.spec_label() + " "@ + version@,
        None => firmware.spec_label(),
    }
}

/// Why a board with this verdict has no files to read; `None` for
/// MicroPython.
pub open spec fn block_reason(verdict: FirmwareVerdict) -> Option<Seq<char>> {
    match verdict {
        FirmwareVerdict::Firmware(FlashFirmware::MicroPython, _) => None,
        FirmwareVerdict::Firmware(other, version) => Some(
            "cannot read files — the device runs "@ + named_firmware(other, version)
                + ", not MicroPython"@,
        ),
        FirmwareVerdict::Erased => Some(
            "no firmware on the device — flash MicroPython to browse its files"@,
        ),
    }
}

/// The message a verdict refuses the file listing with.
pub fn non_micropython_block_reason(verdict: &FirmwareVerdict) -> (r: Option<String>)
    ensures
        overlay::opt_text(r) == block_reason(*verdict),
{
    match verdict {
        FirmwareVerdict::Firmware(FlashFirmware::MicroPython, _) => None,
        FirmwareVerdict::Firmware(other, version) => {
            let named = match version {
                Some(version) => text::join3(other.label(), " ", version.as_str()),
                None => other.label().to_owned(),
            };
            Some(
                text::join3(
                    "cannot read files — the device runs ",
                    named.as_str(),
                    ", not MicroPython",
                ),
            )
        },
        FirmwareVerdict::Erased => Some(
            "no firmware on the device — flash MicroPython to browse its files".to_owned(),
        ),
    }
}

/// What the device pane says of an error.
pub open spec fn pane_text(error: PaneError) -> Seq<char> {
    match error {
        PaneError::NoDevice => "no MicroPython device found — connect a board and press 'd'"@,
        PaneError::Firmware(verdict) => match block_reason(verdict) {
            Some(reason) => reason,
            None => Seq::empty(),
        },
        PaneError::Reported(message) => message@,
    }
}

pub fn pane_message(error: &PaneError) -> (r: String)
    ensures
        r@ == pane_text(*error),
{
    match error {
        PaneError::NoDevice => {
            "no MicroPython device found — connect a board and press 'd'".to_owned()
        },
        PaneError::Firmware(verdict) => match non_micropython_block_reason(verdict) {
            Some(reason) => reason,
            None => {
                let none = String::new();
                assert(none@ =~= Seq::<char>::empty());
                none
            },
        },
        PaneError::Reported(message) => message.clone(),
    }
}

/// The help window just opened: no filter, the cursor on the first command.
pub open spec fn fresh_help() -> Overlay<Seq<char>> {
    Overlay::Help { filter: Seq::empty(), filtering: false, selected: 0 }
}

/// The place of `action` among the actions tab's rows.
pub open spec fn pane_place(actions: Seq<FlashPaneAction>, action: FlashPaneAction) -> Option<int>
    decreases actions.len(),
{
    if actions.len() == 0 {
        None
    } else if actions[0] == action {
        Some(0)
    } else {
        match pane_place(actions.drop_first(), action) {
            Some(i) => Some(i + 1),
            None => None,
        }
    }
}

fn pane_position(actions: &Vec<FlashPaneAction>, action: FlashPaneAction) -> (r: Option<usize>)
    ensures
        geometry::opt_index(r) == pane_place(actions@, action),
{
    let mut i: usize = 0;
    assert(actions@.skip(0) =~= actions@);
    while i < actions.len()
        invariant
            i <= actions.len(),
            pane_place(actions@, action) == match pane_place(actions@.skip(i as int), action) {
                Some(k) => Some(k + i),
                None => None,
            },
        decreases actions.len() - i,
    {
        let ghost rest = actions@.skip(i as int);
        if actions[i] == action {
            assert(rest[0] == action);
            return Some(i);
        }
        assert(rest.drop_first() =~= actions@.skip(i + 1));
        i = i + 1;
    }
    assert(actions@.skip(i as int).len() == 0);
    None
}

impl Model {
    pub open spec fn viewed(self, view: View) -> Model {
        self.with_screen(Screen { view, ..self.screen })
    }

    /// The flash panel on another of its screens.
    pub open spec fn flash_screen(self, screen: FlashScreen) -> Model {
        match self.flash {
            Some(flash) => self.with_flash(FlashPanel { screen, ..flash }),
            None => self,
        }
    }

    /// The options screen, its first field focused.
    pub open spec fn options_opened(self) -> Model {
        match self.flash {
            Some(flash) => self.with_flash(
                FlashPanel {
                    screen: FlashScreen::Options,
                    options_focus: OptionsField::Chip,
                    ..flash
                },
            ),
            None => self,
        }
    }

    /// A key while the flash view shows.
    #[verifier::opaque]
    pub open spec fn flash_key(self, key: KeyEvent) -> Model {
        match self.flash {
            None => self,
            Some(flash) => if input::is_leave(key.code) {
                match flash.screen {
                    FlashScreen::Menu => self.viewed(View::Dashboard),
                    _ => self.flash_screen_left(),
                }
            } else if key.code == KeyCode::Char('?') || key.code == KeyCode::F(1) {
                self.shown(fresh_help())
            } else {
                match flash.screen {
                    FlashScreen::Menu => self.flash_menu_key(key),
                    FlashScreen::Options => self.flash_options_key(key),
                    FlashScreen::OnlineBoards => self.online_boards_key(key),
                    FlashScreen::OnlineFirmware => self.online_firmware_key(key),
                    FlashScreen::CustomUrl => self.custom_url_key(key),
                }
            },
        }
    }

    /// One screen back: to the dashboard where the device pane hosts the
    /// menu, to the dialog's own menu otherwise.
    pub open spec fn flash_screen_left(self) -> Model {
        let m = if self.actions_available() {
            self.viewed(View::Dashboard)
        } else {
            self
        };
        m.flash_screen(FlashScreen::Menu)
    }

    /// The dialog over the dashboard for the screen the panel moved to; a
    /// refused step left it on the menu the pane already shows.
    pub open spec fn dialog_shown(self) -> Model {
        if self.actions_available() && (self.flash matches Some(flash) && flash.screen
            == FlashScreen::Menu) {
            self
        } else {
            self.viewed(View::Flash)
        }
    }

    pub open spec fn pane_cursor(self, cursor: int) -> Model {
        match self.flash {
            Some(flash) => self.with_flash(FlashPanel { pane_cursor: cursor as usize, ..flash }),
            None => self,
        }
    }

    /// A key while the actions tab holds focus.
    #[verifier::opaque]
    pub open spec fn flash_pane_key(self, key: KeyEvent) -> Model {
        let code = key.code;
        let actions = self.panels.lists.pane_actions@;
        let len = actions.len() as int;
        match self.flash {
            None => self,
            Some(flash) => {
                let at = flash.pane_cursor as int;
                if input::is_up(code) {
                    self.pane_cursor(geometry::paged(at, false, 1, len))
                } else if input::is_down(code) {
                    self.pane_cursor(geometry::paged(at, true, 1, len))
                } else if code == KeyCode::PageUp {
                    self.pane_cursor(geometry::paged(at, false, 5, len))
                } else if code == KeyCode::PageDown {
                    self.pane_cursor(geometry::paged(at, true, 5, len))
                } else if code == KeyCode::Home {
                    self.pane_cursor(0)
                } else if code == KeyCode::End {
                    self.pane_cursor(
                        if len > 0 {
                            len - 1
                        } else {
                            0
                        },
                    )
                } else if code == KeyCode::Enter && at < len {
                    self.pane_action_run(actions[at])
                } else {
                    self
                }
            },
        }
    }

    /// A row of the actions tab run.
    pub open spec fn pane_action_run(self, action: FlashPaneAction) -> Model {
        match action {
            FlashPaneAction::Stop => self.flash_stopped(),
            FlashPaneAction::Run(action) => self.flash_triggered(action),
            FlashPaneAction::SearchOnline => self.search_asked(true),
        }
    }

    pub open spec fn flash_stopped(self) -> Model {
        if self.flash_busy() {
            self.task(Task::StopFlash).warn("stopping the running command"@)
        } else {
            self
        }
    }

    pub open spec fn url_entry_opened(self) -> Model {
        match self.flash {
            Some(flash) => self.with_flash(
                FlashPanel { custom_url: Seq::empty(), screen: FlashScreen::CustomUrl, ..flash },
            ),
            None => self,
        }
    }

    pub open spec fn flash_menu_key(self, key: KeyEvent) -> Model {
        let code = key.code;
        if input::is_up(code) {
            self.task(Task::MoveFlashCursor { down: false })
        } else if input::is_down(code) {
            self.task(Task::MoveFlashCursor { down: true })
        } else if code == KeyCode::Char('s') {
            self.search_asked(false)
        } else if code == KeyCode::Char('u') {
            self.url_entry_opened()
        } else if code == KeyCode::Enter {
            match self.flash {
                Some(flash) => self.flash_triggered(FlashAction::spec_at(flash.cursor as int)),
                None => self,
            }
        } else {
            self
        }
    }

    /// The online search for the chip that is known. With `dialog` its window
    /// opens for whatever screen comes of it.
    pub open spec fn search_asked(self, dialog: bool) -> Model {
        match self.flash {
            None => if dialog {
                self.dialog_shown()
            } else {
                self
            },
            Some(flash) => match flash.mcu {
                Some(mcu) => self.task(Task::SearchOnline { mcu, dialog }),
                None => {
                    let m = self.warn(
                        "no chip known yet --- connect the board or pick one in Options first"@,
                    );
                    if dialog {
                        m.dialog_shown()
                    } else {
                        m
                    }
                },
            },
        }
    }

    /// The search's answer: the local folder's trouble, the panel's own
    /// notices, the screen it moved to, and the address it asked.
    pub open spec fn search_answered(
        self,
        discovery: Seq<LineModel>,
        notices: Seq<LineModel>,
        screen: FlashScreen,
        source: Option<Seq<char>>,
        mcu: Seq<char>,
        dialog: bool,
    ) -> Model {
        let m = self.flash_screen(screen).told(logs::errors_only(discovery)).told(notices);
        let m = match source {
            Some(url) => m.info("searching "@ + url + " for "@ + mcu + " firmware"@),
            None => m,
        };
        if dialog {
            m.dialog_shown()
        } else {
            m
        }
    }

    /// A board's page asked for: the panel's notices, and the screen it moved
    /// to.
    pub open spec fn board_page_answered(
        self,
        notices: Seq<LineModel>,
        screen: FlashScreen,
    ) -> Model {
        self.flash_screen(screen).told(notices)
    }

    pub open spec fn told(self, notices: Seq<LineModel>) -> Model {
        Model { logs: self.logs.push_all(notices), ..self }
    }

    pub open spec fn online_moved(self, code: KeyCode) -> Option<Model> {
        if input::is_up(code) {
            Some(self.task(Task::MoveOnlineCursor { down: false }))
        } else if input::is_down(code) {
            Some(self.task(Task::MoveOnlineCursor { down: true }))
        } else if code == KeyCode::Char('u') {
            Some(self.url_entry_opened())
        } else {
            None
        }
    }

    pub open spec fn online_boards_key(self, key: KeyEvent) -> Model {
        match self.online_moved(key.code) {
            Some(m) => m,
            None => match self.flash {
                Some(flash) => if key.code == KeyCode::Enter && flash.online_cursor
                    < self.panels.lists.online_boards@.len() {
                    self.task(
                        Task::FetchBoard {
                            id: self.panels.lists.online_boards@[flash.online_cursor as int],
                        },
                    )
                } else {
                    self
                },
                None => self,
            },
        }
    }

    pub open spec fn online_firmware_key(self, key: KeyEvent) -> Model {
        match self.online_moved(key.code) {
            Some(m) => m,
            None => match self.flash {
                Some(flash) => if key.code == KeyCode::Enter && flash.online_cursor
                    < self.panels.lists.online_firmware@.len() {
                    self.download_asked(
                        self.panels.lists.online_firmware@[flash.online_cursor as int]@,
                    )
                } else {
                    self
                },
                None => self,
            },
        }
    }

    pub open spec fn custom_url_key(self, key: KeyEvent) -> Model {
        match self.flash {
            None => self,
            Some(flash) => match key.code {
                KeyCode::Backspace => self.with_flash(
                    FlashPanel { custom_url: text::popped(flash.custom_url), ..flash },
                ),
                KeyCode::Char(c) => self.with_flash(
                    FlashPanel { custom_url: flash.custom_url.push(c), ..flash },
                ),
                KeyCode::Enter => {
                    let url = text::trimmed(flash.custom_url);
                    if url.len() == 0 {
                        self.warn("type or paste a URL first"@)
                    } else {
                        self.download_asked(url)
                    }
                },
                _ => self,
            },
        }
    }

    pub open spec fn download_asked(self, url: Seq<char>) -> Model {
        if self.flash is Some {
            self.emit(Effect::Text(TextTask::RequestDownload, url))
        } else {
            self
        }
    }

    /// Where the download would land: over an existing file it asks first.
    pub open spec fn download_answered(
        self,
        url: Seq<char>,
        dest: Option<Seq<char>>,
        exists: bool,
    ) -> Model {
        match dest {
            None => self.warn("cannot determine a filename from that URL"@),
            Some(dest) => if exists {
                self.shown(Overlay::ConfirmDownloadOverwrite { url, dest, confirm: false })
            } else {
                self.download_started(url, dest)
            },
        }
    }

    pub open spec fn download_started(self, url: Seq<char>, dest: Seq<char>) -> Model {
        if self.flash is Some {
            self.emit(Effect::Pair(PairTask::StartDownload, url, dest))
        } else {
            self
        }
    }

    pub open spec fn flash_options_key(self, key: KeyEvent) -> Model {
        match self.flash {
            None => self,
            Some(flash) => {
                let field = flash.options_focus;
                let typed = field == OptionsField::Offset || field == OptionsField::ExtraArgs;
                match key.code {
                    KeyCode::Tab => self.task(Task::StepOptionsFocus { forward: true }),
                    KeyCode::BackTab => self.task(Task::StepOptionsFocus { forward: false }),
                    KeyCode::Left => if typed {
                        self
                    } else {
                        self.task(Task::CycleOption { field, forward: false })
                    },
                    KeyCode::Right => if typed {
                        self
                    } else {
                        self.task(Task::CycleOption { field, forward: true })
                    },
                    KeyCode::Backspace => if typed {
                        self.task(Task::OptionBackspace(field))
                    } else {
                        self
                    },
                    KeyCode::Char(c) => if typed {
                        self.task(Task::OptionChar(field, c))
                    } else {
                        self
                    },
                    KeyCode::Enter => self.flash_triggered(
                        FlashAction::spec_at(flash.cursor as int),
                    ),
                    _ => self,
                }
            },
        }
    }

    /// A flash action wanted: first the firmware file it needs, then what the
    /// panel says of it.
    pub open spec fn flash_triggered(self, action: FlashAction) -> Model {
        match self.flash {
            None => self,
            Some(flash) => if action.wants_firmware() && !flash.firmware_selected {
                self.task(Task::DiscoverFirmware { wanted: Some(action) })
            } else {
                self.task(Task::PreviewFlash { action, port: self.port() })
            },
        }
    }

    /// The firmware files found for an action: none to write opens the
    /// search, one its options, several the picker.
    pub open spec fn firmware_found(
        self,
        wanted: Option<FlashAction>,
        notices: Seq<LineModel>,
        count: usize,
    ) -> Model {
        let m = self.firmware_counted(count).told(notices);
        if self.flash is None {
            self
        } else {
            match wanted {
                None => m,
                Some(action) => if count == 0 {
                    if action == FlashAction::WriteFlash {
                        m.search_asked(true)
                    } else {
                        m
                    }
                } else if count == 1 {
                    m.options_opened()
                } else {
                    m.shown(Overlay::FirmwarePicker { selected: 0 })
                },
            }
        }
    }

    pub open spec fn firmware_counted(self, count: usize) -> Model {
        match self.flash {
            Some(flash) => self.with_flash(FlashPanel { firmware_count: count, ..flash }),
            None => self,
        }
    }

    /// Both cursors on the write.
    pub open spec fn cursors_on_write(self) -> Model {
        match self.flash {
            Some(flash) => self.with_flash(
                FlashPanel {
                    cursor: 3,
                    pane_cursor: match pane_place(
                        self.panels.lists.pane_actions@,
                        FlashPaneAction::Run(FlashAction::WriteFlash),
                    ) {
                        Some(i) => i as usize,
                        None => flash.pane_cursor,
                    },
                    ..flash
                },
            ),
            None => self,
        }
    }

    /// What the panel said of an action: blocked, to be confirmed with its
    /// literal command, or to be run.
    pub open spec fn flash_previewed(
        self,
        action: FlashAction,
        blocked: Option<Seq<char>>,
        command: Option<Seq<char>>,
    ) -> Model {
        match (self.flash, blocked) {
            (None, _) => self,
            (Some(_), Some(reason)) => self.warn(reason),
            (Some(flash), None) => if action.destructive() {
                self.with_flash(FlashPanel { pending: Some(action), ..flash }).shown(
                    Overlay::Confirm {
                        message: match command {
                            Some(command) => command,
                            None => "(command unavailable)"@,
                        },
                        confirm: false,
                    },
                )
            } else {
                self.task(Task::RunFlash { action, port: self.port() })
            },
        }
    }

    /// The action a confirmation guarded, run.
    pub open spec fn flash_confirmed(self) -> Model {
        match self.flash {
            Some(flash) => match flash.pending {
                Some(action) => self.with_flash(FlashPanel { pending: None, ..flash }).task(
                    Task::RunFlash { action, port: self.port() },
                ),
                None => self,
            },
            None => self,
        }
    }

    /// The action asked for started, or its notices say why not.
    pub open spec fn flash_answered(self, notices: Seq<LineModel>) -> Model {
        if notices.len() == 0 {
            self.flash_in_monitor()
        } else {
            self.told(notices)
        }
    }

    /// The streamed output in the Monitor tab; who sits on the actions tab
    /// stays there.
    pub open spec fn flash_in_monitor(self) -> Model {
        let m = self.with_screen(
            Screen { view: View::Dashboard, log_tab: LogTab::Monitor, ..self.screen },
        ).sourced(MonitorSource::Flash);
        if m.actions_active() {
            m.focused(Focus::FilesDevice)
        } else {
            m.focused(Focus::Logs)
        }
    }

    pub open spec fn query_deferred(self) -> Model {
        self.with_chain(Chain { flash_query_pending: true, ..self.chain })
    }

    /// Something else holds the port or the user's attention.
    pub open spec fn port_in_use(self) -> bool {
        ||| self.chain.identify == IdentifyAuth::Pending
        ||| self.overlay is Some
        ||| self.chain.probe is Some
        ||| self.monitor.device is Some
        ||| self.monitor.run is Some
        ||| self.browser_busy()
    }

    /// A background query on the selected port would start.
    pub open spec fn query_starts(self) -> bool {
        &&& self.flashes()
        &&& self.port() is Some
        &&& self.flash_ensured().flash matches Some(flash) && flash.query_ready && !flash.busy
    }

    /// The background chip query, started where it can be.
    pub open spec fn device_queried(self) -> Model {
        let m = self.flash_ensured();
        match (m.flash, self.port()) {
            (Some(flash), Some(port)) => if self.query_starts() {
                m.task(Task::QueryDeviceInfo { device: port }).with_flash(
                    FlashPanel { busy: true, chip_query_running: true, ..flash },
                )
            } else {
                m
            },
            _ => m,
        }
    }

    /// The deferred chip query, run once every port holder is gone and no
    /// script is believed running.
    pub open spec fn query_polled(self) -> (Model, DeferredQuery) {
        if !self.chain.flash_query_pending || self.port_in_use() || self.panels.devices.script
            == ScriptState::Running {
            (self, DeferredQuery::Waiting)
        } else {
            let m = self.with_chain(Chain { flash_query_pending: false, ..self.chain });
            (
                m.device_queried(),
                if m.query_starts() {
                    DeferredQuery::Started
                } else {
                    DeferredQuery::Dropped
                },
            )
        }
    }

    /// The board whose answers are held is gone.
    pub open spec fn disconnected(self) -> Model {
        let m = self.with_chain(
            Chain {
                firmware_check_port: None,
                firmware_check: FirmwareCheck::Idle,
                mpy_version: None,
                held_root_listing: self.chain.held_root_listing && self.chain.identify
                    != IdentifyAuth::Pending,
                force_listing: false,
                identify: IdentifyAuth::Idle,
                identify_port: None,
                ..self.chain
            },
        );
        match m.flash {
            Some(flash) => m.with_flash(
                FlashPanel { mac: None, identified: false, firmware: None, ..flash },
            ).task(Task::ClearDeviceDetails),
            None => m,
        }
    }

    pub open spec fn firmware_forgotten(self) -> Model {
        match self.flash {
            Some(flash) => self.with_flash(FlashPanel { firmware: None, ..flash }).task(
                Task::ClearFirmwareIdentity,
            ),
            None => self,
        }
    }

    /// The identification read covers the port `port`.
    pub open spec fn check_covers(self, port: String) -> bool {
        self.chain.firmware_check_port matches Some(covered) && covered@ == port@
    }

    /// The identification read armed for the selected device, once per port
    /// and only after the chip answered.
    pub open spec fn check_armed(self) -> Model {
        match self.port() {
            None => self,
            Some(port) => if self.check_covers(port) || !(self.flash matches Some(flash)
                && flash.succeeded) {
                self
            } else {
                self.with_chain(
                    Chain {
                        firmware_check_port: Some(port),
                        firmware_check: FirmwareCheck::Pending,
                        ..self.chain
                    },
                ).firmware_forgotten()
            },
        }
    }

    /// The flash was rewritten: what it held is asked anew.
    pub open spec fn reidentified(self) -> Model {
        if self.port() is None {
            self
        } else {
            self.with_chain(
                Chain {
                    firmware_check_port: None,
                    firmware_check: FirmwareCheck::Idle,
                    mpy_version: None,
                    probed_port: None,
                    ..self.chain
                },
            ).firmware_forgotten().script_marked(ScriptState::Unknown).check_armed().info(
                "flash changed the device — re-identifying its firmware"@,
            )
        }
    }

    /// The armed read, started once every port holder is gone.
    pub open spec fn check_polled(self) -> (Model, DeferredQuery) {
        if self.chain.firmware_check != FirmwareCheck::Pending || self.port_in_use()
            || self.chain.flash_query_pending {
            (self, DeferredQuery::Waiting)
        } else {
            let m = self.with_chain(Chain { firmware_check: FirmwareCheck::Idle, ..self.chain });
            let ensured = m.flash_ensured();
            match (ensured.flash, m.port()) {
                (Some(flash), Some(port)) => if m.query_starts() {
                    (
                        ensured.task(Task::QueryFirmware { device: port }).with_flash(
                            FlashPanel { busy: true, ..flash },
                        ).with_chain(
                            Chain { firmware_check: FirmwareCheck::Running, ..m.chain },
                        ),
                        DeferredQuery::Started,
                    )
                } else {
                    (ensured, DeferredQuery::Dropped)
                },
                _ => (ensured, DeferredQuery::Dropped),
            }
        }
    }

    /// The version hunt, a courtesy: started on a free port, dropped with it.
    pub open spec fn hunt_polled(self) -> Model {
        match self.flash {
            None => self,
            Some(flash) => if !flash.version_hunt || self.port_in_use() {
                self
            } else {
                let m = self.with_flash(FlashPanel { version_hunt: false, ..flash });
                match self.port() {
                    Some(port) => m.task(Task::HuntVersion { device: port }),
                    None => m.task(Task::DropVersionHunt),
                }
            },
        }
    }

    pub open spec fn listing_held(self, held: bool) -> Model {
        self.with_chain(Chain { held_root_listing: held, ..self.chain })
    }

    /// The firmware's say in the first listing: only MicroPython has files.
    pub open spec fn firmware_held(self) -> (Model, FirmwareHold) {
        if self.chain.identify == IdentifyAuth::Pending || self.chain.flash_query_pending || (
        self.flash matches Some(flash) && flash.chip_query_running) {
            (self.listing_held(true), FirmwareHold::Held)
        } else {
            match self.port() {
                None => (self, FirmwareHold::Release),
                Some(port) => if !self.check_covers(port) {
                    (self, FirmwareHold::Release)
                } else if self.chain.firmware_check != FirmwareCheck::Idle {
                    (self.check_polled().0.listing_held(true), FirmwareHold::Held)
                } else {
                    match self.flash {
                        Some(flash) => match flash.firmware {
                            Some(verdict) => match block_reason(verdict) {
                                Some(reason) => (
                                    self.refused(verdict, reason),
                                    FirmwareHold::Blocked,
                                ),
                                None => (self, FirmwareHold::Release),
                            },
                            None => (self, FirmwareHold::Release),
                        },
                        None => (self, FirmwareHold::Release),
                    }
                },
            }
        }
    }

    /// The device pane refusing for `reason`, said once in the log.
    pub open spec fn refused(self, verdict: FirmwareVerdict, reason: Seq<char>) -> Model {
        let m = self.pane_failed(PaneError::Firmware(verdict));
        let already = match self.panels.browser {
            Some(browser) => match browser.device_state {
                PaneState::Failed(error) => pane_text(error) == reason,
                _ => false,
            },
            None => false,
        };
        if already {
            m
        } else {
            m.warn(reason)
        }
    }

    /// A held listing driven on by whatever link of the chain reported back.
    pub open spec fn held_driven(self) -> Model {
        if !self.chain.held_root_listing {
            self
        } else {
            let (m, hold) = self.firmware_held();
            match hold {
                FirmwareHold::Release => m.held_resumed(),
                FirmwareHold::Held => m,
                FirmwareHold::Blocked => m.listing_held(false),
            }
        }
    }

    /// The chip identity's say in the first listing.
    pub open spec fn chip_held(self) -> (Model, bool) {
        if !self.chain.flash_query_pending || self.panels.devices.script == ScriptState::Running {
            (self, false)
        } else if !self.flashes() {
            (self.with_chain(Chain { flash_query_pending: false, ..self.chain }), false)
        } else {
            let (m, outcome) = self.flash_ensured().query_polled();
            let held = outcome != DeferredQuery::Dropped;
            (m.listing_held(held), held)
        }
    }

    pub open spec fn held_resumed(self) -> Model {
        if self.chain.held_root_listing {
            self.listing_held(false).root_loaded()
        } else {
            self
        }
    }

    pub open spec fn identify_marked(self, identify: IdentifyAuth) -> Model {
        self.with_chain(Chain { identify, ..self.chain })
    }

    /// The identification question was answered for `port`.
    pub open spec fn identify_covers(self, port: String) -> bool {
        self.chain.identify_port matches Some(covered) && covered@ == port@
    }

    /// A device was selected: its identification is asked about, unless the
    /// question was answered for its port already.
    pub open spec fn identification_requested(self) -> Model {
        match self.port() {
            Some(port) => if self.flashes() && !self.identify_covers(port) {
                self.identify_marked(IdentifyAuth::Pending)
            } else {
                self
            },
            None => self,
        }
    }

    /// The identification question, which opens on No.
    pub open spec fn identification_opened(self) -> Model {
        self.identify_marked(IdentifyAuth::Pending).shown(
            Overlay::ConfirmIdentifyDevice { confirm: false },
        )
    }

    /// The question that is due, once the screen is free.
    pub open spec fn identification_asked(self) -> Model {
        if self.chain.identify == IdentifyAuth::Pending && self.overlay is None {
            self.identification_opened()
        } else {
            self
        }
    }

    /// The user's answer, noted for the port it was given for.
    pub open spec fn identify_settled(self, query: bool) -> Model {
        self.with_chain(
            Chain {
                identify: IdentifyAuth::Idle,
                identify_port: self.port(),
                flash_query_pending: query,
                ..self.chain
            },
        )
    }

    /// An earlier read says nothing of the board asked about now; one that is
    /// running still does.
    pub open spec fn check_dropped(self) -> Model {
        if self.chain.firmware_check == FirmwareCheck::Running {
            self
        } else {
            self.with_chain(
                Chain {
                    firmware_check_port: None,
                    firmware_check: FirmwareCheck::Idle,
                    ..self.chain
                },
            )
        }
    }

    /// A script believed running may be stopped, and is offered back.
    pub open spec fn interruption_accepted(self) -> Model {
        if self.panels.devices.script == ScriptState::Running {
            self.with_chain(Chain { restore_pending: true, ..self.chain }).script_marked(
                ScriptState::Stopped,
            )
        } else {
            self
        }
    }

    /// The identification agreed to: the chip is asked, the listing waits.
    #[verifier::opaque]
    pub open spec fn identification_accepted(self) -> Model {
        self.identify_settled(true).check_dropped().interruption_accepted().query_driven()
    }

    /// The identification refused: the board is left alone, and its listing
    /// goes on without a verdict.
    #[verifier::opaque]
    pub open spec fn identification_declined(self) -> Model {
        self.identify_settled(false).held_driven()
    }

    /// Erasing for MicroPython accepted: the online boards, and the chip
    /// asked as soon as the port is free.
    pub open spec fn erase_accepted(self) -> Model {
        let m = self.flash_ensured();
        let m = if m.flash is Some {
            m.flash_screen(FlashScreen::OnlineBoards).viewed(View::Flash)
        } else {
            m
        };
        if m.browser_busy() {
            m.query_deferred()
        } else {
            m.device_queried()
        }
    }

    pub open spec fn firmware_picked(self, selected: usize) -> Model {
        match self.flash {
            Some(flash) => if selected < flash.firmware_count {
                self.with_flash(
                    FlashPanel {
                        firmware_selected: true,
                        screen: FlashScreen::Options,
                        options_focus: OptionsField::Chip,
                        ..flash
                    },
                ).task(Task::SelectFirmware(selected))
            } else {
                self
            },
            None => self,
        }
    }

    /// After an erase: the write is offered, never started.
    pub open spec fn write_offered(self) -> Model {
        match self.flash {
            None => self,
            Some(flash) => {
                let m = self.cursors_on_write();
                if flash.firmware_count == 0 {
                    m
                } else if flash.firmware_count == 1 {
                    m.flash_screen(FlashScreen::Options).viewed(View::Flash)
                } else {
                    m.shown(Overlay::FirmwarePicker { selected: 0 }).viewed(View::Flash)
                }
            },
        }
    }

    /// After a download: the file is picked up, and the erase offered.
    pub open spec fn erase_offered(self) -> Model {
        if self.flash is Some {
            self.task(Task::DiscoverFirmware { wanted: None }).flash_triggered(
                FlashAction::EraseFlash,
            )
        } else {
            self
        }
    }
}

impl App {
    pub fn tell(&mut self, notices: &Vec<LogLine>)
        ensures
            final(self)@ == old(self)@.told(logs::lines_view(notices@)),
    {
        self.logs.push_all(notices);
    }

    /// Opens a fresh help window.
    pub fn open_help(&mut self)
        ensures
            final(self)@ == old(self)@.shown(fresh_help()),
    {
        let filter = String::new();
        assert(filter@ =~= Seq::<char>::empty());
        self.show(Overlay::Help { filter, filtering: false, selected: 0 });
    }

    fn set_flash_screen(&mut self, screen: FlashScreen)
        ensures
            final(self)@ == old(self)@.flash_screen(screen),
    {
        if let Some(flash) = &mut self.flash {
            flash.screen = screen;
        }
    }

    fn open_options(&mut self)
        ensures
            final(self)@ == old(self)@.options_opened(),
    {
        if let Some(flash) = &mut self.flash {
            flash.screen = FlashScreen::Options;
            flash.options_focus = OptionsField::Chip;
        }
    }

    /// Handles a key while the flash view shows: `q` and `Esc` step back one
    /// screen, and leave from the menu.
    pub fn on_flash_key(&mut self, key: KeyEvent)
        ensures
            final(self)@ == old(self)@.flash_key(key),
    {
        reveal(Model::flash_key);
        let screen = match &self.flash {
            Some(flash) => flash.screen,
            None => {
                return;
            },
        };
        if leave_key(key.code) {
            match screen {
                FlashScreen::Menu => {
                    self.screen.view = View::Dashboard;
                },
                _ => self.leave_flash_screen(),
            }
        } else if key.code == KeyCode::Char('?') || key.code == KeyCode::F(1) {
            self.open_help();
        } else {
            match screen {
                FlashScreen::Menu => self.on_flash_menu_key(key),
                FlashScreen::Options => self.on_flash_options_key(key),
                FlashScreen::OnlineBoards => self.on_flash_online_boards_key(key),
                FlashScreen::OnlineFirmware => self.on_flash_online_firmware_key(key),
                FlashScreen::CustomUrl => self.on_flash_custom_url_key(key),
            }
        }
    }

    fn leave_flash_screen(&mut self)
        ensures
            final(self)@ == old(self)@.flash_screen_left(),
    {
        if self.device_actions_tab_available() {
            self.screen.view = View::Dashboard;
        }
        self.set_flash_screen(FlashScreen::Menu);
    }

    fn show_flash_dialog(&mut self)
        ensures
            final(self)@ == old(self)@.dialog_shown(),
    {
        let on_menu: bool = match &self.flash {
            Some(flash) => flash.screen == FlashScreen::Menu,
            None => false,
        };
        if on_menu && self.device_actions_tab_available() {
            return;
        }
        self.screen.view = View::Flash;
    }

    pub(crate) fn set_pane_cursor(&mut self, cursor: usize)
        ensures
            final(self)@ == old(self)@.pane_cursor(cursor as int),
    {
        if let Some(flash) = &mut self.flash {
            flash.pane_cursor = cursor;
        }
    }

    /// Handles a key while the actions tab holds focus.
    pub fn on_flash_pane_key(&mut self, key: KeyEvent)
        ensures
            final(self)@ == old(self)@.flash_pane_key(key),
    {
        reveal(Model::flash_pane_key);
        let code = key.code;
        let len: usize = self.panels.lists.pane_actions.len();
        let at: usize = match &self.flash {
            Some(flash) => flash.pane_cursor,
            None => {
                return;
            },
        };
        if up_key(code) {
            self.set_pane_cursor(page_step(at, false, 1, len));
        } else if down_key(code) {
            self.set_pane_cursor(page_step(at, true, 1, len));
        } else if code == KeyCode::PageUp {
            self.set_pane_cursor(page_step(at, false, 5, len));
        } else if code == KeyCode::PageDown {
            self.set_pane_cursor(page_step(at, true, 5, len));
        } else if code == KeyCode::Home {
            self.set_pane_cursor(0);
        } else if code == KeyCode::End {
            self.set_pane_cursor(len.saturating_sub(1));
        } else if code == KeyCode::Enter && at < len {
            let action = self.panels.lists.pane_actions[at];
            self.run_flash_pane_action(action);
        }
    }

    /// Runs a row of the actions tab: from the keyboard or a click alike.
    pub fn run_flash_pane_action(&mut self, action: FlashPaneAction)
        ensures
            final(self)@ == old(self)@.pane_action_run(action),
    {
        match action {
            FlashPaneAction::Stop => self.stop_flash(),
            FlashPaneAction::Run(action) => self.trigger_flash_action(action),
            FlashPaneAction::SearchOnline => self.search_online(true),
        }
    }

    fn stop_flash(&mut self)
        ensures
            final(self)@ == old(self)@.flash_stopped(),
    {
        if self.is_flash_busy() {
            self.task(Task::StopFlash);
            self.warn("stopping the running command");
        }
    }

    fn open_url_entry(&mut self)
        ensures
            final(self)@ == old(self)@.url_entry_opened(),
    {
        if let Some(flash) = &mut self.flash {
            flash.custom_url = String::new();
            flash.screen = FlashScreen::CustomUrl;
        }
        assert(self.flash matches Some(flash) ==> flash.custom_url@ =~= Seq::<char>::empty());
    }

    fn selected_flash_action(&self) -> (r: Option<FlashAction>)
        ensures
            r == match self@.flash {
                Some(flash) => Some(FlashAction::spec_at(flash.cursor as int)),
                None => None,
            },
    {
        match &self.flash {
            Some(flash) => Some(FlashAction::at(flash.cursor)),
            None => None,
        }
    }

    fn on_flash_menu_key(&mut self, key: KeyEvent)
        requires
            old(self)@.flash is Some,
        ensures
            final(self)@ == old(self)@.flash_menu_key(key),
    {
        let code = key.code;
        if up_key(code) {
            self.task(Task::MoveFlashCursor { down: false });
        } else if down_key(code) {
            self.task(Task::MoveFlashCursor { down: true });
        } else if code == KeyCode::Char('s') {
            self.search_online(false);
        } else if code == KeyCode::Char('u') {
            self.open_url_entry();
        } else if code == KeyCode::Enter {
            if let Some(action) = self.selected_flash_action() {
                self.trigger_flash_action(action);
            }
        }
    }

    /// Searches the download index for the chip that is known.
    pub fn search_online(&mut self, dialog: bool)
        ensures
            final(self)@ == old(self)@.search_asked(dialog),
    {
        let mcu = match &self.flash {
            Some(flash) => match &flash.mcu {
                Some(mcu) => Some(mcu.clone()),
                None => None,
            },
            None => {
                if dialog {
                    self.show_flash_dialog();
                }
                return;
            },
        };
        match mcu {
            Some(mcu) => self.task(Task::SearchOnline { mcu, dialog }),
            None => {
                self.warn("no chip known yet --- connect the board or pick one in Options first");
                if dialog {
                    self.show_flash_dialog();
                }
            },
        }
    }

    /// The search asked for started, or was refused on the menu.
    pub fn online_search_answered(
        &mut self,
        discovery: &Vec<LogLine>,
        notices: &Vec<LogLine>,
        screen: FlashScreen,
        source: Option<String>,
        mcu: &str,
        dialog: bool,
    )
        ensures
            final(self)@ == old(self)@.search_answered(
                logs::lines_view(discovery@),
                logs::lines_view(notices@),
                screen,
                overlay::opt_text(source),
                mcu@,
                dialog,
            ),
    {
        self.set_flash_screen(screen);
        let errors = errors_of(discovery);
        self.tell(&errors);
        self.tell(notices);
        if let Some(url) = source {
            let line = text::join3("searching ", url.as_str(), " for ");
            self.info(text::join3(line.as_str(), mcu, " firmware").as_str());
        }
        if dialog {
            self.show_flash_dialog();
        }
    }

    /// The page of the board picked is being fetched, or was refused on the
    /// list.
    pub fn board_page_fetching(&mut self, notices: &Vec<LogLine>, screen: FlashScreen)
        ensures
            final(self)@ == old(self)@.board_page_answered(logs::lines_view(notices@), screen),
    {
        self.set_flash_screen(screen);
        self.tell(notices);
    }

    /// The keys the two online lists share; `false` when `code` is none.
    fn move_online(&mut self, code: KeyCode) -> (r: bool)
        ensures
            r == (old(self)@.online_moved(code) is Some),
            final(self)@ == match old(self)@.online_moved(code) {
                Some(m) => m,
                None => old(self)@,
            },
    {
        if up_key(code) {
            self.task(Task::MoveOnlineCursor { down: false });
            true
        } else if down_key(code) {
            self.task(Task::MoveOnlineCursor { down: true });
            true
        } else if code == KeyCode::Char('u') {
            self.open_url_entry();
            true
        } else {
            false
        }
    }

    fn on_flash_online_boards_key(&mut self, key: KeyEvent)
        requires
            old(self)@.flash is Some,
        ensures
            final(self)@ == old(self)@.online_boards_key(key),
    {
        if self.move_online(key.code) {
            return;
        }
        if key.code == KeyCode::Enter {
            let at: usize = match &self.flash {
                Some(flash) => flash.online_cursor,
                None => {
                    return;
                },
            };
            if at < self.panels.lists.online_boards.len() {
                let id = self.panels.lists.online_boards[at].clone();
                self.task(Task::FetchBoard { id });
            }
        }
    }

    fn on_flash_online_firmware_key(&mut self, key: KeyEvent)
        requires
            old(self)@.flash is Some,
        ensures
            final(self)@ == old(self)@.online_firmware_key(key),
    {
        if self.move_online(key.code) {
            return;
        }
        if key.code == KeyCode::Enter {
            let at: usize = match &self.flash {
                Some(flash) => flash.online_cursor,
                None => {
                    return;
                },
            };
            if at < self.panels.lists.online_firmware.len() {
                let url = self.panels.lists.online_firmware[at].clone();
                self.request_download(url);
            }
        }
    }

    fn on_flash_custom_url_key(&mut self, key: KeyEvent)
        requires
            old(self)@.flash is Some,
        ensures
            final(self)@ == old(self)@.custom_url_key(key),
    {
        match key.code {
            KeyCode::Backspace => {
                if let Some(flash) = &mut self.flash {
                    let _ = flash.custom_url.pop();
                }
            },
            KeyCode::Char(c) => {
                if let Some(flash) = &mut self.flash {
                    flash.custom_url.push(c);
                }
            },
            KeyCode::Enter => {
                let url = match &self.flash {
                    Some(flash) => text::trim(flash.custom_url.as_str()),
                    None => {
                        return;
                    },
                };
                if url.as_str().unicode_len() == 0 {
                    self.warn("type or paste a URL first");
                } else {
                    self.request_download(url);
                }
            },
            _ => {},
        }
    }

    fn request_download(&mut self, url: String)
        ensures
            final(self)@ == old(self)@.download_asked(url@),
    {
        if self.flash.is_some() {
            self.emit(Effect::Text(TextTask::RequestDownload, url));
        }
    }

    /// Where the download would land, and whether something is there.
    pub fn download_resolved(&mut self, url: String, dest: Option<String>, exists: bool)
        ensures
            final(self)@ == old(self)@.download_answered(url@, overlay::opt_text(dest), exists),
    {
        match dest {
            None => self.warn("cannot determine a filename from that URL"),
            Some(dest) => {
                if exists {
                    self.show(Overlay::ConfirmDownloadOverwrite { url, dest, confirm: false });
                } else {
                    self.start_download(url, dest);
                }
            },
        }
    }

    pub fn start_download(&mut self, url: String, dest: String)
        ensures
            final(self)@ == old(self)@.download_started(url@, dest@),
    {
        if self.flash.is_some() {
            self.emit(Effect::Pair(PairTask::StartDownload, url, dest));
        }
    }

    fn on_flash_options_key(&mut self, key: KeyEvent)
        requires
            old(self)@.flash is Some,
        ensures
            final(self)@ == old(self)@.flash_options_key(key),
    {
        let (field, cursor) = match &self.flash {
            Some(flash) => (flash.options_focus, flash.cursor),
            None => {
                return;
            },
        };
        let typed: bool = field == OptionsField::Offset || field == OptionsField::ExtraArgs;
        match key.code {
            KeyCode::Tab => self.task(Task::StepOptionsFocus { forward: true }),
            KeyCode::BackTab => self.task(Task::StepOptionsFocus { forward: false }),
            KeyCode::Left => {
                if !typed {
                    self.task(Task::CycleOption { field, forward: false });
                }
            },
            KeyCode::Right => {
                if !typed {
                    self.task(Task::CycleOption { field, forward: true });
                }
            },
            KeyCode::Backspace => {
                if typed {
                    self.task(Task::OptionBackspace(field));
                }
            },
            KeyCode::Char(c) => {
                if typed {
                    self.task(Task::OptionChar(field, c));
                }
            },
            KeyCode::Enter => self.trigger_flash_action(FlashAction::at(cursor)),
            _ => {},
        }
    }

    /// Starts `action`, or gathers what it needs first.
    pub fn trigger_flash_action(&mut self, action: FlashAction)
        ensures
            final(self)@ == old(self)@.flash_triggered(action),
    {
        let chosen: bool = match &self.flash {
            Some(flash) => flash.firmware_selected,
            None => {
                return;
            },
        };
        if action.needs_firmware() && !chosen {
            self.task(Task::DiscoverFirmware { wanted: Some(action) });
        } else {
            let port = self.port();
            self.task(Task::PreviewFlash { action, port });
        }
    }

    fn set_firmware_count(&mut self, count: usize)
        ensures
            final(self)@ == old(self)@.firmware_counted(count),
    {
        if let Some(flash) = &mut self.flash {
            flash.firmware_count = count;
        }
    }

    fn put_cursors_on_write(&mut self)
        ensures
            final(self)@ == old(self)@.cursors_on_write(),
    {
        let place = pane_position(
            &self.panels.lists.pane_actions,
            FlashPaneAction::Run(FlashAction::WriteFlash),
        );
        if let Some(flash) = &mut self.flash {
            flash.cursor = 3;
            if let Some(i) = place {
                flash.pane_cursor = i;
            }
        }
    }

    /// The firmware files were listed.
    pub fn firmware_discovered(
        &mut self,
        wanted: Option<FlashAction>,
        notices: &Vec<LogLine>,
        count: usize,
    )
        ensures
            final(self)@ == old(self)@.firmware_found(wanted, logs::lines_view(notices@), count),
    {
        if self.flash.is_none() {
            return;
        }
        self.set_firmware_count(count);
        self.tell(notices);
        if let Some(action) = wanted {
            if count == 0 {
                if action == FlashAction::WriteFlash {
                    self.search_online(true);
                }
            } else if count == 1 {
                self.open_options();
            } else {
                self.show(Overlay::FirmwarePicker { selected: 0 });
            }
        }
    }

    /// What the panel says of an action: why it is blocked, or its command.
    pub fn flash_previewed(
        &mut self,
        action: FlashAction,
        blocked: Option<String>,
        command: Option<String>,
    )
        ensures
            final(self)@ == old(self)@.flash_previewed(
                action,
                overlay::opt_text(blocked),
                overlay::opt_text(command),
            ),
    {
        if self.flash.is_none() {
            return;
        }
        if let Some(reason) = blocked {
            self.warn(reason.as_str());
            return;
        }
        if action.is_destructive() {
            if let Some(flash) = &mut self.flash {
                flash.pending = Some(action);
            }
            let message = match command {
                Some(command) => command,
                None => "(command unavailable)".to_owned(),
            };
            self.show(Overlay::Confirm { message, confirm: false });
        } else {
            let port = self.port();
            self.task(Task::RunFlash { action, port });
        }
    }

    /// Runs the action a confirmation was guarding.
    pub fn confirm_flash_action(&mut self)
        ensures
            final(self)@ == old(self)@.flash_confirmed(),
    {
        let port = self.port();
        if let Some(flash) = &mut self.flash {
            if let Some(action) = flash.pending {
                flash.pending = None;
                self.task(Task::RunFlash { action, port });
            }
        }
    }

    /// The action asked for started, or its notices say why not.
    pub fn flash_started(&mut self, notices: &Vec<LogLine>)
        ensures
            final(self)@ == old(self)@.flash_answered(logs::lines_view(notices@)),
    {
        if notices.len() == 0 {
            self.show_flash_in_monitor();
        } else {
            self.tell(notices);
        }
    }

    /// Closes any flash dialog and points the Monitor tab at the output.
    pub fn show_flash_in_monitor(&mut self)
        ensures
            final(self)@ == old(self)@.flash_in_monitor(),
    {
        self.screen.view = View::Dashboard;
        self.screen.log_tab = LogTab::Monitor;
        self.set_monitor_source(MonitorSource::Flash);
        if self.device_actions_tab_active() {
            self.screen.focus = Focus::FilesDevice;
        } else {
            self.screen.focus = Focus::Logs;
        }
    }

    /// Marks a background chip query as due.
    pub fn defer_device_info_query(&mut self)
        ensures
            final(self)@ == old(self)@.query_deferred(),
    {
        self.chain.flash_query_pending = true;
    }

    fn is_port_in_use(&self) -> (r: bool)
        ensures
            r == self@.port_in_use(),
    {
        self.chain.identify == IdentifyAuth::Pending || self.has_overlay()
            || self.chain.probe.is_some() || self.monitor.device.is_some()
            || self.monitor.run.is_some() || self.is_browser_busy()
    }

    /// Runs the deferred chip query once it is safe to.
    pub fn maybe_run_deferred_flash_query(&mut self) -> (r: DeferredQuery)
        ensures
            (final(self)@, r) == old(self)@.query_polled(),
    {
        if !self.chain.flash_query_pending || self.is_port_in_use()
            || self.panels.devices.script == ScriptState::Running {
            return DeferredQuery::Waiting;
        }
        self.chain.flash_query_pending = false;
        if self.maybe_query_device_info() {
            DeferredQuery::Started
        } else {
            DeferredQuery::Dropped
        }
    }

    /// Starts the background chip query; `false` when it cannot start.
    pub fn maybe_query_device_info(&mut self) -> (r: bool)
        ensures
            r == old(self)@.query_starts(),
            final(self)@ == old(self)@.device_queried(),
    {
        if !self.ensure_flash_panel() {
            return false;
        }
        let port = match self.port() {
            Some(port) => port,
            None => {
                return false;
            },
        };
        if let Some(flash) = &mut self.flash {
            if flash.query_ready && !flash.busy {
                flash.busy = true;
                flash.chip_query_running = true;
                self.task(Task::QueryDeviceInfo { device: port });
                return true;
            }
        }
        false
    }

    /// Drops what was known of a board that left.
    pub fn device_disconnected(&mut self)
        ensures
            final(self)@ == old(self)@.disconnected(),
    {
        self.chain.firmware_check_port = None;
        self.chain.firmware_check = FirmwareCheck::Idle;
        self.chain.mpy_version = None;
        if self.chain.identify == IdentifyAuth::Pending {
            self.chain.held_root_listing = false;
        }
        self.chain.force_listing = false;
        self.chain.identify = IdentifyAuth::Idle;
        self.chain.identify_port = None;
        if let Some(flash) = &mut self.flash {
            flash.mac = None;
            flash.identified = false;
            flash.firmware = None;
            self.task(Task::ClearDeviceDetails);
        }
    }

    fn forget_firmware(&mut self)
        ensures
            final(self)@ == old(self)@.firmware_forgotten(),
    {
        if let Some(flash) = &mut self.flash {
            flash.firmware = None;
            self.task(Task::ClearFirmwareIdentity);
        }
    }

    fn check_covers(&self, port: &String) -> (r: bool)
        ensures
            r == self@.check_covers(*port),
    {
        match &self.chain.firmware_check_port {
            Some(covered) => *covered == *port,
            None => false,
        }
    }

    /// Arms the identification read for the selected device.
    pub fn arm_firmware_check(&mut self)
        ensures
            final(self)@ == old(self)@.check_armed(),
    {
        let port = match self.port() {
            Some(port) => port,
            None => {
                return;
            },
        };
        if self.check_covers(&port) {
            return;
        }
        match &self.flash {
            Some(flash) => {
                if !flash.succeeded {
                    return;
                }
            },
            None => {
                return;
            },
        }
        self.chain.firmware_check_port = Some(port);
        self.chain.firmware_check = FirmwareCheck::Pending;
        self.forget_firmware();
    }

    /// The flash was rewritten: drops the old answer and re-arms the read.
    pub fn reidentify_firmware_after_flash(&mut self)
        ensures
            final(self)@ == old(self)@.reidentified(),
    {
        if self.port().is_none() {
            return;
        }
        self.chain.firmware_check_port = None;
        self.chain.firmware_check = FirmwareCheck::Idle;
        self.chain.mpy_version = None;
        self.chain.probed_port = None;
        self.forget_firmware();
        self.set_script_state(ScriptState::Unknown);
        self.arm_firmware_check();
        self.info("flash changed the device — re-identifying its firmware");
    }

    /// Starts the armed identification read once the port is free.
    pub fn maybe_run_deferred_firmware_check(&mut self) -> (r: DeferredQuery)
        ensures
            (final(self)@, r) == old(self)@.check_polled(),
    {
        if self.chain.firmware_check != FirmwareCheck::Pending || self.is_port_in_use()
            || self.chain.flash_query_pending {
            return DeferredQuery::Waiting;
        }
        self.chain.firmware_check = FirmwareCheck::Idle;
        if self.maybe_query_firmware_identity() {
            self.chain.firmware_check = FirmwareCheck::Running;
            DeferredQuery::Started
        } else {
            DeferredQuery::Dropped
        }
    }

    fn maybe_query_firmware_identity(&mut self) -> (r: bool)
        ensures
            r == old(self)@.query_starts(),
            ({
                let m = old(self)@.flash_ensured();
                final(self)@ == match (m.flash, m.port()) {
                    (Some(flash), Some(port)) => if r {
                        m.task(Task::QueryFirmware { device: port }).with_flash(
                            FlashPanel { busy: true, ..flash },
                        )
                    } else {
                        m
                    },
                    _ => m,
                }
            }),
    {
        if !self.ensure_flash_panel() {
            return false;
        }
        let port = match self.port() {
            Some(port) => port,
            None => {
                return false;
            },
        };
        if let Some(flash) = &mut self.flash {
            if flash.query_ready && !flash.busy {
                flash.busy = true;
                self.task(Task::QueryFirmware { device: port });
                return true;
            }
        }
        false
    }

    /// Runs the version hunt the identification read armed.
    pub fn maybe_run_deferred_version_hunt(&mut self)
        ensures
            final(self)@ == old(self)@.hunt_polled(),
    {
        match &self.flash {
            Some(flash) => {
                if !flash.version_hunt {
                    return;
                }
            },
            None => {
                return;
            },
        }
        if self.is_port_in_use() {
            return;
        }
        if let Some(flash) = &mut self.flash {
            flash.version_hunt = false;
        }
        match self.port() {
            Some(port) => self.task(Task::HuntVersion { device: port }),
            None => self.task(Task::DropVersionHunt),
        }
    }

    /// Decides whether the first listing may go past the firmware read.
    pub fn hold_root_listing_for_firmware(&mut self) -> (r: FirmwareHold)
        ensures
            (final(self)@, r) == old(self)@.firmware_held(),
    {
        let querying: bool = match &self.flash {
            Some(flash) => flash.chip_query_running,
            None => false,
        };
        if self.chain.identify == IdentifyAuth::Pending || self.chain.flash_query_pending
            || querying {
            self.chain.held_root_listing = true;
            return FirmwareHold::Held;
        }
        let port = match self.port() {
            Some(port) => port,
            None => {
                return FirmwareHold::Release;
            },
        };
        if !self.check_covers(&port) {
            return FirmwareHold::Release;
        }
        if self.chain.firmware_check != FirmwareCheck::Idle {
            let _ = self.maybe_run_deferred_firmware_check();
            self.chain.held_root_listing = true;
            return FirmwareHold::Held;
        }
        let verdict = match &self.flash {
            Some(flash) => match &flash.firmware {
                Some(verdict) => verdict.copied(),
                None => {
                    return FirmwareHold::Release;
                },
            },
            None => {
                return FirmwareHold::Release;
            },
        };
        match non_micropython_block_reason(&verdict) {
            Some(reason) => {
                self.refuse_listing(verdict, reason.as_str());
                FirmwareHold::Blocked
            },
            None => FirmwareHold::Release,
        }
    }

    fn refuse_listing(&mut self, verdict: FirmwareVerdict, reason: &str)
        ensures
            final(self)@ == old(self)@.refused(verdict, reason@),
    {
        let already: bool = match &self.panels.browser {
            Some(browser) => match &browser.device_state {
                PaneState::Failed(error) => text::same(pane_message(error).as_str(), reason),
                _ => false,
            },
            None => false,
        };
        self.set_device_pane_error(PaneError::Firmware(verdict));
        if !already {
            self.warn(reason);
        }
    }

    /// Re-evaluates a listing held behind the identification chain.
    pub fn drive_held_root_listing(&mut self)
        ensures
            final(self)@ == old(self)@.held_driven(),
    {
        if !self.chain.held_root_listing {
            return;
        }
        match self.hold_root_listing_for_firmware() {
            FirmwareHold::Release => self.resume_held_root_listing(),
            FirmwareHold::Held => {},
            FirmwareHold::Blocked => {
                self.chain.held_root_listing = false;
            },
        }
    }

    /// Holds the first listing of a device behind the chip query; `false`
    /// when the listing should not wait.
    pub fn hold_root_listing_for_chip_identity(&mut self) -> (r: bool)
        ensures
            (final(self)@, r) == old(self)@.chip_held(),
    {
        if !self.chain.flash_query_pending || self.panels.devices.script == ScriptState::Running {
            return false;
        }
        if !self.ensure_flash_panel() {
            self.chain.flash_query_pending = false;
            return false;
        }
        let outcome = self.maybe_run_deferred_flash_query();
        let held: bool = outcome != DeferredQuery::Dropped;
        self.chain.held_root_listing = held;
        held
    }

    /// Releases a held listing, listing the device's root for real.
    pub fn resume_held_root_listing(&mut self)
        ensures
            final(self)@ == old(self)@.held_resumed(),
    {
        if self.chain.held_root_listing {
            self.chain.held_root_listing = false;
            self.load_device_root();
        }
    }

    fn identify_covers(&self, port: &String) -> (r: bool)
        ensures
            r == self@.identify_covers(*port),
    {
        match &self.chain.identify_port {
            Some(covered) => *covered == *port,
            None => false,
        }
    }

    /// Arms the identification question for a newly selected device.
    pub fn request_device_identify(&mut self)
        ensures
            final(self)@ == old(self)@.identification_requested(),
    {
        if let Some(port) = self.port() {
            let caps = self.capabilities();
            if (caps.flash || caps.erase_flash) && !self.identify_covers(&port) {
                self.chain.identify = IdentifyAuth::Pending;
            }
        }
    }

    /// Opens the identification question, on No.
    pub fn open_identification_question(&mut self)
        ensures
            final(self)@ == old(self)@.identification_opened(),
    {
        self.chain.identify = IdentifyAuth::Pending;
        self.show(Overlay::ConfirmIdentifyDevice { confirm: false });
    }

    /// Opens the identification question that is due, once nothing else is
    /// on screen.
    pub fn maybe_ask_identification(&mut self)
        ensures
            final(self)@ == old(self)@.identification_asked(),
    {
        if self.chain.identify == IdentifyAuth::Pending && !self.has_overlay() {
            self.open_identification_question();
        }
    }

    fn settle_identify(&mut self, query: bool)
        ensures
            final(self)@ == old(self)@.identify_settled(query),
    {
        self.chain.identify_port = self.port();
        self.chain.identify = IdentifyAuth::Idle;
        self.chain.flash_query_pending = query;
    }

    fn drop_check(&mut self)
        ensures
            final(self)@ == old(self)@.check_dropped(),
    {
        if self.chain.firmware_check != FirmwareCheck::Running {
            self.chain.firmware_check_port = None;
            self.chain.firmware_check = FirmwareCheck::Idle;
        }
    }

    fn accept_interruption(&mut self)
        ensures
            final(self)@ == old(self)@.interruption_accepted(),
    {
        if self.panels.devices.script == ScriptState::Running {
            self.chain.restore_pending = true;
            self.set_script_state(ScriptState::Stopped);
        }
    }

    /// Answers the identification question.
    pub fn confirm_identify_device(&mut self, yes: bool)
        ensures
            final(self)@ == if yes {
                old(self)@.identification_accepted()
            } else {
                old(self)@.identification_declined()
            },
    {
        reveal(Model::identification_accepted);
        reveal(Model::identification_declined);
        self.settle_identify(yes);
        if yes {
            self.drop_check();
            self.accept_interruption();
            self.drive_query();
        } else {
            self.drive_held_root_listing();
        }
    }

    /// The user confirmed erasing the flash to install MicroPython.
    pub fn confirm_erase_for_micropython(&mut self)
        ensures
            final(self)@ == old(self)@.erase_accepted(),
    {
        let _ = self.ensure_flash_panel();
        if self.flash.is_some() {
            self.set_flash_screen(FlashScreen::OnlineBoards);
            self.screen.view = View::Flash;
        }
        if self.is_browser_busy() {
            self.defer_device_info_query();
        } else {
            let _ = self.maybe_query_device_info();
        }
    }

    pub fn apply_firmware_picker(&mut self, selected: usize)
        ensures
            final(self)@ == old(self)@.firmware_picked(selected),
    {
        if let Some(flash) = &mut self.flash {
            if selected < flash.firmware_count {
                flash.firmware_selected = true;
                flash.screen = FlashScreen::Options;
                flash.options_focus = OptionsField::Chip;
                self.task(Task::SelectFirmware(selected));
            }
        }
    }

    /// An erase succeeded: offers the write, never starts it.
    pub fn offer_flash_after_erase(&mut self)
        ensures
            final(self)@ == old(self)@.write_offered(),
    {
        let count: usize = match &self.flash {
            None => {
                return;
            },
            Some(flash) => flash.firmware_count,
        };
        self.put_cursors_on_write();
        if count == 1 {
            self.set_flash_screen(FlashScreen::Options);
            self.screen.view = View::Flash;
        } else if count > 1 {
            self.show(Overlay::FirmwarePicker { selected: 0 });
            self.screen.view = View::Flash;
        }
    }

    /// A download finished: picks the file up and offers the erase.
    pub fn offer_flash_after_download(&mut self)
        ensures
            final(self)@ == old(self)@.erase_offered(),
    {
        if self.flash.is_some() {
            self.task(Task::DiscoverFirmware { wanted: None });
            self.trigger_flash_action(FlashAction::EraseFlash);
        }
    }
}

/// A destructive action never runs unasked: it opens the confirmation, with
/// the literal command and No highlighted.
pub proof fn destructive_actions_ask_first(m: Model, action: FlashAction, command: Seq<char>)
    requires
        action.destructive(),
        m.flash is Some,
    ensures
        ({
            let after = m.flash_previewed(action, None, Some(command));
            &&& after.effects == m.effects
            &&& after.overlay == Some(
                Overlay::<Seq<char>>::Confirm { message: command, confirm: false },
            )
            &&& after.flash is Some && after.flash.unwrap().pending == Some(action)
        }),
{
}

/// Only a verdict other than MicroPython refuses the listing.
pub proof fn only_foreign_firmware_refuses(verdict: FirmwareVerdict)
    ensures
        block_reason(verdict) is None <==> verdict matches FirmwareVerdict::Firmware(
            FlashFirmware::MicroPython,
            _,
        ),
{
}

/// The chip query never resets a board that is believed to run a script, nor
/// starts while something else holds the port.
pub proof fn a_busy_port_postpones_the_chip_query(m: Model)
    requires
        m.port_in_use() || m.panels.devices.script == ScriptState::Running,
    ensures
        m.query_polled() == (m, DeferredQuery::Waiting),
{
}

/// While the identification question or the chip query is open, no listing
/// slips past it.
pub proof fn the_listing_waits_for_the_chip_query(m: Model)
    requires
        m.chain.held_root_listing,
        m.chain.identify == IdentifyAuth::Pending || m.chain.flash_query_pending || (m.flash is Some
            && m.flash.unwrap().chip_query_running),
    ensures
        m.held_driven().chain.held_root_listing,
        m.held_driven().effects == m.effects,
{
}

/// A refused listing stays refused: nothing is asked of the device.
pub proof fn foreign_firmware_is_never_listed(m: Model, port: String, verdict: FirmwareVerdict)
    requires
        m.port() == Some(port),
        m.check_covers(port),
        m.chain.firmware_check == FirmwareCheck::Idle,
        !m.chain.flash_query_pending,
        m.flash is Some,
        !m.flash.unwrap().chip_query_running,
        m.flash.unwrap().firmware == Some(verdict),
        block_reason(verdict) is Some,
        !m.probe_wanted(),
    ensures
        m.root_loaded().effects == m.effects,
        m.chain.identify == IdentifyAuth::Idle && m.panels.browser is Some ==> m.root_loaded().panels.browser is Some
            && m.root_loaded().panels.browser.unwrap().device_state == PaneState::Failed(
            PaneError::Firmware(verdict),
        ),
{
}

/// Once the verdict says MicroPython, or there is none, the listing goes out.
pub proof fn micropython_is_listed(m: Model, port: String)
    requires
        m.port() == Some(port),
        m.panels.browser is Some,
        m.chain.identify == IdentifyAuth::Idle,
        m.chain.firmware_check == FirmwareCheck::Idle,
        !m.chain.flash_query_pending,
        m.flash is Some,
        !m.flash.unwrap().chip_query_running,
        m.flash.unwrap().firmware matches Some(verdict) ==> block_reason(verdict) is None,
        !m.probe_wanted(),
    ensures
        m.root_loaded() == m.with_chain(Chain { force_listing: false, ..m.chain }).task(
            Task::LoadDevice { port: Some(port), force: m.chain.force_listing },
        ),
{
}

/// The identification read is armed once per port.
pub proof fn the_read_is_armed_once(m: Model)
    ensures
        m.check_armed().check_armed() == m.check_armed(),
{
}

/// A board that left takes its answers with it: on the same port, the next
/// one is asked anew.
pub proof fn a_departed_board_leaves_no_answer(m: Model, port: String)
    ensures
        m.disconnected().chain.mpy_version is None,
        !m.disconnected().check_covers(port),
        m.disconnected().flash matches Some(flash) ==> flash.firmware is None && flash.mac is None,
{
}

} // verus!
