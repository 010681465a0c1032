//! The keyboard's front door, and the dashboard dispatch beneath it.
//!
//! Order matters here more than anywhere: a live session owns the keyboard
//! outright, the dashboard-wide chords are taken before the focused pane
//! sees anything, and only then does the key reach the pane.

use vstd::prelude::*;
use vstd::view::View as _;

use crate::app::{App, Focus, LogTab, Model, ProjectRow, Terminal, View};
use crate::app::build_view::clone_opt;
use crate::app::flash_view;
use crate::app::monitor_view::MonitorScroll;
use crate::backend::Capability;
use crate::effect::{Effect, Task};
use crate::input;
use crate::input::{KeyCode, KeyEvent, KeyModifiers, down_key, key_to_bytes, up_key};
use crate::logs::LogModel;
use crate::overlay::Overlay;

verus! {

broadcast use crate::overlay::group_overlay_models;

/// A key, with what the layers outside make of it.
pub struct KeyInput {
    pub key: KeyEvent,
    /// The bytes the shell's terminal would send for it.
    pub shell_bytes: Option<Vec<u8>>,
    /// The pane letters took it.
    pub claimed: bool,
}

/// `ctrl+]`, under either name a terminal reports it by.
pub open spec fn is_escape_chord(key: KeyEvent) -> bool {
    key.modifiers.control && (key.code == KeyCode::Char(']') || key.code == KeyCode::Char('5'))
}

fn escape_chord(key: KeyEvent) -> (r: bool)
    ensures
        r == is_escape_chord(key),
{
    key.modifiers.control && (key.code == KeyCode::Char(']') || key.code == KeyCode::Char('5'))
}

/// The pane number a digit key names.
pub open spec fn digit_of(code: KeyCode) -> Option<u8> {
    match code {
        KeyCode::Char(c) => if '1' <= c && c <= '9' {
            Some((c as int - 48) as u8)
        } else {
            None
        },
        _ => None,
    }
}

fn digit_key(code: KeyCode) -> (r: Option<u8>)
    ensures
        r == digit_of(code),
{
    match code {
        KeyCode::Char(c) => if '1' <= c && c <= '9' {
            let n: u32 = c as u32;
            Some((n - 48) as u8)
        } else {
            None
        },
        _ => None,
    }
}

impl Model {
    /// A key while the device monitor owns the keyboard: its stop chord, or
    /// bytes for the session.
    pub open spec fn monitor_key(self, key: KeyEvent) -> Model {
        match self.monitor.device {
            Some(id) => if is_escape_chord(key) {
                self.info("stopping monitor (ctrl+])"@).task(Task::Cancel(id))
            } else {
                match input::key_bytes(key) {
                    Some(bytes) => self.emit(Effect::Stdin { id, bytes }),
                    None => self,
                }
            },
            None => self,
        }
    }

    /// A key while the shell owns the keyboard: detach, the scrollback, or
    /// bytes for the shell, which snap the view back to the live screen.
    pub open spec fn shell_key(self, key: KeyEvent, bytes: Option<Seq<u8>>) -> Model {
        if is_escape_chord(key) {
            self.with_terminal(Terminal { detached: true, ..self.terminal })
        } else if key.modifiers.shift && key.code == KeyCode::PageUp {
            self.monitor_up(self.page_size())
        } else if key.modifiers.shift && key.code == KeyCode::PageDown {
            self.monitor_down(self.page_size())
        } else {
            match (self.terminal.process, bytes) {
                (Some(id), Some(bytes)) => self.scrolled(MonitorScroll::tail()).emit(
                    Effect::Stdin { id, bytes },
                ),
                _ => self,
            }
        }
    }

    /// A key press.
    pub open spec fn key_pressed(
        self,
        key: KeyEvent,
        bytes: Option<Seq<u8>>,
        claimed: bool,
    ) -> Model {
        let control = key.modifiers.control;
        if control && (key.code == KeyCode::Char('f') || key.code == KeyCode::Char('F')) {
            self.fullscreen_toggled()
        } else if self.monitor_active() {
            self.monitor_key(key)
        } else if self.terminal_active() {
            self.shell_key(key, bytes)
        } else if control && key.code == KeyCode::Char('c') {
            match (self.run_active(), self.monitor.run) {
                (true, Some(id)) => self.emit(Effect::Stdin { id, bytes: seq![3u8] }),
                _ => self.quitting(),
            }
        } else if self.overlay is Some {
            self.overlay_key(key)
        } else {
            match self.screen.view {
                View::Dashboard => self.dashboard_key(key, claimed),
                View::Flash => self.flash_key(key),
            }
        }
    }

    /// `Enter` on the device report: the MAC copied, or the identification
    /// question where nothing was read yet.
    pub open spec fn device_info_key(self, key: KeyEvent) -> Model {
        if key.code != KeyCode::Enter {
            self
        } else {
            match self.flash {
                Some(flash) => if !flash.identified {
                    self.identification_opened()
                } else {
                    match flash.mac {
                        Some(mac) => self.copied("MAC"@, mac),
                        None => self,
                    }
                },
                None => self.identification_opened(),
            }
        }
    }

    /// A key on the dashboard.
    #[verifier::opaque]
    pub open spec fn dashboard_key(self, key: KeyEvent, claimed: bool) -> Model {
        if claimed {
            self
        } else {
            match self.walking_key(key) {
                Some(m) => m,
                None => match self.command_key(key) {
                    Some(m) => m,
                    None => self.pane_key(key),
                },
            }
        }
    }

    /// The keys that move between panes and strips, and `q`.
    #[verifier::opaque]
    pub open spec fn walking_key(self, key: KeyEvent) -> Option<Model> {
        let code = key.code;
        let control = key.modifiers.control;
        let whole = !self.screen.row3_fullscreen;
        if code == KeyCode::Char('q') {
            Some(self.quitting())
        } else if code == KeyCode::Tab && whole {
            Some(self.focus_stepped(true))
        } else if code == KeyCode::BackTab && whole {
            Some(self.focus_stepped(false))
        } else if code == KeyCode::Left && control {
            Some(self.strip_switched(false))
        } else if code == KeyCode::Right && control {
            Some(self.strip_switched(true))
        } else if code == KeyCode::Up && control && whole {
            Some(self.focus_vertical(false))
        } else if code == KeyCode::Down && control && whole {
            Some(self.focus_vertical(true))
        } else if whole {
            match digit_of(code) {
                Some(number) => match self.pane_numbered(number) {
                    Some(stop) => Some(self.focused(stop)),
                    None => None,
                },
                None => None,
            }
        } else {
            None
        }
    }

    /// The dashboard-wide commands.
    #[verifier::opaque]
    pub open spec fn command_key(self, key: KeyEvent) -> Option<Model> {
        let code = key.code;
        let control = key.modifiers.control;
        let caps = self.caps();
        if code == KeyCode::Char('t') {
            Some(self.theme_picker_opened())
        } else if code == KeyCode::Char('i') && control {
            Some(self.icons_cycled())
        } else if code == KeyCode::Char('x') {
            Some(self.flash_opened())
        } else if code == KeyCode::Char('P') {
            Some(self.home_screen_asked())
        } else if code == KeyCode::Char('?') || code == KeyCode::F(1) {
            Some(self.shown(flash_view::fresh_help()))
        } else if code == KeyCode::Char('d') {
            Some(
                if caps.filesystem {
                    self.devices_asked()
                } else if caps.monitor {
                    self.serial_asked()
                } else {
                    self
                },
            )
        } else if code == KeyCode::Char('m') && caps.monitor {
            Some(self.monitor_asked())
        } else if code == KeyCode::Char('r') && control {
            Some(self.identification_opened())
        } else if code == KeyCode::Char('s') && caps.workspace_sync {
            Some(self.toolchains_opened())
        } else if code == KeyCode::Char('R') && caps.reset {
            Some(self.shown(Overlay::ConfirmRestartDevice { confirm: false }))
        } else {
            None
        }
    }

    /// The key in the focused pane's own grammar.
    #[verifier::opaque]
    pub open spec fn pane_key(self, key: KeyEvent) -> Model {
        if self.screen.focus == Focus::FilesDevice && self.actions_active() {
            self.flash_pane_key(key)
        } else {
            match self.screen.focus {
                Focus::FilesLocal | Focus::FilesDevice => if self.builds() {
                    self.log_key(key)
                } else {
                    self.files_key(key)
                },
                Focus::Project => self.project_key(key),
                Focus::DeviceInfo => self.device_info_key(key),
                Focus::Workspace => self.task(Task::WorkspaceKey(key)),
                Focus::Build => self.build_key(key),
                Focus::Logs => self.log_key(key),
            }
        }
    }

    /// The Project pane's cursor is on the board and its shield.
    pub open spec fn on_board_row(self) -> bool {
        let cursor = self.screen.project_cursor;
        cursor < self.project.rows@.len() && self.project.rows@[cursor as int]
            == ProjectRow::BoardShield
    }

    /// A key while the Project pane holds focus: `Enter` asks for the half of
    /// the board row that is chosen, every other question is asked outside.
    #[verifier::opaque]
    pub open spec fn project_key(self, key: KeyEvent) -> Model {
        if key.code == KeyCode::Enter && self.on_board_row() {
            if self.screen.board_segment {
                self.board_picker_opened()
            } else {
                self.shield_picker_opened()
            }
        } else {
            self.task(Task::ProjectKey(key))
        }
    }

    /// Row 3's own keys.
    #[verifier::opaque]
    pub open spec fn log_key(self, key: KeyEvent) -> Model {
        let code = key.code;
        if code == KeyCode::Char('s') && self.run_view() {
            self.run_output_kept()
        } else if code == KeyCode::Char('r') {
            if self.screen.focus == Focus::Logs && self.screen.log_tab == LogTab::Terminal
                && self.terminal.process is None {
                self.task(Task::SpawnShell)
            } else {
                self.info("re-running project detection"@).task(Task::Detect).task(
                    Task::OpenProjectSetup,
                )
            }
        } else if input::is_up(code) {
            self.cursor_moved(false, 1)
        } else if input::is_down(code) {
            self.cursor_moved(true, 1)
        } else if code == KeyCode::PageUp {
            self.cursor_moved(false, self.page_size())
        } else if code == KeyCode::PageDown {
            self.cursor_moved(true, self.page_size())
        } else if code == KeyCode::Home {
            self.jumped_to_start()
        } else if code == KeyCode::End {
            self.jumped_to_end()
        } else {
            self
        }
    }

    /// The rows a page key moves by.
    pub open spec fn page_size(self) -> usize {
        if self.screen.focus != Focus::Logs {
            5
        } else if self.screen.log_tab != LogTab::Log {
            if self.monitor.view.viewport == 0 {
                1
            } else {
                self.monitor.view.viewport
            }
        } else if self.drawn.log_viewport == 0 {
            1
        } else {
            self.drawn.log_viewport
        }
    }

    pub open spec fn with_logs(self, logs: LogModel) -> Model {
        Model { logs, ..self }
    }

    /// Row 3 scrolled: its log, or whichever console the tab shows.
    pub open spec fn cursor_moved(self, down: bool, rows: usize) -> Model {
        if self.screen.focus != Focus::Logs {
            self
        } else if self.screen.log_tab == LogTab::Log {
            if down {
                self.with_logs(self.logs.scroll_down(rows))
            } else {
                self.with_logs(self.logs.scroll_up(rows, self.drawn.log_viewport))
            }
        } else if down {
            self.monitor_down(rows)
        } else {
            self.monitor_up(rows)
        }
    }

    pub open spec fn jumped_to_start(self) -> Model {
        if self.screen.focus != Focus::Logs {
            self
        } else if self.screen.log_tab == LogTab::Log {
            self.with_logs(self.logs.scroll_up(usize::MAX, self.drawn.log_viewport))
        } else {
            self.scrolled(MonitorScroll { following: false, offset: 0 })
        }
    }

    pub open spec fn jumped_to_end(self) -> Model {
        if self.screen.focus != Focus::Logs {
            self
        } else if self.screen.log_tab == LogTab::Log {
            self.with_logs(self.logs.followed())
        } else {
            self.scrolled(MonitorScroll::tail())
        }
    }
}

impl App {
    /// Handles a key press.
    pub fn on_key(&mut self, input: KeyInput)
        ensures
            final(self)@ == old(self)@.key_pressed(
                input.key,
                input::opt_bytes(input.shell_bytes),
                input.claimed,
            ),
    {
        let key = input.key;
        let control: bool = key.modifiers.control;
        if control && (key.code == KeyCode::Char('f') || key.code == KeyCode::Char('F')) {
            self.toggle_row3_fullscreen();
        } else if self.is_monitor_active() {
            self.on_monitor_key(key);
        } else if self.is_terminal_active() {
            self.on_shell_key(key, input.shell_bytes);
        } else if control && key.code == KeyCode::Char('c') {
            if self.is_run_active() {
                if let Some(id) = self.monitor.run {
                    let mut bytes: Vec<u8> = Vec::new();
                    bytes.push(3);
                    assert(bytes@ =~= seq![3u8]);
                    self.emit(Effect::Stdin { id, bytes });
                    return;
                }
            }
            self.quit();
        } else if self.has_overlay() {
            self.on_overlay_key(key);
        } else {
            match self.screen.view {
                View::Dashboard => self.on_dashboard_key(key, input.claimed),
                View::Flash => self.on_flash_key(key),
            }
        }
    }

    fn on_monitor_key(&mut self, key: KeyEvent)
        ensures
            final(self)@ == old(self)@.monitor_key(key),
    {
        if let Some(id) = self.monitor.device {
            if escape_chord(key) {
                self.info("stopping monitor (ctrl+])");
                self.task(Task::Cancel(id));
            } else if let Some(bytes) = key_to_bytes(key) {
                self.emit(Effect::Stdin { id, bytes });
            }
        }
    }

    fn on_shell_key(&mut self, key: KeyEvent, bytes: Option<Vec<u8>>)
        ensures
            final(self)@ == old(self)@.shell_key(key, input::opt_bytes(bytes)),
    {
        if escape_chord(key) {
            self.terminal.detached = true;
        } else if key.modifiers.shift && key.code == KeyCode::PageUp {
            let rows: usize = self.page();
            self.monitor_scroll_up(rows);
        } else if key.modifiers.shift && key.code == KeyCode::PageDown {
            let rows: usize = self.page();
            self.monitor_scroll_down(rows);
        } else if let (Some(id), Some(bytes)) = (self.terminal.process, bytes) {
            self.monitor.scroll = MonitorScroll::default();
            self.emit(Effect::Stdin { id, bytes });
        }
    }

    /// Keys while the device report holds focus.
    pub fn on_device_info_key(&mut self, key: KeyEvent)
        ensures
            final(self)@ == old(self)@.device_info_key(key),
    {
        if key.code != KeyCode::Enter {
            return;
        }
        let mac = match &self.flash {
            Some(flash) => {
                if !flash.identified {
                    self.open_identification_question();
                    return;
                }
                clone_opt(&flash.mac)
            },
            None => {
                self.open_identification_question();
                return;
            },
        };
        if let Some(mac) = mac {
            self.copy_to_clipboard("MAC", mac);
        }
    }

    /// Handles a key on the dashboard.
    pub fn on_dashboard_key(&mut self, key: KeyEvent, claimed: bool)
        ensures
            final(self)@ == old(self)@.dashboard_key(key, claimed),
    {
        reveal(Model::dashboard_key);
        if claimed {
            return;
        }
        if self.on_walking_key(key) {
            return;
        }
        if self.on_command_key(key) {
            return;
        }
        self.on_pane_key(key);
    }

    fn on_walking_key(&mut self, key: KeyEvent) -> (r: bool)
        ensures
            r == (old(self)@.walking_key(key) is Some),
            final(self)@ == match old(self)@.walking_key(key) {
                Some(m) => m,
                None => old(self)@,
            },
    {
        reveal(Model::walking_key);
        let code = key.code;
        let control: bool = key.modifiers.control;
        let whole: bool = !self.screen.row3_fullscreen;
        if code == KeyCode::Char('q') {
            self.quit();
        } else if code == KeyCode::Tab && whole {
            self.step_focus(true);
        } else if code == KeyCode::BackTab && whole {
            self.step_focus(false);
        } else if code == KeyCode::Left && control {
            self.switch_strip_tabs(false);
        } else if code == KeyCode::Right && control {
            self.switch_strip_tabs(true);
        } else if code == KeyCode::Up && control && whole {
            self.step_focus_vertical(false);
        } else if code == KeyCode::Down && control && whole {
            self.step_focus_vertical(true);
        } else {
            if whole {
                if let Some(number) = digit_key(code) {
                    if let Some(stop) = self.pane_for_number(number) {
                        self.screen.focus = stop;
                        return true;
                    }
                }
            }
            return false;
        }
        true
    }

    fn on_command_key(&mut self, key: KeyEvent) -> (r: bool)
        ensures
            r == (old(self)@.command_key(key) is Some),
            final(self)@ == match old(self)@.command_key(key) {
                Some(m) => m,
                None => old(self)@,
            },
    {
        reveal(Model::command_key);
        let code = key.code;
        let control: bool = key.modifiers.control;
        let caps = self.capabilities();
        if code == KeyCode::Char('t') {
            self.open_theme_picker();
        } else if code == KeyCode::Char('i') && control {
            self.cycle_icon_set();
        } else if code == KeyCode::Char('x') {
            self.open_flash();
        } else if code == KeyCode::Char('P') {
            self.request_home_screen();
        } else if code == KeyCode::Char('?') || code == KeyCode::F(1) {
            self.open_help();
        } else if code == KeyCode::Char('d') {
            if caps.contains(Capability::Filesystem) {
                self.scan_devices();
            } else if caps.contains(Capability::Monitor) {
                self.scan_serial_devices();
            }
        } else if code == KeyCode::Char('m') && caps.contains(Capability::Monitor) {
            self.open_monitor();
        } else if code == KeyCode::Char('r') && control {
            self.open_identification_question();
        } else if code == KeyCode::Char('s') && caps.contains(Capability::WorkspaceSync) {
            self.open_sdk_toolchains_shortcut();
        } else if code == KeyCode::Char('R') && caps.contains(Capability::Reset) {
            self.show(Overlay::ConfirmRestartDevice { confirm: false });
        } else {
            return false;
        }
        true
    }

    fn on_pane_key(&mut self, key: KeyEvent)
        ensures
            final(self)@ == old(self)@.pane_key(key),
    {
        reveal(Model::pane_key);
        if self.screen.focus == Focus::FilesDevice && self.device_actions_tab_active() {
            self.on_flash_pane_key(key);
            return;
        }
        match self.screen.focus {
            Focus::FilesLocal | Focus::FilesDevice => {
                if self.build_pane_visible_precondition() {
                    self.on_log_key(key);
                } else {
                    self.on_files_key(key);
                }
            },
            Focus::Project => self.on_project_key(key),
            Focus::DeviceInfo => self.on_device_info_key(key),
            Focus::Workspace => self.task(Task::WorkspaceKey(key)),
            Focus::Build => self.on_build_key(key),
            Focus::Logs => self.on_log_key(key),
        }
    }

    /// Handles a key while the Project pane holds focus.
    pub fn on_project_key(&mut self, key: KeyEvent)
        ensures
            final(self)@ == old(self)@.project_key(key),
    {
        reveal(Model::project_key);
        let cursor: usize = self.screen.project_cursor;
        if key.code == KeyCode::Enter && cursor < self.project.rows.len()
            && self.project.rows[cursor] == ProjectRow::BoardShield {
            if self.screen.board_segment {
                self.open_board_picker();
            } else {
                self.open_shield_picker();
            }
        } else {
            self.task(Task::ProjectKey(key));
        }
    }

    fn on_log_key(&mut self, key: KeyEvent)
        ensures
            final(self)@ == old(self)@.log_key(key),
    {
        reveal(Model::log_key);
        let code = key.code;
        if code == KeyCode::Char('s') && self.is_run_view() {
            self.save_run_output();
        } else if code == KeyCode::Char('r') {
            if self.screen.focus == Focus::Logs && self.screen.log_tab == LogTab::Terminal
                && self.terminal.process.is_none() {
                self.task(Task::SpawnShell);
            } else {
                self.info("re-running project detection");
                self.task(Task::Detect);
                self.task(Task::OpenProjectSetup);
            }
        } else if up_key(code) {
            self.move_cursor(false, 1);
        } else if down_key(code) {
            self.move_cursor(true, 1);
        } else if code == KeyCode::PageUp {
            let rows: usize = self.page();
            self.move_cursor(false, rows);
        } else if code == KeyCode::PageDown {
            let rows: usize = self.page();
            self.move_cursor(true, rows);
        } else if code == KeyCode::Home {
            self.jump_to_start();
        } else if code == KeyCode::End {
            self.jump_to_end();
        }
    }

    /// Page size for the focused pane.
    pub fn page(&self) -> (r: usize)
        ensures
            r == self@.page_size(),
    {
        if self.screen.focus != Focus::Logs {
            5
        } else if self.screen.log_tab != LogTab::Log {
            if self.monitor.view.viewport == 0 {
                1
            } else {
                self.monitor.view.viewport
            }
        } else if self.drawn.log_viewport == 0 {
            1
        } else {
            self.drawn.log_viewport
        }
    }

    pub fn move_cursor(&mut self, down: bool, rows: usize)
        ensures
            final(self)@ == old(self)@.cursor_moved(down, rows),
    {
        if self.screen.focus != Focus::Logs {
            return;
        }
        if self.screen.log_tab == LogTab::Log {
            if down {
                self.logs.scroll_down(rows);
            } else {
                let viewport: usize = self.drawn.log_viewport;
                self.logs.scroll_up(rows, viewport);
            }
        } else if down {
            self.monitor_scroll_down(rows);
        } else {
            self.monitor_scroll_up(rows);
        }
    }

    pub fn jump_to_start(&mut self)
        ensures
            final(self)@ == old(self)@.jumped_to_start(),
    {
        if self.screen.focus != Focus::Logs {
            return;
        }
        if self.screen.log_tab == LogTab::Log {
            let viewport: usize = self.drawn.log_viewport;
            self.logs.scroll_up(usize::MAX, viewport);
        } else {
            self.monitor.scroll = MonitorScroll { following: false, offset: 0 };
        }
    }

    pub fn jump_to_end(&mut self)
        ensures
            final(self)@ == old(self)@.jumped_to_end(),
    {
        if self.screen.focus != Focus::Logs {
            return;
        }
        if self.screen.log_tab == LogTab::Log {
            self.logs.scroll_to_bottom();
        } else {
            self.monitor.scroll = MonitorScroll::default();
        }
    }
}

/// `ctrl+f` comes before every session that owns the keyboard.
pub proof fn fullscreen_comes_first(m: Model, bytes: Option<Seq<u8>>, claimed: bool)
    ensures
        m.key_pressed(
            KeyEvent { code: KeyCode::Char('f'), modifiers: KeyModifiers::spec_control() },
            bytes,
            claimed,
        ) == m.fullscreen_toggled(),
{
}

/// `ctrl+c` quits from anywhere, whatever is open, unless a live session
/// owns it.
pub proof fn ctrl_c_quits_unless_a_session_owns_it(
    m: Model,
    bytes: Option<Seq<u8>>,
    claimed: bool,
)
    ensures
        ({
            let key = KeyEvent { code: KeyCode::Char('c'), modifiers: KeyModifiers::spec_control() };
            let after = m.key_pressed(key, bytes, claimed);
            &&& !m.monitor_active() && !m.terminal_active() && !m.run_active() ==> after
                == m.quitting()
            &&& m.monitor_active() || m.terminal_active() || m.run_active() ==> after.pending
                == m.pending
        }),
{
}

/// While a session owns the keyboard nothing on the dashboard hears a key:
/// no overlay opens and no focus moves, but for row 3's own toggle.
pub proof fn a_live_session_takes_every_key(
    m: Model,
    key: KeyEvent,
    bytes: Option<Seq<u8>>,
    claimed: bool,
)
    requires
        m.monitor_active() || m.terminal_active(),
        !(key.modifiers.control && (key.code == KeyCode::Char('f') || key.code == KeyCode::Char(
            'F',
        ))),
    ensures
        ({
            let after = m.key_pressed(key, bytes, claimed);
            &&& after.overlay == m.overlay
            &&& after.screen == m.screen
            &&& after.pending == m.pending
        }),
{
}

/// A device session gets each key as its bytes, and nothing else: the stop
/// chord alone is kept back.
pub proof fn the_monitor_gets_the_keys_bytes(
    m: Model,
    key: KeyEvent,
    id: u64,
    shell: Option<Seq<u8>>,
)
    requires
        m.monitor_active(),
        m.monitor.device == Some(id),
        !(key.modifiers.control && (key.code == KeyCode::Char('f') || key.code == KeyCode::Char(
            'F',
        ))),
        !is_escape_chord(key),
        input::key_bytes(key) is Some,
    ensures
        m.key_pressed(key, shell, false) == m.emit(
            Effect::Stdin { id, bytes: input::key_bytes(key).unwrap() },
        ),
{
}

/// Detaching leaves the shell running, and gives the keyboard back.
pub proof fn detaching_keeps_the_shell(m: Model, key: KeyEvent, bytes: Option<Seq<u8>>)
    requires
        m.terminal_active(),
        !m.monitor_active(),
        is_escape_chord(key),
    ensures
        m.key_pressed(key, bytes, false).terminal.process == m.terminal.process,
        !m.key_pressed(key, bytes, false).terminal_active(),
        m.key_pressed(key, bytes, false).effects == m.effects,
{
}

proof fn esc_is_no_command(m: Model)
    ensures
        m.walking_key(KeyEvent::spec_plain(KeyCode::Esc)) is None,
        m.command_key(KeyEvent::spec_plain(KeyCode::Esc)) is None,
{
    let esc = KeyEvent::spec_plain(KeyCode::Esc);
    assert(m.walking_key(esc) is None) by {
        reveal(Model::walking_key);
    }
    assert(m.command_key(esc) is None) by {
        reveal(Model::command_key);
    }
}

/// Everything that `Esc` leaves alone, the effects aside.
spec fn esc_kept(before: Model, after: Model) -> bool {
    &&& after.pending == before.pending
    &&& after.overlay == before.overlay
    &&& after.screen == before.screen
}

proof fn esc_in_a_pane(m: Model)
    ensures
        m.log_key(KeyEvent::spec_plain(KeyCode::Esc)) == m,
        m.build_key(KeyEvent::spec_plain(KeyCode::Esc)) == m,
        m.flash_pane_key(KeyEvent::spec_plain(KeyCode::Esc)) == m,
        m.device_info_key(KeyEvent::spec_plain(KeyCode::Esc)) == m,
        esc_kept(m, m.project_key(KeyEvent::spec_plain(KeyCode::Esc))),
        esc_kept(m, m.files_key(KeyEvent::spec_plain(KeyCode::Esc))),
        m.files_key(KeyEvent::spec_plain(KeyCode::Esc)).effects == m.effects,
{
    let esc = KeyEvent::spec_plain(KeyCode::Esc);
    assert(m.log_key(esc) == m) by {
        reveal(Model::log_key);
    }
    assert(m.build_key(esc) == m) by {
        reveal(Model::build_key);
    }
    assert(m.flash_pane_key(esc) == m) by {
        reveal(Model::flash_pane_key);
    }
    assert(esc_kept(m, m.project_key(esc))) by {
        reveal(Model::project_key);
    }
    assert(esc_kept(m, m.files_key(esc)) && m.files_key(esc).effects == m.effects) by {
        reveal(Model::files_key);
    }
}

/// A reflex `Esc` on the dashboard never ends the session, opens nothing and
/// moves nothing, whichever pane has the focus. The Project and the Workspace
/// pane hand it on; from any other nothing is asked of the world.
pub proof fn esc_never_quits_the_dashboard(m: Model, claimed: bool)
    ensures
        ({
            let after = m.dashboard_key(KeyEvent::spec_plain(KeyCode::Esc), claimed);
            &&& after.pending == m.pending
            &&& after.overlay == m.overlay
            &&& after.screen == m.screen
            &&& m.screen.focus != Focus::Project && m.screen.focus != Focus::Workspace
                ==> after.effects == m.effects
        }),
{
    let esc = KeyEvent::spec_plain(KeyCode::Esc);
    esc_is_no_command(m);
    esc_in_a_pane(m);
    let after = m.pane_key(esc);
    assert(esc_kept(m, after) && (m.screen.focus != Focus::Project && m.screen.focus
        != Focus::Workspace ==> after.effects == m.effects)) by {
        reveal(Model::pane_key);
    }
    assert(m.dashboard_key(esc, claimed) == if claimed {
        m
    } else {
        after
    }) by {
        reveal(Model::dashboard_key);
    }
}

/// `Enter` on the board row opens the picker of the half that is chosen.
pub proof fn the_board_row_opens_the_chosen_half(m: Model)
    requires
        m.on_board_row(),
    ensures
        ({
            let after = m.project_key(KeyEvent::spec_plain(KeyCode::Enter));
            &&& after.overlay is Some
            &&& m.screen.board_segment ==> after.overlay.unwrap() is BoardPicker
            &&& !m.screen.board_segment ==> after.overlay.unwrap() is ShieldPicker
        }),
{
    reveal(Model::project_key);
}

/// Restarting the device asks first, with No highlighted.
pub proof fn restarting_asks_first(m: Model)
    requires
        m.caps().reset,
    ensures
        m.dashboard_key(KeyEvent::spec_plain(KeyCode::Char('R')), false) == m.shown(
            Overlay::ConfirmRestartDevice { confirm: false },
        ),
{
    reveal(Model::dashboard_key);
    reveal(Model::walking_key);
    reveal(Model::command_key);
}

} // verus!
