//! Where the cursor is, and every way it moves between panes.
//!
//! `Tab` walks the working panes in order, `ctrl+←/→` and `ctrl+↑/↓` step by
//! geometry, and `1`..`5` jump straight to a pane by the number its title
//! carries. Which panes exist at all is capability-driven.

use vstd::prelude::*;

use crate::app::{App, DevicePaneTab, Focus, LogTab, Model, Screen, Terminal};
use crate::backend::Capability;
use crate::effect::{Effect, Task};
use crate::geometry;
use crate::geometry::{wrapped_down, wrapped_up};
use crate::panels::FlashPanel;

verus! {

/// Which dashboard row a pane lives in.
pub open spec fn row_of(focus: Focus) -> u8 {
    match focus {
        Focus::Project | Focus::DeviceInfo => 1,
        Focus::FilesLocal | Focus::FilesDevice | Focus::Workspace | Focus::Build => 2,
        Focus::Logs => 3,
    }
}

/// Which half of its row a pane occupies: the right one, or the left. Row 3
/// has no halves.
pub open spec fn column_of(focus: Focus) -> Option<bool> {
    match focus {
        Focus::Project | Focus::FilesLocal | Focus::Workspace => Some(false),
        Focus::DeviceInfo | Focus::FilesDevice | Focus::Build => Some(true),
        Focus::Logs => None,
    }
}

/// The other pane of a row.
pub open spec fn sibling_of(focus: Focus) -> Option<Focus> {
    match focus {
        Focus::Project => Some(Focus::DeviceInfo),
        Focus::DeviceInfo => Some(Focus::Project),
        Focus::FilesLocal => Some(Focus::FilesDevice),
        Focus::FilesDevice => Some(Focus::FilesLocal),
        Focus::Workspace => Some(Focus::Build),
        Focus::Build => Some(Focus::Workspace),
        Focus::Logs => None,
    }
}

/// The place of `focus` in `order`.
pub open spec fn place_in(order: Seq<Focus>, focus: Focus) -> Option<int>
    decreases order.len(),
{
    if order.len() == 0 {
        None
    } else if order[0] == focus {
        Some(0)
    } else {
        match place_in(order.drop_first(), focus) {
            Some(i) => Some(i + 1),
            None => None,
        }
    }
}

/// The stop after (or before) `focus` on the tour `order`: round the ends,
/// and onto an end from a pane off the tour.
pub open spec fn next_stop(order: Seq<Focus>, focus: Focus, forward: bool) -> Focus {
    let len = order.len() as int;
    match place_in(order, focus) {
        None => if forward {
            order[0]
        } else {
            order[len - 1]
        },
        Some(i) => if forward {
            order[geometry::wrap_down(i, len)]
        } else {
            order[geometry::wrap_up(i, len)]
        },
    }
}

impl Model {
    /// A build panel belongs to the backend: it builds, and there is no
    /// device filesystem to show instead.
    pub open spec fn builds(self) -> bool {
        self.caps().build && !self.caps().filesystem
    }

    pub open spec fn build_shown(self) -> bool {
        self.panels.build is Some && self.builds()
    }

    pub open spec fn workspace_shown(self) -> bool {
        self.panels.workspace is Some && self.caps().workspace_sync && !self.caps().filesystem
    }

    /// Row 2 shows the file browser.
    pub open spec fn browser_shown(self) -> bool {
        !self.builds() && self.panels.browser is Some
    }

    /// The device pane can host the actions tab.
    pub open spec fn actions_available(self) -> bool {
        self.panels.browser is Some && self.caps().filesystem && (self.caps().flash
            || self.caps().erase_flash)
    }

    pub open spec fn actions_active(self) -> bool {
        self.screen.device_pane_tab == DevicePaneTab::Actions && self.actions_available()
    }

    pub open spec fn fullscreen_toggled(self) -> Model {
        self.with_screen(
            Screen {
                row3_fullscreen: !self.screen.row3_fullscreen,
                focus: if self.screen.row3_fullscreen {
                    self.screen.focus
                } else {
                    Focus::Logs
                },
                ..self.screen
            },
        )
    }

    /// The stops of the `Tab` tour, in order.
    pub open spec fn tour(self) -> Seq<Focus> {
        let files = if self.browser_shown() {
            if self.caps().filesystem {
                seq![Focus::FilesLocal, Focus::FilesDevice]
            } else {
                seq![Focus::FilesLocal]
            }
        } else {
            Seq::empty()
        };
        let workspace = if self.workspace_shown() {
            seq![Focus::Workspace]
        } else {
            Seq::empty()
        };
        let build = if self.build_shown() {
            seq![Focus::Build]
        } else {
            Seq::empty()
        };
        files + workspace + build + seq![Focus::Logs]
    }

    pub open spec fn focus_stepped(self, forward: bool) -> Model {
        self.focused(next_stop(self.tour(), self.screen.focus, forward))
    }

    /// The number a pane's title carries; none for a pane that cannot be
    /// focused right now.
    pub open spec fn number_of(self, focus: Focus) -> Option<u8> {
        match focus {
            Focus::Project => if self.project.rows@.len() > 0 {
                Some(1u8)
            } else {
                None
            },
            Focus::DeviceInfo => Some(2u8),
            Focus::FilesLocal => if self.browser_shown() {
                Some(3u8)
            } else {
                None
            },
            Focus::Workspace => if self.workspace_shown() {
                Some(3u8)
            } else {
                None
            },
            Focus::FilesDevice => if self.browser_shown() && self.caps().filesystem {
                Some(4u8)
            } else {
                None
            },
            Focus::Build => if self.build_shown() {
                Some(4u8)
            } else {
                None
            },
            Focus::Logs => Some(5u8),
        }
    }

    /// The pane a digit jumps to.
    pub open spec fn pane_numbered(self, number: u8) -> Option<Focus> {
        if self.number_of(Focus::Project) == Some(number) {
            Some(Focus::Project)
        } else if self.number_of(Focus::DeviceInfo) == Some(number) {
            Some(Focus::DeviceInfo)
        } else if self.number_of(Focus::FilesLocal) == Some(number) {
            Some(Focus::FilesLocal)
        } else if self.number_of(Focus::Workspace) == Some(number) {
            Some(Focus::Workspace)
        } else if self.number_of(Focus::FilesDevice) == Some(number) {
            Some(Focus::FilesDevice)
        } else if self.number_of(Focus::Build) == Some(number) {
            Some(Focus::Build)
        } else if self.number_of(Focus::Logs) == Some(number) {
            Some(Focus::Logs)
        } else {
            None
        }
    }

    /// The focusable pane of a row, in the half asked for where there is one.
    pub open spec fn pane_in_row(self, row: int, right: bool) -> Option<Focus> {
        if row == 1 {
            if right || self.project.rows@.len() == 0 {
                Some(Focus::DeviceInfo)
            } else {
                Some(Focus::Project)
            }
        } else if row == 2 {
            let device = self.browser_shown() && self.caps().filesystem;
            if right && device {
                Some(Focus::FilesDevice)
            } else if right && self.build_shown() {
                Some(Focus::Build)
            } else if self.browser_shown() {
                Some(Focus::FilesLocal)
            } else if self.workspace_shown() {
                Some(Focus::Workspace)
            } else if self.build_shown() {
                Some(Focus::Build)
            } else {
                None
            }
        } else if row == 3 {
            Some(Focus::Logs)
        } else {
            None
        }
    }

    /// The nearest row below (or above) with a focusable pane, in the same
    /// half of the screen.
    pub open spec fn pane_vertically(self, row: int, right: bool, down: bool) -> Option<Focus>
        decreases
            if down {
                4 - row
            } else {
                row
            },
    {
        if row < 1 || row > 3 {
            None
        } else {
            match self.pane_in_row(row, right) {
                Some(focus) => Some(focus),
                None => self.pane_vertically(
                    if down {
                        row + 1
                    } else {
                        row - 1
                    },
                    right,
                    down,
                ),
            }
        }
    }

    pub open spec fn focus_vertical(self, down: bool) -> Model {
        let row = row_of(self.screen.focus) as int;
        let right = column_of(self.screen.focus) == Some(true);
        match self.pane_vertically(
            if down {
                row + 1
            } else {
                row - 1
            },
            right,
            down,
        ) {
            Some(focus) => self.focused(focus),
            None => self,
        }
    }

    /// Whether the backend has flash actions.
    pub open spec fn flashes(self) -> bool {
        self.caps().flash || self.caps().erase_flash
    }

    /// The flash panel created, when the backend has flash actions and there
    /// is none yet.
    pub open spec fn flash_ensured(self) -> Model {
        if self.flashes() && self.flash is None {
            self.task(
                Task::CreateFlashPanel {
                    root: self.project.manager.spec_dir(),
                    firmware_dir: self.caps().device_info || self.caps().erase_flash,
                },
            ).with_flash(FlashPanel::<Seq<char>>::fresh())
        } else {
            self
        }
    }

    /// The device pane on its actions tab.
    pub open spec fn actions_shown(self) -> Model {
        let m = self.flash_ensured();
        if self.flashes() {
            m.with_screen(Screen { device_pane_tab: DevicePaneTab::Actions, ..m.screen })
        } else {
            m
        }
    }

    /// One stop to the side: through a tabbed device pane's tabs, and to the
    /// pane beside. Never round an end.
    pub open spec fn focus_horizontal(self, right: bool) -> Model {
        let on_strip = self.screen.focus == Focus::FilesDevice && self.actions_available();
        if self.screen.row3_fullscreen {
            self
        } else if on_strip && right {
            if self.screen.device_pane_tab == DevicePaneTab::Actions {
                self.with_screen(Screen { device_pane_tab: DevicePaneTab::Files, ..self.screen })
            } else {
                self
            }
        } else if on_strip && self.screen.device_pane_tab == DevicePaneTab::Files {
            self.actions_shown()
        } else {
            match sibling_of(self.screen.focus) {
                Some(sibling) => if column_of(self.screen.focus) == Some(!right)
                    && self.number_of(sibling) is Some {
                    let m = self.focused(sibling);
                    if sibling == Focus::FilesDevice && m.actions_available() {
                        m.actions_shown()
                    } else {
                        m
                    }
                } else {
                    self
                },
                None => self,
            }
        }
    }

    /// Row 3's tabs, in order.
    pub open spec fn log_tabs(self) -> Seq<LogTab> {
        if self.caps().monitor {
            seq![LogTab::Log, LogTab::Monitor, LogTab::Terminal]
        } else {
            seq![LogTab::Log, LogTab::Terminal]
        }
    }

    /// The Terminal tab showing, its shell attached, and started where none
    /// runs.
    pub open spec fn terminal_shown(self) -> Model {
        let m = self.with_screen(
            Screen { log_tab: LogTab::Terminal, ..self.screen },
        ).with_terminal(Terminal { detached: false, ..self.terminal });
        if self.terminal.process is None {
            m.task(Task::SpawnShell)
        } else {
            m
        }
    }

    pub open spec fn log_tab_selected(self, tab: LogTab) -> Model {
        if tab == LogTab::Terminal {
            self.terminal_shown()
        } else {
            self.with_screen(Screen { log_tab: tab, ..self.screen })
        }
    }

    /// The tab one step along row 3's strip, `None` at its ends.
    pub open spec fn tab_beside(self, forward: bool) -> Option<LogTab> {
        match (self.screen.log_tab, forward) {
            (LogTab::Log, true) => if self.caps().monitor {
                Some(LogTab::Monitor)
            } else {
                Some(LogTab::Terminal)
            },
            (LogTab::Log, false) => None,
            // Off the strip, a step starts from its first tab.
            (LogTab::Monitor, true) => Some(LogTab::Terminal),
            (LogTab::Monitor, false) => if self.caps().monitor {
                Some(LogTab::Log)
            } else {
                None
            },
            (LogTab::Terminal, true) => None,
            (LogTab::Terminal, false) => if self.caps().monitor {
                Some(LogTab::Monitor)
            } else {
                Some(LogTab::Log)
            },
        }
    }

    pub open spec fn log_tab_switched(self, forward: bool) -> Model {
        match self.tab_beside(forward) {
            Some(tab) => self.log_tab_selected(tab),
            None => self,
        }
    }

    /// The `ctrl+←/→` chord: row 3's own strip, or the stop beside.
    pub open spec fn strip_switched(self, forward: bool) -> Model {
        if self.screen.focus == Focus::Logs {
            self.log_tab_switched(forward)
        } else {
            self.focus_horizontal(forward)
        }
    }

    pub open spec fn project_focused(self) -> Model {
        if self.screen.focus == Focus::Project || self.project.rows@.len() == 0 {
            self
        } else {
            self.with_screen(
                Screen {
                    focus: Focus::Project,
                    project_cursor: self.project.first_open_row,
                    ..self.screen
                },
            )
        }
    }

    pub open spec fn fallback(self) -> Focus {
        if self.browser_shown() {
            Focus::FilesLocal
        } else if self.workspace_shown() {
            Focus::Workspace
        } else if self.build_shown() {
            Focus::Build
        } else {
            Focus::Logs
        }
    }

    /// The focused pane is gone.
    pub open spec fn focus_lost(self) -> bool {
        match self.screen.focus {
            Focus::Project => self.project.rows@.len() == 0,
            Focus::DeviceInfo => false,
            Focus::FilesDevice => self.builds() || !self.caps().filesystem,
            Focus::FilesLocal => !self.browser_shown(),
            Focus::Workspace => !self.workspace_shown(),
            Focus::Build => !self.build_shown(),
            Focus::Logs => false,
        }
    }

    pub open spec fn focus_clamped(self) -> Model {
        if self.focus_lost() {
            self.focused(self.fallback())
        } else {
            self
        }
    }
}

impl App {
    /// Whether row 2's right half shows the build panel.
    pub fn build_pane_visible(&self) -> (r: bool)
        ensures
            r == self@.build_shown(),
    {
        self.panels.build.is_some() && self.build_pane_visible_precondition()
    }

    /// Whether a build panel belongs to this backend at all.
    pub fn build_pane_visible_precondition(&self) -> (r: bool)
        ensures
            r == self@.builds(),
    {
        let caps = self.capabilities();
        caps.contains(Capability::Build) && !caps.contains(Capability::Filesystem)
    }

    /// Whether row 2's left half shows the workspace pane.
    pub fn workspace_pane_visible(&self) -> (r: bool)
        ensures
            r == self@.workspace_shown(),
    {
        let caps = self.capabilities();
        self.panels.workspace.is_some() && caps.contains(Capability::WorkspaceSync)
            && !caps.contains(Capability::Filesystem)
    }

    fn browser_row(&self) -> (r: bool)
        ensures
            r == self@.browser_shown(),
    {
        !self.build_pane_visible_precondition() && self.panels.browser.is_some()
    }

    /// Whether the device pane can host the actions tab.
    pub fn device_actions_tab_available(&self) -> (r: bool)
        ensures
            r == self@.actions_available(),
    {
        let caps = self.capabilities();
        self.panels.browser.is_some() && caps.contains(Capability::Filesystem) && (caps.contains(
            Capability::Flash,
        ) || caps.contains(Capability::EraseFlash))
    }

    /// Whether the device pane is showing its actions tab.
    pub fn device_actions_tab_active(&self) -> (r: bool)
        ensures
            r == self@.actions_active(),
    {
        self.screen.device_pane_tab == DevicePaneTab::Actions
            && self.device_actions_tab_available()
    }

    /// `ctrl+f`: row 3 takes over the whole dashboard body, or gives it back.
    pub fn toggle_row3_fullscreen(&mut self)
        ensures
            final(self)@ == old(self)@.fullscreen_toggled(),
    {
        self.screen.row3_fullscreen = !self.screen.row3_fullscreen;
        if self.screen.row3_fullscreen {
            self.screen.focus = Focus::Logs;
        }
    }

    /// The `ctrl+←/→` chord, live from every pane.
    pub fn switch_strip_tabs(&mut self, forward: bool)
        ensures
            final(self)@ == old(self)@.strip_switched(forward),
    {
        if self.screen.focus == Focus::Logs {
            self.switch_log_tab(forward);
        } else {
            self.step_focus_horizontal(forward);
        }
    }

    /// Creates the flash panel where the backend has one and none exists;
    /// `false` when the backend has no flash actions.
    pub fn ensure_flash_panel(&mut self) -> (r: bool)
        ensures
            r == old(self)@.flashes(),
            final(self)@ == old(self)@.flash_ensured(),
    {
        let caps = self.capabilities();
        if !caps.contains(Capability::Flash) && !caps.contains(Capability::EraseFlash) {
            return false;
        }
        if self.flash.is_none() {
            let root = self.project.manager.dir();
            let firmware_dir: bool = caps.contains(Capability::DeviceInfo) || caps.contains(
                Capability::EraseFlash,
            );
            self.task(Task::CreateFlashPanel { root, firmware_dir });
            self.flash = Some(FlashPanel::new());
        }
        true
    }

    /// Switches the device pane to its actions tab, creating the panel the
    /// tab draws if nothing has yet.
    pub fn show_device_actions_tab(&mut self)
        ensures
            final(self)@ == old(self)@.actions_shown(),
    {
        if self.ensure_flash_panel() {
            self.screen.device_pane_tab = DevicePaneTab::Actions;
        }
    }

    /// Walks to the stop beside the focused one, in the arrow's direction.
    pub fn step_focus_horizontal(&mut self, right: bool)
        ensures
            final(self)@ == old(self)@.focus_horizontal(right),
    {
        if self.screen.row3_fullscreen {
            return;
        }
        if self.screen.focus == Focus::FilesDevice && self.device_actions_tab_available() {
            if right {
                if self.screen.device_pane_tab == DevicePaneTab::Actions {
                    self.screen.device_pane_tab = DevicePaneTab::Files;
                }
                return;
            }
            if self.screen.device_pane_tab == DevicePaneTab::Files {
                self.show_device_actions_tab();
                return;
            }
        }
        let sibling = match self.screen.focus {
            Focus::Project => if right {
                Focus::DeviceInfo
            } else {
                return;
            },
            Focus::DeviceInfo => if right {
                return;
            } else {
                Focus::Project
            },
            Focus::FilesLocal => if right {
                Focus::FilesDevice
            } else {
                return;
            },
            Focus::FilesDevice => if right {
                return;
            } else {
                Focus::FilesLocal
            },
            Focus::Workspace => if right {
                Focus::Build
            } else {
                return;
            },
            Focus::Build => if right {
                return;
            } else {
                Focus::Workspace
            },
            Focus::Logs => return,
        };
        if self.pane_number(sibling).is_some() {
            self.screen.focus = sibling;
            if sibling == Focus::FilesDevice && self.device_actions_tab_available() {
                self.show_device_actions_tab();
            }
        }
    }

    /// The tabs row 3 offers: `Log` and `Terminal` always, `Monitor` when
    /// the backend can monitor.
    pub fn available_log_tabs(&self) -> (r: Vec<LogTab>)
        ensures
            r@ == self@.log_tabs(),
    {
        let mut tabs: Vec<LogTab> = Vec::new();
        tabs.push(LogTab::Log);
        if self.capabilities().contains(Capability::Monitor) {
            tabs.push(LogTab::Monitor);
        }
        tabs.push(LogTab::Terminal);
        assert(tabs@ =~= self@.log_tabs());
        tabs
    }

    /// Steps row 3's strip one tab per press, clamped at the ends. A clamped
    /// step is a no-op: re-selecting the tab would re-attach a detached
    /// shell.
    pub fn switch_log_tab(&mut self, forward: bool)
        ensures
            final(self)@ == old(self)@.log_tab_switched(forward),
    {
        let monitor: bool = self.capabilities().contains(Capability::Monitor);
        let next: Option<LogTab> = match (self.screen.log_tab, forward) {
            (LogTab::Log, true) => if monitor {
                Some(LogTab::Monitor)
            } else {
                Some(LogTab::Terminal)
            },
            (LogTab::Log, false) => None,
            (LogTab::Monitor, true) => Some(LogTab::Terminal),
            (LogTab::Monitor, false) => if monitor {
                Some(LogTab::Log)
            } else {
                None
            },
            (LogTab::Terminal, true) => None,
            (LogTab::Terminal, false) => if monitor {
                Some(LogTab::Monitor)
            } else {
                Some(LogTab::Log)
            },
        };
        if let Some(tab) = next {
            self.select_log_tab(tab);
        }
    }

    pub fn select_log_tab(&mut self, tab: LogTab)
        ensures
            final(self)@ == old(self)@.log_tab_selected(tab),
    {
        if tab == LogTab::Terminal {
            self.show_terminal_tab();
        } else {
            self.screen.log_tab = tab;
        }
    }

    /// Shows the Terminal tab: the start gesture for its shell, and the
    /// re-attach point after a detach. Never moves focus.
    pub fn show_terminal_tab(&mut self)
        ensures
            final(self)@ == old(self)@.terminal_shown(),
    {
        self.screen.log_tab = LogTab::Terminal;
        self.terminal.detached = false;
        if self.terminal.process.is_none() {
            self.task(Task::SpawnShell);
        }
    }

    /// The shell asked for was started as process `id`, or could not be.
    pub fn shell_spawned(&mut self, id: Option<u64>, program: String)
        ensures
            final(self)@ == old(self)@.with_terminal(
                Terminal {
                    process: id,
                    program: Some(program),
                    detached: old(self)@.terminal.detached,
                },
            ),
    {
        self.terminal.process = id;
        self.terminal.program = Some(program);
    }

    /// Focus order for `Tab`/`BackTab`.
    pub fn focus_order(&self) -> (r: Vec<Focus>)
        ensures
            r@ == self@.tour(),
    {
        let mut order: Vec<Focus> = Vec::new();
        if self.browser_row() {
            order.push(Focus::FilesLocal);
            if self.capabilities().contains(Capability::Filesystem) {
                order.push(Focus::FilesDevice);
            }
        }
        if self.workspace_pane_visible() {
            order.push(Focus::Workspace);
        }
        if self.build_pane_visible() {
            order.push(Focus::Build);
        }
        order.push(Focus::Logs);
        assert(order@ =~= self@.tour());
        order
    }

    pub fn step_focus(&mut self, forward: bool)
        ensures
            final(self)@ == old(self)@.focus_stepped(forward),
    {
        let order = self.focus_order();
        let len: usize = order.len();
        let mut i: usize = 0;
        assert(order@.skip(0) =~= order@);
        let ghost focus = self.screen.focus;
        while i < len && order[i] != self.screen.focus
            invariant
                len == order.len(),
                i <= len,
                focus == self.screen.focus,
                place_in(order@, focus) == match place_in(order@.skip(i as int), focus) {
                    Some(k) => Some(k + i),
                    None => None,
                },
            decreases len - i,
        {
            assert(order@.skip(i as int).drop_first() =~= order@.skip(i + 1));
            i = i + 1;
        }
        proof {
            if i < len {
                assert(order@.skip(i as int)[0] == focus);
            } else {
                assert(order@.skip(i as int).len() == 0);
            }
        }
        let next: usize = if i == len {
            if forward {
                0
            } else {
                len - 1
            }
        } else if forward {
            wrapped_down(i, len)
        } else {
            wrapped_up(i, len)
        };
        proof {
            if i < len {
                geometry::wrapping_steps_undo_each_other(i as int, len as int);
            }
        }
        self.screen.focus = order[next];
    }

    /// A focusable pane's shortcut number, fixed per pane position.
    pub fn pane_number(&self, focus: Focus) -> (r: Option<u8>)
        ensures
            r == self@.number_of(focus),
    {
        let shown: bool = match focus {
            Focus::Project => self.project.rows.len() > 0,
            Focus::DeviceInfo => true,
            Focus::FilesLocal => self.browser_row(),
            Focus::Workspace => self.workspace_pane_visible(),
            Focus::FilesDevice => self.browser_row() && self.capabilities().contains(
                Capability::Filesystem,
            ),
            Focus::Build => self.build_pane_visible(),
            Focus::Logs => true,
        };
        if !shown {
            return None;
        }
        match focus {
            Focus::Project => Some(1),
            Focus::DeviceInfo => Some(2),
            Focus::FilesLocal | Focus::Workspace => Some(3),
            Focus::FilesDevice | Focus::Build => Some(4),
            Focus::Logs => Some(5),
        }
    }

    fn is_numbered(&self, focus: Focus, number: u8) -> (r: bool)
        ensures
            r == (self@.number_of(focus) == Some(number)),
    {
        match self.pane_number(focus) {
            Some(n) => n == number,
            None => false,
        }
    }

    /// The pane a digit jumps to: the visible occupant of that position.
    pub fn pane_for_number(&self, number: u8) -> (r: Option<Focus>)
        ensures
            r == self@.pane_numbered(number),
    {
        if self.is_numbered(Focus::Project, number) {
            Some(Focus::Project)
        } else if self.is_numbered(Focus::DeviceInfo, number) {
            Some(Focus::DeviceInfo)
        } else if self.is_numbered(Focus::FilesLocal, number) {
            Some(Focus::FilesLocal)
        } else if self.is_numbered(Focus::Workspace, number) {
            Some(Focus::Workspace)
        } else if self.is_numbered(Focus::FilesDevice, number) {
            Some(Focus::FilesDevice)
        } else if self.is_numbered(Focus::Build, number) {
            Some(Focus::Build)
        } else if self.is_numbered(Focus::Logs, number) {
            Some(Focus::Logs)
        } else {
            None
        }
    }

    pub fn focus_row(focus: Focus) -> (r: u8)
        ensures
            r == row_of(focus),
    {
        match focus {
            Focus::Project | Focus::DeviceInfo => 1,
            Focus::FilesLocal | Focus::FilesDevice | Focus::Workspace | Focus::Build => 2,
            Focus::Logs => 3,
        }
    }

    pub fn focus_column(focus: Focus) -> (r: Option<bool>)
        ensures
            r == column_of(focus),
    {
        match focus {
            Focus::Project | Focus::FilesLocal | Focus::Workspace => Some(false),
            Focus::DeviceInfo | Focus::FilesDevice | Focus::Build => Some(true),
            Focus::Logs => None,
        }
    }

    /// The focusable pane of a dashboard row, preferring the half `right`
    /// names.
    pub fn focusable_in_row(&self, row: u8, right: bool) -> (r: Option<Focus>)
        ensures
            r == self@.pane_in_row(row as int, right),
    {
        if row == 1 {
            if right || self.project.rows.len() == 0 {
                Some(Focus::DeviceInfo)
            } else {
                Some(Focus::Project)
            }
        } else if row == 2 {
            let device: bool = self.browser_row() && self.capabilities().contains(
                Capability::Filesystem,
            );
            if right && device {
                Some(Focus::FilesDevice)
            } else if right && self.build_pane_visible() {
                Some(Focus::Build)
            } else if self.browser_row() {
                Some(Focus::FilesLocal)
            } else if self.workspace_pane_visible() {
                Some(Focus::Workspace)
            } else if self.build_pane_visible() {
                Some(Focus::Build)
            } else {
                None
            }
        } else if row == 3 {
            Some(Focus::Logs)
        } else {
            None
        }
    }

    /// `ctrl+↓`/`ctrl+↑`: focus the pane of the nearest row below or above
    /// that has one, staying in the same half of the screen.
    pub fn step_focus_vertical(&mut self, down: bool)
        ensures
            final(self)@ == old(self)@.focus_vertical(down),
    {
        let right: bool = match Self::focus_column(self.screen.focus) {
            Some(right) => right,
            None => false,
        };
        let start: u8 = Self::focus_row(self.screen.focus);
        let mut row: u8 = if down {
            start + 1
        } else {
            start - 1
        };
        let ghost from = row as int;
        let ghost m = self@;
        while 1 <= row && row <= 3
            invariant
                0 <= row <= 4,
                self@ == m,
                m == old(self)@,
                right == (column_of(m.screen.focus) == Some(true)),
                from == if down {
                    row_of(m.screen.focus) + 1
                } else {
                    row_of(m.screen.focus) - 1
                },
                m.pane_vertically(from, right, down) == m.pane_vertically(row as int, right, down),
            decreases
                    if down {
                        4 - row
                    } else {
                        row as int
                    },
        {
            if let Some(focus) = self.focusable_in_row(row, right) {
                self.screen.focus = focus;
                return;
            }
            row = if down {
                row + 1
            } else {
                row - 1
            };
        }
    }

    /// The Project pane's way in, landing on the first question still open.
    pub fn focus_project(&mut self)
        ensures
            final(self)@ == old(self)@.project_focused(),
    {
        if self.screen.focus == Focus::Project || self.project.rows.len() == 0 {
            return;
        }
        self.screen.focus = Focus::Project;
        self.screen.project_cursor = self.project.first_open_row;
    }

    /// The first pane that still exists after the focused one disappeared.
    pub fn fallback_pane(&self) -> (r: Focus)
        ensures
            r == self@.fallback(),
    {
        if self.browser_row() {
            Focus::FilesLocal
        } else if self.workspace_pane_visible() {
            Focus::Workspace
        } else if self.build_pane_visible() {
            Focus::Build
        } else {
            Focus::Logs
        }
    }

    /// Pulls focus back onto a pane that still exists.
    pub fn clamp_focus(&mut self)
        ensures
            final(self)@ == old(self)@.focus_clamped(),
    {
        let lost: bool = match self.screen.focus {
            Focus::Project => self.project.rows.len() == 0,
            Focus::DeviceInfo => false,
            Focus::FilesDevice => self.build_pane_visible_precondition()
                || !self.capabilities().contains(Capability::Filesystem),
            Focus::FilesLocal => !self.browser_row(),
            Focus::Workspace => !self.workspace_pane_visible(),
            Focus::Build => !self.build_pane_visible(),
            Focus::Logs => false,
        };
        if lost {
            let focus = self.fallback_pane();
            self.screen.focus = focus;
        }
    }
}

/// The tour's stops are distinct, and it ends at row 3.
pub proof fn the_tour_ends_at_the_logs(m: Model)
    ensures
        m.tour().len() > 0,
        m.tour().last() == Focus::Logs,
        forall|i: int, j: int|
            0 <= i < j < m.tour().len() ==> #[trigger] m.tour()[i] != #[trigger] m.tour()[j],
{
}

proof fn place_is_found(order: Seq<Focus>, i: int)
    requires
        0 <= i < order.len(),
        forall|a: int, b: int| 0 <= a < b < order.len() ==> order[a] != order[b],
    ensures
        place_in(order, order[i]) == Some(i),
    decreases order.len(),
{
    if i > 0 {
        let rest = order.drop_first();
        assert(rest[i - 1] == order[i]);
        assert forall|a: int, b: int| 0 <= a < b < rest.len() implies rest[a] != rest[b] by {
            assert(rest[a] == order[a + 1] && rest[b] == order[b + 1]);
        }
        place_is_found(rest, i - 1);
    }
}

proof fn place_is_a_place(order: Seq<Focus>, focus: Focus)
    ensures
        place_in(order, focus) matches Some(i) ==> 0 <= i < order.len() && order[i] == focus,
        place_in(order, focus) is None ==> !order.contains(focus),
    decreases order.len(),
{
    if order.len() > 0 && order[0] != focus {
        place_is_a_place(order.drop_first(), focus);
        if order.contains(focus) {
            let k = choose|k: int| 0 <= k < order.len() && order[k] == focus;
            assert(order.drop_first()[k - 1] == focus);
        }
    }
}

/// `Tab` and `BackTab` land on the tour, from wherever they are pressed.
pub proof fn tab_lands_on_the_tour(m: Model, forward: bool)
    ensures
        m.tour().contains(m.focus_stepped(forward).screen.focus),
{
    let order = m.tour();
    let len = order.len() as int;
    place_is_a_place(order, m.screen.focus);
    if let Some(i) = place_in(order, m.screen.focus) {
        geometry::wrapping_steps_undo_each_other(i, len);
        assert(order.contains(order[geometry::wrap_down(i, len)]));
        assert(order.contains(order[geometry::wrap_up(i, len)]));
    } else {
        assert(order.contains(order[0]));
        assert(order.contains(order[len - 1]));
    }
}

/// `BackTab` undoes `Tab`, and `Tab` undoes `BackTab`, on the tour.
pub proof fn tab_and_backtab_undo_each_other(m: Model, forward: bool)
    requires
        m.tour().contains(m.screen.focus),
    ensures
        m.focus_stepped(forward).focus_stepped(!forward) == m,
{
    let order = m.tour();
    let len = order.len() as int;
    place_is_a_place(order, m.screen.focus);
    let i = place_in(order, m.screen.focus).unwrap();
    geometry::wrapping_steps_undo_each_other(i, len);
    the_tour_ends_at_the_logs(m);
    let next = m.focus_stepped(forward);
    assert(next.tour() =~= order);
    place_is_found(order, geometry::wrap_down(i, len));
    place_is_found(order, geometry::wrap_up(i, len));
}

/// Nothing but the focus moves on a `Tab`.
pub proof fn tab_moves_nothing_but_the_focus(m: Model, forward: bool)
    ensures
        m.focus_stepped(forward) == m.focused(m.focus_stepped(forward).screen.focus),
{
}

/// A digit jumps to the pane whose title carries it: the number of a
/// numbered pane leads back to that pane, and only numbered panes answer.
pub proof fn digits_and_pane_numbers_agree(m: Model, focus: Focus, number: u8)
    ensures
        m.number_of(focus) matches Some(n) ==> m.pane_numbered(n) == Some(focus),
        m.pane_numbered(number) matches Some(f) ==> m.number_of(f) == Some(number),
        m.number_of(focus) matches Some(n) ==> 1 <= n <= 5,
{
}

/// A clamp lands on a pane that exists, and leaves one that does alone.
pub proof fn a_clamp_lands_on_an_existing_pane(m: Model)
    ensures
        !m.focus_clamped().focus_lost(),
        !m.focus_lost() ==> m.focus_clamped() == m,
        m.focus_lost() ==> m.tour().contains(m.focus_clamped().screen.focus),
{
    assert(m.tour().last() == Focus::Logs);
    if m.browser_shown() {
        assert(m.tour()[0] == Focus::FilesLocal);
    } else if m.workspace_shown() {
        assert(m.tour()[0] == Focus::Workspace);
    } else if m.build_shown() {
        assert(m.tour()[0] == Focus::Build);
    }
}

/// The horizontal walk never wraps: from a row's right pane a step right
/// leaves the focus where it is, from its left pane a step left does.
pub proof fn the_horizontal_walk_never_wraps(m: Model, right: bool)
    requires
        column_of(m.screen.focus) == Some(right),
    ensures
        m.focus_horizontal(right).screen.focus == m.screen.focus,
{
}

/// While row 3 is fullscreen the horizontal walk goes nowhere.
pub proof fn fullscreen_stops_the_horizontal_walk(m: Model, right: bool)
    requires
        m.screen.row3_fullscreen,
    ensures
        m.focus_horizontal(right) == m,
{
}

/// The horizontal walk stays in its row.
pub proof fn the_horizontal_walk_stays_in_its_row(m: Model, right: bool)
    ensures
        row_of(m.focus_horizontal(right).screen.focus) == row_of(m.screen.focus),
{
}

/// In a row without tabs a step to the side and back is none.
pub proof fn horizontal_steps_undo_each_other(m: Model, right: bool)
    requires
        !m.actions_available(),
        !m.screen.row3_fullscreen,
        m.number_of(m.screen.focus) is Some,
        m.focus_horizontal(right).screen.focus != m.screen.focus,
    ensures
        m.focus_horizontal(right).focus_horizontal(!right) == m,
{
}

/// The vertical walk moves towards the arrow, never away from it and never
/// to a pane that cannot be focused; it stays in its half where that half
/// has a pane.
pub proof fn the_vertical_walk_follows_the_arrow(m: Model, down: bool)
    ensures
        ({
            let to = m.focus_vertical(down).screen.focus;
            &&& to != m.screen.focus ==> m.number_of(to) is Some
            &&& down ==> row_of(to) >= row_of(m.screen.focus)
            &&& !down ==> row_of(to) <= row_of(m.screen.focus)
            &&& (to != m.screen.focus && column_of(m.screen.focus) == Some(true) && row_of(to) == 1)
                ==> to == Focus::DeviceInfo
        }),
{
    reveal_with_fuel(Model::pane_vertically, 4);
}

/// `ctrl+f` twice leaves row 3 as it was.
pub proof fn fullscreen_toggles(m: Model)
    ensures
        m.fullscreen_toggled().fullscreen_toggled().screen.row3_fullscreen
            == m.screen.row3_fullscreen,
        m.fullscreen_toggled().screen.row3_fullscreen ==> m.fullscreen_toggled().screen.focus
            == Focus::Logs,
{
}

/// Row 3's strip never wraps, and one step back undoes one step along it.
pub proof fn log_tabs_step_and_clamp(m: Model, forward: bool)
    requires
        m.log_tabs().contains(m.screen.log_tab),
    ensures
        m.tab_beside(forward) matches Some(tab) ==> m.log_tabs().contains(tab) && m.log_tab_selected(
            tab,
        ).tab_beside(!forward) == Some(m.screen.log_tab),
        m.tab_beside(true) is None == (m.screen.log_tab == m.log_tabs().last()),
        m.tab_beside(false) is None == (m.screen.log_tab == m.log_tabs().first()),
{
    let tabs = m.log_tabs();
    assert(tabs[0] == LogTab::Log);
    assert(tabs.last() == LogTab::Terminal);
    assert(tabs.contains(tabs[0]) && tabs.contains(tabs[1]) && tabs.contains(tabs.last()));
}

/// Entering the Terminal tab never moves focus, and starts a shell only
/// where none runs.
pub proof fn the_terminal_tab_starts_one_shell(m: Model)
    ensures
        m.terminal_shown().screen.focus == m.screen.focus,
        m.terminal.process is Some ==> m.terminal_shown().effects == m.effects,
        m.terminal.process is None ==> m.terminal_shown().effects == m.effects.push(
            Effect::Task(Task::SpawnShell),
        ),
{
}

} // verus!
