//! Mouse gestures: another trigger for what the keyboard already owns. A
//! click focuses, selects and presses through the handlers the keys reach;
//! a wheel step moves what is under the pointer and never the focus.

use vstd::prelude::*;
use vstd::view::View as _;
use vstd::string::*;

use crate::app;
use crate::app::{
    App, DevicePaneTab, DocsFocus, Focus, Glyphs, LogTab, Model, Panels, ProjectRow, Screen, View,
};
use crate::app::build_dashboard_view;
use crate::app::build_view::clone_opt;
use crate::app::file_browser::FileAction;
use crate::app::keys::KeyInput;
use crate::app::overlay_keys::{Catalogue, ZEPHYR_ACTIONS_COUNT};
use crate::backend::BACKEND_COUNT;
use crate::geometry;
use crate::geometry::{
    Point, Rect, bare_list_row, confirm_answer_at, confirm_buttons, dashboard_list_row,
    docs_list_row, drawn_list_row, inner_row, inner_shrink, list_row, stepped, tab_under,
};
use crate::input::{KeyCode, KeyEvent, KeyModifiers, MouseEvent, MouseEventKind};
use crate::overlay::Overlay;
use crate::panels::{
    Browser, BuildAction, BuildPanel, FLASH_ACTION_COUNT, FlashPaneAction, FlashPanel, FlashScreen,
    OptionsField, Packages, PaneState, Side, TOOLCHAIN_COUNT, WorkspacePanel, filtered_names,
};
use crate::text;
use crate::theme::THEME_COUNT;

verus! {

broadcast use crate::overlay::group_overlay_models;

/// Rows a wheel step scrolls: a nudge, not a page.
pub const WHEEL_STEP: usize = 3;

/// How long after a click the same row's second click counts as a double
/// click, in milliseconds.
pub const DOUBLE_CLICK: u64 = 400;

/// What the right half of the browser row shows.
#[derive(Debug, Clone, Copy, PartialEq, Eq, Structural)]
pub enum RightKind {
    Device,
    Build,
    NoDevice,
}

/// The dashboard's second row.
#[derive(Debug, Clone, Copy, PartialEq, Eq, Structural)]
pub enum Row2 {
    WorkspaceBuild { workspace: Rect, build: Rect },
    Browser { local: Rect, right: Rect, kind: RightKind },
    Placeholder,
}

/// Where the dashboard's panes were drawn.
#[derive(Debug, Clone, Copy, PartialEq, Eq, Structural)]
pub struct DashboardAreas {
    pub project: Rect,
    pub device: Rect,
    pub row2: Row2,
    pub row3: Rect,
}

/// Where a window with a list and details was drawn.
#[derive(Debug, Clone, Copy, PartialEq, Eq, Structural)]
pub struct SplitAreas {
    pub popup: Rect,
    pub list: Rect,
    pub details: Rect,
}

/// What the last frame drew, as far as a pointer can meet it.
#[derive(Debug, Clone)]
pub struct Frame {
    pub areas: DashboardAreas,
    /// The open dialog.
    pub popup: Rect,
    /// The board and shield pickers.
    pub docs: SplitAreas,
    pub packages: SplitAreas,
    /// The build dashboard.
    pub dashboard: SplitAreas,
    /// The flash dialog.
    pub flash: Rect,
    /// The project's name in the header.
    pub header_name: Option<Rect>,
    /// The device pane's row that shows the MAC.
    pub mac_row: Option<usize>,
    /// The pointer is over the board's half of the merged row.
    pub board_half: bool,
    /// The stacked button on the pointer's row.
    pub button: Option<usize>,
    /// Rows the directory picker lists.
    pub dir_rows: usize,
    /// The fields of the flash options.
    pub fields: Vec<OptionsField>,
    /// The width of the installer's footer button.
    pub stop_width: u16,
}

/// A gesture, the frame it meets, and when in milliseconds.
pub struct MouseInput {
    pub event: MouseEvent,
    pub frame: Frame,
    pub now: u64,
}

impl SplitAreas {
    pub open spec fn fits(self) -> bool {
        self.popup.fits() && self.list.fits() && self.details.fits()
    }
}

impl Frame {
    /// Whether every rectangle lies on cells a terminal can number.
    pub open spec fn fits(self) -> bool {
        self.popup.fits() && self.docs.fits() && self.packages.fits() && self.dashboard.fits()
            && self.flash.fits()
    }
}

/// A pane's title with its mark, which an empty mark leaves out with its
/// gap.
pub open spec fn marked(glyph: Seq<char>, title: Seq<char>) -> Seq<char> {
    if glyph.len() == 0 {
        title
    } else {
        glyph + " "@ + title
    }
}

fn pane_title(glyph: &str, title: &str) -> (r: String)
    ensures
        r@ == marked(glyph@, title@),
{
    if glyph.unicode_len() == 0 {
        title.to_owned()
    } else {
        text::join3(glyph, " ", title)
    }
}

/// A strip's first title carries the pane's number.
pub open spec fn numbered(number: Option<u8>, first: bool, title: Seq<char>) -> Seq<char> {
    match number {
        Some(n) => if first {
            text::decimal(n as nat) + " "@ + title
        } else {
            title
        },
        None => title,
    }
}

fn number_title(number: Option<u8>, first: bool, title: String) -> (r: String)
    ensures
        r@ == numbered(number, first, title@),
{
    match number {
        Some(n) => if first {
            let digits = text::decimal_of(n as u64);
            text::join3(digits.as_str(), " ", title.as_str())
        } else {
            title
        },
        None => title,
    }
}

pub open spec fn log_title(glyphs: Glyphs, tab: LogTab) -> Seq<char> {
    match tab {
        LogTab::Log => marked(glyphs.list@, "Log"@),
        LogTab::Monitor => marked(glyphs.screen@, "Monitor"@),
        LogTab::Terminal => marked(glyphs.prompt@, "Terminal"@),
    }
}

/// The installer's footer button: in the modal's last three inner rows, on
/// the right.
pub open spec fn footer_button(popup: Rect, stop_width: u16) -> Rect {
    let inner = popup.inside_border();
    let stop = if stop_width < inner.width {
        stop_width
    } else {
        inner.width
    };
    let above = geometry::less(inner.height, 3);
    Rect {
        x: (inner.x + inner.width - stop) as u16,
        y: (inner.y + above) as u16,
        width: stop,
        height: (inner.height - above) as u16,
    }
}

fn install_button(popup: Rect, stop_width: u16) -> (r: Rect)
    requires
        popup.fits(),
        popup.width > 0,
        popup.height > 0,
    ensures
        r == footer_button(popup, stop_width),
{
    let inner = popup.inner();
    let stop: u16 = if stop_width < inner.width {
        stop_width
    } else {
        inner.width
    };
    let above: u16 = inner.height.saturating_sub(3);
    Rect {
        x: inner.x + (inner.width - stop),
        y: inner.y + above,
        width: stop,
        height: inner.height - above,
    }
}

impl<T> Overlay<T> {
    /// The dialog's list with its cursor on `index`.
    pub open spec fn at_row(self, index: usize) -> Overlay<T> {
        match self {
            Overlay::DevicePicker { .. } => Overlay::DevicePicker { selected: index },
            Overlay::ThemePicker { .. } => Overlay::ThemePicker { selected: index },
            Overlay::FirmwarePicker { .. } => Overlay::FirmwarePicker { selected: index },
            Overlay::ProjectSetup { .. } => Overlay::ProjectSetup { selected: index },
            Overlay::RestoreDeviceScript { return_to_packages, .. } =>
                Overlay::RestoreDeviceScript { selected: index, return_to_packages },
            Overlay::FileActions { side, name, is_dir, is_text, status, .. } =>
                Overlay::FileActions { side, name, is_dir, is_text, status, selected: index },
            Overlay::DirPicker { purpose, path, error, .. } => Overlay::DirPicker {
                purpose,
                path,
                selected: index,
                error,
            },
            Overlay::ProjectPicker { mpy, error, .. } => Overlay::ProjectPicker {
                mpy,
                selected: index,
                error,
            },
            Overlay::BuildDirPicker { input, .. } => Overlay::BuildDirPicker {
                input,
                selected: index,
            },
            Overlay::SdkToolchains { .. } => Overlay::SdkToolchains { selected: index },
            Overlay::ZephyrActions { .. } => Overlay::ZephyrActions { selected: index },
            _ => self,
        }
    }

    /// The cursor of a dialog whose list a click selects in.
    pub open spec fn row(self) -> usize {
        match self {
            Overlay::DevicePicker { selected }
            | Overlay::ThemePicker { selected }
            | Overlay::FirmwarePicker { selected }
            | Overlay::ProjectSetup { selected }
            | Overlay::RestoreDeviceScript { selected, .. }
            | Overlay::FileActions { selected, .. }
            | Overlay::DirPicker { selected, .. }
            | Overlay::ProjectPicker { selected, .. }
            | Overlay::BuildDirPicker { selected, .. }
            | Overlay::SdkToolchains { selected }
            | Overlay::ZephyrActions { selected } => selected,
            _ => 0,
        }
    }
}

impl Overlay<String> {
    pub fn set_selected(self, index: usize) -> (r: Overlay)
        ensures
            r.model() == self.model().at_row(index),
    {
        reveal(Overlay::model);
        match self {
            Overlay::DevicePicker { .. } => Overlay::DevicePicker { selected: index },
            Overlay::ThemePicker { .. } => Overlay::ThemePicker { selected: index },
            Overlay::FirmwarePicker { .. } => Overlay::FirmwarePicker { selected: index },
            Overlay::ProjectSetup { .. } => Overlay::ProjectSetup { selected: index },
            Overlay::RestoreDeviceScript { return_to_packages, .. } =>
                Overlay::RestoreDeviceScript { selected: index, return_to_packages },
            Overlay::FileActions { side, name, is_dir, is_text, status, .. } =>
                Overlay::FileActions { side, name, is_dir, is_text, status, selected: index },
            Overlay::DirPicker { purpose, path, error, .. } => Overlay::DirPicker {
                purpose,
                path,
                selected: index,
                error,
            },
            Overlay::ProjectPicker { mpy, error, .. } => Overlay::ProjectPicker {
                mpy,
                selected: index,
                error,
            },
            Overlay::BuildDirPicker { input, .. } => Overlay::BuildDirPicker {
                input,
                selected: index,
            },
            Overlay::SdkToolchains { .. } => Overlay::SdkToolchains { selected: index },
            Overlay::ZephyrActions { .. } => Overlay::ZephyrActions { selected: index },
            _ => self,
        }
    }

    pub fn selected(&self) -> (r: usize)
        ensures
            r == self.model().row(),
    {
        reveal(Overlay::model);
        match self {
            Overlay::DevicePicker { selected }
            | Overlay::ThemePicker { selected }
            | Overlay::FirmwarePicker { selected }
            | Overlay::ProjectSetup { selected }
            | Overlay::RestoreDeviceScript { selected, .. }
            | Overlay::FileActions { selected, .. }
            | Overlay::DirPicker { selected, .. }
            | Overlay::ProjectPicker { selected, .. }
            | Overlay::BuildDirPicker { selected, .. }
            | Overlay::SdkToolchains { selected }
            | Overlay::ZephyrActions { selected } => *selected,
            _ => 0,
        }
    }
}

impl Model {
    /// A key handed to the keyboard's own handler.
    #[verifier::opaque]
    pub open spec fn typed(self, key: KeyEvent) -> Model {
        self.key_pressed(key, None, false)
    }

    /// Row 3's tabs and titles, in draw order.
    pub open spec fn log_strip(self) -> Seq<(LogTab, Seq<char>)> {
        let tabs = self.log_tabs();
        let number = self.number_of(Focus::Logs);
        Seq::new(
            tabs.len(),
            |i: int| (tabs[i], numbered(number, i == 0, log_title(self.prefs.glyphs, tabs[i]))),
        )
    }

    /// The device pane's tabs and titles, in draw order.
    pub open spec fn device_strip(self) -> Seq<(DevicePaneTab, Seq<char>)> {
        let number = self.number_of(Focus::FilesDevice);
        let glyphs = self.prefs.glyphs;
        seq![
            (DevicePaneTab::Actions, numbered(number, true, marked(glyphs.bolt@, "Actions"@))),
            (DevicePaneTab::Files, numbered(number, false, marked(glyphs.folder@, "Device Files"@))),
        ]
    }

    /// A click on row `index` of `pane`: the second one soon enough is the
    /// row's `Enter`.
    #[verifier::opaque]
    pub open spec fn row_clicked(self, pane: Focus, index: usize, now: u64) -> Model {
        let repeat = self.screen.last_click matches Some((p, i, at)) && p == pane && i == index
            && now < at + DOUBLE_CLICK;
        let m = self.with_screen(
            Screen {
                last_click: if repeat {
                    None
                } else {
                    Some((pane, index, now))
                },
                ..self.screen
            },
        );
        if repeat {
            m.typed(KeyEvent::spec_plain(KeyCode::Enter))
        } else {
            m
        }
    }

    /// A click on the device report: the MAC's row copies it; before
    /// anything was read a double click is the pane's `Enter`.
    #[verifier::opaque]
    pub open spec fn device_info_clicked(
        self,
        point: Point,
        rect: Rect,
        mac_row: Option<usize>,
        now: u64,
    ) -> Model {
        let m = self.focused(Focus::DeviceInfo);
        match self.flash {
            Some(flash) => if !flash.identified {
                m.row_clicked(Focus::DeviceInfo, 0, now)
            } else {
                match (flash.mac, mac_row) {
                    (Some(mac), Some(row)) => if geometry::inner_row_at(point, rect, 0, 0) == Some(
                        row as int,
                    ) {
                        m.copied("MAC"@, mac)
                    } else {
                        m
                    },
                    _ => m,
                }
            },
            None => m.row_clicked(Focus::DeviceInfo, 0, now),
        }
    }

    /// A click on the checklist: the row takes the cursor and is asked. On
    /// the merged row the half under the pointer is the one asked.
    #[verifier::opaque]
    pub open spec fn project_clicked(self, point: Point, rect: Rect, board_half: bool) -> Model {
        let rows = self.project.rows@;
        if rows.len() == 0 {
            self
        } else {
            let m = self.focused(Focus::Project);
            match geometry::inner_row_at(point, rect, 0, 0) {
                None => m,
                Some(row) => {
                    let cursor = if row < rows.len() - 1 {
                        row
                    } else {
                        rows.len() - 1
                    };
                    m.with_screen(
                        Screen {
                            project_cursor: cursor as usize,
                            board_segment: if rows[cursor] == ProjectRow::BoardShield {
                                board_half
                            } else {
                                m.screen.board_segment
                            },
                            ..m.screen
                        },
                    ).typed(KeyEvent::spec_plain(KeyCode::Enter))
                },
            }
        }
    }

    #[verifier::opaque]
    pub open spec fn local_clicked(self, point: Point, rect: Rect, now: u64) -> Model {
        let m = self.focused(Focus::FilesLocal);
        match self.panels.browser {
            None => m,
            Some(browser) => {
                let browser = Browser { focus: Side::Local, ..browser };
                match geometry::drawn_row_at(
                    point,
                    rect,
                    browser.local_offset as int,
                    browser.local_len as int,
                    0,
                    0,
                ) {
                    Some(index) => m.with_browser(
                        Browser { local_cursor: index as usize, ..browser },
                    ).row_clicked(Focus::FilesLocal, index as usize, now),
                    None => m.with_browser(browser),
                }
            },
        }
    }

    /// A click on the device's files: rows only while a listing is drawn,
    /// the last inner row being the footer.
    #[verifier::opaque]
    pub open spec fn device_clicked(self, point: Point, rect: Rect, now: u64) -> Model {
        let m = self.focused(Focus::FilesDevice);
        match self.panels.browser {
            None => m,
            Some(browser) => {
                let browser = Browser { focus: Side::Device, ..browser };
                if browser.device_state != PaneState::Ready {
                    m.with_browser(browser)
                } else {
                    match geometry::drawn_row_at(
                        point,
                        rect,
                        browser.device_offset as int,
                        browser.device_len as int,
                        0,
                        1,
                    ) {
                        Some(index) => m.with_browser(
                            Browser { device_cursor: index as usize, ..browser },
                        ).row_clicked(Focus::FilesDevice, index as usize, now),
                        None => m.with_browser(browser),
                    }
                }
            },
        }
    }

    pub open spec fn with_workspace(self, panel: WorkspacePanel) -> Model {
        self.with_panels(Panels { workspace: Some(panel), ..self.panels })
    }

    #[verifier::opaque]
    pub open spec fn workspace_clicked(self, point: Point, rect: Rect, now: u64) -> Model {
        match self.panels.workspace {
            None => self,
            Some(panel) => if panel.files_error {
                self
            } else {
                let m = self.focused(Focus::Workspace);
                match geometry::drawn_row_at(
                    point,
                    rect,
                    panel.files_offset as int,
                    panel.files_len as int,
                    0,
                    0,
                ) {
                    Some(index) => m.with_workspace(
                        WorkspacePanel { files_cursor: index as usize, ..panel },
                    ).row_clicked(Focus::Workspace, index as usize, now),
                    None => m,
                }
            },
        }
    }

    /// How many of the build panel's rows are buttons of its stack: `Stop`
    /// is drawn in the footer.
    pub open spec fn build_stack(self) -> int {
        let actions = self.panels.lists.build_actions@;
        if self.build_busy() && actions.len() > 0 && actions.last() == BuildAction::Stop {
            actions.len() - 1
        } else {
            actions.len() as int
        }
    }

    /// A click on a button of the build pane selects and presses it.
    #[verifier::opaque]
    pub open spec fn build_stack_clicked(
        self,
        point: Point,
        rect: Rect,
        button: Option<usize>,
    ) -> Model {
        let m = self.focused(Focus::Build);
        match (self.panels.build, button) {
            (Some(panel), Some(index)) => if point.1 > rect.y && index < self.build_stack() {
                m.with_build(BuildPanel { cursor: index, ..panel }).build_run(
                    self.panels.lists.build_actions@[index as int],
                )
            } else {
                m
            },
            _ => m,
        }
    }

    pub open spec fn flash_stack(self) -> int {
        let actions = self.panels.lists.pane_actions@;
        if self.flash_busy() && actions.len() > 0 && actions.last() == FlashPaneAction::Stop {
            actions.len() - 1
        } else {
            actions.len() as int
        }
    }

    #[verifier::opaque]
    pub open spec fn pane_pressed(self, action: FlashPaneAction) -> Model {
        self.pane_action_run(action)
    }

    /// A click on a button of the actions tab selects and presses it.
    #[verifier::opaque]
    pub open spec fn flash_stack_clicked(
        self,
        point: Point,
        rect: Rect,
        button: Option<usize>,
    ) -> Model {
        let m = self.focused(Focus::FilesDevice);
        match (self.flash, button) {
            (Some(_), Some(index)) => if point.1 > rect.y && index < self.flash_stack() {
                m.pane_cursor(index as int).pane_pressed(
                    self.panels.lists.pane_actions@[index as int],
                )
            } else {
                m
            },
            _ => m,
        }
    }

    /// A click on the device pane: its strip first, then the tab's content.
    #[verifier::opaque]
    pub open spec fn device_pane_clicked(
        self,
        point: Point,
        rect: Rect,
        button: Option<usize>,
        now: u64,
    ) -> Model {
        match geometry::tab_at(point, rect, self.device_strip()) {
            Some(DevicePaneTab::Files) => self.with_screen(
                Screen { device_pane_tab: DevicePaneTab::Files, ..self.screen },
            ),
            Some(DevicePaneTab::Actions) => self.actions_shown(),
            None => if self.actions_active() {
                self.flash_stack_clicked(point, rect, button)
            } else {
                self.device_clicked(point, rect, now)
            },
        }
    }

    #[verifier::opaque]
    pub open spec fn row2_clicked(
        self,
        point: Point,
        row2: Row2,
        button: Option<usize>,
        now: u64,
    ) -> Model {
        match row2 {
            Row2::WorkspaceBuild { workspace, build } => if workspace.holds(point) {
                self.workspace_clicked(point, workspace, now)
            } else if build.holds(point) {
                self.build_stack_clicked(point, build, button)
            } else {
                self
            },
            Row2::Browser { local, right, kind } => if local.holds(point) {
                self.local_clicked(point, local, now)
            } else if right.holds(point) {
                match kind {
                    RightKind::Device => self.device_pane_clicked(point, right, button, now),
                    RightKind::Build => self.build_stack_clicked(point, right, button),
                    RightKind::NoDevice => self,
                }
            } else {
                self
            },
            Row2::Placeholder => self,
        }
    }

    /// A click on row 3: a tab of its strip, or the pane.
    #[verifier::opaque]
    pub open spec fn row3_clicked(self, point: Point, row3: Rect) -> Model {
        if !row3.holds(point) {
            self
        } else {
            match geometry::tab_at(point, row3, self.log_strip()) {
                Some(tab) => self.log_tab_selected(tab),
                None => if point.1 > row3.y {
                    self.focused(Focus::Logs)
                } else {
                    self
                },
            }
        }
    }

    /// Whether the point is on the project's name in the header.
    pub open spec fn on_header(point: Point, frame: Frame) -> bool {
        &&& point.1 == geometry::less(frame.areas.project.y, 1)
        &&& frame.header_name matches Some(name) && name.holds(point)
    }

    /// A click on the dashboard; nothing while a session owns the keyboard.
    #[verifier::opaque]
    pub open spec fn clicked(self, point: Point, frame: Frame, now: u64) -> Model {
        let areas = frame.areas;
        if self.monitor_active() || self.terminal_active() {
            self
        } else if Self::on_header(point, frame) {
            self.typed(KeyEvent { code: KeyCode::Char('P'), modifiers: KeyModifiers::spec_shift() })
        } else if areas.project.holds(point) {
            self.project_clicked(point, areas.project, frame.board_half)
        } else if areas.device.holds(point) {
            self.device_info_clicked(point, areas.device, frame.mac_row, now)
        } else {
            self.row2_clicked(point, areas.row2, frame.button, now).row3_clicked(point, areas.row3)
        }
    }
}

impl App {
    fn type_key(&mut self, key: KeyEvent)
        ensures
            final(self)@ == old(self)@.typed(key),
    {
        reveal(Model::typed);
        self.on_key(KeyInput { key, shell_bytes: None, claimed: false });
    }

    /// Row 3's tabs and titles, in draw order.
    pub fn log_strip_tabs(&self) -> (r: Vec<(LogTab, String)>)
        ensures
            geometry::strip_view(r@) == self@.log_strip(),
    {
        let tabs = self.available_log_tabs();
        let number = self.pane_number(Focus::Logs);
        let mut r: Vec<(LogTab, String)> = Vec::new();
        let mut i: usize = 0;
        while i < tabs.len()
            invariant
                i <= tabs.len(),
                tabs@ == self@.log_tabs(),
                number == self@.number_of(Focus::Logs),
                r@.len() == i,
                forall|k: int|
                    0 <= k < i ==> (#[trigger] r@[k]).0 == tabs@[k] && r@[k].1@ == numbered(
                        number,
                        k == 0,
                        log_title(self@.prefs.glyphs, tabs@[k]),
                    ),
            decreases tabs.len() - i,
        {
            let tab = tabs[i];
            let title = match tab {
                LogTab::Log => pane_title(self.prefs.glyphs.list.as_str(), "Log"),
                LogTab::Monitor => pane_title(self.prefs.glyphs.screen.as_str(), "Monitor"),
                LogTab::Terminal => pane_title(self.prefs.glyphs.prompt.as_str(), "Terminal"),
            };
            r.push((tab, number_title(number, i == 0, title)));
            i = i + 1;
        }
        assert(geometry::strip_view(r@) =~= self@.log_strip());
        r
    }

    /// The device pane's tabs and titles, in draw order.
    pub fn device_strip_tabs(&self) -> (r: Vec<(DevicePaneTab, String)>)
        ensures
            geometry::strip_view(r@) == self@.device_strip(),
    {
        let number = self.pane_number(Focus::FilesDevice);
        let actions = pane_title(self.prefs.glyphs.bolt.as_str(), "Actions");
        let files = pane_title(self.prefs.glyphs.folder.as_str(), "Device Files");
        let mut r: Vec<(DevicePaneTab, String)> = Vec::new();
        r.push((DevicePaneTab::Actions, number_title(number, true, actions)));
        r.push((DevicePaneTab::Files, number_title(number, false, files)));
        assert(geometry::strip_view(r@) =~= self@.device_strip());
        r
    }

    fn maybe_double_click(&mut self, pane: Focus, index: usize, now: u64)
        ensures
            final(self)@ == old(self)@.row_clicked(pane, index, now),
    {
        reveal(Model::row_clicked);
        let repeat: bool = match self.screen.last_click {
            Some((p, i, at)) => p == pane && i == index && (now < at || now - at < DOUBLE_CLICK),
            None => false,
        };
        self.screen.last_click = if repeat {
            None
        } else {
            Some((pane, index, now))
        };
        if repeat {
            self.type_key(KeyEvent::plain(KeyCode::Enter));
        }
    }

    fn click_device_info(&mut self, point: Point, rect: Rect, mac_row: Option<usize>, now: u64)
        ensures
            final(self)@ == old(self)@.device_info_clicked(point, rect, mac_row, now),
    {
        reveal(Model::device_info_clicked);
        self.screen.focus = Focus::DeviceInfo;
        let mac: Option<String> = match &self.flash {
            Some(flash) => if flash.identified {
                clone_opt(&flash.mac)
            } else {
                self.maybe_double_click(Focus::DeviceInfo, 0, now);
                return;
            },
            None => {
                self.maybe_double_click(Focus::DeviceInfo, 0, now);
                return;
            },
        };
        if let Some(mac) = mac {
            if let Some(row) = mac_row {
                if inner_row(point, rect, 0, 0) == Some(row) {
                    self.copy_to_clipboard("MAC", mac);
                }
            }
        }
    }

    fn click_project(&mut self, point: Point, rect: Rect, board_half: bool)
        ensures
            final(self)@ == old(self)@.project_clicked(point, rect, board_half),
    {
        reveal(Model::project_clicked);
        let len: usize = self.project.rows.len();
        if len == 0 {
            return;
        }
        self.screen.focus = Focus::Project;
        if let Some(row) = inner_row(point, rect, 0, 0) {
            let cursor: usize = if row < len - 1 {
                row
            } else {
                len - 1
            };
            self.screen.project_cursor = cursor;
            if self.project.rows[cursor] == ProjectRow::BoardShield {
                self.screen.board_segment = board_half;
            }
            self.type_key(KeyEvent::plain(KeyCode::Enter));
        }
    }

    fn click_local(&mut self, point: Point, rect: Rect, now: u64)
        ensures
            final(self)@ == old(self)@.local_clicked(point, rect, now),
    {
        reveal(Model::local_clicked);
        self.screen.focus = Focus::FilesLocal;
        let mut hit: Option<usize> = None;
        if let Some(browser) = &mut self.panels.browser {
            browser.focus = Side::Local;
            hit = drawn_list_row(point, rect, browser.local_offset, browser.local_len, 0, 0);
            if let Some(index) = hit {
                browser.local_cursor = index;
            }
        }
        if let Some(index) = hit {
            self.maybe_double_click(Focus::FilesLocal, index, now);
        }
    }

    fn click_device(&mut self, point: Point, rect: Rect, now: u64)
        ensures
            final(self)@ == old(self)@.device_clicked(point, rect, now),
    {
        reveal(Model::device_clicked);
        self.screen.focus = Focus::FilesDevice;
        let mut hit: Option<usize> = None;
        if let Some(browser) = &mut self.panels.browser {
            browser.focus = Side::Device;
            let ready: bool = match &browser.device_state {
                PaneState::Ready => true,
                _ => false,
            };
            if ready {
                hit = drawn_list_row(
                    point,
                    rect,
                    browser.device_offset,
                    browser.device_len,
                    0,
                    1,
                );
            }
            if let Some(index) = hit {
                browser.device_cursor = index;
            }
        }
        if let Some(index) = hit {
            self.maybe_double_click(Focus::FilesDevice, index, now);
        }
    }

    fn click_workspace(&mut self, point: Point, rect: Rect, now: u64)
        ensures
            final(self)@ == old(self)@.workspace_clicked(point, rect, now),
    {
        reveal(Model::workspace_clicked);
        let mut hit: Option<usize> = None;
        match &mut self.panels.workspace {
            None => {
                return;
            },
            Some(panel) => {
                if panel.files_error {
                    return;
                }
                hit = drawn_list_row(point, rect, panel.files_offset, panel.files_len, 0, 0);
                if let Some(index) = hit {
                    panel.files_cursor = index;
                }
            },
        }
        self.screen.focus = Focus::Workspace;
        if let Some(index) = hit {
            self.maybe_double_click(Focus::Workspace, index, now);
        }
    }

    fn count_build_stack(&self) -> (r: usize)
        ensures
            r == self@.build_stack(),
            r <= self.panels.lists.build_actions@.len(),
    {
        let len: usize = self.panels.lists.build_actions.len();
        if self.is_build_busy() && len > 0 && self.panels.lists.build_actions[len - 1]
            == BuildAction::Stop {
            len - 1
        } else {
            len
        }
    }

    fn click_build_stack(&mut self, point: Point, rect: Rect, button: Option<usize>)
        ensures
            final(self)@ == old(self)@.build_stack_clicked(point, rect, button),
    {
        reveal(Model::build_stack_clicked);
        self.screen.focus = Focus::Build;
        let mains: usize = self.count_build_stack();
        if let Some(index) = button {
            if point.1 > rect.y && index < mains {
                let action = self.panels.lists.build_actions[index];
                if let Some(panel) = &mut self.panels.build {
                    panel.cursor = index;
                } else {
                    return;
                }
                self.run_build_action(action);
            }
        }
    }

    fn count_flash_stack(&self) -> (r: usize)
        ensures
            r == self@.flash_stack(),
            r <= self.panels.lists.pane_actions@.len(),
    {
        let len: usize = self.panels.lists.pane_actions.len();
        if self.is_flash_busy() && len > 0 && self.panels.lists.pane_actions[len - 1]
            == FlashPaneAction::Stop {
            len - 1
        } else {
            len
        }
    }

    fn press_pane_button(&mut self, action: FlashPaneAction)
        ensures
            final(self)@ == old(self)@.pane_pressed(action),
    {
        reveal(Model::pane_pressed);
        self.run_flash_pane_action(action);
    }

    fn click_flash_stack(&mut self, point: Point, rect: Rect, button: Option<usize>)
        ensures
            final(self)@ == old(self)@.flash_stack_clicked(point, rect, button),
    {
        reveal(Model::flash_stack_clicked);
        self.screen.focus = Focus::FilesDevice;
        let mains: usize = self.count_flash_stack();
        if let Some(index) = button {
            if point.1 > rect.y && index < mains && self.flash.is_some() {
                let action = self.panels.lists.pane_actions[index];
                self.set_pane_cursor(index);
                self.press_pane_button(action);
            }
        }
    }

    fn click_device_pane(&mut self, point: Point, rect: Rect, button: Option<usize>, now: u64)
        ensures
            final(self)@ == old(self)@.device_pane_clicked(point, rect, button, now),
    {
        reveal(Model::device_pane_clicked);
        let tabs = self.device_strip_tabs();
        match tab_under(point, rect, &tabs) {
            Some(DevicePaneTab::Files) => {
                self.screen.device_pane_tab = DevicePaneTab::Files;
            },
            Some(DevicePaneTab::Actions) => self.show_device_actions_tab(),
            None => if self.device_actions_tab_active() {
                self.click_flash_stack(point, rect, button);
            } else {
                self.click_device(point, rect, now);
            },
        }
    }

    fn click_row2(&mut self, point: Point, row2: Row2, button: Option<usize>, now: u64)
        ensures
            final(self)@ == old(self)@.row2_clicked(point, row2, button, now),
    {
        reveal(Model::row2_clicked);
        match row2 {
            Row2::WorkspaceBuild { workspace, build } => if geometry::contains(workspace, point) {
                self.click_workspace(point, workspace, now);
            } else if geometry::contains(build, point) {
                self.click_build_stack(point, build, button);
            },
            Row2::Browser { local, right, kind } => if geometry::contains(local, point) {
                self.click_local(point, local, now);
            } else if geometry::contains(right, point) {
                match kind {
                    RightKind::Device => self.click_device_pane(point, right, button, now),
                    RightKind::Build => self.click_build_stack(point, right, button),
                    RightKind::NoDevice => {},
                }
            },
            Row2::Placeholder => {},
        }
    }

    fn click_row3(&mut self, point: Point, row3: Rect)
        ensures
            final(self)@ == old(self)@.row3_clicked(point, row3),
    {
        reveal(Model::row3_clicked);
        if !geometry::contains(row3, point) {
            return;
        }
        let tabs = self.log_strip_tabs();
        match tab_under(point, row3, &tabs) {
            Some(tab) => self.select_log_tab(tab),
            None => if point.1 > row3.y {
                self.screen.focus = Focus::Logs;
            },
        }
    }

    /// A left click on the dashboard.
    pub fn click(&mut self, point: Point, frame: &Frame, now: u64)
        ensures
            final(self)@ == old(self)@.clicked(point, *frame, now),
    {
        reveal(Model::clicked);
        if self.is_monitor_active() || self.is_terminal_active() {
            return;
        }
        let named: bool = match frame.header_name {
            Some(name) => geometry::contains(name, point),
            None => false,
        };
        if point.1 == frame.areas.project.y.saturating_sub(1) && named {
            self.type_key(KeyEvent { code: KeyCode::Char('P'), modifiers: KeyModifiers::shift() });
        } else if geometry::contains(frame.areas.project, point) {
            self.click_project(point, frame.areas.project, frame.board_half);
        } else if geometry::contains(frame.areas.device, point) {
            self.click_device_info(point, frame.areas.device, frame.mac_row, now);
        } else {
            self.click_row2(point, frame.areas.row2, frame.button, now);
            self.click_row3(point, frame.areas.row3);
        }
    }
}

/// Rows of the project picker: the subdirectories of whichever folder the
/// backend asking reads.
pub fn picker_project_rows(micropython: usize, zephyr: usize, mpy: bool) -> (r: usize)
    ensures
        r == if mpy {
            micropython
        } else {
            zephyr
        },
{
    if mpy {
        micropython
    } else {
        zephyr
    }
}

impl Model {
    /// The wheel over a list steps that list's cursor one row; `None` away
    /// from every list.
    #[verifier::opaque]
    pub open spec fn list_wheeled(
        self,
        point: Point,
        down: bool,
        areas: DashboardAreas,
    ) -> Option<Model> {
        if areas.project.holds(point) {
            Some(
                self.with_screen(
                    Screen {
                        project_cursor: geometry::notch(
                            self.screen.project_cursor as int,
                            self.project.rows@.len() as int,
                            down,
                        ) as usize,
                        ..self.screen
                    },
                ),
            )
        } else {
            match areas.row2 {
                Row2::WorkspaceBuild { workspace, .. } => if workspace.holds(point) {
                    Some(self.files_wheeled(down))
                } else {
                    None
                },
                Row2::Browser { local, right, kind } => if local.holds(point) {
                    Some(self.local_wheeled(down))
                } else if right.holds(point) && kind == RightKind::Device {
                    Some(self.device_wheeled(down))
                } else {
                    None
                },
                Row2::Placeholder => None,
            }
        }
    }

    pub open spec fn files_wheeled(self, down: bool) -> Model {
        match self.panels.workspace {
            Some(panel) => if panel.files_error {
                self
            } else {
                self.with_workspace(
                    WorkspacePanel {
                        files_cursor: geometry::notch(
                            panel.files_cursor as int,
                            panel.files_len as int,
                            down,
                        ) as usize,
                        ..panel
                    },
                )
            },
            None => self,
        }
    }

    pub open spec fn local_wheeled(self, down: bool) -> Model {
        match self.panels.browser {
            Some(browser) => self.with_browser(
                Browser {
                    local_cursor: geometry::notch(
                        browser.local_cursor as int,
                        browser.local_len as int,
                        down,
                    ) as usize,
                    ..browser
                },
            ),
            None => self,
        }
    }

    /// Over the actions tab, or without a listing, there is nothing to step.
    pub open spec fn device_wheeled(self, down: bool) -> Model {
        match self.panels.browser {
            Some(browser) => if self.actions_active() || browser.device_state != PaneState::Ready {
                self
            } else {
                self.with_browser(
                    Browser {
                        device_cursor: geometry::notch(
                            browser.device_cursor as int,
                            browser.device_len as int,
                            down,
                        ) as usize,
                        ..browser
                    },
                )
            },
            None => self,
        }
    }

    /// The wheel over row 3 scrolls the tab in view.
    pub open spec fn row3_wheeled(self, down: bool) -> Model {
        match (self.screen.log_tab, down) {
            (LogTab::Log, false) => self.with_logs(
                self.logs.scroll_up(WHEEL_STEP, self.drawn.log_viewport),
            ),
            (LogTab::Log, true) => self.with_logs(self.logs.scroll_down(WHEEL_STEP)),
            (_, false) => self.monitor_up(WHEEL_STEP),
            (_, true) => self.monitor_down(WHEEL_STEP),
        }
    }

    /// A wheel step on the dashboard; the focus never moves.
    #[verifier::opaque]
    pub open spec fn wheeled(self, point: Point, down: bool, areas: DashboardAreas) -> Model {
        match self.list_wheeled(point, down, areas) {
            Some(m) => m,
            None => if areas.row3.holds(point) {
                self.row3_wheeled(down)
            } else {
                self
            },
        }
    }

    pub open spec fn online_row(self, index: int) -> Model {
        match self.flash {
            Some(flash) => self.with_flash(FlashPanel { online_cursor: index as usize, ..flash }),
            None => self,
        }
    }

    pub open spec fn menu_row(self, index: int) -> Model {
        match self.flash {
            Some(flash) => self.with_flash(FlashPanel { cursor: index as usize, ..flash }),
            None => self,
        }
    }

    pub open spec fn field_focused(self, field: OptionsField) -> Model {
        match self.flash {
            Some(flash) => self.with_flash(FlashPanel { options_focus: field, ..flash }),
            None => self,
        }
    }

    /// A click in the flash dialog: rows select and press, outside it is
    /// `Esc`.
    #[verifier::opaque]
    pub open spec fn flash_clicked(
        self,
        point: Point,
        popup: Rect,
        fields: Seq<OptionsField>,
    ) -> Model {
        let inner = popup.inside_border();
        let list = geometry::shrunk(inner, 2, 2);
        let enter = KeyEvent::spec_plain(KeyCode::Enter);
        match self.flash {
            None => self,
            Some(flash) => if !popup.holds(point) {
                self.flash_key(KeyEvent::spec_plain(KeyCode::Esc))
            } else if !inner.holds(point) {
                self
            } else {
                match flash.screen {
                    FlashScreen::OnlineBoards => match geometry::bare_row_at(
                        point,
                        list,
                        flash.online_cursor as int,
                        self.panels.lists.online_boards@.len() as int,
                        1,
                    ) {
                        Some(index) => self.online_row(index).flash_key(enter),
                        None => self,
                    },
                    FlashScreen::OnlineFirmware => match geometry::bare_row_at(
                        point,
                        list,
                        flash.online_cursor as int,
                        self.panels.lists.online_firmware@.len() as int,
                        0,
                    ) {
                        Some(index) => self.online_row(index).flash_key(enter),
                        None => self,
                    },
                    FlashScreen::Menu => match geometry::bare_row_at(
                        point,
                        inner,
                        flash.cursor as int,
                        FLASH_ACTION_COUNT as int,
                        0,
                    ) {
                        Some(index) => self.menu_row(index).flash_key(enter),
                        None => self,
                    },
                    FlashScreen::Options => if inner.y + 2 <= point.1 && point.1 - inner.y - 2
                        < fields.len() {
                        self.field_focused(fields[point.1 - inner.y - 2])
                    } else {
                        self
                    },
                    FlashScreen::CustomUrl => self,
                }
            },
        }
    }

    pub open spec fn picker_count(self, mpy: bool) -> usize {
        if mpy {
            if self.project.mpy_projects is Some {
                self.project.mpy_project_count
            } else {
                0
            }
        } else {
            match self.panels.workspace {
                Some(panel) => if panel.projects is Some {
                    panel.project_count
                } else {
                    0
                },
                None => 0,
            }
        }
    }

    /// A dialog whose rows a click selects: how many there are, and the
    /// inner rows above and below them that are none.
    #[verifier::opaque]
    pub open spec fn click_rows(
        self,
        o: Overlay<Seq<char>>,
        dir_rows: usize,
    ) -> Option<(usize, u16, u16)> {
        match o {
            Overlay::DevicePicker { .. } => Some((self.panels.devices.known() as usize, 0, 0)),
            Overlay::ThemePicker { .. } => Some(((THEME_COUNT + 1) as usize, 0, 0)),
            Overlay::FirmwarePicker { .. } => match self.flash {
                Some(flash) => Some((flash.firmware_count, 0, 0)),
                None => None,
            },
            Overlay::ProjectSetup { .. } => Some((BACKEND_COUNT, 2, 0)),
            Overlay::RestoreDeviceScript { .. } => Some((3, 2, 0)),
            Overlay::FileActions { side, is_dir, is_text, status, .. } => Some(
                (
                    FileAction::offered(side, is_dir, is_text, status, self.caps()).len() as usize,
                    0,
                    0,
                ),
            ),
            Overlay::DirPicker { .. } => Some((dir_rows, 1, 2)),
            Overlay::ProjectPicker { mpy, .. } => Some((self.picker_count(mpy), 1, 2)),
            Overlay::BuildDirPicker { input, .. } => if self.panels.build is Some {
                Some((self.build_dirs_matching(input) as usize, 3, 0))
            } else {
                None
            },
            Overlay::SdkToolchains { .. } => Some((TOOLCHAIN_COUNT, 0, 1)),
            _ => None,
        }
    }

    /// A click on a row selects it; in the checklist it toggles the row too.
    #[verifier::opaque]
    pub open spec fn row_picked(
        self,
        o: Overlay<Seq<char>>,
        point: Point,
        popup: Rect,
        rows: (usize, u16, u16),
    ) -> Model {
        match geometry::list_row_at(point, popup, o.row() as int, rows.0 as int, rows.1, rows.2) {
            Some(index) => {
                let m = self.shown(o.at_row(index as usize));
                if o is SdkToolchains {
                    m.overlay_key(KeyEvent::spec_plain(KeyCode::Char(' ')))
                } else {
                    m
                }
            },
            None => self,
        }
    }

    pub open spec fn with_packages(self, packages: Packages) -> Model {
        self.with_panels(Panels { packages, ..self.panels })
    }

    /// A click in the package manager selects and hands its pane the keys;
    /// it never installs.
    #[verifier::opaque]
    pub open spec fn packages_clicked(self, point: Point, areas: SplitAreas) -> Model {
        let packages = self.panels.packages;
        if areas.details.holds(point) {
            self.with_packages(Packages { details_focused: true, ..packages })
        } else if !areas.list.holds(point) {
            self
        } else {
            match geometry::list_row_at(
                point,
                areas.list,
                packages.selected as int,
                packages.len as int,
                0,
                0,
            ) {
                Some(index) => self.with_packages(
                    Packages {
                        details_focused: false,
                        selected: index as usize,
                        scroll: 0,
                        ..packages
                    },
                ),
                None => self.with_packages(Packages { details_focused: false, ..packages }),
            }
        }
    }

    /// The build dashboard's tabs and titles, in draw order.
    pub open spec fn dash_strip(self) -> Seq<(usize, Seq<char>)> {
        Seq::new(
            self.dashboard.labels@.len(),
            |i: int|
                (
                    i as usize,
                    build_dashboard_view::strip_title(
                        self.prefs.glyphs.dashboard@,
                        self.dashboard.labels@,
                        i,
                    ),
                ),
        )
    }

    pub open spec fn dash_rows(self) -> usize {
        match self.dash_pane() {
            Some(pane) => pane.rows,
            None => 0,
        }
    }

    /// A click in the build dashboard: its strip, or a pane, which takes the
    /// keys; a row is selected, never opened.
    #[verifier::opaque]
    pub open spec fn window_clicked(self, point: Point, areas: SplitAreas) -> Model {
        match geometry::tab_at(point, areas.popup, self.dash_strip()) {
            Some(tab) => self.dash_tab(tab),
            None => if areas.details.holds(point) {
                self.dash_focused(DocsFocus::Details)
            } else if !areas.list.holds(point) {
                self
            } else {
                let m = self.dash_focused(DocsFocus::List);
                match geometry::pane_row_at(
                    areas.list,
                    point,
                    self.drawn.dashboard_list_offset as int,
                    self.dash_rows() as int,
                ) {
                    Some(index) => m.dash_selected(index as usize),
                    None => m,
                }
            },
        }
    }

    /// A click in the board or the shield picker: the pane under it takes
    /// the keys, and on the list its row is selected.
    #[verifier::opaque]
    pub open spec fn catalogue_clicked(
        self,
        point: Point,
        areas: SplitAreas,
        what: Catalogue,
        input: Seq<char>,
        selected: usize,
        scroll: u16,
        focus: DocsFocus,
    ) -> Model {
        if areas.details.holds(point) {
            self.catalogue_shown(what, input, selected, scroll, DocsFocus::Details)
        } else if !areas.list.holds(point) {
            self.catalogue_shown(what, input, selected, scroll, focus)
        } else {
            match self.picker_rows(what, input) {
                None => self.catalogue_shown(what, input, selected, scroll, DocsFocus::List),
                Some(count) => match geometry::pane_row_at(
                    areas.list,
                    point,
                    self.drawn.docs_list_offset as int,
                    count as int,
                ) {
                    Some(index) => self.catalogue_shown(
                        what,
                        input,
                        index as usize,
                        0,
                        DocsFocus::List,
                    ),
                    None => self.catalogue_shown(what, input, selected, scroll, DocsFocus::List),
                },
            }
        }
    }

    /// The wheel in the board or the shield picker: over the list one row,
    /// clamped, over the details one line.
    #[verifier::opaque]
    pub open spec fn catalogue_wheeled(
        self,
        point: Point,
        down: bool,
        areas: SplitAreas,
        what: Catalogue,
        input: Seq<char>,
        selected: usize,
        scroll: u16,
        focus: DocsFocus,
    ) -> Model {
        let len: nat = match (self.picker_rows(what, input), what) {
            (Some(count), _) => count,
            (None, Catalogue::Boards) => 0,
            (None, Catalogue::Shields) => 1,
        };
        if areas.list.holds(point) {
            if len == 0 {
                self.catalogue_shown(what, input, selected, scroll, focus)
            } else {
                self.catalogue_shown(
                    what,
                    input,
                    geometry::notch(selected as int, len as int, down) as usize,
                    0,
                    focus,
                )
            }
        } else if areas.details.holds(point) {
            self.catalogue_shown(
                what,
                input,
                selected,
                if down {
                    build_dashboard_view::scroll_down(scroll, 1)
                } else {
                    build_dashboard_view::scroll_up(scroll, 1)
                },
                focus,
            )
        } else {
            self.catalogue_shown(what, input, selected, scroll, focus)
        }
    }

    #[verifier::opaque]
    pub open spec fn window_wheeled(self, point: Point, down: bool, areas: SplitAreas) -> Model {
        if areas.list.holds(point) {
            self.dash_moved(down, 1)
        } else if areas.details.holds(point) {
            self.dash_scrolled(down, 1)
        } else {
            self
        }
    }

    /// A wheel step while a dialog owns the screen: only the windows with a
    /// list and details answer it.
    #[verifier::opaque]
    pub open spec fn overlay_wheeled(self, point: Point, down: bool, frame: Frame) -> Model {
        match self.overlay {
            Some(Overlay::BoardPicker { input, selected, scroll, focus }) => self.catalogue_wheeled(
                point,
                down,
                frame.docs,
                Catalogue::Boards,
                input,
                selected,
                scroll,
                focus,
            ),
            Some(
                Overlay::ShieldPicker { input, selected, scroll, focus },
            ) => self.catalogue_wheeled(
                point,
                down,
                frame.docs,
                Catalogue::Shields,
                input,
                selected,
                scroll,
                focus,
            ),
            Some(Overlay::BuildDashboard) => self.window_wheeled(point, down, frame.dashboard),
            _ => self,
        }
    }

    /// A click inside an open dialog.
    #[verifier::opaque]
    pub open spec fn dialog_clicked(
        self,
        o: Overlay<Seq<char>>,
        point: Point,
        frame: Frame,
        buttons: Option<(Rect, Rect)>,
    ) -> Model {
        match o {
            Overlay::Packages => self.packages_clicked(point, frame.packages),
            Overlay::BuildDashboard => self.window_clicked(point, frame.dashboard),
            Overlay::BoardPicker { input, selected, scroll, focus } => self.catalogue_clicked(
                point,
                frame.docs,
                Catalogue::Boards,
                input,
                selected,
                scroll,
                focus,
            ),
            Overlay::ShieldPicker { input, selected, scroll, focus } => self.catalogue_clicked(
                point,
                frame.docs,
                Catalogue::Shields,
                input,
                selected,
                scroll,
                focus,
            ),
            Overlay::ZephyrActions { .. } => match frame.button {
                Some(index) => if point.1 > frame.popup.y && index < ZEPHYR_ACTIONS_COUNT {
                    self.shown(o.at_row(index)).overlay_key(KeyEvent::spec_plain(KeyCode::Enter))
                } else {
                    self
                },
                None => self,
            },
            Overlay::ZephyrInstall => if footer_button(frame.popup, frame.stop_width).holds(point) {
                self.overlay_key(KeyEvent::spec_plain(KeyCode::Enter))
            } else {
                self
            },
            _ => if o.question() is Some {
                match geometry::confirm_click(buttons, point) {
                    Some(false) => self.overlay_key(KeyEvent::spec_plain(KeyCode::Char('n'))),
                    Some(true) => self.overlay_key(KeyEvent::spec_plain(KeyCode::Char('y'))),
                    None => self,
                }
            } else {
                match self.click_rows(o, frame.dir_rows) {
                    Some(rows) => self.row_picked(o, point, frame.popup, rows),
                    None => self,
                }
            },
        }
    }

    /// A click while a dialog owns the screen: outside it is `Esc`.
    #[verifier::opaque]
    pub open spec fn overlay_clicked(
        self,
        point: Point,
        frame: Frame,
        buttons: Option<(Rect, Rect)>,
    ) -> Model {
        match self.overlay {
            None => self,
            Some(o) => if !frame.popup.holds(point) {
                self.overlay_key(KeyEvent::spec_plain(KeyCode::Esc))
            } else {
                self.dialog_clicked(o, point, frame, buttons)
            },
        }
    }

    /// A gesture, for whichever layer owns the screen.
    pub open spec fn gestured(
        self,
        event: MouseEvent,
        frame: Frame,
        now: u64,
        buttons: Option<(Rect, Rect)>,
    ) -> Model {
        let point = (event.column, event.row);
        if self.screen.frame_area is None {
            self
        } else if self.overlay is Some {
            match event.kind {
                MouseEventKind::Click => self.overlay_clicked(point, frame, buttons),
                MouseEventKind::ScrollUp => self.overlay_wheeled(point, false, frame),
                MouseEventKind::ScrollDown => self.overlay_wheeled(point, true, frame),
                MouseEventKind::Other => self,
            }
        } else if self.screen.shortcuts_overlay_active {
            self
        } else {
            match (self.screen.view, event.kind) {
                (_, MouseEventKind::Other) => self,
                (View::Flash, MouseEventKind::Click) => self.flash_clicked(
                    point,
                    frame.flash,
                    frame.fields@,
                ),
                (View::Flash, _) => self,
                (View::Dashboard, MouseEventKind::Click) => self.clicked(point, frame, now),
                (View::Dashboard, MouseEventKind::ScrollUp) => self.wheeled(
                    point,
                    false,
                    frame.areas,
                ),
                (View::Dashboard, MouseEventKind::ScrollDown) => self.wheeled(
                    point,
                    true,
                    frame.areas,
                ),
            }
        }
    }
}

impl App {
    fn wheel_files(&mut self, down: bool)
        ensures
            final(self)@ == old(self)@.files_wheeled(down),
    {
        if let Some(panel) = &mut self.panels.workspace {
            if !panel.files_error {
                panel.files_cursor = stepped(panel.files_cursor, panel.files_len, down);
            }
        }
    }

    fn wheel_local(&mut self, down: bool)
        ensures
            final(self)@ == old(self)@.local_wheeled(down),
    {
        if let Some(browser) = &mut self.panels.browser {
            browser.local_cursor = stepped(browser.local_cursor, browser.local_len, down);
        }
    }

    fn wheel_device(&mut self, down: bool)
        ensures
            final(self)@ == old(self)@.device_wheeled(down),
    {
        let buttons: bool = self.device_actions_tab_active();
        if let Some(browser) = &mut self.panels.browser {
            let ready: bool = match &browser.device_state {
                PaneState::Ready => true,
                _ => false,
            };
            if !buttons && ready {
                browser.device_cursor = stepped(browser.device_cursor, browser.device_len, down);
            }
        }
    }

    /// Steps the list under the pointer; says whether there was one.
    fn wheel_steps_list(&mut self, point: Point, down: bool, areas: &DashboardAreas) -> (r: bool)
        ensures
            r == (old(self)@.list_wheeled(point, down, *areas) is Some),
            match old(self)@.list_wheeled(point, down, *areas) {
                Some(m) => final(self)@ == m,
                None => final(self)@ == old(self)@,
            },
    {
        reveal(Model::list_wheeled);
        if geometry::contains(areas.project, point) {
            let len: usize = self.project.rows.len();
            self.screen.project_cursor = stepped(self.screen.project_cursor, len, down);
            return true;
        }
        match areas.row2 {
            Row2::WorkspaceBuild { workspace, .. } => if geometry::contains(workspace, point) {
                self.wheel_files(down);
                true
            } else {
                false
            },
            Row2::Browser { local, right, kind } => if geometry::contains(local, point) {
                self.wheel_local(down);
                true
            } else if geometry::contains(right, point) && kind == RightKind::Device {
                self.wheel_device(down);
                true
            } else {
                false
            },
            Row2::Placeholder => false,
        }
    }

    fn wheel_row3(&mut self, down: bool)
        ensures
            final(self)@ == old(self)@.row3_wheeled(down),
    {
        match self.screen.log_tab {
            LogTab::Log => if down {
                self.logs.scroll_down(WHEEL_STEP);
            } else {
                self.logs.scroll_up(WHEEL_STEP, self.drawn.log_viewport);
            },
            _ => if down {
                self.monitor_scroll_down(WHEEL_STEP);
            } else {
                self.monitor_scroll_up(WHEEL_STEP);
            },
        }
    }

    /// A wheel step on the dashboard.
    pub fn wheel(&mut self, point: Point, down: bool, areas: &DashboardAreas)
        ensures
            final(self)@ == old(self)@.wheeled(point, down, *areas),
    {
        reveal(Model::wheeled);
        if self.wheel_steps_list(point, down, areas) {
            return;
        }
        if geometry::contains(areas.row3, point) {
            self.wheel_row3(down);
        }
    }

    fn set_online_row(&mut self, index: usize)
        ensures
            final(self)@ == old(self)@.online_row(index as int),
    {
        if let Some(flash) = &mut self.flash {
            flash.online_cursor = index;
        }
    }

    fn set_menu_row(&mut self, index: usize)
        ensures
            final(self)@ == old(self)@.menu_row(index as int),
    {
        if let Some(flash) = &mut self.flash {
            flash.cursor = index;
        }
    }

    fn focus_field(&mut self, field: OptionsField)
        ensures
            final(self)@ == old(self)@.field_focused(field),
    {
        if let Some(flash) = &mut self.flash {
            flash.options_focus = field;
        }
    }

    /// A click in the flash dialog drawn in `popup`.
    pub fn on_flash_mouse(&mut self, point: Point, popup: Rect, fields: &Vec<OptionsField>)
        requires
            popup.fits(),
        ensures
            final(self)@ == old(self)@.flash_clicked(point, popup, fields@),
    {
        reveal(Model::flash_clicked);
        let (screen, online, cursor) = match &self.flash {
            Some(flash) => (flash.screen, flash.online_cursor, flash.cursor),
            None => {
                return;
            },
        };
        if !geometry::contains(popup, point) {
            self.on_flash_key(KeyEvent::plain(KeyCode::Esc));
            return;
        }
        let inner = popup.inner();
        if !geometry::contains(inner, point) {
            return;
        }
        let list = inner_shrink(inner, 2, 2);
        let hit: Option<usize> = match screen {
            FlashScreen::OnlineBoards => bare_list_row(
                point,
                list,
                online,
                self.panels.lists.online_boards.len(),
                1,
            ),
            FlashScreen::OnlineFirmware => bare_list_row(
                point,
                list,
                online,
                self.panels.lists.online_firmware.len(),
                0,
            ),
            FlashScreen::Menu => bare_list_row(point, inner, cursor, FLASH_ACTION_COUNT, 0),
            FlashScreen::Options => {
                if inner.y + 2 <= point.1 {
                    let row: usize = (point.1 - inner.y - 2) as usize;
                    if row < fields.len() {
                        self.focus_field(fields[row]);
                    }
                }
                return;
            },
            FlashScreen::CustomUrl => {
                return;
            },
        };
        if let Some(index) = hit {
            if screen == FlashScreen::Menu {
                self.set_menu_row(index);
            } else {
                self.set_online_row(index);
            }
            self.on_flash_key(KeyEvent::plain(KeyCode::Enter));
        }
    }

    fn count_picker(&self, mpy: bool) -> (r: usize)
        ensures
            r == self@.picker_count(mpy),
    {
        let micropython: usize = if self.project.mpy_projects.is_some() {
            self.project.mpy_project_count
        } else {
            0
        };
        let zephyr: usize = match &self.panels.workspace {
            Some(panel) => if panel.projects.is_some() {
                panel.project_count
            } else {
                0
            },
            None => 0,
        };
        picker_project_rows(micropython, zephyr, mpy)
    }

    fn clickable_rows(&self, o: &Overlay, dir_rows: usize) -> (r: Option<(usize, u16, u16)>)
        ensures
            r == self@.shown(o.model()).click_rows(o.model(), dir_rows),
    {
        reveal(Model::click_rows);
        reveal(Overlay::model);
        match o {
            Overlay::DevicePicker { .. } => Some((self.panels.devices.count(), 0, 0)),
            Overlay::ThemePicker { .. } => Some((THEME_COUNT + 1, 0, 0)),
            Overlay::FirmwarePicker { .. } => match &self.flash {
                Some(flash) => Some((flash.firmware_count, 0, 0)),
                None => None,
            },
            Overlay::ProjectSetup { .. } => Some((BACKEND_COUNT, 2, 0)),
            Overlay::RestoreDeviceScript { .. } => Some((3, 2, 0)),
            Overlay::FileActions { side, is_dir, is_text, status, .. } => {
                let menu = FileAction::for_entry(
                    *side,
                    *is_dir,
                    *is_text,
                    *status,
                    self.capabilities(),
                );
                Some((menu.len(), 0, 0))
            },
            Overlay::DirPicker { .. } => Some((dir_rows, 1, 2)),
            Overlay::ProjectPicker { mpy, .. } => Some((self.count_picker(*mpy), 1, 2)),
            Overlay::BuildDirPicker { input, .. } => if self.panels.build.is_some() {
                let count: usize = filtered_names(
                    &self.panels.lists.build_dirs,
                    input.as_str(),
                ).len();
                Some((count, 3, 0))
            } else {
                None
            },
            Overlay::SdkToolchains { .. } => Some((TOOLCHAIN_COUNT, 0, 1)),
            _ => None,
        }
    }

    /// Opens `o`, on the row under the pointer where there is one. The
    /// dialog was taken off the screen before.
    fn pick_row(&mut self, o: Overlay, point: Point, popup: Rect, rows: (usize, u16, u16))
        ensures
            final(self)@ == old(self)@.shown(o.model()).row_picked(o.model(), point, popup, rows),
    {
        reveal(Model::row_picked);
        reveal(Overlay::model);
        let toggles: bool = match &o {
            Overlay::SdkToolchains { .. } => true,
            _ => false,
        };
        match list_row(point, popup, o.selected(), rows.0, rows.1, rows.2) {
            Some(index) => {
                self.show(o.set_selected(index));
                if toggles {
                    self.on_overlay_key(KeyEvent::plain(KeyCode::Char(' ')));
                }
            },
            None => self.show(o),
        }
    }

    fn click_packages(&mut self, point: Point, areas: &SplitAreas)
        ensures
            final(self)@ == old(self)@.packages_clicked(point, *areas),
    {
        reveal(Model::packages_clicked);
        if geometry::contains(areas.details, point) {
            self.panels.packages.details_focused = true;
            return;
        }
        if !geometry::contains(areas.list, point) {
            return;
        }
        self.panels.packages.details_focused = false;
        let selected: usize = self.panels.packages.selected;
        let len: usize = self.panels.packages.len;
        if let Some(index) = list_row(point, areas.list, selected, len, 0, 0) {
            self.panels.packages.selected = index;
            self.panels.packages.scroll = 0;
        }
    }

    fn count_dash_rows(&self) -> (r: usize)
        ensures
            r == self@.dash_rows(),
    {
        let tab: usize = self.dashboard.tab;
        if tab < self.dashboard.panes.len() {
            self.dashboard.panes[tab].rows
        } else {
            0
        }
    }

    fn click_window(&mut self, point: Point, areas: &SplitAreas)
        requires
            areas.fits(),
        ensures
            final(self)@ == old(self)@.window_clicked(point, *areas),
    {
        reveal(Model::window_clicked);
        let tabs = self.dashboard_strip_tabs();
        assert(geometry::strip_view(tabs@) =~= self@.dash_strip());
        if let Some(tab) = tab_under(point, areas.popup, &tabs) {
            self.set_dashboard_tab(tab);
            return;
        }
        if geometry::contains(areas.details, point) {
            self.set_dashboard_focus(DocsFocus::Details);
            return;
        }
        if !geometry::contains(areas.list, point) {
            return;
        }
        let rows: usize = self.count_dash_rows();
        let offset: usize = self.drawn.dashboard_list_offset;
        self.set_dashboard_focus(DocsFocus::List);
        if let Some(index) = dashboard_list_row(areas.list, point, offset, rows) {
            self.set_dashboard_selection(index);
        }
    }

    fn click_catalogue(
        &mut self,
        point: Point,
        areas: &SplitAreas,
        what: Catalogue,
        input: String,
        selected: usize,
        scroll: u16,
        focus: DocsFocus,
    )
        requires
            areas.fits(),
        ensures
            final(self)@ == old(self)@.catalogue_clicked(
                point,
                *areas,
                what,
                input@,
                selected,
                scroll,
                focus,
            ),
    {
        reveal(Model::catalogue_clicked);
        if geometry::contains(areas.details, point) {
            self.show_catalogue(what, input, selected, scroll, DocsFocus::Details);
            return;
        }
        if !geometry::contains(areas.list, point) {
            self.show_catalogue(what, input, selected, scroll, focus);
            return;
        }
        if let Some(count) = self.count_picker_rows(what, input.as_str()) {
            let offset: usize = self.drawn.docs_list_offset;
            if let Some(index) = docs_list_row(areas.list, point, offset, count) {
                self.show_catalogue(what, input, index, 0, DocsFocus::List);
                return;
            }
        }
        self.show_catalogue(what, input, selected, scroll, DocsFocus::List);
    }

    fn wheel_catalogue(
        &mut self,
        point: Point,
        down: bool,
        areas: &SplitAreas,
        what: Catalogue,
        input: String,
        selected: usize,
        scroll: u16,
        focus: DocsFocus,
    )
        ensures
            final(self)@ == old(self)@.catalogue_wheeled(
                point,
                down,
                *areas,
                what,
                input@,
                selected,
                scroll,
                focus,
            ),
    {
        reveal(Model::catalogue_wheeled);
        let len: usize = match self.count_picker_rows(what, input.as_str()) {
            Some(count) => count,
            None => match what {
                Catalogue::Boards => 0,
                Catalogue::Shields => 1,
            },
        };
        if geometry::contains(areas.list, point) {
            if len == 0 {
                self.show_catalogue(what, input, selected, scroll, focus);
            } else {
                self.show_catalogue(what, input, stepped(selected, len, down), 0, focus);
            }
        } else if geometry::contains(areas.details, point) {
            let moved: u16 = if down {
                scroll.saturating_add(1)
            } else {
                scroll.saturating_sub(1)
            };
            self.show_catalogue(what, input, selected, moved, focus);
        } else {
            self.show_catalogue(what, input, selected, scroll, focus);
        }
    }

    fn wheel_window(&mut self, point: Point, down: bool, areas: &SplitAreas)
        ensures
            final(self)@ == old(self)@.window_wheeled(point, down, *areas),
    {
        reveal(Model::window_wheeled);
        if geometry::contains(areas.list, point) {
            self.move_dashboard_cursor(down, 1);
        } else if geometry::contains(areas.details, point) {
            self.scroll_dashboard(down, 1);
        }
    }
}

impl App {
    fn answer_click(&mut self, answer: Option<bool>)
        ensures
            final(self)@ == (match answer {
                Some(false) => old(self)@.overlay_key(KeyEvent::spec_plain(KeyCode::Char('n'))),
                Some(true) => old(self)@.overlay_key(KeyEvent::spec_plain(KeyCode::Char('y'))),
                None => old(self)@,
            }),
    {
        match answer {
            Some(true) => self.on_overlay_key(KeyEvent::plain(KeyCode::Char('y'))),
            Some(false) => self.on_overlay_key(KeyEvent::plain(KeyCode::Char('n'))),
            None => {},
        }
    }

    /// A click inside the dialog `o`, taken off the screen before.
    fn click_dialog(
        &mut self,
        o: Overlay,
        point: Point,
        frame: &Frame,
        buttons: Option<(Rect, Rect)>,
    )
        requires
            frame.fits(),
            frame.popup.holds(point),
        ensures
            final(self)@ == old(self)@.shown(o.model()).dialog_clicked(
                o.model(),
                point,
                *frame,
                buttons,
            ),
    {
        reveal(Model::dialog_clicked);
        reveal(Overlay::model);
        match o {
            Overlay::Packages => {
                self.show(Overlay::Packages);
                self.click_packages(point, &frame.packages);
            },
            Overlay::BuildDashboard => {
                self.show(Overlay::BuildDashboard);
                self.click_window(point, &frame.dashboard);
            },
            Overlay::BoardPicker { input, selected, scroll, focus } => {
                let typed = input.clone();
                self.show(Overlay::BoardPicker { input, selected, scroll, focus });
                self.click_catalogue(
                    point,
                    &frame.docs,
                    Catalogue::Boards,
                    typed,
                    selected,
                    scroll,
                    focus,
                );
            },
            Overlay::ShieldPicker { input, selected, scroll, focus } => {
                let typed = input.clone();
                self.show(Overlay::ShieldPicker { input, selected, scroll, focus });
                self.click_catalogue(
                    point,
                    &frame.docs,
                    Catalogue::Shields,
                    typed,
                    selected,
                    scroll,
                    focus,
                );
            },
            Overlay::ZephyrActions { selected } => match frame.button {
                Some(index) => if point.1 > frame.popup.y && index < ZEPHYR_ACTIONS_COUNT {
                    self.show(Overlay::ZephyrActions { selected: index });
                    self.on_overlay_key(KeyEvent::plain(KeyCode::Enter));
                } else {
                    self.show(Overlay::ZephyrActions { selected });
                },
                None => self.show(Overlay::ZephyrActions { selected }),
            },
            Overlay::ZephyrInstall => {
                self.show(Overlay::ZephyrInstall);
                if geometry::contains(install_button(frame.popup, frame.stop_width), point) {
                    self.on_overlay_key(KeyEvent::plain(KeyCode::Enter));
                }
            },
            _ => {
                if o.highlighted().is_some() {
                    self.show(o);
                    self.answer_click(confirm_answer_at(buttons, point));
                } else {
                    match self.clickable_rows(&o, frame.dir_rows) {
                        Some(rows) => self.pick_row(o, point, frame.popup, rows),
                        None => self.show(o),
                    }
                }
            },
        }
    }

    /// A click while a dialog owns the screen; `buttons` are its drawn `No`
    /// and `Yes`.
    pub fn on_overlay_mouse(
        &mut self,
        point: Point,
        frame: &Frame,
        buttons: Option<(Rect, Rect)>,
    )
        requires
            frame.fits(),
        ensures
            final(self)@ == old(self)@.overlay_clicked(point, *frame, buttons),
    {
        reveal(Model::overlay_clicked);
        if !self.has_overlay() {
            return;
        }
        if !geometry::contains(frame.popup, point) {
            self.on_overlay_key(KeyEvent::plain(KeyCode::Esc));
            return;
        }
        if let Some(o) = self.take_overlay() {
            self.click_dialog(o, point, frame, buttons);
        }
    }

    /// A wheel step while a dialog owns the screen.
    pub fn on_overlay_wheel(&mut self, point: Point, down: bool, frame: &Frame)
        ensures
            final(self)@ == old(self)@.overlay_wheeled(point, down, *frame),
    {
        reveal(Model::overlay_wheeled);
        reveal(app::opt_overlay);
        reveal(Overlay::model);
        match &self.overlay {
            Some(Overlay::BoardPicker { input, selected, scroll, focus }) => {
                let (input, selected, scroll, focus) = (input.clone(), *selected, *scroll, *focus);
                self.wheel_catalogue(
                    point,
                    down,
                    &frame.docs,
                    Catalogue::Boards,
                    input,
                    selected,
                    scroll,
                    focus,
                );
            },
            Some(Overlay::ShieldPicker { input, selected, scroll, focus }) => {
                let (input, selected, scroll, focus) = (input.clone(), *selected, *scroll, *focus);
                self.wheel_catalogue(
                    point,
                    down,
                    &frame.docs,
                    Catalogue::Shields,
                    input,
                    selected,
                    scroll,
                    focus,
                );
            },
            Some(Overlay::BuildDashboard) => self.wheel_window(point, down, &frame.dashboard),
            _ => {},
        }
    }

    /// Handles a gesture; `buttons` are the open question's drawn `No` and
    /// `Yes`.
    pub fn on_gesture(
        &mut self,
        event: MouseEvent,
        frame: &Frame,
        now: u64,
        buttons: Option<(Rect, Rect)>,
    )
        requires
            frame.fits(),
        ensures
            final(self)@ == old(self)@.gestured(event, *frame, now, buttons),
    {
        let point: Point = (event.column, event.row);
        if self.screen.frame_area.is_none() {
            return;
        }
        if self.has_overlay() {
            match event.kind {
                MouseEventKind::Click => self.on_overlay_mouse(point, frame, buttons),
                MouseEventKind::ScrollUp => self.on_overlay_wheel(point, false, frame),
                MouseEventKind::ScrollDown => self.on_overlay_wheel(point, true, frame),
                MouseEventKind::Other => {},
            }
            return;
        }
        if self.screen.shortcuts_overlay_active {
            return;
        }
        match (self.screen.view, event.kind) {
            (_, MouseEventKind::Other) => {},
            (View::Flash, MouseEventKind::Click) => self.on_flash_mouse(
                point,
                frame.flash,
                &frame.fields,
            ),
            (View::Flash, _) => {},
            (View::Dashboard, MouseEventKind::Click) => self.click(point, frame, now),
            (View::Dashboard, MouseEventKind::ScrollUp) => self.wheel(point, false, &frame.areas),
            (View::Dashboard, MouseEventKind::ScrollDown) => self.wheel(point, true, &frame.areas),
        }
    }

    /// Handles a gesture. Where a question's buttons lie in its popup is
    /// worked out here.
    pub fn on_mouse(&mut self, input: MouseInput)
        requires
            input.frame.fits(),
        ensures
            exists|buttons: Option<(Rect, Rect)>| #[trigger]
                geometry::buttons_of(input.frame.popup, buttons) && final(self)@
                    == old(self)@.gestured(input.event, input.frame, input.now, buttons),
    {
        let buttons = confirm_buttons(input.frame.popup);
        self.on_gesture(input.event, &input.frame, input.now, buttons);
        assert(geometry::buttons_of(input.frame.popup, buttons));
    }
}

} // verus!
