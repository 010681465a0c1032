//! Key handling for every modal overlay, including the Yes/No questions.
//!
//! Each dialog's transition takes the state with the dialog already closed,
//! and says what shows afterwards: the dialog again, something else, or
//! nothing.

use vstd::prelude::*;
use vstd::view::View as _;
use vstd::string::*;

use crate::app;
use crate::app::{App, Chain, DeskModel, DocsFocus, Drawn, Model, PendingEdit, View};
use crate::app::build_dashboard_view;
use crate::app::build_dashboard_view::rows_per_page;
use crate::app::file_browser::{FileAction, FileViewer, ViewerSource};
use crate::app::flash_view;
use crate::app::help;
use crate::app::help::{HelpBinding, HelpSection, bindings, visible};
use crate::backend::BACKEND_COUNT;
use crate::effect::{BrowserRequest, Effect, Task, TextTask};
use crate::geometry;
use crate::geometry::{wrapped_down, wrapped_up};
use crate::input;
use crate::input::{KeyCode, KeyEvent, down_key, leave_key, up_key};
use crate::overlay;
use crate::overlay::{ConfirmStep, Overlay, is_help_reachable_overlay, is_text_entry_overlay};
use crate::panels;
use crate::panels::{
    BuildAction, BuildKind, FlashPanel, ScriptState, Side, SyncStatus, filtered_names,
};
use crate::text;
use crate::theme::THEME_COUNT;

verus! {

broadcast use crate::overlay::group_overlay_models;

/// Rows of the menu behind the `Zephyr Actions` button.
pub const ZEPHYR_ACTIONS_COUNT: usize = 4;

/// What a key answers in a Yes/No question.
pub open spec fn confirm_step(code: KeyCode, confirm: bool) -> ConfirmStep {
    if code == KeyCode::Left || code == KeyCode::Right || code == KeyCode::Tab || code
        == KeyCode::BackTab || code == KeyCode::Char('h') || code == KeyCode::Char('l') {
        ConfirmStep::Toggle
    } else if code == KeyCode::Char('y') || (code == KeyCode::Enter && confirm) {
        ConfirmStep::Accept
    } else if code == KeyCode::Char('n') || code == KeyCode::Char('q') || code == KeyCode::Esc
        || code == KeyCode::Enter {
        ConfirmStep::Decline
    } else {
        ConfirmStep::Ignore
    }
}

pub fn dispatch_confirm(code: KeyCode, confirm: bool) -> (r: ConfirmStep)
    ensures
        r == confirm_step(code, confirm),
{
    if code == KeyCode::Left || code == KeyCode::Right || code == KeyCode::Tab || code
        == KeyCode::BackTab || code == KeyCode::Char('h') || code == KeyCode::Char('l') {
        ConfirmStep::Toggle
    } else if code == KeyCode::Char('y') || (code == KeyCode::Enter && confirm) {
        ConfirmStep::Accept
    } else if code == KeyCode::Char('n') || code == KeyCode::Char('q') || code == KeyCode::Esc
        || code == KeyCode::Enter {
        ConfirmStep::Decline
    } else {
        ConfirmStep::Ignore
    }
}

/// The button highlighted after a step that leaves the question open.
pub open spec fn highlight(step: ConfirmStep, confirm: bool) -> bool {
    if step == ConfirmStep::Toggle {
        !confirm
    } else {
        confirm
    }
}

fn highlighted(step: ConfirmStep, confirm: bool) -> (r: bool)
    ensures
        r == highlight(step, confirm),
{
    if step == ConfirmStep::Toggle {
        !confirm
    } else {
        confirm
    }
}

/// The row a walking key lands on in a list that wraps; `None` for another
/// key.
pub open spec fn walked(code: KeyCode, selected: usize, count: usize) -> Option<usize> {
    if input::is_up(code) {
        Some(geometry::wrap_up(selected as int, count as int) as usize)
    } else if input::is_down(code) {
        Some(geometry::wrap_down(selected as int, count as int) as usize)
    } else {
        None
    }
}

fn walk(code: KeyCode, selected: usize, count: usize) -> (r: Option<usize>)
    requires
        count > 0,
    ensures
        r == walked(code, selected, count),
{
    if up_key(code) {
        Some(wrapped_up(selected, count))
    } else if down_key(code) {
        Some(wrapped_down(selected, count))
    } else {
        None
    }
}

/// The row walked to, or the one the cursor stays on.
fn landed(step: Option<usize>, selected: usize) -> (r: usize)
    ensures
        r == (match step {
            Some(row) => row,
            None => selected,
        }),
{
    match step {
        Some(row) => row,
        None => selected,
    }
}

/// At least one row.
pub open spec fn at_least_one(count: nat) -> usize {
    if count == 0 {
        1
    } else {
        count as usize
    }
}

fn or_one(count: usize) -> (r: usize)
    ensures
        r == at_least_one(count as nat),
        r > 0,
{
    if count == 0 {
        1
    } else {
        count
    }
}

/// The last row not past `selected` in a list of `count`.
pub open spec fn held_in(selected: usize, count: nat) -> usize {
    if selected < count {
        selected
    } else if count == 0 {
        0
    } else {
        (count - 1) as usize
    }
}

fn hold_in(selected: usize, count: usize) -> (r: usize)
    ensures
        r == held_in(selected, count as nat),
{
    if selected < count {
        selected
    } else if count == 0 {
        0
    } else {
        count - 1
    }
}

/// The rows of a list that starts with `(none)`.
pub open spec fn after_none_row(count: nat) -> nat {
    if count < usize::MAX {
        count + 1
    } else {
        count
    }
}

/// The two pickers whose list is filtered as one types.
#[derive(Debug, Clone, Copy, PartialEq, Eq, Structural)]
pub enum Catalogue {
    Boards,
    Shields,
}

impl Model {
    pub open spec fn help_rows(self, filter: Seq<char>) -> Seq<HelpBinding> {
        help::rows_matching(help::rows_of(self.screen.view, HelpSection::Commands), filter)
    }

    pub open spec fn help_shown(self, filter: Seq<char>, filtering: bool, selected: usize) -> Model {
        self.shown(Overlay::Help { filter, filtering, selected })
    }

    /// The row under the cursor replayed as the key it describes.
    pub open spec fn help_activated(self, filter: Seq<char>, selected: usize) -> Model {
        let rows = self.help_rows(filter);
        if selected < rows.len() {
            match rows[selected as int].event {
                Some((code, modifiers)) => match self.screen.view {
                    View::Dashboard => self.dashboard_key(KeyEvent { code, modifiers }, false),
                    View::Flash => self.flash_key(KeyEvent { code, modifiers }),
                },
                None => self,
            }
        } else {
            self
        }
    }

    /// A key in the help window. While a search is typed every character is
    /// filter text; a changed filter keeps the cursor inside its rows.
    #[verifier::opaque]
    pub open spec fn help_key(
        self,
        key: KeyEvent,
        filter: Seq<char>,
        filtering: bool,
        selected: usize,
    ) -> Model {
        let code = key.code;
        let count = at_least_one(self.help_rows(filter).len());
        if code == KeyCode::Enter {
            self.help_activated(filter, selected)
        } else if code == KeyCode::Up {
            self.help_shown(
                filter,
                filtering,
                geometry::wrap_up(selected as int, count as int) as usize,
            )
        } else if code == KeyCode::Down {
            self.help_shown(
                filter,
                filtering,
                geometry::wrap_down(selected as int, count as int) as usize,
            )
        } else if filtering {
            match code {
                KeyCode::Char(c) => self.help_shown(
                    filter.push(c),
                    true,
                    held_in(selected, self.help_rows(filter.push(c)).len()),
                ),
                KeyCode::Backspace => self.help_shown(
                    text::popped(filter),
                    true,
                    held_in(selected, self.help_rows(text::popped(filter)).len()),
                ),
                KeyCode::Esc => self.help_shown(filter, false, held_in(selected, count as nat)),
                _ => self.help_shown(filter, filtering, selected),
            }
        } else if code == KeyCode::Esc || code == KeyCode::Char('?') || code == KeyCode::Char(
            'q',
        ) {
            self
        } else if code == KeyCode::Char('/') {
            self.help_shown(filter, true, held_in(selected, count as nat))
        } else if code == KeyCode::Char('k') {
            self.help_shown(
                filter,
                false,
                geometry::wrap_up(selected as int, count as int) as usize,
            )
        } else if code == KeyCode::Char('j') {
            self.help_shown(
                filter,
                false,
                geometry::wrap_down(selected as int, count as int) as usize,
            )
        } else if code == KeyCode::Home {
            self.help_shown(filter, false, 0)
        } else if code == KeyCode::End {
            self.help_shown(filter, false, (count - 1) as usize)
        } else {
            self.help_shown(filter, filtering, selected)
        }
    }

    #[verifier::opaque]
    pub open spec fn theme_picker_key(self, key: KeyEvent, selected: usize) -> Model {
        if input::is_leave(key.code) {
            self
        } else if key.code == KeyCode::Enter {
            self.theme_picked(selected)
        } else {
            match walked(key.code, selected, (THEME_COUNT + 1) as usize) {
                Some(row) => self.shown(Overlay::ThemePicker { selected: row }),
                None => self.shown(Overlay::ThemePicker { selected }),
            }
        }
    }

    #[verifier::opaque]
    pub open spec fn device_picker_key(self, key: KeyEvent, selected: usize) -> Model {
        let open = self.shown(Overlay::DevicePicker { selected });
        if input::is_leave(key.code) {
            self
        } else if key.code == KeyCode::Enter {
            open.device_picked(selected).closed()
        } else {
            match walked(key.code, selected, at_least_one(self.panels.devices.known())) {
                Some(row) => self.shown(Overlay::DevicePicker { selected: row }),
                None => open,
            }
        }
    }

    #[verifier::opaque]
    pub open spec fn firmware_picker_key(self, key: KeyEvent, selected: usize) -> Model {
        let count = match self.flash {
            Some(flash) => flash.firmware_count,
            None => 0,
        };
        if input::is_leave(key.code) {
            self
        } else if key.code == KeyCode::Enter {
            self.firmware_picked(selected)
        } else {
            match walked(key.code, selected, at_least_one(count as nat)) {
                Some(row) => self.shown(Overlay::FirmwarePicker { selected: row }),
                None => self.shown(Overlay::FirmwarePicker { selected }),
            }
        }
    }

    #[verifier::opaque]
    pub open spec fn project_setup_key(self, key: KeyEvent, selected: usize) -> Model {
        if input::is_leave(key.code) {
            self
        } else if key.code == KeyCode::Enter {
            self.project_set_up(selected)
        } else {
            match walked(key.code, selected, BACKEND_COUNT) {
                Some(row) => self.shown(Overlay::ProjectSetup { selected: row }),
                None => self.shown(Overlay::ProjectSetup { selected }),
            }
        }
    }

    #[verifier::opaque]
    pub open spec fn build_target_key(
        self,
        key: KeyEvent,
        kind: BuildKind,
        selected: usize,
    ) -> Model {
        if input::is_leave(key.code) {
            self
        } else if key.code == KeyCode::Enter {
            self.target_applied(kind, selected)
        } else {
            match walked(key.code, selected, 2) {
                Some(row) => self.shown(Overlay::BuildTarget { kind, selected: row }),
                None => self.shown(Overlay::BuildTarget { kind, selected }),
            }
        }
    }

    /// How many rows a picker lists under a filter; `None` without a panel.
    pub open spec fn picker_rows(self, what: Catalogue, input: Seq<char>) -> Option<nat> {
        if self.panels.build is None {
            None
        } else {
            Some(
                match what {
                    Catalogue::Boards => panels::filtered(self.panels.lists.boards@, input).len(),
                    Catalogue::Shields => after_none_row(
                        panels::filtered(self.panels.lists.shields@, input).len(),
                    ),
                },
            )
        }
    }

    pub open spec fn catalogue_shown(
        self,
        what: Catalogue,
        input: Seq<char>,
        selected: usize,
        scroll: u16,
        focus: DocsFocus,
    ) -> Model {
        match what {
            Catalogue::Boards => self.shown(
                Overlay::BoardPicker { input, selected, scroll, focus },
            ),
            Catalogue::Shields => self.shown(
                Overlay::ShieldPicker { input, selected, scroll, focus },
            ),
        }
    }

    /// The picker on another row or filter: the details start from their
    /// top, the cursor stays inside the list.
    pub open spec fn catalogue_rebuilt(
        self,
        what: Catalogue,
        input: Seq<char>,
        selected: usize,
        focus: DocsFocus,
    ) -> Model {
        self.catalogue_shown(
            what,
            input,
            match (self.picker_rows(what, input), what) {
                (Some(count), _) => held_in(selected, count),
                (None, Catalogue::Boards) => selected,
                (None, Catalogue::Shields) => 0,
            },
            0,
            focus,
        )
    }

    pub open spec fn docs_top(self) -> Model {
        self.with_drawn(Drawn { docs_list_offset: 0, ..self.drawn })
    }

    /// A key in the board or the shield picker. `Tab` hands the arrows to the
    /// details; every printable character is filter text either way.
    #[verifier::opaque]
    pub open spec fn catalogue_key(
        self,
        key: KeyEvent,
        what: Catalogue,
        input: Seq<char>,
        selected: usize,
        scroll: u16,
        focus: DocsFocus,
    ) -> Model {
        let code = key.code;
        let details = focus == DocsFocus::Details;
        let page = build_dashboard_view::page_rows(self.drawn.docs_viewport);
        let count = match self.picker_rows(what, input) {
            Some(count) => at_least_one(count),
            None => 1,
        };
        if code == KeyCode::Esc {
            self
        } else if code == KeyCode::Enter {
            match what {
                Catalogue::Boards => self.board_picked(input, selected),
                Catalogue::Shields => self.shield_picked(input, selected),
            }
        } else if code == KeyCode::Backspace {
            self.docs_top().catalogue_rebuilt(what, text::popped(input), selected, focus)
        } else if code == KeyCode::Up {
            if details {
                self.catalogue_shown(
                    what,
                    input,
                    selected,
                    build_dashboard_view::scroll_up(scroll, 1),
                    focus,
                )
            } else {
                self.catalogue_rebuilt(
                    what,
                    input,
                    geometry::wrap_up(selected as int, count as int) as usize,
                    focus,
                )
            }
        } else if code == KeyCode::Down {
            if details {
                self.catalogue_shown(
                    what,
                    input,
                    selected,
                    build_dashboard_view::scroll_down(scroll, 1),
                    focus,
                )
            } else {
                self.catalogue_rebuilt(
                    what,
                    input,
                    geometry::wrap_down(selected as int, count as int) as usize,
                    focus,
                )
            }
        } else if code == KeyCode::Tab {
            self.catalogue_shown(what, input, selected, scroll, focus.other())
        } else if code == KeyCode::PageUp {
            self.catalogue_shown(
                what,
                input,
                selected,
                build_dashboard_view::scroll_up(scroll, page),
                focus,
            )
        } else if code == KeyCode::PageDown {
            self.catalogue_shown(
                what,
                input,
                selected,
                build_dashboard_view::scroll_down(scroll, page),
                focus,
            )
        } else {
            match code {
                KeyCode::Char(c) => self.docs_top().catalogue_rebuilt(
                    what,
                    input.push(c),
                    selected,
                    focus,
                ),
                _ => self.catalogue_shown(what, input, selected, scroll, focus),
            }
        }
    }

    /// A key in the project picker: moving clears an error that described
    /// another row.
    #[verifier::opaque]
    pub open spec fn project_picker_key(
        self,
        key: KeyEvent,
        mpy: bool,
        selected: usize,
        error: Option<Seq<char>>,
    ) -> Model {
        let open = self.shown(Overlay::ProjectPicker { mpy, selected, error });
        let count = self.project_rows(mpy);
        if input::is_leave(key.code) {
            self
        } else if key.code == KeyCode::Home {
            self.shown(Overlay::ProjectPicker { mpy, selected: 0, error: None })
        } else if key.code == KeyCode::End {
            self.shown(
                Overlay::ProjectPicker { mpy, selected: (count - 1) as usize, error: None },
            )
        } else if key.code == KeyCode::Enter {
            if mpy {
                open.task(Task::ApplyMpyProject(selected))
            } else {
                open.project_asked(selected)
            }
        } else {
            match walked(key.code, selected, count) {
                Some(row) => self.shown(Overlay::ProjectPicker { mpy, selected: row, error: None }),
                None => open,
            }
        }
    }

    /// The rows of whichever projects folder the picker reads.
    pub open spec fn project_rows(self, mpy: bool) -> usize {
        at_least_one(
            if mpy {
                if self.project.mpy_projects is Some {
                    self.project.mpy_project_count as nat
                } else {
                    0
                }
            } else {
                match self.panels.workspace {
                    Some(panel) => if panel.projects is Some {
                        panel.project_count as nat
                    } else {
                        0
                    },
                    None => 0,
                }
            },
        )
    }

    pub open spec fn build_dirs_matching(self, input: Seq<char>) -> nat {
        panels::filtered(self.panels.lists.build_dirs@, input).len()
    }

    pub open spec fn build_dir_rebuilt(self, input: Seq<char>, selected: usize) -> Model {
        self.shown(
            Overlay::BuildDirPicker {
                input,
                selected: if self.panels.build is Some {
                    held_in(selected, self.build_dirs_matching(input))
                } else {
                    selected
                },
            },
        )
    }

    #[verifier::opaque]
    pub open spec fn build_dir_key(
        self,
        key: KeyEvent,
        input: Seq<char>,
        selected: usize,
    ) -> Model {
        let code = key.code;
        let count = if self.panels.build is Some {
            at_least_one(self.build_dirs_matching(input))
        } else {
            1
        };
        if code == KeyCode::Esc {
            self
        } else if code == KeyCode::Enter {
            self.emit(Effect::Text(TextTask::SetBuildDir(selected), input))
        } else if code == KeyCode::Backspace {
            self.build_dir_rebuilt(text::popped(input), selected)
        } else if code == KeyCode::Up {
            self.build_dir_rebuilt(
                input,
                geometry::wrap_up(selected as int, count as int) as usize,
            )
        } else if code == KeyCode::Down {
            self.build_dir_rebuilt(
                input,
                geometry::wrap_down(selected as int, count as int) as usize,
            )
        } else {
            match code {
                KeyCode::Char(c) => self.build_dir_rebuilt(input.push(c), selected),
                _ => self.shown(Overlay::BuildDirPicker { input, selected }),
            }
        }
    }

    /// A key in an entry's menu; left and right mirror the pane it opened
    /// from.
    #[verifier::opaque]
    pub open spec fn file_menu_key(
        self,
        key: KeyEvent,
        side: Side,
        name: Seq<char>,
        is_dir: bool,
        is_text: bool,
        status: Option<SyncStatus>,
        selected: usize,
    ) -> Model {
        let code = key.code;
        let menu = FileAction::offered(side, is_dir, is_text, status, self.caps());
        if input::is_leave(code) || code == KeyCode::Left {
            self
        } else if (code == KeyCode::Enter || code == KeyCode::Right) && selected < menu.len() {
            self.file_action(side, name, is_dir, menu[selected as int])
        } else {
            self.shown(
                Overlay::FileActions {
                    side,
                    name,
                    is_dir,
                    is_text,
                    status,
                    selected: match walked(code, selected, at_least_one(menu.len())) {
                        Some(row) => row,
                        None => selected,
                    },
                },
            )
        }
    }

    #[verifier::opaque]
    pub open spec fn create_entry_key(self, key: KeyEvent, side: Side, input: Seq<char>) -> Model {
        match key.code {
            KeyCode::Esc => self,
            KeyCode::Enter => self.entry_asked(side, input),
            KeyCode::Backspace => self.shown(
                Overlay::CreateEntry { side, input: text::popped(input) },
            ),
            KeyCode::Char(c) => self.shown(Overlay::CreateEntry { side, input: input.push(c) }),
            _ => self.shown(Overlay::CreateEntry { side, input }),
        }
    }

    #[verifier::opaque]
    pub open spec fn rename_entry_key(
        self,
        key: KeyEvent,
        name: Seq<char>,
        input: Seq<char>,
    ) -> Model {
        match key.code {
            KeyCode::Esc => self,
            KeyCode::Enter => self.rename_asked(name, input),
            KeyCode::Backspace => self.shown(
                Overlay::RenameEntry { name, input: text::popped(input) },
            ),
            KeyCode::Char(c) => self.shown(Overlay::RenameEntry { name, input: input.push(c) }),
            _ => self.shown(Overlay::RenameEntry { name, input }),
        }
    }

    pub open spec fn viewer_closed(self) -> Model {
        self.closed().with_desk(DeskModel { viewer: None, ..self.desk })
    }

    /// A key in the file viewer, which stays open but for leaving and `e`.
    #[verifier::opaque]
    pub open spec fn viewer_key(self, key: KeyEvent) -> Model {
        let code = key.code;
        let page = if self.drawn.viewer_viewport == 0 {
            1
        } else {
            self.drawn.viewer_viewport
        };
        if input::is_leave(code) {
            self.viewer_closed()
        } else if code == KeyCode::Char('e') {
            self.viewer_edited()
        } else if input::is_up(code) {
            self.viewer_stepped(false, 1)
        } else if input::is_down(code) {
            self.viewer_stepped(true, 1)
        } else if code == KeyCode::PageUp {
            self.viewer_stepped(false, page)
        } else if code == KeyCode::PageDown {
            self.viewer_stepped(true, page)
        } else if code == KeyCode::Home {
            self.viewer_jumped(0)
        } else if code == KeyCode::End {
            self.viewer_jumped(usize::MAX)
        } else {
            self
        }
    }

    /// The file shown handed to the editor, where it is a single file.
    pub open spec fn viewer_edited(self) -> Model {
        let m = self.viewer_closed();
        match self.desk.viewer {
            Some(viewer) => match viewer.source {
                ViewerSource::Local(path) => m.with_desk(
                    DeskModel {
                        pending_edit: Some(PendingEdit { path, device_target: None }),
                        ..m.desk
                    },
                ),
                ViewerSource::Device(path) => m.on_device(
                    TextTask::EditDownload { port: m.port() },
                    path.name,
                ),
                _ => m,
            },
            None => m,
        }
    }

    /// A key in the workspace menu: update it, extend its SDK, read the
    /// build report here, or have it generated.
    #[verifier::opaque]
    pub open spec fn zephyr_actions_key(self, key: KeyEvent, selected: usize) -> Model {
        if input::is_leave(key.code) {
            self
        } else if key.code == KeyCode::Enter {
            if selected == 0 {
                self.shown(
                    Overlay::ConfirmBuild { action: BuildAction::UpdateZephyr, confirm: false },
                )
            } else if selected == 1 {
                self.shown(Overlay::ZephyrActions { selected }).toolchains_opened()
            } else if selected == 2 {
                self.shown(Overlay::ZephyrActions { selected }).dashboard_opened()
            } else {
                self.build_run(BuildAction::Dashboard)
            }
        } else {
            match walked(key.code, selected, ZEPHYR_ACTIONS_COUNT) {
                Some(row) => self.shown(Overlay::ZephyrActions { selected: row }),
                None => self.shown(Overlay::ZephyrActions { selected }),
            }
        }
    }

    /// The package manager back in the slot it lent.
    pub open spec fn handed_back(self, to_packages: bool) -> Model {
        if to_packages {
            self.shown(Overlay::Packages)
        } else {
            self
        }
    }

    /// A key in the restore question: dismissing it leaves the script
    /// stopped.
    #[verifier::opaque]
    pub open spec fn restore_key(
        self,
        key: KeyEvent,
        selected: usize,
        to_packages: bool,
    ) -> Model {
        if input::is_leave(key.code) {
            self.handed_back(to_packages)
        } else if key.code == KeyCode::Enter {
            self.handed_back(to_packages).restored(selected)
        } else {
            match walked(key.code, selected, 3) {
                Some(row) => self.shown(
                    Overlay::RestoreDeviceScript { selected: row, return_to_packages: to_packages },
                ),
                None => self.shown(
                    Overlay::RestoreDeviceScript { selected, return_to_packages: to_packages },
                ),
            }
        }
    }

    /// What agreeing to a question about the device does.
    #[verifier::opaque]
    pub open spec fn agreed_on_device(self, o: Overlay<Seq<char>>) -> Model {
        match o {
            Overlay::ConfirmUpload { name, is_dir, .. } => if is_dir {
                self.on_device(TextTask::UploadDir { port: self.port() }, name)
            } else {
                self.on_device(TextTask::Upload { port: self.port() }, name)
            },
            Overlay::ConfirmRestartDevice { .. } => self.requested(BrowserRequest::Reset),
            Overlay::ConfirmDelete { side, name, is_dir, .. } => self.file_deleted(
                side,
                name,
                is_dir,
            ),
            Overlay::SyncPreview { plan, .. } => self.requested(
                BrowserRequest::ExecuteSync { plan, deletes: plan.deletes@.len() > 0 },
            ),
            Overlay::ConfirmIdentifyDevice { .. } => self.identification_accepted(),
            Overlay::ConfirmInterruptDevice { return_to_packages, .. } => self.with_chain(
                Chain { restore_pending: true, ..self.chain },
            ).script_marked(ScriptState::Stopped).handed_back(return_to_packages),
            _ => self,
        }
    }

    /// What agreeing to a question about an installation or a download does.
    #[verifier::opaque]
    pub open spec fn agreed_on_host(self, o: Overlay<Seq<char>>) -> Model {
        match o {
            Overlay::Confirm { .. } => if self.pending.install_confirm {
                self.install_accepted()
            } else {
                self.flash_confirmed()
            },
            Overlay::ConfirmInstallHere { dir, .. } => self.installer_asked(dir, false),
            Overlay::ConfirmDownloadOverwrite { url, dest, .. } => self.download_started(url, dest),
            Overlay::ConfirmBuild { action, .. } => match action {
                BuildAction::Build(_) | BuildAction::Flash => self.build_asked(action),
                BuildAction::UpdateZephyr => self.task(Task::WorkspaceUpdate),
                _ => self,
            },
            Overlay::ConfirmRemovePackage { name, targets, declared, .. } => self.shown(
                Overlay::Packages,
            ).emit(Effect::Text(TextTask::RemovePackage { targets, declared }, name)),
            Overlay::ConfirmOta { what, .. } => self.ota_accepted(what),
            _ => self,
        }
    }

    /// What agreeing to a question does.
    #[verifier::opaque]
    pub open spec fn agreed(self, o: Overlay<Seq<char>>) -> Model {
        match o {
            Overlay::ConfirmSwitchProject { .. } => self.switching(),
            Overlay::ConfirmEraseForMicroPython { .. } => self.erase_accepted(),
            Overlay::ConfirmUpload { .. }
            | Overlay::ConfirmRestartDevice { .. }
            | Overlay::ConfirmDelete { .. }
            | Overlay::SyncPreview { .. }
            | Overlay::ConfirmIdentifyDevice { .. }
            | Overlay::ConfirmInterruptDevice { .. } => self.agreed_on_device(o),
            _ => self.agreed_on_host(o),
        }
    }

    /// What refusing a question does.
    #[verifier::opaque]
    pub open spec fn declined(self, o: Overlay<Seq<char>>) -> Model {
        match o {
            Overlay::Confirm { .. } => if self.pending.install_confirm {
                self.install_declined()
            } else {
                self.flash_unasked()
            },
            Overlay::ConfirmInstallHere { dir, reason, .. } => self.offer_declined(dir, reason),
            Overlay::ConfirmRemovePackage { .. } => self.shown(Overlay::Packages),
            Overlay::ConfirmIdentifyDevice { .. } => self.identification_declined(),
            Overlay::ConfirmInterruptDevice { return_to_packages, .. } => self.listing_held(
                false,
            ).task(Task::DeclineHeldListing).requested(BrowserRequest::CancelHeld).handed_back(
                return_to_packages,
            ),
            Overlay::ConfirmOta { .. } => self.shown(Overlay::Ota),
            _ => self,
        }
    }

    /// The flash panel's pending action forgotten.
    pub open spec fn flash_unasked(self) -> Model {
        match self.flash {
            Some(flash) => self.with_flash(FlashPanel { pending: None, ..flash }),
            None => self,
        }
    }

    /// A question answered, or still open on either button.
    #[verifier::opaque]
    pub open spec fn answered(self, o: Overlay<Seq<char>>, step: ConfirmStep) -> Model {
        match (step, o.question()) {
            (ConfirmStep::Accept, _) => self.agreed(o),
            (ConfirmStep::Decline, _) => self.declined(o),
            (_, Some(confirm)) => self.shown(o.turned(highlight(step, confirm))),
            (_, None) => self.shown(o),
        }
    }

    /// A key in a dialog that reads the rest of its keys outside: `Esc`
    /// leaves it.
    #[verifier::opaque]
    pub open spec fn handed_on(self, key: KeyEvent, o: Overlay<Seq<char>>, task: Task) -> Model {
        if key.code == KeyCode::Esc {
            self
        } else {
            self.shown(o).task(task)
        }
    }

    /// A key in one particular dialog.
    #[verifier::opaque]
    pub open spec fn dialog_key(self, key: KeyEvent, o: Overlay<Seq<char>>) -> Model {
        let m = self.closed();
        match o {
            Overlay::Packages => m.handed_on(key, o, Task::PackagesKey(key)),
            Overlay::FileViewer => self.viewer_key(key),
            Overlay::ZephyrInstall => self.install_key(key),
            Overlay::BuildDashboard => self.dashboard_window_key(key),
            Overlay::Ota => self.ota_key(key),
            Overlay::DirPicker { .. } => m.handed_on(key, o, Task::DirPickerKey(key)),
            Overlay::Help { filter, filtering, selected } => m.help_key(
                key,
                filter,
                filtering,
                selected,
            ),
            Overlay::DevicePicker { selected } => m.device_picker_key(key, selected),
            Overlay::ThemePicker { selected } => m.theme_picker_key(key, selected),
            Overlay::FirmwarePicker { selected } => m.firmware_picker_key(key, selected),
            Overlay::ProjectSetup { selected } => m.project_setup_key(key, selected),
            Overlay::BuildTarget { kind, selected } => m.build_target_key(key, kind, selected),
            Overlay::BoardPicker { input, selected, scroll, focus } => m.catalogue_key(
                key,
                Catalogue::Boards,
                input,
                selected,
                scroll,
                focus,
            ),
            Overlay::ShieldPicker { input, selected, scroll, focus } => m.catalogue_key(
                key,
                Catalogue::Shields,
                input,
                selected,
                scroll,
                focus,
            ),
            Overlay::ProjectPicker { mpy, selected, error } => m.project_picker_key(
                key,
                mpy,
                selected,
                error,
            ),
            Overlay::BuildDirPicker { input, selected } => m.build_dir_key(key, input, selected),
            Overlay::FileActions { side, name, is_dir, is_text, status, selected } => m.file_menu_key(
                key,
                side,
                name,
                is_dir,
                is_text,
                status,
                selected,
            ),
            Overlay::CreateEntry { side, input } => m.create_entry_key(key, side, input),
            Overlay::RenameEntry { name, input } => m.rename_entry_key(key, name, input),
            Overlay::RestoreDeviceScript { selected, return_to_packages } => m.restore_key(
                key,
                selected,
                return_to_packages,
            ),
            Overlay::ZephyrActions { selected } => m.zephyr_actions_key(key, selected),
            Overlay::SdkToolchains { selected } => m.toolchains_key(key, selected),
            Overlay::OtaTransport { selected } => m.transport_key(key, selected),
            Overlay::OtaAddress { input } => m.address_key(key, input),
            _ => match o.question() {
                Some(confirm) => m.answered(o, confirm_step(key.code, confirm)),
                None => self,
            },
        }
    }

    /// A key while a dialog owns the screen. The dialogs without a hint of
    /// their own open the help on `F1`, and on `?` where `?` is no text.
    pub open spec fn overlay_key(self, key: KeyEvent) -> Model {
        match self.overlay {
            None => self,
            Some(o) => if overlay::help_reachable(o) && (key.code == KeyCode::F(1)
                || (!overlay::text_entry(o) && key.code == KeyCode::Char('?'))) {
                self.shown(flash_view::fresh_help())
            } else {
                self.dialog_key(key, o)
            },
        }
    }
}

impl<T> Overlay<T> {
    /// The highlighted button of a Yes/No question; `None` for every other
    /// dialog.
    pub open spec fn question(self) -> Option<bool> {
        match self {
            Overlay::Confirm { confirm, .. }
            | Overlay::ConfirmInstallHere { confirm, .. }
            | Overlay::ConfirmDownloadOverwrite { confirm, .. }
            | Overlay::ConfirmUpload { confirm, .. }
            | Overlay::ConfirmBuild { confirm, .. }
            | Overlay::ConfirmRemovePackage { confirm, .. }
            | Overlay::ConfirmRestartDevice { confirm }
            | Overlay::ConfirmSwitchProject { confirm }
            | Overlay::ConfirmEraseForMicroPython { confirm }
            | Overlay::ConfirmDelete { confirm, .. }
            | Overlay::SyncPreview { confirm, .. }
            | Overlay::ConfirmIdentifyDevice { confirm }
            | Overlay::ConfirmInterruptDevice { confirm, .. }
            | Overlay::ConfirmOta { confirm, .. } => Some(confirm),
            _ => None,
        }
    }

    /// The question with `yes` as its highlighted button.
    pub open spec fn turned(self, yes: bool) -> Overlay<T> {
        match self {
            Overlay::Confirm { message, .. } => Overlay::Confirm { message, confirm: yes },
            Overlay::ConfirmInstallHere { dir, reason, .. } => Overlay::ConfirmInstallHere {
                dir,
                reason,
                confirm: yes,
            },
            Overlay::ConfirmDownloadOverwrite { url, dest, .. } =>
                Overlay::ConfirmDownloadOverwrite { url, dest, confirm: yes },
            Overlay::ConfirmUpload { name, is_dir, .. } => Overlay::ConfirmUpload {
                name,
                is_dir,
                confirm: yes,
            },
            Overlay::ConfirmBuild { action, .. } => Overlay::ConfirmBuild { action, confirm: yes },
            Overlay::ConfirmRemovePackage { name, targets, declared, .. } =>
                Overlay::ConfirmRemovePackage { name, targets, declared, confirm: yes },
            Overlay::ConfirmRestartDevice { .. } => Overlay::ConfirmRestartDevice { confirm: yes },
            Overlay::ConfirmSwitchProject { .. } => Overlay::ConfirmSwitchProject { confirm: yes },
            Overlay::ConfirmEraseForMicroPython { .. } => Overlay::ConfirmEraseForMicroPython {
                confirm: yes,
            },
            Overlay::ConfirmDelete { side, name, is_dir, .. } => Overlay::ConfirmDelete {
                side,
                name,
                is_dir,
                confirm: yes,
            },
            Overlay::SyncPreview { plan, .. } => Overlay::SyncPreview { plan, confirm: yes },
            Overlay::ConfirmIdentifyDevice { .. } => Overlay::ConfirmIdentifyDevice {
                confirm: yes,
            },
            Overlay::ConfirmInterruptDevice { return_to_packages, .. } =>
                Overlay::ConfirmInterruptDevice { confirm: yes, return_to_packages },
            Overlay::ConfirmOta { what, .. } => Overlay::ConfirmOta { what, confirm: yes },
            _ => self,
        }
    }
}

impl Overlay<String> {
    pub fn highlighted(&self) -> (r: Option<bool>)
        ensures
            r == self.model().question(),
    {
        reveal(Overlay::model);
        match self {
            Overlay::Confirm { confirm, .. }
            | Overlay::ConfirmInstallHere { confirm, .. }
            | Overlay::ConfirmDownloadOverwrite { confirm, .. }
            | Overlay::ConfirmUpload { confirm, .. }
            | Overlay::ConfirmBuild { confirm, .. }
            | Overlay::ConfirmRemovePackage { confirm, .. }
            | Overlay::ConfirmRestartDevice { confirm }
            | Overlay::ConfirmSwitchProject { confirm }
            | Overlay::ConfirmEraseForMicroPython { confirm }
            | Overlay::ConfirmDelete { confirm, .. }
            | Overlay::SyncPreview { confirm, .. }
            | Overlay::ConfirmIdentifyDevice { confirm }
            | Overlay::ConfirmInterruptDevice { confirm, .. }
            | Overlay::ConfirmOta { confirm, .. } => Some(*confirm),
            _ => None,
        }
    }

    pub fn with_highlight(self, yes: bool) -> (r: Overlay)
        ensures
            r.model() == self.model().turned(yes),
    {
        reveal(Overlay::model);
        match self {
            Overlay::Confirm { message, .. } => Overlay::Confirm { message, confirm: yes },
            Overlay::ConfirmInstallHere { dir, reason, .. } => Overlay::ConfirmInstallHere {
                dir,
                reason,
                confirm: yes,
            },
            Overlay::ConfirmDownloadOverwrite { url, dest, .. } =>
                Overlay::ConfirmDownloadOverwrite { url, dest, confirm: yes },
            Overlay::ConfirmUpload { name, is_dir, .. } => Overlay::ConfirmUpload {
                name,
                is_dir,
                confirm: yes,
            },
            Overlay::ConfirmBuild { action, .. } => Overlay::ConfirmBuild { action, confirm: yes },
            Overlay::ConfirmRemovePackage { name, targets, declared, .. } =>
                Overlay::ConfirmRemovePackage { name, targets, declared, confirm: yes },
            Overlay::ConfirmRestartDevice { .. } => Overlay::ConfirmRestartDevice { confirm: yes },
            Overlay::ConfirmSwitchProject { .. } => Overlay::ConfirmSwitchProject { confirm: yes },
            Overlay::ConfirmEraseForMicroPython { .. } => Overlay::ConfirmEraseForMicroPython {
                confirm: yes,
            },
            Overlay::ConfirmDelete { side, name, is_dir, .. } => Overlay::ConfirmDelete {
                side,
                name,
                is_dir,
                confirm: yes,
            },
            Overlay::SyncPreview { plan, .. } => Overlay::SyncPreview { plan, confirm: yes },
            Overlay::ConfirmIdentifyDevice { .. } => Overlay::ConfirmIdentifyDevice {
                confirm: yes,
            },
            Overlay::ConfirmInterruptDevice { return_to_packages, .. } =>
                Overlay::ConfirmInterruptDevice { confirm: yes, return_to_packages },
            Overlay::ConfirmOta { what, .. } => Overlay::ConfirmOta { what, confirm: yes },
            _ => self,
        }
    }
}

impl App {
    fn filtered_help(&self, filter: &str) -> (r: Vec<HelpBinding>)
        ensures
            r@ == self@.help_rows(filter@),
    {
        let table = bindings(self.screen.view, HelpSection::Commands);
        visible(&table, filter)
    }

    /// Replays the help row at `selected` through the screen's own handler.
    fn activate_help(&mut self, filter: &str, selected: usize)
        ensures
            final(self)@ == old(self)@.help_activated(filter@, selected),
    {
        let rows = self.filtered_help(filter);
        if selected < rows.len() {
            if let Some((code, modifiers)) = rows[selected].event {
                let key = KeyEvent { code, modifiers };
                match self.screen.view {
                    View::Dashboard => self.on_dashboard_key(key, false),
                    View::Flash => self.on_flash_key(key),
                }
            }
        }
    }

    fn show_help(&mut self, filter: String, filtering: bool, selected: usize)
        ensures
            final(self)@ == old(self)@.help_shown(filter@, filtering, selected),
    {
        self.show(Overlay::Help { filter, filtering, selected });
    }

    /// Keeps the help's cursor inside the rows `filter` leaves.
    fn refilter_help(&mut self, filter: String, selected: usize)
        ensures
            final(self)@ == old(self)@.help_shown(
                filter@,
                true,
                held_in(selected, old(self)@.help_rows(filter@).len()),
            ),
    {
        let count: usize = self.filtered_help(filter.as_str()).len();
        self.show_help(filter, true, hold_in(selected, count));
    }

    pub fn on_help_key(&mut self, key: KeyEvent, filter: String, filtering: bool, selected: usize)
        ensures
            final(self)@ == old(self)@.help_key(key, filter@, filtering, selected),
    {
        reveal(Model::help_key);
        let code = key.code;
        let rows: usize = self.filtered_help(filter.as_str()).len();
        let count: usize = if rows == 0 {
            1
        } else {
            rows
        };
        if code == KeyCode::Enter {
            self.activate_help(filter.as_str(), selected);
        } else if code == KeyCode::Up {
            self.show_help(filter, filtering, wrapped_up(selected, count));
        } else if code == KeyCode::Down {
            self.show_help(filter, filtering, wrapped_down(selected, count));
        } else if filtering {
            match code {
                KeyCode::Char(c) => {
                    let mut filter = filter;
                    filter.push(c);
                    self.refilter_help(filter, selected);
                },
                KeyCode::Backspace => {
                    let mut filter = filter;
                    let _ = filter.pop();
                    self.refilter_help(filter, selected);
                },
                KeyCode::Esc => self.show_help(filter, false, hold_in(selected, count)),
                _ => self.show_help(filter, filtering, selected),
            }
        } else if code == KeyCode::Esc || code == KeyCode::Char('?') || code == KeyCode::Char(
            'q',
        ) {
        } else if code == KeyCode::Char('/') {
            self.show_help(filter, true, hold_in(selected, count));
        } else if code == KeyCode::Char('k') {
            self.show_help(filter, false, wrapped_up(selected, count));
        } else if code == KeyCode::Char('j') {
            self.show_help(filter, false, wrapped_down(selected, count));
        } else if code == KeyCode::Home {
            self.show_help(filter, false, 0);
        } else if code == KeyCode::End {
            self.show_help(filter, false, count - 1);
        } else {
            self.show_help(filter, filtering, selected);
        }
    }

    fn turn(&mut self, overlay: Overlay, step: ConfirmStep, confirm: bool)
        ensures
            final(self)@ == old(self)@.shown(
                overlay.model().turned(highlight(step, confirm)),
            ),
    {
        self.show(overlay.with_highlight(highlighted(step, confirm)));
    }

    fn unask_flash(&mut self)
        ensures
            final(self)@ == old(self)@.flash_unasked(),
    {
        if let Some(flash) = &mut self.flash {
            flash.pending = None;
        }
    }

    fn hand_back(&mut self, to_packages: bool)
        ensures
            final(self)@ == old(self)@.handed_back(to_packages),
    {
        if to_packages {
            self.show(Overlay::Packages);
        }
    }

    fn allow_interruption(&mut self, to_packages: bool)
        ensures
            final(self)@ == old(self)@.with_chain(
                Chain { restore_pending: true, ..old(self)@.chain },
            ).script_marked(ScriptState::Stopped).handed_back(to_packages),
    {
        self.chain.restore_pending = true;
        self.set_script_state(ScriptState::Stopped);
        self.hand_back(to_packages);
    }

    fn refuse_interruption(&mut self, to_packages: bool)
        ensures
            final(self)@ == old(self)@.listing_held(false).task(
                Task::DeclineHeldListing,
            ).requested(BrowserRequest::CancelHeld).handed_back(to_packages),
    {
        self.chain.held_root_listing = false;
        self.task(Task::DeclineHeldListing);
        self.request_browser(BrowserRequest::CancelHeld);
        self.hand_back(to_packages);
    }

    fn agree_on_device(&mut self, overlay: Overlay)
        ensures
            final(self)@ == old(self)@.agreed_on_device(overlay.model()),
    {
        reveal(Overlay::model);
        reveal(Model::agreed_on_device);
        match overlay {
            Overlay::ConfirmUpload { name, is_dir, .. } => {
                let port = self.port();
                let task = if is_dir {
                    TextTask::UploadDir { port }
                } else {
                    TextTask::Upload { port }
                };
                self.dispatch_browser(Effect::Text(task, name));
            },
            Overlay::ConfirmRestartDevice { .. } => self.restart_device(),
            Overlay::ConfirmDelete { side, name, is_dir, .. } => self.delete_file(
                side,
                name.as_str(),
                is_dir,
            ),
            Overlay::SyncPreview { plan, .. } => {
                let deletes: bool = plan.deletes.len() > 0;
                self.request_browser(BrowserRequest::ExecuteSync { plan, deletes });
            },
            Overlay::ConfirmIdentifyDevice { .. } => self.confirm_identify_device(true),
            Overlay::ConfirmInterruptDevice { return_to_packages, .. } => self.allow_interruption(
                return_to_packages,
            ),
            _ => {},
        }
    }

    fn agree_on_host(&mut self, overlay: Overlay)
        ensures
            final(self)@ == old(self)@.agreed_on_host(overlay.model()),
    {
        reveal(Overlay::model);
        reveal(Model::agreed_on_host);
        match overlay {
            Overlay::Confirm { .. } => if self.pending.install_confirm {
                self.start_install();
            } else {
                self.confirm_flash_action();
            },
            Overlay::ConfirmInstallHere { dir, .. } => self.open_installer(dir),
            Overlay::ConfirmDownloadOverwrite { url, dest, .. } => self.start_download(url, dest),
            Overlay::ConfirmBuild { action, .. } => match action {
                BuildAction::Build(_) | BuildAction::Flash => self.start_build_command(action),
                BuildAction::UpdateZephyr => self.task(Task::WorkspaceUpdate),
                _ => {},
            },
            Overlay::ConfirmRemovePackage { name, targets, declared, .. } => {
                self.show(Overlay::Packages);
                self.emit(Effect::Text(TextTask::RemovePackage { targets, declared }, name));
            },
            Overlay::ConfirmOta { what, .. } => self.accept_ota_confirm(what),
            _ => {},
        }
    }

    /// Does what agreeing to the question does.
    fn agree(&mut self, overlay: Overlay)
        ensures
            final(self)@ == old(self)@.agreed(overlay.model()),
    {
        reveal(Model::agreed);
        reveal(Overlay::model);
        match &overlay {
            Overlay::ConfirmSwitchProject { .. } => self.request_project_switch(),
            Overlay::ConfirmEraseForMicroPython { .. } => self.confirm_erase_for_micropython(),
            Overlay::ConfirmUpload { .. }
            | Overlay::ConfirmRestartDevice { .. }
            | Overlay::ConfirmDelete { .. }
            | Overlay::SyncPreview { .. }
            | Overlay::ConfirmIdentifyDevice { .. }
            | Overlay::ConfirmInterruptDevice { .. } => self.agree_on_device(overlay),
            _ => self.agree_on_host(overlay),
        }
    }

    /// Does what refusing the question does.
    fn refuse(&mut self, overlay: Overlay)
        ensures
            final(self)@ == old(self)@.declined(overlay.model()),
    {
        reveal(Overlay::model);
        reveal(Model::declined);
        match overlay {
            Overlay::Confirm { .. } => if self.pending.install_confirm {
                self.cancel_install();
            } else {
                self.unask_flash();
            },
            Overlay::ConfirmInstallHere { dir, reason, .. } => self.decline_install_offer(
                dir,
                reason,
            ),
            Overlay::ConfirmRemovePackage { .. } => self.show(Overlay::Packages),
            Overlay::ConfirmIdentifyDevice { .. } => self.confirm_identify_device(false),
            Overlay::ConfirmInterruptDevice { return_to_packages, .. } => self.refuse_interruption(
                return_to_packages,
            ),
            Overlay::ConfirmOta { .. } => self.decline_ota_confirm(),
            _ => {},
        }
    }

    /// Answers the question, or leaves it open on the other button.
    pub fn answer(&mut self, overlay: Overlay, step: ConfirmStep)
        ensures
            final(self)@ == old(self)@.answered(overlay.model(), step),
    {
        reveal(Model::answered);
        match step {
            ConfirmStep::Accept => self.agree(overlay),
            ConfirmStep::Decline => self.refuse(overlay),
            _ => match overlay.highlighted() {
                Some(confirm) => self.turn(overlay, step, confirm),
                None => self.show(overlay),
            },
        }
    }

    pub fn on_theme_picker_key(&mut self, key: KeyEvent, selected: usize)
        ensures
            final(self)@ == old(self)@.theme_picker_key(key, selected),
    {
        reveal(Model::theme_picker_key);
        if leave_key(key.code) {
        } else if key.code == KeyCode::Enter {
            self.apply_theme_picker(selected);
        } else {
            let row = landed(walk(key.code, selected, THEME_COUNT + 1), selected);
            self.show(Overlay::ThemePicker { selected: row });
        }
    }

    pub fn on_device_picker_key(&mut self, key: KeyEvent, selected: usize)
        ensures
            final(self)@ == old(self)@.device_picker_key(key, selected),
    {
        reveal(Model::device_picker_key);
        if leave_key(key.code) {
        } else if key.code == KeyCode::Enter {
            self.show(Overlay::DevicePicker { selected });
            self.apply_device_picker(selected);
            self.close();
        } else {
            let count: usize = self.panels.devices.count();
            let row = landed(walk(key.code, selected, or_one(count)), selected);
            self.show(Overlay::DevicePicker { selected: row });
        }
    }

    pub fn on_firmware_picker_key(&mut self, key: KeyEvent, selected: usize)
        ensures
            final(self)@ == old(self)@.firmware_picker_key(key, selected),
    {
        reveal(Model::firmware_picker_key);
        let count: usize = match &self.flash {
            Some(flash) => flash.firmware_count,
            None => 0,
        };
        if leave_key(key.code) {
        } else if key.code == KeyCode::Enter {
            self.apply_firmware_picker(selected);
        } else {
            let row = landed(walk(key.code, selected, or_one(count)), selected);
            self.show(Overlay::FirmwarePicker { selected: row });
        }
    }

    pub fn on_project_setup_key(&mut self, key: KeyEvent, selected: usize)
        ensures
            final(self)@ == old(self)@.project_setup_key(key, selected),
    {
        reveal(Model::project_setup_key);
        if leave_key(key.code) {
        } else if key.code == KeyCode::Enter {
            self.apply_project_setup(selected);
        } else {
            let row = landed(walk(key.code, selected, BACKEND_COUNT), selected);
            self.show(Overlay::ProjectSetup { selected: row });
        }
    }

    pub fn on_build_target_key(&mut self, key: KeyEvent, kind: BuildKind, selected: usize)
        ensures
            final(self)@ == old(self)@.build_target_key(key, kind, selected),
    {
        reveal(Model::build_target_key);
        if leave_key(key.code) {
        } else if key.code == KeyCode::Enter {
            self.apply_build_target(kind, selected);
        } else {
            let row = landed(walk(key.code, selected, 2), selected);
            self.show(Overlay::BuildTarget { kind, selected: row });
        }
    }

    pub(crate) fn count_picker_rows(&self, what: Catalogue, input: &str) -> (r: Option<usize>)
        ensures
            match r {
                Some(count) => self@.picker_rows(what, input@) == Some(count as nat),
                None => self@.picker_rows(what, input@) is None,
            },
            r is Some && what == Catalogue::Shields ==> r.unwrap() > 0,
    {
        if self.panels.build.is_none() {
            return None;
        }
        match what {
            Catalogue::Boards => Some(filtered_names(&self.panels.lists.boards, input).len()),
            Catalogue::Shields => {
                let count: usize = filtered_names(&self.panels.lists.shields, input).len();
                Some(
                    if count < usize::MAX {
                        count + 1
                    } else {
                        count
                    },
                )
            },
        }
    }

    pub(crate) fn show_catalogue(
        &mut self,
        what: Catalogue,
        input: String,
        selected: usize,
        scroll: u16,
        focus: DocsFocus,
    )
        ensures
            final(self)@ == old(self)@.catalogue_shown(what, input@, selected, scroll, focus),
    {
        match what {
            Catalogue::Boards => self.show(
                Overlay::BoardPicker { input, selected, scroll, focus },
            ),
            Catalogue::Shields => self.show(
                Overlay::ShieldPicker { input, selected, scroll, focus },
            ),
        }
    }

    fn rebuild_catalogue(
        &mut self,
        what: Catalogue,
        input: String,
        selected: usize,
        focus: DocsFocus,
    )
        ensures
            final(self)@ == old(self)@.catalogue_rebuilt(what, input@, selected, focus),
    {
        let row: usize = match self.count_picker_rows(what, input.as_str()) {
            Some(count) => hold_in(selected, count),
            None => match what {
                Catalogue::Boards => selected,
                Catalogue::Shields => 0,
            },
        };
        self.show_catalogue(what, input, row, 0, focus);
    }

    fn reset_docs_list(&mut self)
        ensures
            final(self)@ == old(self)@.docs_top(),
    {
        self.drawn.docs_list_offset = 0;
    }

    /// The board and the shield picker share their grammar.
    pub fn on_catalogue_key(
        &mut self,
        key: KeyEvent,
        what: Catalogue,
        input: String,
        selected: usize,
        scroll: u16,
        focus: DocsFocus,
    )
        ensures
            final(self)@ == old(self)@.catalogue_key(key, what, input@, selected, scroll, focus),
    {
        reveal(Model::catalogue_key);
        let mut input = input;
        let code = key.code;
        let details = focus == DocsFocus::Details;
        let page: u16 = rows_per_page(self.drawn.docs_viewport);
        let count: usize = match self.count_picker_rows(what, input.as_str()) {
            Some(count) => or_one(count),
            None => 1,
        };
        if code == KeyCode::Esc {
        } else if code == KeyCode::Enter {
            match what {
                Catalogue::Boards => self.apply_board_picker(input.as_str(), selected),
                Catalogue::Shields => self.apply_shield_picker(input.as_str(), selected),
            }
        } else if code == KeyCode::Backspace {
            let _ = input.pop();
            self.reset_docs_list();
            self.rebuild_catalogue(what, input, selected, focus);
        } else if code == KeyCode::Up {
            if details {
                self.show_catalogue(what, input, selected, scroll.saturating_sub(1), focus);
            } else {
                self.rebuild_catalogue(what, input, wrapped_up(selected, count), focus);
            }
        } else if code == KeyCode::Down {
            if details {
                self.show_catalogue(what, input, selected, scroll.saturating_add(1), focus);
            } else {
                self.rebuild_catalogue(what, input, wrapped_down(selected, count), focus);
            }
        } else if code == KeyCode::Tab {
            self.show_catalogue(what, input, selected, scroll, focus.toggled());
        } else if code == KeyCode::PageUp {
            self.show_catalogue(what, input, selected, scroll.saturating_sub(page), focus);
        } else if code == KeyCode::PageDown {
            self.show_catalogue(what, input, selected, scroll.saturating_add(page), focus);
        } else {
            match code {
                KeyCode::Char(c) => {
                    input.push(c);
                    self.reset_docs_list();
                    self.rebuild_catalogue(what, input, selected, focus);
                },
                _ => self.show_catalogue(what, input, selected, scroll, focus),
            }
        }
    }

    fn count_projects(&self, mpy: bool) -> (r: usize)
        ensures
            r == self@.project_rows(mpy),
            r > 0,
    {
        let count: usize = if mpy {
            if self.project.mpy_projects.is_some() {
                self.project.mpy_project_count
            } else {
                0
            }
        } else {
            match &self.panels.workspace {
                Some(panel) => if panel.projects.is_some() {
                    panel.project_count
                } else {
                    0
                },
                None => 0,
            }
        };
        or_one(count)
    }

    pub fn on_project_picker_key(
        &mut self,
        key: KeyEvent,
        mpy: bool,
        selected: usize,
        error: Option<String>,
    )
        ensures
            final(self)@ == old(self)@.project_picker_key(
                key,
                mpy,
                selected,
                overlay::opt_text(error),
            ),
    {
        reveal(Model::project_picker_key);
        let count: usize = self.count_projects(mpy);
        if leave_key(key.code) {
        } else if key.code == KeyCode::Home {
            self.show(Overlay::ProjectPicker { mpy, selected: 0, error: None });
        } else if key.code == KeyCode::End {
            self.show(Overlay::ProjectPicker { mpy, selected: count - 1, error: None });
        } else if key.code == KeyCode::Enter {
            self.show(Overlay::ProjectPicker { mpy, selected, error });
            if mpy {
                self.task(Task::ApplyMpyProject(selected));
            } else {
                self.apply_project_picker(selected);
            }
        } else {
            match walk(key.code, selected, count) {
                Some(row) => self.show(Overlay::ProjectPicker { mpy, selected: row, error: None }),
                None => self.show(Overlay::ProjectPicker { mpy, selected, error }),
            }
        }
    }

    fn rebuild_build_dirs(&mut self, input: String, selected: usize)
        ensures
            final(self)@ == old(self)@.build_dir_rebuilt(input@, selected),
    {
        let row: usize = if self.panels.build.is_some() {
            hold_in(
                selected,
                filtered_names(&self.panels.lists.build_dirs, input.as_str()).len(),
            )
        } else {
            selected
        };
        self.show(Overlay::BuildDirPicker { input, selected: row });
    }

    pub fn on_build_dir_key(&mut self, key: KeyEvent, input: String, selected: usize)
        ensures
            final(self)@ == old(self)@.build_dir_key(key, input@, selected),
    {
        reveal(Model::build_dir_key);
        let mut input = input;
        let code = key.code;
        let count: usize = if self.panels.build.is_some() {
            or_one(filtered_names(&self.panels.lists.build_dirs, input.as_str()).len())
        } else {
            1
        };
        if code == KeyCode::Esc {
        } else if code == KeyCode::Enter {
            self.emit(Effect::Text(TextTask::SetBuildDir(selected), input));
        } else if code == KeyCode::Backspace {
            let _ = input.pop();
            self.rebuild_build_dirs(input, selected);
        } else if code == KeyCode::Up {
            self.rebuild_build_dirs(input, wrapped_up(selected, count));
        } else if code == KeyCode::Down {
            self.rebuild_build_dirs(input, wrapped_down(selected, count));
        } else {
            match code {
                KeyCode::Char(c) => {
                    input.push(c);
                    self.rebuild_build_dirs(input, selected);
                },
                _ => self.show(Overlay::BuildDirPicker { input, selected }),
            }
        }
    }

    pub fn on_file_menu_key(
        &mut self,
        key: KeyEvent,
        side: Side,
        name: String,
        is_dir: bool,
        is_text: bool,
        status: Option<SyncStatus>,
        selected: usize,
    )
        ensures
            final(self)@ == old(self)@.file_menu_key(
                key,
                side,
                name@,
                is_dir,
                is_text,
                status,
                selected,
            ),
    {
        reveal(Model::file_menu_key);
        let code = key.code;
        let caps = self.capabilities();
        let menu = FileAction::for_entry(side, is_dir, is_text, status, caps);
        if leave_key(code) || code == KeyCode::Left {
        } else if (code == KeyCode::Enter || code == KeyCode::Right) && selected < menu.len() {
            self.run_file_action(side, name.as_str(), is_dir, menu[selected]);
        } else {
            let row = landed(walk(code, selected, or_one(menu.len())), selected);
            self.show(
                Overlay::FileActions { side, name, is_dir, is_text, status, selected: row },
            );
        }
    }

    pub fn on_create_entry_key(&mut self, key: KeyEvent, side: Side, input: String)
        ensures
            final(self)@ == old(self)@.create_entry_key(key, side, input@),
    {
        reveal(Model::create_entry_key);
        let mut input = input;
        match key.code {
            KeyCode::Esc => {},
            KeyCode::Enter => self.create_entry(side, input.as_str()),
            KeyCode::Backspace => {
                let _ = input.pop();
                self.show(Overlay::CreateEntry { side, input });
            },
            KeyCode::Char(c) => {
                input.push(c);
                self.show(Overlay::CreateEntry { side, input });
            },
            _ => self.show(Overlay::CreateEntry { side, input }),
        }
    }

    pub fn on_rename_entry_key(&mut self, key: KeyEvent, name: String, input: String)
        ensures
            final(self)@ == old(self)@.rename_entry_key(key, name@, input@),
    {
        reveal(Model::rename_entry_key);
        let mut input = input;
        match key.code {
            KeyCode::Esc => {},
            KeyCode::Enter => self.rename_entry(name.as_str(), input.as_str()),
            KeyCode::Backspace => {
                let _ = input.pop();
                self.show(Overlay::RenameEntry { name, input });
            },
            KeyCode::Char(c) => {
                input.push(c);
                self.show(Overlay::RenameEntry { name, input });
            },
            _ => self.show(Overlay::RenameEntry { name, input }),
        }
    }

    fn close_viewer(&mut self) -> (r: Option<FileViewer>)
        ensures
            final(self)@ == old(self)@.viewer_closed(),
            app::opt_viewer(r) == old(self)@.desk.viewer,
    {
        reveal(app::opt_viewer);
        self.close();
        self.desk.viewer.take()
    }

    fn edit_viewed(&mut self)
        ensures
            final(self)@ == old(self)@.viewer_edited(),
    {
        reveal(app::opt_viewer);
        reveal(app::opt_edit);
        if let Some(viewer) = self.close_viewer() {
            match viewer.source {
                ViewerSource::Local(path) => {
                    self.desk.pending_edit = Some(PendingEdit { path, device_target: None });
                },
                ViewerSource::Device(path) => {
                    let port = self.port();
                    self.dispatch_browser(
                        Effect::Text(TextTask::EditDownload { port }, path.name),
                    );
                },
                _ => {},
            }
        }
    }

    pub fn on_viewer_key(&mut self, key: KeyEvent)
        ensures
            final(self)@ == old(self)@.viewer_key(key),
    {
        reveal(Model::viewer_key);
        let code = key.code;
        let page: usize = or_one(self.drawn.viewer_viewport);
        if leave_key(code) {
            let _ = self.close_viewer();
        } else if code == KeyCode::Char('e') {
            self.edit_viewed();
        } else if up_key(code) {
            self.scroll_viewer(false, 1);
        } else if down_key(code) {
            self.scroll_viewer(true, 1);
        } else if code == KeyCode::PageUp {
            self.scroll_viewer(false, page);
        } else if code == KeyCode::PageDown {
            self.scroll_viewer(true, page);
        } else if code == KeyCode::Home {
            self.jump_viewer(0);
        } else if code == KeyCode::End {
            self.jump_viewer(usize::MAX);
        }
    }

    pub fn on_zephyr_actions_key(&mut self, key: KeyEvent, selected: usize)
        ensures
            final(self)@ == old(self)@.zephyr_actions_key(key, selected),
    {
        reveal(Model::zephyr_actions_key);
        if leave_key(key.code) {
        } else if key.code == KeyCode::Enter {
            if selected == 0 {
                self.show(
                    Overlay::ConfirmBuild { action: BuildAction::UpdateZephyr, confirm: false },
                );
            } else if selected == 1 {
                self.show(Overlay::ZephyrActions { selected });
                self.open_sdk_toolchains_shortcut();
            } else if selected == 2 {
                self.show(Overlay::ZephyrActions { selected });
                self.open_build_dashboard();
            } else {
                self.run_build_action(BuildAction::Dashboard);
            }
        } else {
            let row = landed(walk(key.code, selected, ZEPHYR_ACTIONS_COUNT), selected);
            self.show(Overlay::ZephyrActions { selected: row });
        }
    }

    pub fn on_restore_key(&mut self, key: KeyEvent, selected: usize, to_packages: bool)
        ensures
            final(self)@ == old(self)@.restore_key(key, selected, to_packages),
    {
        reveal(Model::restore_key);
        if leave_key(key.code) {
            self.hand_back(to_packages);
        } else if key.code == KeyCode::Enter {
            self.hand_back(to_packages);
            self.apply_restore_device_script(selected);
        } else {
            let row = landed(walk(key.code, selected, 3), selected);
            self.show(
                Overlay::RestoreDeviceScript { selected: row, return_to_packages: to_packages },
            );
        }
    }

    fn hand_on(&mut self, key: KeyEvent, o: Overlay, task: Task)
        ensures
            final(self)@ == old(self)@.handed_on(key, o.model(), task),
    {
        reveal(Model::handed_on);
        if key.code != KeyCode::Esc {
            self.show(o);
            self.task(task);
        }
    }

    /// Handles a key in one particular dialog, taken off the screen.
    #[verifier::rlimit(40)]
    fn on_dialog_key(&mut self, key: KeyEvent, o: Overlay)
        ensures
            forall|m: Model|
                m.overlay == Some(o.model()) && #[trigger] m.closed() == old(self)@
                    ==> final(self)@ == m.dialog_key(key, o.model()),
    {
        reveal(Overlay::model);
        reveal(Model::dialog_key);
        match o {
            Overlay::Packages => self.hand_on(key, o, Task::PackagesKey(key)),
            Overlay::FileViewer => {
                self.show(Overlay::FileViewer);
                self.on_viewer_key(key);
            },
            Overlay::ZephyrInstall => {
                self.show(Overlay::ZephyrInstall);
                self.on_install_key(key);
            },
            Overlay::BuildDashboard => {
                self.show(Overlay::BuildDashboard);
                self.on_build_dashboard_key(key);
            },
            Overlay::Ota => {
                self.show(Overlay::Ota);
                self.on_ota_key(key);
            },
            Overlay::DirPicker { .. } => self.hand_on(key, o, Task::DirPickerKey(key)),
            Overlay::Help { filter, filtering, selected } => self.on_help_key(
                key,
                filter,
                filtering,
                selected,
            ),
            Overlay::DevicePicker { selected } => self.on_device_picker_key(key, selected),
            Overlay::ThemePicker { selected } => self.on_theme_picker_key(key, selected),
            Overlay::FirmwarePicker { selected } => self.on_firmware_picker_key(key, selected),
            Overlay::ProjectSetup { selected } => self.on_project_setup_key(key, selected),
            Overlay::BuildTarget { kind, selected } => self.on_build_target_key(
                key,
                kind,
                selected,
            ),
            Overlay::BoardPicker { input, selected, scroll, focus } => self.on_catalogue_key(
                key,
                Catalogue::Boards,
                input,
                selected,
                scroll,
                focus,
            ),
            Overlay::ShieldPicker { input, selected, scroll, focus } => self.on_catalogue_key(
                key,
                Catalogue::Shields,
                input,
                selected,
                scroll,
                focus,
            ),
            Overlay::ProjectPicker { mpy, selected, error } => self.on_project_picker_key(
                key,
                mpy,
                selected,
                error,
            ),
            Overlay::BuildDirPicker { input, selected } => self.on_build_dir_key(
                key,
                input,
                selected,
            ),
            Overlay::FileActions { side, name, is_dir, is_text, status, selected } =>
                self.on_file_menu_key(key, side, name, is_dir, is_text, status, selected),
            Overlay::CreateEntry { side, input } => self.on_create_entry_key(key, side, input),
            Overlay::RenameEntry { name, input } => self.on_rename_entry_key(key, name, input),
            Overlay::RestoreDeviceScript { selected, return_to_packages } => self.on_restore_key(
                key,
                selected,
                return_to_packages,
            ),
            Overlay::ZephyrActions { selected } => self.on_zephyr_actions_key(key, selected),
            Overlay::SdkToolchains { selected } => self.on_sdk_toolchains_key(key, selected),
            Overlay::OtaTransport { selected } => self.on_ota_transport_key(key, selected),
            Overlay::OtaAddress { input } => self.on_ota_address_key(key, input),
            _ => {
                if let Some(confirm) = o.highlighted() {
                    self.answer(o, dispatch_confirm(key.code, confirm));
                } else {
                    self.show(o);
                }
            },
        }
    }

    /// Handles a key while a dialog owns the screen.
    pub fn on_overlay_key(&mut self, key: KeyEvent)
        ensures
            final(self)@ == old(self)@.overlay_key(key),
    {
        if let Some(o) = self.take_overlay() {
            if is_help_reachable_overlay(&o) && (key.code == KeyCode::F(1) || (
            !is_text_entry_overlay(&o) && key.code == KeyCode::Char('?'))) {
                self.open_help();
            } else {
                self.on_dialog_key(key, o);
            }
        }
    }
}

} // verus!
