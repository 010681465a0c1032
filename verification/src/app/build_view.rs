//! Build-panel driving: the action list's keys, the pickers behind the
//! target's answers, and the gates in front of every command.

use vstd::prelude::*;
use vstd::view::View as _;
use vstd::string::*;

use crate::app;
use crate::app::{App, DocsFocus, Drawn, Focus, LogTab, Model, Panels, Pending, Screen, View};
use crate::app::file_browser;
use crate::app::monitor_view::MonitorSource;
use crate::backend::Capability;
use crate::effect::{Effect, Task, TextTask};
use crate::geometry;
use crate::geometry::page_step;
use crate::input;
use crate::input::{KeyCode, KeyEvent, down_key, up_key};
use crate::overlay;
use crate::overlay::{DirPurpose, Overlay};
use crate::panels;
use crate::panels::{
    BuildAction, BuildKind, BuildPanel, Lists, Variant, WorkspacePanel, filtered_names,
    variant_index_for,
};
use crate::text;

verus! {

broadcast use crate::overlay::group_overlay_models;

/// What composing a build command came to.
pub enum Composed<T = String> {
    /// The backend offers no such action.
    NoCommand,
    /// The panel did not start it.
    Refused,
    /// It runs, under this command line.
    Started(T),
}

impl Composed<String> {
    pub open spec fn model(self) -> Composed<Seq<char>> {
        match self {
            Composed::NoCommand => Composed::NoCommand,
            Composed::Refused => Composed::Refused,
            Composed::Started(command) => Composed::Started(command@),
        }
    }
}

/// The row of a projects folder that was picked.
pub struct PickedProject {
    pub name: String,
    pub path: String,
    pub buildable: bool,
}

/// What the documentation pane is about.
pub enum DocsSubject<T = String> {
    Nothing,
    Board(T),
    Shield(T),
}

impl DocsSubject<String> {
    pub open spec fn model(self) -> DocsSubject<Seq<char>> {
        match self {
            DocsSubject::Nothing => DocsSubject::Nothing,
            DocsSubject::Board(name) => DocsSubject::Board(name@),
            DocsSubject::Shield(name) => DocsSubject::Shield(name@),
        }
    }
}

/// What a build action is called in the log.
pub open spec fn action_label(action: BuildAction) -> Seq<char> {
    match action {
        BuildAction::Build(kind) => kind.spec_label(),
        BuildAction::Flash => "Flash"@,
        BuildAction::SizeReport => "Memory report"@,
        BuildAction::Run => "Run"@,
        BuildAction::Dashboard => "Dashboard"@,
        _ => "Build"@,
    }
}

fn label_of(action: BuildAction) -> (r: &'static str)
    ensures
        r@ == action_label(action),
{
    match action {
        BuildAction::Build(kind) => kind.label(),
        BuildAction::Flash => "Flash",
        BuildAction::SizeReport => "Memory report",
        BuildAction::Run => "Run",
        BuildAction::Dashboard => "Dashboard",
        _ => "Build",
    }
}

/// How a refusal for want of a project names the action.
pub open spec fn refused_name(action: BuildAction) -> Seq<char> {
    match action {
        BuildAction::Build(kind) => kind.spec_label(),
        BuildAction::Flash => "flash"@,
        BuildAction::Menuconfig => "menuconfig"@,
        BuildAction::Dashboard => "dashboard"@,
        BuildAction::SizeReport => "memory report"@,
        _ => "this command"@,
    }
}

fn refused_name_of(action: BuildAction) -> (r: &'static str)
    ensures
        r@ == refused_name(action),
{
    match action {
        BuildAction::Build(kind) => kind.label(),
        BuildAction::Flash => "flash",
        BuildAction::Menuconfig => "menuconfig",
        BuildAction::Dashboard => "dashboard",
        BuildAction::SizeReport => "memory report",
        _ => "this command",
    }
}

/// Whether the action's command runs in the project.
pub open spec fn in_project(action: BuildAction) -> bool {
    match action {
        BuildAction::Build(_)
        | BuildAction::Flash
        | BuildAction::Menuconfig
        | BuildAction::Dashboard
        | BuildAction::SizeReport => true,
        _ => false,
    }
}

fn runs_in_project(action: BuildAction) -> (r: bool)
    ensures
        r == in_project(action),
{
    match action {
        BuildAction::Build(_)
        | BuildAction::Flash
        | BuildAction::Menuconfig
        | BuildAction::Dashboard
        | BuildAction::SizeReport => true,
        _ => false,
    }
}

/// The place of `action` among the panel's rows.
pub open spec fn action_place(actions: Seq<BuildAction>, action: BuildAction) -> Option<int>
    decreases actions.len(),
{
    if actions.len() == 0 {
        None
    } else if actions[0] == action {
        Some(0)
    } else {
        match action_place(actions.drop_first(), action) {
            Some(i) => Some(i + 1),
            None => None,
        }
    }
}

fn action_position(actions: &Vec<BuildAction>, action: BuildAction) -> (r: Option<usize>)
    ensures
        geometry::opt_index(r) == action_place(actions@, action),
{
    let mut i: usize = 0;
    assert(actions@.skip(0) =~= actions@);
    while i < actions.len()
        invariant
            i <= actions.len(),
            action_place(actions@, action) == match action_place(actions@.skip(i as int), action) {
                Some(k) => Some(k + i),
                None => None,
            },
        decreases actions.len() - i,
    {
        let ghost rest = actions@.skip(i as int);
        if actions[i] == action {
            assert(rest[0] == action);
            return Some(i);
        }
        assert(rest.drop_first() =~= actions@.skip(i + 1));
        i = i + 1;
    }
    assert(actions@.skip(i as int).len() == 0);
    None
}

/// The first variant called `name` is a simulator.
pub open spec fn names_simulator(variants: Seq<Variant>, name: Seq<char>) -> bool
    decreases variants.len(),
{
    if variants.len() == 0 {
        false
    } else if variants[0].name@ == name {
        variants[0].simulator
    } else {
        names_simulator(variants.drop_first(), name)
    }
}

fn simulator_named(variants: &Vec<Variant>, name: &String) -> (r: bool)
    ensures
        r == names_simulator(variants@, name@),
{
    let mut i: usize = 0;
    assert(variants@.skip(0) =~= variants@);
    while i < variants.len()
        invariant
            i <= variants.len(),
            names_simulator(variants@, name@) == names_simulator(
                variants@.skip(i as int),
                name@,
            ),
        decreases variants.len() - i,
    {
        let ghost rest = variants@.skip(i as int);
        if variants[i].name == *name {
            assert(rest[0].name@ == name@);
            return variants[i].simulator;
        }
        assert(rest.drop_first() =~= variants@.skip(i + 1));
        i = i + 1;
    }
    false
}

impl Model {
    pub open spec fn with_build(self, build: BuildPanel) -> Model {
        self.with_panels(Panels { build: Some(build), ..self.panels })
    }

    pub open spec fn build_busy(self) -> bool {
        self.panels.build matches Some(panel) && panel.busy
    }

    /// Whether an action's row is live.
    pub open spec fn build_enabled(self, action: BuildAction) -> bool {
        match self.panels.build {
            None => true,
            Some(panel) => if action != BuildAction::Stop && panel.busy {
                false
            } else {
                match action {
                    BuildAction::Build(_) | BuildAction::Flash | BuildAction::Menuconfig =>
                        panel.lifecycle_ready,
                    BuildAction::UpdateZephyr => self.panels.workspace matches Some(workspace)
                        && workspace.dir is Some,
                    _ => true,
                }
            },
        }
    }

    pub open spec fn build_cursor(self, cursor: int) -> Model {
        match self.panels.build {
            Some(panel) => self.with_build(BuildPanel { cursor: cursor as usize, ..panel }),
            None => self,
        }
    }

    /// A key while the build panel holds focus.
    #[verifier::opaque]
    pub open spec fn build_key(self, key: KeyEvent) -> Model {
        let code = key.code;
        let actions = self.panels.lists.build_actions@;
        let len = actions.len() as int;
        match self.panels.build {
            None => self,
            Some(panel) => {
                let at = panel.cursor as int;
                if input::is_up(code) {
                    self.build_cursor(geometry::paged(at, false, 1, len))
                } else if input::is_down(code) {
                    self.build_cursor(geometry::paged(at, true, 1, len))
                } else if code == KeyCode::PageUp {
                    self.build_cursor(geometry::paged(at, false, 5, len))
                } else if code == KeyCode::PageDown {
                    self.build_cursor(geometry::paged(at, true, 5, len))
                } else if code == KeyCode::Home {
                    self.build_cursor(0)
                } else if code == KeyCode::End {
                    self.build_cursor(
                        if len > 0 {
                            len - 1
                        } else {
                            0
                        },
                    )
                } else if code == KeyCode::Enter && at < len {
                    self.build_run(actions[at])
                } else {
                    self
                }
            },
        }
    }

    /// The documentation release the pickers enrich their lists from.
    pub open spec fn docs_release(self) -> Seq<char> {
        match self.panels.workspace {
            Some(panel) => match panel.zephyr_version {
                Some(version) => version@,
                None => "latest"@,
            },
            None => "latest"@,
        }
    }

    pub open spec fn docs_opened(self) -> Model {
        self.with_drawn(Drawn { docs_list_offset: 0, ..self.drawn }).emit(
            Effect::Text(TextTask::EnsureDocsIndex, self.docs_release()),
        )
    }

    pub open spec fn list_asked(self, task: Task) -> Model {
        if self.project.manager.spec_kind() is Some && self.panels.build is Some {
            self.task(task)
        } else {
            self
        }
    }

    pub open spec fn board_picker_opened(self) -> Model {
        self.shown(
            Overlay::BoardPicker {
                input: Seq::empty(),
                selected: 0,
                scroll: 0,
                focus: DocsFocus::List,
            },
        ).docs_opened().list_asked(Task::FetchBoards)
    }

    pub open spec fn shield_picker_opened(self) -> Model {
        self.shown(
            Overlay::ShieldPicker {
                input: Seq::empty(),
                selected: 0,
                scroll: 0,
                focus: DocsFocus::List,
            },
        ).docs_opened().list_asked(Task::FetchShields)
    }

    /// What the picker's cursor rests on.
    pub open spec fn docs_subject(self) -> DocsSubject<Seq<char>> {
        if self.panels.build is None {
            DocsSubject::Nothing
        } else {
            match self.overlay {
                Some(Overlay::BoardPicker { input, selected, .. }) => {
                    let boards = panels::filtered(self.panels.lists.boards@, input);
                    if selected < boards.len() {
                        DocsSubject::Board(boards[selected as int]@)
                    } else {
                        DocsSubject::Nothing
                    }
                },
                Some(Overlay::ShieldPicker { input, selected, .. }) => {
                    let shields = panels::filtered(self.panels.lists.shields@, input);
                    if 0 < selected <= shields.len() {
                        DocsSubject::Shield(shields[selected - 1]@)
                    } else {
                        DocsSubject::Nothing
                    }
                },
                _ => DocsSubject::Nothing,
            }
        }
    }

    /// The documentation fetches driven by where the cursor rests.
    pub open spec fn docs_driven(self) -> Model {
        match self.docs_subject() {
            DocsSubject::Board(name) => self.emit(Effect::Text(TextTask::DriveBoardDocs, name)),
            DocsSubject::Shield(name) => self.emit(Effect::Text(TextTask::DriveShieldDocs, name)),
            DocsSubject::Nothing => self.task(Task::DriveDocs),
        }
    }

    /// The board picked, in force and kept for the project.
    pub open spec fn board_picked(self, filter: Seq<char>, selected: usize) -> Model {
        let boards = panels::filtered(self.panels.lists.boards@, filter);
        match self.panels.build {
            Some(panel) => if selected < boards.len() {
                let name = boards[selected as int];
                self.with_build(BuildPanel { board: Some(name), ..panel }).emit(
                    Effect::Text(TextTask::SetBoard, name@),
                ).info("board set to "@ + name@).target_kept()
            } else {
                self
            },
            None => self,
        }
    }

    /// The shield picked; the first row clears it.
    pub open spec fn shield_picked(self, filter: Seq<char>, selected: usize) -> Model {
        let shields = panels::filtered(self.panels.lists.shields@, filter);
        match self.panels.build {
            Some(panel) => if selected == 0 {
                self.with_build(BuildPanel { shield: None, ..panel }).task(
                    Task::ClearShield,
                ).info("shield cleared"@).target_kept()
            } else if selected <= shields.len() {
                let name = shields[selected - 1];
                self.with_build(BuildPanel { shield: Some(name), ..panel }).emit(
                    Effect::Text(TextTask::SetShield, name@),
                ).info("shield set to "@ + name@).target_kept()
            } else {
                self
            },
            None => self,
        }
    }

    /// The name of the variant last answered with.
    pub open spec fn answered_variant(self, panel: BuildPanel) -> Option<String> {
        match panels::variant_for(self.panels.lists.variants@, panel.remembered_simulator) {
            Some(index) => Some(self.panels.lists.variants@[index].name),
            None => None,
        }
    }

    /// The target's answers asked to be kept for the project.
    pub open spec fn target_kept(self) -> Model {
        match self.panels.build {
            Some(panel) => if self.project.manager.spec_kind() is Some {
                self.task(
                    Task::PersistTarget {
                        root: panel.root,
                        board: panel.board,
                        shield: panel.shield,
                        variant: self.answered_variant(panel),
                    },
                )
            } else {
                self
            },
            None => self,
        }
    }

    pub open spec fn target_answered(self, config: Seq<char>, failure: Option<Seq<char>>) -> Model {
        match failure {
            None => self.info("target answer saved to "@ + config),
            Some(e) => self.warn(
                "could not save the target answer in "@ + config + ": "@ + e,
            ),
        }
    }

    /// Where does this build run? The cursor opens on the last answer.
    pub open spec fn target_asked(self, kind: BuildKind) -> Model {
        self.shown(
            Overlay::BuildTarget {
                kind,
                selected: if self.panels.build matches Some(panel) && panel.remembered_simulator {
                    1
                } else {
                    0
                },
            },
        )
    }

    /// The answer in force, kept, and the command started against it.
    pub open spec fn target_applied(self, kind: BuildKind, selected: usize) -> Model {
        let simulator = selected == 1;
        let m = match self.panels.build {
            Some(panel) => {
                let place = panels::variant_for(self.panels.lists.variants@, simulator);
                let m = self.with_build(
                    BuildPanel {
                        remembered_simulator: simulator,
                        variant: match place {
                            Some(index) => Some(index as usize),
                            None => panel.variant,
                        },
                        ..panel
                    },
                );
                let m = match place {
                    Some(index) => m.task(Task::SelectVariant(index as usize)),
                    None => m,
                };
                m.target_kept()
            },
            None => self,
        };
        m.build_asked(BuildAction::Build(kind))
    }

    /// An action of the build panel, wherever it was asked from.
    pub open spec fn build_run(self, action: BuildAction) -> Model {
        if !self.build_enabled(action) {
            if action != BuildAction::Stop && self.build_busy() {
                self.warn("a build command is already running — stop it first"@)
            } else {
                self
            }
        } else if in_project(action) && !self.project_buildable() {
            self.project_refused(action)
        } else {
            match action {
                BuildAction::Stop => self.build_stopped(),
                BuildAction::Build(kind) => if kind == BuildKind::Clean {
                    self.shown(Overlay::ConfirmBuild { action, confirm: false })
                } else if self.panels.build matches Some(panel) && panel.offers_build_choice {
                    self.target_asked(kind)
                } else {
                    self.build_asked(action)
                },
                BuildAction::Flash => self.shown(Overlay::ConfirmBuild { action, confirm: false }),
                BuildAction::Menuconfig => self.menuconfig_asked(),
                BuildAction::UpdateZephyr => self.shown(Overlay::ZephyrActions { selected: 0 }),
                BuildAction::InstallZephyr => self.task(
                    Task::OpenPurposePicker(DirPurpose::Install),
                ),
                BuildAction::Dashboard => self.build_asked(action),
                BuildAction::SizeReport => self.report_asked(),
                BuildAction::Run => self.build_asked(action),
            }
        }
    }

    /// A command may run in the panel's directory.
    pub open spec fn project_buildable(self) -> bool {
        match self.panels.build {
            Some(panel) => !self.caps().project_select || panel.buildable,
            None => true,
        }
    }

    /// No command runs in a directory that holds no application: the refusal
    /// says so, and opens the question that answers it.
    pub open spec fn project_refused(self, action: BuildAction) -> Model {
        match self.panels.build {
            Some(panel) => self.warn(
                refused_name(action) + ": "@ + panel.root@
                    + " is not a Zephyr application (no CMakeLists.txt) — pick a project first"@,
            ).project_flow_opened(),
            None => self,
        }
    }

    pub open spec fn board_roots_asked(self) -> Model {
        match self.panels.build {
            Some(panel) => self.task(
                Task::RefreshBoardRoots {
                    root: panel.root,
                    stop_at: match self.panels.workspace {
                        Some(workspace) => workspace.projects,
                        None => None,
                    },
                },
            ),
            None => self,
        }
    }

    pub open spec fn variants_asked(self) -> Model {
        match self.panels.build {
            Some(panel) => self.task(Task::RefreshVariants { root: panel.root }),
            None => self,
        }
    }

    /// The project's variants: the session starts on the board, and a saved
    /// answer that still exists seeds the question's cursor.
    pub open spec fn variants_found(
        self,
        variants: Vec<Variant>,
        saved: Option<Seq<char>>,
    ) -> Model {
        match self.panels.build {
            Some(panel) => self.with_panels(
                Panels {
                    lists: Lists { variants, ..self.panels.lists },
                    build: Some(
                        BuildPanel {
                            variant: match panels::variant_for(variants@, false) {
                                Some(index) => Some(index as usize),
                                None => None,
                            },
                            remembered_simulator: match saved {
                                Some(name) => names_simulator(variants@, name),
                                None => panel.remembered_simulator,
                            },
                            ..panel
                        },
                    ),
                    ..self.panels
                },
            ),
            None => self,
        }
    }

    /// Whichever picker the project question needs next.
    pub open spec fn project_flow_opened(self) -> Model {
        if self.panels.workspace matches Some(panel) && panel.projects is Some {
            self.project_picker_opened()
        } else {
            self.warn(
                "no projects folder configured — where do your Zephyr applications live?"@,
            ).task(Task::OpenProjectsPicker)
        }
    }

    pub open spec fn project_picker_opened(self) -> Model {
        self.shown(Overlay::ProjectPicker { mpy: false, selected: 0, error: None })
    }

    pub open spec fn project_picker_failed(self, selected: usize, reason: Seq<char>) -> Model {
        self.shown(Overlay::ProjectPicker { mpy: false, selected, error: Some(reason) })
    }

    pub open spec fn project_asked(self, selected: usize) -> Model {
        match self.panels.workspace {
            Some(panel) => match panel.projects {
                Some(dir) => self.emit(Effect::Text(TextTask::ApplyProject(selected), dir@)),
                None => self.project_flow_opened(),
            },
            None => self.project_flow_opened(),
        }
    }

    /// The picked row: a project re-roots the session, anything else keeps
    /// the picker open with the reason.
    pub open spec fn project_answered(
        self,
        selected: usize,
        row: Option<PickedProject>,
        read_error: Option<Seq<char>>,
    ) -> Model {
        match row {
            None => self.project_picker_failed(
                selected,
                match read_error {
                    Some(reason) => reason,
                    None => "nothing to pick"@,
                },
            ),
            Some(row) => if !row.buildable {
                self.project_picker_failed(
                    selected,
                    row.name@ + " has no CMakeLists.txt — west build cannot run there"@,
                )
            } else if self.panels.build is None {
                self
            } else {
                self.rerooted(row.path).info(
                    "project set to "@ + row.path@ + " for this session (nothing written)"@,
                ).closed()
            },
        }
    }

    /// What was answered for the project the build panel serves, asked for.
    pub open spec fn answers_asked(self) -> Model {
        match self.panels.build {
            Some(panel) => self.task(Task::ReadProjectAnswers { root: panel.root }),
            None => self,
        }
    }

    /// What the project was answered with before: an answer belongs to its
    /// project, not to the session. One never given leaves what is there.
    pub open spec fn answers_read(self, board: Option<String>, shield: Option<String>) -> Model {
        let m = match (self.panels.build, board) {
            (Some(panel), Some(name)) => self.with_build(
                BuildPanel { board: Some(name), ..panel },
            ).emit(Effect::Text(TextTask::SetConfigBoard, name@)),
            _ => self,
        };
        match (m.panels.build, shield) {
            (Some(panel), Some(name)) => m.with_build(
                BuildPanel { shield: Some(name), ..panel },
            ).emit(Effect::Text(TextTask::SetShield, name@)),
            _ => m,
        }
    }

    /// The build panel and the workspace pane on another project, and its own
    /// answers asked for.
    pub open spec fn rerooted(self, dir: String) -> Model {
        let m = match self.panels.build {
            Some(panel) => self.with_build(BuildPanel { root: dir, ..panel }).task(
                Task::SetProject { root: dir },
            ),
            None => self,
        };
        let m = m.board_roots_asked().variants_asked().answers_asked();
        match m.panels.workspace {
            Some(panel) => m.with_panels(
                Panels {
                    workspace: Some(
                        WorkspacePanel {
                            files_root: Some(dir),
                            files_path: Some(dir),
                            ..panel
                        },
                    ),
                    ..m.panels
                },
            ),
            None => m,
        }
    }

    /// After a clean the cursor waits on the build it cleared the way for.
    pub open spec fn parked(self, action: BuildAction) -> Model {
        if action == BuildAction::Build(BuildKind::Clean) {
            match action_place(
                self.panels.lists.build_actions@,
                BuildAction::Build(BuildKind::Build),
            ) {
                Some(i) => self.build_cursor(i),
                None => self,
            }
        } else {
            self
        }
    }

    /// A command asked for, unless one is already running.
    pub open spec fn build_asked(self, action: BuildAction) -> Model {
        if self.project.manager.spec_kind() is None || self.panels.build is None {
            self.parked(action)
        } else if self.build_busy() {
            self.warn("a build command is already running — stop it first"@).parked(action)
        } else {
            self.task(Task::StartBuild(action))
        }
    }

    /// The command asked for: its output shows in the Monitor tab, a flash
    /// takes the user there with it.
    pub open spec fn build_answered(
        self,
        action: BuildAction,
        outcome: Composed<Seq<char>>,
    ) -> Model {
        let m = match outcome {
            Composed::NoCommand => self.warn(
                action_label(action) + ": this backend offers no such action"@,
            ),
            Composed::Refused => self,
            Composed::Started(command) => {
                let m = match self.panels.build {
                    Some(panel) => self.with_build(BuildPanel { busy: true, ..panel }),
                    None => self,
                };
                m.info("running "@ + command).with_screen(
                    Screen {
                        view: View::Dashboard,
                        focus: if action == BuildAction::Flash {
                            Focus::Logs
                        } else {
                            Focus::Build
                        },
                        log_tab: LogTab::Monitor,
                        ..self.screen
                    },
                ).sourced(MonitorSource::Build)
            },
        };
        m.parked(action)
    }

    pub open spec fn menuconfig_asked(self) -> Model {
        self.list_asked(Task::Menuconfig)
    }

    /// The editor takes the screen; its command waits to be picked up.
    pub open spec fn menuconfig_answered(self, command: Option<String>) -> Model {
        match command {
            None => self.warn("menuconfig: this backend offers no such action"@),
            Some(line) => self.info(
                "running "@ + line@ + " (the TUI is suspended)"@,
            ).with_pending(Pending { command: Some(line), ..self.pending }),
        }
    }

    /// The installation in force.
    pub open spec fn installation(self) -> Option<String> {
        match self.panels.workspace {
            Some(workspace) => workspace.dir,
            None => None,
        }
    }

    /// The memory report needs an installation to read from; its command is
    /// composed first, whether or not another one runs.
    pub open spec fn report_asked(self) -> Model {
        match self.installation() {
            Some(installation) => self.list_asked(Task::ComposeReport { installation }),
            None => self.warn(
                "no Zephyr installation resolved --- the memory report needs one"@,
            ),
        }
    }

    /// The report's command, or why there is none.
    pub open spec fn report_answered(self, failure: Option<Seq<char>>) -> Model {
        match failure {
            Some(why) => self.warn("memory report: "@ + why),
            None => self.build_asked(BuildAction::SizeReport),
        }
    }

    pub open spec fn build_stopped(self) -> Model {
        if self.build_busy() {
            self.task(Task::StopBuild).warn("stopping the build command"@)
        } else {
            self
        }
    }

    /// `x`: the flash actions, wherever this backend keeps them.
    pub open spec fn flash_opened(self) -> Model {
        if self.build_shown() {
            self.build_run(BuildAction::Flash)
        } else if !self.flashes() {
            self.warn(
                (match self.project.manager.spec_kind() {
                    Some(kind) => kind.spec_label(),
                    None => "no backend"@,
                }) + " does not expose flash operations"@,
            )
        } else {
            let m = self.flash_ensured();
            if m.actions_available() {
                m.actions_shown().focused(Focus::FilesDevice)
            } else {
                m.viewed(View::Flash)
            }
        }
    }
}

impl App {
    pub fn is_build_busy(&self) -> (r: bool)
        ensures
            r == self@.build_busy(),
    {
        match &self.panels.build {
            Some(panel) => panel.busy,
            None => false,
        }
    }

    /// Whether `Enter` runs this action: the operations need the checklist's
    /// answers, and everything but `Stop` a free process slot.
    pub fn build_action_enabled(&self, action: BuildAction) -> (r: bool)
        ensures
            r == self@.build_enabled(action),
    {
        match &self.panels.build {
            None => true,
            Some(panel) => {
                if action != BuildAction::Stop && panel.busy {
                    return false;
                }
                match action {
                    BuildAction::Build(_) | BuildAction::Flash | BuildAction::Menuconfig =>
                        panel.lifecycle_ready,
                    BuildAction::UpdateZephyr => match &self.panels.workspace {
                        Some(workspace) => workspace.dir.is_some(),
                        None => false,
                    },
                    _ => true,
                }
            },
        }
    }

    fn set_build_cursor(&mut self, cursor: usize)
        ensures
            final(self)@ == old(self)@.build_cursor(cursor as int),
    {
        if let Some(panel) = &mut self.panels.build {
            panel.cursor = cursor;
        }
    }

    /// Handles a key while the build panel holds focus.
    pub fn on_build_key(&mut self, key: KeyEvent)
        ensures
            final(self)@ == old(self)@.build_key(key),
    {
        reveal(Model::build_key);
        let code = key.code;
        let len: usize = self.panels.lists.build_actions.len();
        let at: usize = match &self.panels.build {
            Some(panel) => panel.cursor,
            None => {
                return;
            },
        };
        if up_key(code) {
            self.set_build_cursor(page_step(at, false, 1, len));
        } else if down_key(code) {
            self.set_build_cursor(page_step(at, true, 1, len));
        } else if code == KeyCode::PageUp {
            self.set_build_cursor(page_step(at, false, 5, len));
        } else if code == KeyCode::PageDown {
            self.set_build_cursor(page_step(at, true, 5, len));
        } else if code == KeyCode::Home {
            self.set_build_cursor(0);
        } else if code == KeyCode::End {
            self.set_build_cursor(len.saturating_sub(1));
        } else if code == KeyCode::Enter && at < len {
            let action = self.panels.lists.build_actions[at];
            self.run_build_action(action);
        }
    }

    /// The documentation release the pickers enrich their lists from: the
    /// resolved workspace's own version, `latest` otherwise.
    pub fn docs_label(&self) -> (r: String)
        ensures
            r@ == self@.docs_release(),
    {
        match &self.panels.workspace {
            Some(panel) => match &panel.zephyr_version {
                Some(version) => version.clone(),
                None => "latest".to_owned(),
            },
            None => "latest".to_owned(),
        }
    }

    fn open_docs(&mut self)
        ensures
            final(self)@ == old(self)@.docs_opened(),
    {
        let label = self.docs_label();
        self.drawn.docs_list_offset = 0;
        self.emit(Effect::Text(TextTask::EnsureDocsIndex, label));
    }

    fn ask_list(&mut self, task: Task)
        ensures
            final(self)@ == old(self)@.list_asked(task),
    {
        if self.project.manager.selected_kind().is_some() && self.panels.build.is_some() {
            self.task(task);
        }
    }

    /// Opens the board picker, fetching its list and what enriches it.
    pub fn open_board_picker(&mut self)
        ensures
            final(self)@ == old(self)@.board_picker_opened(),
    {
        let input = String::new();
        assert(input@ =~= Seq::<char>::empty());
        self.show(
            Overlay::BoardPicker { input, selected: 0, scroll: 0, focus: DocsFocus::List },
        );
        self.open_docs();
        self.ask_list(Task::FetchBoards);
    }

    /// The board list's fetch started, under this command line.
    pub fn boards_fetching(&mut self, command: &str)
        ensures
            final(self)@ == old(self)@.info("fetching the board list ("@ + command@ + ")"@),
    {
        self.info(text::join3("fetching the board list (", command, ")").as_str());
    }

    /// Opens the shield picker.
    pub fn open_shield_picker(&mut self)
        ensures
            final(self)@ == old(self)@.shield_picker_opened(),
    {
        let input = String::new();
        assert(input@ =~= Seq::<char>::empty());
        self.show(
            Overlay::ShieldPicker { input, selected: 0, scroll: 0, focus: DocsFocus::List },
        );
        self.open_docs();
        self.ask_list(Task::FetchShields);
    }

    /// The shield list's fetch started, under this command line.
    pub fn shields_fetching(&mut self, command: &str)
        ensures
            final(self)@ == old(self)@.info("fetching the shield list ("@ + command@ + ")"@),
    {
        self.info(text::join3("fetching the shield list (", command, ")").as_str());
    }

    fn picker_selection_doc_id(&self) -> (r: DocsSubject)
        ensures
            r.model() == self@.docs_subject(),
    {
        reveal(app::opt_overlay);
        reveal(Overlay::model);
        if self.panels.build.is_none() {
            return DocsSubject::Nothing;
        }
        match &self.overlay {
            Some(Overlay::BoardPicker { input, selected, .. }) => {
                let boards = filtered_names(&self.panels.lists.boards, input.as_str());
                if *selected < boards.len() {
                    DocsSubject::Board(boards[*selected].clone())
                } else {
                    DocsSubject::Nothing
                }
            },
            Some(Overlay::ShieldPicker { input, selected, .. }) => {
                let shields = filtered_names(&self.panels.lists.shields, input.as_str());
                if 0 < *selected && *selected <= shields.len() {
                    DocsSubject::Shield(shields[*selected - 1].clone())
                } else {
                    DocsSubject::Nothing
                }
            },
            _ => DocsSubject::Nothing,
        }
    }

    /// Watches an open picker: the row the cursor rests on is the one worth
    /// fetching documentation for.
    pub fn drive_docs_selection(&mut self)
        ensures
            final(self)@ == old(self)@.docs_driven(),
    {
        match self.picker_selection_doc_id() {
            DocsSubject::Board(name) => self.emit(Effect::Text(TextTask::DriveBoardDocs, name)),
            DocsSubject::Shield(name) => self.emit(Effect::Text(TextTask::DriveShieldDocs, name)),
            DocsSubject::Nothing => self.task(Task::DriveDocs),
        }
    }

    /// Applies the board chosen in the picker.
    pub fn apply_board_picker(&mut self, filter: &str, selected: usize)
        ensures
            final(self)@ == old(self)@.board_picked(filter@, selected),
    {
        let boards = filtered_names(&self.panels.lists.boards, filter);
        if selected >= boards.len() {
            return;
        }
        let name = boards[selected].clone();
        if let Some(panel) = &mut self.panels.build {
            panel.board = Some(name.clone());
            let line = text::join("board set to ", name.as_str());
            self.emit(Effect::Text(TextTask::SetBoard, name));
            self.info(line.as_str());
            self.persist_target();
        }
    }

    /// Applies the shield picker's answer; the first row clears it.
    pub fn apply_shield_picker(&mut self, filter: &str, selected: usize)
        ensures
            final(self)@ == old(self)@.shield_picked(filter@, selected),
    {
        if selected == 0 {
            if let Some(panel) = &mut self.panels.build {
                panel.shield = None;
                self.task(Task::ClearShield);
                self.info("shield cleared");
                self.persist_target();
            }
            return;
        }
        let shields = filtered_names(&self.panels.lists.shields, filter);
        if selected > shields.len() {
            return;
        }
        let name = shields[selected - 1].clone();
        if let Some(panel) = &mut self.panels.build {
            panel.shield = Some(name.clone());
            let line = text::join("shield set to ", name.as_str());
            self.emit(Effect::Text(TextTask::SetShield, name));
            self.info(line.as_str());
            self.persist_target();
        }
    }

    fn persist_target(&mut self)
        ensures
            final(self)@ == old(self)@.target_kept(),
    {
        if self.project.manager.selected_kind().is_none() {
            return;
        }
        if let Some(panel) = &self.panels.build {
            let root = panel.root.clone();
            let board = clone_opt(&panel.board);
            let shield = clone_opt(&panel.shield);
            let variant = match variant_index_for(
                &self.panels.lists.variants,
                panel.remembered_simulator,
            ) {
                Some(index) => Some(self.panels.lists.variants[index].name.clone()),
                None => None,
            };
            self.task(Task::PersistTarget { root, board, shield, variant });
        }
    }

    /// The target's answers were kept, or could not be.
    pub fn target_saved(&mut self, config: &str, outcome: Result<(), String>)
        ensures
            final(self)@ == old(self)@.target_answered(
                config@,
                file_browser::failure_view(outcome),
            ),
    {
        match outcome {
            Ok(_) => self.info(text::join("target answer saved to ", config).as_str()),
            Err(e) => {
                let line = text::join3("could not save the target answer in ", config, ": ");
                self.warn(text::join(line.as_str(), e.as_str()).as_str());
            },
        }
    }

    /// Opens the build question: on the board, or on the host?
    pub fn ask_build_target(&mut self, kind: BuildKind)
        ensures
            final(self)@ == old(self)@.target_asked(kind),
    {
        let selected: usize = match &self.panels.build {
            Some(panel) => if panel.remembered_simulator {
                1
            } else {
                0
            },
            None => 0,
        };
        self.show(Overlay::BuildTarget { kind, selected });
    }

    /// Applies the build question's answer and starts the command.
    pub fn apply_build_target(&mut self, kind: BuildKind, selected: usize)
        ensures
            final(self)@ == old(self)@.target_applied(kind, selected),
    {
        let simulator: bool = selected == 1;
        let place = variant_index_for(&self.panels.lists.variants, simulator);
        if let Some(panel) = &mut self.panels.build {
            panel.remembered_simulator = simulator;
            if let Some(index) = place {
                panel.variant = Some(index);
                self.task(Task::SelectVariant(index));
            }
            self.persist_target();
        }
        self.start_build_command(BuildAction::Build(kind));
    }

    /// Runs an action of the build panel: what rewrites or erases something
    /// asks first, what needs a project is refused without one.
    pub fn run_build_action(&mut self, action: BuildAction)
        ensures
            final(self)@ == old(self)@.build_run(action),
    {
        if !self.build_action_enabled(action) {
            if action != BuildAction::Stop && self.is_build_busy() {
                self.warn("a build command is already running — stop it first");
            }
            return;
        }
        if runs_in_project(action) && !self.require_buildable_project(action) {
            return;
        }
        match action {
            BuildAction::Stop => self.stop_build(),
            BuildAction::Build(kind) => {
                let choice: bool = match &self.panels.build {
                    Some(panel) => panel.offers_build_choice,
                    None => false,
                };
                if kind == BuildKind::Clean {
                    self.show(Overlay::ConfirmBuild { action, confirm: false });
                } else if choice {
                    self.ask_build_target(kind);
                } else {
                    self.start_build_command(action);
                }
            },
            BuildAction::Flash => self.show(Overlay::ConfirmBuild { action, confirm: false }),
            BuildAction::Menuconfig => self.start_menuconfig(),
            BuildAction::UpdateZephyr => self.show(Overlay::ZephyrActions { selected: 0 }),
            BuildAction::InstallZephyr => self.task(Task::OpenPurposePicker(DirPurpose::Install)),
            BuildAction::Dashboard => self.start_build_command(action),
            BuildAction::SizeReport => self.start_size_report(),
            BuildAction::Run => self.start_build_command(action),
        }
    }

    /// The project gate: a root without build elements is refused, and the
    /// flow that answers it opens.
    fn require_buildable_project(&mut self, action: BuildAction) -> (r: bool)
        ensures
            r == old(self)@.project_buildable(),
            final(self)@ == if r {
                old(self)@
            } else {
                old(self)@.project_refused(action)
            },
    {
        let root = match &self.panels.build {
            Some(panel) => {
                if !self.capabilities().contains(Capability::ProjectSelect) || panel.buildable {
                    return true;
                }
                panel.root.clone()
            },
            None => {
                return true;
            },
        };
        let line = text::join3(refused_name_of(action), ": ", root.as_str());
        self.warn(
            text::join(
                line.as_str(),
                " is not a Zephyr application (no CMakeLists.txt) — pick a project first",
            ).as_str(),
        );
        self.open_project_flow();
        false
    }

    /// Re-derives the extra board search roots of the panel's project.
    pub fn refresh_board_roots(&mut self)
        ensures
            final(self)@ == old(self)@.board_roots_asked(),
    {
        if let Some(panel) = &self.panels.build {
            let root = panel.root.clone();
            let stop_at = match &self.panels.workspace {
                Some(workspace) => clone_opt(&workspace.projects),
                None => None,
            };
            self.task(Task::RefreshBoardRoots { root, stop_at });
        }
    }

    /// Re-derives the variant list of the panel's project.
    pub fn refresh_variants(&mut self)
        ensures
            final(self)@ == old(self)@.variants_asked(),
    {
        if let Some(panel) = &self.panels.build {
            let root = panel.root.clone();
            self.task(Task::RefreshVariants { root });
        }
    }

    /// The project's variants, and the name its last answer was kept under.
    pub fn variants_listed(&mut self, variants: Vec<Variant>, saved: Option<String>)
        ensures
            final(self)@ == old(self)@.variants_found(variants, overlay::opt_text(saved)),
    {
        let place = variant_index_for(&variants, false);
        let remembered: Option<bool> = match &saved {
            Some(name) => Some(simulator_named(&variants, name)),
            None => None,
        };
        if let Some(panel) = &mut self.panels.build {
            panel.variant = place;
            if let Some(simulator) = remembered {
                panel.remembered_simulator = simulator;
            }
            self.panels.lists.variants = variants;
        }
    }

    /// Opens whichever picker the project question needs next.
    pub fn open_project_flow(&mut self)
        ensures
            final(self)@ == old(self)@.project_flow_opened(),
    {
        let configured: bool = match &self.panels.workspace {
            Some(panel) => panel.projects.is_some(),
            None => false,
        };
        if configured {
            self.open_project_picker();
        } else {
            self.warn("no projects folder configured — where do your Zephyr applications live?");
            self.task(Task::OpenProjectsPicker);
        }
    }

    pub fn open_project_picker(&mut self)
        ensures
            final(self)@ == old(self)@.project_picker_opened(),
    {
        self.show(Overlay::ProjectPicker { mpy: false, selected: 0, error: None });
    }

    fn fail_project_picker(&mut self, selected: usize, reason: String)
        ensures
            final(self)@ == old(self)@.project_picker_failed(selected, reason@),
    {
        self.show(Overlay::ProjectPicker { mpy: false, selected, error: Some(reason) });
    }

    /// Applies the project chosen in the picker.
    pub fn apply_project_picker(&mut self, selected: usize)
        ensures
            final(self)@ == old(self)@.project_asked(selected),
    {
        let dir = match &self.panels.workspace {
            Some(panel) => clone_opt(&panel.projects),
            None => None,
        };
        match dir {
            Some(dir) => self.emit(Effect::Text(TextTask::ApplyProject(selected), dir)),
            None => self.open_project_flow(),
        }
    }

    /// The picked row of the projects folder, as the folder has it now.
    pub fn project_listed(
        &mut self,
        selected: usize,
        row: Option<PickedProject>,
        read_error: Option<String>,
    )
        ensures
            final(self)@ == old(self)@.project_answered(
                selected,
                row,
                overlay::opt_text(read_error),
            ),
    {
        match row {
            None => {
                let reason = match read_error {
                    Some(reason) => reason,
                    None => "nothing to pick".to_owned(),
                };
                self.fail_project_picker(selected, reason);
            },
            Some(row) => {
                if !row.buildable {
                    let reason = text::join(
                        row.name.as_str(),
                        " has no CMakeLists.txt — west build cannot run there",
                    );
                    self.fail_project_picker(selected, reason);
                } else if self.panels.build.is_some() {
                    let line = text::join3(
                        "project set to ",
                        row.path.as_str(),
                        " for this session (nothing written)",
                    );
                    self.set_project_root(row.path);
                    self.info(line.as_str());
                    self.close();
                }
            },
        }
    }

    /// Re-roots the build lifecycle and the workspace pane's files together.
    pub fn set_project_root(&mut self, dir: String)
        ensures
            final(self)@ == old(self)@.rerooted(dir),
    {
        if let Some(panel) = &mut self.panels.build {
            panel.root = dir.clone();
            self.task(Task::SetProject { root: dir.clone() });
        }
        self.refresh_board_roots();
        self.refresh_variants();
        if let Some(panel) = &self.panels.build {
            let root = panel.root.clone();
            self.task(Task::ReadProjectAnswers { root });
        }
        if let Some(workspace) = &mut self.panels.workspace {
            workspace.files_root = Some(dir.clone());
            workspace.files_path = Some(dir);
        }
    }

    /// What was answered for the project before, in force again.
    pub fn project_answers(&mut self, board: Option<String>, shield: Option<String>)
        ensures
            final(self)@ == old(self)@.answers_read(board, shield),
    {
        if let Some(name) = board {
            if let Some(panel) = &mut self.panels.build {
                panel.board = Some(name.clone());
                self.emit(Effect::Text(TextTask::SetConfigBoard, name));
            }
        }
        if let Some(name) = shield {
            if let Some(panel) = &mut self.panels.build {
                panel.shield = Some(name.clone());
                self.emit(Effect::Text(TextTask::SetShield, name));
            }
        }
    }

    fn park(&mut self, action: BuildAction)
        ensures
            final(self)@ == old(self)@.parked(action),
    {
        if action == BuildAction::Build(BuildKind::Clean) {
            let place = action_position(
                &self.panels.lists.build_actions,
                BuildAction::Build(BuildKind::Build),
            );
            if let Some(i) = place {
                self.set_build_cursor(i);
            }
        }
    }

    /// Asks for a command of the build lifecycle.
    pub fn start_build_command(&mut self, action: BuildAction)
        ensures
            final(self)@ == old(self)@.build_asked(action),
    {
        if self.project.manager.selected_kind().is_none() || self.panels.build.is_none() {
            self.park(action);
        } else if self.is_build_busy() {
            self.warn("a build command is already running — stop it first");
            self.park(action);
        } else {
            self.task(Task::StartBuild(action));
        }
    }

    /// The command asked for was composed and started, or not.
    pub fn build_composed(&mut self, action: BuildAction, outcome: Composed)
        ensures
            final(self)@ == old(self)@.build_answered(action, outcome.model()),
    {
        match outcome {
            Composed::NoCommand => self.warn(
                text::join(label_of(action), ": this backend offers no such action").as_str(),
            ),
            Composed::Refused => {},
            Composed::Started(command) => {
                if let Some(panel) = &mut self.panels.build {
                    panel.busy = true;
                }
                self.info(text::join("running ", command.as_str()).as_str());
                self.screen.view = View::Dashboard;
                self.screen.focus = if action == BuildAction::Flash {
                    Focus::Logs
                } else {
                    Focus::Build
                };
                self.screen.log_tab = LogTab::Monitor;
                self.set_monitor_source(MonitorSource::Build);
            },
        }
        self.park(action);
    }

    /// Asks for the configuration editor, which takes the whole screen.
    pub fn start_menuconfig(&mut self)
        ensures
            final(self)@ == old(self)@.menuconfig_asked(),
    {
        self.ask_list(Task::Menuconfig);
    }

    /// The editor's command, or that there is none.
    pub fn menuconfig_composed(&mut self, command: Option<String>)
        ensures
            final(self)@ == old(self)@.menuconfig_answered(command),
    {
        match command {
            None => self.warn("menuconfig: this backend offers no such action"),
            Some(line) => {
                self.info(
                    text::join3("running ", line.as_str(), " (the TUI is suspended)").as_str(),
                );
                self.pending.command = Some(line);
            },
        }
    }

    /// Starts the memory report.
    pub fn start_size_report(&mut self)
        ensures
            final(self)@ == old(self)@.report_asked(),
    {
        let installation = match &self.panels.workspace {
            Some(workspace) => clone_opt(&workspace.dir),
            None => None,
        };
        match installation {
            Some(installation) => self.ask_list(Task::ComposeReport { installation }),
            None => self.warn("no Zephyr installation resolved --- the memory report needs one"),
        }
    }

    /// The memory report's command was composed, or could not be.
    pub fn report_composed(&mut self, outcome: Result<(), String>)
        ensures
            final(self)@ == old(self)@.report_answered(file_browser::failure_view(outcome)),
    {
        match outcome {
            Ok(_) => self.start_build_command(BuildAction::SizeReport),
            Err(why) => self.warn(text::join("memory report: ", why.as_str()).as_str()),
        }
    }

    /// Cancels the running build command.
    pub fn stop_build(&mut self)
        ensures
            final(self)@ == old(self)@.build_stopped(),
    {
        if self.is_build_busy() {
            self.task(Task::StopBuild);
            self.warn("stopping the build command");
        }
    }

    /// Opens the flash actions: in the build panel, on the device pane's
    /// tab, or as a dialog where no pane hosts them.
    pub fn open_flash(&mut self)
        ensures
            final(self)@ == old(self)@.flash_opened(),
    {
        if self.build_pane_visible() {
            self.run_build_action(BuildAction::Flash);
            return;
        }
        if !self.ensure_flash_panel() {
            let backend = match self.project.manager.selected_kind() {
                Some(kind) => kind.label(),
                None => "no backend",
            };
            self.warn(text::join(backend, " does not expose flash operations").as_str());
            return;
        }
        if self.device_actions_tab_available() {
            self.show_device_actions_tab();
            self.screen.focus = Focus::FilesDevice;
        } else {
            self.screen.view = View::Flash;
        }
    }
}

pub(crate) fn clone_opt(value: &Option<String>) -> (r: Option<String>)
    ensures
        r == *value,
{
    match value {
        Some(value) => Some(value.clone()),
        None => None,
    }
}

/// While a command runs, no other starts: only `Stop` is live.
pub proof fn a_busy_panel_starts_nothing(m: Model, action: BuildAction)
    requires
        m.build_busy(),
        action != BuildAction::Stop,
    ensures
        m.build_run(action).effects == m.effects,
        m.build_run(action).overlay == m.overlay,
        m.build_asked(action).effects == m.effects,
{
}

/// Cleaning and flashing ask first, with No highlighted.
pub proof fn cleaning_and_flashing_ask_first(m: Model, action: BuildAction)
    requires
        action == BuildAction::Flash || action == BuildAction::Build(BuildKind::Clean),
        m.build_enabled(action),
        m.project_buildable(),
    ensures
        m.build_run(action) == m.shown(Overlay::ConfirmBuild { action, confirm: false }),
{
}

/// A command never runs in a directory that holds no application: it is
/// refused, and the project question opens.
pub proof fn no_command_runs_outside_a_project(m: Model, action: BuildAction)
    requires
        in_project(action),
        m.build_enabled(action),
        !m.project_buildable(),
    ensures
        m.build_run(action) == m.project_refused(action),
        m.panels.workspace is Some && m.panels.workspace.unwrap().projects is Some
            ==> m.build_run(action).effects == m.effects,
{
}

/// With a single target a build starts outright; with two it asks, on the
/// last answer.
pub proof fn a_build_asks_only_when_there_is_a_choice(m: Model, kind: BuildKind)
    requires
        kind != BuildKind::Clean,
        m.build_enabled(BuildAction::Build(kind)),
        m.project_buildable(),
        m.panels.build is Some,
    ensures
        m.panels.build.unwrap().offers_build_choice ==> m.build_run(BuildAction::Build(kind))
            == m.target_asked(kind),
        !m.panels.build.unwrap().offers_build_choice ==> m.build_run(BuildAction::Build(kind))
            == m.build_asked(BuildAction::Build(kind)),
{
}

/// A project's own answers take the place of the last project's, each where
/// there is one.
pub proof fn a_projects_answers_come_back(m: Model, board: Option<String>, shield: Option<String>)
    requires
        m.panels.build is Some,
    ensures
        ({
            let before = m.panels.build.unwrap();
            m.answers_read(board, shield).panels.build == Some(
                BuildPanel {
                    board: if board is Some {
                        board
                    } else {
                        before.board
                    },
                    shield: if shield is Some {
                        shield
                    } else {
                        before.shield
                    },
                    ..before
                },
            )
        }),
{
}

/// A report that cannot be composed says why, even while another command
/// runs; one that can waits its turn like any other.
pub proof fn a_report_explains_itself_first(m: Model, why: Seq<char>)
    requires
        m.build_busy(),
    ensures
        m.report_answered(Some(why)) == m.warn("memory report: "@ + why),
        m.report_answered(None).effects == m.effects,
{
}

} // verus!
