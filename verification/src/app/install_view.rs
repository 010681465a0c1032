//! The installer's app side: opening it, driving its keys, and landing its
//! result in the configuration.

use vstd::prelude::*;
use vstd::string::*;

use crate::app::{App, DeskModel, Model, Panels, Pending};
use crate::app::build_view::clone_opt;
use crate::app::file_browser;
use crate::app::tools;
use crate::app::tools::set_tool;
use crate::effect::{Effect, PairTask, Task, TextTask};
use crate::geometry;
use crate::geometry::{wrapped_down, wrapped_up};
use crate::input;
use crate::input::{KeyCode, KeyEvent, down_key, leave_key, up_key};
use crate::overlay::{DirPurpose, Overlay};
use crate::panels::{InstallAction, Installer, StepState, TOOLCHAIN_COUNT};
use crate::text;

verus! {

broadcast use crate::overlay::group_overlay_models;

/// What an installation step reported.
pub struct InstallUpdate {
    pub notice: Option<String>,
    /// A step failed and stopped the sequence.
    pub stopped: bool,
    /// The sequence is through.
    pub finished: bool,
}

/// `picked` with `index` put in, or taken out where it was.
pub open spec fn toggled_pick(picked: Seq<usize>, index: usize) -> Seq<usize> {
    if picked.contains(index) {
        picked.remove(picked.index_of_first(index).unwrap())
    } else {
        picked.push(index)
    }
}

fn toggle_pick(picked: &mut Vec<usize>, index: usize)
    ensures
        final(picked)@ == toggled_pick(old(picked)@, index),
{
    let mut i: usize = 0;
    while i < picked.len()
        invariant
            i <= picked.len(),
            picked@ == old(picked)@,
            forall|k: int| 0 <= k < i ==> picked@[k] != index,
        decreases picked.len() - i,
    {
        if picked[i] == index {
            proof {
                let s = picked@;
                assert(s.contains(index)) by {
                    assert(s[i as int] == index);
                }
                s.index_of_first_ensures(index);
                let k = s.index_of_first(index).unwrap();
                assert(k == i) by {
                    if k < i {
                        assert(s[k] != index);
                    }
                }
            }
            let _ = picked.remove(i);
            return;
        }
        i = i + 1;
    }
    picked.push(index);
}

impl Installer {
    /// Where the workspace goes.
    pub open spec fn spec_root(self) -> Seq<char> {
        if self.nested {
            text::joined(self.dir@, "zephyr"@)
        } else {
            self.dir@
        }
    }

    pub fn root(&self) -> (r: String)
        ensures
            r@ == self.spec_root(),
    {
        if self.nested {
            text::join_path(self.dir.as_str(), "zephyr")
        } else {
            self.dir.clone()
        }
    }
}

impl Model {
    pub open spec fn with_installer(self, installer: Option<Installer>) -> Model {
        self.with_panels(Panels { installer, ..self.panels })
    }

    pub open spec fn installer_asked(self, dir: Seq<char>, toolchains: bool) -> Model {
        self.emit(Effect::Text(TextTask::InspectInstallDir { toolchains }, dir))
    }

    /// Every tool pointed at its program, in the order they were set.
    pub open spec fn tools_applied(self) -> Model {
        Model { effects: self.effects + tools::tool_effects(self.desk.installer_tools), ..self }
    }

    /// A tool pointed at a program, in the installer that is there and in
    /// every later one.
    pub open spec fn installer_tool_set(self, tool: Seq<char>, program: Seq<char>) -> Model {
        let m = self.with_desk(
            DeskModel {
                installer_tools: tools::tool_set(self.desk.installer_tools, tool, program),
                ..self.desk
            },
        );
        if self.panels.installer is Some {
            m.emit(Effect::Pair(PairTask::SetInstallerTool, tool, program))
        } else {
            m
        }
    }

    /// The installer over the folder accepted: inside it, in `zephyr/`,
    /// unless it is itself a workspace to be resumed. It knows its tools
    /// before it asks them anything, and starts with no toolchain picked.
    pub open spec fn installer_opened(
        self,
        dir: String,
        manifest_url: String,
        has_west: bool,
        complete: bool,
        toolchains: bool,
    ) -> Model {
        let installer = Installer {
            dir,
            nested: !has_west,
            busy: false,
            action: InstallAction::Blocked,
            can_start: false,
            prereqs_ready: false,
            complete,
            next_command: None,
            manifest_url,
            failed_step: None,
            sdk: None,
        };
        let m = self.tools_applied().task(Task::ProbePrerequisites).info(
            "Zephyr installer: target "@ + installer.spec_root(),
        ).with_installer(Some(installer)).with_desk(
            DeskModel { picked: Seq::empty(), ..self.desk },
        );
        if toolchains {
            m.shown(Overlay::SdkToolchains { selected: 0 })
        } else {
            m.shown(Overlay::ZephyrInstall)
        }
    }

    pub open spec fn install_scrolled(self, down: bool, rows: usize, viewport: usize) -> Model {
        self.task(Task::ScrollInstall { down, rows, viewport })
    }

    /// A key while the installer shows.
    #[verifier::opaque]
    pub open spec fn install_key(self, key: KeyEvent) -> Model {
        let code = key.code;
        let viewport = if self.drawn.install_viewport == 0 {
            1
        } else {
            self.drawn.install_viewport
        };
        match self.panels.installer {
            None => self.closed(),
            Some(installer) => if input::is_up(code) {
                self.install_scrolled(false, 1, viewport)
            } else if input::is_down(code) {
                self.install_scrolled(true, 1, viewport)
            } else if code == KeyCode::PageUp {
                self.install_scrolled(false, viewport, viewport)
            } else if code == KeyCode::PageDown {
                self.install_scrolled(true, viewport, viewport)
            } else if code == KeyCode::Char('s') {
                self.task(Task::ToggleSdk)
            } else if code == KeyCode::Char('t') {
                self.shown(Overlay::SdkToolchains { selected: 0 })
            } else if code == KeyCode::Char('r') {
                if installer.busy {
                    self
                } else {
                    self.task(Task::ProbePrerequisites)
                }
            } else if code == KeyCode::Enter {
                self.install_action(installer.action)
            } else if input::is_leave(code) && !installer.busy {
                self.closed()
            } else {
                self
            },
        }
    }

    /// The installer's button.
    pub open spec fn install_action(self, action: InstallAction) -> Model {
        match action {
            InstallAction::Stop => self.task(Task::StopInstall),
            InstallAction::PickToolchains => self.shown(Overlay::SdkToolchains { selected: 0 }),
            InstallAction::Adopt => self.installation_adopted(),
            InstallAction::InstallSdk | InstallAction::AddToolchains => self.sdk_completed(),
            InstallAction::Install | InstallAction::Retry => self.install_confirm_asked(),
            InstallAction::Blocked | InstallAction::Done => self,
        }
    }

    /// One question for the whole run, quoting its first command.
    pub open spec fn install_confirm_asked(self) -> Model {
        match self.panels.installer {
            None => self,
            Some(installer) => if !installer.can_start {
                if installer.prereqs_ready {
                    self
                } else {
                    self.warn(
                        "install the missing prerequisites first — the checklist names them"@,
                    )
                }
            } else {
                self.with_pending(Pending { install_confirm: true, ..self.pending }).shown(
                    Overlay::Confirm {
                        message: match installer.next_command {
                            Some(command) => command@,
                            None => "west init -m "@ + installer.manifest_url@ + " ."@,
                        },
                        confirm: false,
                    },
                )
            },
        }
    }

    pub open spec fn install_unasked(self) -> Model {
        self.with_pending(Pending { install_confirm: false, ..self.pending })
    }

    /// The run accepted: its target is created, then it starts.
    pub open spec fn install_accepted(self) -> Model {
        let m = self.install_unasked();
        match m.panels.installer {
            Some(installer) => m.emit(
                Effect::Text(TextTask::CreateInstallRoot, installer.spec_root()),
            ).shown(Overlay::ZephyrInstall),
            None => m,
        }
    }

    /// The target was created, or the run does not start.
    pub open spec fn install_root_answered(self, failure: Option<Seq<char>>) -> Model {
        match (self.panels.installer, failure) {
            (None, _) => self,
            (Some(_), None) => self.task(Task::StartInstall),
            (Some(installer), Some(e)) => self.error(
                "could not create "@ + installer.spec_root() + ": "@ + e,
            ),
        }
    }

    /// Declining one question is not leaving the flow.
    pub open spec fn install_declined(self) -> Model {
        self.install_unasked().shown(Overlay::ZephyrInstall)
    }

    /// A key in the toolchain checklist: the pick is applied as it is made.
    #[verifier::opaque]
    pub open spec fn toolchains_key(self, key: KeyEvent, selected: usize) -> Model {
        let code = key.code;
        if self.panels.installer is None {
            self.closed()
        } else if input::is_up(code) {
            self.shown(
                Overlay::SdkToolchains {
                    selected: geometry::wrap_up(
                        selected as int,
                        TOOLCHAIN_COUNT as int,
                    ) as usize,
                },
            )
        } else if input::is_down(code) {
            self.shown(
                Overlay::SdkToolchains {
                    selected: geometry::wrap_down(
                        selected as int,
                        TOOLCHAIN_COUNT as int,
                    ) as usize,
                },
            )
        } else if code == KeyCode::Char(' ') {
            if selected < TOOLCHAIN_COUNT {
                self.with_desk(
                    DeskModel { picked: toggled_pick(self.desk.picked, selected), ..self.desk },
                ).task(Task::RefreshSdkStep).shown(Overlay::SdkToolchains { selected })
            } else {
                self.shown(Overlay::SdkToolchains { selected })
            }
        } else if code == KeyCode::Enter || input::is_leave(code) {
            self.shown(Overlay::ZephyrInstall)
        } else {
            self.shown(Overlay::SdkToolchains { selected })
        }
    }

    /// What a step reported.
    pub open spec fn install_updated(self, update: InstallUpdate) -> Model {
        if self.panels.installer is None {
            self
        } else {
            let m = match update.notice {
                Some(notice) => self.error(notice@),
                None => self,
            };
            let m = if update.stopped {
                m.installation_salvaged()
            } else {
                m
            };
            if update.finished {
                m.installation_adopted()
            } else {
                m
            }
        }
    }

    /// The workspace in force is the one at `root`.
    pub open spec fn workspace_at(self, root: Seq<char>) -> bool {
        self.panels.workspace matches Some(workspace) && workspace.dir matches Some(dir) && dir@
            == root
    }

    pub open spec fn installation_kept(self, root: Seq<char>, sdk: Option<String>) -> Model {
        self.emit(Effect::Text(TextTask::SaveInstallation { sdk }, root))
    }

    /// A stopped run may leave a usable workspace: recorded, once.
    pub open spec fn installation_salvaged(self) -> Model {
        match self.panels.installer {
            None => self,
            Some(installer) => {
                let root = installer.spec_root();
                if !installer.complete || self.workspace_at(root) {
                    self
                } else {
                    self.installation_kept(root, installer.sdk).info(
                        "the workspace at "@ + root + " is usable — recorded even though "@ + (
                        match installer.failed_step {
                            Some(step) => step@,
                            None => "the remaining step"@,
                        }) + " still needs to run"@,
                    )
                }
            },
        }
    }

    /// The SDK step alone, the installation recorded first.
    pub open spec fn sdk_completed(self) -> Model {
        match self.panels.installer {
            None => self,
            Some(installer) => {
                let root = installer.spec_root();
                let m = if self.workspace_at(root) {
                    self
                } else {
                    self.installation_kept(root, None)
                };
                m.task(Task::StartSdkOnly)
            },
        }
    }

    /// The installation is the answer: recorded, and on to the next question.
    pub open spec fn installation_adopted(self) -> Model {
        match self.panels.installer {
            None => self,
            Some(installer) => self.installation_kept(
                installer.spec_root(),
                installer.sdk,
            ).closed().with_installer(None).projects_folder_offered(),
        }
    }

    /// The installation was recorded, or could not be; a second one replaces
    /// the first by name.
    pub open spec fn installation_answered(
        self,
        root: Seq<char>,
        target: Seq<char>,
        failure: Option<Seq<char>>,
        sdk_failure: Option<Seq<char>>,
    ) -> Model {
        let previous = match self.panels.workspace {
            Some(workspace) => workspace.dir,
            None => None,
        };
        let m = match failure {
            Some(e) => self.error("could not save "@ + target + ": "@ + e),
            None => match previous {
                Some(previous) => if previous@ != root {
                    self.info(
                        "Zephyr installation switched from "@ + previous@ + " to "@ + root,
                    )
                } else {
                    self.info("Zephyr installation saved to "@ + target)
                },
                None => self.info("Zephyr installation saved to "@ + target),
            },
        };
        let m = match sdk_failure {
            Some(e) => m.error("could not save the SDK location: "@ + e),
            None => m,
        };
        m.task(Task::RefreshWorkspace)
    }

    /// The environment's next question, where it is still open.
    pub open spec fn projects_folder_offered(self) -> Model {
        if self.panels.workspace matches Some(panel) && panel.projects is None {
            self.task(Task::OpenProjectsPicker)
        } else {
            self
        }
    }

    /// The toolchain checklist over the installation already configured.
    pub open spec fn toolchains_opened(self) -> Model {
        match self.panels.workspace {
            Some(workspace) => match workspace.dir {
                Some(dir) => self.installer_asked(dir@, true),
                None => self.no_installation(),
            },
            None => self.no_installation(),
        }
    }

    pub open spec fn no_installation(self) -> Model {
        self.warn("no Zephyr installation configured — answer Zephyr path first (ctrl+k, e)"@)
    }

    /// Back to the picker, the refusal that opened the offer on screen.
    pub open spec fn offer_declined(self, dir: Seq<char>, reason: Seq<char>) -> Model {
        self.shown(
            Overlay::DirPicker {
                purpose: DirPurpose::Installation,
                path: dir,
                selected: 0,
                error: Some(reason),
            },
        )
    }
}

impl App {
    /// Opens the installer over `dir`, the folder the picker accepted.
    pub fn open_installer(&mut self, dir: String)
        ensures
            final(self)@ == old(self)@.installer_asked(dir@, false),
    {
        self.emit(Effect::Text(TextTask::InspectInstallDir { toolchains: false }, dir));
    }

    /// What stands in the folder: a workspace to resume, a complete
    /// installation to adopt.
    pub fn install_dir_inspected(
        &mut self,
        dir: String,
        manifest_url: String,
        has_west: bool,
        complete: bool,
        toolchains: bool,
    )
        ensures
            final(self)@ == old(self)@.installer_opened(
                dir,
                manifest_url,
                has_west,
                complete,
                toolchains,
            ),
    {
        let installer = Installer {
            dir,
            nested: !has_west,
            busy: false,
            action: InstallAction::Blocked,
            can_start: false,
            prereqs_ready: false,
            complete,
            next_command: None,
            manifest_url,
            failed_step: None,
            sdk: None,
        };
        self.apply_tools();
        self.task(Task::ProbePrerequisites);
        self.info(text::join("Zephyr installer: target ", installer.root().as_str()).as_str());
        self.panels.installer = Some(installer);
        self.desk.picked = Vec::new();
        assert(self.desk.picked@ =~= Seq::<usize>::empty());
        if toolchains {
            self.show(Overlay::SdkToolchains { selected: 0 });
        } else {
            self.show(Overlay::ZephyrInstall);
        }
    }

    fn apply_tools(&mut self)
        ensures
            final(self)@ == old(self)@.tools_applied(),
    {
        let ghost calls = tools::tool_effects(self@.desk.installer_tools);
        let mut i: usize = 0;
        assert(self@.effects + calls.take(0) =~= self@.effects);
        while i < self.desk.installer_tools.len()
            invariant
                i <= calls.len(),
                calls == tools::tool_effects(old(self)@.desk.installer_tools),
                self@ == (Model { effects: old(self)@.effects + calls.take(i as int), ..old(self)@ }),
            decreases calls.len() - i,
        {
            let ghost entry = self.desk.installer_tools@[i as int];
            assert(self@.desk.installer_tools[i as int] == entry.model());
            let tool = self.desk.installer_tools[i].tool.clone();
            let program = self.desk.installer_tools[i].program.clone();
            self.emit(Effect::Pair(PairTask::SetInstallerTool, tool, program));
            assert(old(self)@.effects + calls.take(i + 1) =~= (old(self)@.effects + calls.take(
                i as int,
            )).push(calls[i as int]));
            i = i + 1;
        }
        assert(calls.take(i as int) =~= calls);
    }

    /// Points one of the installer's tools at a specific program, now and for
    /// every installer created later.
    pub fn set_installer_tool_path(&mut self, tool: String, program: String)
        ensures
            final(self)@ == old(self)@.installer_tool_set(tool@, program@),
    {
        set_tool(&mut self.desk.installer_tools, tool.clone(), program.clone());
        if self.panels.installer.is_some() {
            self.emit(Effect::Pair(PairTask::SetInstallerTool, tool, program));
        }
    }

    /// Handles a key while the installer shows. A running installation is
    /// not left by reflex: `Stop` is the way out.
    pub fn on_install_key(&mut self, key: KeyEvent)
        ensures
            final(self)@ == old(self)@.install_key(key),
    {
        reveal(Model::install_key);
        let code = key.code;
        let (busy, action) = match &self.panels.installer {
            Some(installer) => (installer.busy, installer.action),
            None => {
                self.close();
                return;
            },
        };
        let viewport: usize = if self.drawn.install_viewport == 0 {
            1
        } else {
            self.drawn.install_viewport
        };
        if up_key(code) {
            self.task(Task::ScrollInstall { down: false, rows: 1, viewport });
        } else if down_key(code) {
            self.task(Task::ScrollInstall { down: true, rows: 1, viewport });
        } else if code == KeyCode::PageUp {
            self.task(Task::ScrollInstall { down: false, rows: viewport, viewport });
        } else if code == KeyCode::PageDown {
            self.task(Task::ScrollInstall { down: true, rows: viewport, viewport });
        } else if code == KeyCode::Char('s') {
            self.task(Task::ToggleSdk);
        } else if code == KeyCode::Char('t') {
            self.show(Overlay::SdkToolchains { selected: 0 });
        } else if code == KeyCode::Char('r') {
            if !busy {
                self.task(Task::ProbePrerequisites);
            }
        } else if code == KeyCode::Enter {
            self.run_install_action(action);
        } else if leave_key(code) && !busy {
            self.close();
        }
    }

    fn run_install_action(&mut self, action: InstallAction)
        ensures
            final(self)@ == old(self)@.install_action(action),
    {
        match action {
            InstallAction::Stop => self.task(Task::StopInstall),
            InstallAction::PickToolchains => self.show(Overlay::SdkToolchains { selected: 0 }),
            InstallAction::Adopt => self.adopt_installation(),
            InstallAction::InstallSdk | InstallAction::AddToolchains => self.install_missing_sdk(),
            InstallAction::Install | InstallAction::Retry => self.confirm_install(),
            InstallAction::Blocked | InstallAction::Done => {},
        }
    }

    /// Asks before the sequence starts.
    pub fn confirm_install(&mut self)
        ensures
            final(self)@ == old(self)@.install_confirm_asked(),
    {
        let message = match &self.panels.installer {
            None => {
                return;
            },
            Some(installer) => {
                if !installer.can_start {
                    if !installer.prereqs_ready {
                        self.warn(
                            "install the missing prerequisites first — the checklist names them",
                        );
                    }
                    return;
                }
                match &installer.next_command {
                    Some(command) => command.clone(),
                    None => text::join3("west init -m ", installer.manifest_url.as_str(), " ."),
                }
            },
        };
        self.pending.install_confirm = true;
        self.show(Overlay::Confirm { message, confirm: false });
    }

    /// The confirmation's accept path.
    pub fn start_install(&mut self)
        ensures
            final(self)@ == old(self)@.install_accepted(),
    {
        self.pending.install_confirm = false;
        if let Some(installer) = &self.panels.installer {
            let root = installer.root();
            self.emit(Effect::Text(TextTask::CreateInstallRoot, root));
            self.show(Overlay::ZephyrInstall);
        }
    }

    /// The installation's directory was created, or could not be.
    pub fn install_root_created(&mut self, outcome: Result<(), String>)
        ensures
            final(self)@ == old(self)@.install_root_answered(file_browser::failure_view(outcome)),
    {
        if let Some(installer) = &self.panels.installer {
            match outcome {
                Ok(_) => self.task(Task::StartInstall),
                Err(e) => {
                    let line = text::join3(
                        "could not create ",
                        installer.root().as_str(),
                        ": ",
                    );
                    self.error(text::join(line.as_str(), e.as_str()).as_str());
                },
            }
        }
    }

    /// The confirmation's decline path.
    pub fn cancel_install(&mut self)
        ensures
            final(self)@ == old(self)@.install_declined(),
    {
        self.pending.install_confirm = false;
        self.show(Overlay::ZephyrInstall);
    }

    /// Handles a key in the toolchain checklist.
    pub fn on_sdk_toolchains_key(&mut self, key: KeyEvent, selected: usize)
        ensures
            final(self)@ == old(self)@.toolchains_key(key, selected),
    {
        reveal(Model::toolchains_key);
        let code = key.code;
        if self.panels.installer.is_none() {
            self.close();
        } else if up_key(code) {
            let selected: usize = wrapped_up(selected, TOOLCHAIN_COUNT);
            self.show(Overlay::SdkToolchains { selected });
        } else if down_key(code) {
            let selected: usize = wrapped_down(selected, TOOLCHAIN_COUNT);
            self.show(Overlay::SdkToolchains { selected });
        } else if code == KeyCode::Char(' ') {
            if selected < TOOLCHAIN_COUNT {
                toggle_pick(&mut self.desk.picked, selected);
                self.task(Task::RefreshSdkStep);
            }
            self.show(Overlay::SdkToolchains { selected });
        } else if code == KeyCode::Enter || leave_key(code) {
            self.show(Overlay::ZephyrInstall);
        } else {
            self.show(Overlay::SdkToolchains { selected });
        }
    }

    /// Lands what an installation step reported.
    pub fn install_on_process(&mut self, update: InstallUpdate)
        ensures
            final(self)@ == old(self)@.install_updated(update),
    {
        if self.panels.installer.is_none() {
            return;
        }
        if let Some(notice) = &update.notice {
            self.error(notice.as_str());
        }
        if update.stopped {
            self.salvage_installation();
        }
        if update.finished {
            self.adopt_installation();
        }
    }

    fn is_workspace_at(&self, root: &str) -> (r: bool)
        ensures
            r == self@.workspace_at(root@),
    {
        match &self.panels.workspace {
            Some(workspace) => match &workspace.dir {
                Some(dir) => text::same(dir.as_str(), root),
                None => false,
            },
            None => false,
        }
    }

    fn persist_installation(&mut self, root: String, sdk: Option<String>)
        ensures
            final(self)@ == old(self)@.installation_kept(root@, sdk),
    {
        self.emit(Effect::Text(TextTask::SaveInstallation { sdk }, root));
    }

    fn salvage_installation(&mut self)
        ensures
            final(self)@ == old(self)@.installation_salvaged(),
    {
        if let Some(installer) = &self.panels.installer {
            let root = installer.root();
            if !installer.complete || self.is_workspace_at(root.as_str()) {
                return;
            }
            let sdk = clone_opt(&installer.sdk);
            let step = match &installer.failed_step {
                Some(step) => step.clone(),
                None => "the remaining step".to_owned(),
            };
            let line = text::join3(
                "the workspace at ",
                root.as_str(),
                " is usable — recorded even though ",
            );
            let line = text::join3(line.as_str(), step.as_str(), " still needs to run");
            self.persist_installation(root, sdk);
            self.info(line.as_str());
        }
    }

    fn install_missing_sdk(&mut self)
        ensures
            final(self)@ == old(self)@.sdk_completed(),
    {
        if let Some(installer) = &self.panels.installer {
            let root = installer.root();
            if !self.is_workspace_at(root.as_str()) {
                self.persist_installation(root, None);
            }
            self.task(Task::StartSdkOnly);
        }
    }

    /// Records the installation the panel found or finished, and leaves.
    fn adopt_installation(&mut self)
        ensures
            final(self)@ == old(self)@.installation_adopted(),
    {
        if let Some(installer) = &self.panels.installer {
            let root = installer.root();
            let sdk = clone_opt(&installer.sdk);
            self.persist_installation(root, sdk);
            self.close();
            self.panels.installer = None;
            self.offer_projects_folder();
        }
    }

    /// The installation was recorded, or could not be.
    pub fn installation_saved(
        &mut self,
        root: &str,
        target: &str,
        outcome: Result<(), String>,
        sdk_outcome: Result<(), String>,
    )
        ensures
            final(self)@ == old(self)@.installation_answered(
                root@,
                target@,
                file_browser::failure_view(outcome),
                file_browser::failure_view(sdk_outcome),
            ),
    {
        let previous = match &self.panels.workspace {
            Some(workspace) => clone_opt(&workspace.dir),
            None => None,
        };
        match outcome {
            Err(e) => {
                let line = text::join3("could not save ", target, ": ");
                self.error(text::join(line.as_str(), e.as_str()).as_str());
            },
            Ok(_) => match previous {
                Some(previous) => {
                    if !text::same(previous.as_str(), root) {
                        let line = text::join3(
                            "Zephyr installation switched from ",
                            previous.as_str(),
                            " to ",
                        );
                        self.info(text::join(line.as_str(), root).as_str());
                    } else {
                        self.info(text::join("Zephyr installation saved to ", target).as_str());
                    }
                },
                None => self.info(text::join("Zephyr installation saved to ", target).as_str()),
            },
        }
        if let Err(e) = sdk_outcome {
            self.error(text::join("could not save the SDK location: ", e.as_str()).as_str());
        }
        self.task(Task::RefreshWorkspace);
    }

    fn offer_projects_folder(&mut self)
        ensures
            final(self)@ == old(self)@.projects_folder_offered(),
    {
        let open: bool = match &self.panels.workspace {
            Some(panel) => panel.projects.is_none(),
            None => false,
        };
        if open {
            self.task(Task::OpenProjectsPicker);
        }
    }

    /// Opens the toolchain checklist over the installation in force.
    pub fn open_sdk_toolchains_shortcut(&mut self)
        ensures
            final(self)@ == old(self)@.toolchains_opened(),
    {
        let dir = match &self.panels.workspace {
            Some(workspace) => clone_opt(&workspace.dir),
            None => None,
        };
        match dir {
            Some(dir) => self.emit(
                Effect::Text(TextTask::InspectInstallDir { toolchains: true }, dir),
            ),
            None => self.warn(
                "no Zephyr installation configured — answer Zephyr path first (ctrl+k, e)",
            ),
        }
    }

    /// Asks where to install.
    pub fn open_install_picker(&mut self)
        ensures
            final(self)@ == old(self)@.task(Task::OpenPurposePicker(DirPurpose::Install)),
    {
        self.task(Task::OpenPurposePicker(DirPurpose::Install));
    }

    /// The directory picker's accepted folder.
    pub fn accept_install_dir(&mut self, dir: String)
        ensures
            final(self)@ == old(self)@.installer_asked(dir@, false),
    {
        self.open_installer(dir);
    }

    /// Offers the installer over a directory the picker refused. Yes leads:
    /// nothing runs yet.
    pub fn offer_install(&mut self, dir: String, reason: String)
        ensures
            final(self)@ == old(self)@.shown(
                Overlay::ConfirmInstallHere { dir: dir@, reason: reason@, confirm: true },
            ),
    {
        self.show(Overlay::ConfirmInstallHere { dir, reason, confirm: true });
    }

    /// The offer's decline path.
    pub fn decline_install_offer(&mut self, dir: String, reason: String)
        ensures
            final(self)@ == old(self)@.offer_declined(dir@, reason@),
    {
        self.show(
            Overlay::DirPicker {
                purpose: DirPurpose::Installation,
                path: dir,
                selected: 0,
                error: Some(reason),
            },
        );
    }

    /// The installer's steps; `None` without an installer.
    pub fn install_steps(&self) -> (r: Option<&Vec<StepState>>)
        ensures
            match r {
                Some(steps) => self@.panels.installer is Some && *steps
                    == self@.panels.lists.install_steps,
                None => self@.panels.installer is None,
            },
    {
        if self.panels.installer.is_some() {
            Some(&self.panels.lists.install_steps)
        } else {
            None
        }
    }
}

/// A running installation is never left by reflex.
pub proof fn a_running_installation_is_not_left(m: Model, key: KeyEvent)
    requires
        m.panels.installer is Some,
        m.panels.installer.unwrap().busy,
        input::is_leave(key.code),
    ensures
        m.install_key(key) == m,
{
    reveal(Model::install_key);
}

/// Nothing is installed before the question is answered.
pub proof fn installing_asks_first(m: Model)
    ensures
        m.install_confirm_asked().effects == m.effects,
        m.panels.installer is Some && m.panels.installer.unwrap().can_start
            ==> m.install_confirm_asked().pending.install_confirm
            && m.install_confirm_asked().overlay is Some,
{
}

/// A workspace already in force is not recorded twice.
pub proof fn a_known_workspace_is_not_recorded_again(m: Model)
    requires
        m.panels.installer is Some,
        m.workspace_at(m.panels.installer.unwrap().spec_root()),
    ensures
        m.installation_salvaged() == m,
        m.sdk_completed() == m.task(Task::StartSdkOnly),
{
}

/// A pick is a switch: it puts the toolchain in, and takes it out again.
pub proof fn picking_toggles(picked: Seq<usize>, index: usize)
    requires
        picked.no_duplicates(),
    ensures
        toggled_pick(picked, index).contains(index) == !picked.contains(index),
        toggled_pick(picked, index).no_duplicates(),
        !picked.contains(index) ==> toggled_pick(toggled_pick(picked, index), index) == picked,
{
    if picked.contains(index) {
        picked.index_of_first_ensures(index);
        let k = picked.index_of_first(index).unwrap();
        let after = picked.remove(k);
        assert forall|i: int| 0 <= i < after.len() implies after[i] != index by {
            if i < k {
                assert(after[i] == picked[i]);
            } else {
                assert(after[i] == picked[i + 1]);
            }
        }
    } else {
        let once = picked.push(index);
        assert(once[picked.len() as int] == index);
        once.index_of_first_ensures(index);
        let k = once.index_of_first(index).unwrap();
        assert(k == picked.len()) by {
            if k < picked.len() {
                assert(picked[k] == index);
            }
        }
        assert(once.remove(k) =~= picked);
    }
}

/// An installer just opened has no toolchain picked, whatever the last one
/// had, and its tools are pointed at their programs before it is probed.
pub proof fn a_new_installer_starts_over(
    m: Model,
    dir: String,
    manifest_url: String,
    has_west: bool,
    complete: bool,
    toolchains: bool,
)
    ensures
        ({
            let after = m.installer_opened(dir, manifest_url, has_west, complete, toolchains);
            &&& after.desk.picked.len() == 0
            &&& after.desk.installer_tools == m.desk.installer_tools
            &&& after.effects == (m.effects + tools::tool_effects(m.desk.installer_tools)).push(
                Effect::Task(Task::ProbePrerequisites),
            )
        }),
{
}

} // verus!
