//! The OTA window's app side: opening it with the project's answers, driving
//! its keys, and landing its results.

use vstd::prelude::*;
use vstd::string::*;

use crate::app::{App, DeskModel, Model, Panels, Pending};
use crate::app::build_view::clone_opt;
use crate::effect::{Effect, Task, TextTask};
use crate::geometry;
use crate::geometry::{wrapped_down, wrapped_up};
use crate::input;
use crate::input::{KeyCode, KeyEvent, down_key, leave_key, up_key};
use crate::overlay;
use crate::overlay::Overlay;
use crate::panels::{BuildAction, BuildKind, OtaAction, OtaConfirm, OtaPanel, TRANSPORT_COUNT};
use crate::text;

verus! {

broadcast use crate::overlay::group_overlay_models;

/// What an update stage reported.
pub struct OtaUpdate {
    pub notice: Option<String>,
    pub finished: bool,
    /// The image runs, unconfirmed: the next reset reverts it.
    pub halted_unconfirmed: bool,
}

impl Model {
    pub open spec fn with_ota(self, ota: Option<OtaPanel>) -> Model {
        self.with_panels(Panels { ota, ..self.panels })
    }

    pub open spec fn capture_tried(self, tried: bool) -> Model {
        self.with_pending(Pending { address_capture_tried: tried, ..self.pending })
    }

    /// The window for the project the build panel serves. A panel that
    /// already describes it is kept, and with it an unconfirmed update.
    pub open spec fn ota_asked(self) -> Model {
        match self.panels.build {
            None => self.warn("OTA: no project resolved --- pick one first"@),
            Some(build) => match build.board {
                None => self.warn(
                    "OTA: no board selected --- the Environment pane's Board row answers that"@,
                ),
                Some(board) => if self.panels.ota matches Some(panel) && panel.serves_current {
                    self.task(Task::RefreshOta { probe: false }).shown(Overlay::Ota)
                } else {
                    self.task(Task::OpenOta { root: build.root, board })
                },
            },
        }
    }

    /// The client pointed at a program, in the panel that is there and in
    /// every later one.
    pub open spec fn ota_tool_set(self, program: Seq<char>) -> Model {
        let m = self.with_desk(DeskModel { ota_tool: Some(program), ..self.desk });
        if self.panels.ota is Some {
            m.emit(Effect::Text(TextTask::SetOtaTool, program))
        } else {
            m
        }
    }

    /// The client's program, where one was set.
    pub open spec fn ota_tool_applied(self) -> Model {
        match self.desk.ota_tool {
            Some(program) => self.emit(Effect::Text(TextTask::SetOtaTool, program)),
            None => self,
        }
    }

    /// The panel asked for: it knows its client before its requirements are
    /// asked about, and owes the automatic capture again.
    pub open spec fn ota_answered(self, panel: Option<OtaPanel>) -> Model {
        match panel {
            None => self.error("OTA: the configured method has no driver registered"@),
            Some(panel) => self.ota_tool_applied().task(Task::ProbeOtaRequirements).capture_tried(
                false,
            ).info("OTA: "@ + panel.root@).with_ota(
                Some(panel),
            ).shown(Overlay::Ota),
        }
    }

    /// The address asked of the user.
    pub open spec fn address_asked(self) -> Model {
        self.shown(
            Overlay::OtaAddress {
                input: match self.panels.ota {
                    Some(panel) => match panel.address {
                        Some(address) => address@,
                        None => Seq::empty(),
                    },
                    None => Seq::empty(),
                },
            },
        )
    }

    /// The address asked of the board first, of the user second.
    pub open spec fn address_wanted(self) -> Model {
        if self.pending.address_capture_tried {
            self.address_asked()
        } else {
            let m = self.capture_tried(true);
            if m.capture_starts() {
                m.capture_asked(true)
            } else {
                m.address_asked()
            }
        }
    }

    /// A key while the window shows.
    #[verifier::opaque]
    pub open spec fn ota_key(self, key: KeyEvent) -> Model {
        let code = key.code;
        let viewport = if self.drawn.ota_viewport == 0 {
            1
        } else {
            self.drawn.ota_viewport
        };
        match self.panels.ota {
            None => self.closed(),
            Some(panel) => if input::is_up(code) {
                self.task(Task::ScrollOta { down: false, rows: 1, viewport })
            } else if input::is_down(code) {
                self.task(Task::ScrollOta { down: true, rows: 1, viewport })
            } else if code == KeyCode::PageUp {
                self.task(Task::ScrollOta { down: false, rows: viewport, viewport })
            } else if code == KeyCode::PageDown {
                self.task(Task::ScrollOta { down: true, rows: viewport, viewport })
            } else if code == KeyCode::Enter {
                self.ota_action(panel.action)
            } else if panel.busy {
                self
            } else {
                self.ota_idle_key(panel, code)
            },
        }
    }

    /// The keys a running stage does not take.
    pub open spec fn ota_idle_key(self, panel: OtaPanel, code: KeyCode) -> Model {
        if code == KeyCode::Char('s') {
            self.task(Task::ToggleNetShell)
        } else if code == KeyCode::Char('l') {
            self.task(Task::ToggleAddressLog)
        } else if code == KeyCode::Char('a') {
            self.capture_tried(false).address_wanted()
        } else if code == KeyCode::Char('r') {
            self.task(Task::RefreshOta { probe: true })
        } else if code == KeyCode::Char('p') {
            self.task(Task::ProbeBoard)
        } else if code == KeyCode::Char('t') {
            self.shown(
                Overlay::OtaTransport {
                    selected: if panel.transport < TRANSPORT_COUNT {
                        panel.transport
                    } else {
                        0
                    },
                },
            )
        } else if code == KeyCode::Char('c') {
            self.task(Task::SetAutoConfirm(!panel.auto_confirm))
        } else if input::is_leave(code) {
            self.closed()
        } else {
            self
        }
    }

    /// The window's button.
    pub open spec fn ota_action(self, action: OtaAction) -> Model {
        match action {
            OtaAction::Stop => self.task(Task::StopOta),
            OtaAction::SetAddress | OtaAction::RecaptureAddress => self.address_wanted(),
            OtaAction::Rebuild => self.closed().build_run(BuildAction::Build(BuildKind::Rebuild)),
            OtaAction::Done => self.task(Task::EndOtaCycle).closed(),
            OtaAction::ResumeVerify => self.task(Task::ResumeOta),
            _ => match action.question() {
                Some(what) => self.shown(Overlay::ConfirmOta { what, confirm: false }),
                None => self,
            },
        }
    }

    /// Back to the window, then the action.
    pub open spec fn ota_accepted(self, what: OtaConfirm) -> Model {
        let m = self.shown(Overlay::Ota);
        if m.panels.ota is Some {
            m.task(Task::StartOta(what))
        } else {
            m
        }
    }

    /// What preparing the project came to.
    pub open spec fn ota_prepared(self, notice: Option<Seq<char>>, finished: bool) -> Model {
        match self.panels.ota {
            None => self,
            Some(panel) => {
                let m = match notice {
                    Some(notice) => self.error(notice),
                    None => self,
                };
                if finished {
                    m.info(
                        "OTA: "@ + panel.root@
                            + " is instrumented --- rebuild (sysbuild) to produce the signed image"@,
                    )
                } else {
                    m
                }
            },
        }
    }

    /// A key in the transport picker.
    #[verifier::opaque]
    pub open spec fn transport_key(self, key: KeyEvent, selected: usize) -> Model {
        let code = key.code;
        if input::is_leave(code) {
            self.shown(Overlay::Ota)
        } else if input::is_up(code) {
            self.shown(
                Overlay::OtaTransport {
                    selected: geometry::wrap_up(
                        selected as int,
                        TRANSPORT_COUNT as int,
                    ) as usize,
                },
            )
        } else if input::is_down(code) {
            self.shown(
                Overlay::OtaTransport {
                    selected: geometry::wrap_down(
                        selected as int,
                        TRANSPORT_COUNT as int,
                    ) as usize,
                },
            )
        } else if code == KeyCode::Enter {
            let m = if selected < TRANSPORT_COUNT && self.panels.ota is Some {
                self.task(Task::SetTransport(selected))
            } else {
                self
            };
            m.shown(Overlay::Ota)
        } else {
            self.shown(Overlay::OtaTransport { selected })
        }
    }

    /// A key in the address entry.
    #[verifier::opaque]
    pub open spec fn address_key(self, key: KeyEvent, input: Seq<char>) -> Model {
        match key.code {
            KeyCode::Esc => self.shown(Overlay::Ota),
            KeyCode::Enter => {
                let address = text::trimmed(input);
                let m = if address.len() > 0 {
                    self.address_kept(address, false)
                } else {
                    self
                };
                m.shown(Overlay::Ota)
            },
            KeyCode::Backspace => self.shown(Overlay::OtaAddress { input: text::popped(input) }),
            KeyCode::Char(c) => self.shown(Overlay::OtaAddress { input: input.push(c) }),
            _ => self.shown(Overlay::OtaAddress { input }),
        }
    }

    /// What a stage reported: progress in the log, failure as an error.
    pub open spec fn ota_updated(self, update: OtaUpdate) -> Model {
        match (self.panels.ota, update.notice) {
            (Some(_), Some(notice)) => if update.finished || update.halted_unconfirmed {
                self.info(notice@)
            } else {
                self.error(notice@)
            },
            _ => self,
        }
    }

    pub open spec fn ota_driven(self) -> Model {
        if self.panels.ota is Some {
            self.task(Task::DriveOta)
        } else {
            self
        }
    }
}

impl App {
    /// Opens the OTA window for the project the build panel serves.
    pub fn open_ota(&mut self)
        ensures
            final(self)@ == old(self)@.ota_asked(),
    {
        let (root, board) = match &self.panels.build {
            None => {
                self.warn("OTA: no project resolved --- pick one first");
                return;
            },
            Some(build) => match &build.board {
                None => {
                    self.warn(
                        "OTA: no board selected --- the Environment pane's Board row answers that",
                    );
                    return;
                },
                Some(board) => (build.root.clone(), board.clone()),
            },
        };
        let kept: bool = match &self.panels.ota {
            Some(panel) => panel.serves_current,
            None => false,
        };
        if kept {
            self.task(Task::RefreshOta { probe: false });
            self.show(Overlay::Ota);
        } else {
            self.task(Task::OpenOta { root, board });
        }
    }

    /// The panel asked for was created, or no driver serves the method.
    pub fn ota_opened(&mut self, panel: Option<OtaPanel>)
        ensures
            final(self)@ == old(self)@.ota_answered(panel),
    {
        match panel {
            None => self.error("OTA: the configured method has no driver registered"),
            Some(panel) => {
                self.apply_ota_tool();
                self.task(Task::ProbeOtaRequirements);
                self.pending.address_capture_tried = false;
                self.info(text::join("OTA: ", panel.root.as_str()).as_str());
                self.panels.ota = Some(panel);
                self.show(Overlay::Ota);
            },
        }
    }

    /// Opens the address entry.
    pub fn ask_address(&mut self)
        ensures
            final(self)@ == old(self)@.address_asked(),
    {
        let known = match &self.panels.ota {
            Some(panel) => clone_opt(&panel.address),
            None => None,
        };
        let input = match known {
            Some(address) => address,
            None => String::new(),
        };
        assert(known is None ==> input@ =~= Seq::<char>::empty());
        self.show(Overlay::OtaAddress { input });
    }

    /// Asks the board for its address first, the user second.
    pub fn capture_or_ask_address(&mut self)
        ensures
            final(self)@ == old(self)@.address_wanted(),
    {
        if !self.pending.address_capture_tried {
            self.pending.address_capture_tried = true;
            if self.start_address_capture(true) {
                return;
            }
        }
        self.ask_address();
    }

    fn apply_ota_tool(&mut self)
        ensures
            final(self)@ == old(self)@.ota_tool_applied(),
    {
        if let Some(program) = clone_opt(&self.desk.ota_tool) {
            self.emit(Effect::Text(TextTask::SetOtaTool, program));
        }
    }

    /// Points the OTA client at a specific program, now and for every panel
    /// created later.
    pub fn set_ota_tool(&mut self, program: String)
        ensures
            final(self)@ == old(self)@.ota_tool_set(program@),
    {
        self.desk.ota_tool = Some(program.clone());
        if self.panels.ota.is_some() {
            self.emit(Effect::Text(TextTask::SetOtaTool, program));
        }
    }

    /// Handles a key while the window shows.
    pub fn on_ota_key(&mut self, key: KeyEvent)
        ensures
            final(self)@ == old(self)@.ota_key(key),
    {
        reveal(Model::ota_key);
        let code = key.code;
        let (busy, action) = match &self.panels.ota {
            Some(panel) => (panel.busy, panel.action),
            None => {
                self.close();
                return;
            },
        };
        let viewport: usize = if self.drawn.ota_viewport == 0 {
            1
        } else {
            self.drawn.ota_viewport
        };
        if up_key(code) {
            self.task(Task::ScrollOta { down: false, rows: 1, viewport });
        } else if down_key(code) {
            self.task(Task::ScrollOta { down: true, rows: 1, viewport });
        } else if code == KeyCode::PageUp {
            self.task(Task::ScrollOta { down: false, rows: viewport, viewport });
        } else if code == KeyCode::PageDown {
            self.task(Task::ScrollOta { down: true, rows: viewport, viewport });
        } else if code == KeyCode::Enter {
            self.run_ota_action(action);
        } else if !busy {
            self.on_idle_ota_key(code);
        }
    }

    fn on_idle_ota_key(&mut self, code: KeyCode)
        requires
            old(self)@.panels.ota is Some,
        ensures
            final(self)@ == old(self)@.ota_idle_key(old(self)@.panels.ota.unwrap(), code),
    {
        let (transport, auto_confirm) = match &self.panels.ota {
            Some(panel) => (panel.transport, panel.auto_confirm),
            None => {
                return;
            },
        };
        if code == KeyCode::Char('s') {
            self.task(Task::ToggleNetShell);
        } else if code == KeyCode::Char('l') {
            self.task(Task::ToggleAddressLog);
        } else if code == KeyCode::Char('a') {
            self.pending.address_capture_tried = false;
            self.capture_or_ask_address();
        } else if code == KeyCode::Char('r') {
            self.task(Task::RefreshOta { probe: true });
        } else if code == KeyCode::Char('p') {
            self.task(Task::ProbeBoard);
        } else if code == KeyCode::Char('t') {
            let selected: usize = if transport < TRANSPORT_COUNT {
                transport
            } else {
                0
            };
            self.show(Overlay::OtaTransport { selected });
        } else if code == KeyCode::Char('c') {
            self.task(Task::SetAutoConfirm(!auto_confirm));
        } else if leave_key(code) {
            self.close();
        }
    }

    fn run_ota_action(&mut self, action: OtaAction)
        ensures
            final(self)@ == old(self)@.ota_action(action),
    {
        match action {
            OtaAction::Stop => self.task(Task::StopOta),
            OtaAction::SetAddress | OtaAction::RecaptureAddress => self.capture_or_ask_address(),
            OtaAction::Rebuild => {
                self.close();
                self.run_build_action(BuildAction::Build(BuildKind::Rebuild));
            },
            OtaAction::Done => {
                self.task(Task::EndOtaCycle);
                self.close();
            },
            OtaAction::ResumeVerify => self.task(Task::ResumeOta),
            _ => {
                if let Some(what) = action.confirm() {
                    self.show(Overlay::ConfirmOta { what, confirm: false });
                }
            },
        }
    }

    /// An answer the panel could not record.
    pub fn ota_failed(&mut self, reason: &str)
        ensures
            final(self)@ == old(self)@.error("OTA: "@ + reason@),
    {
        self.error(text::join("OTA: ", reason).as_str());
    }

    /// The confirmation's accept path.
    pub fn accept_ota_confirm(&mut self, what: OtaConfirm)
        ensures
            final(self)@ == old(self)@.ota_accepted(what),
    {
        self.show(Overlay::Ota);
        if self.panels.ota.is_some() {
            self.task(Task::StartOta(what));
        }
    }

    /// The project was prepared, or not.
    pub fn ota_prepared(&mut self, notice: Option<String>, finished: bool)
        ensures
            final(self)@ == old(self)@.ota_prepared(overlay::opt_text(notice), finished),
    {
        let root = match &self.panels.ota {
            Some(panel) => panel.root.clone(),
            None => {
                return;
            },
        };
        if let Some(notice) = notice {
            self.error(notice.as_str());
        }
        if finished {
            self.info(
                text::join3(
                    "OTA: ",
                    root.as_str(),
                    " is instrumented --- rebuild (sysbuild) to produce the signed image",
                ).as_str(),
            );
        }
    }

    /// The confirmation's decline path: back to the window.
    pub fn decline_ota_confirm(&mut self)
        ensures
            final(self)@ == old(self)@.shown(Overlay::Ota),
    {
        self.show(Overlay::Ota);
    }

    /// Handles a key in the transport picker.
    pub fn on_ota_transport_key(&mut self, key: KeyEvent, selected: usize)
        ensures
            final(self)@ == old(self)@.transport_key(key, selected),
    {
        reveal(Model::transport_key);
        let code = key.code;
        if leave_key(code) {
            self.show(Overlay::Ota);
        } else if up_key(code) {
            let selected: usize = wrapped_up(selected, TRANSPORT_COUNT);
            self.show(Overlay::OtaTransport { selected });
        } else if down_key(code) {
            let selected: usize = wrapped_down(selected, TRANSPORT_COUNT);
            self.show(Overlay::OtaTransport { selected });
        } else if code == KeyCode::Enter {
            if selected < TRANSPORT_COUNT && self.panels.ota.is_some() {
                self.task(Task::SetTransport(selected));
            }
            self.show(Overlay::Ota);
        } else {
            self.show(Overlay::OtaTransport { selected });
        }
    }

    /// The transport could not be recorded.
    pub fn transport_failed(&mut self, reason: &str)
        ensures
            final(self)@ == old(self)@.error("could not record the transport: "@ + reason@),
    {
        self.error(text::join("could not record the transport: ", reason).as_str());
    }

    /// Handles a key in the address entry.
    pub fn on_ota_address_key(&mut self, key: KeyEvent, input: String)
        ensures
            final(self)@ == old(self)@.address_key(key, input@),
    {
        reveal(Model::address_key);
        let mut input = input;
        match key.code {
            KeyCode::Esc => self.show(Overlay::Ota),
            KeyCode::Enter => {
                let address = text::trim(input.as_str());
                if address.as_str().unicode_len() > 0 {
                    self.keep_address(address, false);
                }
                self.show(Overlay::Ota);
            },
            KeyCode::Backspace => {
                let _ = input.pop();
                self.show(Overlay::OtaAddress { input });
            },
            KeyCode::Char(c) => {
                input.push(c);
                self.show(Overlay::OtaAddress { input });
            },
            _ => self.show(Overlay::OtaAddress { input }),
        }
    }

    /// Lands what an update stage reported.
    pub fn ota_on_process(&mut self, update: OtaUpdate)
        ensures
            final(self)@ == old(self)@.ota_updated(update),
    {
        if self.panels.ota.is_none() {
            return;
        }
        if let Some(notice) = &update.notice {
            if update.finished || update.halted_unconfirmed {
                self.info(notice.as_str());
            } else {
                self.error(notice.as_str());
            }
        }
    }

    /// The tick's half of the window.
    pub fn drive_ota(&mut self)
        ensures
            final(self)@ == old(self)@.ota_driven(),
    {
        if self.panels.ota.is_some() {
            self.task(Task::DriveOta);
        }
    }
}

/// A running update is never left by reflex: `Esc` and `q` do nothing.
pub proof fn a_running_update_is_not_left(m: Model, key: KeyEvent)
    requires
        m.panels.ota is Some,
        m.panels.ota.unwrap().busy,
        input::is_leave(key.code),
    ensures
        m.ota_key(key) == m,
{
    reveal(Model::ota_key);
}

/// Reopening keeps a panel that serves the project, and with it an update
/// not confirmed yet.
pub proof fn reopening_keeps_the_panel(m: Model)
    requires
        m.panels.build is Some,
        m.panels.build.unwrap().board is Some,
        m.panels.ota is Some,
        m.panels.ota.unwrap().serves_current,
    ensures
        m.ota_asked().panels == m.panels,
        m.ota_asked().overlay == Some(Overlay::<Seq<char>>::Ota),
{
}

/// Everything the window writes is asked for first, with No highlighted.
pub proof fn writes_are_asked_first(m: Model, action: OtaAction)
    requires
        action.question() is Some,
    ensures
        m.ota_action(action) == m.shown(
            Overlay::ConfirmOta { what: action.question().unwrap(), confirm: false },
        ),
{
}

} // verus!
