//! What updating a board over the air promises: which project and board it
//! serves, which stage a button starts, and where an address comes from.

use vstd::prelude::*;
use vstd::string::*;

use crate::app::Model;
use crate::app::ota_view::OtaUpdate;
use crate::effect::{Effect, Task, TextTask};
use crate::input::{KeyCode, KeyEvent};
use crate::logs::Level;
use crate::overlay::Overlay;
use crate::panels::{BuildAction, BuildKind, OtaAction, OtaConfirm, OtaPanel};
use crate::text;

verus! {

/// The window serves the project and board of the build panel; without one
/// of them it is not opened.
pub proof fn the_window_serves_the_projects_board(m: Model)
    ensures
        ({
            let after = m.ota_asked();
            let answered = m.panels.build is Some && m.panels.build.unwrap().board is Some;
            let current = m.panels.ota is Some && m.panels.ota.unwrap().serves_current;
            &&& !answered ==> after.effects == m.effects && after.overlay == m.overlay
                && after.logs.lines.last().0 is Warn
            &&& answered && current ==> after.effects == m.effects.push(
                Effect::Task(Task::RefreshOta { probe: false }),
            ) && after.overlay == Some(Overlay::<Seq<char>>::Ota)
            &&& answered && !current ==> after.effects == m.effects.push(
                Effect::Task(
                    Task::OpenOta {
                        root: m.panels.build.unwrap().root,
                        board: m.panels.build.unwrap().board.unwrap(),
                    },
                ),
            ) && after.overlay == m.overlay
        }),
{
}

/// A panel that opened shows, knows its client before anything is asked of
/// it, and owes the board's own answer for the address again.
pub proof fn an_opened_panel_shows(m: Model, panel: OtaPanel)
    ensures
        ({
            let after = m.ota_answered(Some(panel));
            let probe = Effect::<Seq<char>, Seq<u8>>::Task(Task::ProbeOtaRequirements);
            &&& after.panels.ota == Some(panel)
            &&& after.overlay == Some(Overlay::<Seq<char>>::Ota)
            &&& !after.pending.address_capture_tried
            &&& m.desk.ota_tool is Some ==> after.effects == m.effects.push(
                Effect::Text(TextTask::SetOtaTool, m.desk.ota_tool.unwrap()),
            ).push(probe)
            &&& m.desk.ota_tool is None ==> after.effects == m.effects.push(probe)
            &&& m.ota_answered(None).panels == m.panels
            &&& m.ota_answered(None).logs.lines.last().0 is Error
        }),
{
}

/// A client set once serves the panel there is and every later one.
pub proof fn a_client_set_once_is_kept(m: Model, program: Seq<char>)
    ensures
        m.ota_tool_set(program).desk.ota_tool == Some(program),
        m.panels.ota is Some ==> m.ota_tool_set(program).effects == m.effects.push(
            Effect::Text(TextTask::SetOtaTool, program),
        ),
        m.panels.ota is None ==> m.ota_tool_set(program).effects == m.effects,
        m.ota_tool_set(program).ota_tool_applied().effects.last() == Effect::<
            Seq<char>,
            Seq<u8>,
        >::Text(TextTask::SetOtaTool, program),
{
}

/// The window's button does what it is labelled with; a stage that writes is
/// asked about first, on No, and is the very stage that then starts.
pub proof fn the_button_starts_its_own_stage(m: Model)
    requires
        m.panels.ota is Some,
    ensures
        ({
            let does = |action: OtaAction, task: Task|
                m.ota_action(action).effects == m.effects.push(Effect::Task(task));
            let asks = |action: OtaAction, what: OtaConfirm|
                m.ota_action(action).effects == m.effects && m.ota_action(action).overlay == Some(
                    Overlay::<Seq<char>>::ConfirmOta { what, confirm: false },
                );
            &&& does(OtaAction::Stop, Task::StopOta)
            &&& does(OtaAction::ResumeVerify, Task::ResumeOta)
            &&& does(OtaAction::Done, Task::EndOtaCycle)
            &&& m.ota_action(OtaAction::Done).overlay is None
            &&& m.ota_action(OtaAction::Blocked) == m
            &&& m.ota_action(OtaAction::Rebuild) == m.closed().build_run(
                BuildAction::Build(BuildKind::Rebuild),
            )
            &&& asks(OtaAction::Prepare, OtaConfirm::Prepare)
            &&& asks(OtaAction::Update, OtaConfirm::Update)
            &&& asks(OtaAction::RetryUpdate, OtaConfirm::Update)
            &&& asks(OtaAction::ConfirmImage, OtaConfirm::ConfirmImage)
        }),
{
}

/// Agreeing starts the stage asked about, back in the window; refusing only
/// comes back.
pub proof fn the_stage_agreed_to_is_the_one_started(m: Model, what: OtaConfirm, yes: bool)
    requires
        m.panels.ota is Some,
    ensures
        ({
            let question = Overlay::<Seq<char>>::ConfirmOta { what, confirm: yes };
            &&& m.agreed(question).effects == m.effects.push(Effect::Task(Task::StartOta(what)))
            &&& m.agreed(question).overlay == Some(Overlay::<Seq<char>>::Ota)
            &&& m.declined(question).effects == m.effects
            &&& m.declined(question).overlay == Some(Overlay::<Seq<char>>::Ota)
        }),
{
    reveal(Model::agreed);
    reveal(Model::agreed_on_host);
    reveal(Model::declined);
}

/// The window's keys, while no stage runs: each asks for its own thing, and
/// the log scrolls the way the arrow points.
pub proof fn the_window_takes_its_keys(m: Model, panel: OtaPanel)
    requires
        m.panels.ota == Some(panel),
        m.drawn.ota_viewport > 0,
    ensures
        ({
            let page = m.drawn.ota_viewport;
            let pressed = |code: KeyCode| m.ota_key(KeyEvent::spec_plain(code));
            let asks = |code: KeyCode, task: Task|
                m.ota_key(KeyEvent::spec_plain(code)).effects == m.effects.push(
                    Effect::Task(task),
                );
            let scroll = |down: bool, rows: usize| Task::ScrollOta { down, rows, viewport: page };
            &&& asks(KeyCode::Up, scroll(false, 1))
            &&& asks(KeyCode::Down, scroll(true, 1))
            &&& asks(KeyCode::PageUp, scroll(false, page))
            &&& asks(KeyCode::PageDown, scroll(true, page))
            &&& pressed(KeyCode::Enter) == m.ota_action(panel.action)
            &&& !panel.busy ==> {
                &&& asks(KeyCode::Char('s'), Task::ToggleNetShell)
                &&& asks(KeyCode::Char('l'), Task::ToggleAddressLog)
                &&& asks(KeyCode::Char('r'), Task::RefreshOta { probe: true })
                &&& asks(KeyCode::Char('p'), Task::ProbeBoard)
                &&& asks(KeyCode::Char('c'), Task::SetAutoConfirm(!panel.auto_confirm))
                &&& pressed(KeyCode::Char('t')).overlay is Some
                &&& pressed(KeyCode::Char('t')).overlay.unwrap() is OtaTransport
                &&& panel.transport < 2 ==> pressed(KeyCode::Char('t')).overlay == Some(
                    Overlay::<Seq<char>>::OtaTransport { selected: panel.transport },
                )
                &&& pressed(KeyCode::Esc) == m.closed()
            }
            &&& panel.busy ==> {
                &&& pressed(KeyCode::Char('s')) == m
                &&& pressed(KeyCode::Char('p')) == m
                &&& pressed(KeyCode::Char('c')) == m
                &&& pressed(KeyCode::Char('a')) == m
                &&& pressed(KeyCode::Esc) == m
            }
        }),
{
    reveal(Model::ota_key);
}

/// The transport picked is the row under the cursor; leaving picks none.
pub proof fn the_transport_under_the_cursor_is_set(m: Model, selected: usize)
    requires
        m.panels.ota is Some,
        selected <= 1,
    ensures
        ({
            let pressed = |code: KeyCode| m.transport_key(KeyEvent::spec_plain(code), selected);
            let other: usize = if selected == 0 {
                1
            } else {
                0
            };
            &&& pressed(KeyCode::Enter).effects == m.effects.push(
                Effect::Task(Task::SetTransport(selected)),
            )
            &&& pressed(KeyCode::Enter).overlay == Some(Overlay::<Seq<char>>::Ota)
            &&& pressed(KeyCode::Esc).effects == m.effects
            &&& pressed(KeyCode::Esc).overlay == Some(Overlay::<Seq<char>>::Ota)
            &&& pressed(KeyCode::Down).overlay == Some(
                Overlay::<Seq<char>>::OtaTransport { selected: other },
            )
            &&& pressed(KeyCode::Up).overlay == Some(
                Overlay::<Seq<char>>::OtaTransport { selected: other },
            )
        }),
{
    reveal(Model::transport_key);
}

/// The address entry takes characters as typed, and `Esc` keeps nothing.
pub proof fn the_address_is_what_was_typed(m: Model, input: Seq<char>, c: char)
    ensures
        ({
            let pressed = |code: KeyCode| m.address_key(KeyEvent::spec_plain(code), input);
            &&& pressed(KeyCode::Char(c)).overlay == Some(
                Overlay::OtaAddress { input: input.push(c) },
            )
            &&& pressed(KeyCode::Char(c)).effects == m.effects
            &&& pressed(KeyCode::Esc).overlay == Some(Overlay::<Seq<char>>::Ota)
            &&& pressed(KeyCode::Esc).effects == m.effects
            &&& input.len() > 0 ==> pressed(KeyCode::Backspace).overlay == Some(
                Overlay::OtaAddress { input: input.drop_last() },
            )
            &&& text::trimmed(input).len() == 0 ==> pressed(KeyCode::Enter).effects == m.effects
            &&& text::trimmed(input).len() > 0 ==> pressed(KeyCode::Enter) == m.address_kept(
                text::trimmed(input),
                false,
            ).shown(Overlay::Ota)
            &&& pressed(KeyCode::Enter).overlay == Some(Overlay::<Seq<char>>::Ota)
        }),
{
    reveal(Model::address_key);
}

/// The entry opens on the address in force, empty where there is none; it
/// opens at once where the board was asked already.
pub proof fn the_entry_opens_on_the_address_in_force(m: Model)
    ensures
        ({
            let known = if m.panels.ota is Some && m.panels.ota.unwrap().address is Some {
                m.panels.ota.unwrap().address.unwrap()@
            } else {
                Seq::<char>::empty()
            };
            &&& m.address_asked().overlay == Some(Overlay::OtaAddress { input: known })
            &&& m.address_asked().effects == m.effects
            &&& m.pending.address_capture_tried ==> m.address_wanted().overlay == Some(
                Overlay::OtaAddress { input: known },
            )
        }),
{
}

/// Progress is information, a failure is an error, and both need a panel.
pub proof fn a_stages_report_has_its_level(m: Model, update: OtaUpdate)
    requires
        update.notice is Some,
    ensures
        ({
            let after = m.ota_updated(update);
            &&& m.panels.ota is None ==> after == m
            &&& m.panels.ota is Some ==> after.logs.lines.len() == m.logs.lines.len() + 1
                && after.logs.lines.last().1 == update.notice.unwrap()@
            &&& m.panels.ota is Some && (update.finished || update.halted_unconfirmed)
                ==> after.logs.lines.last().0 is Info
            &&& m.panels.ota is Some && !update.finished && !update.halted_unconfirmed
                ==> after.logs.lines.last().0 is Error
            &&& after.effects == m.effects
        }),
{
}

/// A capture that started watches the session it started, with nothing sent
/// or found yet; one that did not is said once, and leaves the question to
/// the user where it was to spare it.
pub proof fn a_capture_watches_its_own_session(m: Model, process: u64, why: Seq<char>)
    ensures
        ({
            let started = m.capture_answered(Ok(process), true);
            let failed = m.capture_answered(Err(Some(why)), true);
            let silent = m.capture_answered(Err(Some(why)), false);
            &&& started.capture is Some
            &&& started.capture.unwrap().process == process
            &&& !started.capture.unwrap().reset_sent
            &&& !started.capture.unwrap().found
            &&& started.overlay == m.overlay
            &&& failed.overlay is Some
            &&& failed.overlay.unwrap() is OtaAddress
            &&& failed.capture == m.capture
            &&& silent.overlay == m.overlay
            &&& silent.logs.lines.last().0 is Warn
        }),
{
}

/// One capture runs at a time, and it needs a backend to run under.
pub proof fn one_capture_runs_at_a_time(m: Model, then_ask: bool)
    ensures
        m.capture is Some ==> m.capture_asked(then_ask) == m,
        m.project.manager.spec_kind() is None ==> m.capture_asked(then_ask) == m,
        m.capture is None && m.project.manager.spec_kind() is Some ==> m.capture_asked(
            then_ask,
        ).effects == m.effects.push(Effect::Task(Task::SpawnAddressCapture { then_ask })),
{
}

/// What the console shows is kept as shown. The address found is recorded as
/// captured, and ends the session it was read from; without one nothing is
/// recorded.
pub proof fn a_read_address_is_recorded(
    m: Model,
    lines: Seq<Seq<char>>,
    address: Seq<char>,
)
    requires
        m.capture is Some,
        m.panels.ota is Some,
    ensures
        ({
            let id = m.capture.unwrap().process;
            let found = m.capture_read(lines, Some(address));
            let missed = m.capture_read(lines, None);
            let n = found.effects.len() as int;
            &&& found.capture.unwrap().found
            &&& found.capture.unwrap().lines == lines
            &&& found.capture.unwrap().process == id
            &&& n >= m.effects.len() + 2
            &&& found.effects[n - 2] == Effect::<Seq<char>, Seq<u8>>::Task(Task::Cancel(id))
            &&& found.effects[n - 1] == Effect::<Seq<char>, Seq<u8>>::Text(
                TextTask::SetOtaAddress { captured: true },
                address,
            )
            &&& !missed.capture.unwrap().found
            &&& missed.capture.unwrap().lines == lines
            &&& m.capture.unwrap().reset_sent ==> missed.effects == m.effects
        }),
{
}

/// A typed address is recorded as typed; a window that is gone records none.
pub proof fn a_typed_address_is_recorded(m: Model, address: Seq<char>, captured: bool)
    ensures
        m.panels.ota is Some ==> m.address_kept(address, captured).effects == m.effects.push(
            Effect::Text(TextTask::SetOtaAddress { captured }, address),
        ),
        m.panels.ota is None ==> m.address_kept(address, captured) == m,
{
}

/// An ended capture is gone, and one that found nothing says so.
pub proof fn an_ended_capture_reports_a_miss(m: Model)
    requires
        m.capture is Some,
    ensures
        m.capture_finished().capture is None,
        m.capture.unwrap().found ==> m.capture_finished().logs == m.logs,
        !m.capture.unwrap().found ==> m.capture_finished().logs.lines.len()
            == m.logs.lines.len() + 1 && m.capture_finished().logs.lines.last().0 is Warn,
{
}

/// The address is asked of the board first, and of the user only once the
/// board was asked.
pub proof fn the_board_is_asked_before_the_user(m: Model)
    requires
        !m.pending.address_capture_tried,
        m.capture is None,
        m.project.manager.spec_kind() is Some,
    ensures
        m.address_wanted().effects == m.effects.push(
            Effect::Task(Task::SpawnAddressCapture { then_ask: true }),
        ),
        m.address_wanted().overlay == m.overlay,
        m.address_wanted().pending.address_capture_tried,
{
}

/// Preparing a project reports its trouble as an error and its end as done.
pub proof fn preparing_is_reported(m: Model, why: Seq<char>)
    requires
        m.panels.ota is Some,
    ensures
        m.ota_prepared(Some(why), false).logs.lines.last() == (Level::Error, why),
        m.ota_prepared(None, true).logs.lines.last().0 is Info,
        m.ota_prepared(None, false) == m,
        m.ota_prepared(Some(why), true).logs.lines.len() == m.logs.lines.len() + 2,
{
}

/// A recorded address is said where the board gave it, a failure always.
pub proof fn a_recorded_address_is_reported(m: Model, address: Seq<char>, why: Seq<char>)
    ensures
        m.address_answered(address, true, None).logs.lines.last().0 is Info,
        m.address_answered(address, false, None) == m,
        m.address_answered(address, true, Some(why)).logs.lines.last().0 is Error,
        m.address_answered(address, false, Some(why)).logs.lines.last().0 is Error,
{
}

/// An open update is driven on with every tick, and only an open one.
pub proof fn an_open_update_is_driven_on(m: Model)
    ensures
        m.panels.ota is Some ==> m.ota_driven().effects == m.effects.push(
            Effect::Task(Task::DriveOta),
        ),
        m.panels.ota is None ==> m.ota_driven() == m,
{
}

/// The board is told to restart once its console is there, by the monitor's
/// own keys and on the session that watches it.
pub proof fn the_watched_board_is_restarted(m: Model, lines: Seq<Seq<char>>)
    requires
        m.capture is Some,
        !m.capture.unwrap().reset_sent,
    ensures
        ({
            let after = m.capture_read(lines, None);
            let ready = text::mentions(text::unlined(lines), "idf_monitor on"@);
            &&& ready ==> after.capture.unwrap().reset_sent && after.effects == m.effects.push(
                Effect::Stdin { id: m.capture.unwrap().process, bytes: seq![0x14u8, 0x12u8] },
            )
            &&& !ready ==> !after.capture.unwrap().reset_sent && after.effects == m.effects
        }),
{
}

} // verus!
