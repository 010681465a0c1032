//! What the live sessions promise: whose output is whose, which session a
//! key reaches, and what an ended one leaves.

use vstd::prelude::*;
use vstd::string::*;

use crate::app::{LogTab, Model, RunState};
use crate::app::events::{ProcessEvent, Session};
use crate::app::monitor_view::MonitorScroll;
use crate::effect::{Effect, Task, TextTask};
use crate::input;
use crate::input::{KeyCode, KeyEvent, KeyModifiers};
use crate::panels::ScriptState;

verus! {

impl Model {
    /// No two sessions share a process.
    pub open spec fn sessions_apart(self) -> bool {
        let address = match self.capture {
            Some(capture) => Some(capture.process),
            None => None,
        };
        let apart = |a: Option<u64>, b: Option<u64>| a is None || a != b;
        &&& apart(self.chain.probe, self.chain.version_capture)
        &&& apart(self.chain.probe, address)
        &&& apart(self.chain.probe, self.monitor.device)
        &&& apart(self.chain.probe, self.monitor.run)
        &&& apart(self.chain.probe, self.terminal.process)
        &&& apart(self.chain.version_capture, address)
        &&& apart(self.chain.version_capture, self.monitor.device)
        &&& apart(self.chain.version_capture, self.monitor.run)
        &&& apart(self.chain.version_capture, self.terminal.process)
        &&& apart(address, self.monitor.device)
        &&& apart(address, self.monitor.run)
        &&& apart(address, self.terminal.process)
        &&& apart(self.monitor.device, self.monitor.run)
        &&& apart(self.monitor.device, self.terminal.process)
        &&& apart(self.monitor.run, self.terminal.process)
    }
}

/// Output is heard by the session whose process wrote it, and by the panels
/// where no session did.
pub proof fn output_belongs_to_its_process(m: Model, id: u64, text: String)
    requires
        m.sessions_apart(),
    ensures
        ({
            let owner = m.session_of(ProcessEvent::Output { id, text });
            &&& owner == Some(Session::Probe) <==> m.chain.probe == Some(id)
            &&& owner == Some(Session::Version) <==> m.chain.version_capture == Some(id)
            &&& owner == Some(Session::Address) <==> m.capture is Some
                && m.capture.unwrap().process == id
            &&& owner == Some(Session::Monitor) <==> m.monitor.device == Some(id)
            &&& owner == Some(Session::Run) <==> m.monitor.run == Some(id)
            &&& owner != Some(Session::Shell)
        }),
{
}

/// So is a process's end, the shell's among them.
pub proof fn an_end_belongs_to_its_process(m: Model, id: u64, summary: String)
    requires
        m.sessions_apart(),
    ensures
        ({
            let owner = m.session_of(ProcessEvent::Finished { id, summary });
            &&& owner == Some(Session::Probe) <==> m.chain.probe == Some(id)
            &&& owner == Some(Session::Version) <==> m.chain.version_capture == Some(id)
            &&& owner == Some(Session::Address) <==> m.capture is Some
                && m.capture.unwrap().process == id
            &&& owner == Some(Session::Monitor) <==> m.monitor.device == Some(id)
            &&& owner == Some(Session::Shell) <==> m.terminal.process == Some(id)
            &&& owner == Some(Session::Run) <==> m.monitor.run == Some(id)
        }),
{
}

/// Lines are the monitor's, raw bytes the shell's.
pub proof fn lines_and_bytes_have_one_reader(m: Model, id: u64, text: String, data: Vec<u8>)
    ensures
        m.session_of(ProcessEvent::Line { id, text }) == (if m.monitor.device == Some(id) {
            Some(Session::Monitor)
        } else {
            None
        }),
        m.session_of(ProcessEvent::Bytes { id, data }) == (if m.terminal.process == Some(id) {
            Some(Session::Shell)
        } else {
            None
        }),
{
}

/// What a session says is handed on as it was said, to its own reader.
pub proof fn a_session_is_heard_by_its_reader(m: Model, id: u64, text: String, data: Vec<u8>)
    ensures
        ({
            let said = ProcessEvent::Output { id, text };
            let hears = |session: Session, task: TextTask|
                m.session_heard(session, said).effects == m.effects.push(
                    Effect::Text(task, text@),
                );
            &&& hears(Session::Probe, TextTask::ProbeOutput)
            &&& hears(Session::Version, TextTask::VersionCaptureOutput)
            &&& hears(Session::Address, TextTask::AddressCaptureOutput)
            &&& hears(Session::Monitor, TextTask::MonitorOutput)
            &&& hears(Session::Run, TextTask::RunOutput)
            &&& m.session_heard(Session::Monitor, ProcessEvent::Line { id, text }).effects
                == m.effects.push(Effect::Text(TextTask::MonitorLine, text@))
            &&& m.session_heard(Session::Shell, ProcessEvent::Bytes { id, data }).effects
                == m.effects.push(Effect::ShellBytes(data@))
        }),
{
    reveal(Model::session_heard);
}

/// An ended session is forgotten, and no other; a probe and a version hunt
/// are concluded, and a run leaves the script stopped.
pub proof fn an_ended_session_leaves_the_others(m: Model, summary: Seq<char>)
    ensures
        ({
            let probe = m.session_ended(Session::Probe, summary);
            let version = m.session_ended(Session::Version, summary);
            let monitor = m.session_ended(Session::Monitor, summary);
            let shell = m.session_ended(Session::Shell, summary);
            let run = m.session_ended(Session::Run, summary);
            &&& probe.chain.probe is None && probe.monitor == m.monitor && probe.terminal
                == m.terminal && probe.chain.version_capture == m.chain.version_capture
            &&& probe.effects == m.effects.push(Effect::Task(Task::FinishProbe))
            &&& version.chain.version_capture is None && version.chain.probe == m.chain.probe
                && version.monitor == m.monitor
            &&& version.effects == m.effects.push(Effect::Task(Task::FinishVersionCapture))
            &&& monitor.monitor.device is None && monitor.monitor.run == m.monitor.run
                && monitor.terminal == m.terminal && monitor.chain == m.chain
            &&& shell.terminal.process is None && !shell.terminal.detached && shell.monitor
                == m.monitor && shell.chain == m.chain
            &&& run.monitor.run is None && run.monitor.run_state == RunState::Finished
                && run.monitor.device == m.monitor.device && run.terminal == m.terminal
            &&& run.panels.devices.script == ScriptState::Stopped
            &&& monitor.effects == m.effects.push(
                Effect::Text(TextTask::MonitorLine, "[monitor "@ + summary + "]"@),
            )
            &&& shell.effects == m.effects.push(
                Effect::Text(TextTask::ShellText, "\r\n[shell "@ + summary + "]\r\n"@),
            )
            &&& run.effects.len() > m.effects.len()
            &&& run.effects[m.effects.len() as int] == Effect::<Seq<char>, Seq<u8>>::Text(
                TextTask::RunLine,
                "[run "@ + summary + "]"@,
            )
        }),
{
}

/// While the monitor owns the keyboard every key but the stop chord reaches
/// the monitored session as bytes, and the chord stops that session.
pub proof fn the_monitors_keys_reach_its_session(
    m: Model,
    key: KeyEvent,
    bytes: Option<Seq<u8>>,
    claimed: bool,
    id: u64,
)
    requires
        m.screen.focus is Logs,
        m.screen.log_tab is Monitor,
        m.monitor.source is Device,
        m.monitor.device == Some(id),
        !(key.modifiers.control && (key.code == KeyCode::Char('f') || key.code == KeyCode::Char(
            'F',
        ))),
    ensures
        ({
            let after = m.key_pressed(key, bytes, claimed);
            let chord = key.modifiers.control && (key.code == KeyCode::Char(']') || key.code
                == KeyCode::Char('5'));
            &&& chord ==> after.effects == m.effects.push(Effect::Task(Task::Cancel(id)))
            &&& !chord && input::key_bytes(key) is Some ==> after.effects == m.effects.push(
                Effect::Stdin { id, bytes: input::key_bytes(key).unwrap() },
            )
            &&& !chord && input::key_bytes(key) is None ==> after == m
            &&& !after.pending.should_quit || m.pending.should_quit
        }),
{
}

/// While the shell owns the keyboard its bytes go to the shell's process and
/// the view follows; the stop chord only detaches, and the page keys under
/// shift scroll.
pub proof fn the_shells_keys_reach_its_process(
    m: Model,
    key: KeyEvent,
    bytes: Seq<u8>,
    claimed: bool,
    id: u64,
)
    requires
        m.screen.focus is Logs,
        m.screen.log_tab is Terminal,
        m.terminal.process == Some(id),
        !m.terminal.detached,
        !(key.modifiers.control && (key.code == KeyCode::Char('f') || key.code == KeyCode::Char(
            'F',
        ))),
    ensures
        ({
            let after = m.key_pressed(key, Some(bytes), claimed);
            let chord = key.modifiers.control && (key.code == KeyCode::Char(']') || key.code
                == KeyCode::Char('5'));
            let scroll = !chord && key.modifiers.shift && (key.code == KeyCode::PageUp || key.code
                == KeyCode::PageDown);
            &&& chord ==> after.terminal.detached && after.terminal.process == Some(id)
                && after.effects == m.effects
            &&& scroll ==> after.effects == m.effects && after.terminal == m.terminal
            &&& scroll && key.code == KeyCode::PageUp ==> !after.monitor.scroll.following
            &&& scroll && key.code == KeyCode::PageDown && m.monitor.scroll.following
                ==> after.monitor.scroll == m.monitor.scroll
            &&& !chord && !scroll ==> after.effects == m.effects.push(Effect::Stdin { id, bytes })
                && after.monitor.scroll.following && after.terminal == m.terminal
        }),
{
}

/// `ctrl+c` over a live run interrupts that run and does not quit; anywhere
/// else outside a session it quits.
pub proof fn ctrl_c_interrupts_the_run_it_shows(
    m: Model,
    bytes: Option<Seq<u8>>,
    claimed: bool,
    modifiers: KeyModifiers,
)
    requires
        modifiers.control,
    ensures
        ({
            let after = m.key_pressed(
                KeyEvent { code: KeyCode::Char('c'), modifiers },
                bytes,
                claimed,
            );
            let monitor = m.screen.focus is Logs && m.screen.log_tab is Monitor;
            let running = monitor && m.monitor.source is Run && m.monitor.run is Some;
            let monitored = monitor && m.monitor.source is Device && m.monitor.device is Some;
            let shell = m.screen.focus is Logs && m.screen.log_tab is Terminal
                && m.terminal.process is Some && !m.terminal.detached;
            &&& running ==> after.effects == m.effects.push(
                Effect::Stdin { id: m.monitor.run.unwrap(), bytes: seq![3u8] },
            ) && after.pending == m.pending
            &&& !running && !monitored && !shell ==> after.pending.should_quit
        }),
{
}

/// Pasted text reaches a shell that owns the keyboard, and nothing else.
pub proof fn pasted_text_reaches_the_shell(m: Model, text: Seq<char>)
    ensures
        ({
            let live = m.screen.focus is Logs && m.screen.log_tab is Terminal
                && m.terminal.process is Some && !m.terminal.detached;
            &&& live ==> m.pasted(text).effects == m.effects.push(
                Effect::Text(TextTask::PasteIntoShell, text),
            )
            &&& !live ==> m.pasted(text) == m
        }),
{
}

/// Scrolling up moves towards the first row and down towards the last, from
/// wherever the view stands; the tail counts as the last row.
pub proof fn scrolling_moves_by_rows(scroll: MonitorScroll, rows: usize, max: usize)
    requires
        scroll.offset <= max,
    ensures
        ({
            let at = if scroll.following {
                max as int
            } else {
                scroll.offset as int
            };
            let up = scroll.up(rows, max);
            let down = scroll.down(rows, max);
            &&& !up.following
            &&& up.offset == (if at >= rows {
                at - rows
            } else {
                0
            })
            &&& scroll.following ==> down == scroll
            &&& !scroll.following ==> down.offset == (if at + rows <= max {
                at + rows
            } else {
                max as int
            })
            &&& !scroll.following ==> (down.following <==> at + rows >= max)
        }),
{
}

/// In row 3 the arrows move the log or the console the tab shows, the page
/// keys by the rows shown, `Home` to the oldest and `End` to the newest.
pub proof fn row_three_follows_the_arrows(m: Model)
    requires
        m.screen.focus is Logs,
        m.logs.scroll <= m.logs.lines.len(),
    ensures
        ({
            let pressed = |code: KeyCode| m.log_key(KeyEvent::spec_plain(code));
            let far = if m.logs.lines.len() > m.drawn.log_viewport {
                m.logs.lines.len() - m.drawn.log_viewport
            } else {
                0
            };
            let log = m.screen.log_tab is Log;
            &&& log ==> {
                &&& pressed(KeyCode::Up).logs.scroll == (if m.logs.scroll + 1 <= far {
                    m.logs.scroll as int + 1
                } else {
                    far
                })
                &&& pressed(KeyCode::Down).logs.scroll == (if m.logs.scroll > 0 {
                    m.logs.scroll - 1
                } else {
                    0
                })
                &&& pressed(KeyCode::End).logs.scroll == 0
                &&& m.drawn.log_viewport > 0 ==> pressed(KeyCode::PageDown).logs.scroll == (
                if m.logs.scroll > m.drawn.log_viewport {
                    m.logs.scroll - m.drawn.log_viewport
                } else {
                    0
                })
                &&& pressed(KeyCode::Up).monitor == m.monitor
                &&& pressed(KeyCode::Up).logs.lines == m.logs.lines
            }
            &&& !log ==> {
                &&& !pressed(KeyCode::Up).monitor.scroll.following
                &&& pressed(KeyCode::Home).monitor.scroll == (MonitorScroll {
                    following: false,
                    offset: 0,
                })
                &&& pressed(KeyCode::End).monitor.scroll.following
                &&& pressed(KeyCode::Up).logs == m.logs
                &&& pressed(KeyCode::Up).monitor.scroll == m.monitor_up(1).monitor.scroll
                &&& pressed(KeyCode::Down).monitor.scroll == m.monitor_down(1).monitor.scroll
            }
        }),
{
    reveal(Model::log_key);
}

/// `r` starts a shell in a terminal tab without one, and detects the project
/// again everywhere else; `s` keeps a run's output.
pub proof fn r_restarts_what_is_on_screen(m: Model)
    ensures
        ({
            let after = m.log_key(KeyEvent::spec_plain(KeyCode::Char('r')));
            let bare = m.screen.focus is Logs && m.screen.log_tab is Terminal
                && m.terminal.process is None;
            &&& bare ==> after.effects == m.effects.push(Effect::Task(Task::SpawnShell))
            &&& !bare ==> after.effects == m.effects.push(Effect::Task(Task::Detect)).push(
                Effect::Task(Task::OpenProjectSetup),
            )
            &&& m.screen.focus is Logs && m.screen.log_tab is Monitor && m.monitor.source is Run
                ==> m.log_key(KeyEvent::spec_plain(KeyCode::Char('s'))) == m.run_output_kept()
        }),
{
    reveal(Model::log_key);
}

/// A page of row 3 is what row 3 shows, and never nothing.
pub proof fn a_page_is_what_is_shown(m: Model)
    requires
        m.screen.focus is Logs,
    ensures
        m.page_size() > 0,
        m.screen.log_tab == LogTab::Log && m.drawn.log_viewport > 0 ==> m.page_size()
            == m.drawn.log_viewport,
        m.screen.log_tab != LogTab::Log && m.monitor.view.viewport > 0 ==> m.page_size()
            == m.monitor.view.viewport,
{
}

} // verus!
