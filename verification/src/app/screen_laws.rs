//! What the screen promises: which panes a backend has, how the focus and
//! the strips move, and what the report window's keys do.

use vstd::prelude::*;
use vstd::string::*;

use crate::app::{DevicePaneTab, DocsFocus, Focus, LogTab, Model};
use crate::app::launch::Launch;
use crate::app::monitor_view::MonitorView;
use crate::backend::{BackendKind, Capability};
use crate::effect::{Effect, Task};
use crate::input::{KeyCode, KeyEvent, KeyModifiers};
use crate::overlay::Overlay;
use crate::panels::BuildAction;
use crate::text;
use crate::theme;
use crate::theme::{IconSet, ThemeChoice};

verus! {

/// MicroPython works on a device's files and live session, Zephyr on a build
/// in a workspace; both monitor, select projects and report on the device,
/// and no capability is anyone else's.
pub proof fn each_backend_has_its_capabilities(cap: Capability)
    ensures
        ({
            let mpy = BackendKind::MicroPython.spec_capabilities().has(cap);
            let zephyr = BackendKind::Zephyr.spec_capabilities().has(cap);
            let shared = cap is Monitor || cap is ProjectSelect || cap is DeviceInfo;
            let on_device = cap is Filesystem || cap is Repl || cap is Run || cap is Reset
                || cap is Upload || cap is Download || cap is EraseFlash || cap is PackageInstall;
            &&& shared ==> mpy && zephyr
            &&& on_device ==> mpy && !zephyr
            &&& !shared && !on_device ==> !mpy && zephyr
        }),
{
}

/// The panes row 2 shows follow from the backend: a file browser or a build
/// panel, never both.
pub proof fn files_and_builds_exclude_each_other(m: Model)
    ensures
        m.build_shown() ==> !m.browser_shown(),
        m.project.manager.spec_kind() == Some(BackendKind::MicroPython) ==> !m.build_shown()
            && !m.workspace_shown() && (m.browser_shown() <==> m.panels.browser is Some),
        m.project.manager.spec_kind() == Some(BackendKind::Zephyr) ==> !m.browser_shown() && (
        m.build_shown() <==> m.panels.build is Some) && (m.workspace_shown()
            <==> m.panels.workspace is Some),
{
}

/// The tour visits what row 2 shows, left before right, and ends at the logs.
pub proof fn the_tour_visits_what_is_shown(m: Model)
    ensures
        m.project.manager.spec_kind() == Some(BackendKind::MicroPython) && m.panels.browser is Some
            ==> m.tour() == seq![Focus::FilesLocal, Focus::FilesDevice, Focus::Logs],
        m.project.manager.spec_kind() == Some(BackendKind::Zephyr) && m.panels.build is Some
            && m.panels.workspace is Some ==> m.tour() == seq![
            Focus::Workspace,
            Focus::Build,
            Focus::Logs,
        ],
        m.project.manager.spec_kind() is None && m.panels.browser is None ==> m.tour()
            == seq![Focus::Logs],
{
}

/// The titles' numbers: the project and the device above, the two halves of
/// row 2 below them, the logs last.
pub proof fn pane_numbers_follow_the_rows(m: Model, focus: Focus)
    ensures
        m.number_of(Focus::Logs) == Some(5u8),
        m.number_of(Focus::DeviceInfo) == Some(2u8),
        m.number_of(focus) is Some ==> m.number_of(focus).unwrap() == (match focus {
            Focus::Project => 1u8,
            Focus::DeviceInfo => 2u8,
            Focus::FilesLocal | Focus::Workspace => 3u8,
            Focus::FilesDevice | Focus::Build => 4u8,
            Focus::Logs => 5u8,
        }),
        m.pane_numbered(0) is None,
        m.pane_numbered(6) is None,
{
}

/// The full-screen chord turns row 3 up over the rest and back, and turning
/// it up takes the focus there.
pub proof fn fullscreen_takes_the_focus(m: Model)
    ensures
        m.fullscreen_toggled().screen.row3_fullscreen == !m.screen.row3_fullscreen,
        !m.screen.row3_fullscreen ==> m.fullscreen_toggled().screen.focus is Logs,
        m.screen.row3_fullscreen ==> m.fullscreen_toggled().screen.focus == m.screen.focus,
{
}

/// Row 3's strip reads Log, Monitor, Terminal, without the monitor where the
/// backend has none; a step moves along it and stops at its ends.
pub proof fn the_strip_is_walked_in_order(m: Model)
    requires
        m.caps().monitor,
    ensures
        ({
            let at = |tab: LogTab, forward: bool|
                m.log_tab_selected(tab).log_tab_switched(forward).screen.log_tab;
            &&& m.log_tabs() == seq![LogTab::Log, LogTab::Monitor, LogTab::Terminal]
            &&& at(LogTab::Log, true) == LogTab::Monitor
            &&& at(LogTab::Monitor, true) == LogTab::Terminal
            &&& at(LogTab::Terminal, true) == LogTab::Terminal
            &&& at(LogTab::Terminal, false) == LogTab::Monitor
            &&& at(LogTab::Monitor, false) == LogTab::Log
            &&& at(LogTab::Log, false) == LogTab::Log
        }),
{
}

/// The tab selected is the one that shows; the terminal's starts a shell only
/// where none runs, and attaches to the one that does.
pub proof fn the_selected_tab_shows(m: Model, tab: LogTab)
    ensures
        ({
            let after = m.log_tab_selected(tab);
            &&& after.screen.log_tab == tab
            &&& after.screen.focus == m.screen.focus
            &&& !(tab is Terminal) ==> after.effects == m.effects && after.terminal == m.terminal
            &&& tab is Terminal ==> !after.terminal.detached && after.terminal.process
                == m.terminal.process
            &&& tab is Terminal && m.terminal.process is None ==> after.effects == m.effects.push(
                Effect::Task(Task::SpawnShell),
            )
            &&& tab is Terminal && m.terminal.process is Some ==> after.effects == m.effects
        }),
{
}

/// To the right the focus moves to the right half and to the left to the
/// left one, where that pane is there.
pub proof fn sideways_moves_to_the_pane_beside(m: Model)
    requires
        !m.screen.row3_fullscreen,
    ensures
        m.screen.focus is Project ==> m.focus_horizontal(true).screen.focus is DeviceInfo
            && m.focus_horizontal(false) == m,
        m.screen.focus is Workspace && m.build_shown() ==> m.focus_horizontal(true).screen.focus
            is Build && m.focus_horizontal(false) == m,
        m.screen.focus is Build && m.workspace_shown() ==> m.focus_horizontal(false).screen.focus
            is Workspace && m.focus_horizontal(true) == m,
        m.screen.focus is FilesLocal && m.browser_shown() && m.caps().filesystem
            ==> m.focus_horizontal(true).screen.focus is FilesDevice,
        m.screen.focus is DeviceInfo && m.project.rows@.len() > 0 ==> m.focus_horizontal(
            false,
        ).screen.focus is Project && m.focus_horizontal(true) == m,
{
}

/// A device pane with actions is a strip of two stops: actions, then files.
pub proof fn the_device_pane_is_a_strip(m: Model)
    requires
        !m.screen.row3_fullscreen,
        m.screen.focus is FilesDevice,
        m.actions_available(),
        m.browser_shown(),
    ensures
        m.screen.device_pane_tab == DevicePaneTab::Actions ==> m.focus_horizontal(
            true,
        ).screen.device_pane_tab == DevicePaneTab::Files && m.focus_horizontal(true).screen.focus
            is FilesDevice && m.focus_horizontal(false).screen.focus is FilesLocal,
        m.screen.device_pane_tab == DevicePaneTab::Files ==> m.focus_horizontal(
            false,
        ).screen.device_pane_tab == DevicePaneTab::Actions && m.focus_horizontal(true) == m,
{
}

/// A flash panel is created once, for the project at hand.
pub proof fn a_flash_panel_is_created_once(m: Model)
    ensures
        ({
            let after = m.flash_ensured();
            let offered = m.caps().flash || m.caps().erase_flash;
            &&& offered ==> after.flash is Some
            &&& offered && m.flash is None ==> after.effects.len() == m.effects.len() + 1
                && after.effects.last() is Task && after.effects.last()->Task_0 is CreateFlashPanel
                && after.effects.last()->Task_0->CreateFlashPanel_root
                == m.project.manager.spec_dir()
            &&& m.flash is Some || !offered ==> after == m
            &&& after.flash_ensured() == after
        }),
{
}

/// A pane that went away hands the focus to the first pane there is.
pub proof fn a_lost_pane_hands_the_focus_on(m: Model)
    ensures
        m.screen.focus is FilesLocal && !m.browser_shown() && m.workspace_shown()
            ==> m.focus_clamped().screen.focus is Workspace,
        m.screen.focus is Build && !m.build_shown() && m.browser_shown()
            ==> m.focus_clamped().screen.focus is FilesLocal,
        m.screen.focus is Project && m.project.rows@.len() == 0 && !m.browser_shown()
            && !m.workspace_shown() && !m.build_shown() ==> m.focus_clamped().screen.focus is Logs,
        m.screen.focus is Logs ==> m.focus_clamped() == m,
        m.focus_clamped().effects == m.effects,
{
}

/// The window on the build report reads the report of the panel's project,
/// at the tab in view; without a build there is nothing to read.
pub proof fn the_report_window_reads_its_project(m: Model)
    ensures
        m.panels.build is Some ==> {
            let after = m.dashboard_opened();
            &&& after.overlay == Some(Overlay::<Seq<char>>::BuildDashboard)
            &&& after.effects == m.effects.push(
                Effect::Task(
                    Task::LoadReport {
                        root: m.panels.build.unwrap().root,
                        tab: m.dashboard.tab,
                    },
                ),
            )
        },
        m.panels.build is None ==> m.dashboard_opened().overlay == m.overlay
            && m.dashboard_opened().effects == m.effects
            && m.dashboard_opened().logs.lines.last().0 is Warn,
{
}

/// A finished memory report shows on its own tab, read anew.
pub proof fn a_finished_report_shows_on_its_tab(m: Model)
    requires
        m.panels.build is Some,
    ensures
        ({
            let after = m.dashboard_reopened();
            &&& after.dashboard.tab == m.dashboard.memory_tab
            &&& after.overlay == Some(Overlay::<Seq<char>>::BuildDashboard)
            &&& after.effects == m.effects.push(Effect::Task(Task::InvalidateMemoryReport)).push(
                Effect::Task(
                    Task::LoadReport {
                        root: m.panels.build.unwrap().root,
                        tab: m.dashboard.memory_tab,
                    },
                ),
            )
        }),
{
}

/// The report window's cursor follows the arrows over the list, `Home` and
/// `End` reach its ends, and the filter takes what is typed from the top.
pub proof fn the_report_list_follows_the_arrows(m: Model, c: char)
    requires
        m.dashboard.focus == DocsFocus::List,
        m.dashboard.tab < m.dashboard.panes.len(),
        m.dashboard.panes[m.dashboard.tab as int].selected
            < m.dashboard.panes[m.dashboard.tab as int].rows,
    ensures
        ({
            let tab = m.dashboard.tab as int;
            let pane = m.dashboard.panes[tab];
            let end = pane.rows - 1;
            let moved = |code: KeyCode|
                m.dashboard_window_key(KeyEvent::spec_plain(code)).dashboard.panes[tab];
            &&& moved(KeyCode::Down).selected == (if pane.selected < end {
                pane.selected + 1
            } else {
                end
            })
            &&& moved(KeyCode::Up).selected == (if pane.selected > 0 {
                pane.selected - 1
            } else {
                0
            })
            &&& moved(KeyCode::PageDown).selected == (if pane.selected + 5 < end {
                pane.selected + 5
            } else {
                end
            })
            &&& moved(KeyCode::PageUp).selected == (if pane.selected > 5 {
                pane.selected - 5
            } else {
                0
            })
            &&& moved(KeyCode::Home).selected == 0
            &&& moved(KeyCode::End).selected == end
            &&& moved(KeyCode::Down).input == pane.input
            &&& moved(KeyCode::Char(c)).input == pane.input.push(c)
            &&& moved(KeyCode::Char(c)).selected == 0
            &&& pane.input.len() > 0 ==> moved(KeyCode::Backspace).input == pane.input.drop_last()
        }),
{
    reveal(Model::dashboard_window_key);
}

/// In the details the arrows scroll, and move no cursor.
pub proof fn the_report_details_scroll(m: Model)
    requires
        m.dashboard.focus == DocsFocus::Details,
        m.dashboard.tab < m.dashboard.panes.len(),
        m.dashboard.panes[m.dashboard.tab as int].scroll < u16::MAX,
    ensures
        ({
            let tab = m.dashboard.tab as int;
            let pane = m.dashboard.panes[tab];
            let moved = |code: KeyCode|
                m.dashboard_window_key(KeyEvent::spec_plain(code)).dashboard.panes[tab];
            &&& moved(KeyCode::Down).scroll == pane.scroll + 1
            &&& moved(KeyCode::Up).scroll == (if pane.scroll > 0 {
                pane.scroll - 1
            } else {
                0
            })
            &&& moved(KeyCode::Down).selected == pane.selected
            &&& moved(KeyCode::Up).selected == pane.selected
        }),
{
    reveal(Model::dashboard_window_key);
}

/// The rows open to the right and close to the left, `Enter` toggles them or
/// generates the report the row offers, `Tab` changes halves and `Esc`
/// leaves.
pub proof fn the_report_rows_open_and_close(m: Model)
    ensures
        ({
            let pressed = |code: KeyCode| m.dashboard_window_key(KeyEvent::spec_plain(code));
            let asks = |code: KeyCode, task: Task|
                m.dashboard_window_key(KeyEvent::spec_plain(code)).effects == m.effects.push(
                    Effect::Task(task),
                );
            &&& asks(KeyCode::Right, Task::ExpandRow)
            &&& asks(KeyCode::Left, Task::CollapseRow)
            &&& !m.dashboard.prompt_selected ==> asks(KeyCode::Enter, Task::ToggleRow)
            &&& m.dashboard.prompt_selected ==> pressed(KeyCode::Enter)
                == m.closed().build_run(BuildAction::SizeReport)
            &&& pressed(KeyCode::Tab).dashboard.focus != m.dashboard.focus
            &&& pressed(KeyCode::Esc).overlay is None
            &&& pressed(KeyCode::Esc).dashboard == m.dashboard
        }),
{
    reveal(Model::dashboard_window_key);
}

/// The control chords step the strip, and load the report of the tab they
/// land on; at an end nothing is loaded.
pub proof fn the_report_strip_loads_its_tab(m: Model, right: bool, modifiers: KeyModifiers)
    requires
        modifiers.control,
        m.panels.build is Some,
        m.dashboard.tab < m.dashboard.labels@.len() <= usize::MAX,
    ensures
        ({
            let tab = m.dashboard.tab as int;
            let last = m.dashboard.labels@.len() - 1;
            let after = m.dashboard_window_key(
                KeyEvent {
                    code: if right {
                        KeyCode::Right
                    } else {
                        KeyCode::Left
                    },
                    modifiers,
                },
            );
            let landed = if right && tab < last {
                tab + 1
            } else if !right && tab > 0 {
                tab - 1
            } else {
                tab
            };
            &&& after.dashboard.tab == landed
            &&& landed != tab ==> after.effects == m.effects.push(
                Effect::Task(
                    Task::LoadReport {
                        root: m.panels.build.unwrap().root,
                        tab: landed as usize,
                    },
                ),
            )
            &&& landed == tab ==> after == m
        }),
{
    reveal(Model::dashboard_window_key);
}

/// A session opens on the dashboard with the keys on the local files: no
/// dialog, nothing running, nothing asked for and nothing said.
pub proof fn a_session_opens_quietly(m: Model, launch: Launch)
    requires
        m.opens(launch),
    ensures
        m.screen.view is Dashboard,
        m.screen.focus is FilesLocal,
        m.screen.log_tab is Log,
        !m.screen.row3_fullscreen,
        m.overlay is None,
        m.effects.len() == 0,
        m.logs.lines.len() == 0,
        m.chain.probe is None && m.chain.version_capture is None && m.monitor.device is None
            && m.monitor.run is None && m.terminal.process is None && m.capture is None,
        m.chain.identify is Idle && m.chain.firmware_check is Idle && !m.chain.flash_query_pending,
        !m.pending.should_quit && !m.pending.switch_requested,
        m.project.manager.spec_kind() is None,
        m.project.manager.spec_dir() == launch.start_dir,
        m.port() is None,
        m.panels.browser is None && m.panels.build is None && m.flash is None,
        m.desk.home_dir == launch.home_dir@,
        m.desk.config_dir == launch.config_dir@,
        m.monitor.scroll.following,
{
}

/// Moving to another home moves the configuration with it and reads the
/// choices stored there.
pub proof fn another_home_has_its_own_choices(m: Model, home: Seq<char>, icons: IconSet)
    ensures
        ({
            let after = m.rehomed(home, Some("auto"@), Some(icons.spec_slug()));
            &&& after.desk.home_dir == home
            &&& after.desk.config_dir == text::joined(home, ".config"@)
            &&& after.prefs.theme is Auto
            &&& after.prefs.icons == icons
            &&& after.effects == m.effects
        }),
{
    theme::icon_sets_round_trip(icons);
}

/// What is copied is what the clipboard is asked to hold, and it is said.
pub proof fn what_is_copied_reaches_the_clipboard(m: Model, what: Seq<char>, text: String)
    ensures
        m.copied(what, text).pending.clipboard == Some(text),
        m.copied(what, text).logs.lines.last().0 is Success,
        m.copied(what, text).effects == m.effects,
{
}

/// The theme picker opens on the theme in force.
pub proof fn the_theme_picker_opens_on_the_choice(m: Model, row: usize, choice: ThemeChoice)
    requires
        ThemeChoice::spec_at(row as int) == Some(choice),
        m.prefs.theme == choice,
    ensures
        m.theme_picker_opened().overlay == Some(
            Overlay::<Seq<char>>::ThemePicker { selected: row },
        ),
        m.theme_picker_opened().prefs == m.prefs,
{
}

/// Focusing the project goes to its first open question; being there already
/// keeps the cursor.
pub proof fn focusing_the_project_finds_the_open_question(m: Model)
    ensures
        !(m.screen.focus is Project) && m.project.rows@.len() > 0 ==> {
            &&& m.project_focused().screen.focus is Project
            &&& m.project_focused().screen.project_cursor == m.project.first_open_row
        },
        m.screen.focus is Project ==> m.project_focused() == m,
        m.project.rows@.len() == 0 ==> m.project_focused() == m,
{
}

/// The furthest a console scrolls back leaves its pane full.
pub proof fn a_console_stays_full(view: MonitorView)
    ensures
        view.rows >= view.viewport ==> view.max_offset() + view.viewport == view.rows,
        view.rows < view.viewport ==> view.max_offset() == 0,
{
}

} // verus!
