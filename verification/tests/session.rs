use chiptui::app::events::{AppEvent, ProcessEvent};
use chiptui::app::events::{BrowserUpdate, BuildUpdate, FlashUpdate, PanelUpdates, TickFacts};
use chiptui::app::help::{bindings, HelpSection};
use chiptui::app::install_view::InstallUpdate;
use chiptui::app::keys::KeyInput;
use chiptui::app::launch::Launch;
use chiptui::app::monitor_view::{MonitorSource, MonitorView};
use chiptui::app::mouse::{DashboardAreas, Frame, MouseInput, Row2, SplitAreas};
use chiptui::app::ota_view::OtaUpdate;
use chiptui::app::{App, Focus, Glyphs, LogTab};
use chiptui::backend::BackendKind;
use chiptui::effect::{Effect, PairTask, Task, TextTask};
use chiptui::geometry::Rect;
use chiptui::input::{key_to_bytes, KeyCode, KeyEvent, KeyModifiers, MouseEvent, MouseEventKind};
use chiptui::overlay::{DirPurpose, Overlay};
use chiptui::panels::{Browser, PaneState, Side, WorkspacePanel};
use chiptui::theme::{resolve_icons, IconSet, ThemeChoice};
use ratatui_themes::ThemeName;

fn glyphs() -> Glyphs {
    Glyphs {
        list: "≡".to_string(),
        screen: "▣".to_string(),
        prompt: "❯".to_string(),
        bolt: "⚡".to_string(),
        folder: "▤".to_string(),
        dashboard: "◫".to_string(),
    }
}

fn app_in(start_dir: &str) -> App {
    App::new(Launch {
        start_dir: start_dir.to_string(),
        home_dir: "/home/someone".to_string(),
        config_dir: "/home/someone/.config".to_string(),
        theme: None,
        icons: None,
        glyphs: glyphs(),
        dashboard_labels: vec!["Memory".to_string(), "Symbols".to_string()],
        memory_tab: 0,
        max_view_bytes: 65536,
    })
}

fn app() -> App {
    app_in("/nonexistent-project-dir")
}

fn app_with(kind: BackendKind) -> App {
    let mut app = app_in("/tmp");
    app.project.manager.set_override(Some(kind));
    app
}

fn press(code: KeyCode, modifiers: KeyModifiers) -> AppEvent {
    AppEvent::Key(KeyInput {
        key: KeyEvent { code, modifiers },
        shell_bytes: key_to_bytes(KeyEvent { code, modifiers }),
        claimed: false,
    })
}

fn key(code: KeyCode) -> AppEvent {
    press(code, KeyModifiers::none())
}

fn ctrl(c: char) -> AppEvent {
    press(KeyCode::Char(c), KeyModifiers::control())
}

fn help() -> Option<Overlay> {
    Some(Overlay::Help { filter: String::new(), filtering: false, selected: 0 })
}

fn no_updates() -> PanelUpdates {
    PanelUpdates {
        browser: BrowserUpdate {
            notices: Vec::new(),
            device_scan: None,
            device_view: None,
            prompt_micropython_flash: false,
            script_running: None,
            transfer: None,
            sync_plan: None,
            listed: None,
        },
        install: InstallUpdate { notice: None, stopped: false, finished: false },
        ota: OtaUpdate { notice: None, finished: false, halted_unconfirmed: false },
        build: BuildUpdate { notices: Vec::new(), flashed: false, reported: false },
        flash: FlashUpdate {
            notices: Vec::new(),
            offer_flash: false,
            search_online_for_firmware: false,
            fetch_notices: Vec::new(),
            download_finished: false,
            firmware_invalidated: false,
            firmware_read_finished: false,
            chip_query_finished: false,
        },
    }
}

fn process(event: ProcessEvent) -> AppEvent {
    AppEvent::Process(event, false, no_updates())
}

fn finished(id: u64, summary: &str) -> AppEvent {
    process(ProcessEvent::Finished { id, summary: summary.to_string() })
}

fn frame() -> Frame {
    let none = Rect::new(0, 0, 0, 0);
    let split = SplitAreas { popup: none, list: none, details: none };
    Frame {
        areas: DashboardAreas { project: none, device: none, row2: Row2::Placeholder, row3: none },
        popup: none,
        docs: split,
        packages: split,
        dashboard: split,
        flash: none,
        header_name: None,
        mac_row: None,
        board_half: true,
        button: None,
        dir_rows: 0,
        fields: Vec::new(),
        stop_width: 12,
    }
}

fn click(row: u16, column: u16) -> AppEvent {
    AppEvent::Mouse(MouseInput {
        event: MouseEvent { kind: MouseEventKind::Click, column, row },
        frame: frame(),
        now: 0,
    })
}

/// Starts the shell the last effects asked for.
fn start_shell(app: &mut App, id: u64) {
    let asked = app.take_effects().iter().any(|e| matches!(e, Effect::Task(Task::SpawnShell)));
    if asked {
        app.shell_spawned(Some(id), "slow".to_string());
    }
}

/// A monitor session that owns the keyboard.
fn app_in_monitor() -> (App, u64) {
    let mut app = app();
    let id = 7;
    app.monitor.device = Some(id);
    app.screen.focus = Focus::Logs;
    app.screen.log_tab = LogTab::Monitor;
    app.set_monitor_source(MonitorSource::Device);
    (app, id)
}

/// A shell that owns the keyboard.
fn app_in_terminal() -> (App, u64) {
    let mut app = app();
    app.screen.focus = Focus::Logs;
    app.show_terminal_tab();
    start_shell(&mut app, 11);
    let id = app.terminal.process.expect("the shell session started");
    (app, id)
}

fn browser(root: &str) -> Browser {
    Browser {
        focus: Side::Local,
        local_path: root.to_string(),
        device_path: None,
        local_cursor: 0,
        device_cursor: 0,
        local_len: 3,
        device_len: 0,
        local_offset: 0,
        device_offset: 0,
        local_selected: None,
        device_selected: None,
        device_state: PaneState::Idle,
        busy: false,
        held: false,
    }
}

#[test]
fn mouse_gestures_are_dropped_while_reporting_is_off() {
    let mut app = app();
    let before = app.screen.focus;
    app.handle(click(1, 1));
    assert_eq!(app.screen.focus, before);
    assert!(!app.should_quit());
    app.set_mouse_enabled(true);
    app.handle(click(1, 1));
    assert_eq!(app.screen.focus, before);
}

#[test]
fn tab_reaches_the_monitor_as_a_raw_0x09() {
    assert_eq!(key_to_bytes(KeyEvent::plain(KeyCode::Tab)), Some(vec![b'\t']));
}

#[test]
fn relabeled_control_bytes_reach_the_device_as_themselves() {
    let ctrl = |c: char| KeyEvent {
        code: KeyCode::Char(c),
        modifiers: KeyModifiers::control(),
    };
    assert_eq!(key_to_bytes(ctrl('5')), Some(vec![0x1d]));
    assert_eq!(key_to_bytes(ctrl('4')), Some(vec![0x1c]));
    assert_eq!(key_to_bytes(ctrl('6')), Some(vec![0x1e]));
    assert_eq!(key_to_bytes(ctrl('7')), Some(vec![0x1f]));
    assert_eq!(key_to_bytes(ctrl(' ')), Some(vec![0x00]));
    assert_eq!(key_to_bytes(ctrl('x')), Some(vec![0x18]));
    assert_eq!(key_to_bytes(ctrl('c')), Some(vec![0x03]));
    assert_eq!(key_to_bytes(ctrl('d')), Some(vec![0x04]));
}

#[test]
fn monitor_cursor_follows_the_echoed_line() {
    let (mut app, id) = app_in_monitor();
    for (text, column) in [(">>> ab", 6), ("\x08\x1b[K", 5), ("\x1b[D", 4)] {
        app.handle(process(ProcessEvent::Output { id, text: text.to_string() }));
        // The console takes the chunk and publishes its column.
        let effects = app.take_effects();
        assert_eq!(
            effects,
            vec![Effect::Text(TextTask::MonitorOutput, text.to_string())]
        );
        app.monitor.column = column;
        assert_eq!(app.monitor_cursor(), Some(column));
    }
}

#[test]
fn monitor_cursor_disappears_when_the_session_owns_no_keyboard() {
    let (mut app, id) = app_in_monitor();
    app.handle(process(ProcessEvent::Output { id, text: ">>> ".to_string() }));
    app.screen.focus = Focus::FilesLocal;
    assert_eq!(app.monitor_cursor(), None);
    app.screen.focus = Focus::Logs;
    app.handle(finished(id, "ok"));
    assert!(app.monitor.device.is_none());
    assert_eq!(app.monitor_cursor(), None);
}

#[test]
fn monitor_control_keys_reach_the_session_as_their_bytes() {
    let (mut app, id) = app_in_monitor();
    app.handle(ctrl('t'));
    app.handle(ctrl('r'));
    app.handle(ctrl('i'));
    app.handle(key(KeyCode::Char('A')));
    app.handle(key(KeyCode::Enter));
    let sent: Vec<Effect> = [0x14, 0x12, 0x09, 0x41, 0x0d]
        .iter()
        .map(|byte| Effect::Stdin { id, bytes: vec![*byte] })
        .collect();
    assert_eq!(app.take_effects(), sent);
}

#[test]
fn ctrl_rbracket_stops_the_monitor_session() {
    let (mut app, id) = app_in_monitor();
    app.handle(ctrl(']'));
    assert_eq!(app.take_effects(), vec![Effect::Task(Task::Cancel(id))]);
    app.handle(finished(id, "cancelled"));
    assert!(app.monitor.device.is_none());
    assert_eq!(
        app.take_effects(),
        vec![Effect::Text(TextTask::MonitorLine, "[monitor cancelled]".to_string())]
    );
}

#[test]
fn the_relabeled_ctrl5_stops_the_monitor_session_too() {
    let (mut app, id) = app_in_monitor();
    app.handle(ctrl('5'));
    assert_eq!(app.take_effects(), vec![Effect::Task(Task::Cancel(id))]);
    app.handle(finished(id, "cancelled"));
    assert!(app.monitor.device.is_none());
}

#[test]
fn entering_the_terminal_tab_starts_a_shell() {
    let (mut app, id) = app_in_terminal();
    assert_eq!(app.screen.log_tab, LogTab::Terminal);
    assert!(app.terminal.process.is_some());
    assert_eq!(app.terminal.program.as_deref(), Some("slow"));
    assert!(app.is_terminal_active());
    let data = b"user@board:~$ ".to_vec();
    app.handle(process(ProcessEvent::Bytes { id, data: data.clone() }));
    assert_eq!(app.take_effects(), vec![Effect::ShellBytes(data)]);
}

#[test]
fn the_terminal_tab_is_reachable_without_the_monitor_capability() {
    let mut app = app();
    app.screen.focus = Focus::Logs;
    app.handle(press(KeyCode::Right, KeyModifiers::control()));
    start_shell(&mut app, 3);
    assert_eq!(app.screen.log_tab, LogTab::Terminal);
    assert!(app.terminal.process.is_some());
}

#[test]
fn stepping_the_strip_lands_on_every_offered_tab() {
    let mut app = app_with(BackendKind::MicroPython);
    app.screen.focus = Focus::Logs;
    let step = |code: KeyCode| press(code, KeyModifiers::control());
    app.handle(step(KeyCode::Right));
    assert_eq!(app.screen.log_tab, LogTab::Monitor);
    app.handle(step(KeyCode::Right));
    assert_eq!(app.screen.log_tab, LogTab::Terminal);
    start_shell(&mut app, 3);
    app.terminal.detached = true;
    app.handle(step(KeyCode::Right));
    assert_eq!(app.screen.log_tab, LogTab::Terminal);
    app.handle(step(KeyCode::Left));
    assert_eq!(app.screen.log_tab, LogTab::Monitor);
    app.handle(step(KeyCode::Left));
    assert_eq!(app.screen.log_tab, LogTab::Log);
    app.handle(step(KeyCode::Left));
    assert_eq!(app.screen.log_tab, LogTab::Log);
}

#[test]
fn ctrl_c_reaches_the_shell_instead_of_quitting() {
    let (mut app, id) = app_in_terminal();
    app.handle(ctrl('c'));
    assert!(!app.should_quit());
    assert_eq!(app.take_effects(), vec![Effect::Stdin { id, bytes: vec![3] }]);
}

#[test]
fn ctrl_right_bracket_detaches_the_shell_without_ending_it() {
    let (mut app, id) = app_in_terminal();
    app.handle(ctrl('5'));
    assert!(!app.is_terminal_active());
    assert!(app.terminal.process.is_some());
    app.handle(key(KeyCode::Char('q')));
    assert!(app.should_quit());
    app.pending.should_quit = false;
    app.show_terminal_tab();
    assert!(app.is_terminal_active());
    assert_eq!(app.terminal.process, Some(id));
    assert!(app.take_effects().is_empty());
}

#[test]
fn a_finished_shell_frees_the_keyboard_and_keeps_its_transcript() {
    let (mut app, id) = app_in_terminal();
    app.handle(finished(id, "ok"));
    assert!(app.terminal.process.is_none());
    assert!(!app.is_terminal_active());
    assert_eq!(
        app.take_effects(),
        vec![Effect::Text(TextTask::ShellText, "\r\n[shell ok]\r\n".to_string())]
    );
    app.show_terminal_tab();
    start_shell(&mut app, 12);
    let new_id = app.terminal.process.expect("a fresh shell started");
    assert_ne!(new_id, id);
}

#[test]
fn a_detached_shell_detaches_across_its_exit() {
    let (mut app, id) = app_in_terminal();
    app.handle(ctrl(']'));
    app.handle(finished(id, "exit code 1"));
    assert!(app.terminal.process.is_none());
    assert!(!app.terminal.detached);
}

#[test]
fn the_terminal_tab_scrolls_its_transcript_like_the_monitor() {
    let mut app = app();
    app.screen.focus = Focus::Logs;
    app.screen.log_tab = LogTab::Terminal;
    app.monitor.view = MonitorView { rows: 10, viewport: 4, width: 40 };
    app.handle(key(KeyCode::Up));
    assert!(!app.monitor.scroll.following);
    assert_eq!(app.monitor.scroll.offset, 5);
    app.handle(key(KeyCode::End));
    assert!(app.monitor.scroll.following);
}

#[test]
fn ctrl_c_quits_from_any_context() {
    for overlay in [None, help(), Some(Overlay::ThemePicker { selected: 0 })] {
        let mut app = app();
        app.overlay = overlay;
        app.handle(ctrl('c'));
        assert!(app.should_quit());
    }
}

#[test]
fn esc_closes_the_overlay_and_never_quits() {
    let mut app = app();
    app.overlay = help();
    app.handle(key(KeyCode::Esc));
    assert_eq!(app.overlay, None);
    assert!(!app.should_quit());
    app.handle(key(KeyCode::Esc));
    assert_eq!(app.overlay, None);
    assert!(!app.should_quit());
    app.handle(key(KeyCode::Char('q')));
    assert!(app.should_quit());
}

#[test]
fn help_walks_the_command_select_and_activates_rows() {
    let mut app = app();
    app.overlay = help();
    let count = bindings(app.screen.view, HelpSection::Commands).len();
    app.handle(key(KeyCode::Up));
    assert!(matches!(app.overlay, Some(Overlay::Help { selected, .. }) if selected == count - 1));
    app.handle(key(KeyCode::Down));
    assert!(matches!(app.overlay, Some(Overlay::Help { selected: 0, .. })));
    let theme = bindings(app.screen.view, HelpSection::Commands)
        .iter()
        .position(|row| row.key == "t")
        .unwrap();
    app.overlay = Some(Overlay::Help { filter: String::new(), filtering: false, selected: theme });
    app.handle(key(KeyCode::Enter));
    assert!(matches!(app.overlay, Some(Overlay::ThemePicker { .. })));
    let toggle = bindings(app.screen.view, HelpSection::Commands)
        .iter()
        .position(|row| row.key == "?")
        .unwrap();
    app.overlay = Some(Overlay::Help { filter: String::new(), filtering: false, selected: toggle });
    app.handle(key(KeyCode::Enter));
    assert_eq!(app.overlay, None);
}

#[test]
fn help_filters_and_activates_through_the_filter() {
    let mut app = app();
    app.overlay = help();
    app.handle(key(KeyCode::Char('/')));
    for c in "theme".chars() {
        app.handle(key(KeyCode::Char(c)));
    }
    assert!(matches!(
        app.overlay,
        Some(Overlay::Help { ref filter, filtering: true, .. }) if filter == "theme"
    ));
    app.handle(key(KeyCode::Enter));
    assert!(matches!(app.overlay, Some(Overlay::ThemePicker { .. })));
}

#[test]
fn help_esc_leaves_the_filter_before_it_closes() {
    let mut app = app();
    app.overlay = help();
    app.handle(key(KeyCode::Char('/')));
    app.handle(key(KeyCode::Char('z')));
    app.handle(key(KeyCode::Esc));
    assert!(matches!(
        app.overlay,
        Some(Overlay::Help { ref filter, filtering: false, .. }) if filter == "z"
    ));
    app.handle(key(KeyCode::Esc));
    assert_eq!(app.overlay, None);
}

#[test]
fn tab_cycles_focus_in_both_directions() {
    let mut app = app();
    assert_eq!(app.screen.focus, Focus::FilesLocal);
    app.handle(key(KeyCode::Tab));
    assert_eq!(app.screen.focus, Focus::Logs);
    app.handle(key(KeyCode::BackTab));
    assert_eq!(app.screen.focus, Focus::Logs);
}

#[test]
fn tab_visits_the_files_panes_when_the_backend_has_a_filesystem() {
    let mut app = app_with(BackendKind::MicroPython);
    app.panels.browser = Some(browser("/tmp"));
    app.screen.focus = Focus::Logs;
    app.handle(key(KeyCode::Tab));
    assert_eq!(app.screen.focus, Focus::FilesLocal);
    app.handle(key(KeyCode::Tab));
    assert_eq!(app.screen.focus, Focus::FilesDevice);
    app.handle(key(KeyCode::Tab));
    assert_eq!(app.screen.focus, Focus::Logs);
    app.handle(key(KeyCode::Tab));
    assert_eq!(app.screen.focus, Focus::FilesLocal);
}

#[test]
fn tab_stops_on_workspace_and_build_without_a_device_filesystem() {
    let mut app = app_with(BackendKind::Zephyr);
    app.maybe_scan_devices();
    assert!(app.panels.browser.is_none());
    assert!(app.panels.workspace.is_some() && app.panels.build.is_some());
    app.screen.focus = Focus::Logs;
    app.handle(key(KeyCode::Tab));
    assert_eq!(app.screen.focus, Focus::Workspace);
    app.handle(key(KeyCode::Tab));
    assert_eq!(app.screen.focus, Focus::Build);
    app.handle(key(KeyCode::Tab));
    assert_eq!(app.screen.focus, Focus::Logs);

    let mut switch = app_with(BackendKind::MicroPython);
    switch.maybe_scan_devices();
    switch.screen.focus = Focus::FilesDevice;
    switch.apply_project_setup(1);
    switch.scaffold_saved(BackendKind::Zephyr, Ok(()));
    assert_eq!(switch.project.manager.selected_kind(), Some(BackendKind::Zephyr));
    assert_eq!(switch.screen.focus, Focus::Workspace);
}

#[test]
fn t_opens_the_theme_picker_on_the_active_theme() {
    let mut app = app();
    app.handle(key(KeyCode::Char('t')));
    let expected = (0..ThemeChoice::count())
        .position(|row| ThemeChoice::at(row) == Some(app.theme_choice()))
        .unwrap();
    assert_eq!(app.overlay, Some(Overlay::ThemePicker { selected: expected }));
}

#[test]
fn navigating_the_theme_picker_previews_without_committing() {
    let mut app = app();
    let original = app.theme();
    app.handle(key(KeyCode::Char('t')));
    app.handle(key(KeyCode::Down));
    let Some(Overlay::ThemePicker { selected }) = app.overlay else {
        panic!("theme picker should be open");
    };
    let hovered = ThemeChoice::at(selected)
        .unwrap()
        .resolve(app.project.manager.selected_kind());
    assert_eq!(app.drawn_theme(), hovered);
    assert_eq!(app.theme(), original);
    app.handle(key(KeyCode::Esc));
    assert_eq!(app.overlay, None);
    assert_eq!(app.theme(), original);
    assert_eq!(app.drawn_theme(), original);
}

#[test]
fn picking_a_theme_applies_it_immediately_and_persists_to_the_config() {
    let mut app = app();
    app.set_home_dir("/tmp/theme-pick".to_string(), None, None);
    app.handle(key(KeyCode::Char('t')));
    app.handle(key(KeyCode::Down));
    let Some(Overlay::ThemePicker { selected }) = app.overlay else {
        panic!("theme picker should be open");
    };
    let expected = ThemeChoice::at(selected).unwrap();
    app.handle(key(KeyCode::Enter));
    assert_eq!(app.overlay, None);
    assert_eq!(app.theme_choice(), expected);
    assert_eq!(
        app.take_effects(),
        vec![Effect::Text(TextTask::PersistTheme, expected.slug().to_string())]
    );
}

#[test]
fn auto_theme_slug_parses_and_round_trips() {
    assert_eq!(ThemeChoice::from_slug("auto"), Some(ThemeChoice::Auto));
    assert_eq!(ThemeChoice::from_slug("Auto"), Some(ThemeChoice::Auto));
    let named = |name: ThemeName| {
        let place = ThemeName::all().iter().position(|theme| *theme == name).unwrap();
        Some(ThemeChoice::Named(place))
    };
    assert_eq!(
        ThemeChoice::from_slug("catppuccin-mocha"),
        named(ThemeName::CatppuccinMocha)
    );
    assert_eq!(ThemeChoice::from_slug("everforest"), named(ThemeName::Everforest));
    assert_eq!(ThemeChoice::from_slug("not-a-theme"), None);
    assert_eq!(ThemeChoice::Auto.slug(), "auto");
    assert_eq!(ThemeChoice::Auto.display_name(), "Auto");
    assert_eq!(ThemeChoice::at(0), Some(ThemeChoice::Auto));
}

#[test]
fn icon_set_resolves_from_the_config_and_falls_back_to_unicode() {
    assert_eq!(resolve_icons(Some("nerd")), IconSet::Nerd);
    assert_eq!(resolve_icons(Some("none")), IconSet::Plain);
    assert_eq!(resolve_icons(Some("not-a-font")), IconSet::Unicode);
}

#[test]
fn redirected_home_re_reads_the_icon_set() {
    let mut app = app_in("/tmp");
    app.set_home_dir("/tmp/icons-move".to_string(), None, Some("nerd".to_string()));
    assert_eq!(app.icon_set(), IconSet::Nerd);
}

#[test]
fn ctrl_i_cycles_the_icon_set_and_persists_each_step() {
    let mut app = app();
    app.set_home_dir("/tmp/icons-cycle".to_string(), None, None);
    assert_eq!(app.icon_set(), IconSet::Unicode);
    app.handle(ctrl('i'));
    assert_eq!(app.icon_set(), IconSet::Nerd);
    app.handle(ctrl('i'));
    assert_eq!(app.icon_set(), IconSet::Plain);
    app.handle(ctrl('i'));
    assert_eq!(app.icon_set(), IconSet::Unicode);
    assert_eq!(
        app.take_effects().last(),
        Some(&Effect::Text(TextTask::PersistIcons, "unicode".to_string()))
    );
    app.handle(key(KeyCode::Char('i')));
    assert_eq!(app.icon_set(), IconSet::Unicode);
}

#[test]
fn auto_theme_follows_the_active_backend() {
    let mut app = app_in("/tmp");
    app.handle(key(KeyCode::Char('t')));
    let Some(Overlay::ThemePicker { selected }) = app.overlay else {
        panic!("theme picker should be open");
    };
    for _ in 0..selected {
        app.handle(key(KeyCode::Up));
    }
    assert_eq!(app.overlay, Some(Overlay::ThemePicker { selected: 0 }));
    app.handle(key(KeyCode::Enter));
    assert_eq!(app.theme_choice(), ThemeChoice::Auto);
    assert_eq!(
        app.take_effects(),
        vec![Effect::Text(TextTask::PersistTheme, "auto".to_string())]
    );
    let theme = |app: &App| ThemeName::all()[app.theme()];
    assert_eq!(theme(&app), ThemeName::TokyoNight);
    app.project.manager.set_override(Some(BackendKind::Zephyr));
    assert_eq!(theme(&app), ThemeName::CatppuccinMocha);
    app.project.manager.set_override(Some(BackendKind::MicroPython));
    assert_eq!(theme(&app), ThemeName::Everforest);
    app.project.manager.set_override(None);
    assert_eq!(theme(&app), ThemeName::TokyoNight);
}

#[test]
fn log_scrolling_respects_the_reported_viewport() {
    let mut app = app();
    app.screen.focus = Focus::Logs;
    app.drawn.log_viewport = 2;
    for i in 0..10 {
        app.info(&format!("line {i}"));
    }
    app.handle(key(KeyCode::PageUp));
    assert_eq!(app.logs.scroll(), 2);
    app.handle(key(KeyCode::End));
    assert!(app.logs.is_following());
}

#[test]
fn monitor_scrolling_leaves_and_resumes_the_tail() {
    let mut app = app();
    app.screen.focus = Focus::Logs;
    app.screen.log_tab = LogTab::Monitor;
    app.monitor.view = MonitorView { rows: 40, viewport: 10, width: 80 };
    app.handle(key(KeyCode::Up));
    assert!(!app.monitor.scroll.following);
    assert_eq!(app.monitor.scroll.offset, 29);
    app.handle(key(KeyCode::PageUp));
    assert_eq!(app.monitor.scroll.offset, 19);
    app.handle(key(KeyCode::Home));
    assert_eq!(app.monitor.scroll.offset, 0);
    app.handle(key(KeyCode::PageDown));
    assert_eq!(app.monitor.scroll.offset, 10);
    app.handle(key(KeyCode::End));
    assert!(app.monitor.scroll.following);
}

#[test]
fn monitor_scroll_clamps_to_the_published_geometry() {
    let mut app = app();
    app.screen.focus = Focus::Logs;
    app.screen.log_tab = LogTab::Monitor;
    app.monitor.view = MonitorView { rows: 10, viewport: 10, width: 80 };
    app.handle(key(KeyCode::PageUp));
    assert_eq!(app.monitor.scroll.offset, 0);
    assert!(!app.monitor.scroll.following);
    app.handle(key(KeyCode::End));
    app.monitor.view.rows = 0;
    app.handle(key(KeyCode::Up));
    assert_eq!(app.monitor.scroll.offset, 0);
}

#[test]
fn switching_the_monitor_source_re_pins_the_new_feed() {
    let mut app = app();
    app.monitor.view = MonitorView { rows: 40, viewport: 10, width: 80 };
    app.monitor_scroll_up(5);
    assert!(!app.monitor.scroll.following);
    app.set_monitor_source(MonitorSource::Build);
    assert!(app.monitor.scroll.following);
    assert_eq!(app.monitor.scroll.offset, 0);
}

#[test]
fn resize_re_pins_the_log_view_to_the_tail() {
    let mut app = app();
    app.drawn.log_viewport = 2;
    for i in 0..10 {
        app.info(&format!("line {i}"));
    }
    app.logs.scroll_up(3, 2);
    app.handle(AppEvent::Resize);
    assert!(app.logs.is_following());
}

#[test]
fn overlays_with_no_hint_of_their_own_still_reach_help() {
    let text_entry_overlays: Vec<Overlay> = vec![
        Overlay::RenameEntry { name: "old".into(), input: "old".into() },
        Overlay::BuildDirPicker { input: String::new(), selected: 0 },
        Overlay::Packages,
    ];
    let other_silent_overlays: Vec<Overlay> = vec![
        Overlay::DirPicker {
            purpose: DirPurpose::Installation,
            path: String::new(),
            selected: 0,
            error: None,
        },
        Overlay::ProjectPicker { mpy: false, selected: 0, error: None },
        Overlay::DevicePicker { selected: 0 },
        Overlay::ThemePicker { selected: 0 },
        Overlay::FirmwarePicker { selected: 0 },
        Overlay::ProjectSetup { selected: 0 },
        Overlay::FileActions {
            side: Side::Local,
            name: "file.py".into(),
            is_dir: false,
            is_text: true,
            status: None,
            selected: 0,
        },
        Overlay::RestoreDeviceScript { selected: 0, return_to_packages: false },
        Overlay::ZephyrActions { selected: 0 },
    ];
    for overlay in text_entry_overlays.iter().chain(&other_silent_overlays) {
        let mut app = app();
        app.overlay = Some(overlay.clone());
        app.handle(key(KeyCode::F(1)));
        assert!(
            matches!(app.overlay, Some(Overlay::Help { .. })),
            "F1 must open help from {overlay:?}"
        );
    }
    for overlay in &other_silent_overlays {
        let mut app = app();
        app.overlay = Some(overlay.clone());
        app.handle(key(KeyCode::Char('?')));
        assert!(
            matches!(app.overlay, Some(Overlay::Help { .. })),
            "? must open help from {overlay:?}"
        );
    }
    for overlay in &text_entry_overlays {
        let mut app = app();
        app.overlay = Some(overlay.clone());
        app.handle(key(KeyCode::Char('?')));
        assert!(
            !matches!(app.overlay, Some(Overlay::Help { .. })),
            "? must be typed into the field, not open help, for {overlay:?}"
        );
    }
}

#[test]
fn esc_leaves_every_pane_as_it_was() {
    for focus in [
        Focus::FilesLocal,
        Focus::FilesDevice,
        Focus::Project,
        Focus::Workspace,
        Focus::DeviceInfo,
        Focus::Build,
        Focus::Logs,
    ] {
        let mut app = app_with(BackendKind::MicroPython);
        app.screen.focus = focus;
        app.handle(key(KeyCode::Esc));
        assert!(!app.should_quit());
        assert_eq!(app.overlay, None);
        assert_eq!(app.screen.focus, focus);
    }
}

#[test]
fn unknown_keys_are_ignored() {
    let mut app = app();
    app.handle(key(KeyCode::Char('z')));
    assert!(!app.should_quit());
    assert_eq!(app.screen.focus, Focus::FilesLocal);
}

#[test]
fn log_tab_defaults_to_log() {
    assert_eq!(app().screen.log_tab, LogTab::Log);
}

#[test]
fn the_chord_switches_the_log_tab_only_while_logs_is_focused() {
    let mut app = app_with(BackendKind::MicroPython);
    app.screen.focus = Focus::Logs;
    let chord = |code: KeyCode| press(code, KeyModifiers::control());
    app.handle(chord(KeyCode::Right));
    assert_eq!(app.screen.log_tab, LogTab::Monitor);
    app.handle(chord(KeyCode::Left));
    assert_eq!(app.screen.log_tab, LogTab::Log);
    app.handle(key(KeyCode::Right));
    assert_eq!(app.screen.log_tab, LogTab::Log);
    app.screen.focus = Focus::FilesLocal;
    app.handle(key(KeyCode::Right));
    assert_eq!(app.screen.log_tab, LogTab::Log);
}

#[test]
fn ctrl_arrows_switch_the_log_tab_too() {
    let mut app = app_with(BackendKind::MicroPython);
    app.screen.focus = Focus::Logs;
    app.handle(press(KeyCode::Right, KeyModifiers::control()));
    assert_eq!(app.screen.log_tab, LogTab::Monitor);
    app.handle(press(KeyCode::Left, KeyModifiers::control()));
    assert_eq!(app.screen.log_tab, LogTab::Log);
}

#[test]
fn the_chord_steps_between_the_panes_of_a_row_without_strips() {
    let mut app = app_with(BackendKind::Zephyr);
    app.maybe_scan_devices();
    app.screen.focus = Focus::Workspace;
    app.handle(press(KeyCode::Right, KeyModifiers::control()));
    assert_eq!(app.screen.focus, Focus::Build);
    assert_eq!(app.screen.log_tab, LogTab::Log);
    app.handle(press(KeyCode::Left, KeyModifiers::control()));
    assert_eq!(app.screen.focus, Focus::Workspace);
    assert_eq!(app.screen.log_tab, LogTab::Log);
}

#[test]
fn scrolling_is_inert_on_the_monitor_tab() {
    let mut app = app();
    app.screen.focus = Focus::Logs;
    app.screen.log_tab = LogTab::Monitor;
    app.info("a line");
    app.handle(key(KeyCode::Up));
    assert!(app.logs.is_following());
}

#[test]
fn redirecting_the_home_redirects_the_user_config() {
    let mut app = app_in("/tmp");
    app.set_home_dir("/tmp/chiptui-home-fixture".to_string(), None, None);
    assert_eq!(
        app.user_config_path(),
        "/tmp/chiptui-home-fixture/.config/chiptui/config.toml"
    );
}

#[test]
fn the_editor_runs_from_the_detection_root_for_a_browser_backend() {
    let mut app = app_in("/tmp/chiptui-edit-cwd");
    app.project.manager.root = Some("/tmp/chiptui-edit-cwd".to_string());
    app.project.manager.set_override(Some(BackendKind::MicroPython));
    assert_eq!(app.editor_cwd(), "/tmp/chiptui-edit-cwd");
}

#[test]
fn a_tick_picks_up_an_external_local_change() {
    let mut app = app();
    app.panels.browser = Some(browser("/tmp/watched"));
    let tick = |changed: bool| {
        AppEvent::Tick(TickFacts { port_count: 0, local_changed: changed, files_changed: false })
    };
    for _ in 0..4 {
        app.handle(tick(false));
    }
    assert!(!app.take_effects().contains(&Effect::Task(Task::ReloadLocal)));
    for _ in 0..4 {
        app.handle(tick(true));
    }
    assert!(app.take_effects().contains(&Effect::Task(Task::ReloadLocal)));
}

#[test]
fn the_editor_runs_from_the_workspace_panes_project_root() {
    let mut app = app();
    app.project.manager.set_override(Some(BackendKind::Zephyr));
    app.panels.workspace = Some(WorkspacePanel {
        dir: Some("/opt/zephyrproject".to_string()),
        projects: None,
        project_count: 0,
        zephyr_version: None,
        files_root: None,
        files_path: None,
        files_cursor: 0,
        files_offset: 0,
        files_len: 0,
        files_error: false,
    });
    assert_ne!(app.editor_cwd(), "");
    app.panels.workspace.as_mut().unwrap().files_root = Some("/opt/zephyrproject/app".to_string());
    assert_eq!(app.editor_cwd(), "/opt/zephyrproject/app");
}

#[test]
fn a_reupload_names_both_ends() {
    let mut app = app_with(BackendKind::MicroPython);
    app.panels.browser = Some(browser("/tmp"));
    app.request_device_reupload("/tmp/edit/main.py".to_string(), "/main.py".to_string());
    assert_eq!(
        app.take_effects(),
        vec![Effect::Pair(
            PairTask::Reupload { port: None },
            "/tmp/edit/main.py".to_string(),
            "/main.py".to_string(),
        )]
    );
}
