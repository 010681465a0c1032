use chiptui::app::devices::count_serial_ports;
use chiptui::app::events::{AppEvent, ProcessEvent, TickFacts};
use chiptui::app::events::{BrowserUpdate, BuildUpdate, FlashUpdate, PanelUpdates};
use chiptui::app::flash_view::{DeferredQuery, FirmwareCheck, IdentifyAuth};
use chiptui::app::install_view::InstallUpdate;
use chiptui::app::keys::KeyInput;
use chiptui::app::launch::Launch;
use chiptui::app::ota_view::OtaUpdate;
use chiptui::app::{App, Focus, Glyphs, LogTab, RunState};
use chiptui::backend::BackendKind;
use chiptui::effect::{BrowserRequest, Effect, Task, TextTask};
use chiptui::input::{KeyCode, KeyEvent, KeyModifiers};
use chiptui::logs::Level;
use chiptui::overlay::Overlay;
use chiptui::panels::{
    Browser, DeviceInfo, Discovery, FirmwareVerdict, FlashFirmware, FlashPanel, PaneError,
    PaneState, ScriptState,
};

fn app_with(kind: Option<BackendKind>) -> App {
    let mut app = App::new(Launch {
        start_dir: "/work/blink".to_string(),
        home_dir: "/home/someone".to_string(),
        config_dir: "/home/someone/.config".to_string(),
        theme: None,
        icons: None,
        glyphs: Glyphs {
            list: String::new(),
            screen: String::new(),
            prompt: String::new(),
            bolt: String::new(),
            folder: String::new(),
            dashboard: String::new(),
        },
        dashboard_labels: vec!["Memory".to_string(), "Symbols".to_string()],
        memory_tab: 0,
        max_view_bytes: 65536,
    });
    app.project.manager.set_override(kind);
    app.take_effects();
    app
}

/// A MicroPython session with the file browser open.
fn micropython() -> App {
    let mut app = app_with(Some(BackendKind::MicroPython));
    app.panels.browser = Some(Browser::new("/work/blink".to_string()));
    app
}

fn device(port: &str) -> DeviceInfo {
    DeviceInfo { port: port.to_string(), label: format!("board on {port}") }
}

fn no_updates() -> PanelUpdates {
    PanelUpdates {
        browser: BrowserUpdate {
            notices: Vec::new(),
            device_scan: None,
            device_view: None,
            prompt_micropython_flash: false,
            script_running: None,
            transfer: None,
            sync_plan: None,
            listed: None,
        },
        install: InstallUpdate { notice: None, stopped: false, finished: false },
        ota: OtaUpdate { notice: None, finished: false, halted_unconfirmed: false },
        build: BuildUpdate { notices: Vec::new(), flashed: false, reported: false },
        flash: FlashUpdate {
            notices: Vec::new(),
            offer_flash: false,
            search_online_for_firmware: false,
            fetch_notices: Vec::new(),
            download_finished: false,
            firmware_invalidated: false,
            firmware_read_finished: false,
            chip_query_finished: false,
        },
    }
}

/// A scan's answer.
fn scan(result: Result<Vec<DeviceInfo>, String>) -> AppEvent {
    let mut updates = no_updates();
    updates.browser.device_scan = Some(result);
    AppEvent::Process(
        ProcessEvent::Finished { id: 900, summary: "ok".to_string() },
        false,
        updates,
    )
}

fn tick(port_count: usize) -> AppEvent {
    AppEvent::Tick(TickFacts { port_count, local_changed: false, files_changed: false })
}

fn key(code: KeyCode) -> AppEvent {
    AppEvent::Key(KeyInput { key: KeyEvent::plain(code), shell_bytes: None, claimed: false })
}

fn last_line(app: &App) -> (Level, String) {
    let line = app.logs.line(app.logs.len() - 1).expect("the log holds a line");
    (line.level, line.text.clone())
}

fn tasks(app: &mut App) -> Vec<Task> {
    app.take_effects()
        .into_iter()
        .filter_map(|e| match e {
            Effect::Task(task) => Some(task),
            _ => None,
        })
        .collect()
}

#[test]
fn several_boards_open_the_picker_and_touch_none() {
    let mut app = micropython();
    app.hear_browser(BrowserUpdate {
        device_scan: Some(Ok(vec![device("/dev/ttyUSB0"), device("/dev/ttyUSB1")])),
        ..no_updates().browser
    });
    assert_eq!(app.overlay, Some(Overlay::DevicePicker { selected: 0 }));
    assert_eq!(app.port(), None);
    assert!(app.take_effects().is_empty());
}

#[test]
fn picking_a_board_names_it_and_leaves_the_picker() {
    let mut app = micropython();
    app.handle(scan(Ok(vec![device("/dev/ttyUSB0"), device("/dev/ttyUSB1")])));
    app.handle(key(KeyCode::Down));
    assert_eq!(app.overlay, Some(Overlay::DevicePicker { selected: 1 }));
    app.handle(key(KeyCode::Enter));
    assert_eq!(app.overlay, None);
    assert_eq!(app.port().as_deref(), Some("/dev/ttyUSB1"));
    assert!(app.take_effects().is_empty());
    // It is asked about before anything reads it, whatever was answered.
    app.continue_tick();
    assert_eq!(app.overlay, Some(Overlay::ConfirmIdentifyDevice { confirm: false }));
    app.take_effects();
    app.handle(key(KeyCode::Enter));
    assert_eq!(
        tasks(&mut app),
        vec![Task::LoadDevice { port: Some("/dev/ttyUSB1".to_string()), force: true }]
    );
    app.apply_device_picker(1);
    assert_eq!(app.chain.identify, IdentifyAuth::Pending);
}

fn touches_the_board(task: &Task) -> bool {
    matches!(
        task,
        Task::LoadDevice { .. } | Task::QueryDeviceInfo { .. } | Task::QueryFirmware { .. }
    )
}

#[test]
fn an_unanswered_question_keeps_everything_off_the_board() {
    let mut app = micropython();
    app.handle(scan(Ok(vec![device("/dev/ttyUSB0")])));
    assert_eq!(app.overlay, Some(Overlay::ConfirmIdentifyDevice { confirm: false }));
    app.chain.flash_query_pending = true;
    app.chain.firmware_check = FirmwareCheck::Pending;
    app.chain.firmware_check_port = Some("/dev/ttyUSB0".to_string());
    // Another dialog took its place: the question is still unanswered.
    app.overlay = None;
    app.load_device_root();
    app.drive_held_root_listing();
    assert_eq!(app.maybe_run_deferred_flash_query(), DeferredQuery::Waiting);
    assert_eq!(app.maybe_run_deferred_firmware_check(), DeferredQuery::Waiting);
    app.handle(tick(1));
    app.continue_tick();
    assert_eq!(app.overlay, Some(Overlay::ConfirmIdentifyDevice { confirm: false }));
    assert!(!tasks(&mut app).iter().any(touches_the_board));
    assert!(app.chain.held_root_listing);
}

#[test]
fn agreeing_asks_the_chip_and_keeps_the_listing_waiting() {
    let mut app = micropython();
    app.handle(scan(Ok(vec![device("/dev/ttyUSB0")])));
    app.take_effects();
    app.handle(key(KeyCode::Char('y')));
    let asked = tasks(&mut app);
    assert!(asked.contains(&Task::QueryDeviceInfo { device: "/dev/ttyUSB0".to_string() }));
    assert!(!asked.iter().any(|t| matches!(t, Task::LoadDevice { .. })));
    assert!(app.chain.held_root_listing);
    assert_eq!(app.chain.identify, IdentifyAuth::Idle);
}

#[test]
fn refusing_lists_the_board_and_is_remembered() {
    let mut app = micropython();
    app.handle(scan(Ok(vec![device("/dev/ttyUSB0")])));
    app.take_effects();
    app.handle(key(KeyCode::Char('n')));
    let listing = Task::LoadDevice { port: Some("/dev/ttyUSB0".to_string()), force: false };
    assert_eq!(tasks(&mut app), vec![listing]);
    assert!(!app.chain.flash_query_pending);
    app.handle(scan(Ok(vec![device("/dev/ttyUSB0")])));
    assert_eq!(app.overlay, None);
    // Unplugged and back: the next board is asked about.
    app.handle(scan(Ok(Vec::new())));
    app.handle(scan(Ok(vec![device("/dev/ttyUSB0")])));
    assert_eq!(app.overlay, Some(Overlay::ConfirmIdentifyDevice { confirm: false }));
}

#[test]
fn a_departed_board_takes_its_question_with_it() {
    let mut app = micropython();
    app.handle(scan(Ok(vec![device("/dev/ttyUSB0")])));
    app.handle(scan(Ok(Vec::new())));
    assert_eq!(app.chain.identify, IdentifyAuth::Idle);
    assert!(!app.chain.held_root_listing);
}

#[test]
fn agreeing_stops_a_running_script_and_offers_it_back() {
    let mut app = micropython();
    app.handle(scan(Ok(vec![device("/dev/ttyUSB0")])));
    app.set_script_state(ScriptState::Running);
    app.handle(key(KeyCode::Char('y')));
    assert!(app.chain.restore_pending);
    assert_eq!(app.panels.devices.script, ScriptState::Stopped);
    assert!(tasks(&mut app)
        .contains(&Task::QueryDeviceInfo { device: "/dev/ttyUSB0".to_string() }));
}

#[test]
fn the_identification_gesture_opens_the_question_on_no() {
    let mut app = micropython();
    app.handle(AppEvent::Key(KeyInput {
        key: KeyEvent {
            code: KeyCode::Char('r'),
            modifiers: KeyModifiers { shift: false, control: true, alt: false },
        },
        shell_bytes: None,
        claimed: false,
    }));
    assert_eq!(app.overlay, Some(Overlay::ConfirmIdentifyDevice { confirm: false }));
    assert!(app.take_effects().is_empty());
    app.handle(key(KeyCode::Enter));
    assert_eq!(app.overlay, None);
    assert!(!app.chain.flash_query_pending);
    assert!(app.take_effects().is_empty());
}

#[test]
fn one_board_is_identified_before_it_is_listed() {
    let mut app = micropython();
    app.chain.probes = true;
    app.hear_browser(BrowserUpdate {
        device_scan: Some(Ok(vec![device("/dev/ttyUSB0")])),
        ..no_updates().browser
    });
    assert_eq!(app.port().as_deref(), Some("/dev/ttyUSB0"));
    assert_eq!(
        tasks(&mut app),
        vec![Task::StartProbe { port: Some("/dev/ttyUSB0".to_string()) }]
    );
    assert_eq!(app.chain.identify, IdentifyAuth::Pending);
    assert_eq!(app.panels.browser.as_ref().unwrap().device_state, PaneState::Loading);
    // The probe could not start: the listing still waits for the answer.
    app.probe_started(None);
    assert!(app.take_effects().is_empty());
    assert!(app.chain.held_root_listing);
    app.ask_follow_ups();
    assert_eq!(app.overlay, Some(Overlay::ConfirmIdentifyDevice { confirm: false }));
    app.handle(key(KeyCode::Char('n')));
    assert_eq!(app.overlay, None);
    assert_eq!(
        tasks(&mut app),
        vec![Task::LoadDevice { port: Some("/dev/ttyUSB0".to_string()), force: false }]
    );
}

#[test]
fn no_board_clears_what_the_last_one_answered() {
    let mut app = micropython();
    app.flash = Some(FlashPanel {
        mac: Some("aa:bb".to_string()),
        identified: true,
        firmware: Some(FirmwareVerdict::Erased),
        ..FlashPanel::new()
    });
    app.chain.firmware_check_port = Some("/dev/ttyUSB0".to_string());
    app.chain.mpy_version = Some("1.24".to_string());
    app.handle(scan(Ok(Vec::new())));
    let flash = app.flash.as_ref().unwrap();
    assert_eq!((flash.mac.clone(), flash.identified), (None, false));
    assert_eq!(flash.firmware, None);
    assert_eq!(app.chain.firmware_check_port, None);
    assert_eq!(app.chain.mpy_version, None);
    assert_eq!(
        app.panels.browser.as_ref().unwrap().device_state,
        PaneState::Failed(PaneError::NoDevice)
    );
}

#[test]
fn a_failed_scan_says_why_in_the_pane() {
    let mut app = micropython();
    app.handle(scan(Err("mpremote: not found".to_string())));
    assert_eq!(
        app.panels.devices.discovery,
        Discovery::Failed("mpremote: not found".to_string())
    );
    assert_eq!(
        app.panels.browser.as_ref().unwrap().device_state,
        PaneState::Failed(PaneError::Reported("mpremote: not found".to_string()))
    );
    assert_eq!(app.panels.devices.count(), 0);
}

#[test]
fn a_rescan_keeps_the_board_chosen_by_hand() {
    let mut app = micropython();
    app.panels.devices.set_devices(vec![device("/dev/a"), device("/dev/b")]);
    assert!(app.panels.devices.select(1));
    assert!(!app.panels.devices.select(2));
    app.panels.devices.script = ScriptState::Running;
    app.panels.devices.set_devices(vec![device("/dev/b"), device("/dev/c")]);
    assert_eq!(app.port().as_deref(), Some("/dev/b"));
    assert_eq!(app.panels.devices.script, ScriptState::Running);
    app.panels.devices.set_devices(vec![device("/dev/c"), device("/dev/d")]);
    assert_eq!(app.port(), None);
    assert_eq!(app.panels.devices.script, ScriptState::Unknown);
    assert!(app.panels.devices.needs_selection());
}

#[test]
fn a_serial_walk_selects_asks_or_says_there_is_nothing() {
    let mut app = app_with(Some(BackendKind::Zephyr));
    app.serial_ports_found(Vec::new());
    assert_eq!(app.panels.devices.discovery, Discovery::NoSerialPort);
    assert_eq!(
        app.panels.devices.discovery.failure().as_deref(),
        Some("no USB serial port found — connect the board and press 'd'")
    );
    assert_eq!(Discovery::Failed("gone".to_string()).failure().as_deref(), Some("gone"));
    assert_eq!(Discovery::Scanning.failure(), None);
    app.serial_ports_found(vec![device("/dev/ttyACM0")]);
    assert_eq!(app.port().as_deref(), Some("/dev/ttyACM0"));
    assert_eq!(app.overlay, None);
    app.panels.devices.selected = None;
    app.serial_ports_found(vec![device("/dev/ttyACM1"), device("/dev/ttyACM2")]);
    assert_eq!(app.overlay, Some(Overlay::DevicePicker { selected: 0 }));
}

#[test]
fn a_held_request_is_asked_about_once() {
    let mut app = micropython();
    app.browser_dispatched(&Vec::new(), true, true);
    let asked = Overlay::ConfirmInterruptDevice { confirm: false, return_to_packages: false };
    assert_eq!(app.overlay, Some(asked.clone()));
    app.check_interrupt_gate();
    assert_eq!(app.overlay, Some(asked));
    app.overlay = Some(Overlay::Packages);
    app.check_interrupt_gate();
    assert_eq!(
        app.overlay,
        Some(Overlay::ConfirmInterruptDevice { confirm: false, return_to_packages: true })
    );
}

#[test]
fn marking_a_script_turns_the_gate_and_says_so_once() {
    let mut app = micropython();
    app.set_script_state(ScriptState::Running);
    assert_eq!(
        last_line(&app),
        (
            Level::Warn,
            "device marked as running --- device operations will ask before interrupting"
                .to_string()
        )
    );
    assert_eq!(tasks(&mut app), vec![Task::InterruptGate { hold: true, port: None }]);
    let lines = app.logs.len();
    app.set_script_state(ScriptState::Running);
    assert_eq!(app.logs.len(), lines);
    app.set_script_state(ScriptState::Stopped);
    assert_eq!(last_line(&app), (Level::Info, "device script marked as stopped".to_string()));
}

#[test]
fn an_interrupted_script_is_offered_back_once() {
    let mut app = micropython();
    app.chain.restore_pending = true;
    app.panels.browser.as_mut().unwrap().busy = true;
    app.maybe_offer_restore();
    assert_eq!(app.overlay, None);
    app.panels.browser.as_mut().unwrap().busy = false;
    app.maybe_offer_restore();
    assert_eq!(
        app.overlay,
        Some(Overlay::RestoreDeviceScript { selected: 2, return_to_packages: false })
    );
    assert!(!app.chain.restore_pending);
    app.overlay = None;
    app.maybe_offer_restore();
    assert_eq!(app.overlay, None);
    app.apply_restore_device_script(0);
    app.apply_restore_device_script(1);
    app.apply_restore_device_script(2);
    assert_eq!(
        tasks(&mut app),
        vec![
            Task::Dispatch { request: BrowserRequest::HardReset, port: None },
            Task::Dispatch { request: BrowserRequest::RelaunchMain, port: None },
        ]
    );
}

#[test]
fn the_port_check_runs_on_every_fourth_tick() {
    let mut app = micropython();
    app.pending.last_port_count = Some(1);
    let mut scans = Vec::new();
    for _ in 0..8 {
        app.handle(tick(2));
        scans.push(tasks(&mut app).contains(&Task::ScanDevices));
    }
    assert_eq!(scans, vec![false, false, false, true, false, false, false, false]);
    assert_eq!(app.pending.last_port_count, Some(2));
}

#[test]
fn the_port_check_waits_behind_a_dialog() {
    let mut app = micropython();
    app.pending.ticks = 4;
    app.pending.last_port_count = Some(1);
    app.overlay = Some(Overlay::ThemePicker { selected: 0 });
    app.check_device_hotplug(2);
    assert_eq!(app.pending.last_port_count, Some(1));
    app.overlay = None;
    app.flash = Some(FlashPanel { busy: true, ..FlashPanel::new() });
    app.check_device_hotplug(2);
    assert_eq!(app.pending.last_port_count, Some(2));
    assert!(app.take_effects().is_empty());
    app.flash = None;
    app.check_device_hotplug(3);
    assert_eq!(tasks(&mut app), vec![Task::ScanDevices]);
    assert_eq!(
        last_line(&app),
        (Level::Info, "device connection change detected, rescanning...".to_string())
    );
}

#[test]
fn a_board_without_a_filesystem_is_walked_for() {
    let mut app = app_with(Some(BackendKind::Zephyr));
    app.set_serial_dir("/dev".to_string());
    app.take_effects();
    app.pending.ticks = 4;
    app.pending.last_port_count = Some(0);
    app.check_device_hotplug(1);
    assert_eq!(tasks(&mut app), vec![Task::ScanSerialPorts { dir: "/dev".to_string() }]);
    // One walk at a time.
    app.check_device_hotplug(2);
    assert!(app.take_effects().is_empty());
}

#[test]
fn a_tick_leaves_an_open_dialog_alone() {
    let mut app = micropython();
    app.panels.browser.as_mut().unwrap().held = true;
    app.chain.restore_pending = true;
    app.overlay = Some(Overlay::OtaAddress { input: "10.0.".to_string() });
    app.handle(tick(1));
    app.continue_tick();
    assert_eq!(app.overlay, Some(Overlay::OtaAddress { input: "10.0.".to_string() }));
    app.overlay = None;
    app.continue_tick();
    assert_eq!(
        app.overlay,
        Some(Overlay::ConfirmInterruptDevice { confirm: false, return_to_packages: false })
    );
}

#[test]
fn a_tick_asks_about_the_identification_first() {
    let mut app = micropython();
    app.panels.browser.as_mut().unwrap().held = true;
    app.chain.identify = IdentifyAuth::Pending;
    app.handle(tick(1));
    assert_eq!(app.overlay, None);
    assert_eq!(
        tasks(&mut app),
        vec![Task::RefreshRequirements, Task::TickProbe, Task::ContinueTick]
    );
    app.continue_tick();
    assert_eq!(app.overlay, Some(Overlay::ConfirmIdentifyDevice { confirm: false }));
    app.handle(key(KeyCode::Esc));
    assert_eq!(app.overlay, None);
    app.handle(scan(Ok(Vec::new())));
    assert_eq!(
        app.overlay,
        Some(Overlay::ConfirmInterruptDevice { confirm: false, return_to_packages: false })
    );
}

#[test]
fn a_listing_behind_a_running_script_is_asked_about() {
    let mut app = micropython();
    app.chain.held_root_listing = true;
    app.chain.flash_query_pending = true;
    app.check_interrupt_gate();
    assert_eq!(app.overlay, None);
    app.panels.devices.script = ScriptState::Running;
    app.check_interrupt_gate();
    assert_eq!(
        app.overlay,
        Some(Overlay::ConfirmInterruptDevice { confirm: false, return_to_packages: false })
    );
    app.handle(key(KeyCode::Char('n')));
    app.check_interrupt_gate();
    assert_eq!(app.overlay, None);
}

#[test]
fn a_claimed_event_reaches_nobody() {
    let mut app = micropython();
    app.monitor.device = Some(5);
    app.handle(AppEvent::Process(
        ProcessEvent::Finished { id: 5, summary: "ok".to_string() },
        true,
        no_updates(),
    ));
    assert_eq!(app.monitor.device, Some(5));
    assert!(app.take_effects().is_empty());
}

#[test]
fn a_sessions_output_reaches_no_panel() {
    let mut app = micropython();
    app.monitor.run = Some(6);
    let mut updates = no_updates();
    updates.browser.prompt_micropython_flash = true;
    app.handle(AppEvent::Process(
        ProcessEvent::Output { id: 6, text: "hello".to_string() },
        false,
        updates,
    ));
    assert_eq!(app.overlay, None);
    assert_eq!(
        app.take_effects(),
        vec![Effect::Text(TextTask::RunOutput, "hello".to_string())]
    );
}

#[test]
fn an_ended_run_leaves_its_script_stopped() {
    let mut app = micropython();
    app.monitor.run = Some(6);
    app.monitor.run_state = RunState::Running;
    app.panels.devices.script = ScriptState::Running;
    app.handle(AppEvent::Process(
        ProcessEvent::Finished { id: 6, summary: "exited 0".to_string() },
        false,
        no_updates(),
    ));
    assert_eq!(app.monitor.run, None);
    assert_eq!(app.monitor.run_state, RunState::Finished);
    assert_eq!(app.panels.devices.script, ScriptState::Stopped);
    assert_eq!(
        app.take_effects()[0],
        Effect::Text(TextTask::RunLine, "[run exited 0]".to_string())
    );
}

#[test]
fn a_paste_reaches_a_live_shell_alone() {
    let mut app = micropython();
    app.handle(AppEvent::Paste("ls\n".to_string()));
    assert!(app.take_effects().is_empty());
    app.screen.focus = Focus::Logs;
    app.screen.log_tab = LogTab::Terminal;
    app.terminal.process = Some(2);
    app.handle(AppEvent::Paste("ls\n".to_string()));
    assert_eq!(
        app.take_effects(),
        vec![Effect::Text(TextTask::PasteIntoShell, "ls\n".to_string())]
    );
}

#[test]
fn the_erase_question_keeps_its_highlight() {
    let mut app = micropython();
    let ask = || BrowserUpdate { prompt_micropython_flash: true, ..no_updates().browser };
    app.hear_browser(ask());
    assert_eq!(app.overlay, Some(Overlay::ConfirmEraseForMicroPython { confirm: false }));
    app.handle(key(KeyCode::Tab));
    app.hear_browser(ask());
    assert_eq!(app.overlay, Some(Overlay::ConfirmEraseForMicroPython { confirm: true }));
}

#[test]
fn a_documentation_notice_keeps_its_level() {
    let mut app = micropython();
    for (level, kept) in [
        (Level::Error, Level::Error),
        (Level::Warn, Level::Warn),
        (Level::Success, Level::Info),
    ] {
        app.handle(AppEvent::Docs(Some((level, "docs".to_string()))));
        assert_eq!(last_line(&app), (kept, "docs".to_string()));
    }
    let lines = app.logs.len();
    app.handle(AppEvent::Docs(None));
    assert_eq!(app.logs.len(), lines);
}

/// A board on the port, its chip already asked.
fn identified(firmware: Option<FirmwareVerdict>) -> App {
    let mut app = micropython();
    app.panels.devices.set_devices(vec![device("/dev/ttyUSB0")]);
    app.flash = Some(FlashPanel { succeeded: true, firmware, ..FlashPanel::new() });
    app.chain.firmware_check_port = Some("/dev/ttyUSB0".to_string());
    app
}

#[test]
fn foreign_firmware_is_refused_and_said_once() {
    let mut app =
        identified(Some(FirmwareVerdict::Firmware(FlashFirmware::Zephyr, Some("4.1".to_string()))));
    let before = app.logs.len();
    app.load_device_root();
    assert!(app.take_effects().is_empty());
    assert!(matches!(
        app.panels.browser.as_ref().unwrap().device_state,
        PaneState::Failed(PaneError::Firmware(FirmwareVerdict::Firmware(FlashFirmware::Zephyr, _)))
    ));
    assert_eq!(app.logs.len(), before + 1);
    app.load_device_root();
    assert_eq!(app.logs.len(), before + 1);
}

#[test]
fn micropython_firmware_lists_its_files() {
    let mut app =
        identified(Some(FirmwareVerdict::Firmware(FlashFirmware::MicroPython, None)));
    app.load_device_root();
    assert_eq!(
        tasks(&mut app),
        vec![Task::LoadDevice { port: Some("/dev/ttyUSB0".to_string()), force: false }]
    );
}

#[test]
fn the_listing_waits_for_the_chip_and_the_read() {
    let mut app = micropython();
    app.panels.devices.set_devices(vec![device("/dev/ttyUSB0")]);
    app.chain.flash_query_pending = true;
    app.load_device_root();
    assert!(app.chain.held_root_listing);
    let asked = tasks(&mut app);
    assert!(asked.contains(&Task::QueryDeviceInfo { device: "/dev/ttyUSB0".to_string() }));
    assert!(!asked.iter().any(|t| matches!(t, Task::LoadDevice { .. })));
    // The chip answers: the read is armed and the listing still waits.
    let panel = app.flash.as_mut().unwrap();
    panel.busy = false;
    panel.chip_query_running = false;
    panel.succeeded = true;
    app.hear_flash(&FlashUpdate { chip_query_finished: true, ..no_updates().flash });
    assert!(app.chain.held_root_listing);
    assert_eq!(app.chain.firmware_check, FirmwareCheck::Running);
    assert!(tasks(&mut app)
        .contains(&Task::QueryFirmware { device: "/dev/ttyUSB0".to_string() }));
    // The read names MicroPython: the listing goes on.
    let panel = app.flash.as_mut().unwrap();
    panel.busy = false;
    panel.firmware = Some(FirmwareVerdict::Firmware(FlashFirmware::MicroPython, None));
    app.hear_flash(&FlashUpdate { firmware_read_finished: true, ..no_updates().flash });
    assert!(!app.chain.held_root_listing);
    assert_eq!(app.chain.firmware_check, FirmwareCheck::Idle);
    assert!(tasks(&mut app).contains(&Task::LoadDevice {
        port: Some("/dev/ttyUSB0".to_string()),
        force: false,
    }));
}

#[test]
fn a_busy_port_postpones_the_chip_query() {
    let mut app = micropython();
    app.panels.devices.set_devices(vec![device("/dev/ttyUSB0")]);
    app.chain.flash_query_pending = true;
    app.monitor.device = Some(4);
    assert_eq!(app.maybe_run_deferred_flash_query(), DeferredQuery::Waiting);
    assert!(app.chain.flash_query_pending);
    app.monitor.device = None;
    assert_eq!(app.maybe_run_deferred_flash_query(), DeferredQuery::Started);
    assert!(!app.chain.flash_query_pending);
    // Without a board there is nothing to ask.
    app.panels.devices.selected = None;
    app.chain.flash_query_pending = true;
    assert_eq!(app.maybe_run_deferred_flash_query(), DeferredQuery::Dropped);
}

#[test]
fn the_read_is_armed_once_per_port() {
    let mut app = identified(None);
    app.chain.firmware_check_port = None;
    app.arm_firmware_check();
    assert_eq!(app.chain.firmware_check, FirmwareCheck::Pending);
    assert_eq!(app.chain.firmware_check_port.as_deref(), Some("/dev/ttyUSB0"));
    app.chain.firmware_check = FirmwareCheck::Idle;
    app.arm_firmware_check();
    assert_eq!(app.chain.firmware_check, FirmwareCheck::Idle);
}

#[test]
fn a_foreign_read_drops_the_restore() {
    let mut app = identified(Some(FirmwareVerdict::Erased));
    app.chain.restore_pending = true;
    app.hear_flash(&FlashUpdate { firmware_read_finished: true, ..no_updates().flash });
    assert!(!app.chain.restore_pending);
    app.maybe_offer_restore();
    assert_eq!(app.overlay, None);
}

#[test]
fn the_override_outranks_detection() {
    let mut app = app_with(None);
    app.project.manager.detected = Some(BackendKind::MicroPython);
    app.apply_picker(2);
    assert_eq!(app.project.manager.selected_kind(), Some(BackendKind::Zephyr));
    assert_eq!(app.picker_row(), 2);
    app.apply_picker(0);
    assert_eq!(app.project.manager.selected_kind(), Some(BackendKind::MicroPython));
    assert_eq!(app.picker_row(), 0);
    let before = app.logs.len();
    app.apply_picker(3);
    assert_eq!(app.logs.len(), before);
}

#[test]
fn setting_a_project_up_saves_the_answer() {
    let mut app = app_with(None);
    app.apply_project_setup(0);
    let asked = tasks(&mut app);
    assert_eq!(asked[0], Task::SaveScaffold(BackendKind::MicroPython));
    assert_eq!(asked[1], Task::EnsureLayout);
    app.scaffold_saved(BackendKind::MicroPython, Ok(()));
    assert_eq!(
        last_line(&app),
        (
            Level::Success,
            "MicroPython selected and saved to chiptui.toml in this project".to_string()
        )
    );
    app.scaffold_saved(BackendKind::Zephyr, Err("read-only".to_string()));
    assert_eq!(
        last_line(&app),
        (
            Level::Warn,
            "Zephyr selected for this session, but chiptui.toml could not be saved: read-only"
                .to_string()
        )
    );
}

#[test]
fn a_monitor_that_cannot_open_says_so() {
    let mut app = micropython();
    app.open_monitor();
    assert_eq!(tasks(&mut app), vec![Task::SpawnMonitor { port: None }]);
    app.monitor_opened(Err("no such port".to_string()));
    assert_eq!(
        last_line(&app),
        (Level::Error, "could not open monitor: no such port".to_string())
    );
    assert_eq!(app.monitor.device, None);
    app.monitor_opened(Ok(12));
    assert_eq!(app.monitor.device, Some(12));
    assert!(app.is_monitor_active());
}

#[test]
fn serial_ports_are_counted_by_name() {
    let names: Vec<String> = ["ttyUSB0", "ttyACM12", "cu.usbserial", "tty.usbmodem1", "ttyS0", "tty", "ttyUS"]
        .iter()
        .map(|n| n.to_string())
        .collect();
    assert_eq!(count_serial_ports(&names), 4);
    assert_eq!(count_serial_ports(&Vec::new()), 0);
}
