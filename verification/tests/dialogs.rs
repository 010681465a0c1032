use chiptui::app::events::AppEvent;
use chiptui::app::file_browser::{
    DeviceView, FileAction, FileViewer, Transfer, TransferKind, ViewerSource, ViewerState,
};
use chiptui::app::keys::KeyInput;
use chiptui::app::launch::Launch;
use chiptui::app::monitor_view::MonitorSource;
use chiptui::app::overlay_keys::dispatch_confirm;
use chiptui::app::{App, DocsFocus, Focus, Glyphs, LogTab, PendingEdit, RunLine, RunState, View};
use chiptui::backend::BackendKind;
use chiptui::effect::{BrowserRequest, Effect, PairTask, Task, TextTask};
use chiptui::input::{KeyCode, KeyEvent, KeyModifiers};
use chiptui::logs::{Level, LogLine};
use chiptui::overlay::{ConfirmStep, DevicePath, DirPurpose, Overlay, RemoveTarget, SyncPlan};
use chiptui::panels::{
    Browser, BuildAction, BuildKind, BuildPanel, DeviceEntry, FlashAction, FlashPanel,
    FlashPaneAction, FlashScreen, OptionsField, OtaConfirm, SelectedEntry, Side, WorkspacePanel,
};

fn app_with(kind: BackendKind) -> App {
    let mut app = App::new(Launch {
        start_dir: "/work/blink".to_string(),
        home_dir: "/home/someone".to_string(),
        config_dir: "/home/someone/.config".to_string(),
        theme: None,
        icons: None,
        glyphs: Glyphs {
            list: String::new(),
            screen: String::new(),
            prompt: String::new(),
            bolt: String::new(),
            folder: String::new(),
            dashboard: String::new(),
        },
        dashboard_labels: vec!["Memory".to_string()],
        memory_tab: 0,
        max_view_bytes: 1048576,
    });
    app.project.manager.set_override(Some(kind));
    app.take_effects();
    app
}

/// A MicroPython session with the file browser open.
fn micropython() -> App {
    let mut app = app_with(BackendKind::MicroPython);
    app.panels.browser = Some(Browser::new("/work/blink".to_string()));
    app
}

fn key(code: KeyCode) -> AppEvent {
    AppEvent::Key(KeyInput { key: KeyEvent::plain(code), shell_bytes: None, claimed: false })
}

fn control(code: KeyCode) -> AppEvent {
    AppEvent::Key(KeyInput {
        key: KeyEvent { code, modifiers: KeyModifiers::control() },
        shell_bytes: None,
        claimed: false,
    })
}

fn last_line(app: &App) -> (Level, String) {
    let line = app.logs.line(app.logs.len() - 1).expect("the log holds a line");
    (line.level, line.text.clone())
}

fn questions() -> Vec<Overlay> {
    let plan = SyncPlan { uploads: Vec::new(), deletes: Vec::new() };
    vec![
        Overlay::Confirm { message: "esptool erase".to_string(), confirm: false },
        Overlay::ConfirmDownloadOverwrite {
            url: "u".to_string(),
            dest: "d".to_string(),
            confirm: false,
        },
        Overlay::ConfirmUpload { name: "a".to_string(), is_dir: false, confirm: false },
        Overlay::ConfirmBuild { action: BuildAction::Flash, confirm: false },
        Overlay::ConfirmRestartDevice { confirm: false },
        Overlay::ConfirmEraseForMicroPython { confirm: false },
        Overlay::ConfirmDelete {
            side: Side::Local,
            name: "a".to_string(),
            is_dir: false,
            confirm: false,
        },
        Overlay::ConfirmRemovePackage {
            name: "p".to_string(),
            targets: vec![RemoveTarget { path: "/lib/p".to_string(), recursive: true }],
            declared: true,
            confirm: false,
        },
        Overlay::SyncPreview { plan, confirm: false },
        Overlay::ConfirmIdentifyDevice { confirm: false },
        Overlay::ConfirmInterruptDevice { confirm: false, return_to_packages: false },
        Overlay::ConfirmSwitchProject { confirm: false },
        Overlay::ConfirmInstallHere {
            dir: "/opt".to_string(),
            reason: "r".to_string(),
            confirm: false,
        },
        Overlay::ConfirmOta { what: OtaConfirm::Update, confirm: false },
    ]
}

#[test]
fn every_question_takes_the_same_answers() {
    assert_eq!(dispatch_confirm(KeyCode::Char('y'), false), ConfirmStep::Accept);
    assert_eq!(dispatch_confirm(KeyCode::Enter, true), ConfirmStep::Accept);
    assert_eq!(dispatch_confirm(KeyCode::Enter, false), ConfirmStep::Decline);
    assert_eq!(dispatch_confirm(KeyCode::Esc, true), ConfirmStep::Decline);
    assert_eq!(dispatch_confirm(KeyCode::Char('l'), true), ConfirmStep::Toggle);
    assert_eq!(dispatch_confirm(KeyCode::Char('z'), true), ConfirmStep::Ignore);
    for question in questions() {
        let mut app = micropython();
        app.overlay = Some(question.clone());
        app.handle(key(KeyCode::Char('z')));
        assert_eq!(app.overlay, Some(question.clone()));
        app.handle(key(KeyCode::Tab));
        assert_eq!(app.overlay, Some(question.clone().with_highlight(true)));
        app.handle(key(KeyCode::Left));
        assert_eq!(app.overlay, Some(question.clone()));
        assert_eq!(question.highlighted(), Some(false));
        assert!(app.take_effects().is_empty());
        app.handle(key(KeyCode::Esc));
        assert_ne!(app.overlay, Some(question));
    }
}

#[test]
fn a_reflex_enter_restarts_nothing() {
    let mut app = micropython();
    app.handle(key(KeyCode::Char('R')));
    assert_eq!(app.overlay, Some(Overlay::ConfirmRestartDevice { confirm: false }));
    app.handle(key(KeyCode::Enter));
    assert_eq!(app.overlay, None);
    assert!(app.take_effects().is_empty());
    app.handle(key(KeyCode::Char('R')));
    app.handle(key(KeyCode::Char('y')));
    assert_eq!(
        app.take_effects(),
        vec![Effect::Task(Task::Dispatch { request: BrowserRequest::Reset, port: None })]
    );
}

#[test]
fn agreeing_carries_the_question_out() {
    let plan = SyncPlan { uploads: Vec::new(), deletes: vec!["/old.py".to_string()] };
    let cases = vec![
        (
            Overlay::ConfirmUpload { name: "lib".to_string(), is_dir: true, confirm: false },
            Effect::Text(TextTask::UploadDir { port: None }, "lib".to_string()),
        ),
        (
            Overlay::SyncPreview { plan: plan.clone(), confirm: false },
            Effect::Task(Task::Dispatch {
                request: BrowserRequest::ExecuteSync { plan, deletes: true },
                port: None,
            }),
        ),
        (
            Overlay::ConfirmInstallHere {
                dir: "/opt".to_string(),
                reason: "r".to_string(),
                confirm: false,
            },
            Effect::Text(
                TextTask::InspectInstallDir { toolchains: false },
                "/opt".to_string(),
            ),
        ),
        (
            Overlay::ConfirmBuild { action: BuildAction::UpdateZephyr, confirm: false },
            Effect::Task(Task::WorkspaceUpdate),
        ),
        (
            Overlay::ConfirmDelete {
                side: Side::Local,
                name: "a.py".to_string(),
                is_dir: false,
                confirm: false,
            },
            Effect::Text(TextTask::RemoveFile, "/work/blink/a.py".to_string()),
        ),
    ];
    for (question, effect) in cases {
        let mut app = micropython();
        app.overlay = Some(question);
        app.handle(key(KeyCode::Char('y')));
        assert_eq!(app.overlay, None);
        assert_eq!(app.take_effects(), vec![effect]);
    }
}

#[test]
fn esc_leaves_the_directory_picker_and_other_keys_are_handed_on() {
    let picker = Overlay::DirPicker {
        purpose: DirPurpose::Installation,
        path: "/opt".to_string(),
        selected: 0,
        error: None,
    };
    let mut app = micropython();
    app.overlay = Some(picker.clone());
    app.handle(key(KeyCode::Down));
    assert_eq!(app.overlay, Some(picker));
    assert_eq!(
        app.take_effects(),
        vec![Effect::Task(Task::DirPickerKey(KeyEvent::plain(KeyCode::Down)))]
    );
    app.handle(key(KeyCode::Esc));
    assert_eq!(app.overlay, None);
    assert!(app.take_effects().is_empty());
}

#[test]
fn every_character_filters_a_picker() {
    let docs = |input: &str| Overlay::BoardPicker {
        input: input.to_string(),
        selected: 0,
        scroll: 0,
        focus: DocsFocus::List,
    };
    let mut app = micropython();
    app.overlay = Some(docs(""));
    app.handle(key(KeyCode::Char('q')));
    app.handle(key(KeyCode::Char('?')));
    assert_eq!(app.overlay, Some(docs("q?")));
    app.handle(key(KeyCode::Esc));
    assert_eq!(app.overlay, None);
    app.overlay = Some(Overlay::ShieldPicker {
        input: "s".to_string(),
        selected: 0,
        scroll: 0,
        focus: DocsFocus::Details,
    });
    app.handle(key(KeyCode::Char('q')));
    assert!(matches!(&app.overlay, Some(Overlay::ShieldPicker { input, .. }) if input == "sq"));
    app.overlay = Some(Overlay::BuildDirPicker { input: String::new(), selected: 0 });
    app.handle(key(KeyCode::Char('q')));
    app.handle(key(KeyCode::Char('?')));
    assert_eq!(
        app.overlay,
        Some(Overlay::BuildDirPicker { input: "q?".to_string(), selected: 0 })
    );
    app.handle(key(KeyCode::Esc));
    assert_eq!(app.overlay, None);
}

#[test]
fn declining_an_interruption_drops_what_was_held() {
    let mut app = micropython();
    app.chain.held_root_listing = true;
    app.overlay =
        Some(Overlay::ConfirmInterruptDevice { confirm: false, return_to_packages: true });
    app.handle(key(KeyCode::Char('n')));
    assert_eq!(app.overlay, Some(Overlay::Packages));
    assert!(!app.chain.held_root_listing);
    assert_eq!(
        app.take_effects(),
        vec![
            Effect::Task(Task::DeclineHeldListing),
            Effect::Task(Task::Dispatch { request: BrowserRequest::CancelHeld, port: None }),
        ]
    );
}

#[test]
fn help_opens_over_the_dialogs_that_hint_at_nothing() {
    let mut app = micropython();
    app.overlay = Some(Overlay::RenameEntry { name: "a".to_string(), input: String::new() });
    app.handle(key(KeyCode::Char('?')));
    assert_eq!(
        app.overlay,
        Some(Overlay::RenameEntry { name: "a".to_string(), input: "?".to_string() })
    );
    app.handle(key(KeyCode::F(1)));
    assert!(matches!(app.overlay, Some(Overlay::Help { .. })));
}

#[test]
fn searching_the_help_takes_letters_as_text() {
    let mut app = micropython();
    app.handle(key(KeyCode::Char('?')));
    app.handle(key(KeyCode::Char('/')));
    for c in "QUIT".chars() {
        app.handle(key(KeyCode::Char(c)));
    }
    assert_eq!(
        app.overlay,
        Some(Overlay::Help { filter: "QUIT".to_string(), filtering: true, selected: 0 })
    );
    app.handle(key(KeyCode::Esc));
    assert!(matches!(app.overlay, Some(Overlay::Help { filtering: false, .. })));
    // The one row left is `Quit`, whatever case it was searched in.
    app.handle(key(KeyCode::Enter));
    assert!(app.should_quit());
}

#[test]
fn leaving_a_picker_does_nothing_else() {
    for picker in [
        Overlay::ThemePicker { selected: 3 },
        Overlay::DevicePicker { selected: 0 },
        Overlay::FirmwarePicker { selected: 0 },
        Overlay::ProjectSetup { selected: 1 },
        Overlay::BuildTarget { kind: BuildKind::Build, selected: 1 },
        Overlay::ZephyrActions { selected: 2 },
    ] {
        let mut app = micropython();
        let lines = app.logs.len();
        app.overlay = Some(picker);
        app.handle(key(KeyCode::Esc));
        assert_eq!(app.overlay, None);
        assert!(app.take_effects().is_empty());
        assert_eq!(app.logs.len(), lines);
    }
}

#[test]
fn moving_clears_the_project_pickers_error() {
    let mut app = app_with(BackendKind::Zephyr);
    app.panels.workspace = Some(WorkspacePanel {
        projects: Some("/work".to_string()),
        project_count: 3,
        ..WorkspacePanel::new()
    });
    let at = |selected: usize, error: Option<&str>| {
        Some(Overlay::ProjectPicker { mpy: false, selected, error: error.map(|e| e.to_string()) })
    };
    app.overlay = at(0, Some("not an application"));
    app.handle(key(KeyCode::Char('z')));
    assert_eq!(app.overlay, at(0, Some("not an application")));
    app.handle(key(KeyCode::Up));
    assert_eq!(app.overlay, at(2, None));
    app.handle(key(KeyCode::Home));
    assert_eq!(app.overlay, at(0, None));
    app.handle(key(KeyCode::End));
    assert_eq!(app.overlay, at(2, None));
}

#[test]
fn the_workspace_menu_leads_where_its_rows_say() {
    let mut app = app_with(BackendKind::Zephyr);
    app.panels.build = Some(BuildPanel::new("/work/app".to_string()));
    app.panels.workspace = Some(WorkspacePanel {
        dir: Some("/opt/zephyr".to_string()),
        ..WorkspacePanel::new()
    });
    app.overlay = Some(Overlay::ZephyrActions { selected: 0 });
    app.handle(key(KeyCode::Enter));
    assert_eq!(
        app.overlay,
        Some(Overlay::ConfirmBuild { action: BuildAction::UpdateZephyr, confirm: false })
    );
    app.overlay = Some(Overlay::ZephyrActions { selected: 1 });
    app.handle(key(KeyCode::Enter));
    assert_eq!(
        app.take_effects(),
        vec![Effect::Text(
            TextTask::InspectInstallDir { toolchains: true },
            "/opt/zephyr".to_string()
        )]
    );
    app.overlay = Some(Overlay::ZephyrActions { selected: 2 });
    app.handle(key(KeyCode::Enter));
    assert_eq!(app.overlay, Some(Overlay::BuildDashboard));
    app.overlay = Some(Overlay::ZephyrActions { selected: 3 });
    app.handle(key(KeyCode::Down));
    assert_eq!(app.overlay, Some(Overlay::ZephyrActions { selected: 0 }));
}

#[test]
fn the_build_directory_is_typed_or_picked() {
    let mut app = app_with(BackendKind::Zephyr);
    app.panels.build = Some(BuildPanel::new("/work/app".to_string()));
    app.panels.lists.build_dirs = vec!["build".to_string(), "build_debug".to_string()];
    app.overlay = Some(Overlay::BuildDirPicker { input: String::new(), selected: 1 });
    for c in "BUG".chars() {
        app.handle(key(KeyCode::Char(c)));
    }
    assert_eq!(
        app.overlay,
        Some(Overlay::BuildDirPicker { input: "BUG".to_string(), selected: 0 })
    );
    app.handle(key(KeyCode::Enter));
    assert_eq!(
        app.take_effects(),
        vec![Effect::Text(TextTask::SetBuildDir(0), "BUG".to_string())]
    );
}

#[test]
fn the_pickers_details_take_the_arrows_and_nothing_else() {
    let mut app = app_with(BackendKind::Zephyr);
    app.panels.build = Some(BuildPanel::new("/work/app".to_string()));
    app.panels.lists.boards = vec!["a1".to_string(), "a2".to_string(), "b1".to_string()];
    app.open_board_picker();
    let at = |input: &str, selected: usize, scroll: u16, focus: DocsFocus| {
        Some(Overlay::BoardPicker { input: input.to_string(), selected, scroll, focus })
    };
    app.handle(key(KeyCode::Up));
    assert_eq!(app.overlay, at("", 2, 0, DocsFocus::List));
    app.handle(key(KeyCode::Tab));
    app.handle(key(KeyCode::Down));
    app.handle(key(KeyCode::Down));
    app.handle(key(KeyCode::Up));
    assert_eq!(app.overlay, at("", 2, 1, DocsFocus::Details));
    app.handle(key(KeyCode::Char('A')));
    assert_eq!(app.overlay, at("A", 1, 0, DocsFocus::Details));
    app.handle(key(KeyCode::Backspace));
    app.drawn.docs_viewport = 9;
    app.handle(key(KeyCode::PageDown));
    assert_eq!(app.overlay, at("", 1, 9, DocsFocus::Details));
}

#[test]
fn a_held_port_refuses_requests() {
    let mut app = micropython();
    app.monitor.run = Some(1);
    app.request_browser(BrowserRequest::Sync);
    assert_eq!(
        last_line(&app).1,
        "a script is running — wait for it to finish first".to_string()
    );
    app.monitor.run = None;
    app.chain.probe = Some(1);
    app.request_browser(BrowserRequest::Sync);
    assert_eq!(
        last_line(&app).1,
        "still checking the device — try again in a moment".to_string()
    );
    app.chain.probe = None;
    app.flash = Some(FlashPanel { busy: true, ..FlashPanel::new() });
    app.request_browser(BrowserRequest::Sync);
    assert_eq!(last_line(&app).1, "reading device info — try again in a moment".to_string());
    assert!(app.take_effects().is_empty());
}

#[test]
fn sending_and_deleting_are_asked_about() {
    let mut app = micropython();
    app.run_file_action(Side::Local, "a.py", false, FileAction::SendToDevice);
    assert_eq!(
        app.overlay,
        Some(Overlay::ConfirmUpload { name: "a.py".to_string(), is_dir: false, confirm: false })
    );
    app.run_file_action(Side::Device, "lib", true, FileAction::Delete);
    assert_eq!(
        app.overlay,
        Some(Overlay::ConfirmDelete {
            side: Side::Device,
            name: "lib".to_string(),
            is_dir: true,
            confirm: false,
        })
    );
    assert!(app.take_effects().is_empty());
    app.delete_file(Side::Device, "lib", true);
    app.run_file_action(Side::Device, "lib", true, FileAction::Download);
    assert_eq!(
        app.take_effects(),
        vec![
            Effect::Text(TextTask::RemoveDirOnDevice { port: None }, "lib".to_string()),
            Effect::Text(TextTask::DownloadDir { port: None }, "lib".to_string()),
        ]
    );
}

#[test]
fn a_trailing_slash_creates_a_directory() {
    let mut app = micropython();
    app.create_entry(Side::Local, "  notes.txt ");
    app.create_entry(Side::Local, "lib//");
    app.create_entry(Side::Device, "data/");
    app.create_entry(Side::Device, "boot.py");
    assert_eq!(
        app.take_effects(),
        vec![
            Effect::Text(TextTask::CreateFile, "/work/blink/notes.txt".to_string()),
            Effect::Text(TextTask::CreateDir, "/work/blink/lib".to_string()),
            Effect::Text(TextTask::MakeDirOnDevice { port: None }, "data".to_string()),
            Effect::Text(TextTask::TouchOnDevice { port: None }, "boot.py".to_string()),
        ]
    );
    app.create_entry(Side::Local, " / ");
    assert_eq!(last_line(&app), (Level::Warn, "type a name first".to_string()));
    app.entry_created("/work/blink/lib", Err("exists".to_string()));
    assert_eq!(
        last_line(&app),
        (Level::Error, "/work/blink/lib: create failed: exists".to_string())
    );
    app.entry_created("/work/blink/lib", Ok(()));
    assert_eq!(last_line(&app), (Level::Success, "/work/blink/lib created".to_string()));
    app.entry_removed("/work/blink/lib", Ok(()));
    assert_eq!(last_line(&app), (Level::Success, "/work/blink/lib removed".to_string()));
}

#[test]
fn a_rename_stays_in_its_directory() {
    let mut app = micropython();
    app.rename_entry("a.py", "b/c.py");
    assert_eq!(
        last_line(&app),
        (
            Level::Warn,
            "rename stays in this directory (a name, not a path)".to_string()
        )
    );
    let lines = app.logs.len();
    app.rename_entry("a.py", " a.py ");
    assert_eq!(app.logs.len(), lines);
    assert!(app.take_effects().is_empty());
    app.rename_entry("a.py", "b.py/");
    assert_eq!(
        app.take_effects(),
        vec![Effect::Pair(
            PairTask::Rename,
            "/work/blink/a.py".to_string(),
            "/work/blink/b.py".to_string(),
        )]
    );
}

#[test]
fn the_viewer_keeps_its_page_full() {
    let mut app = micropython();
    let text: String = (0..10).map(|i| format!("line {i}\n")).collect();
    app.file_read("/work/blink/a.txt".to_string(), Ok(text));
    assert_eq!(app.overlay, Some(Overlay::FileViewer));
    app.drawn.viewer_viewport = 4;
    app.handle(key(KeyCode::End));
    assert_eq!(app.desk.viewer.as_ref().unwrap().scroll, 6);
    app.handle(key(KeyCode::PageDown));
    assert_eq!(app.desk.viewer.as_ref().unwrap().scroll, 6);
    app.handle(key(KeyCode::PageUp));
    app.handle(key(KeyCode::Up));
    assert_eq!(app.desk.viewer.as_ref().unwrap().scroll, 1);
    app.handle(key(KeyCode::Home));
    assert_eq!(app.desk.viewer.as_ref().unwrap().scroll, 0);
    app.handle(key(KeyCode::Char('e')));
    assert_eq!(
        app.take_pending_edit(),
        Some(PendingEdit { path: "/work/blink/a.txt".to_string(), device_target: None })
    );
    assert_eq!(app.take_pending_edit(), None);
    assert_eq!(app.overlay, None);
}

#[test]
fn contents_for_another_file_are_dropped() {
    let mut app = micropython();
    app.open_device_file_viewer("main.py");
    let state = |app: &App| app.desk.viewer.as_ref().map(|v: &FileViewer| v.state.clone());
    let reply = |path: &str, content: Result<String, String>| DeviceView {
        path: path.to_string(),
        content,
    };
    app.apply_device_view(reply("/boot.py", Ok("x".to_string())));
    assert_eq!(state(&app), Some(ViewerState::Loading));
    app.apply_device_view(reply("/main.py", Ok("a\nb".to_string())));
    assert_eq!(
        state(&app),
        Some(ViewerState::Ready { lines: vec!["a".to_string(), "b".to_string()] })
    );
    app.open_device_file_viewer("main.py");
    app.apply_device_view(reply("/main.py", Err("gone".to_string())));
    assert!(matches!(state(&app), Some(ViewerState::Error(_))));
}

#[test]
fn a_large_device_file_is_not_previewed() {
    let mut app = micropython();
    app.panels.lists.device_entries =
        vec![DeviceEntry { name: "log.bin".to_string(), size: Some(3 * 1048576) }];
    app.open_device_file_viewer("log.bin");
    assert_eq!(app.overlay, None);
    assert_eq!(
        last_line(&app),
        (
            Level::Warn,
            "/log.bin: too large to preview (3 MiB) --- use 'Download' or 'Edit' instead"
                .to_string()
        )
    );
    app.open_diff("log.bin");
    assert_eq!(
        last_line(&app).1,
        "/log.bin: too large to diff (3 MiB) --- use 'Download' or 'Edit' instead".to_string()
    );
}

#[test]
fn a_diff_shows_both_ends() {
    let mut app = micropython();
    app.open_diff("main.py");
    let viewer = app.desk.viewer.as_ref().unwrap();
    assert_eq!(
        viewer.source,
        ViewerSource::Diff {
            local: "/work/blink/main.py".to_string(),
            device: DevicePath { text: "/main.py".to_string(), name: "main.py".to_string() },
        }
    );
    assert_eq!(viewer.display_name(), "Diff: main.py  (local ↔ device)");
    assert_eq!(
        app.take_effects(),
        vec![Effect::Text(TextTask::ViewOnDevice { port: None }, "main.py".to_string())]
    );
}

#[test]
fn a_run_shows_in_the_monitor_and_can_be_saved() {
    let mut app = micropython();
    app.open_run_session("main.py");
    assert_eq!(
        app.take_effects(),
        vec![Effect::Text(
            TextTask::SpawnRun { port: None },
            "/work/blink/main.py".to_string()
        )]
    );
    assert_eq!(app.monitor.run_state, RunState::Running);
    assert_eq!(app.monitor.source, MonitorSource::Run);
    assert!(app.is_run_view());
    app.run_spawned(Ok(9));
    assert!(app.is_run_active());
    app.save_run_output();
    assert_eq!(last_line(&app), (Level::Warn, "no run output to save".to_string()));
    app.take_effects();
    let before = time::OffsetDateTime::now_utc();
    for text in ["hello", "world"] {
        let mut line = RunLine::blank();
        assert!(line.timestamp >= before);
        line.text = text.to_string();
        assert_eq!(line.text(), text);
        app.desk.run_output.push(line);
    }
    app.save_run_output();
    match &app.take_effects()[0] {
        Effect::Pair(PairTask::SaveText, dest, text) => {
            assert_eq!(dest, "/work/blink/main.output.txt");
            assert_eq!(text.lines().collect::<Vec<_>>(), vec!["hello", "world"]);
        }
        other => panic!("unexpected effect {other:?}"),
    }
}

#[test]
fn a_run_is_refused_while_the_device_is_taken() {
    let mut app = micropython();
    app.panels.browser.as_mut().unwrap().busy = true;
    app.open_run_session("main.py");
    assert_eq!(
        last_line(&app).1,
        "device is busy — wait for the current operation to finish".to_string()
    );
    let browser = app.panels.browser.as_mut().unwrap();
    browser.busy = false;
    browser.held = true;
    app.open_run_session("main.py");
    assert_eq!(
        last_line(&app).1,
        "a script is running — answer the interrupt prompt first".to_string()
    );
    app.panels.browser.as_mut().unwrap().held = false;
    app.monitor.device = Some(3);
    app.open_run_session("main.py");
    assert_eq!(
        last_line(&app).1,
        "close the monitor/REPL before running a script".to_string()
    );
    app.monitor.device = None;
    app.chain.version_capture = Some(3);
    app.open_run_session("main.py");
    assert_eq!(
        last_line(&app).1,
        "reading the firmware version — wait for it to finish".to_string()
    );
    assert!(app.take_effects().is_empty());
}

#[test]
fn an_edited_device_file_goes_back_and_offers_a_restart() {
    let mut app = micropython();
    let source = DevicePath { text: "/main.py".to_string(), name: "main.py".to_string() };
    app.apply_transfer(Transfer {
        kind: TransferKind::Download {
            local_path: "/tmp/main.py".to_string(),
            then_edit: true,
            source: source.clone(),
        },
        ok: true,
    });
    assert_eq!(
        app.take_pending_edit(),
        Some(PendingEdit { path: "/tmp/main.py".to_string(), device_target: Some(source) })
    );
    app.apply_transfer(Transfer { kind: TransferKind::Upload { after_edit: true }, ok: false });
    assert_eq!(app.overlay, None);
    app.apply_transfer(Transfer { kind: TransferKind::Upload { after_edit: true }, ok: true });
    assert_eq!(app.overlay, Some(Overlay::ConfirmRestartDevice { confirm: false }));
}

#[test]
fn an_entrys_menu_opens_on_its_facts() {
    let mut app = micropython();
    app.panels.browser.as_mut().unwrap().local_selected = Some(SelectedEntry {
        name: "lib".to_string(),
        is_dir: true,
        is_text: false,
        status: None,
    });
    app.screen.focus = Focus::FilesLocal;
    app.handle(key(KeyCode::Enter));
    assert_eq!(
        app.overlay,
        Some(Overlay::FileActions {
            side: Side::Local,
            name: "lib".to_string(),
            is_dir: true,
            is_text: false,
            status: None,
            selected: 0,
        })
    );
    app.handle(key(KeyCode::Right));
    assert_eq!(app.overlay, None);
    assert_eq!(
        app.take_effects(),
        vec![Effect::Task(Task::Dispatch { request: BrowserRequest::Enter, port: None })]
    );
}

#[test]
fn a_destructive_flash_action_quotes_its_command() {
    let mut app = micropython();
    app.flash = Some(FlashPanel::new());
    app.trigger_flash_action(FlashAction::EraseFlash);
    assert_eq!(
        app.take_effects(),
        vec![Effect::Task(Task::PreviewFlash {
            action: FlashAction::EraseFlash,
            port: None,
        })]
    );
    app.flash_previewed(FlashAction::EraseFlash, Some("no port".to_string()), None);
    assert_eq!(last_line(&app), (Level::Warn, "no port".to_string()));
    app.flash_previewed(FlashAction::EraseFlash, None, None);
    assert_eq!(
        app.overlay,
        Some(Overlay::Confirm {
            message: "(command unavailable)".to_string(),
            confirm: false,
        })
    );
    assert!(app.take_effects().is_empty());
    app.handle(key(KeyCode::Enter));
    assert_eq!(app.flash.as_ref().unwrap().pending, None);
    app.flash_previewed(FlashAction::EraseFlash, None, Some("esptool erase_flash".to_string()));
    app.handle(key(KeyCode::Char('y')));
    assert_eq!(
        app.take_effects(),
        vec![Effect::Task(Task::RunFlash { action: FlashAction::EraseFlash, port: None })]
    );
    app.flash_previewed(FlashAction::ChipInfo, None, None);
    assert_eq!(
        app.take_effects(),
        vec![Effect::Task(Task::RunFlash { action: FlashAction::ChipInfo, port: None })]
    );
}

#[test]
fn a_write_looks_for_firmware_first() {
    let mut app = micropython();
    app.flash = Some(FlashPanel::new());
    app.trigger_flash_action(FlashAction::WriteFlash);
    assert_eq!(
        app.take_effects(),
        vec![Effect::Task(Task::DiscoverFirmware { wanted: Some(FlashAction::WriteFlash) })]
    );
    app.panels.lists.pane_actions = vec![
        FlashPaneAction::SearchOnline,
        FlashPaneAction::Run(FlashAction::WriteFlash),
    ];
    app.flash.as_mut().unwrap().firmware_count = 2;
    app.offer_flash_after_erase();
    assert_eq!(app.overlay, Some(Overlay::FirmwarePicker { selected: 0 }));
    assert_eq!(app.flash.as_ref().unwrap().pane_cursor, 1);
    assert_eq!(app.screen.view, View::Flash);
    app.handle(key(KeyCode::Down));
    app.handle(key(KeyCode::Enter));
    let flash = app.flash.as_ref().unwrap();
    assert!(flash.firmware_selected);
    assert_eq!(flash.screen, FlashScreen::Options);
    assert_eq!(flash.options_focus, OptionsField::Chip);
    assert_eq!(app.take_effects(), vec![Effect::Task(Task::SelectFirmware(1))]);
}

#[test]
fn a_search_needs_a_known_chip() {
    let mut app = micropython();
    app.flash = Some(FlashPanel::new());
    app.search_online(false);
    assert_eq!(
        last_line(&app),
        (
            Level::Warn,
            "no chip known yet --- connect the board or pick one in Options first".to_string()
        )
    );
    app.flash.as_mut().unwrap().mcu = Some("esp32".to_string());
    app.search_online(true);
    assert_eq!(
        app.take_effects(),
        vec![Effect::Task(Task::SearchOnline { mcu: "esp32".to_string(), dialog: true })]
    );
    let note = |level: Level, text: &str| LogLine { level, text: text.to_string() };
    app.online_search_answered(
        &vec![note(Level::Info, "2 files"), note(Level::Error, "unreadable")],
        &Vec::new(),
        FlashScreen::OnlineBoards,
        Some("https://micropython.org".to_string()),
        "esp32",
        true,
    );
    let lines = app.logs.len();
    assert_eq!(app.logs.line(lines - 2).unwrap().text, "unreadable");
    assert_eq!(
        last_line(&app),
        (
            Level::Info,
            "searching https://micropython.org for esp32 firmware".to_string()
        )
    );
    assert_eq!(app.screen.view, View::Flash);
}

#[test]
fn a_typed_url_is_downloaded_over_nothing_unasked() {
    let mut app = micropython();
    app.flash = Some(FlashPanel { screen: FlashScreen::CustomUrl, ..FlashPanel::new() });
    app.screen.view = View::Flash;
    app.handle(key(KeyCode::Enter));
    assert_eq!(last_line(&app), (Level::Warn, "type or paste a URL first".to_string()));
    for c in " http://x/f.bin".chars() {
        app.handle(key(KeyCode::Char(c)));
    }
    app.handle(key(KeyCode::Enter));
    assert_eq!(
        app.take_effects(),
        vec![Effect::Text(TextTask::RequestDownload, "http://x/f.bin".to_string())]
    );
    app.download_resolved("http://x/".to_string(), None, false);
    assert_eq!(
        last_line(&app),
        (Level::Warn, "cannot determine a filename from that URL".to_string())
    );
    app.download_resolved("http://x/f.bin".to_string(), Some("f.bin".to_string()), true);
    assert_eq!(
        app.overlay,
        Some(Overlay::ConfirmDownloadOverwrite {
            url: "http://x/f.bin".to_string(),
            dest: "f.bin".to_string(),
            confirm: false,
        })
    );
    app.handle(key(KeyCode::Char('y')));
    assert_eq!(
        app.take_effects(),
        vec![Effect::Pair(
            PairTask::StartDownload,
            "http://x/f.bin".to_string(),
            "f.bin".to_string(),
        )]
    );
}

#[test]
fn the_focus_walk_keeps_its_laws() {
    let mut app = micropython();
    app.screen.focus = Focus::FilesLocal;
    let order = app.focus_order();
    assert_eq!(order.last(), Some(&Focus::Logs));
    for focus in &order {
        app.screen.focus = *focus;
        app.step_focus(true);
        assert!(order.contains(&app.screen.focus));
        app.step_focus(false);
        assert_eq!(app.screen.focus, *focus);
        if let Some(number) = app.pane_number(*focus) {
            assert_eq!(app.pane_for_number(number), Some(*focus));
        }
    }
    app.screen.focus = Focus::Build;
    app.clamp_focus();
    assert!(order.contains(&app.screen.focus));
}

#[test]
fn fullscreen_is_toggled_before_any_session() {
    let mut app = micropython();
    app.monitor.device = Some(4);
    app.screen.focus = Focus::Logs;
    app.screen.log_tab = LogTab::Monitor;
    app.monitor.source = MonitorSource::Device;
    assert!(app.is_monitor_active());
    app.handle(control(KeyCode::Char('f')));
    assert!(app.screen.row3_fullscreen);
    assert!(app.take_effects().is_empty());
    app.handle(control(KeyCode::Char('F')));
    assert!(!app.screen.row3_fullscreen);
}

#[test]
fn running_commands_guard_the_way_home() {
    let mut app = micropython();
    app.pending.commands_running = 1;
    app.handle(key(KeyCode::Char('P')));
    assert_eq!(app.overlay, Some(Overlay::ConfirmSwitchProject { confirm: false }));
    assert!(!app.pending.switch_requested);
    app.handle(key(KeyCode::Char('y')));
    assert!(app.pending.switch_requested);
    let mut app = micropython();
    app.handle(key(KeyCode::Char('P')));
    assert!(app.pending.switch_requested);
}
