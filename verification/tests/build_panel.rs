use chiptui::app::address_capture::AddressCapture;
use chiptui::app::build_dashboard_view::rows_per_page;
use chiptui::app::build_view::{Composed, PickedProject};
use chiptui::app::events::AppEvent;
use chiptui::app::install_view::InstallUpdate;
use chiptui::app::keys::KeyInput;
use chiptui::app::launch::Launch;
use chiptui::app::monitor_view::MonitorSource;
use chiptui::app::ota_view::OtaUpdate;
use chiptui::app::tools::ToolPath;
use chiptui::app::{App, DocsFocus, Focus, Glyphs, LogTab};
use chiptui::backend::BackendKind;
use chiptui::effect::{Effect, PairTask, Task, TextTask};
use chiptui::input::{KeyCode, KeyEvent, KeyModifiers};
use chiptui::logs::Level;
use chiptui::overlay::Overlay;
use chiptui::panels::{
    filtered_names, variant_index_for, BuildAction, BuildKind, BuildPanel, InstallAction,
    Installer, OtaAction, OtaConfirm, OtaPanel, Variant, WorkspacePanel,
};

/// A Zephyr session with a buildable project on its panel.
fn zephyr() -> App {
    let mut app = App::new(Launch {
        start_dir: "/work/app".to_string(),
        home_dir: "/home/someone".to_string(),
        config_dir: "/home/someone/.config".to_string(),
        theme: None,
        icons: None,
        glyphs: Glyphs {
            list: String::new(),
            screen: String::new(),
            prompt: String::new(),
            bolt: String::new(),
            folder: String::new(),
            dashboard: "◫".to_string(),
        },
        dashboard_labels: vec!["Memory".to_string(), "Symbols".to_string()],
        memory_tab: 0,
        max_view_bytes: 65536,
    });
    app.project.manager.set_override(Some(BackendKind::Zephyr));
    app.panels.build = Some(BuildPanel {
        buildable: true,
        lifecycle_ready: true,
        ..BuildPanel::new("/work/app".to_string())
    });
    app.panels.workspace = Some(WorkspacePanel {
        dir: Some("/opt/zephyr".to_string()),
        projects: Some("/work".to_string()),
        ..WorkspacePanel::new()
    });
    app.panels.lists.build_actions = vec![
        BuildAction::Build(BuildKind::Build),
        BuildAction::Build(BuildKind::Clean),
        BuildAction::Flash,
    ];
    app.take_effects();
    app
}

fn key(code: KeyCode) -> AppEvent {
    AppEvent::Key(KeyInput { key: KeyEvent::plain(code), shell_bytes: None, claimed: false })
}

fn last_line(app: &App) -> (Level, String) {
    let line = app.logs.line(app.logs.len() - 1).expect("the log holds a line");
    (line.level, line.text.clone())
}

fn variant(name: &str, simulator: bool) -> Variant {
    Variant { name: name.to_string(), simulator }
}

#[test]
fn a_busy_panel_starts_no_second_command() {
    let mut app = zephyr();
    app.panels.build.as_mut().unwrap().busy = true;
    assert!(!app.build_action_enabled(BuildAction::Build(BuildKind::Build)));
    assert!(app.build_action_enabled(BuildAction::Stop));
    app.run_build_action(BuildAction::Build(BuildKind::Build));
    assert!(app.take_effects().is_empty());
    assert_eq!(
        last_line(&app),
        (Level::Warn, "a build command is already running — stop it first".to_string())
    );
    app.run_build_action(BuildAction::Stop);
    assert_eq!(app.take_effects(), vec![Effect::Task(Task::StopBuild)]);
}

#[test]
fn cleaning_and_flashing_are_asked_about() {
    let mut app = zephyr();
    for action in [BuildAction::Build(BuildKind::Clean), BuildAction::Flash] {
        app.overlay = None;
        app.run_build_action(action);
        assert_eq!(app.overlay, Some(Overlay::ConfirmBuild { action, confirm: false }));
        assert!(app.take_effects().is_empty());
    }
    app.handle(key(KeyCode::Char('y')));
    assert_eq!(app.overlay, None);
    assert_eq!(app.take_effects(), vec![Effect::Task(Task::StartBuild(BuildAction::Flash))]);
}

#[test]
fn no_command_runs_where_there_is_no_application() {
    let mut app = zephyr();
    app.panels.build.as_mut().unwrap().buildable = false;
    app.run_build_action(BuildAction::Menuconfig);
    assert_eq!(
        last_line(&app),
        (
            Level::Warn,
            "menuconfig: /work/app is not a Zephyr application (no CMakeLists.txt) — pick a \
             project first"
                .to_string()
        )
    );
    assert_eq!(
        app.overlay,
        Some(Overlay::ProjectPicker { mpy: false, selected: 0, error: None })
    );
    assert!(app.take_effects().is_empty());
}

#[test]
fn a_build_asks_where_only_when_there_is_a_choice() {
    let mut app = zephyr();
    app.run_build_action(BuildAction::Build(BuildKind::Build));
    assert_eq!(
        app.take_effects(),
        vec![Effect::Task(Task::StartBuild(BuildAction::Build(BuildKind::Build)))]
    );
    app.panels.lists.variants = vec![variant("esp32", false), variant("native_sim", true)];
    let panel = app.panels.build.as_mut().unwrap();
    panel.offers_build_choice = true;
    panel.remembered_simulator = true;
    app.run_build_action(BuildAction::Build(BuildKind::Build));
    assert_eq!(
        app.overlay,
        Some(Overlay::BuildTarget { kind: BuildKind::Build, selected: 1 })
    );
    assert!(app.take_effects().is_empty());
    app.handle(key(KeyCode::Up));
    app.handle(key(KeyCode::Enter));
    assert_eq!(
        app.take_effects(),
        vec![
            Effect::Task(Task::SelectVariant(0)),
            Effect::Task(Task::PersistTarget {
                root: "/work/app".to_string(),
                board: None,
                shield: None,
                variant: Some("esp32".to_string()),
            }),
            Effect::Task(Task::StartBuild(BuildAction::Build(BuildKind::Build))),
        ]
    );
    assert!(!app.panels.build.as_ref().unwrap().remembered_simulator);
}

#[test]
fn a_started_build_shows_in_the_monitor() {
    let mut app = zephyr();
    app.build_composed(
        BuildAction::Build(BuildKind::Clean),
        Composed::Started("west build -t clean".to_string()),
    );
    assert!(app.is_build_busy());
    assert_eq!(app.screen.focus, Focus::Build);
    assert_eq!(app.screen.log_tab, LogTab::Monitor);
    assert_eq!(app.monitor.source, MonitorSource::Build);
    assert_eq!(last_line(&app), (Level::Info, "running west build -t clean".to_string()));
    // After a clean the cursor waits on the build.
    assert_eq!(app.panels.build.as_ref().unwrap().cursor, 0);
    app.build_composed(BuildAction::Flash, Composed::Started("west flash".to_string()));
    assert_eq!(app.screen.focus, Focus::Logs);
}

#[test]
fn a_command_that_cannot_be_composed_says_so() {
    let mut app = zephyr();
    app.build_composed(BuildAction::Run, Composed::NoCommand);
    assert_eq!(
        last_line(&app),
        (Level::Warn, "Run: this backend offers no such action".to_string())
    );
    let lines = app.logs.len();
    app.build_composed(BuildAction::Flash, Composed::Refused);
    assert_eq!(app.logs.len(), lines);
    assert!(!app.is_build_busy());
    app.menuconfig_composed(None);
    assert_eq!(
        last_line(&app),
        (Level::Warn, "menuconfig: this backend offers no such action".to_string())
    );
    app.menuconfig_composed(Some("west build -t menuconfig".to_string()));
    assert_eq!(app.take_pending_command().as_deref(), Some("west build -t menuconfig"));
    assert_eq!(app.take_pending_command(), None);
}

#[test]
fn a_memory_report_needs_an_installation() {
    let mut app = zephyr();
    app.start_size_report();
    assert_eq!(
        app.take_effects(),
        vec![Effect::Task(Task::ComposeReport { installation: "/opt/zephyr".to_string() })]
    );
    app.report_composed(Ok(()));
    assert_eq!(
        app.take_effects(),
        vec![Effect::Task(Task::StartBuild(BuildAction::SizeReport))]
    );
    app.panels.workspace.as_mut().unwrap().dir = None;
    app.start_size_report();
    assert!(app.take_effects().is_empty());
    assert_eq!(
        last_line(&app),
        (
            Level::Warn,
            "no Zephyr installation resolved --- the memory report needs one".to_string()
        )
    );
}

#[test]
fn a_memory_report_is_composed_before_the_slot_is_asked_about() {
    let mut app = zephyr();
    app.panels.build.as_mut().unwrap().busy = true;
    app.start_size_report();
    assert_eq!(
        app.take_effects(),
        vec![Effect::Task(Task::ComposeReport { installation: "/opt/zephyr".to_string() })]
    );
    app.report_composed(Err("no ELF".to_string()));
    assert_eq!(last_line(&app), (Level::Warn, "memory report: no ELF".to_string()));
    app.report_composed(Ok(()));
    assert_eq!(
        last_line(&app),
        (Level::Warn, "a build command is already running — stop it first".to_string())
    );
    assert!(app.take_effects().is_empty());
    app.panels.build = None;
    app.start_size_report();
    assert!(app.take_effects().is_empty());
}

#[test]
fn the_board_filter_ignores_case() {
    let names: Vec<String> =
        ["esp32_devkitc", "ESP32S3", "nrf52840dk"].iter().map(|n| n.to_string()).collect();
    assert_eq!(filtered_names(&names, "Esp32"), vec!["esp32_devkitc", "ESP32S3"]);
    assert_eq!(filtered_names(&names, ""), names);
    assert!(filtered_names(&names, "stm").is_empty());
}

#[test]
fn picking_a_board_keeps_it_for_the_project() {
    let mut app = zephyr();
    app.panels.lists.boards = vec!["esp32".to_string(), "nrf52840dk".to_string()];
    app.open_board_picker();
    assert_eq!(
        app.take_effects(),
        vec![
            Effect::Text(TextTask::EnsureDocsIndex, "latest".to_string()),
            Effect::Task(Task::FetchBoards),
        ]
    );
    for c in "NRF".chars() {
        app.handle(key(KeyCode::Char(c)));
    }
    app.take_effects();
    app.handle(key(KeyCode::Enter));
    assert_eq!(app.overlay, None);
    assert_eq!(app.panels.build.as_ref().unwrap().board.as_deref(), Some("nrf52840dk"));
    assert_eq!(
        app.take_effects(),
        vec![
            Effect::Text(TextTask::SetBoard, "nrf52840dk".to_string()),
            Effect::Task(Task::PersistTarget {
                root: "/work/app".to_string(),
                board: Some("nrf52840dk".to_string()),
                shield: None,
                variant: None,
            }),
        ]
    );
    app.target_saved("/work/app/chiptui.toml", Err("read-only".to_string()));
    assert_eq!(
        last_line(&app),
        (
            Level::Warn,
            "could not save the target answer in /work/app/chiptui.toml: read-only".to_string()
        )
    );
}

#[test]
fn the_first_shield_row_clears_the_shield() {
    let mut app = zephyr();
    app.panels.lists.shields = vec!["ssd1306".to_string()];
    app.apply_shield_picker("", 1);
    assert_eq!(app.panels.build.as_ref().unwrap().shield.as_deref(), Some("ssd1306"));
    app.apply_shield_picker("", 0);
    assert_eq!(app.panels.build.as_ref().unwrap().shield, None);
    assert_eq!(last_line(&app), (Level::Info, "shield cleared".to_string()));
    app.take_effects();
    app.apply_shield_picker("", 2);
    assert!(app.take_effects().is_empty());
}

#[test]
fn the_documentation_follows_the_cursor() {
    let mut app = zephyr();
    app.panels.lists.shields = vec!["ssd1306".to_string()];
    app.overlay = Some(Overlay::ShieldPicker {
        input: String::new(),
        selected: 1,
        scroll: 0,
        focus: DocsFocus::List,
    });
    app.drive_docs_selection();
    app.overlay = None;
    app.drive_docs_selection();
    assert_eq!(
        app.take_effects(),
        vec![
            Effect::Text(TextTask::DriveShieldDocs, "ssd1306".to_string()),
            Effect::Task(Task::DriveDocs),
        ]
    );
}

#[test]
fn a_project_row_re_roots_or_says_why_not() {
    let mut app = zephyr();
    app.apply_project_picker(1);
    assert_eq!(
        app.take_effects(),
        vec![Effect::Text(TextTask::ApplyProject(1), "/work".to_string())]
    );
    app.project_listed(1, None, None);
    assert_eq!(
        app.overlay,
        Some(Overlay::ProjectPicker {
            mpy: false,
            selected: 1,
            error: Some("nothing to pick".to_string()),
        })
    );
    let row = |buildable: bool| PickedProject {
        name: "other".to_string(),
        path: "/work/other".to_string(),
        buildable,
    };
    app.project_listed(1, Some(row(false)), None);
    assert_eq!(
        app.overlay,
        Some(Overlay::ProjectPicker {
            mpy: false,
            selected: 1,
            error: Some(
                "other has no CMakeLists.txt — west build cannot run there".to_string()
            ),
        })
    );
    app.project_listed(1, Some(row(true)), None);
    assert_eq!(app.overlay, None);
    assert_eq!(app.panels.build.as_ref().unwrap().root, "/work/other");
    assert_eq!(
        app.panels.workspace.as_ref().unwrap().files_path.as_deref(),
        Some("/work/other")
    );
    let asked = Effect::Task(Task::ReadProjectAnswers { root: "/work/other".to_string() });
    assert_eq!(app.take_effects().last(), Some(&asked));
}

#[test]
fn a_project_brings_its_own_answers() {
    let mut app = zephyr();
    let panel = app.panels.build.as_mut().unwrap();
    panel.board = Some("esp32".to_string());
    panel.shield = Some("display".to_string());
    app.set_project_root("/work/other".to_string());
    app.take_effects();
    app.project_answers(Some("nrf52".to_string()), None);
    let panel = app.panels.build.as_ref().unwrap();
    assert_eq!(panel.board.as_deref(), Some("nrf52"));
    assert_eq!(panel.shield.as_deref(), Some("display"));
    assert_eq!(
        app.take_effects(),
        vec![Effect::Text(TextTask::SetConfigBoard, "nrf52".to_string())]
    );
    app.project_answers(None, Some("radio".to_string()));
    let panel = app.panels.build.as_ref().unwrap();
    assert_eq!(panel.board.as_deref(), Some("nrf52"));
    assert_eq!(panel.shield.as_deref(), Some("radio"));
    assert_eq!(
        app.take_effects(),
        vec![Effect::Text(TextTask::SetShield, "radio".to_string())]
    );
    app.panels.build = None;
    app.project_answers(Some("a".to_string()), Some("b".to_string()));
    assert!(app.take_effects().is_empty());
}

#[test]
fn a_saved_variant_seeds_the_question() {
    let mut app = zephyr();
    let variants = vec![variant("native_sim", true), variant("esp32", false)];
    assert_eq!(variant_index_for(&variants, false), Some(1));
    app.variants_listed(variants, Some("native_sim".to_string()));
    let panel = app.panels.build.as_ref().unwrap();
    assert!(panel.remembered_simulator);
    assert_eq!(panel.variant, Some(1));
}

fn installer(action: InstallAction) -> Installer {
    Installer {
        dir: "/opt/z".to_string(),
        nested: true,
        busy: false,
        action,
        can_start: true,
        prereqs_ready: true,
        complete: false,
        next_command: None,
        manifest_url: "https://example.org/zephyr".to_string(),
        failed_step: None,
        sdk: None,
    }
}

fn installing(action: InstallAction) -> App {
    let mut app = zephyr();
    app.panels.installer = Some(installer(action));
    app.overlay = Some(Overlay::ZephyrInstall);
    app
}

#[test]
fn a_running_installation_keeps_its_window() {
    let mut app = installing(InstallAction::Stop);
    app.panels.installer.as_mut().unwrap().busy = true;
    app.handle(key(KeyCode::Esc));
    assert_eq!(app.overlay, Some(Overlay::ZephyrInstall));
    app.panels.installer.as_mut().unwrap().busy = false;
    app.handle(key(KeyCode::Esc));
    assert_eq!(app.overlay, None);
}

#[test]
fn installing_quotes_its_first_command_and_asks() {
    let mut app = installing(InstallAction::Install);
    app.handle(key(KeyCode::Enter));
    assert_eq!(
        app.overlay,
        Some(Overlay::Confirm {
            message: "west init -m https://example.org/zephyr .".to_string(),
            confirm: false,
        })
    );
    assert!(app.take_effects().is_empty());
    app.handle(key(KeyCode::Enter));
    assert_eq!(app.overlay, Some(Overlay::ZephyrInstall));
    assert!(app.take_effects().is_empty());
    app.handle(key(KeyCode::Enter));
    app.handle(key(KeyCode::Char('y')));
    assert_eq!(
        app.take_effects(),
        vec![Effect::Text(TextTask::CreateInstallRoot, "/opt/z/zephyr".to_string())]
    );
    app.install_root_created(Err("denied".to_string()));
    assert_eq!(
        last_line(&app),
        (Level::Error, "could not create /opt/z/zephyr: denied".to_string())
    );
    app.install_root_created(Ok(()));
    assert_eq!(app.take_effects(), vec![Effect::Task(Task::StartInstall)]);
}

#[test]
fn missing_prerequisites_stop_the_question() {
    let mut app = installing(InstallAction::Install);
    let panel = app.panels.installer.as_mut().unwrap();
    panel.can_start = false;
    panel.prereqs_ready = false;
    app.handle(key(KeyCode::Enter));
    assert_eq!(app.overlay, Some(Overlay::ZephyrInstall));
    assert_eq!(
        last_line(&app),
        (
            Level::Warn,
            "install the missing prerequisites first — the checklist names them".to_string()
        )
    );
}

#[test]
fn a_stopped_run_records_a_usable_workspace_once() {
    let mut app = installing(InstallAction::Retry);
    app.panels.installer.as_mut().unwrap().complete = true;
    let stopped = || InstallUpdate { notice: None, stopped: true, finished: false };
    app.install_on_process(stopped());
    assert_eq!(
        app.take_effects(),
        vec![Effect::Text(
            TextTask::SaveInstallation { sdk: None },
            "/opt/z/zephyr".to_string()
        )]
    );
    app.panels.workspace.as_mut().unwrap().dir = Some("/opt/z/zephyr".to_string());
    app.install_on_process(stopped());
    assert!(app.take_effects().is_empty());
}

#[test]
fn a_finished_run_is_adopted() {
    let mut app = installing(InstallAction::Stop);
    app.panels.workspace.as_mut().unwrap().projects = None;
    app.install_on_process(InstallUpdate { notice: None, stopped: false, finished: true });
    assert_eq!(app.overlay, None);
    assert!(app.panels.installer.is_none());
    assert_eq!(
        app.take_effects(),
        vec![
            Effect::Text(
                TextTask::SaveInstallation { sdk: None },
                "/opt/z/zephyr".to_string()
            ),
            Effect::Task(Task::OpenProjectsPicker),
        ]
    );
    app.installation_saved("/opt/z/zephyr", "/home/someone/.config/chiptui.toml", Ok(()), Ok(()));
    assert_eq!(
        last_line(&app),
        (
            Level::Info,
            "Zephyr installation switched from /opt/zephyr to /opt/z/zephyr".to_string()
        )
    );
}

#[test]
fn picking_a_toolchain_twice_unpicks_it() {
    let mut app = installing(InstallAction::PickToolchains);
    app.handle(key(KeyCode::Char('t')));
    app.handle(key(KeyCode::Char(' ')));
    app.handle(key(KeyCode::Down));
    app.handle(key(KeyCode::Char(' ')));
    assert_eq!(app.desk.picked, vec![0, 1]);
    app.handle(key(KeyCode::Up));
    app.handle(key(KeyCode::Char(' ')));
    assert_eq!(app.desk.picked, vec![1]);
    app.handle(key(KeyCode::Up));
    assert_eq!(app.overlay, Some(Overlay::SdkToolchains { selected: 36 }));
    app.handle(key(KeyCode::Esc));
    assert_eq!(app.overlay, Some(Overlay::ZephyrInstall));
}

#[test]
fn an_existing_workspace_is_resumed_where_it_is() {
    let mut app = zephyr();
    app.install_dir_inspected(
        "/opt/z".to_string(),
        "https://example.org/zephyr".to_string(),
        true,
        false,
        false,
    );
    assert_eq!(app.panels.installer.as_ref().unwrap().root(), "/opt/z");
    assert_eq!(last_line(&app), (Level::Info, "Zephyr installer: target /opt/z".to_string()));
    assert_eq!(app.overlay, Some(Overlay::ZephyrInstall));
}

fn open_installer_at(app: &mut App, dir: &str) {
    app.install_dir_inspected(
        dir.to_string(),
        "https://example.org/zephyr".to_string(),
        false,
        false,
        false,
    );
}

#[test]
fn a_new_installer_has_no_toolchain_picked() {
    let mut app = installing(InstallAction::PickToolchains);
    app.handle(key(KeyCode::Char('t')));
    app.handle(key(KeyCode::Char(' ')));
    assert_eq!(app.desk.picked, vec![0]);
    open_installer_at(&mut app, "/opt/y");
    assert!(app.desk.picked.is_empty());
}

fn pointed(tool: &str, program: &str) -> Effect {
    Effect::Pair(PairTask::SetInstallerTool, tool.to_string(), program.to_string())
}

#[test]
fn tools_are_kept_for_the_installer_created_later() {
    let mut app = zephyr();
    app.take_effects();
    app.set_installer_tool_path("pyenv".to_string(), "/a/pyenv".to_string());
    app.set_installer_tool_path("git".to_string(), "/a/git".to_string());
    app.set_installer_tool_path("pyenv".to_string(), "/b/pyenv".to_string());
    assert!(app.take_effects().is_empty());
    assert_eq!(
        app.desk.installer_tools,
        vec![
            ToolPath { tool: "pyenv".to_string(), program: "/b/pyenv".to_string() },
            ToolPath { tool: "git".to_string(), program: "/a/git".to_string() },
        ]
    );
    let all = vec![
        pointed("pyenv", "/b/pyenv"),
        pointed("git", "/a/git"),
        Effect::Task(Task::ProbePrerequisites),
    ];
    open_installer_at(&mut app, "/opt/z");
    assert_eq!(app.take_effects(), all);
    // The installer that is there hears of it at once, the next one too.
    app.set_installer_tool_path("git".to_string(), "/b/git".to_string());
    assert_eq!(app.take_effects(), vec![pointed("git", "/b/git")]);
    open_installer_at(&mut app, "/opt/y");
    assert!(app.take_effects().contains(&pointed("git", "/b/git")));
}

#[test]
fn the_ota_client_is_kept_for_the_panel_created_later() {
    let tool = |program: &str| Effect::Text(TextTask::SetOtaTool, program.to_string());
    let mut app = zephyr();
    app.take_effects();
    app.ota_opened(Some(ota_panel(OtaAction::Update)));
    assert_eq!(app.take_effects(), vec![Effect::Task(Task::ProbeOtaRequirements)]);
    app.panels.ota = None;
    app.set_ota_tool("/a/smpmgr".to_string());
    assert!(app.take_effects().is_empty());
    app.ota_opened(Some(ota_panel(OtaAction::Update)));
    assert_eq!(
        app.take_effects(),
        vec![tool("/a/smpmgr"), Effect::Task(Task::ProbeOtaRequirements)]
    );
    app.set_ota_tool("/b/smpmgr".to_string());
    assert_eq!(app.take_effects(), vec![tool("/b/smpmgr")]);
    assert_eq!(app.desk.ota_tool.as_deref(), Some("/b/smpmgr"));
    app.ota_opened(None);
    assert!(app.take_effects().is_empty());
}

fn ota_panel(action: OtaAction) -> OtaPanel {
    OtaPanel {
        busy: false,
        action,
        address: Some("10.0.0.7".to_string()),
        transport: 0,
        auto_confirm: false,
        root: "/work/app".to_string(),
        serves_current: true,
    }
}

fn updating(action: OtaAction) -> App {
    let mut app = zephyr();
    app.panels.build.as_mut().unwrap().board = Some("esp32".to_string());
    app.panels.ota = Some(ota_panel(action));
    app.overlay = Some(Overlay::Ota);
    app
}

#[test]
fn an_update_needs_a_project_and_a_board() {
    let mut app = zephyr();
    app.open_ota();
    assert_eq!(
        last_line(&app),
        (
            Level::Warn,
            "OTA: no board selected --- the Environment pane's Board row answers that".to_string()
        )
    );
    app.panels.build.as_mut().unwrap().board = Some("esp32".to_string());
    app.open_ota();
    assert_eq!(
        app.take_effects(),
        vec![Effect::Task(Task::OpenOta {
            root: "/work/app".to_string(),
            board: "esp32".to_string(),
        })]
    );
    app.ota_opened(None);
    assert_eq!(
        last_line(&app),
        (Level::Error, "OTA: the configured method has no driver registered".to_string())
    );
    app.panels.build = None;
    app.open_ota();
    assert_eq!(
        last_line(&app),
        (Level::Warn, "OTA: no project resolved --- pick one first".to_string())
    );
}

#[test]
fn reopening_the_update_keeps_its_panel() {
    let mut app = updating(OtaAction::ResumeVerify);
    app.overlay = None;
    app.open_ota();
    assert_eq!(app.overlay, Some(Overlay::Ota));
    assert_eq!(app.take_effects(), vec![Effect::Task(Task::RefreshOta { probe: false })]);
    assert_eq!(app.panels.ota.as_ref().unwrap().action, OtaAction::ResumeVerify);
}

#[test]
fn a_running_update_is_not_left() {
    let mut app = updating(OtaAction::Stop);
    app.panels.ota.as_mut().unwrap().busy = true;
    app.handle(key(KeyCode::Esc));
    assert_eq!(app.overlay, Some(Overlay::Ota));
    app.handle(key(KeyCode::Enter));
    assert_eq!(app.take_effects(), vec![Effect::Task(Task::StopOta)]);
}

#[test]
fn writing_to_the_board_is_asked_about() {
    for (action, what) in [
        (OtaAction::Prepare, OtaConfirm::Prepare),
        (OtaAction::Update, OtaConfirm::Update),
        (OtaAction::RetryUpdate, OtaConfirm::Update),
        (OtaAction::ConfirmImage, OtaConfirm::ConfirmImage),
    ] {
        let mut app = updating(action);
        app.handle(key(KeyCode::Enter));
        assert_eq!(app.overlay, Some(Overlay::ConfirmOta { what, confirm: false }));
        assert!(app.take_effects().is_empty());
        app.handle(key(KeyCode::Char('y')));
        assert_eq!(app.overlay, Some(Overlay::Ota));
        assert_eq!(app.take_effects(), vec![Effect::Task(Task::StartOta(what))]);
    }
}

#[test]
fn a_typed_address_is_trimmed() {
    let mut app = updating(OtaAction::SetAddress);
    app.overlay = Some(Overlay::OtaAddress { input: " 10.0.0.".to_string() });
    app.handle(key(KeyCode::Char('9')));
    app.handle(key(KeyCode::Char('x')));
    app.handle(key(KeyCode::Backspace));
    app.handle(key(KeyCode::Char(' ')));
    app.handle(key(KeyCode::Enter));
    assert_eq!(app.overlay, Some(Overlay::Ota));
    assert_eq!(
        app.take_effects(),
        vec![Effect::Text(
            TextTask::SetOtaAddress { captured: false },
            "10.0.0.9".to_string()
        )]
    );
    app.overlay = Some(Overlay::OtaAddress { input: " \u{3000}".to_string() });
    app.handle(key(KeyCode::Enter));
    assert!(app.take_effects().is_empty());
}

#[test]
fn a_stage_reports_failure_as_an_error() {
    let mut app = updating(OtaAction::Stop);
    let report = |finished: bool| OtaUpdate {
        notice: Some("stage".to_string()),
        finished,
        halted_unconfirmed: false,
    };
    app.ota_on_process(report(false));
    assert_eq!(last_line(&app), (Level::Error, "stage".to_string()));
    app.ota_on_process(report(true));
    assert_eq!(last_line(&app), (Level::Info, "stage".to_string()));
}

#[test]
fn a_capture_restarts_the_board_once_and_ends_on_the_address() {
    let mut app = updating(OtaAction::SetAddress);
    app.handle(key(KeyCode::Enter));
    assert_eq!(
        app.take_effects(),
        vec![Effect::Task(Task::SpawnAddressCapture { then_ask: true })]
    );
    app.address_capture_started(Ok(31), true);
    assert_eq!(app.capture, Some(AddressCapture::new(31)));
    assert!(app.capture.as_ref().unwrap().lines.is_empty());
    let banner = "--- idf_monitor on /dev/ttyUSB0".to_string();
    // The words have to stand on one line.
    app.on_address_capture_output(vec!["--- idf_monitor".to_string(), "on".to_string()], None);
    assert!(app.take_effects().is_empty());
    app.on_address_capture_output(vec!["boot".to_string(), banner.clone()], None);
    app.on_address_capture_output(vec![banner.clone(), "...".to_string()], None);
    assert_eq!(app.capture.as_ref().unwrap().lines, vec![banner.clone(), "...".to_string()]);
    assert_eq!(
        app.take_effects(),
        vec![Effect::Stdin { id: 31, bytes: vec![0x14, 0x12] }]
    );
    app.on_address_capture_output(
        vec![banner, "... IPv4 10.0.0.7".to_string()],
        Some("10.0.0.7".to_string()),
    );
    assert_eq!(
        app.take_effects(),
        vec![
            Effect::Task(Task::Cancel(31)),
            Effect::Text(
                TextTask::SetOtaAddress { captured: true },
                "10.0.0.7".to_string()
            ),
        ]
    );
    app.finish_address_capture();
    assert_eq!(app.capture, None);
    // The capture was tried: the next question goes to the user.
    app.capture_or_ask_address();
    assert_eq!(app.overlay, Some(Overlay::OtaAddress { input: "10.0.0.7".to_string() }));
}

#[test]
fn a_capture_that_cannot_start_asks_the_user() {
    let mut app = updating(OtaAction::SetAddress);
    app.address_capture_started(Err(Some("port busy".to_string())), true);
    assert_eq!(
        last_line(&app),
        (Level::Warn, "OTA: cannot read the address: port busy".to_string())
    );
    assert_eq!(app.overlay, Some(Overlay::OtaAddress { input: "10.0.0.7".to_string() }));
    app.address_recorded("10.0.0.7", true, Err("read-only".to_string()));
    assert_eq!(
        last_line(&app),
        (Level::Error, "could not record the address: read-only".to_string())
    );
    app.address_recorded("10.0.0.7", true, Ok(()));
    assert_eq!(last_line(&app), (Level::Info, "OTA: the board answers at 10.0.0.7".to_string()));
}

#[test]
fn the_report_window_steps_along_its_strip() {
    let mut app = zephyr();
    app.open_build_dashboard();
    assert_eq!(app.overlay, Some(Overlay::BuildDashboard));
    app.take_effects();
    let step = |code: KeyCode| {
        AppEvent::Key(KeyInput {
            key: KeyEvent { code, modifiers: KeyModifiers::control() },
            shell_bytes: None,
            claimed: false,
        })
    };
    app.handle(step(KeyCode::Right));
    assert_eq!(app.dashboard.tab, 1);
    assert_eq!(
        app.take_effects(),
        vec![Effect::Task(Task::LoadReport { root: "/work/app".to_string(), tab: 1 })]
    );
    app.handle(step(KeyCode::Right));
    assert_eq!(app.dashboard.tab, 1);
    assert!(app.take_effects().is_empty());
    app.reopen_dashboard_on_memory();
    assert_eq!(app.dashboard.tab, 0);
    let strip = app.dashboard_strip_tabs();
    assert_eq!(strip[0].1, "◫ Memory");
    assert_eq!(strip[1].1, "Symbols");
}

#[test]
fn a_changed_filter_starts_from_the_top() {
    let mut app = zephyr();
    app.open_build_dashboard();
    app.dashboard.panes[0].rows = 20;
    app.handle(key(KeyCode::PageDown));
    app.handle(key(KeyCode::Down));
    assert_eq!(app.dashboard.panes[0].selected, 6);
    app.handle(key(KeyCode::Char('q')));
    assert_eq!(app.dashboard.panes[0].input, "q");
    assert_eq!(app.dashboard.panes[0].selected, 0);
    assert_eq!(app.overlay, Some(Overlay::BuildDashboard));
    app.handle(key(KeyCode::Backspace));
    assert_eq!(app.dashboard.panes[0].input, "");
    app.handle(key(KeyCode::End));
    assert_eq!(app.dashboard.panes[0].selected, 19);
    app.handle(key(KeyCode::Tab));
    app.drawn.dashboard_viewport = 7;
    app.handle(key(KeyCode::PageDown));
    assert_eq!(app.dashboard.panes[0].scroll, 7);
    assert_eq!(rows_per_page(0), 1);
}
