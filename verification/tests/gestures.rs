use chiptui::app::events::AppEvent;
use chiptui::app::file_browser::{FileViewer, ViewerSource, ViewerState};
use chiptui::app::launch::Launch;
use chiptui::app::mouse::{
    picker_project_rows, DashboardAreas, Frame, MouseInput, RightKind, Row2, SplitAreas,
};
use chiptui::app::{App, DevicePaneTab, DocsFocus, Focus, Glyphs, LogTab, ProjectRow, View};
use chiptui::backend::BackendKind;
use chiptui::effect::{Effect, Task, TextTask};
use chiptui::geometry::{
    bare_list_row, confirm_answer_at, confirm_buttons, dashboard_list_row, docs_list_row,
    drawn_list_row, inner_row, inner_shrink, list_row, stepped, strip_tab, Rect,
};
use chiptui::input::{KeyCode, KeyEvent, MouseEvent, MouseEventKind};
use chiptui::overlay::{DirPurpose, Overlay, RemoveTarget};
use chiptui::panels::{
    Browser, BuildAction, DeviceInfo, FlashPaneAction, FlashScreen, InstallAction, Installer, OptionsField,
    PaneState, SelectedEntry, Side,
};

const FRAME: Rect = Rect { x: 0, y: 0, width: 100, height: 40 };
const PROJECT: Rect = Rect { x: 0, y: 1, width: 50, height: 9 };
const DEVICE: Rect = Rect { x: 50, y: 1, width: 50, height: 9 };
const LEFT: Rect = Rect { x: 0, y: 10, width: 50, height: 16 };
const RIGHT: Rect = Rect { x: 50, y: 10, width: 50, height: 16 };
const ROW3: Rect = Rect { x: 0, y: 26, width: 100, height: 13 };
const POPUP: Rect = Rect { x: 20, y: 8, width: 60, height: 24 };
const OUTSIDE: (u16, u16) = (0, 0);

fn split() -> SplitAreas {
    SplitAreas {
        popup: Rect::new(5, 3, 90, 34),
        list: Rect::new(6, 4, 40, 24),
        details: Rect::new(47, 4, 47, 32),
    }
}

fn frame(row2: Row2) -> Frame {
    Frame {
        areas: DashboardAreas { project: PROJECT, device: DEVICE, row2, row3: ROW3 },
        popup: POPUP,
        docs: split(),
        packages: split(),
        dashboard: split(),
        flash: Rect::new(20, 8, 60, 20),
        header_name: Some(Rect::new(30, 0, 12, 1)),
        mac_row: Some(2),
        board_half: true,
        button: None,
        dir_rows: 5,
        fields: vec![OptionsField::Chip, OptionsField::FlashMode, OptionsField::Offset],
        stop_width: 12,
    }
}

fn browser_frame() -> Frame {
    frame(Row2::Browser { local: LEFT, right: RIGHT, kind: RightKind::Device })
}

fn workspace_frame() -> Frame {
    frame(Row2::WorkspaceBuild { workspace: LEFT, build: RIGHT })
}

fn gesture(app: &mut App, frame: &Frame, kind: MouseEventKind, column: u16, row: u16, now: u64) {
    app.handle(AppEvent::Mouse(MouseInput {
        event: MouseEvent { kind, column, row },
        frame: frame.clone(),
        now,
    }));
}

fn click(app: &mut App, frame: &Frame, column: u16, row: u16) {
    gesture(app, frame, MouseEventKind::Click, column, row, 1_000);
}

fn wheel(app: &mut App, frame: &Frame, down: bool, column: u16, row: u16) {
    let kind = if down { MouseEventKind::ScrollDown } else { MouseEventKind::ScrollUp };
    gesture(app, frame, kind, column, row, 1_000);
}

fn glyphs() -> Glyphs {
    Glyphs {
        list: "L".to_string(),
        screen: "S".to_string(),
        prompt: "P".to_string(),
        bolt: "B".to_string(),
        folder: "F".to_string(),
        dashboard: String::new(),
    }
}

fn app_with_backend(kind: BackendKind) -> App {
    let mut app = App::new(Launch {
        start_dir: "/tmp/project".to_string(),
        home_dir: "/home/someone".to_string(),
        config_dir: "/home/someone/.config".to_string(),
        theme: None,
        icons: None,
        glyphs: glyphs(),
        dashboard_labels: vec!["Memory".to_string(), "Symbols".to_string()],
        memory_tab: 0,
        max_view_bytes: 65536,
    });
    app.project.manager.set_override(Some(kind));
    app.maybe_scan_devices();
    app.take_effects();
    app.set_mouse_enabled(true);
    app.screen.frame_area = Some(FRAME);
    app
}

fn entry(name: &str) -> SelectedEntry {
    SelectedEntry {
        name: name.to_string(),
        is_dir: false,
        is_text: true,
        status: None,
    }
}

fn with_browser(app: &mut App, files: usize) {
    app.panels.browser = Some(Browser {
        focus: Side::Device,
        local_path: "/tmp/project".to_string(),
        device_path: None,
        local_cursor: 0,
        device_cursor: 0,
        local_len: files,
        device_len: 0,
        local_offset: 0,
        device_offset: 0,
        local_selected: Some(entry("file01.py")),
        device_selected: None,
        device_state: PaneState::Idle,
        busy: false,
        held: false,
    });
}

#[test]
fn a_click_on_the_local_pane_picks_the_drawn_row() {
    let mut app = app_with_backend(BackendKind::MicroPython);
    with_browser(&mut app, 31);
    click(&mut app, &browser_frame(), 2, LEFT.y + 1);
    assert_eq!(app.screen.focus, Focus::FilesLocal);
    let browser = app.panels.browser.as_mut().unwrap();
    assert_eq!(browser.focus, Side::Local);
    assert_eq!(browser.local_cursor, 0);
    browser.local_offset = 15;
    click(&mut app, &browser_frame(), 2, LEFT.y + 1);
    assert_eq!(app.panels.browser.as_ref().unwrap().local_cursor, 15);
}

#[test]
fn a_click_below_a_short_list_moves_nothing() {
    let mut app = app_with_backend(BackendKind::MicroPython);
    with_browser(&mut app, 3);
    click(&mut app, &browser_frame(), 2, LEFT.y + 1 + 6);
    assert_eq!(app.panels.browser.as_ref().unwrap().local_cursor, 0);
    assert_eq!(app.screen.focus, Focus::FilesLocal);
}

#[test]
fn bare_list_row_never_selects_the_header_row() {
    let list = Rect::new(0, 5, 40, 6);
    assert_eq!(bare_list_row((3, list.y), list, 0, 3, 1), None);
    assert_eq!(bare_list_row((3, list.y + 1), list, 0, 3, 1), Some(0));
}

#[test]
fn a_click_on_a_visible_row_keeps_the_list_where_it_was() {
    let mut app = app_with_backend(BackendKind::MicroPython);
    with_browser(&mut app, 31);
    let browser = app.panels.browser.as_mut().unwrap();
    browser.local_cursor = 20;
    browser.local_offset = 8;
    click(&mut app, &browser_frame(), 2, LEFT.y + 1 + 9);
    let browser = app.panels.browser.as_ref().unwrap();
    assert_eq!(browser.local_offset, 8);
    assert_eq!(browser.local_cursor, 17);
}

#[test]
fn a_click_on_a_visible_workspace_row_keeps_the_view() {
    let mut app = app_with_backend(BackendKind::Zephyr);
    let panel = app.panels.workspace.as_mut().expect("a build backend gets the pane");
    panel.files_len = 41;
    panel.files_cursor = 30;
    panel.files_offset = 18;
    click(&mut app, &workspace_frame(), 2, LEFT.y + 1 + 7);
    let panel = app.panels.workspace.as_ref().unwrap();
    assert_eq!(panel.files_offset, 18);
    assert_eq!(panel.files_cursor, 25);
}

#[test]
fn a_click_on_the_workspace_pane_selects_its_row() {
    let mut app = app_with_backend(BackendKind::Zephyr);
    app.panels.workspace.as_mut().unwrap().files_len = 4;
    click(&mut app, &workspace_frame(), 2, LEFT.y + 1);
    assert_eq!(app.screen.focus, Focus::Workspace);
    assert_eq!(app.panels.workspace.as_ref().unwrap().files_cursor, 0);
}

#[test]
fn a_click_on_the_environment_pane_selects_its_question() {
    let mut app = app_with_backend(BackendKind::MicroPython);
    app.project.rows = vec![ProjectRow::MpyProjectsBase, ProjectRow::MpyProjectPath];
    assert_eq!(app.screen.project_cursor, 0);
    click(&mut app, &browser_frame(), 2, PROJECT.y + 2);
    assert_eq!(app.screen.focus, Focus::Project);
    assert_eq!(app.screen.project_cursor, 1);
}

#[test]
fn a_click_on_row3_focuses_the_log_pane_and_the_wheel_scrolls_it() {
    let mut app = app_with_backend(BackendKind::MicroPython);
    for i in 0..40 {
        app.info(&format!("entry {i}"));
    }
    app.drawn.log_viewport = 11;
    let frame = browser_frame();
    let row = 37;
    click(&mut app, &frame, 2, row);
    assert_eq!(app.screen.focus, Focus::Logs);
    assert!(app.logs.is_following());
    wheel(&mut app, &frame, false, 2, row);
    assert!(!app.logs.is_following());
    assert_eq!(app.logs.scroll(), 3);
    wheel(&mut app, &frame, true, 2, row);
    assert!(app.logs.is_following());
}

#[test]
fn a_gesture_under_a_modal_or_before_a_frame_never_reaches_the_panes() {
    let mut app = app_with_backend(BackendKind::MicroPython);
    with_browser(&mut app, 1);
    let frame = browser_frame();
    let before = app.screen.focus;
    app.overlay = Some(Overlay::Help { filter: String::new(), filtering: false, selected: 0 });
    click(&mut app, &frame, 2, 8);
    assert_eq!(app.screen.focus, before);
    app.overlay = None;
    app.screen.shortcuts_overlay_active = true;
    click(&mut app, &frame, 2, 8);
    assert_eq!(app.screen.focus, before);
    app.screen.shortcuts_overlay_active = false;
    app.screen.frame_area = None;
    click(&mut app, &frame, 2, 8);
    assert_eq!(app.screen.focus, before);
}

/// The column the title of `tab` starts at, past its pad.
fn column_of<T: Copy + PartialEq>(pane: Rect, tabs: &[(T, String)], tab: T) -> u16 {
    let mut x = pane.x + 1;
    for (candidate, title) in tabs {
        if *candidate == tab {
            return x + 1;
        }
        x += 2 + title.chars().count() as u16 + 1;
    }
    panic!("the strip names its tabs");
}

#[test]
fn a_click_on_a_log_tab_switches_the_strip() {
    let mut app = app_with_backend(BackendKind::MicroPython);
    let frame = browser_frame();
    let tabs = app.log_strip_tabs();
    assert_eq!(tabs.len(), 3);
    assert_eq!(app.screen.log_tab, LogTab::Log);
    click(&mut app, &frame, column_of(ROW3, &tabs, LogTab::Monitor), ROW3.y);
    assert_eq!(app.screen.log_tab, LogTab::Monitor);
    click(&mut app, &frame, column_of(ROW3, &tabs, LogTab::Log), ROW3.y);
    assert_eq!(app.screen.log_tab, LogTab::Log);
}

#[test]
fn a_click_on_the_device_strip_flips_the_tab() {
    let mut app = app_with_backend(BackendKind::MicroPython);
    with_browser(&mut app, 1);
    app.show_device_actions_tab();
    let frame = browser_frame();
    let tabs = app.device_strip_tabs();
    assert!(app.device_actions_tab_active());
    click(&mut app, &frame, column_of(RIGHT, &tabs, DevicePaneTab::Files), RIGHT.y);
    assert!(!app.device_actions_tab_active());
    click(&mut app, &frame, column_of(RIGHT, &tabs, DevicePaneTab::Actions), RIGHT.y);
    assert!(app.device_actions_tab_active());
}

#[test]
fn a_click_on_the_already_active_device_tab_stays_put() {
    let mut app = app_with_backend(BackendKind::MicroPython);
    with_browser(&mut app, 1);
    app.show_device_actions_tab();
    let tabs = app.device_strip_tabs();
    assert!(app.device_actions_tab_active());
    click(&mut app, &browser_frame(), column_of(RIGHT, &tabs, DevicePaneTab::Actions), RIGHT.y);
    assert!(app.device_actions_tab_active());
}

#[test]
fn a_click_on_a_build_button_selects_and_presses_it() {
    let mut app = app_with_backend(BackendKind::Zephyr);
    app.panels.lists.build_actions = vec![BuildAction::InstallZephyr];
    let mut frame = workspace_frame();
    frame.button = Some(0);
    click(&mut app, &frame, RIGHT.x + 4, RIGHT.y + 1);
    assert_eq!(app.screen.focus, Focus::Build);
    let cursor = app.panels.build.as_ref().unwrap().cursor;
    assert_eq!(app.panels.lists.build_actions[cursor], BuildAction::InstallZephyr);
    assert_eq!(
        app.take_effects(),
        vec![Effect::Task(Task::OpenPurposePicker(DirPurpose::Install))]
    );
}

#[test]
fn a_click_inside_the_empty_device_picker_does_not_dismiss_it() {
    let mut app = app_with_backend(BackendKind::MicroPython);
    app.overlay = Some(Overlay::DevicePicker { selected: 0 });
    let mut frame = browser_frame();
    frame.popup = Rect::new(24, 18, 52, 4);
    click(&mut app, &frame, 28, 18);
    assert!(matches!(app.overlay, Some(Overlay::DevicePicker { .. })));
    click(&mut app, &frame, 22, 19);
    assert!(app.overlay.is_none());
}

#[test]
fn a_click_answers_the_package_removal_confirm() {
    for confirm in [false, true] {
        let mut app = app_with_backend(BackendKind::MicroPython);
        app.overlay = Some(Overlay::ConfirmRemovePackage {
            name: "umqtt.simple".into(),
            targets: Vec::new(),
            declared: true,
            confirm: false,
        });
        let (no, yes) = confirm_buttons(POPUP).unwrap();
        let button = if confirm { yes } else { no };
        click(&mut app, &browser_frame(), button.x + 3, button.y + 1);
        assert_eq!(app.overlay, Some(Overlay::Packages));
        let removed = app.take_effects();
        assert_eq!(
            removed,
            if confirm {
                vec![Effect::Text(
                    TextTask::RemovePackage { targets: Vec::new(), declared: true },
                    "umqtt.simple".to_string(),
                )]
            } else {
                Vec::new()
            }
        );
    }
}

#[test]
fn a_click_between_buttons_moves_nothing() {
    let mut app = app_with_backend(BackendKind::Zephyr);
    app.panels.lists.build_actions = vec![BuildAction::InstallZephyr, BuildAction::Flash];
    click(&mut app, &workspace_frame(), RIGHT.x + 4, RIGHT.y + 2);
    assert_eq!(app.screen.focus, Focus::Build);
    assert!(app.overlay.is_none());
    assert!(app.take_effects().is_empty());
}

#[test]
fn a_click_on_a_flash_button_selects_and_presses_it() {
    let mut app = app_with_backend(BackendKind::MicroPython);
    with_browser(&mut app, 1);
    app.show_device_actions_tab();
    app.panels.lists.pane_actions = vec![FlashPaneAction::SearchOnline];
    let mut frame = browser_frame();
    frame.button = Some(0);
    let before = app.logs.len();
    click(&mut app, &frame, RIGHT.x + 4, RIGHT.y + 1);
    assert_eq!(app.screen.focus, Focus::FilesDevice);
    assert_eq!(app.flash.as_ref().unwrap().pane_cursor, 0);
    assert!(app.logs.len() > before);
}

#[test]
fn a_click_on_a_confirm_button_answers_the_dialog() {
    let mut app = app_with_backend(BackendKind::MicroPython);
    with_browser(&mut app, 2);
    let frame = browser_frame();
    let question = Overlay::ConfirmDelete {
        side: Side::Local,
        name: "file01.py".into(),
        is_dir: false,
        confirm: false,
    };
    let (no, yes) = confirm_buttons(POPUP).unwrap();
    app.overlay = Some(question.clone());
    click(&mut app, &frame, no.x + 1, no.y + 1);
    assert!(app.overlay.is_none());
    assert!(app.take_effects().is_empty());
    app.overlay = Some(question);
    click(&mut app, &frame, yes.x + 1, yes.y + 1);
    assert!(app.overlay.is_none());
    assert_eq!(
        app.take_effects(),
        vec![Effect::Text(TextTask::RemoveFile, "/tmp/project/file01.py".to_string())]
    );
}

#[test]
fn a_click_on_a_confirms_message_area_answers_nothing() {
    let mut app = app_with_backend(BackendKind::Zephyr);
    app.overlay = Some(Overlay::ConfirmBuild { action: BuildAction::Flash, confirm: false });
    let frame = workspace_frame();
    click(&mut app, &frame, 50, POPUP.y + 3);
    assert!(app.overlay.is_some());
    let (no, _) = confirm_buttons(POPUP).unwrap();
    click(&mut app, &frame, no.x, no.y);
    assert!(app.overlay.is_none());
}

#[test]
fn a_click_outside_a_confirm_dialog_dismisses_it_like_esc() {
    let mut app = app_with_backend(BackendKind::Zephyr);
    app.overlay = Some(Overlay::ConfirmBuild { action: BuildAction::Flash, confirm: false });
    click(&mut app, &workspace_frame(), OUTSIDE.0, OUTSIDE.1);
    assert!(app.overlay.is_none());
}

#[test]
fn a_click_outside_confirm_remove_package_returns_to_packages_like_esc() {
    let mut app = app_with_backend(BackendKind::MicroPython);
    app.overlay = Some(Overlay::ConfirmRemovePackage {
        name: "umqtt.simple".to_string(),
        targets: vec![RemoveTarget {
            path: "/lib/umqtt/simple.mpy".to_string(),
            recursive: false,
        }],
        declared: true,
        confirm: false,
    });
    click(&mut app, &browser_frame(), OUTSIDE.0, OUTSIDE.1);
    assert!(matches!(app.overlay, Some(Overlay::Packages)));
}

#[test]
fn a_click_outside_a_picker_dismisses_it_like_esc() {
    let mut app = app_with_backend(BackendKind::MicroPython);
    app.overlay = Some(Overlay::ThemePicker { selected: 0 });
    click(&mut app, &browser_frame(), OUTSIDE.0, OUTSIDE.1);
    assert!(app.overlay.is_none());
}

#[test]
fn a_click_outside_the_packages_overlay_dismisses_it_like_esc() {
    let mut app = app_with_backend(BackendKind::MicroPython);
    app.overlay = Some(Overlay::Packages);
    click(&mut app, &browser_frame(), OUTSIDE.0, OUTSIDE.1);
    assert!(app.overlay.is_none(), "a click outside Packages must close it, like Esc");
    assert!(app.take_effects().is_empty());
}

#[test]
fn a_click_outside_a_docs_picker_dismisses_it_like_esc() {
    let mut app = app_with_backend(BackendKind::Zephyr);
    app.overlay = Some(Overlay::BoardPicker {
        input: String::new(),
        selected: 0,
        scroll: 0,
        focus: DocsFocus::List,
    });
    click(&mut app, &workspace_frame(), OUTSIDE.0, OUTSIDE.1);
    assert!(app.overlay.is_none());
}

fn installer() -> Installer {
    Installer {
        dir: "/opt".to_string(),
        nested: true,
        busy: false,
        action: InstallAction::Install,
        can_start: true,
        prereqs_ready: true,
        complete: false,
        next_command: None,
        manifest_url: "https://example.com/manifest".to_string(),
        failed_step: None,
        sdk: None,
    }
}

#[test]
fn a_click_on_the_right_row_but_outside_the_box_closes_it_instead_of_answering() {
    let mut app = app_with_backend(BackendKind::Zephyr);
    let mut frame = workspace_frame();
    frame.button = Some(0);
    app.overlay = Some(Overlay::ZephyrActions { selected: 0 });
    click(&mut app, &frame, 0, POPUP.y + 1);
    assert!(app.overlay.is_none());

    app.panels.installer = Some(installer());
    app.overlay = Some(Overlay::SdkToolchains { selected: 0 });
    click(&mut app, &frame, 0, POPUP.y + 1);
    assert!(matches!(app.overlay, Some(Overlay::ZephyrInstall)));
    assert!(app.desk.picked.is_empty());

    app.overlay = Some(Overlay::DirPicker {
        purpose: DirPurpose::Installation,
        path: "/tmp/project".to_string(),
        selected: 0,
        error: None,
    });
    app.take_effects();
    click(&mut app, &frame, 0, POPUP.y + 2);
    assert!(
        app.overlay.is_none(),
        "same row, outside the box: closes rather than picking the directory"
    );
    assert!(app.take_effects().is_empty());
}

#[test]
fn sdk_toolchains_draws_in_its_popup_and_clicks_land_on_the_pointer() {
    let mut app = app_with_backend(BackendKind::Zephyr);
    app.panels.installer = Some(installer());
    app.overlay = Some(Overlay::SdkToolchains { selected: 0 });
    let mut frame = workspace_frame();
    frame.popup = Rect::new(32, 2, 56, 36);
    click(&mut app, &frame, 40, 2 + 1 + 20);
    assert_eq!(app.desk.picked, vec![20]);
    assert_eq!(app.overlay, Some(Overlay::SdkToolchains { selected: 20 }));
    // A shorter box scrolls the list under the pointer: its fifteen rows end
    // on the selection.
    frame.popup = Rect::new(22, 2, 56, 18);
    click(&mut app, &frame, 40, 2 + 1 + 14);
    assert!(app.desk.picked.is_empty());
    click(&mut app, &frame, 40, 2 + 1);
    assert_eq!(app.desk.picked, vec![6]);
}

#[test]
fn a_click_outside_zephyr_actions_dismisses_it_like_esc() {
    let mut app = app_with_backend(BackendKind::Zephyr);
    app.overlay = Some(Overlay::ZephyrActions { selected: 0 });
    click(&mut app, &workspace_frame(), OUTSIDE.0, OUTSIDE.1);
    assert!(app.overlay.is_none());
}

#[test]
fn a_click_outside_the_zephyr_installer_dismisses_it_like_esc() {
    let mut app = app_with_backend(BackendKind::Zephyr);
    app.overlay = Some(Overlay::ZephyrInstall);
    click(&mut app, &workspace_frame(), OUTSIDE.0, OUTSIDE.1);
    assert!(app.overlay.is_none());
}

#[test]
fn a_click_outside_help_dismisses_it_like_esc() {
    let mut app = app_with_backend(BackendKind::MicroPython);
    let frame = browser_frame();
    app.overlay = Some(Overlay::Help { filter: String::new(), filtering: false, selected: 0 });
    click(&mut app, &frame, OUTSIDE.0, OUTSIDE.1);
    assert!(app.overlay.is_none());
    app.overlay =
        Some(Overlay::Help { filter: "flash".to_string(), filtering: true, selected: 0 });
    click(&mut app, &frame, OUTSIDE.0, OUTSIDE.1);
    assert!(matches!(app.overlay, Some(Overlay::Help { filtering: false, .. })));
}

#[test]
fn a_click_outside_the_file_viewer_dismisses_it_like_esc() {
    let mut app = app_with_backend(BackendKind::MicroPython);
    app.desk.viewer = Some(FileViewer {
        source: ViewerSource::Local("/tmp/project/file01.py".to_string()),
        state: ViewerState::Loading,
        scroll: 0,
    });
    app.overlay = Some(Overlay::FileViewer);
    click(&mut app, &browser_frame(), OUTSIDE.0, OUTSIDE.1);
    assert!(app.overlay.is_none());
    assert!(app.desk.viewer.is_none());
}

#[test]
fn a_click_outside_create_entry_dismisses_it_like_esc() {
    let mut app = app_with_backend(BackendKind::MicroPython);
    app.overlay = Some(Overlay::CreateEntry { side: Side::Local, input: String::new() });
    click(&mut app, &browser_frame(), OUTSIDE.0, OUTSIDE.1);
    assert!(app.overlay.is_none());
}

#[test]
fn a_click_outside_the_flash_menu_dismisses_it_like_esc() {
    let mut app = app_with_backend(BackendKind::MicroPython);
    with_browser(&mut app, 1);
    app.show_device_actions_tab();
    app.screen.view = View::Flash;
    assert_eq!(app.flash.as_ref().unwrap().screen, FlashScreen::Menu);
    click(&mut app, &browser_frame(), OUTSIDE.0, OUTSIDE.1);
    assert_eq!(app.screen.view, View::Dashboard);
}

#[test]
fn a_click_outside_a_flash_screen_steps_back_like_esc() {
    let mut app = app_with_backend(BackendKind::MicroPython);
    with_browser(&mut app, 1);
    app.show_device_actions_tab();
    app.flash.as_mut().unwrap().screen = FlashScreen::Options;
    app.screen.view = View::Flash;
    click(&mut app, &browser_frame(), OUTSIDE.0, OUTSIDE.1);
    assert_eq!(app.flash.as_ref().unwrap().screen, FlashScreen::Menu);
}

#[test]
fn a_click_on_a_stacked_overlay_button_presses_it() {
    let mut app = app_with_backend(BackendKind::Zephyr);
    app.overlay = Some(Overlay::ZephyrActions { selected: 0 });
    let mut frame = workspace_frame();
    frame.button = Some(0);
    click(&mut app, &frame, POPUP.x + 4, POPUP.y + 1);
    assert!(matches!(app.overlay, Some(Overlay::ConfirmBuild { .. })));
}

#[test]
fn zephyr_actions_clicks_read_label_and_description_rows() {
    // Two drawn rows per button and a divider after each pair.
    for (row, button) in [
        (0, Some(0)),
        (1, Some(0)),
        (2, None),
        (3, Some(1)),
        (4, Some(1)),
        (5, None),
        (6, Some(2)),
        (7, Some(2)),
        (8, None),
        (9, Some(3)),
        (10, Some(3)),
    ] {
        let mut app = app_with_backend(BackendKind::Zephyr);
        app.overlay = Some(Overlay::ZephyrActions { selected: 0 });
        app.panels.build.as_mut().unwrap().buildable = true;
        let mut frame = workspace_frame();
        frame.button = button;
        let before = app.logs.len();
        click(&mut app, &frame, 22, POPUP.y + 1 + row);
        match button {
            Some(0) => assert!(matches!(app.overlay, Some(Overlay::ConfirmBuild { .. }))),
            Some(1) => assert!(
                matches!(app.overlay, Some(Overlay::ZephyrActions { .. }))
                    && app.logs.len() > before
            ),
            Some(2) => assert!(matches!(app.overlay, Some(Overlay::BuildDashboard))),
            Some(_) => {
                assert!(app.overlay.is_none());
                assert!(app
                    .take_effects()
                    .contains(&Effect::Task(Task::StartBuild(BuildAction::Dashboard))));
            }
            None => assert_eq!(app.overlay, Some(Overlay::ZephyrActions { selected: 0 })),
        }
    }
}

#[test]
fn a_click_on_a_picker_row_selects_without_activating() {
    let mut app = app_with_backend(BackendKind::MicroPython);
    app.overlay = Some(Overlay::ThemePicker { selected: 0 });
    let theme = app.theme_choice();
    click(&mut app, &browser_frame(), POPUP.x + 3, POPUP.y + 1 + 8);
    assert_eq!(app.overlay, Some(Overlay::ThemePicker { selected: 8 }));
    assert_eq!(app.theme_choice(), theme);
}

#[test]
fn online_firmware_rows_answer_clicks() {
    let mut app = app_with_backend(BackendKind::MicroPython);
    with_browser(&mut app, 1);
    app.show_device_actions_tab();
    app.panels.lists.online_boards = vec!["ESP32_GENERIC".to_string()];
    app.flash.as_mut().unwrap().screen = FlashScreen::OnlineBoards;
    app.screen.view = View::Flash;
    app.take_effects();
    let frame = browser_frame();
    // Inside the border, past the two head rows and the table's header.
    click(&mut app, &frame, 30, frame.flash.y + 1 + 2 + 1);
    assert_eq!(
        app.take_effects(),
        vec![Effect::Task(Task::FetchBoard { id: "ESP32_GENERIC".to_string() })]
    );
    // The panel shows the firmware list as it fetches it.
    app.board_page_fetching(&Vec::new(), FlashScreen::OnlineFirmware);
    assert_eq!(
        app.flash.as_ref().unwrap().screen,
        FlashScreen::OnlineFirmware,
        "clicking a board row picks it, like Enter"
    );
    app.panels.lists.online_firmware = vec!["https://example.com/v1.28.0.bin".to_string()];
    click(&mut app, &frame, 30, frame.flash.y + 1 + 2);
    assert_eq!(
        app.take_effects(),
        vec![Effect::Text(
            TextTask::RequestDownload,
            "https://example.com/v1.28.0.bin".to_string()
        )]
    );
    app.download_resolved(
        "https://example.com/v1.28.0.bin".to_string(),
        Some("/tmp/project/firmware/v1.28.0.bin".to_string()),
        true,
    );
    assert!(matches!(app.overlay, Some(Overlay::ConfirmDownloadOverwrite { .. })));
}

#[test]
fn a_double_click_opens_what_enter_opens() {
    let mut app = app_with_backend(BackendKind::MicroPython);
    with_browser(&mut app, 4);
    let frame = browser_frame();
    gesture(&mut app, &frame, MouseEventKind::Click, 2, LEFT.y + 2, 1_000);
    assert_eq!(app.panels.browser.as_ref().unwrap().local_cursor, 1);
    assert!(app.overlay.is_none());
    gesture(&mut app, &frame, MouseEventKind::Click, 2, LEFT.y + 2, 1_399);
    assert!(matches!(app.overlay, Some(Overlay::FileActions { .. })));
}

#[test]
fn a_late_second_click_starts_over() {
    let mut app = app_with_backend(BackendKind::MicroPython);
    with_browser(&mut app, 4);
    let frame = browser_frame();
    gesture(&mut app, &frame, MouseEventKind::Click, 2, LEFT.y + 2, 1_000);
    gesture(&mut app, &frame, MouseEventKind::Click, 2, LEFT.y + 2, 1_400);
    assert!(app.overlay.is_none());
    gesture(&mut app, &frame, MouseEventKind::Click, 2, LEFT.y + 3, 1_401);
    assert!(app.overlay.is_none());
}

#[test]
fn a_click_on_an_environment_row_opens_its_dialog() {
    let mut app = app_with_backend(BackendKind::MicroPython);
    app.project.rows = vec![ProjectRow::MpyProjectsBase, ProjectRow::MpyProjectPath];
    click(&mut app, &browser_frame(), 2, PROJECT.y + 1);
    assert_eq!(app.screen.focus, Focus::Project);
    assert_eq!(
        app.take_effects(),
        vec![Effect::Task(Task::ProjectKey(KeyEvent::plain(KeyCode::Enter)))]
    );
}

fn board_picker(app: &mut App, boards: usize) {
    app.panels.lists.boards = (0..boards).map(|i| format!("board_{i:02}")).collect();
    app.overlay = Some(Overlay::BoardPicker {
        input: String::new(),
        selected: 0,
        scroll: 0,
        focus: DocsFocus::List,
    });
}

fn docs_frame() -> Frame {
    let mut frame = workspace_frame();
    frame.popup = split().popup;
    frame
}

#[test]
fn a_docs_picker_click_selects_and_the_details_takes_the_keyboard() {
    let mut app = app_with_backend(BackendKind::Zephyr);
    board_picker(&mut app, 6);
    let frame = docs_frame();
    let areas = split();
    click(&mut app, &frame, areas.list.x + 2, areas.list.y + 1 + 4);
    assert!(matches!(
        app.overlay,
        Some(Overlay::BoardPicker { selected: 4, focus: DocsFocus::List, .. })
    ));
    click(&mut app, &frame, areas.details.x + 3, areas.details.y);
    assert!(matches!(app.overlay, Some(Overlay::BoardPicker { focus: DocsFocus::Details, .. })));
    // Below the list: neither pane.
    click(&mut app, &frame, areas.list.x + 1, areas.list.y + areas.list.height + 1);
    assert!(matches!(app.overlay, Some(Overlay::BoardPicker { focus: DocsFocus::Details, .. })));
}

#[test]
fn a_docs_picker_wheel_scrolls_the_pane_under_the_pointer() {
    let mut app = app_with_backend(BackendKind::Zephyr);
    board_picker(&mut app, 6);
    let frame = docs_frame();
    let areas = split();
    let list = (areas.list.x + 2, areas.list.y + 2);
    let details = (areas.details.x + 2, areas.details.y + 2);
    wheel(&mut app, &frame, false, list.0, list.1);
    assert!(matches!(app.overlay, Some(Overlay::BoardPicker { selected: 0, .. })));
    wheel(&mut app, &frame, true, list.0, list.1);
    assert!(matches!(app.overlay, Some(Overlay::BoardPicker { selected: 1, .. })));
    wheel(&mut app, &frame, true, details.0, details.1);
    assert!(matches!(
        app.overlay,
        Some(Overlay::BoardPicker { selected: 1, scroll: 1, focus: DocsFocus::List, .. })
    ));
    wheel(&mut app, &frame, true, list.0, list.1);
    assert!(matches!(app.overlay, Some(Overlay::BoardPicker { selected: 2, scroll: 0, .. })));
    wheel(&mut app, &frame, true, list.0, areas.list.y + areas.list.height + 1);
    assert!(matches!(app.overlay, Some(Overlay::BoardPicker { selected: 2, scroll: 0, .. })));
}

#[test]
fn a_shield_picker_wheel_counts_the_none_row() {
    let mut app = app_with_backend(BackendKind::Zephyr);
    app.panels.lists.shields = vec!["a".to_string(), "b".to_string(), "c".to_string()];
    app.overlay = Some(Overlay::ShieldPicker {
        input: String::new(),
        selected: 0,
        scroll: 0,
        focus: DocsFocus::List,
    });
    let frame = docs_frame();
    let areas = split();
    wheel(&mut app, &frame, true, areas.list.x + 2, areas.list.y + 2);
    assert!(matches!(app.overlay, Some(Overlay::ShieldPicker { selected: 1, .. })));
    for _ in 0..5 {
        wheel(&mut app, &frame, true, areas.list.x + 2, areas.list.y + 2);
    }
    assert!(matches!(app.overlay, Some(Overlay::ShieldPicker { selected: 3, .. })));
}

#[test]
fn a_docs_picker_click_keeps_the_list_where_it_was() {
    let mut app = app_with_backend(BackendKind::Zephyr);
    board_picker(&mut app, 60);
    app.drawn.docs_list_offset = 7;
    let areas = split();
    click(&mut app, &docs_frame(), areas.list.x + 2, areas.list.y + 1 + 4);
    assert!(matches!(app.overlay, Some(Overlay::BoardPicker { selected: 11, .. })));
    assert_eq!(app.drawn.docs_list_offset, 7);
}

#[test]
fn board_shield_clicks_open_the_half_they_land_on() {
    let mut app = app_with_backend(BackendKind::Zephyr);
    app.project.rows = vec![ProjectRow::BoardShield];
    let mut frame = workspace_frame();
    app.screen.board_segment = false;
    frame.board_half = true;
    click(&mut app, &frame, 2, PROJECT.y + 1);
    assert!(
        matches!(app.overlay, Some(Overlay::BoardPicker { .. })),
        "a click on the board half opens the board picker, whatever the last segment was"
    );
    assert!(app.screen.board_segment);
    app.overlay = None;
    app.screen.board_segment = true;
    frame.board_half = false;
    click(&mut app, &frame, 2, PROJECT.y + 1);
    assert!(
        matches!(app.overlay, Some(Overlay::ShieldPicker { .. })),
        "a click past the separator opens the shield picker"
    );
    assert!(!app.screen.board_segment, "the click set the segment it landed on");
}

#[test]
fn clicking_the_mac_row_copies_it() {
    let mut app = app_with_backend(BackendKind::MicroPython);
    with_browser(&mut app, 1);
    app.show_device_actions_tab();
    let mac = "24:6F:28:AA:BB:CC".to_string();
    let flash = app.flash.as_mut().unwrap();
    flash.mac = Some(mac.clone());
    flash.identified = true;
    let frame = browser_frame();
    assert!(app.take_clipboard_request().is_none());
    click(&mut app, &frame, DEVICE.x + 5, DEVICE.y + 1 + 2);
    assert_eq!(app.take_clipboard_request(), Some(mac));
    assert_eq!(app.screen.focus, Focus::DeviceInfo);
    app.screen.focus = Focus::Project;
    click(&mut app, &frame, DEVICE.x + 5, DEVICE.y + 1);
    assert!(app.take_clipboard_request().is_none());
    assert_eq!(app.screen.focus, Focus::DeviceInfo);
}

#[test]
fn a_click_on_the_device_info_pane_focuses_it_without_a_mac() {
    let mut app = app_with_backend(BackendKind::MicroPython);
    with_browser(&mut app, 1);
    app.show_device_actions_tab();
    assert!(app.flash.as_ref().unwrap().mac.is_none());
    app.screen.focus = Focus::Project;
    click(&mut app, &browser_frame(), DEVICE.x + 5, DEVICE.y + 1);
    assert_eq!(app.screen.focus, Focus::DeviceInfo);
    assert!(app.take_clipboard_request().is_none());
}

#[test]
fn a_double_click_on_the_device_info_pane_offers_identification() {
    let mut app = app_with_backend(BackendKind::MicroPython);
    with_browser(&mut app, 1);
    app.show_device_actions_tab();
    app.panels.devices.set_devices(vec![DeviceInfo {
        port: "/dev/ttyACM0".to_string(),
        label: "/dev/ttyACM0".to_string(),
    }]);
    app.panels.devices.select(0);
    app.take_effects();
    let frame = browser_frame();
    gesture(&mut app, &frame, MouseEventKind::Click, DEVICE.x + 5, DEVICE.y + 1, 1_000);
    assert!(app.overlay.is_none(), "a single click must not offer it yet");
    gesture(&mut app, &frame, MouseEventKind::Click, DEVICE.x + 5, DEVICE.y + 1, 1_100);
    assert!(
        matches!(app.overlay, Some(Overlay::ConfirmIdentifyDevice { .. })),
        "the double click must offer the identification, like ctrl+r"
    );
    assert!(app.take_effects().is_empty());
}

#[test]
fn a_click_on_the_header_project_name_switches_projects() {
    let mut app = app_with_backend(BackendKind::MicroPython);
    app.pending.commands_running = 1;
    let frame = browser_frame();
    click(&mut app, &frame, 33, 0);
    assert!(matches!(app.overlay, Some(Overlay::ConfirmSwitchProject { .. })));
    let (_, yes) = confirm_buttons(POPUP).unwrap();
    click(&mut app, &frame, yes.x + 1, yes.y + 1);
    assert!(app.pending.switch_requested);
}

#[test]
fn the_buttons_sit_centred_above_the_bottom_border() {
    let (no, yes) = confirm_buttons(Rect::new(10, 5, 40, 9)).unwrap();
    assert_eq!(no, Rect::new(18, 10, 10, 3));
    assert_eq!(yes, Rect::new(32, 10, 10, 3));
    // An odd rest rounds to the right.
    let (no, yes) = confirm_buttons(Rect::new(0, 0, 27, 5)).unwrap();
    assert_eq!(no, Rect::new(2, 1, 10, 3));
    assert_eq!(yes, Rect::new(16, 1, 10, 3));
    assert_eq!(confirm_buttons(Rect::new(3, 3, 0, 9)), None);
    assert_eq!(confirm_answer_at(Some((no, yes)), (2, 1)), Some(false));
    assert_eq!(confirm_answer_at(Some((no, yes)), (16, 3)), Some(true));
    assert_eq!(confirm_answer_at(Some((no, yes)), (13, 2)), None);
}

#[test]
fn rows_are_counted_from_the_first_the_list_owns() {
    let rect = Rect::new(0, 10, 20, 8);
    assert_eq!(inner_row((3, 10), rect, 0, 0), None);
    assert_eq!(inner_row((3, 11), rect, 0, 0), Some(0));
    assert_eq!(inner_row((3, 16), rect, 0, 0), Some(5));
    assert_eq!(inner_row((3, 17), rect, 0, 0), None);
    assert_eq!(inner_row((0, 11), rect, 0, 0), None);
    assert_eq!(inner_row((1, 11), rect, 0, 0), Some(0));
    assert_eq!(inner_row((18, 11), rect, 0, 0), Some(0));
    assert_eq!(inner_row((19, 11), rect, 0, 0), None);
    assert_eq!(list_row((19, 11), rect, 0, 20, 0, 0), None);
    assert_eq!(drawn_list_row((0, 11), rect, 0, 20, 0, 0), None);
    assert_eq!(inner_row((3, 12), rect, 2, 0), None);
    assert_eq!(inner_row((3, 13), rect, 2, 1), Some(0));
    assert_eq!(inner_row((3, 16), rect, 2, 1), None);
    // Six rows: the tenth entry is pinned to the bottom one.
    assert_eq!(list_row((3, 16), rect, 9, 20, 0, 0), Some(9));
    assert_eq!(list_row((3, 11), rect, 9, 20, 0, 0), Some(4));
    assert_eq!(list_row((3, 16), rect, 0, 3, 0, 0), None);
    assert_eq!(drawn_list_row((3, 12), rect, 7, 20, 0, 0), Some(8));
    assert_eq!(docs_list_row(rect, (3, 12), 7, 20), Some(8));
    assert_eq!(docs_list_row(rect, (0, 12), 7, 20), None);
    assert_eq!(dashboard_list_row(rect, (3, 12), 7, 8), None);
    assert_eq!(inner_shrink(rect, 2, 2), Rect::new(0, 12, 20, 4));
}

#[test]
fn a_notch_is_one_row_and_never_wraps() {
    assert_eq!(stepped(0, 5, false), 0);
    assert_eq!(stepped(0, 5, true), 1);
    assert_eq!(stepped(4, 5, true), 4);
    assert_eq!(stepped(9, 5, false), 4);
    assert_eq!(stepped(3, 0, true), 3);
}

#[test]
fn a_strip_reads_its_titles_with_their_pads() {
    let pane = Rect::new(10, 4, 30, 5);
    let tabs = vec![('a', "Log".to_string()), ('b', "Monitor".to_string())];
    assert_eq!(strip_tab((10, 4), pane, &tabs), None);
    assert_eq!(strip_tab((11, 4), pane, &tabs), Some('a'));
    assert_eq!(strip_tab((15, 4), pane, &tabs), Some('a'));
    // The divider is on neither.
    assert_eq!(strip_tab((16, 4), pane, &tabs), None);
    assert_eq!(strip_tab((17, 4), pane, &tabs), Some('b'));
    assert_eq!(strip_tab((25, 4), pane, &tabs), Some('b'));
    assert_eq!(strip_tab((26, 4), pane, &tabs), None);
    assert_eq!(strip_tab((11, 5), pane, &tabs), None);
}

#[test]
fn the_first_title_of_a_strip_carries_the_panes_number() {
    let app = app_with_backend(BackendKind::MicroPython);
    let tabs = app.log_strip_tabs();
    let number = app.pane_number(Focus::Logs).unwrap();
    assert_eq!(tabs[0], (LogTab::Log, format!("{number} L Log")));
    assert_eq!(tabs[1], (LogTab::Monitor, "S Monitor".to_string()));
    assert_eq!(tabs[2], (LogTab::Terminal, "P Terminal".to_string()));
}

#[test]
fn the_project_picker_counts_the_folder_asked_for() {
    assert_eq!(picker_project_rows(3, 8, true), 3);
    assert_eq!(picker_project_rows(3, 8, false), 8);
}

#[test]
fn the_wheel_leaves_the_focus_alone() {
    let mut app = app_with_backend(BackendKind::MicroPython);
    with_browser(&mut app, 5);
    app.screen.focus = Focus::Logs;
    let frame = browser_frame();
    for _ in 0..9 {
        wheel(&mut app, &frame, true, 4, LEFT.y + 2);
    }
    assert_eq!(app.panels.browser.as_ref().unwrap().local_cursor, 4);
    assert_eq!(app.screen.focus, Focus::Logs);
}
