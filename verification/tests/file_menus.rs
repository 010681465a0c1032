use chiptui::app::file_browser::{FileAction, FileViewer, ViewerSource, ViewerState};
use chiptui::app::flash_view::non_micropython_block_reason;
use chiptui::backend::Capabilities;
use chiptui::overlay::DevicePath;
use chiptui::panels::{FirmwareVerdict, FlashFirmware, Side, SyncStatus};
use chiptui::text::{file_name_of, parent_dir_of, trim};
use ratatui::text::Span;
use std::path::Path;

#[test]
fn every_file_action_label_budgets_the_same_column() {
    for action in [
        FileAction::Open,
        FileAction::SendToDevice,
        FileAction::Download,
        FileAction::Run,
        FileAction::View,
        FileAction::Edit,
        FileAction::Diff,
        FileAction::Delete,
    ] {
        let label = action.label();
        let word_start = label
            .char_indices()
            .find(|(_, c)| c.is_alphabetic())
            .map(|(i, _)| i)
            .expect("label has a word");
        let prefix_width = Span::raw(&label[..word_start]).width();
        assert_eq!(
            prefix_width, 3,
            "{label:?} budgets {prefix_width} cells before its word, want 3"
        );
    }
}

#[test]
fn file_actions_without_upload_or_filesystem_are_purely_local() {
    let caps = Capabilities::zephyr();
    assert_eq!(
        FileAction::for_entry(Side::Local, false, true, None, caps),
        vec![FileAction::View, FileAction::Edit, FileAction::Delete]
    );
    assert_eq!(
        FileAction::for_entry(Side::Local, false, false, None, caps),
        vec![FileAction::Delete]
    );
    assert_eq!(
        FileAction::for_entry(Side::Local, true, false, None, caps),
        vec![FileAction::Open, FileAction::Delete]
    );
    assert!(
        !FileAction::for_entry(Side::Local, false, true, Some(SyncStatus::Differs), caps)
            .contains(&FileAction::Diff)
    );
}

#[test]
fn file_actions_keep_transfers_under_upload_and_filesystem() {
    let caps = Capabilities::micropython();
    assert_eq!(
        FileAction::for_entry(Side::Local, true, false, None, caps),
        vec![FileAction::Open, FileAction::SendToDevice, FileAction::Delete]
    );
    assert_eq!(
        FileAction::for_entry(Side::Local, false, true, Some(SyncStatus::Differs), caps),
        vec![
            FileAction::SendToDevice,
            FileAction::Run,
            FileAction::View,
            FileAction::Edit,
            FileAction::Diff,
            FileAction::Delete
        ]
    );
}

#[test]
fn only_non_micropython_verdicts_refuse_the_listing() {
    assert_eq!(
        non_micropython_block_reason(&FirmwareVerdict::Firmware(
            FlashFirmware::MicroPython,
            Some("v1.28.0".to_string())
        )),
        None
    );
    for (verdict, needle) in [
        (
            FirmwareVerdict::Firmware(FlashFirmware::Zephyr, Some("v4.0.0".to_string())),
            "Zephyr v4.0.0",
        ),
        (
            FirmwareVerdict::Firmware(FlashFirmware::EspIdf, None),
            "ESP-IDF",
        ),
    ] {
        let reason =
            non_micropython_block_reason(&verdict).expect("a foreign firmware must refuse");
        assert!(
            reason.contains("cannot read files") && reason.contains(needle),
            "the reason must say what is refused and by what: {reason}"
        );
    }
    let erased = non_micropython_block_reason(&FirmwareVerdict::Erased)
        .expect("a blank chip has no files to list");
    assert!(
        erased.contains("no firmware") && erased.contains("flash MicroPython"),
        "an erased flash must point at the way out: {erased}"
    );
}

#[test]
fn a_device_file_offers_no_upload() {
    let caps = Capabilities::micropython();
    let menu = FileAction::for_entry(Side::Device, false, true, None, caps);
    assert!(menu.contains(&FileAction::Download));
    assert!(!menu.contains(&FileAction::SendToDevice));
}

#[test]
fn a_viewer_is_named_after_its_file() {
    let viewer = |source| FileViewer { source, state: ViewerState::Loading, scroll: 0 };
    assert_eq!(
        viewer(ViewerSource::Local("/home/someone/app/main.py".to_string())).display_name(),
        "main.py"
    );
    assert_eq!(
        viewer(ViewerSource::Device(DevicePath {
            text: "/lib/boot.py".to_string(),
            name: "boot.py".to_string(),
        }))
        .display_name(),
        "boot.py"
    );
    assert_eq!(
        viewer(ViewerSource::RunOutput("main.py".to_string())).display_name(),
        "main.py — output"
    );
}

#[test]
fn a_path_is_named_by_its_last_component() {
    for (path, name) in [
        ("/proj/src/main.py", "main.py"),
        ("main.py", "main.py"),
        ("/proj/src/", "src"),
        ("/proj/src//./", "src"),
        ("/proj/..", ""),
        ("/", ""),
        (".", ""),
        ("", ""),
    ] {
        assert_eq!(file_name_of(path), name, "{path}");
        assert_eq!(
            name,
            Path::new(path).file_name().map_or("", |n| n.to_str().unwrap()),
            "{path}"
        );
    }
    for (path, dir) in [
        ("/proj/src/main.py", "/proj/src"),
        ("/proj/src/", "/proj"),
        ("/proj//main.py", "/proj"),
        ("/main.py", "/"),
        ("main.py", ""),
        ("./main.py", "."),
        ("..", ""),
        ("/", "."),
        ("", "."),
    ] {
        assert_eq!(parent_dir_of(path), dir, "{path}");
        assert_eq!(
            dir,
            Path::new(path).parent().map_or(".", |p| p.to_str().unwrap()),
            "{path}"
        );
    }
    let diff = FileViewer {
        source: ViewerSource::Diff {
            local: "/proj/lib/".to_string(),
            device: DevicePath { text: "/lib".to_string(), name: "lib".to_string() },
        },
        state: ViewerState::Loading,
        scroll: 0,
    };
    assert_eq!(diff.display_name(), "Diff: lib  (local ↔ device)");
}

#[test]
fn trimming_takes_every_white_character() {
    let white: Vec<char> = (0u32..0x110000)
        .filter_map(char::from_u32)
        .filter(|c| trim(&c.to_string()).is_empty())
        .collect();
    let mut listed: Vec<char> = ('\u{9}'..='\u{d}').collect();
    listed.extend([' ', '\u{85}', '\u{a0}', '\u{1680}']);
    listed.extend('\u{2000}'..='\u{200a}');
    listed.extend(['\u{2028}', '\u{2029}', '\u{202f}', '\u{205f}', '\u{3000}']);
    assert_eq!(white, listed);
}
