use chiptui::app::help::{bindings, footer, visible, Context, HelpSection};
use chiptui::app::{Focus, LogTab, View};
use chiptui::backend::Capabilities;
use chiptui::panels::FlashScreen;

const SECTIONS: [HelpSection; 2] = [HelpSection::Navigation, HelpSection::Commands];

fn ctx(caps: Capabilities, focus: Focus) -> Context {
    Context {
        focus,
        caps,
        run_active: false,
        run_view: false,
        log_tab: LogTab::Log,
        flash_screen: None,
        actions_tab: false,
        device_strip: false,
    }
}

fn micropython() -> Capabilities {
    Capabilities::micropython()
}

fn zephyr() -> Capabilities {
    Capabilities::zephyr()
}

fn footer_keys(view: View, ctx: &Context) -> Vec<&'static str> {
    footer(view, ctx).into_iter().map(|(key, _)| key).collect()
}

#[test]
fn every_view_and_section_has_bindings() {
    for view in [View::Dashboard, View::Flash] {
        for section in SECTIONS {
            let rows = bindings(view, section);
            assert!(!rows.is_empty(), "{view:?}/{section:?} is empty");
            for row in rows {
                assert!(!row.key.is_empty());
                assert!(!row.description.is_empty());
            }
        }
    }
}

#[test]
fn only_command_rows_can_be_activated() {
    for view in [View::Dashboard, View::Flash] {
        for row in bindings(view, HelpSection::Navigation) {
            assert!(row.event.is_none(), "{}: {}", row.key, row.description);
        }
        let commands = bindings(view, HelpSection::Commands);
        assert!(commands.iter().any(|row| row.event.is_some()));
    }
}

#[test]
fn descriptions_fit_the_single_line_budget() {
    for view in [View::Dashboard, View::Flash] {
        let key_col = SECTIONS
            .iter()
            .flat_map(|&section| bindings(view, section))
            .map(|row| row.key.chars().count())
            .max()
            .unwrap_or(0);
        for section in SECTIONS {
            for row in bindings(view, section) {
                let width = 2 + key_col + 2 + row.description.chars().count() + 2;
                assert!(
                    width <= 80,
                    "{view:?} '{}/{}' needs {width} columns",
                    row.key,
                    row.description
                );
            }
        }
    }
}

#[test]
fn the_widest_dashboard_row_fits_the_reference_width() {
    let key_col = SECTIONS
        .iter()
        .flat_map(|&section| bindings(View::Dashboard, section))
        .map(|row| row.key.chars().count())
        .max()
        .unwrap_or(0);
    let widest = SECTIONS
        .iter()
        .flat_map(|&section| bindings(View::Dashboard, section))
        .map(|row| row.description.chars().count())
        .max()
        .unwrap_or(0);
    assert!(2 + key_col + 2 + widest + 2 <= 80);
}

#[test]
fn the_footer_lists_every_live_site_in_rank_order() {
    let mut files_ctx = ctx(micropython(), Focus::FilesLocal);
    files_ctx.device_strip = true;
    assert_eq!(
        footer(View::Dashboard, &files_ctx),
        vec![
            ("r", "reload"),
            ("a", "new"),
            ("c", "compare"),
            ("shift+s", "sync"),
            ("h", "hidden"),
            ("x", "flash"),
            ("m", "monitor/REPL"),
            ("shift+r", "restart device"),
            ("ctrl+←/→", "actions"),
            ("shift+p", "projects"),
            ("?", "help"),
        ]
    );
    let device_keys = footer_keys(View::Dashboard, &ctx(micropython(), Focus::FilesDevice));
    assert!(device_keys.contains(&"i"), "{device_keys:?}");

    let mut logs = ctx(micropython(), Focus::Logs);
    logs.run_active = true;
    logs.run_view = true;
    assert_eq!(
        footer_keys(View::Dashboard, &logs),
        vec!["r", "x", "m", "shift+r", "←/→", "ctrl+c", "s", "shift+p", "?"]
    );

    let mut monitor = logs;
    monitor.log_tab = LogTab::Monitor;
    let keys = footer_keys(View::Dashboard, &monitor);
    assert!(keys.contains(&"←/→"), "{keys:?}");

    assert_eq!(
        footer_keys(View::Dashboard, &ctx(zephyr(), Focus::Build)),
        vec!["x", "m", "s", "ctrl+←/→", "shift+p", "?"]
    );
    assert_eq!(
        footer_keys(View::Dashboard, &ctx(zephyr(), Focus::Workspace)),
        vec!["v", "del", "a", "r", "x", "m", "s", "ctrl+←/→", "shift+p", "?"]
    );
    assert_eq!(
        footer_keys(View::Dashboard, &ctx(zephyr(), Focus::Project)),
        vec!["x", "m", "s", "ctrl+←/→", "shift+p", "?"]
    );
}

#[test]
fn the_flash_footer_follows_the_screen() {
    for (screen, expected) in [
        (
            Some(FlashScreen::Menu),
            vec![("s", "search online"), ("u", "paste URL"), ("?", "help")],
        ),
        (Some(FlashScreen::Options), vec![("?", "help")]),
        (
            Some(FlashScreen::OnlineBoards),
            vec![("u", "paste URL"), ("?", "help")],
        ),
        (
            Some(FlashScreen::OnlineFirmware),
            vec![("u", "paste URL"), ("?", "help")],
        ),
        (Some(FlashScreen::CustomUrl), vec![("?", "help")]),
        (None, vec![("?", "help")]),
    ] {
        let mut context = ctx(zephyr(), Focus::Logs);
        context.flash_screen = screen;
        assert_eq!(footer(View::Flash, &context), expected, "screen {screen:?}");
    }
}

#[test]
fn no_context_repeats_a_footer_label() {
    for caps in [micropython(), zephyr(), Capabilities::empty()] {
        for focus in [
            Focus::Project,
            Focus::FilesLocal,
            Focus::FilesDevice,
            Focus::Workspace,
            Focus::Build,
            Focus::Logs,
        ] {
            for actions_tab in [false, true] {
                for device_strip in [false, true] {
                    for run_active in [false, true] {
                        for run_view in [false, true] {
                            for log_tab in [LogTab::Log, LogTab::Monitor, LogTab::Terminal] {
                                let mut context = ctx(caps, focus);
                                context.actions_tab = actions_tab;
                                context.device_strip = device_strip;
                                context.run_active = run_active;
                                context.run_view = run_view;
                                context.log_tab = log_tab;
                                let keys = footer_keys(View::Dashboard, &context);
                                let mut sorted = keys.clone();
                                sorted.sort_unstable();
                                sorted.dedup();
                                assert_eq!(
                                    keys.len(),
                                    sorted.len(),
                                    "duplicate label: {keys:?} (focus {focus:?})"
                                );
                            }
                        }
                    }
                }
            }
        }
    }
}

#[test]
fn every_footer_entry_is_a_described_binding() {
    for view in [View::Dashboard, View::Flash] {
        let described: Vec<&str> = SECTIONS
            .iter()
            .flat_map(|&section| bindings(view, section))
            .map(|row| row.key)
            .collect();
        for binding in SECTIONS.iter().flat_map(|&section| bindings(view, section)) {
            for site in binding.sites.to_vec() {
                assert!(!site.label.is_empty());
                assert!(!site.short.is_empty());
                assert!(described.contains(&binding.key));
            }
        }
    }
}

#[test]
fn the_filter_narrows_keys_and_descriptions() {
    let rows = bindings(View::Dashboard, HelpSection::Commands);
    assert_eq!(visible(&rows, "").len(), rows.len());
    let sync = visible(&rows, "sync");
    assert!(sync.iter().any(|row| row.key == "shift+s"));
    let theme = visible(&rows, "THEME");
    assert_eq!(theme.len(), 1);
    assert_eq!(theme[0].key, "t");
    assert!(visible(&rows, "no such binding").is_empty());
    // One letter more shows no row that was hidden, in the same order; the
    // case makes no difference.
    let mut typed = String::new();
    let mut shown = visible(&rows, "");
    for c in "device".chars() {
        typed.push(c);
        let next = visible(&rows, &typed);
        let keys: Vec<&str> = next.iter().map(|row| row.description).collect();
        let mut rest = shown.iter().map(|row| row.description);
        assert!(keys.iter().all(|k| rest.any(|r| r == *k)), "{typed} must only narrow");
        let upper = visible(&rows, &typed.to_uppercase());
        assert_eq!(keys, upper.iter().map(|row| row.description).collect::<Vec<_>>());
        shown = next;
    }
    assert!(!shown.is_empty());
}

#[test]
fn the_sections_have_titles() {
    assert_eq!(HelpSection::Navigation.title(), "Navigation");
    assert_eq!(HelpSection::Commands.title(), "Commands");
}
