//! The keybinding table: one declaration per binding, consumed by both
//! surfaces that show keys --- the help window renders the rows, the footer
//! renders each row's [`Site`]s --- so footer and help cannot drift apart.

use vstd::prelude::*;
use vstd::view::View as _;
use vstd::string::*;

use crate::app::{Focus, LogTab, View};
use crate::backend::{Capabilities, Capability};
use crate::input::{KeyCode, KeyModifiers};
use crate::panels::FlashScreen;
use crate::text;

verus! {

/// One of the two divisions the help bindings are split into.
#[derive(Debug, Clone, Copy, PartialEq, Eq, Structural)]
pub enum HelpSection {
    /// Moving around; never part of the select.
    Navigation,
    /// The actions: the select.
    Commands,
}

impl HelpSection {
    /// The division's heading.
    pub fn title(self) -> (r: &'static str)
        ensures
            r@ == match self {
                HelpSection::Navigation => "Navigation"@,
                HelpSection::Commands => "Commands"@,
            },
    {
        match self {
            HelpSection::Navigation => "Navigation",
            HelpSection::Commands => "Commands",
        }
    }
}

/// The focused panes a site applies to.
#[derive(Debug, Clone, Copy)]
pub enum Foci {
    Any,
    One(Focus),
    Two(Focus, Focus),
    Three(Focus, Focus, Focus),
}

impl Foci {
    pub open spec fn has(self, focus: Focus) -> bool {
        match self {
            Foci::Any => true,
            Foci::One(a) => focus == a,
            Foci::Two(a, b) => focus == a || focus == b,
            Foci::Three(a, b, c) => focus == a || focus == b || focus == c,
        }
    }

    pub fn contains(self, focus: Focus) -> (r: bool)
        ensures
            r == self.has(focus),
    {
        match self {
            Foci::Any => true,
            Foci::One(a) => focus == a,
            Foci::Two(a, b) => focus == a || focus == b,
            Foci::Three(a, b, c) => focus == a || focus == b || focus == c,
        }
    }
}

/// Capabilities of which any one must be present.
#[derive(Debug, Clone, Copy)]
pub enum AnyOf {
    /// None is required.
    Nothing,
    One(Capability),
    Two(Capability, Capability),
}

impl AnyOf {
    pub open spec fn met(self, caps: Capabilities) -> bool {
        match self {
            AnyOf::Nothing => true,
            AnyOf::One(a) => caps.has(a),
            AnyOf::Two(a, b) => caps.has(a) || caps.has(b),
        }
    }

    pub fn met_by(self, caps: &Capabilities) -> (r: bool)
        ensures
            r == self.met(*caps),
    {
        match self {
            AnyOf::Nothing => true,
            AnyOf::One(a) => caps.contains(a),
            AnyOf::Two(a, b) => caps.contains(a) || caps.contains(b),
        }
    }
}

/// One context a binding is live in, as the footer shows it.
#[derive(Debug, Clone, Copy)]
pub struct Site {
    pub label: &'static str,
    pub short: &'static str,
    /// The footer position.
    pub rank: u8,
    pub foci: Foci,
    pub caps: AnyOf,
    pub when: When,
}

/// The extra state a [`Site`] can depend on.
#[derive(Debug, Clone, Copy, PartialEq, Eq, Structural)]
pub enum When {
    Always,
    /// A script is running on the device.
    RunActive,
    /// The Monitor tab is showing a captured run output.
    RunView,
    /// The Log tab is showing.
    LogTab,
    /// A specific flash-view screen; `None` is the view without a panel.
    Screen(Option<FlashScreen>),
    /// The device pane is showing its actions tab and holds focus.
    ActionsTab,
    /// It is not.
    FilesTab,
    /// The device pane has a tab strip at all, or has none.
    DeviceStrip(bool),
}

/// Everything a [`Site`] can be tested against.
#[derive(Debug, Clone, Copy)]
pub struct Context {
    pub focus: Focus,
    pub caps: Capabilities,
    pub run_active: bool,
    pub run_view: bool,
    pub log_tab: LogTab,
    pub flash_screen: Option<FlashScreen>,
    pub actions_tab: bool,
    pub device_strip: bool,
}

impl When {
    pub open spec fn holds(self, ctx: Context) -> bool {
        match self {
            When::Always => true,
            When::RunActive => ctx.run_active,
            When::RunView => ctx.run_view,
            When::LogTab => ctx.log_tab == LogTab::Log,
            When::Screen(screen) => ctx.flash_screen == screen,
            When::ActionsTab => ctx.actions_tab,
            When::FilesTab => !ctx.actions_tab,
            When::DeviceStrip(want) => ctx.device_strip == want,
        }
    }

    /// Whether the condition holds in `ctx`.
    pub fn matches(self, ctx: &Context) -> (r: bool)
        ensures
            r == self.holds(*ctx),
    {
        match self {
            When::Always => true,
            When::RunActive => ctx.run_active,
            When::RunView => ctx.run_view,
            When::LogTab => ctx.log_tab == LogTab::Log,
            When::Screen(screen) => match (screen, ctx.flash_screen) {
                (Some(a), Some(b)) => a == b,
                (None, None) => true,
                _ => false,
            },
            When::ActionsTab => ctx.actions_tab,
            When::FilesTab => !ctx.actions_tab,
            When::DeviceStrip(want) => ctx.device_strip == want,
        }
    }
}

impl Site {
    pub open spec fn live(self, ctx: Context) -> bool {
        self.foci.has(ctx.focus) && self.caps.met(ctx.caps) && self.when.holds(ctx)
    }

    /// Whether this site is live for `ctx`.
    pub fn matches(&self, ctx: &Context) -> (r: bool)
        ensures
            r == self.live(*ctx),
    {
        self.foci.contains(ctx.focus) && self.caps.met_by(&ctx.caps) && self.when.matches(ctx)
    }
}

/// A site from its parts.
pub fn site(
    label: &'static str,
    short: &'static str,
    rank: u8,
    foci: Foci,
    caps: AnyOf,
    when: When,
) -> (r: Site)
    ensures
        r == (Site { label, short, rank, foci, caps, when }),
{
    Site { label, short, rank, foci, caps, when }
}

/// The sites of one binding, at most three.
#[derive(Debug, Clone, Copy)]
pub enum Sites {
    Zero,
    One(Site),
    Two(Site, Site),
    Three(Site, Site, Site),
}

impl Sites {
    pub open spec fn list(self) -> Seq<Site> {
        match self {
            Sites::Zero => Seq::empty(),
            Sites::One(a) => seq![a],
            Sites::Two(a, b) => seq![a, b],
            Sites::Three(a, b, c) => seq![a, b, c],
        }
    }

    /// The sites, in order.
    pub fn to_vec(self) -> (r: Vec<Site>)
        ensures
            r@ == self.list(),
    {
        let mut r: Vec<Site> = Vec::new();
        match self {
            Sites::Zero => {},
            Sites::One(a) => {
                r.push(a);
            },
            Sites::Two(a, b) => {
                r.push(a);
                r.push(b);
            },
            Sites::Three(a, b, c) => {
                r.push(a);
                r.push(b);
                r.push(c);
            },
        }
        assert(r@ =~= self.list());
        r
    }
}

/// One key binding: the keys that trigger it, what they do, the event the
/// select replays to activate it, and where the footer shows it.
#[derive(Debug, Clone, Copy)]
pub struct HelpBinding {
    pub key: &'static str,
    pub description: &'static str,
    pub event: Option<(KeyCode, KeyModifiers)>,
    pub sites: Sites,
}

/// The movement keys of the dashboard.
pub open spec fn spec_dashboard_navigation(index: usize) -> HelpBinding {
    match index {
        0 => HelpBinding {
            key: "tab / shift+tab",
            description: "move focus between panes",
            event: None,
            sites: Sites::Zero,
        },
        1 => HelpBinding {
            key: "ctrl+k",
            description: "reveal pane letters; press one to jump",
            event: None,
            sites: Sites::Zero,
        },
        2 => HelpBinding {
            key: "↑ ↓ / k j",
            description: "navigate inside the focused pane",
            event: None,
            sites: Sites::Zero,
        },
        3 => HelpBinding {
            key: "page up/down",
            description: "scroll the log by one screen",
            event: None,
            sites: Sites::Zero,
        },
        4 => HelpBinding {
            key: "home / end",
            description: "jump to start / end",
            event: None,
            sites: Sites::Zero,
        },
        5 => HelpBinding {
            key: "→",
            description: "descend into the selected directory",
            event: None,
            sites: Sites::Zero,
        },
        6 => HelpBinding {
            key: "backspace / ←",
            description: "go to the parent directory",
            event: None,
            sites: Sites::Zero,
        },
        7 => HelpBinding {
            key: "ctrl+← / ctrl+→",
            description: "switch the device pane's tabs from any pane",
            event: None,
            sites: Sites::Three(
                Site {
                    label: "ctrl+←/→",
                    short: "actions",
                    rank: 13,
                    foci: Foci::One(Focus::FilesDevice),
                    caps: AnyOf::Two(Capability::Flash, Capability::EraseFlash),
                    when: When::FilesTab,
                },
                Site {
                    label: "←/→",
                    short: "files",
                    rank: 13,
                    foci: Foci::One(Focus::FilesDevice),
                    caps: AnyOf::Two(Capability::Flash, Capability::EraseFlash),
                    when: When::ActionsTab,
                },
                Site {
                    label: "ctrl+←/→",
                    short: "actions",
                    rank: 59,
                    foci: Foci::Two(Focus::FilesLocal, Focus::Project),
                    caps: AnyOf::Nothing,
                    when: When::DeviceStrip(true),
                },
            ),
        },
        8 => HelpBinding {
            key: "← / →",
            description: "switch the Log, Monitor and Terminal tabs",
            event: None,
            sites: Sites::Two(
                Site {
                    label: "←/→",
                    short: "tabs",
                    rank: 60,
                    foci: Foci::One(Focus::Logs),
                    caps: AnyOf::Nothing,
                    when: When::Always,
                },
                Site {
                    label: "ctrl+←/→",
                    short: "tabs",
                    rank: 61,
                    foci: Foci::Three(Focus::Workspace, Focus::Build, Focus::Project),
                    caps: AnyOf::Nothing,
                    when: When::DeviceStrip(false),
                },
            ),
        },
        _ => HelpBinding {
            key: "shift+p",
            description: "back to the project list",
            event: None,
            sites: Sites::One(
                Site {
                    label: "shift+p",
                    short: "projects",
                    rank: 70,
                    foci: Foci::Any,
                    caps: AnyOf::Nothing,
                    when: When::Always,
                },
            ),
        },
    }
}

fn dashboard_navigation(index: usize) -> (r: HelpBinding)
    ensures
        r == spec_dashboard_navigation(index),
{
    match index {
        0 => HelpBinding {
            key: "tab / shift+tab",
            description: "move focus between panes",
            event: None,
            sites: Sites::Zero,
        },
        1 => HelpBinding {
            key: "ctrl+k",
            description: "reveal pane letters; press one to jump",
            event: None,
            sites: Sites::Zero,
        },
        2 => HelpBinding {
            key: "↑ ↓ / k j",
            description: "navigate inside the focused pane",
            event: None,
            sites: Sites::Zero,
        },
        3 => HelpBinding {
            key: "page up/down",
            description: "scroll the log by one screen",
            event: None,
            sites: Sites::Zero,
        },
        4 => HelpBinding {
            key: "home / end",
            description: "jump to start / end",
            event: None,
            sites: Sites::Zero,
        },
        5 => HelpBinding {
            key: "→",
            description: "descend into the selected directory",
            event: None,
            sites: Sites::Zero,
        },
        6 => HelpBinding {
            key: "backspace / ←",
            description: "go to the parent directory",
            event: None,
            sites: Sites::Zero,
        },
        7 => HelpBinding {
            key: "ctrl+← / ctrl+→",
            description: "switch the device pane's tabs from any pane",
            event: None,
            sites: Sites::Three(
                Site {
                    label: "ctrl+←/→",
                    short: "actions",
                    rank: 13,
                    foci: Foci::One(Focus::FilesDevice),
                    caps: AnyOf::Two(Capability::Flash, Capability::EraseFlash),
                    when: When::FilesTab,
                },
                Site {
                    label: "←/→",
                    short: "files",
                    rank: 13,
                    foci: Foci::One(Focus::FilesDevice),
                    caps: AnyOf::Two(Capability::Flash, Capability::EraseFlash),
                    when: When::ActionsTab,
                },
                Site {
                    label: "ctrl+←/→",
                    short: "actions",
                    rank: 59,
                    foci: Foci::Two(Focus::FilesLocal, Focus::Project),
                    caps: AnyOf::Nothing,
                    when: When::DeviceStrip(true),
                },
            ),
        },
        8 => HelpBinding {
            key: "← / →",
            description: "switch the Log, Monitor and Terminal tabs",
            event: None,
            sites: Sites::Two(
                Site {
                    label: "←/→",
                    short: "tabs",
                    rank: 60,
                    foci: Foci::One(Focus::Logs),
                    caps: AnyOf::Nothing,
                    when: When::Always,
                },
                Site {
                    label: "ctrl+←/→",
                    short: "tabs",
                    rank: 61,
                    foci: Foci::Three(Focus::Workspace, Focus::Build, Focus::Project),
                    caps: AnyOf::Nothing,
                    when: When::DeviceStrip(false),
                },
            ),
        },
        _ => HelpBinding {
            key: "shift+p",
            description: "back to the project list",
            event: None,
            sites: Sites::One(
                Site {
                    label: "shift+p",
                    short: "projects",
                    rank: 70,
                    foci: Foci::Any,
                    caps: AnyOf::Nothing,
                    when: When::Always,
                },
            ),
        },
    }
}

/// The dashboard's commands.
pub open spec fn spec_dashboard_command(index: usize) -> HelpBinding {
    match index {
        0 => HelpBinding {
            key: "r",
            description: "re-detect, reload, or rename (file list)",
            event: Some((KeyCode::Char('r'), KeyModifiers::spec_none())),
            sites: Sites::Three(
                Site {
                    label: "r",
                    short: "reload",
                    rank: 13,
                    foci: Foci::Two(Focus::FilesLocal, Focus::FilesDevice),
                    caps: AnyOf::Nothing,
                    when: When::FilesTab,
                },
                Site {
                    label: "r",
                    short: "rename",
                    rank: 15,
                    foci: Foci::One(Focus::Workspace),
                    caps: AnyOf::Nothing,
                    when: When::Always,
                },
                Site {
                    label: "r",
                    short: "re-detect",
                    rank: 10,
                    foci: Foci::One(Focus::Logs),
                    caps: AnyOf::Nothing,
                    when: When::Always,
                },
            ),
        },
        1 => HelpBinding {
            key: "t",
            description: "pick a color theme",
            event: Some((KeyCode::Char('t'), KeyModifiers::spec_none())),
            sites: Sites::Zero,
        },
        2 => HelpBinding {
            key: "ctrl+i",
            description: "cycle icons (unicode/nerd/none)",
            event: Some((KeyCode::Char('i'), KeyModifiers::spec_control())),
            sites: Sites::Zero,
        },
        3 => HelpBinding {
            key: "x",
            description: "open the device pane's Actions tab",
            event: Some((KeyCode::Char('x'), KeyModifiers::spec_none())),
            sites: Sites::One(
                Site {
                    label: "x",
                    short: "flash",
                    rank: 52,
                    foci: Foci::Any,
                    caps: AnyOf::Two(Capability::Flash, Capability::EraseFlash),
                    when: When::Always,
                },
            ),
        },
        4 => HelpBinding {
            key: "enter (files)",
            description: "browser: entry menu; workspace: open or answer",
            event: Some((KeyCode::Enter, KeyModifiers::spec_none())),
            sites: Sites::Zero,
        },
        5 => HelpBinding {
            key: "v (workspace files)",
            description: "view a text file in the viewer",
            event: Some((KeyCode::Char('v'), KeyModifiers::spec_none())),
            sites: Sites::One(
                Site {
                    label: "v",
                    short: "view",
                    rank: 12,
                    foci: Foci::One(Focus::Workspace),
                    caps: AnyOf::Nothing,
                    when: When::Always,
                },
            ),
        },
        6 => HelpBinding {
            key: "del (workspace files)",
            description: "delete the selected entry (asks first)",
            event: Some((KeyCode::Delete, KeyModifiers::spec_none())),
            sites: Sites::One(
                Site {
                    label: "del",
                    short: "delete",
                    rank: 13,
                    foci: Foci::One(Focus::Workspace),
                    caps: AnyOf::Nothing,
                    when: When::Always,
                },
            ),
        },
        7 => HelpBinding {
            key: "a",
            description: "create a file, or a dir if the name ends with /",
            event: Some((KeyCode::Char('a'), KeyModifiers::spec_none())),
            sites: Sites::Two(
                Site {
                    label: "a",
                    short: "new",
                    rank: 14,
                    foci: Foci::Two(Focus::FilesLocal, Focus::FilesDevice),
                    caps: AnyOf::Nothing,
                    when: When::FilesTab,
                },
                Site {
                    label: "a",
                    short: "new",
                    rank: 14,
                    foci: Foci::One(Focus::Workspace),
                    caps: AnyOf::Nothing,
                    when: When::Always,
                },
            ),
        },
        8 => HelpBinding {
            key: "c",
            description: "compare the selected file by sha256",
            event: Some((KeyCode::Char('c'), KeyModifiers::spec_none())),
            sites: Sites::One(
                Site {
                    label: "c",
                    short: "compare",
                    rank: 15,
                    foci: Foci::Two(Focus::FilesLocal, Focus::FilesDevice),
                    caps: AnyOf::One(Capability::Filesystem),
                    when: When::FilesTab,
                },
            ),
        },
        9 => HelpBinding {
            key: "shift+s",
            description: "sync local files to the device",
            event: Some((KeyCode::Char('s'), KeyModifiers::spec_shift())),
            sites: Sites::One(
                Site {
                    label: "shift+s",
                    short: "sync",
                    rank: 16,
                    foci: Foci::Two(Focus::FilesLocal, Focus::FilesDevice),
                    caps: AnyOf::One(Capability::Filesystem),
                    when: When::FilesTab,
                },
            ),
        },
        10 => HelpBinding {
            key: "h",
            description: "show or hide dot-files",
            event: Some((KeyCode::Char('h'), KeyModifiers::spec_none())),
            sites: Sites::One(
                Site {
                    label: "h",
                    short: "hidden",
                    rank: 17,
                    foci: Foci::Two(Focus::FilesLocal, Focus::FilesDevice),
                    caps: AnyOf::Nothing,
                    when: When::FilesTab,
                },
            ),
        },
        11 => HelpBinding {
            key: "enter (build pane)",
            description: "run the selected action (build or flash pane)",
            event: Some((KeyCode::Enter, KeyModifiers::spec_none())),
            sites: Sites::Zero,
        },
        12 => HelpBinding {
            key: "d",
            description: "scan for devices (mpremote or USB serial)",
            event: Some((KeyCode::Char('d'), KeyModifiers::spec_none())),
            sites: Sites::Zero,
        },
        13 => HelpBinding {
            key: "i",
            description: "open the package manager",
            event: Some((KeyCode::Char('i'), KeyModifiers::spec_none())),
            sites: Sites::One(
                Site {
                    label: "i",
                    short: "packages",
                    rank: 18,
                    foci: Foci::One(Focus::FilesDevice),
                    caps: AnyOf::One(Capability::PackageInstall),
                    when: When::FilesTab,
                },
            ),
        },
        14 => HelpBinding {
            key: "v (actions tab)",
            description: "verify the flash against a firmware file",
            event: Some((KeyCode::Char('v'), KeyModifiers::spec_none())),
            sites: Sites::One(
                Site {
                    label: "v",
                    short: "verify",
                    rank: 19,
                    foci: Foci::One(Focus::FilesDevice),
                    caps: AnyOf::One(Capability::EraseFlash),
                    when: When::ActionsTab,
                },
            ),
        },
        15 => HelpBinding {
            key: "del (packages)",
            description: "remove a package from requirements.txt and the board",
            event: Some((KeyCode::Delete, KeyModifiers::spec_none())),
            sites: Sites::Zero,
        },
        16 => HelpBinding {
            key: "s (dependencies row)",
            description: "open the package manager",
            event: Some((KeyCode::Char('s'), KeyModifiers::spec_none())),
            sites: Sites::One(
                Site {
                    label: "s",
                    short: "packages",
                    rank: 20,
                    foci: Foci::One(Focus::Project),
                    caps: AnyOf::One(Capability::PackageInstall),
                    when: When::Always,
                },
            ),
        },
        17 => HelpBinding {
            key: "m",
            description: "open the device monitor/REPL; ctrl+] exits",
            event: Some((KeyCode::Char('m'), KeyModifiers::spec_none())),
            sites: Sites::One(
                Site {
                    label: "m",
                    short: "monitor/REPL",
                    rank: 53,
                    foci: Foci::Any,
                    caps: AnyOf::One(Capability::Monitor),
                    when: When::Always,
                },
            ),
        },
        18 => HelpBinding {
            key: "terminal (tab)",
            description: "the Terminal tab runs your shell (ctrl+] detaches)",
            event: None,
            sites: Sites::Zero,
        },
        19 => HelpBinding {
            key: "s",
            description: "add or update the SDK's toolchains",
            event: Some((KeyCode::Char('s'), KeyModifiers::spec_none())),
            sites: Sites::One(
                Site {
                    label: "s",
                    short: "toolchains",
                    rank: 54,
                    foci: Foci::Any,
                    caps: AnyOf::One(Capability::WorkspaceSync),
                    when: When::Always,
                },
            ),
        },
        20 => HelpBinding {
            key: "shift+r",
            description: "restart the device (soft-reset)",
            event: Some((KeyCode::Char('r'), KeyModifiers::spec_shift())),
            sites: Sites::One(
                Site {
                    label: "shift+r",
                    short: "restart device",
                    rank: 54,
                    foci: Foci::Any,
                    caps: AnyOf::One(Capability::Reset),
                    when: When::Always,
                },
            ),
        },
        21 => HelpBinding {
            key: "e",
            description: "edit the viewed file with $EDITOR",
            event: Some((KeyCode::Char('e'), KeyModifiers::spec_none())),
            sites: Sites::Zero,
        },
        22 => HelpBinding {
            key: "s",
            description: "save the run output to a file",
            event: Some((KeyCode::Char('s'), KeyModifiers::spec_none())),
            sites: Sites::One(
                Site {
                    label: "s",
                    short: "save output",
                    rank: 62,
                    foci: Foci::One(Focus::Logs),
                    caps: AnyOf::One(Capability::Run),
                    when: When::RunView,
                },
            ),
        },
        23 => HelpBinding {
            key: "?",
            description: "toggle this help",
            event: None,
            sites: Sites::One(
                Site {
                    label: "?",
                    short: "help",
                    rank: 71,
                    foci: Foci::Any,
                    caps: AnyOf::Nothing,
                    when: When::Always,
                },
            ),
        },
        _ => HelpBinding {
            key: "q / ctrl+c",
            description: "quit; interrupts a running script",
            event: Some((KeyCode::Char('q'), KeyModifiers::spec_none())),
            sites: Sites::One(
                Site {
                    label: "ctrl+c",
                    short: "interrupt",
                    rank: 61,
                    foci: Foci::One(Focus::Logs),
                    caps: AnyOf::Nothing,
                    when: When::RunActive,
                },
            ),
        },
    }
}

fn dashboard_command(index: usize) -> (r: HelpBinding)
    ensures
        r == spec_dashboard_command(index),
{
    match index {
        0 => HelpBinding {
            key: "r",
            description: "re-detect, reload, or rename (file list)",
            event: Some((KeyCode::Char('r'), KeyModifiers::none())),
            sites: Sites::Three(
                Site {
                    label: "r",
                    short: "reload",
                    rank: 13,
                    foci: Foci::Two(Focus::FilesLocal, Focus::FilesDevice),
                    caps: AnyOf::Nothing,
                    when: When::FilesTab,
                },
                Site {
                    label: "r",
                    short: "rename",
                    rank: 15,
                    foci: Foci::One(Focus::Workspace),
                    caps: AnyOf::Nothing,
                    when: When::Always,
                },
                Site {
                    label: "r",
                    short: "re-detect",
                    rank: 10,
                    foci: Foci::One(Focus::Logs),
                    caps: AnyOf::Nothing,
                    when: When::Always,
                },
            ),
        },
        1 => HelpBinding {
            key: "t",
            description: "pick a color theme",
            event: Some((KeyCode::Char('t'), KeyModifiers::none())),
            sites: Sites::Zero,
        },
        2 => HelpBinding {
            key: "ctrl+i",
            description: "cycle icons (unicode/nerd/none)",
            event: Some((KeyCode::Char('i'), KeyModifiers::control())),
            sites: Sites::Zero,
        },
        3 => HelpBinding {
            key: "x",
            description: "open the device pane's Actions tab",
            event: Some((KeyCode::Char('x'), KeyModifiers::none())),
            sites: Sites::One(
                Site {
                    label: "x",
                    short: "flash",
                    rank: 52,
                    foci: Foci::Any,
                    caps: AnyOf::Two(Capability::Flash, Capability::EraseFlash),
                    when: When::Always,
                },
            ),
        },
        4 => HelpBinding {
            key: "enter (files)",
            description: "browser: entry menu; workspace: open or answer",
            event: Some((KeyCode::Enter, KeyModifiers::none())),
            sites: Sites::Zero,
        },
        5 => HelpBinding {
            key: "v (workspace files)",
            description: "view a text file in the viewer",
            event: Some((KeyCode::Char('v'), KeyModifiers::none())),
            sites: Sites::One(
                Site {
                    label: "v",
                    short: "view",
                    rank: 12,
                    foci: Foci::One(Focus::Workspace),
                    caps: AnyOf::Nothing,
                    when: When::Always,
                },
            ),
        },
        6 => HelpBinding {
            key: "del (workspace files)",
            description: "delete the selected entry (asks first)",
            event: Some((KeyCode::Delete, KeyModifiers::none())),
            sites: Sites::One(
                Site {
                    label: "del",
                    short: "delete",
                    rank: 13,
                    foci: Foci::One(Focus::Workspace),
                    caps: AnyOf::Nothing,
                    when: When::Always,
                },
            ),
        },
        7 => HelpBinding {
            key: "a",
            description: "create a file, or a dir if the name ends with /",
            event: Some((KeyCode::Char('a'), KeyModifiers::none())),
            sites: Sites::Two(
                Site {
                    label: "a",
                    short: "new",
                    rank: 14,
                    foci: Foci::Two(Focus::FilesLocal, Focus::FilesDevice),
                    caps: AnyOf::Nothing,
                    when: When::FilesTab,
                },
                Site {
                    label: "a",
                    short: "new",
                    rank: 14,
                    foci: Foci::One(Focus::Workspace),
                    caps: AnyOf::Nothing,
                    when: When::Always,
                },
            ),
        },
        8 => HelpBinding {
            key: "c",
            description: "compare the selected file by sha256",
            event: Some((KeyCode::Char('c'), KeyModifiers::none())),
            sites: Sites::One(
                Site {
                    label: "c",
                    short: "compare",
                    rank: 15,
                    foci: Foci::Two(Focus::FilesLocal, Focus::FilesDevice),
                    caps: AnyOf::One(Capability::Filesystem),
                    when: When::FilesTab,
                },
            ),
        },
        9 => HelpBinding {
            key: "shift+s",
            description: "sync local files to the device",
            event: Some((KeyCode::Char('s'), KeyModifiers::shift())),
            sites: Sites::One(
                Site {
                    label: "shift+s",
                    short: "sync",
                    rank: 16,
                    foci: Foci::Two(Focus::FilesLocal, Focus::FilesDevice),
                    caps: AnyOf::One(Capability::Filesystem),
                    when: When::FilesTab,
                },
            ),
        },
        10 => HelpBinding {
            key: "h",
            description: "show or hide dot-files",
            event: Some((KeyCode::Char('h'), KeyModifiers::none())),
            sites: Sites::One(
                Site {
                    label: "h",
                    short: "hidden",
                    rank: 17,
                    foci: Foci::Two(Focus::FilesLocal, Focus::FilesDevice),
                    caps: AnyOf::Nothing,
                    when: When::FilesTab,
                },
            ),
        },
        11 => HelpBinding {
            key: "enter (build pane)",
            description: "run the selected action (build or flash pane)",
            event: Some((KeyCode::Enter, KeyModifiers::none())),
            sites: Sites::Zero,
        },
        12 => HelpBinding {
            key: "d",
            description: "scan for devices (mpremote or USB serial)",
            event: Some((KeyCode::Char('d'), KeyModifiers::none())),
            sites: Sites::Zero,
        },
        13 => HelpBinding {
            key: "i",
            description: "open the package manager",
            event: Some((KeyCode::Char('i'), KeyModifiers::none())),
            sites: Sites::One(
                Site {
                    label: "i",
                    short: "packages",
                    rank: 18,
                    foci: Foci::One(Focus::FilesDevice),
                    caps: AnyOf::One(Capability::PackageInstall),
                    when: When::FilesTab,
                },
            ),
        },
        14 => HelpBinding {
            key: "v (actions tab)",
            description: "verify the flash against a firmware file",
            event: Some((KeyCode::Char('v'), KeyModifiers::none())),
            sites: Sites::One(
                Site {
                    label: "v",
                    short: "verify",
                    rank: 19,
                    foci: Foci::One(Focus::FilesDevice),
                    caps: AnyOf::One(Capability::EraseFlash),
                    when: When::ActionsTab,
                },
            ),
        },
        15 => HelpBinding {
            key: "del (packages)",
            description: "remove a package from requirements.txt and the board",
            event: Some((KeyCode::Delete, KeyModifiers::none())),
            sites: Sites::Zero,
        },
        16 => HelpBinding {
            key: "s (dependencies row)",
            description: "open the package manager",
            event: Some((KeyCode::Char('s'), KeyModifiers::none())),
            sites: Sites::One(
                Site {
                    label: "s",
                    short: "packages",
                    rank: 20,
                    foci: Foci::One(Focus::Project),
                    caps: AnyOf::One(Capability::PackageInstall),
                    when: When::Always,
                },
            ),
        },
        17 => HelpBinding {
            key: "m",
            description: "open the device monitor/REPL; ctrl+] exits",
            event: Some((KeyCode::Char('m'), KeyModifiers::none())),
            sites: Sites::One(
                Site {
                    label: "m",
                    short: "monitor/REPL",
                    rank: 53,
                    foci: Foci::Any,
                    caps: AnyOf::One(Capability::Monitor),
                    when: When::Always,
                },
            ),
        },
        18 => HelpBinding {
            key: "terminal (tab)",
            description: "the Terminal tab runs your shell (ctrl+] detaches)",
            event: None,
            sites: Sites::Zero,
        },
        19 => HelpBinding {
            key: "s",
            description: "add or update the SDK's toolchains",
            event: Some((KeyCode::Char('s'), KeyModifiers::none())),
            sites: Sites::One(
                Site {
                    label: "s",
                    short: "toolchains",
                    rank: 54,
                    foci: Foci::Any,
                    caps: AnyOf::One(Capability::WorkspaceSync),
                    when: When::Always,
                },
            ),
        },
        20 => HelpBinding {
            key: "shift+r",
            description: "restart the device (soft-reset)",
            event: Some((KeyCode::Char('r'), KeyModifiers::shift())),
            sites: Sites::One(
                Site {
                    label: "shift+r",
                    short: "restart device",
                    rank: 54,
                    foci: Foci::Any,
                    caps: AnyOf::One(Capability::Reset),
                    when: When::Always,
                },
            ),
        },
        21 => HelpBinding {
            key: "e",
            description: "edit the viewed file with $EDITOR",
            event: Some((KeyCode::Char('e'), KeyModifiers::none())),
            sites: Sites::Zero,
        },
        22 => HelpBinding {
            key: "s",
            description: "save the run output to a file",
            event: Some((KeyCode::Char('s'), KeyModifiers::none())),
            sites: Sites::One(
                Site {
                    label: "s",
                    short: "save output",
                    rank: 62,
                    foci: Foci::One(Focus::Logs),
                    caps: AnyOf::One(Capability::Run),
                    when: When::RunView,
                },
            ),
        },
        23 => HelpBinding {
            key: "?",
            description: "toggle this help",
            event: None,
            sites: Sites::One(
                Site {
                    label: "?",
                    short: "help",
                    rank: 71,
                    foci: Foci::Any,
                    caps: AnyOf::Nothing,
                    when: When::Always,
                },
            ),
        },
        _ => HelpBinding {
            key: "q / ctrl+c",
            description: "quit; interrupts a running script",
            event: Some((KeyCode::Char('q'), KeyModifiers::none())),
            sites: Sites::One(
                Site {
                    label: "ctrl+c",
                    short: "interrupt",
                    rank: 61,
                    foci: Foci::One(Focus::Logs),
                    caps: AnyOf::Nothing,
                    when: When::RunActive,
                },
            ),
        },
    }
}

/// The movement keys of the flash view.
pub open spec fn spec_flash_navigation(index: usize) -> HelpBinding {
    match index {
        0 => HelpBinding {
            key: "↑ ↓ / k j",
            description: "move the menu cursor",
            event: None,
            sites: Sites::Zero,
        },
        1 => HelpBinding {
            key: "tab",
            description: "move between option fields",
            event: None,
            sites: Sites::Zero,
        },
        _ => HelpBinding {
            key: "q / esc",
            description: "back one screen, then the dashboard",
            event: None,
            sites: Sites::Zero,
        },
    }
}

fn flash_navigation(index: usize) -> (r: HelpBinding)
    ensures
        r == spec_flash_navigation(index),
{
    match index {
        0 => HelpBinding {
            key: "↑ ↓ / k j",
            description: "move the menu cursor",
            event: None,
            sites: Sites::Zero,
        },
        1 => HelpBinding {
            key: "tab",
            description: "move between option fields",
            event: None,
            sites: Sites::Zero,
        },
        _ => HelpBinding {
            key: "q / esc",
            description: "back one screen, then the dashboard",
            event: None,
            sites: Sites::Zero,
        },
    }
}

/// The flash view's commands.
pub open spec fn spec_flash_command(index: usize) -> HelpBinding {
    match index {
        0 => HelpBinding {
            key: "enter",
            description: "run the selected action",
            event: Some((KeyCode::Enter, KeyModifiers::spec_none())),
            sites: Sites::Zero,
        },
        1 => HelpBinding {
            key: "← →",
            description: "cycle an option's value",
            event: Some((KeyCode::Right, KeyModifiers::spec_none())),
            sites: Sites::Zero,
        },
        2 => HelpBinding {
            key: "type / backspace",
            description: "edit offset, flags, or a URL",
            event: None,
            sites: Sites::Zero,
        },
        3 => HelpBinding {
            key: "ctrl+c",
            description: "quit",
            event: Some((KeyCode::Char('q'), KeyModifiers::spec_none())),
            sites: Sites::Zero,
        },
        4 => HelpBinding {
            key: "?",
            description: "toggle this help",
            event: None,
            sites: Sites::One(
                Site {
                    label: "?",
                    short: "help",
                    rank: 71,
                    foci: Foci::Any,
                    caps: AnyOf::Nothing,
                    when: When::Always,
                },
            ),
        },
        5 => HelpBinding {
            key: "s",
            description: "search boards and firmware online",
            event: Some((KeyCode::Char('s'), KeyModifiers::spec_none())),
            sites: Sites::One(
                Site {
                    label: "s",
                    short: "search online",
                    rank: 12,
                    foci: Foci::Any,
                    caps: AnyOf::Nothing,
                    when: When::Screen(Some(FlashScreen::Menu)),
                },
            ),
        },
        _ => HelpBinding {
            key: "u",
            description: "flash firmware from a URL",
            event: Some((KeyCode::Char('u'), KeyModifiers::spec_none())),
            sites: Sites::Three(
                Site {
                    label: "u",
                    short: "paste URL",
                    rank: 13,
                    foci: Foci::Any,
                    caps: AnyOf::Nothing,
                    when: When::Screen(Some(FlashScreen::Menu)),
                },
                Site {
                    label: "u",
                    short: "paste URL",
                    rank: 13,
                    foci: Foci::Any,
                    caps: AnyOf::Nothing,
                    when: When::Screen(Some(FlashScreen::OnlineBoards)),
                },
                Site {
                    label: "u",
                    short: "paste URL",
                    rank: 13,
                    foci: Foci::Any,
                    caps: AnyOf::Nothing,
                    when: When::Screen(Some(FlashScreen::OnlineFirmware)),
                },
            ),
        },
    }
}

fn flash_command(index: usize) -> (r: HelpBinding)
    ensures
        r == spec_flash_command(index),
{
    match index {
        0 => HelpBinding {
            key: "enter",
            description: "run the selected action",
            event: Some((KeyCode::Enter, KeyModifiers::none())),
            sites: Sites::Zero,
        },
        1 => HelpBinding {
            key: "← →",
            description: "cycle an option's value",
            event: Some((KeyCode::Right, KeyModifiers::none())),
            sites: Sites::Zero,
        },
        2 => HelpBinding {
            key: "type / backspace",
            description: "edit offset, flags, or a URL",
            event: None,
            sites: Sites::Zero,
        },
        3 => HelpBinding {
            key: "ctrl+c",
            description: "quit",
            event: Some((KeyCode::Char('q'), KeyModifiers::none())),
            sites: Sites::Zero,
        },
        4 => HelpBinding {
            key: "?",
            description: "toggle this help",
            event: None,
            sites: Sites::One(
                Site {
                    label: "?",
                    short: "help",
                    rank: 71,
                    foci: Foci::Any,
                    caps: AnyOf::Nothing,
                    when: When::Always,
                },
            ),
        },
        5 => HelpBinding {
            key: "s",
            description: "search boards and firmware online",
            event: Some((KeyCode::Char('s'), KeyModifiers::none())),
            sites: Sites::One(
                Site {
                    label: "s",
                    short: "search online",
                    rank: 12,
                    foci: Foci::Any,
                    caps: AnyOf::Nothing,
                    when: When::Screen(Some(FlashScreen::Menu)),
                },
            ),
        },
        _ => HelpBinding {
            key: "u",
            description: "flash firmware from a URL",
            event: Some((KeyCode::Char('u'), KeyModifiers::none())),
            sites: Sites::Three(
                Site {
                    label: "u",
                    short: "paste URL",
                    rank: 13,
                    foci: Foci::Any,
                    caps: AnyOf::Nothing,
                    when: When::Screen(Some(FlashScreen::Menu)),
                },
                Site {
                    label: "u",
                    short: "paste URL",
                    rank: 13,
                    foci: Foci::Any,
                    caps: AnyOf::Nothing,
                    when: When::Screen(Some(FlashScreen::OnlineBoards)),
                },
                Site {
                    label: "u",
                    short: "paste URL",
                    rank: 13,
                    foci: Foci::Any,
                    caps: AnyOf::Nothing,
                    when: When::Screen(Some(FlashScreen::OnlineFirmware)),
                },
            ),
        },
    }
}

/// How many rows `view` shows under `section`.
pub open spec fn row_count(view: View, section: HelpSection) -> usize {
    match (view, section) {
        (View::Dashboard, HelpSection::Navigation) => 10,
        (View::Dashboard, HelpSection::Commands) => 25,
        (View::Flash, HelpSection::Navigation) => 3,
        (View::Flash, HelpSection::Commands) => 7,
    }
}

/// The row at `index` of what `view` shows under `section`.
pub open spec fn row_at(view: View, section: HelpSection, index: usize) -> HelpBinding {
    match (view, section) {
        (View::Dashboard, HelpSection::Navigation) => spec_dashboard_navigation(index),
        (View::Dashboard, HelpSection::Commands) => spec_dashboard_command(index),
        (View::Flash, HelpSection::Navigation) => spec_flash_navigation(index),
        (View::Flash, HelpSection::Commands) => spec_flash_command(index),
    }
}

/// The rows `view` shows under `section`.
#[verifier::opaque]
pub open spec fn rows_of(view: View, section: HelpSection) -> Seq<HelpBinding> {
    Seq::new(row_count(view, section) as nat, |i: int| row_at(view, section, i as usize))
}

/// The bindings `view` shows under `section`.
pub fn bindings(view: View, section: HelpSection) -> (r: Vec<HelpBinding>)
    ensures
        r@ == rows_of(view, section),
        r@.len() == row_count(view, section),
{
    reveal(rows_of);
    let count: usize = match (view, section) {
        (View::Dashboard, HelpSection::Navigation) => 10,
        (View::Dashboard, HelpSection::Commands) => 25,
        (View::Flash, HelpSection::Navigation) => 3,
        (View::Flash, HelpSection::Commands) => 7,
    };
    let mut r: Vec<HelpBinding> = Vec::new();
    let mut i: usize = 0;
    while i < count
        invariant
            i <= count,
            count == row_count(view, section),
            r@.len() == i,
            forall|j: int| 0 <= j < i ==> r@[j] == row_at(view, section, j as usize),
        decreases count - i,
    {
        let row = match (view, section) {
            (View::Dashboard, HelpSection::Navigation) => dashboard_navigation(i),
            (View::Dashboard, HelpSection::Commands) => dashboard_command(i),
            (View::Flash, HelpSection::Navigation) => flash_navigation(i),
            (View::Flash, HelpSection::Commands) => flash_command(i),
        };
        r.push(row);
        i = i + 1;
    }
    assert(r@ =~= rows_of(view, section));
    r
}

/// Whether a row's key or description mentions `filter`, whatever the case.
pub open spec fn row_matches(row: HelpBinding, filter: Seq<char>) -> bool {
    let low = text::lowercase(filter);
    low.len() == 0 || text::mentions(text::lowercase(row.key@), low) || text::mentions(
        text::lowercase(row.description@),
        low,
    )
}

/// The rows of `table` that mention `filter`; all of them under an empty
/// filter.
#[verifier::opaque]
pub open spec fn rows_matching(table: Seq<HelpBinding>, filter: Seq<char>) -> Seq<HelpBinding> {
    table.filter(|row: HelpBinding| row_matches(row, filter))
}

pub fn visible(table: &Vec<HelpBinding>, filter: &str) -> (r: Vec<HelpBinding>)
    ensures
        r@ == rows_matching(table@, filter@),
        filter@.len() == 0 ==> r@ == table@,
{
    reveal(rows_matching);
    let low = text::to_lowercase(filter);
    let all: bool = low.as_str().unicode_len() == 0;
    let ghost keep = |row: HelpBinding| row_matches(row, filter@);
    let mut r: Vec<HelpBinding> = Vec::new();
    let mut i: usize = 0;
    assert(table@.take(0).filter(keep) =~= Seq::<HelpBinding>::empty()) by {
        reveal(Seq::filter);
    }
    while i < table.len()
        invariant
            i <= table.len(),
            low@ == text::lowercase(filter@),
            all == (low@.len() == 0),
            keep == (|row: HelpBinding| row_matches(row, filter@)),
            r@ == table@.take(i as int).filter(keep),
        decreases table.len() - i,
    {
        let row = table[i];
        let hit: bool = all || text::contains(
            text::to_lowercase(row.key).as_str(),
            low.as_str(),
        ) || text::contains(text::to_lowercase(row.description).as_str(), low.as_str());
        proof {
            let t = table@.take(i + 1);
            assert(t.drop_last() =~= table@.take(i as int));
            assert(t.last() == table@[i as int]);
            reveal(Seq::filter);
        }
        if hit {
            r.push(row);
        }
        i = i + 1;
    }
    assert(table@.take(table@.len() as int) =~= table@);
    if all {
        proof {
            everything_kept(table@, keep);
        }
    }
    r
}

proof fn everything_kept(table: Seq<HelpBinding>, keep: spec_fn(HelpBinding) -> bool)
    requires
        forall|row: HelpBinding| #[trigger] keep(row),
    ensures
        table.filter(keep) == table,
    decreases table.len(),
{
    reveal(Seq::filter);
    if table.len() > 0 {
        everything_kept(table.drop_last(), keep);
        assert(table.drop_last().push(table.last()) =~= table);
    }
}

/// The sites of rows, in row order.
pub open spec fn sites_of(rows: Seq<HelpBinding>) -> Seq<Site>
    decreases rows.len(),
{
    if rows.len() == 0 {
        Seq::empty()
    } else {
        sites_of(rows.drop_last()) + rows.last().sites.list()
    }
}

/// Every site of a view, in table order.
pub open spec fn view_sites(view: View) -> Seq<Site> {
    sites_of(rows_of(view, HelpSection::Navigation)) + sites_of(
        rows_of(view, HelpSection::Commands),
    )
}

/// The sites live in `ctx`, in table order.
pub open spec fn live_sites(view: View, ctx: Context) -> Seq<Site> {
    view_sites(view).filter(|s: Site| s.live(ctx))
}

/// The sites of rank `rank`, in table order.
pub open spec fn of_rank(sites: Seq<Site>, rank: int) -> Seq<Site> {
    sites.filter(|s: Site| s.rank == rank)
}

/// The sites of rank below `bound`, by rank, those of one rank in table
/// order.
pub open spec fn ranked(sites: Seq<Site>, bound: int) -> Seq<Site>
    decreases bound,
{
    if bound <= 0 {
        Seq::empty()
    } else {
        ranked(sites, bound - 1) + of_rank(sites, bound - 1)
    }
}

/// The footer for `view` under `ctx`: every live site, in rank order.
pub open spec fn footer_sites(view: View, ctx: Context) -> Seq<Site> {
    ranked(live_sites(view, ctx), 256)
}

/// What the footer writes for sites.
pub open spec fn chips(sites: Seq<Site>) -> Seq<(&'static str, &'static str)> {
    sites.map_values(|s: Site| (s.label, s.short))
}

fn collect_sites(rows: &Vec<HelpBinding>) -> (r: Vec<Site>)
    ensures
        r@ == sites_of(rows@),
{
    let mut r: Vec<Site> = Vec::new();
    let mut i: usize = 0;
    assert(rows@.take(0) =~= Seq::<HelpBinding>::empty());
    assert(r@ =~= sites_of(rows@.take(0)));
    while i < rows.len()
        invariant
            i <= rows.len(),
            r@ == sites_of(rows@.take(i as int)),
        decreases rows.len() - i,
    {
        let mut more = rows[i].sites.to_vec();
        r.append(&mut more);
        proof {
            let t = rows@.take(i + 1);
            assert(t.drop_last() =~= rows@.take(i as int));
            assert(t.last() == rows@[i as int]);
        }
        i = i + 1;
    }
    assert(rows@.take(rows@.len() as int) =~= rows@);
    r
}

fn keep_live(sites: &Vec<Site>, ctx: &Context) -> (r: Vec<Site>)
    ensures
        r@ == sites@.filter(|s: Site| s.live(*ctx)),
{
    let ghost keep = |s: Site| s.live(*ctx);
    let mut r: Vec<Site> = Vec::new();
    let mut i: usize = 0;
    assert(sites@.take(0).filter(keep) =~= Seq::<Site>::empty()) by {
        reveal(Seq::filter);
    }
    while i < sites.len()
        invariant
            i <= sites.len(),
            keep == (|s: Site| s.live(*ctx)),
            r@ == sites@.take(i as int).filter(keep),
        decreases sites.len() - i,
    {
        proof {
            let t = sites@.take(i + 1);
            assert(t.drop_last() =~= sites@.take(i as int));
            assert(t.last() == sites@[i as int]);
            reveal(Seq::filter);
        }
        if sites[i].matches(ctx) {
            r.push(sites[i]);
        }
        i = i + 1;
    }
    assert(sites@.take(sites@.len() as int) =~= sites@);
    r
}

fn push_rank(out: &mut Vec<(&'static str, &'static str)>, sites: &Vec<Site>, rank: u8)
    ensures
        final(out)@ == old(out)@ + chips(of_rank(sites@, rank as int)),
{
    let ghost keep = |s: Site| s.rank == rank as int;
    let ghost start = out@;
    let mut i: usize = 0;
    assert(sites@.take(0).filter(keep) =~= Seq::<Site>::empty()) by {
        reveal(Seq::filter);
    }
    assert(out@ =~= start + chips(sites@.take(0).filter(keep)));
    while i < sites.len()
        invariant
            i <= sites.len(),
            keep == (|s: Site| s.rank == rank as int),
            out@ == start + chips(sites@.take(i as int).filter(keep)),
        decreases sites.len() - i,
    {
        let ghost done = sites@.take(i as int).filter(keep);
        proof {
            let t = sites@.take(i + 1);
            assert(t.drop_last() =~= sites@.take(i as int));
            assert(t.last() == sites@[i as int]);
            reveal(Seq::filter);
        }
        if sites[i].rank == rank {
            out.push((sites[i].label, sites[i].short));
            assert(start + chips(done.push(sites@[i as int])) =~= (start + chips(done)).push(
                (sites@[i as int].label, sites@[i as int].short),
            ));
        }
        i = i + 1;
    }
    assert(sites@.take(sites@.len() as int) =~= sites@);
}

/// The footer for `view` under `ctx`: every live site's label and one-liner,
/// in rank order.
pub fn footer(view: View, ctx: &Context) -> (r: Vec<(&'static str, &'static str)>)
    ensures
        r@ == chips(footer_sites(view, *ctx)),
{
    let mut sites = collect_sites(&bindings(view, HelpSection::Navigation));
    let mut commands = collect_sites(&bindings(view, HelpSection::Commands));
    sites.append(&mut commands);
    let live = keep_live(&sites, ctx);
    let mut r: Vec<(&'static str, &'static str)> = Vec::new();
    let mut rank: u16 = 0;
    assert(r@ =~= chips(ranked(live@, 0)));
    while rank < 256
        invariant
            rank <= 256,
            r@ == chips(ranked(live@, rank as int)),
        decreases 256 - rank,
    {
        push_rank(&mut r, &live, rank as u8);
        assert(chips(ranked(live@, rank + 1)) =~= chips(ranked(live@, rank as int)) + chips(
            of_rank(live@, rank as int),
        ));
        rank = rank + 1;
    }
    r
}

proof fn kept_only(sites: Seq<Site>, keep: spec_fn(Site) -> bool)
    ensures
        forall|i: int| 0 <= i < sites.filter(keep).len() ==> keep(#[trigger] sites.filter(keep)[i]),
        forall|s: Site| #[trigger] sites.filter(keep).to_multiset().count(s) == if keep(s) {
            sites.to_multiset().count(s)
        } else {
            0
        },
    decreases sites.len(),
{
    reveal(Seq::filter);
    broadcast use vstd::seq_lib::group_to_multiset_ensures;

    broadcast use vstd::multiset::group_multiset_axioms;

    let kept = sites.filter(keep);
    if sites.len() > 0 {
        let rest = sites.drop_last();
        let last = sites.last();
        kept_only(rest, keep);
        assert(rest.push(last) =~= sites);
        assert(sites.to_multiset() =~= rest.to_multiset().insert(last));
        if keep(last) {
            assert(kept == rest.filter(keep).push(last));
            assert(kept.to_multiset() =~= rest.filter(keep).to_multiset().insert(last));
        } else {
            assert(kept == rest.filter(keep));
        }
        assert forall|s: Site| #[trigger] kept.to_multiset().count(s) == if keep(s) {
            sites.to_multiset().count(s)
        } else {
            0
        } by {
            assert(rest.filter(keep).to_multiset().count(s) == if keep(s) {
                rest.to_multiset().count(s)
            } else {
                0
            });
        }
    } else {
        assert(kept =~= sites);
        assert forall|s: Site| #[trigger] kept.to_multiset().count(s) == 0 by {
            assert(!sites.contains(s));
        }
    }
}

proof fn ranked_is_sorted(sites: Seq<Site>, bound: int)
    ensures
        forall|i: int| 0 <= i < ranked(sites, bound).len() ==> (#[trigger] ranked(sites, bound)[i]).rank < bound,
        forall|i: int, j: int|
            0 <= i <= j < ranked(sites, bound).len() ==> (#[trigger] ranked(sites, bound)[i]).rank
                <= (#[trigger] ranked(sites, bound)[j]).rank,
        forall|s: Site| #[trigger] ranked(sites, bound).to_multiset().count(s) == if s.rank < bound {
            sites.to_multiset().count(s)
        } else {
            0
        },
    decreases bound,
{
    broadcast use vstd::seq_lib::group_to_multiset_ensures;

    if bound > 0 {
        ranked_is_sorted(sites, bound - 1);
        let keep = |s: Site| s.rank == bound - 1;
        kept_only(sites, keep);
        assert(of_rank(sites, bound - 1) =~= sites.filter(keep));
        vstd::seq_lib::lemma_multiset_commutative(
            ranked(sites, bound - 1),
            of_rank(sites, bound - 1),
        );
    }
}

/// The footer lists the live sites by rank.
pub proof fn the_footer_is_in_rank_order(view: View, ctx: Context)
    ensures
        forall|i: int, j: int|
            0 <= i <= j < footer_sites(view, ctx).len() ==> (#[trigger] footer_sites(
                view,
                ctx,
            )[i]).rank <= (#[trigger] footer_sites(view, ctx)[j]).rank,
{
    ranked_is_sorted(live_sites(view, ctx), 256);
}

/// The footer lists every live site, each as often as the table holds it,
/// and nothing else.
pub proof fn the_footer_lists_every_live_site(view: View, ctx: Context)
    ensures
        footer_sites(view, ctx).to_multiset() == live_sites(view, ctx).to_multiset(),
        forall|i: int|
            0 <= i < live_sites(view, ctx).len() ==> (#[trigger] live_sites(view, ctx)[i]).live(ctx),
{
    ranked_is_sorted(live_sites(view, ctx), 256);
    assert(footer_sites(view, ctx).to_multiset() =~= live_sites(view, ctx).to_multiset());
    kept_only(view_sites(view), |s: Site| s.live(ctx));
}

/// Navigation rows are never part of the select: none replays a key.
pub proof fn navigation_rows_replay_nothing(view: View, index: usize)
    requires
        index < row_count(view, HelpSection::Navigation),
    ensures
        row_at(view, HelpSection::Navigation, index).event is None,
{
}

/// Both divisions of both screens have rows, and each select has something
/// to activate.
pub proof fn every_view_has_something_to_activate(view: View, section: HelpSection)
    ensures
        row_count(view, section) > 0,
        exists|i: usize|
            i < row_count(view, HelpSection::Commands) && (#[trigger] row_at(
                view,
                HelpSection::Commands,
                i,
            )).event is Some,
{
    assert(row_at(view, HelpSection::Commands, 0).event is Some);
}

/// A site of a view belongs to a row of its table: anything the footer can
/// show has a line in the help window.
pub proof fn every_site_belongs_to_a_row(rows: Seq<HelpBinding>, k: int)
    requires
        0 <= k < sites_of(rows).len(),
    ensures
        exists|i: int|
            0 <= i < rows.len() && (#[trigger] rows[i]).sites.list().contains(sites_of(rows)[k]),
    decreases rows.len(),
{
    let before = sites_of(rows.drop_last());
    if k < before.len() {
        every_site_belongs_to_a_row(rows.drop_last(), k);
        let i = choose|i: int|
            0 <= i < rows.drop_last().len() && (#[trigger] rows.drop_last()[i]).sites.list().contains(
                before[k],
            );
        assert(rows[i] == rows.drop_last()[i]);
    } else {
        let last = rows.last().sites.list();
        assert(sites_of(rows)[k] == last[k - before.len()]);
        assert(rows[rows.len() - 1].sites.list().contains(sites_of(rows)[k]));
    }
}

/// The dashboard's sites, in table order.
spec fn dashboard_site(index: int) -> Site {
    if index == 0 {
        Site { label: "ctrl+←/→", short: "actions", rank: 13, foci: Foci::One(Focus::FilesDevice), caps: AnyOf::Two(Capability::Flash, Capability::EraseFlash), when: When::FilesTab }
    } else if index == 1 {
        Site { label: "←/→", short: "files", rank: 13, foci: Foci::One(Focus::FilesDevice), caps: AnyOf::Two(Capability::Flash, Capability::EraseFlash), when: When::ActionsTab }
    } else if index == 2 {
        Site { label: "ctrl+←/→", short: "actions", rank: 59, foci: Foci::Two(Focus::FilesLocal, Focus::Project), caps: AnyOf::Nothing, when: When::DeviceStrip(true) }
    } else if index == 3 {
        Site { label: "←/→", short: "tabs", rank: 60, foci: Foci::One(Focus::Logs), caps: AnyOf::Nothing, when: When::Always }
    } else if index == 4 {
        Site { label: "ctrl+←/→", short: "tabs", rank: 61, foci: Foci::Three(Focus::Workspace, Focus::Build, Focus::Project), caps: AnyOf::Nothing, when: When::DeviceStrip(false) }
    } else if index == 5 {
        Site { label: "shift+p", short: "projects", rank: 70, foci: Foci::Any, caps: AnyOf::Nothing, when: When::Always }
    } else if index == 6 {
        Site { label: "r", short: "reload", rank: 13, foci: Foci::Two(Focus::FilesLocal, Focus::FilesDevice), caps: AnyOf::Nothing, when: When::FilesTab }
    } else if index == 7 {
        Site { label: "r", short: "rename", rank: 15, foci: Foci::One(Focus::Workspace), caps: AnyOf::Nothing, when: When::Always }
    } else if index == 8 {
        Site { label: "r", short: "re-detect", rank: 10, foci: Foci::One(Focus::Logs), caps: AnyOf::Nothing, when: When::Always }
    } else if index == 9 {
        Site { label: "x", short: "flash", rank: 52, foci: Foci::Any, caps: AnyOf::Two(Capability::Flash, Capability::EraseFlash), when: When::Always }
    } else if index == 10 {
        Site { label: "v", short: "view", rank: 12, foci: Foci::One(Focus::Workspace), caps: AnyOf::Nothing, when: When::Always }
    } else if index == 11 {
        Site { label: "del", short: "delete", rank: 13, foci: Foci::One(Focus::Workspace), caps: AnyOf::Nothing, when: When::Always }
    } else if index == 12 {
        Site { label: "a", short: "new", rank: 14, foci: Foci::Two(Focus::FilesLocal, Focus::FilesDevice), caps: AnyOf::Nothing, when: When::FilesTab }
    } else if index == 13 {
        Site { label: "a", short: "new", rank: 14, foci: Foci::One(Focus::Workspace), caps: AnyOf::Nothing, when: When::Always }
    } else if index == 14 {
        Site { label: "c", short: "compare", rank: 15, foci: Foci::Two(Focus::FilesLocal, Focus::FilesDevice), caps: AnyOf::One(Capability::Filesystem), when: When::FilesTab }
    } else if index == 15 {
        Site { label: "shift+s", short: "sync", rank: 16, foci: Foci::Two(Focus::FilesLocal, Focus::FilesDevice), caps: AnyOf::One(Capability::Filesystem), when: When::FilesTab }
    } else if index == 16 {
        Site { label: "h", short: "hidden", rank: 17, foci: Foci::Two(Focus::FilesLocal, Focus::FilesDevice), caps: AnyOf::Nothing, when: When::FilesTab }
    } else if index == 17 {
        Site { label: "i", short: "packages", rank: 18, foci: Foci::One(Focus::FilesDevice), caps: AnyOf::One(Capability::PackageInstall), when: When::FilesTab }
    } else if index == 18 {
        Site { label: "v", short: "verify", rank: 19, foci: Foci::One(Focus::FilesDevice), caps: AnyOf::One(Capability::EraseFlash), when: When::ActionsTab }
    } else if index == 19 {
        Site { label: "s", short: "packages", rank: 20, foci: Foci::One(Focus::Project), caps: AnyOf::One(Capability::PackageInstall), when: When::Always }
    } else if index == 20 {
        Site { label: "m", short: "monitor/REPL", rank: 53, foci: Foci::Any, caps: AnyOf::One(Capability::Monitor), when: When::Always }
    } else if index == 21 {
        Site { label: "s", short: "toolchains", rank: 54, foci: Foci::Any, caps: AnyOf::One(Capability::WorkspaceSync), when: When::Always }
    } else if index == 22 {
        Site { label: "shift+r", short: "restart device", rank: 54, foci: Foci::Any, caps: AnyOf::One(Capability::Reset), when: When::Always }
    } else if index == 23 {
        Site { label: "s", short: "save output", rank: 62, foci: Foci::One(Focus::Logs), caps: AnyOf::One(Capability::Run), when: When::RunView }
    } else if index == 24 {
        Site { label: "?", short: "help", rank: 71, foci: Foci::Any, caps: AnyOf::Nothing, when: When::Always }
    } else {
        Site { label: "ctrl+c", short: "interrupt", rank: 61, foci: Foci::One(Focus::Logs), caps: AnyOf::Nothing, when: When::RunActive }
    }
}

spec fn label_group(index: int) -> int {
    if index == 0 {
        0
    } else if index == 1 {
        1
    } else if index == 2 {
        0
    } else if index == 3 {
        1
    } else if index == 4 {
        0
    } else if index == 5 {
        2
    } else if index == 6 {
        3
    } else if index == 7 {
        3
    } else if index == 8 {
        3
    } else if index == 9 {
        4
    } else if index == 10 {
        5
    } else if index == 11 {
        6
    } else if index == 12 {
        7
    } else if index == 13 {
        7
    } else if index == 14 {
        8
    } else if index == 15 {
        9
    } else if index == 16 {
        10
    } else if index == 17 {
        11
    } else if index == 18 {
        5
    } else if index == 19 {
        12
    } else if index == 20 {
        13
    } else if index == 21 {
        12
    } else if index == 22 {
        14
    } else if index == 23 {
        12
    } else if index == 24 {
        15
    } else {
        16
    }
}

spec fn group_label(group: int) -> Seq<char> {
    if group == 0 {
        "ctrl+←/→"@
    } else if group == 1 {
        "←/→"@
    } else if group == 2 {
        "shift+p"@
    } else if group == 3 {
        "r"@
    } else if group == 4 {
        "x"@
    } else if group == 5 {
        "v"@
    } else if group == 6 {
        "del"@
    } else if group == 7 {
        "a"@
    } else if group == 8 {
        "c"@
    } else if group == 9 {
        "shift+s"@
    } else if group == 10 {
        "h"@
    } else if group == 11 {
        "i"@
    } else if group == 12 {
        "s"@
    } else if group == 13 {
        "m"@
    } else if group == 14 {
        "shift+r"@
    } else if group == 15 {
        "?"@
    } else {
        "ctrl+c"@
    }
}

proof fn group_labels_differ(a: int, b: int)
    requires
        0 <= a < b < 17,
    ensures
        group_label(a) != group_label(b),
{
    reveal_strlit("ctrl+←/→");
    reveal_strlit("←/→");
    reveal_strlit("shift+p");
    reveal_strlit("r");
    reveal_strlit("x");
    reveal_strlit("v");
    reveal_strlit("del");
    reveal_strlit("a");
    reveal_strlit("c");
    reveal_strlit("shift+s");
    reveal_strlit("h");
    reveal_strlit("i");
    reveal_strlit("s");
    reveal_strlit("m");
    reveal_strlit("shift+r");
    reveal_strlit("?");
    reveal_strlit("ctrl+c");
    if group_label(a) == group_label(b) {
        assert(group_label(a).len() == group_label(b).len());
        assert(group_label(a)[0] == group_label(b)[0]);
        assert(group_label(a).last() == group_label(b).last());
    }
}

proof fn navigation_sites_listed()
    ensures
        sites_of(rows_of(View::Dashboard, HelpSection::Navigation)) == Seq::new(
            6,
            |i: int| dashboard_site(i),
        ),
{
    reveal(rows_of);
    let rows = rows_of(View::Dashboard, HelpSection::Navigation);
    let f = |i: int| dashboard_site(i);
    assert(sites_of(rows.take(0)) =~= Seq::new(0, f));
    assert(sites_of(rows.take(1)) == Seq::new(0, f)) by {
        sites_step(rows, 0);
        assert(sites_of(rows.take(1)) =~= Seq::new(0, f));
    }
    assert(sites_of(rows.take(2)) == Seq::new(0, f)) by {
        sites_step(rows, 1);
        assert(sites_of(rows.take(2)) =~= Seq::new(0, f));
    }
    assert(sites_of(rows.take(3)) == Seq::new(0, f)) by {
        sites_step(rows, 2);
        assert(sites_of(rows.take(3)) =~= Seq::new(0, f));
    }
    assert(sites_of(rows.take(4)) == Seq::new(0, f)) by {
        sites_step(rows, 3);
        assert(sites_of(rows.take(4)) =~= Seq::new(0, f));
    }
    assert(sites_of(rows.take(5)) == Seq::new(0, f)) by {
        sites_step(rows, 4);
        assert(sites_of(rows.take(5)) =~= Seq::new(0, f));
    }
    assert(sites_of(rows.take(6)) == Seq::new(0, f)) by {
        sites_step(rows, 5);
        assert(sites_of(rows.take(6)) =~= Seq::new(0, f));
    }
    assert(sites_of(rows.take(7)) == Seq::new(0, f)) by {
        sites_step(rows, 6);
        assert(sites_of(rows.take(7)) =~= Seq::new(0, f));
    }
    assert(sites_of(rows.take(8)) == Seq::new(3, f)) by {
        sites_step(rows, 7);
        assert(sites_of(rows.take(8)) =~= Seq::new(3, f));
    }
    assert(sites_of(rows.take(9)) == Seq::new(5, f)) by {
        sites_step(rows, 8);
        assert(sites_of(rows.take(9)) =~= Seq::new(5, f));
    }
    assert(sites_of(rows.take(10)) == Seq::new(6, f)) by {
        sites_step(rows, 9);
        assert(sites_of(rows.take(10)) =~= Seq::new(6, f));
    }
    assert(rows.take(10) =~= rows);
}

proof fn command_sites_listed()
    ensures
        sites_of(rows_of(View::Dashboard, HelpSection::Commands)) == Seq::new(
            20,
            |i: int| dashboard_site(6 + i),
        ),
{
    reveal(rows_of);
    let rows = rows_of(View::Dashboard, HelpSection::Commands);
    let f = |i: int| dashboard_site(6 + i);
    assert(sites_of(rows.take(0)) =~= Seq::new(0, f));
    assert(sites_of(rows.take(1)) == Seq::new(3, f)) by {
        sites_step(rows, 0);
        assert(sites_of(rows.take(1)) =~= Seq::new(3, f));
    }
    assert(sites_of(rows.take(2)) == Seq::new(3, f)) by {
        sites_step(rows, 1);
        assert(sites_of(rows.take(2)) =~= Seq::new(3, f));
    }
    assert(sites_of(rows.take(3)) == Seq::new(3, f)) by {
        sites_step(rows, 2);
        assert(sites_of(rows.take(3)) =~= Seq::new(3, f));
    }
    assert(sites_of(rows.take(4)) == Seq::new(4, f)) by {
        sites_step(rows, 3);
        assert(sites_of(rows.take(4)) =~= Seq::new(4, f));
    }
    assert(sites_of(rows.take(5)) == Seq::new(4, f)) by {
        sites_step(rows, 4);
        assert(sites_of(rows.take(5)) =~= Seq::new(4, f));
    }
    assert(sites_of(rows.take(6)) == Seq::new(5, f)) by {
        sites_step(rows, 5);
        assert(sites_of(rows.take(6)) =~= Seq::new(5, f));
    }
    assert(sites_of(rows.take(7)) == Seq::new(6, f)) by {
        sites_step(rows, 6);
        assert(sites_of(rows.take(7)) =~= Seq::new(6, f));
    }
    assert(sites_of(rows.take(8)) == Seq::new(8, f)) by {
        sites_step(rows, 7);
        assert(sites_of(rows.take(8)) =~= Seq::new(8, f));
    }
    assert(sites_of(rows.take(9)) == Seq::new(9, f)) by {
        sites_step(rows, 8);
        assert(sites_of(rows.take(9)) =~= Seq::new(9, f));
    }
    assert(sites_of(rows.take(10)) == Seq::new(10, f)) by {
        sites_step(rows, 9);
        assert(sites_of(rows.take(10)) =~= Seq::new(10, f));
    }
    assert(sites_of(rows.take(11)) == Seq::new(11, f)) by {
        sites_step(rows, 10);
        assert(sites_of(rows.take(11)) =~= Seq::new(11, f));
    }
    assert(sites_of(rows.take(12)) == Seq::new(11, f)) by {
        sites_step(rows, 11);
        assert(sites_of(rows.take(12)) =~= Seq::new(11, f));
    }
    assert(sites_of(rows.take(13)) == Seq::new(11, f)) by {
        sites_step(rows, 12);
        assert(sites_of(rows.take(13)) =~= Seq::new(11, f));
    }
    assert(sites_of(rows.take(14)) == Seq::new(12, f)) by {
        sites_step(rows, 13);
        assert(sites_of(rows.take(14)) =~= Seq::new(12, f));
    }
    assert(sites_of(rows.take(15)) == Seq::new(13, f)) by {
        sites_step(rows, 14);
        assert(sites_of(rows.take(15)) =~= Seq::new(13, f));
    }
    assert(sites_of(rows.take(16)) == Seq::new(13, f)) by {
        sites_step(rows, 15);
        assert(sites_of(rows.take(16)) =~= Seq::new(13, f));
    }
    assert(sites_of(rows.take(17)) == Seq::new(14, f)) by {
        sites_step(rows, 16);
        assert(sites_of(rows.take(17)) =~= Seq::new(14, f));
    }
    assert(sites_of(rows.take(18)) == Seq::new(15, f)) by {
        sites_step(rows, 17);
        assert(sites_of(rows.take(18)) =~= Seq::new(15, f));
    }
    assert(sites_of(rows.take(19)) == Seq::new(15, f)) by {
        sites_step(rows, 18);
        assert(sites_of(rows.take(19)) =~= Seq::new(15, f));
    }
    assert(sites_of(rows.take(20)) == Seq::new(16, f)) by {
        sites_step(rows, 19);
        assert(sites_of(rows.take(20)) =~= Seq::new(16, f));
    }
    assert(sites_of(rows.take(21)) == Seq::new(17, f)) by {
        sites_step(rows, 20);
        assert(sites_of(rows.take(21)) =~= Seq::new(17, f));
    }
    assert(sites_of(rows.take(22)) == Seq::new(17, f)) by {
        sites_step(rows, 21);
        assert(sites_of(rows.take(22)) =~= Seq::new(17, f));
    }
    assert(sites_of(rows.take(23)) == Seq::new(18, f)) by {
        sites_step(rows, 22);
        assert(sites_of(rows.take(23)) =~= Seq::new(18, f));
    }
    assert(sites_of(rows.take(24)) == Seq::new(19, f)) by {
        sites_step(rows, 23);
        assert(sites_of(rows.take(24)) =~= Seq::new(19, f));
    }
    assert(sites_of(rows.take(25)) == Seq::new(20, f)) by {
        sites_step(rows, 24);
        assert(sites_of(rows.take(25)) =~= Seq::new(20, f));
    }
    assert(rows.take(25) =~= rows);
}

proof fn dashboard_sites_listed()
    ensures
        view_sites(View::Dashboard) == Seq::new(26, |i: int| dashboard_site(i)),
{
    navigation_sites_listed();
    command_sites_listed();
    assert(view_sites(View::Dashboard) =~= Seq::new(26, |i: int| dashboard_site(i)));
}

/// The sites of one row more.
pub proof fn sites_step(rows: Seq<HelpBinding>, k: int)
    requires
        0 <= k < rows.len(),
    ensures
        sites_of(rows.take(k + 1)) == sites_of(rows.take(k)) + rows[k].sites.list(),
{
    assert(rows.take(k + 1).drop_last() =~= rows.take(k));
}

/// No footer repeats a label: of the dashboard's sites, no two that are live
/// together carry the same one, under any backend's capabilities or none.
pub proof fn no_context_repeats_a_footer_label(ctx: Context, i: int, j: int)
    requires
        ctx.caps == Capabilities::spec_micropython() || ctx.caps == Capabilities::spec_zephyr()
            || ctx.caps == Capabilities::spec_empty(),
        0 <= i < j < view_sites(View::Dashboard).len(),
        view_sites(View::Dashboard)[i].live(ctx),
        view_sites(View::Dashboard)[j].live(ctx),
    ensures
        view_sites(View::Dashboard)[i].label@ != view_sites(View::Dashboard)[j].label@,
{
    dashboard_sites_listed();
    assert(dashboard_site(i).label@ == group_label(label_group(i)));
    assert(dashboard_site(j).label@ == group_label(label_group(j)));
    if label_group(i) < label_group(j) {
        group_labels_differ(label_group(i), label_group(j));
    } else if label_group(j) < label_group(i) {
        group_labels_differ(label_group(j), label_group(i));
    }
}

} // verus!
