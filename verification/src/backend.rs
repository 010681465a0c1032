//! The backends a project can have, and what each of them can do.

use vstd::prelude::*;

verus! {

/// Which toolchain a project belongs to.
#[derive(Debug, Clone, Copy, PartialEq, Eq, Structural)]
pub enum BackendKind {
    MicroPython,
    Zephyr,
}

/// How many backends there are.
pub const BACKEND_COUNT: usize = 2;

impl BackendKind {
    /// The backend in a picker's row `index`.
    pub open spec fn spec_at(index: int) -> Option<BackendKind> {
        if index == 0 {
            Some(BackendKind::MicroPython)
        } else if index == 1 {
            Some(BackendKind::Zephyr)
        } else {
            None
        }
    }

    pub fn at(index: usize) -> (r: Option<BackendKind>)
        ensures
            r == Self::spec_at(index as int),
    {
        if index == 0 {
            Some(BackendKind::MicroPython)
        } else if index == 1 {
            Some(BackendKind::Zephyr)
        } else {
            None
        }
    }

    pub open spec fn spec_label(self) -> Seq<char> {
        match self {
            BackendKind::MicroPython => "MicroPython"@,
            BackendKind::Zephyr => "Zephyr"@,
        }
    }

    /// The backend's name.
    pub fn label(self) -> (r: &'static str)
        ensures
            r@ == self.spec_label(),
    {
        match self {
            BackendKind::MicroPython => "MicroPython",
            BackendKind::Zephyr => "Zephyr",
        }
    }

    pub open spec fn spec_capabilities(self) -> Capabilities {
        match self {
            BackendKind::MicroPython => Capabilities::spec_micropython(),
            BackendKind::Zephyr => Capabilities::spec_zephyr(),
        }
    }

    /// What the backend can do.
    pub fn capabilities(self) -> (r: Capabilities)
        ensures
            r == self.spec_capabilities(),
    {
        match self {
            BackendKind::MicroPython => Capabilities::micropython(),
            BackendKind::Zephyr => Capabilities::zephyr(),
        }
    }
}

/// One thing a backend may be able to do. Every gate in the application asks
/// for one of these, never for a backend by name.
#[derive(Debug, Clone, Copy, PartialEq, Eq, Structural)]
pub enum Capability {
    Filesystem,
    Repl,
    Monitor,
    Run,
    Reset,
    Upload,
    Download,
    EraseFlash,
    DeviceInfo,
    PackageInstall,
    ProjectSelect,
    Build,
    Clean,
    Flash,
    BoardSelect,
    ShieldSelect,
    WorkspaceSync,
}

/// A set of capabilities.
#[derive(Debug, Clone, Copy, PartialEq, Eq, Structural)]
pub struct Capabilities {
    pub filesystem: bool,
    pub repl: bool,
    pub monitor: bool,
    pub run: bool,
    pub reset: bool,
    pub upload: bool,
    pub download: bool,
    pub erase_flash: bool,
    pub device_info: bool,
    pub package_install: bool,
    pub project_select: bool,
    pub build: bool,
    pub clean: bool,
    pub flash: bool,
    pub board_select: bool,
    pub shield_select: bool,
    pub workspace_sync: bool,
}

impl Capabilities {
    pub open spec fn has(self, cap: Capability) -> bool {
        match cap {
            Capability::Filesystem => self.filesystem,
            Capability::Repl => self.repl,
            Capability::Monitor => self.monitor,
            Capability::Run => self.run,
            Capability::Reset => self.reset,
            Capability::Upload => self.upload,
            Capability::Download => self.download,
            Capability::EraseFlash => self.erase_flash,
            Capability::DeviceInfo => self.device_info,
            Capability::PackageInstall => self.package_install,
            Capability::ProjectSelect => self.project_select,
            Capability::Build => self.build,
            Capability::Clean => self.clean,
            Capability::Flash => self.flash,
            Capability::BoardSelect => self.board_select,
            Capability::ShieldSelect => self.shield_select,
            Capability::WorkspaceSync => self.workspace_sync,
        }
    }

    pub open spec fn spec_empty() -> Capabilities {
        Capabilities {
            filesystem: false,
            repl: false,
            monitor: false,
            run: false,
            reset: false,
            upload: false,
            download: false,
            erase_flash: false,
            device_info: false,
            package_install: false,
            project_select: false,
            build: false,
            clean: false,
            flash: false,
            board_select: false,
            shield_select: false,
            workspace_sync: false,
        }
    }

    /// Files and a live session on the device.
    pub open spec fn spec_micropython() -> Capabilities {
        Capabilities {
            filesystem: true,
            repl: true,
            monitor: true,
            run: true,
            reset: true,
            upload: true,
            download: true,
            erase_flash: true,
            device_info: true,
            package_install: true,
            project_select: true,
            ..Capabilities::spec_empty()
        }
    }

    /// A build lifecycle, and no filesystem on the device.
    pub open spec fn spec_zephyr() -> Capabilities {
        Capabilities {
            build: true,
            clean: true,
            flash: true,
            monitor: true,
            board_select: true,
            shield_select: true,
            project_select: true,
            workspace_sync: true,
            device_info: true,
            ..Capabilities::spec_empty()
        }
    }

    /// The set with nothing in it.
    pub fn empty() -> (r: Capabilities)
        ensures
            r == Self::spec_empty(),
    {
        Capabilities {
            filesystem: false,
            repl: false,
            monitor: false,
            run: false,
            reset: false,
            upload: false,
            download: false,
            erase_flash: false,
            device_info: false,
            package_install: false,
            project_select: false,
            build: false,
            clean: false,
            flash: false,
            board_select: false,
            shield_select: false,
            workspace_sync: false,
        }
    }

    pub fn micropython() -> (r: Capabilities)
        ensures
            r == Self::spec_micropython(),
    {
        Capabilities {
            filesystem: true,
            repl: true,
            monitor: true,
            run: true,
            reset: true,
            upload: true,
            download: true,
            erase_flash: true,
            device_info: true,
            package_install: true,
            project_select: true,
            ..Capabilities::empty()
        }
    }

    pub fn zephyr() -> (r: Capabilities)
        ensures
            r == Self::spec_zephyr(),
    {
        Capabilities {
            build: true,
            clean: true,
            flash: true,
            monitor: true,
            board_select: true,
            shield_select: true,
            project_select: true,
            workspace_sync: true,
            device_info: true,
            ..Capabilities::empty()
        }
    }

    /// Whether the set holds `cap`.
    pub fn contains(&self, cap: Capability) -> (r: bool)
        ensures
            r == self.has(cap),
    {
        match cap {
            Capability::Filesystem => self.filesystem,
            Capability::Repl => self.repl,
            Capability::Monitor => self.monitor,
            Capability::Run => self.run,
            Capability::Reset => self.reset,
            Capability::Upload => self.upload,
            Capability::Download => self.download,
            Capability::EraseFlash => self.erase_flash,
            Capability::DeviceInfo => self.device_info,
            Capability::PackageInstall => self.package_install,
            Capability::ProjectSelect => self.project_select,
            Capability::Build => self.build,
            Capability::Clean => self.clean,
            Capability::Flash => self.flash,
            Capability::BoardSelect => self.board_select,
            Capability::ShieldSelect => self.shield_select,
            Capability::WorkspaceSync => self.workspace_sync,
        }
    }
}

} // verus!
