//! The modal layer drawn above the panes: which dialog is open, and the
//! little state a key press in it changes.

use vstd::prelude::*;

use crate::app::DocsFocus;
use crate::panels::{BuildAction, BuildKind, OtaConfirm, Side, SyncStatus};

verus! {

/// Which question a directory picker answers.
#[derive(Debug, Clone, Copy, PartialEq, Eq, Structural)]
pub enum DirPurpose {
    Installation,
    Projects,
    Install,
}

/// A path the removal of a package would delete on the device.
#[derive(Debug, Clone, PartialEq, Eq)]
pub struct RemoveTarget {
    pub path: String,
    pub recursive: bool,
}

/// What a sync would do.
#[derive(Debug, Clone, PartialEq, Eq)]
pub struct SyncPlan {
    pub uploads: Vec<String>,
    pub deletes: Vec<String>,
}

/// A path on the device, and the name it ends in.
#[derive(Debug, Clone, PartialEq, Eq)]
pub struct DevicePath<T = String> {
    pub text: T,
    pub name: T,
}

impl DevicePath<String> {
    pub open spec fn model(self) -> DevicePath<Seq<char>> {
        DevicePath { text: self.text@, name: self.name@ }
    }
}

/// A modal layer drawn above the panes.
#[derive(Debug, Clone, PartialEq, Eq)]
pub enum Overlay<T = String> {
    /// The help window: the cursor among the filtered command rows, and the
    /// search state.
    Help { filter: T, filtering: bool, selected: usize },
    /// Serial device selection.
    DevicePicker { selected: usize },
    /// The colour theme picker.
    ThemePicker { selected: usize },
    /// A destructive action awaiting confirmation, quoting the command.
    Confirm { message: T, confirm: bool },
    /// Firmware file selection.
    FirmwarePicker { selected: usize },
    /// An unrecognized project: which backend is this?
    ProjectSetup { selected: usize },
    /// A download would overwrite a file.
    ConfirmDownloadOverwrite { url: T, dest: T, confirm: bool },
    ConfirmUpload { name: T, is_dir: bool, confirm: bool },
    /// A destructive build action awaiting confirmation.
    ConfirmBuild { action: BuildAction, confirm: bool },
    /// Where a build runs: on the board, or on the host.
    BuildTarget { kind: BuildKind, selected: usize },
    /// The board picker: a filterable list beside its documentation.
    BoardPicker { input: T, selected: usize, scroll: u16, focus: DocsFocus },
    /// The shield picker, whose first row is `(none)`.
    ShieldPicker { input: T, selected: usize, scroll: u16, focus: DocsFocus },
    /// A filesystem browser answering `purpose`.
    DirPicker { purpose: DirPurpose, path: T, selected: usize, error: Option<T> },
    /// The projects folder's subdirectories.
    ProjectPicker { mpy: bool, selected: usize, error: Option<T> },
    /// The project's build directories, or a new name.
    BuildDirPicker { input: T, selected: usize },
    /// What to do with the entry under the cursor.
    FileActions {
        side: Side,
        name: T,
        is_dir: bool,
        is_text: bool,
        status: Option<SyncStatus>,
        selected: usize,
    },
    /// A file's contents; the application holds them.
    FileViewer,
    ConfirmRestartDevice { confirm: bool },
    ConfirmEraseForMicroPython { confirm: bool },
    ConfirmDelete { side: Side, name: T, is_dir: bool, confirm: bool },
    /// Text entry for a new file or directory.
    CreateEntry { side: Side, input: T },
    /// Text entry for an entry's new name.
    RenameEntry { name: T, input: T },
    /// The package manager; the application holds its state.
    Packages,
    ConfirmRemovePackage { name: T, targets: Vec<RemoveTarget>, declared: bool, confirm: bool },
    /// A sync plan awaiting review.
    SyncPreview { plan: SyncPlan, confirm: bool },
    /// Identifying the device restarts it.
    ConfirmIdentifyDevice { confirm: bool },
    /// Requests are held behind a running script.
    ConfirmInterruptDevice { confirm: bool, return_to_packages: bool },
    /// Leaving the project while commands run.
    ConfirmSwitchProject { confirm: bool },
    /// How to bring an interrupted script back.
    RestoreDeviceScript { selected: usize, return_to_packages: bool },
    /// The menu behind the `Zephyr Actions` button.
    ZephyrActions { selected: usize },
    /// The installer; the application holds its state.
    ZephyrInstall,
    /// The SDK toolchain checklist.
    SdkToolchains { selected: usize },
    /// The way forward from a refused installation directory.
    ConfirmInstallHere { dir: T, reason: T, confirm: bool },
    /// The build report window; the application holds its state.
    BuildDashboard,
    /// The firmware update window; the application holds its state.
    Ota,
    OtaAddress { input: T },
    OtaTransport { selected: usize },
    ConfirmOta { what: OtaConfirm, confirm: bool },
}

/// The view of an optional text.
pub open spec fn opt_text(t: Option<String>) -> Option<Seq<char>> {
    match t {
        Some(t) => Some(t@),
        None => None,
    }
}

impl Overlay<String> {
    /// The overlay with its texts as sequences of characters.
    #[verifier::opaque]
    pub open spec fn model(self) -> Overlay<Seq<char>> {
        match self {
            Overlay::Help { filter, filtering, selected } => Overlay::Help {
                filter: filter@,
                filtering,
                selected,
            },
            Overlay::DevicePicker { selected } => Overlay::DevicePicker { selected },
            Overlay::ThemePicker { selected } => Overlay::ThemePicker { selected },
            Overlay::Confirm { message, confirm } => Overlay::Confirm {
                message: message@,
                confirm,
            },
            Overlay::FirmwarePicker { selected } => Overlay::FirmwarePicker { selected },
            Overlay::ProjectSetup { selected } => Overlay::ProjectSetup { selected },
            Overlay::ConfirmDownloadOverwrite { url, dest, confirm } =>
                Overlay::ConfirmDownloadOverwrite { url: url@, dest: dest@, confirm },
            Overlay::ConfirmUpload { name, is_dir, confirm } => Overlay::ConfirmUpload {
                name: name@,
                is_dir,
                confirm,
            },
            Overlay::ConfirmBuild { action, confirm } => Overlay::ConfirmBuild { action, confirm },
            Overlay::BuildTarget { kind, selected } => Overlay::BuildTarget { kind, selected },
            Overlay::BoardPicker { input, selected, scroll, focus } => Overlay::BoardPicker {
                input: input@,
                selected,
                scroll,
                focus,
            },
            Overlay::ShieldPicker { input, selected, scroll, focus } => Overlay::ShieldPicker {
                input: input@,
                selected,
                scroll,
                focus,
            },
            Overlay::DirPicker { purpose, path, selected, error } => Overlay::DirPicker {
                purpose,
                path: path@,
                selected,
                error: opt_text(error),
            },
            Overlay::ProjectPicker { mpy, selected, error } => Overlay::ProjectPicker {
                mpy,
                selected,
                error: opt_text(error),
            },
            Overlay::BuildDirPicker { input, selected } => Overlay::BuildDirPicker {
                input: input@,
                selected,
            },
            Overlay::FileActions {
                side,
                name,
                is_dir,
                is_text,
                status,
                selected,
            } => Overlay::FileActions {
                side,
                name: name@,
                is_dir,
                is_text,
                status,
                selected,
            },
            Overlay::FileViewer => Overlay::FileViewer,
            Overlay::ConfirmRestartDevice { confirm } => Overlay::ConfirmRestartDevice { confirm },
            Overlay::ConfirmEraseForMicroPython { confirm } =>
                Overlay::ConfirmEraseForMicroPython { confirm },
            Overlay::ConfirmDelete { side, name, is_dir, confirm } => Overlay::ConfirmDelete {
                side,
                name: name@,
                is_dir,
                confirm,
            },
            Overlay::CreateEntry { side, input } => Overlay::CreateEntry { side, input: input@ },
            Overlay::RenameEntry { name, input } => Overlay::RenameEntry {
                name: name@,
                input: input@,
            },
            Overlay::Packages => Overlay::Packages,
            Overlay::ConfirmRemovePackage { name, targets, declared, confirm } =>
                Overlay::ConfirmRemovePackage { name: name@, targets, declared, confirm },
            Overlay::SyncPreview { plan, confirm } => Overlay::SyncPreview { plan, confirm },
            Overlay::ConfirmIdentifyDevice { confirm } => Overlay::ConfirmIdentifyDevice {
                confirm,
            },
            Overlay::ConfirmInterruptDevice { confirm, return_to_packages } =>
                Overlay::ConfirmInterruptDevice { confirm, return_to_packages },
            Overlay::ConfirmSwitchProject { confirm } => Overlay::ConfirmSwitchProject { confirm },
            Overlay::RestoreDeviceScript { selected, return_to_packages } =>
                Overlay::RestoreDeviceScript { selected, return_to_packages },
            Overlay::ZephyrActions { selected } => Overlay::ZephyrActions { selected },
            Overlay::ZephyrInstall => Overlay::ZephyrInstall,
            Overlay::SdkToolchains { selected } => Overlay::SdkToolchains { selected },
            Overlay::ConfirmInstallHere { dir, reason, confirm } => Overlay::ConfirmInstallHere {
                dir: dir@,
                reason: reason@,
                confirm,
            },
            Overlay::BuildDashboard => Overlay::BuildDashboard,
            Overlay::Ota => Overlay::Ota,
            Overlay::OtaAddress { input } => Overlay::OtaAddress { input: input@ },
            Overlay::OtaTransport { selected } => Overlay::OtaTransport { selected },
            Overlay::ConfirmOta { what, confirm } => Overlay::ConfirmOta { what, confirm },
        }
    }
}

pub broadcast proof fn model_of_help(filter: String, filtering: bool, selected: usize)
    ensures
        #[trigger] (Overlay::<String>::Help { filter, filtering, selected }).model()
            == (Overlay::<Seq<char>>::Help { filter: filter@, filtering, selected }),
{
    reveal(Overlay::model);
}

pub broadcast proof fn model_of_device_picker(selected: usize)
    ensures
        #[trigger] (Overlay::<String>::DevicePicker { selected }).model()
            == (Overlay::<Seq<char>>::DevicePicker { selected }),
{
    reveal(Overlay::model);
}

pub broadcast proof fn model_of_theme_picker(selected: usize)
    ensures
        #[trigger] (Overlay::<String>::ThemePicker { selected }).model()
            == (Overlay::<Seq<char>>::ThemePicker { selected }),
{
    reveal(Overlay::model);
}

pub broadcast proof fn model_of_confirm(message: String, confirm: bool)
    ensures
        #[trigger] (Overlay::<String>::Confirm { message, confirm }).model()
            == (Overlay::<Seq<char>>::Confirm { message: message@, confirm }),
{
    reveal(Overlay::model);
}

pub broadcast proof fn model_of_firmware_picker(selected: usize)
    ensures
        #[trigger] (Overlay::<String>::FirmwarePicker { selected }).model()
            == (Overlay::<Seq<char>>::FirmwarePicker { selected }),
{
    reveal(Overlay::model);
}

pub broadcast proof fn model_of_project_setup(selected: usize)
    ensures
        #[trigger] (Overlay::<String>::ProjectSetup { selected }).model()
            == (Overlay::<Seq<char>>::ProjectSetup { selected }),
{
    reveal(Overlay::model);
}

pub broadcast proof fn model_of_confirm_download_overwrite(url: String, dest: String, confirm: bool)
    ensures
        #[trigger] (Overlay::<String>::ConfirmDownloadOverwrite { url, dest, confirm }).model()
            == (Overlay::<Seq<char>>::ConfirmDownloadOverwrite { url: url@, dest: dest@, confirm }),
{
    reveal(Overlay::model);
}

pub broadcast proof fn model_of_confirm_upload(name: String, is_dir: bool, confirm: bool)
    ensures
        #[trigger] (Overlay::<String>::ConfirmUpload { name, is_dir, confirm }).model()
            == (Overlay::<Seq<char>>::ConfirmUpload { name: name@, is_dir, confirm }),
{
    reveal(Overlay::model);
}

pub broadcast proof fn model_of_confirm_build(action: BuildAction, confirm: bool)
    ensures
        #[trigger] (Overlay::<String>::ConfirmBuild { action, confirm }).model()
            == (Overlay::<Seq<char>>::ConfirmBuild { action, confirm }),
{
    reveal(Overlay::model);
}

pub broadcast proof fn model_of_build_target(kind: BuildKind, selected: usize)
    ensures
        #[trigger] (Overlay::<String>::BuildTarget { kind, selected }).model()
            == (Overlay::<Seq<char>>::BuildTarget { kind, selected }),
{
    reveal(Overlay::model);
}

pub broadcast proof fn model_of_board_picker(input: String, selected: usize, scroll: u16, focus: DocsFocus)
    ensures
        #[trigger] (Overlay::<String>::BoardPicker { input, selected, scroll, focus }).model()
            == (Overlay::<Seq<char>>::BoardPicker { input: input@, selected, scroll, focus }),
{
    reveal(Overlay::model);
}

pub broadcast proof fn model_of_shield_picker(input: String, selected: usize, scroll: u16, focus: DocsFocus)
    ensures
        #[trigger] (Overlay::<String>::ShieldPicker { input, selected, scroll, focus }).model()
            == (Overlay::<Seq<char>>::ShieldPicker { input: input@, selected, scroll, focus }),
{
    reveal(Overlay::model);
}

pub broadcast proof fn model_of_dir_picker(purpose: DirPurpose, path: String, selected: usize, error: Option<String>)
    ensures
        #[trigger] (Overlay::<String>::DirPicker { purpose, path, selected, error }).model()
            == (Overlay::<Seq<char>>::DirPicker { purpose, path: path@, selected, error: opt_text(error) }),
{
    reveal(Overlay::model);
}

pub broadcast proof fn model_of_project_picker(mpy: bool, selected: usize, error: Option<String>)
    ensures
        #[trigger] (Overlay::<String>::ProjectPicker { mpy, selected, error }).model()
            == (Overlay::<Seq<char>>::ProjectPicker { mpy, selected, error: opt_text(error) }),
{
    reveal(Overlay::model);
}

pub broadcast proof fn model_of_build_dir_picker(input: String, selected: usize)
    ensures
        #[trigger] (Overlay::<String>::BuildDirPicker { input, selected }).model()
            == (Overlay::<Seq<char>>::BuildDirPicker { input: input@, selected }),
{
    reveal(Overlay::model);
}

pub broadcast proof fn model_of_file_actions(side: Side, name: String, is_dir: bool, is_text: bool, status: Option<SyncStatus>, selected: usize)
    ensures
        #[trigger] (Overlay::<String>::FileActions { side, name, is_dir, is_text, status, selected }).model()
            == (Overlay::<Seq<char>>::FileActions { side, name: name@, is_dir, is_text, status, selected }),
{
    reveal(Overlay::model);
}

pub broadcast proof fn model_of_confirm_restart_device(confirm: bool)
    ensures
        #[trigger] (Overlay::<String>::ConfirmRestartDevice { confirm }).model()
            == (Overlay::<Seq<char>>::ConfirmRestartDevice { confirm }),
{
    reveal(Overlay::model);
}

pub broadcast proof fn model_of_confirm_erase_for_micro_python(confirm: bool)
    ensures
        #[trigger] (Overlay::<String>::ConfirmEraseForMicroPython { confirm }).model()
            == (Overlay::<Seq<char>>::ConfirmEraseForMicroPython { confirm }),
{
    reveal(Overlay::model);
}

pub broadcast proof fn model_of_confirm_delete(side: Side, name: String, is_dir: bool, confirm: bool)
    ensures
        #[trigger] (Overlay::<String>::ConfirmDelete { side, name, is_dir, confirm }).model()
            == (Overlay::<Seq<char>>::ConfirmDelete { side, name: name@, is_dir, confirm }),
{
    reveal(Overlay::model);
}

pub broadcast proof fn model_of_create_entry(side: Side, input: String)
    ensures
        #[trigger] (Overlay::<String>::CreateEntry { side, input }).model()
            == (Overlay::<Seq<char>>::CreateEntry { side, input: input@ }),
{
    reveal(Overlay::model);
}

pub broadcast proof fn model_of_rename_entry(name: String, input: String)
    ensures
        #[trigger] (Overlay::<String>::RenameEntry { name, input }).model()
            == (Overlay::<Seq<char>>::RenameEntry { name: name@, input: input@ }),
{
    reveal(Overlay::model);
}

pub broadcast proof fn model_of_confirm_remove_package(name: String, targets: Vec<RemoveTarget>, declared: bool, confirm: bool)
    ensures
        #[trigger] (Overlay::<String>::ConfirmRemovePackage { name, targets, declared, confirm }).model()
            == (Overlay::<Seq<char>>::ConfirmRemovePackage { name: name@, targets, declared, confirm }),
{
    reveal(Overlay::model);
}

pub broadcast proof fn model_of_sync_preview(plan: SyncPlan, confirm: bool)
    ensures
        #[trigger] (Overlay::<String>::SyncPreview { plan, confirm }).model()
            == (Overlay::<Seq<char>>::SyncPreview { plan, confirm }),
{
    reveal(Overlay::model);
}

pub broadcast proof fn model_of_confirm_identify_device(confirm: bool)
    ensures
        #[trigger] (Overlay::<String>::ConfirmIdentifyDevice { confirm }).model()
            == (Overlay::<Seq<char>>::ConfirmIdentifyDevice { confirm }),
{
    reveal(Overlay::model);
}

pub broadcast proof fn model_of_confirm_interrupt_device(confirm: bool, return_to_packages: bool)
    ensures
        #[trigger] (Overlay::<String>::ConfirmInterruptDevice { confirm, return_to_packages }).model()
            == (Overlay::<Seq<char>>::ConfirmInterruptDevice { confirm, return_to_packages }),
{
    reveal(Overlay::model);
}

pub broadcast proof fn model_of_confirm_switch_project(confirm: bool)
    ensures
        #[trigger] (Overlay::<String>::ConfirmSwitchProject { confirm }).model()
            == (Overlay::<Seq<char>>::ConfirmSwitchProject { confirm }),
{
    reveal(Overlay::model);
}

pub broadcast proof fn model_of_restore_device_script(selected: usize, return_to_packages: bool)
    ensures
        #[trigger] (Overlay::<String>::RestoreDeviceScript { selected, return_to_packages }).model()
            == (Overlay::<Seq<char>>::RestoreDeviceScript { selected, return_to_packages }),
{
    reveal(Overlay::model);
}

pub broadcast proof fn model_of_zephyr_actions(selected: usize)
    ensures
        #[trigger] (Overlay::<String>::ZephyrActions { selected }).model()
            == (Overlay::<Seq<char>>::ZephyrActions { selected }),
{
    reveal(Overlay::model);
}

pub broadcast proof fn model_of_sdk_toolchains(selected: usize)
    ensures
        #[trigger] (Overlay::<String>::SdkToolchains { selected }).model()
            == (Overlay::<Seq<char>>::SdkToolchains { selected }),
{
    reveal(Overlay::model);
}

pub broadcast proof fn model_of_confirm_install_here(dir: String, reason: String, confirm: bool)
    ensures
        #[trigger] (Overlay::<String>::ConfirmInstallHere { dir, reason, confirm }).model()
            == (Overlay::<Seq<char>>::ConfirmInstallHere { dir: dir@, reason: reason@, confirm }),
{
    reveal(Overlay::model);
}

pub broadcast proof fn model_of_ota_address(input: String)
    ensures
        #[trigger] (Overlay::<String>::OtaAddress { input }).model()
            == (Overlay::<Seq<char>>::OtaAddress { input: input@ }),
{
    reveal(Overlay::model);
}

pub broadcast proof fn model_of_ota_transport(selected: usize)
    ensures
        #[trigger] (Overlay::<String>::OtaTransport { selected }).model()
            == (Overlay::<Seq<char>>::OtaTransport { selected }),
{
    reveal(Overlay::model);
}

pub broadcast proof fn model_of_confirm_ota(what: OtaConfirm, confirm: bool)
    ensures
        #[trigger] (Overlay::<String>::ConfirmOta { what, confirm }).model()
            == (Overlay::<Seq<char>>::ConfirmOta { what, confirm }),
{
    reveal(Overlay::model);
}

pub broadcast proof fn model_of_file_viewer(o: Overlay)
    requires
        o is FileViewer,
    ensures
        #[trigger] o.model() == Overlay::<Seq<char>>::FileViewer,
{
    reveal(Overlay::model);
}

pub broadcast proof fn model_of_packages(o: Overlay)
    requires
        o is Packages,
    ensures
        #[trigger] o.model() == Overlay::<Seq<char>>::Packages,
{
    reveal(Overlay::model);
}

pub broadcast proof fn model_of_zephyr_install(o: Overlay)
    requires
        o is ZephyrInstall,
    ensures
        #[trigger] o.model() == Overlay::<Seq<char>>::ZephyrInstall,
{
    reveal(Overlay::model);
}

pub broadcast proof fn model_of_build_dashboard(o: Overlay)
    requires
        o is BuildDashboard,
    ensures
        #[trigger] o.model() == Overlay::<Seq<char>>::BuildDashboard,
{
    reveal(Overlay::model);
}

pub broadcast proof fn model_of_ota(o: Overlay)
    requires
        o is Ota,
    ensures
        #[trigger] o.model() == Overlay::<Seq<char>>::Ota,
{
    reveal(Overlay::model);
}

/// What each overlay looks like to the contracts, one equation per shape.
pub broadcast group group_overlay_models {
    model_of_help,
    model_of_device_picker,
    model_of_theme_picker,
    model_of_confirm,
    model_of_firmware_picker,
    model_of_project_setup,
    model_of_confirm_download_overwrite,
    model_of_confirm_upload,
    model_of_confirm_build,
    model_of_build_target,
    model_of_board_picker,
    model_of_shield_picker,
    model_of_dir_picker,
    model_of_project_picker,
    model_of_build_dir_picker,
    model_of_file_actions,
    model_of_confirm_restart_device,
    model_of_confirm_erase_for_micro_python,
    model_of_confirm_delete,
    model_of_create_entry,
    model_of_rename_entry,
    model_of_confirm_remove_package,
    model_of_sync_preview,
    model_of_confirm_identify_device,
    model_of_confirm_interrupt_device,
    model_of_confirm_switch_project,
    model_of_restore_device_script,
    model_of_zephyr_actions,
    model_of_sdk_toolchains,
    model_of_confirm_install_here,
    model_of_ota_address,
    model_of_ota_transport,
    model_of_confirm_ota,
    model_of_file_viewer,
    model_of_packages,
    model_of_zephyr_install,
    model_of_build_dashboard,
    model_of_ota,
}

/// The overlays with no hint of their own in the footer, from which help
/// must stay reachable.
pub open spec fn help_reachable<T>(overlay: Overlay<T>) -> bool {
    match overlay {
        Overlay::RenameEntry { .. }
        | Overlay::DirPicker { .. }
        | Overlay::BuildDirPicker { .. }
        | Overlay::ProjectPicker { .. }
        | Overlay::DevicePicker { .. }
        | Overlay::ThemePicker { .. }
        | Overlay::FirmwarePicker { .. }
        | Overlay::ProjectSetup { .. }
        | Overlay::FileActions { .. }
        | Overlay::RestoreDeviceScript { .. }
        | Overlay::Packages
        | Overlay::ZephyrActions { .. } => true,
        _ => false,
    }
}

pub fn is_help_reachable_overlay(overlay: &Overlay) -> (r: bool)
    ensures
        r == help_reachable(overlay.model()),
{
    reveal(Overlay::model);
    match overlay {
        Overlay::RenameEntry { .. }
        | Overlay::DirPicker { .. }
        | Overlay::BuildDirPicker { .. }
        | Overlay::ProjectPicker { .. }
        | Overlay::DevicePicker { .. }
        | Overlay::ThemePicker { .. }
        | Overlay::FirmwarePicker { .. }
        | Overlay::ProjectSetup { .. }
        | Overlay::FileActions { .. }
        | Overlay::RestoreDeviceScript { .. }
        | Overlay::Packages
        | Overlay::ZephyrActions { .. } => true,
        _ => false,
    }
}

/// The overlays that take free text, where `?` belongs in the field.
pub open spec fn text_entry<T>(overlay: Overlay<T>) -> bool {
    match overlay {
        Overlay::RenameEntry { .. } | Overlay::BuildDirPicker { .. } | Overlay::Packages => true,
        _ => false,
    }
}

pub fn is_text_entry_overlay(overlay: &Overlay) -> (r: bool)
    ensures
        r == text_entry(overlay.model()),
{
    reveal(Overlay::model);
    match overlay {
        Overlay::RenameEntry { .. } | Overlay::BuildDirPicker { .. } | Overlay::Packages => true,
        _ => false,
    }
}

/// What a key does in a Yes/No dialog.
#[derive(Debug, Clone, Copy, PartialEq, Eq, Structural)]
pub enum ConfirmStep {
    /// The highlight moves to the other button.
    Toggle,
    Accept,
    Decline,
    Ignore,
}

} // verus!
