//! What the state's own questions mean: when a port is in use, when a look
//! at it is due, what a new panel starts from.

use vstd::prelude::*;
use vstd::string::*;

use crate::app::{Focus, IdentifyAuth, Model};
use crate::app::overlay_keys::Catalogue;
use crate::backend::BackendKind;
use crate::overlay::Overlay;
use crate::panels;
use crate::panels::{
    Browser, BuildAction, BuildPanel, Discovery, FlashPanel, PaneState, ScriptState, WorkspacePanel,
};

verus! {

/// A port is in use while a question, a probe, the monitor, a run or a
/// browser request is there, and otherwise free.
pub proof fn a_port_is_used_by_the_known_few(m: Model)
    ensures
        m.port_in_use() <==> m.chain.identify == IdentifyAuth::Pending || m.overlay is Some
            || m.chain.probe is Some || m.monitor.device is Some || m.monitor.run is Some || (
        m.panels.browser is Some && m.panels.browser.unwrap().busy),
{
}

/// Every backend flashes, one way or another; only MicroPython's device pane
/// hosts the actions.
pub proof fn flashing_belongs_to_every_backend(m: Model)
    ensures
        m.flashes() <==> m.project.manager.spec_kind() is Some,
        m.actions_available() <==> m.project.manager.spec_kind() == Some(BackendKind::MicroPython)
            && m.panels.browser is Some,
        m.builds() <==> m.project.manager.spec_kind() == Some(BackendKind::Zephyr),
{
}

/// The user's answer for the backend holds over the detection's, and without
/// either nothing can be done.
pub proof fn the_answer_decides_the_backend(m: Model)
    ensures
        m.project.manager.chosen is Some ==> m.project.manager.spec_kind()
            == m.project.manager.chosen,
        m.project.manager.chosen is None ==> m.project.manager.spec_kind()
            == m.project.manager.detected,
        m.project.manager.spec_kind() is None ==> !m.caps().filesystem && !m.caps().monitor
            && !m.caps().build && !m.caps().flash && !m.caps().erase_flash,
{
}

/// A look at the ports is due every fourth tick, while nothing scans, asks
/// or holds one.
pub proof fn a_look_at_the_ports_is_due_when_nothing_speaks_against_it(m: Model)
    ensures
        m.ports_due() <==> m.project.manager.spec_kind() is Some && m.pending.ticks % 4 == 0
            && m.overlay is None && m.panels.devices.discovery != Discovery::Scanning && !(
        m.panels.browser is Some && m.panels.browser.unwrap().busy) && m.chain.probe is None
            && m.monitor.device is None && m.monitor.run is None,
{
}

/// A probe is wanted where the tool can hold one, none runs, the script's
/// state is unknown, and the selected port was not probed last.
pub proof fn a_probe_is_wanted_once_for_each_port(m: Model)
    ensures
        m.probe_wanted() <==> m.chain.probes && m.chain.probe is None && m.panels.browser is Some
            && m.panels.devices.script == ScriptState::Unknown && m.port() is Some && (
        m.chain.probed_port is None || m.chain.probed_port.unwrap()@ != m.port().unwrap()@),
{
}

/// A query starts where the backend flashes, a board is selected, and the
/// panel is ready and free.
pub proof fn a_query_starts_on_a_ready_panel(m: Model)
    requires
        m.flash is Some,
    ensures
        m.query_starts() <==> m.project.manager.spec_kind() is Some && m.port() is Some
            && m.flash.unwrap().query_ready && !m.flash.unwrap().busy,
{
}

/// A command may run in the project's directory where that holds one.
pub proof fn a_command_runs_in_a_buildable_project(m: Model)
    requires
        m.project.manager.spec_kind() is Some,
    ensures
        m.panels.build is Some ==> m.project_buildable() == m.panels.build.unwrap().buildable,
        m.panels.build is None ==> m.project_buildable(),
        m.build_enabled(BuildAction::Stop),
{
}

/// The pickers list what the filter leaves of their own catalogue; the
/// shields' list starts with none.
pub proof fn the_pickers_list_their_own_catalogue(m: Model, input: Seq<char>)
    requires
        m.panels.build is Some,
        m.panels.lists.shields@.len() < usize::MAX,
    ensures
        m.picker_rows(Catalogue::Boards, input) == Some(
            panels::filtered(m.panels.lists.boards@, input).len(),
        ),
        m.picker_rows(Catalogue::Shields, input) == Some(
            panels::filtered(m.panels.lists.shields@, input).len() + 1,
        ),
{
    m.panels.lists.shields@.lemma_filter_len(
        |name: String| panels::name_matches(name@, input),
    );
}

/// A question shows the button it is on, every other dialog none; turning it
/// moves the highlight and nothing it asks about.
pub proof fn a_question_shows_the_button_it_is_on(o: Overlay<Seq<char>>, yes: bool)
    ensures
        ({
            let asks = o is Confirm || o is ConfirmInstallHere || o is ConfirmDownloadOverwrite
                || o is ConfirmUpload || o is ConfirmBuild || o is ConfirmRemovePackage
                || o is ConfirmRestartDevice || o is ConfirmSwitchProject
                || o is ConfirmEraseForMicroPython || o is ConfirmDelete || o is SyncPreview
                || o is ConfirmIdentifyDevice || o is ConfirmInterruptDevice || o is ConfirmOta;
            &&& o.question() is Some <==> asks
            &&& asks ==> o.turned(yes).question() == Some(yes)
            &&& asks ==> o.turned(!yes).turned(yes) == o.turned(yes)
            &&& asks ==> o.turned(o.question().unwrap()) == o
        }),
{
}

/// A new panel is idle and empty: a browser on its directory, a build panel
/// on its root, a workspace without one, a flash panel that read nothing.
pub proof fn new_panels_start_idle(dir: String)
    ensures
        ({
            let browser = Browser::fresh(dir);
            let build = BuildPanel::fresh(dir);
            let workspace = WorkspacePanel::fresh();
            let flash = FlashPanel::<Seq<char>>::fresh();
            &&& browser.local_path == dir && !browser.busy && !browser.held && browser.focus
                is Local && browser.device_state == PaneState::Idle && browser.local_selected
                is None && browser.device_selected is None
            &&& build.root == dir && !build.busy && !build.lifecycle_ready && build.board is None
                && build.shield is None && !build.remembered_simulator && build.cursor == 0
            &&& workspace.dir is None && workspace.projects is None && !workspace.files_error
            &&& flash.screen is Menu && !flash.busy && !flash.succeeded && !flash.identified
                && flash.firmware is None && flash.pending is None && !flash.firmware_selected
                && flash.cursor == 0
        }),
{
}

/// The vertical walk keeps to its half: down from the project is the left
/// pane of row 2 and from the device the right one, below them the logs, and
/// up from the logs the left pane.
pub proof fn the_vertical_walk_keeps_to_its_half(m: Model)
    requires
        m.panels.browser is Some && m.project.manager.spec_kind() == Some(BackendKind::MicroPython)
            || m.panels.build is Some && m.panels.workspace is Some
            && m.project.manager.spec_kind() == Some(BackendKind::Zephyr),
    ensures
        ({
            let files = m.project.manager.spec_kind() == Some(BackendKind::MicroPython);
            let left = if files {
                Focus::FilesLocal
            } else {
                Focus::Workspace
            };
            let right = if files {
                Focus::FilesDevice
            } else {
                Focus::Build
            };
            let walked = |from: Focus, down: bool| m.focused(from).focus_vertical(down).screen.focus;
            &&& walked(Focus::Project, true) == left
            &&& walked(Focus::DeviceInfo, true) == right
            &&& walked(left, true) == Focus::Logs
            &&& walked(right, true) == Focus::Logs
            &&& walked(Focus::Logs, false) == left
            &&& walked(right, false) == Focus::DeviceInfo
            &&& m.project.rows@.len() > 0 ==> walked(left, false) == Focus::Project
            &&& m.project.rows@.len() == 0 ==> walked(left, false) == Focus::DeviceInfo
            &&& walked(Focus::Logs, true) == Focus::Logs
        }),
{
    reveal_with_fuel(Model::pane_vertically, 3);
}

} // verus!
