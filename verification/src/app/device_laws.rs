//! What looking after the board promises: what a rewritten flash makes
//! unknown, what a scan selects, and when the board is asked anything.

use vstd::prelude::*;
use vstd::string::*;

use crate::app::{FirmwareCheck, IdentifyAuth, Model};
use crate::app::devices;
use crate::app::events::{BuildUpdate, FlashUpdate, TickFacts};
use crate::app::flash_view::DeferredQuery;
use crate::backend::BackendKind;
use crate::effect::{BrowserRequest, Effect, EffectModel, Task};
use crate::logs;
use crate::logs::Level;
use crate::overlay::Overlay;
use crate::panels::{DeviceInfo, Discovery, PaneError, PaneState, ScriptState};

verus! {

/// `task` was asked for since `before`.
pub open spec fn asked_since(before: Seq<EffectModel>, after: Seq<EffectModel>, task: Task) -> bool {
    exists|i: int|
        before.len() <= i < after.len() && #[trigger] after[i] == Effect::<Seq<char>, Seq<u8>>::Task(
            task,
        )
}

/// A rewritten flash makes everything read from it unknown: the firmware, the
/// version, the probe's answer and the script state. Where the chip had
/// answered, the firmware of the selected board is read again.
pub proof fn a_rewritten_flash_is_identified_anew(m: Model, port: String)
    requires
        m.port() == Some(port),
    ensures
        ({
            let after = m.reidentified();
            &&& after.chain.mpy_version is None
            &&& after.chain.probed_port is None
            &&& after.panels.devices.script == ScriptState::Unknown
            &&& after.port() == Some(port)
            &&& after.logs.lines.len() == m.logs.lines.len() + 1
            &&& m.flash is Some ==> {
                &&& after.flash is Some
                &&& after.flash.unwrap().firmware is None
                &&& asked_since(m.effects, after.effects, Task::ClearFirmwareIdentity)
            }
            &&& m.flash is Some && m.flash.unwrap().succeeded ==> {
                &&& after.chain.firmware_check == FirmwareCheck::Pending
                &&& after.chain.firmware_check_port == Some(port)
            }
            &&& m.flash is None || !m.flash.unwrap().succeeded ==> {
                &&& after.chain.firmware_check == FirmwareCheck::Idle
                &&& after.chain.firmware_check_port is None
            }
            &&& m.panels.browser is Some ==> asked_since(
                m.effects,
                after.effects,
                Task::InterruptGate { hold: false, port: Some(port) },
            )
        }),
{
    let after = m.reidentified();
    let n = m.effects.len() as int;
    if m.flash is Some {
        assert(after.effects[n] == Effect::<Seq<char>, Seq<u8>>::Task(Task::ClearFirmwareIdentity));
        if m.panels.browser is Some {
            assert(after.effects[n + 1] == Effect::<Seq<char>, Seq<u8>>::Task(
                Task::InterruptGate { hold: false, port: Some(port) },
            ));
        }
    } else if m.panels.browser is Some {
        assert(after.effects[n] == Effect::<Seq<char>, Seq<u8>>::Task(
            Task::InterruptGate { hold: false, port: Some(port) },
        ));
    }
}

/// Without a selected board there is nothing to identify anew.
pub proof fn no_board_is_identified_anew(m: Model)
    requires
        m.port() is None,
    ensures
        m.reidentified() == m,
{
}

/// A finished flash of the build panel is a rewrite: the firmware is unknown
/// and, where the chip had answered, a read of it armed. Any other report
/// leaves the identification alone.
pub proof fn a_build_flash_is_followed_up(m: Model, port: String, update: BuildUpdate)
    requires
        m.port() == Some(port),
        m.flash is Some,
        m.flash.unwrap().succeeded,
        m.panels.build is Some,
        !update.reported,
    ensures
        ({
            let after = m.build_heard(update);
            &&& update.flashed ==> {
                &&& after.flash.unwrap().firmware is None
                &&& after.chain.firmware_check == FirmwareCheck::Pending
                &&& after.chain.firmware_check_port == Some(port)
                &&& after.panels.devices.script == ScriptState::Unknown
            }
            &&& !update.flashed ==> after.chain == m.chain && after.flash == m.flash
        }),
{
    reveal(Model::build_heard);
    let told = m.told(logs::lines_view(update.notices@));
    a_rewritten_flash_is_identified_anew(told, port);
}

/// So is a write or an erase of the flash panel.
pub proof fn a_panel_write_is_followed_up(m: Model, port: String, update: FlashUpdate)
    requires
        m.port() == Some(port),
        m.flash is Some,
        m.flash.unwrap().succeeded,
        !update.chip_query_finished,
        !update.firmware_read_finished,
    ensures
        ({
            let after = m.chain_heard(update);
            &&& update.firmware_invalidated ==> {
                &&& after.flash.unwrap().firmware is None
                &&& after.chain.firmware_check == FirmwareCheck::Pending
                &&& after.chain.firmware_check_port == Some(port)
                &&& after.panels.devices.script == ScriptState::Unknown
            }
            &&& !update.firmware_invalidated ==> after == m
        }),
{
    reveal(Model::chain_heard);
    a_rewritten_flash_is_identified_anew(m, port);
}

/// A board that left takes every answer about it along: the chip's, the
/// firmware's and the question's.
pub proof fn a_departed_board_is_forgotten(m: Model)
    ensures
        ({
            let after = m.disconnected();
            &&& after.chain.firmware_check == FirmwareCheck::Idle
            &&& after.chain.firmware_check_port is None
            &&& after.chain.mpy_version is None
            &&& after.chain.identify == IdentifyAuth::Idle
            &&& after.chain.identify_port is None
            &&& !after.chain.force_listing
            &&& m.flash is Some ==> {
                &&& after.flash.unwrap().firmware is None
                &&& after.flash.unwrap().mac is None
                &&& !after.flash.unwrap().identified
                &&& after.effects == m.effects.push(Effect::Task(Task::ClearDeviceDetails))
            }
            &&& m.flash is None ==> after.effects == m.effects
        }),
{
}

/// A scan that found nothing, or failed, selects nothing and says so in the
/// device pane.
pub proof fn an_empty_scan_selects_nothing(m: Model, devices: Vec<DeviceInfo>, error: String)
    requires
        m.panels.browser is Some,
        devices@.len() == 0,
    ensures
        ({
            let none = m.devices_found(devices);
            let failed = m.scan_failed(error);
            &&& none.port() is None
            &&& none.panels.browser.unwrap().device_state == PaneState::Failed(PaneError::NoDevice)
            &&& none.chain.firmware_check == FirmwareCheck::Idle
            &&& failed.port() is None
            &&& failed.panels.browser.unwrap().device_state == PaneState::Failed(
                PaneError::Reported(error),
            )
            &&& failed.panels.devices.discovery == Discovery::Failed(error)
            &&& failed.panels.devices.script == ScriptState::Unknown
            &&& failed.chain.firmware_check == FirmwareCheck::Idle
        }),
{
    reveal(Model::devices_found);
    reveal(Model::scan_failed);
}

/// A walk over the serial ports: none is said to be none, one selects itself,
/// several ask.
pub proof fn a_walk_selects_the_only_port(m: Model, devices: Vec<DeviceInfo>)
    ensures
        ({
            let after = m.serial_found(devices);
            &&& devices@.len() == 0 ==> after.port() is None && after.panels.devices.discovery
                == Discovery::NoSerialPort && after.overlay == m.overlay
            &&& devices@.len() == 1 ==> after.port() == Some(devices@[0].port) && after.overlay
                == m.overlay
            &&& devices@.len() > 1 && m.port() is None ==> after.port() is None && after.overlay
                == Some(Overlay::<Seq<char>>::DevicePicker { selected: 0 })
            &&& after.effects == m.effects
        }),
{
}

/// A board picked by hand is the one in that row; where it has files, its
/// identification is asked about anew, whatever was answered before.
pub proof fn the_picked_row_is_the_board(m: Model, selected: usize)
    requires
        selected < m.panels.devices.known(),
    ensures
        ({
            let port = m.panels.devices.devices@[selected as int].port;
            let after = m.device_picked(selected);
            &&& after.port() == Some(port)
            &&& !m.caps().filesystem ==> after.effects == m.effects && after.chain == m.chain
            &&& m.caps().filesystem && m.flashes() ==> after.chain.identify
                == IdentifyAuth::Pending
        }),
{
}

/// A device scan shows the pane as waiting, and needs a pane to show it in.
pub proof fn a_scan_is_seen_to_run(m: Model)
    ensures
        m.panels.browser is Some ==> {
            let after = m.devices_asked();
            &&& after.effects == m.effects.push(Effect::Task(Task::ScanDevices))
            &&& after.panels.devices.discovery == Discovery::Scanning
            &&& after.panels.browser.unwrap().device_state == PaneState::Loading
        },
        m.panels.browser is None ==> m.devices_asked() == m,
        m.serial_asked().effects == m.effects.push(
            Effect::Task(Task::ScanSerialPorts { dir: m.project.serial_dir }),
        ),
        m.serial_asked().panels.devices.discovery == Discovery::Scanning,
{
}

/// What is believed of the script decides what the browser holds, whoever
/// learned it: requests wait exactly while one is believed running.
pub proof fn requests_wait_while_a_script_runs(m: Model, state: ScriptState)
    requires
        m.panels.browser is Some,
        m.panels.devices.script != state,
    ensures
        ({
            let gate = m.effects.push(
                Effect::Task(
                    Task::InterruptGate { hold: state == ScriptState::Running, port: m.port() },
                ),
            );
            &&& m.script_marked(state).panels.devices.script == state
            &&& m.script_marked(state).effects == gate
            &&& m.monitor_told(state).panels.devices.script == state
            &&& m.monitor_told(state).effects == gate
            &&& m.script_heard(Some(state == ScriptState::Running)).panels.devices.script == (
            if state == ScriptState::Running {
                ScriptState::Running
            } else {
                ScriptState::Stopped
            })
        }),
{
    reveal(Model::script_heard);
}

/// A deferred chip query runs on the selected port, once the port is free,
/// and marks the panel as asking; it is then no longer due.
pub proof fn a_due_query_asks_the_selected_board(m: Model, port: String)
    requires
        m.port() == Some(port),
        m.chain.flash_query_pending,
        !m.port_in_use(),
        m.panels.devices.script != ScriptState::Running,
        m.flashes(),
        m.flash is Some,
        m.flash.unwrap().query_ready,
        !m.flash.unwrap().busy,
    ensures
        ({
            let (after, outcome) = m.query_polled();
            &&& outcome == DeferredQuery::Started
            &&& after.effects == m.effects.push(
                Effect::Task(Task::QueryDeviceInfo { device: port }),
            )
            &&& after.flash.unwrap().busy
            &&& after.flash.unwrap().chip_query_running
            &&& !after.chain.flash_query_pending
        }),
{
}

/// An armed firmware read runs on the selected port, once the port is free
/// and the chip was asked; it is then marked as running.
pub proof fn an_armed_read_reads_the_selected_board(m: Model, port: String)
    requires
        m.port() == Some(port),
        m.chain.firmware_check == FirmwareCheck::Pending,
        !m.chain.flash_query_pending,
        !m.port_in_use(),
        m.flashes(),
        m.flash is Some,
        m.flash.unwrap().query_ready,
        !m.flash.unwrap().busy,
    ensures
        ({
            let (after, outcome) = m.check_polled();
            &&& outcome == DeferredQuery::Started
            &&& after.effects == m.effects.push(Effect::Task(Task::QueryFirmware { device: port }))
            &&& after.flash.unwrap().busy
            &&& after.chain.firmware_check == FirmwareCheck::Running
        }),
{
}

/// Neither read starts while something else holds the port or the user's
/// attention: a question, a probe, the monitor, a run or the browser.
pub proof fn a_held_port_is_left_alone(m: Model)
    requires
        m.overlay is Some || m.chain.probe is Some || m.monitor.device is Some || m.monitor.run
            is Some || (m.panels.browser is Some && m.panels.browser.unwrap().busy)
            || m.chain.identify == IdentifyAuth::Pending,
    ensures
        m.query_polled() == (m, DeferredQuery::Waiting),
        m.check_polled() == (m, DeferredQuery::Waiting),
        m.hunt_polled() == m,
{
}

/// The version hunt goes to the selected board, once; without one it is
/// dropped.
pub proof fn a_version_is_hunted_once(m: Model)
    requires
        m.flash is Some,
        m.flash.unwrap().version_hunt,
        !m.port_in_use(),
    ensures
        ({
            let after = m.hunt_polled();
            &&& !after.flash.unwrap().version_hunt
            &&& after.hunt_polled() == after
            &&& m.port() is Some ==> after.effects == m.effects.push(
                Effect::Task(Task::HuntVersion { device: m.port().unwrap() }),
            )
            &&& m.port() is None ==> after.effects == m.effects.push(
                Effect::Task(Task::DropVersionHunt),
            )
        }),
{
}

/// The read is armed for the selected port, only after the chip answered, and
/// what an earlier one said is dropped with it.
pub proof fn a_read_is_armed_for_the_selected_board(m: Model, port: String)
    requires
        m.port() == Some(port),
        m.flash is Some,
    ensures
        ({
            let after = m.check_armed();
            let covered = m.chain.firmware_check_port is Some
                && m.chain.firmware_check_port.unwrap()@ == port@;
            &&& m.flash.unwrap().succeeded && !covered ==> {
                &&& after.chain.firmware_check == FirmwareCheck::Pending
                &&& after.chain.firmware_check_port == Some(port)
                &&& after.flash.unwrap().firmware is None
                &&& after.effects == m.effects.push(Effect::Task(Task::ClearFirmwareIdentity))
            }
            &&& !m.flash.unwrap().succeeded || covered ==> after == m
        }),
{
}

/// A probe asks the selected port and notes it, so that it asks once; a probe
/// that could not start lets the listing go on.
pub proof fn a_probe_asks_each_board_once(m: Model, id: u64)
    requires
        m.probe_wanted(),
    ensures
        ({
            let after = m.root_loaded();
            &&& after.effects == m.effects.push(Effect::Task(Task::StartProbe { port: m.port() }))
            &&& after.chain.probed_port == m.port()
            &&& after.panels.browser.unwrap().device_state == PaneState::Loading
            &&& !after.probe_wanted()
            &&& m.probe_answered(Some(id)).chain.probe == Some(id)
            &&& m.probe_answered(Some(id)).effects == m.effects
        }),
{
}

/// With nothing left to wait for, the root of the selected device is listed,
/// past its memory exactly where that was asked for, and only this once.
pub proof fn a_released_listing_lists_the_selected_board(m: Model)
    requires
        m.panels.browser is Some,
    ensures
        m.root_released().effects == m.effects.push(
            Effect::Task(Task::LoadDevice { port: m.port(), force: m.chain.force_listing }),
        ),
        !m.root_released().chain.force_listing,
{
}

/// What finishing the read leaves: the read idle, and a script to bring back
/// only where MicroPython may run one.
pub proof fn a_finished_read_settles_the_restore(m: Model)
    ensures
        m.read_finished().chain.firmware_check == FirmwareCheck::Idle,
        m.flash is None || m.flash.unwrap().firmware is None
            ==> m.read_finished().chain.restore_pending == m.chain.restore_pending,
        m.read_finished().effects == m.effects,
{
}

/// An accepted interruption is remembered, so that the script is offered
/// back, and the script counts as stopped.
pub proof fn an_interrupted_script_is_offered_back(m: Model, confirm: bool, to_packages: bool)
    ensures
        ({
            let question = Overlay::<Seq<char>>::ConfirmInterruptDevice {
                confirm,
                return_to_packages: to_packages,
            };
            let after = m.agreed(question);
            &&& after.chain.restore_pending
            &&& after.panels.devices.script == ScriptState::Stopped
            &&& m.interruption_accepted().panels.devices.script != ScriptState::Running
            &&& m.panels.devices.script == ScriptState::Running
                ==> m.interruption_accepted().chain.restore_pending
            &&& m.panels.devices.script != ScriptState::Running ==> m.interruption_accepted() == m
        }),
{
    reveal(Model::agreed);
    reveal(Model::agreed_on_device);
}

/// Restarting the device is a reset of it, and only after agreement.
pub proof fn a_restart_resets_the_device(m: Model, confirm: bool)
    requires
        m.panels.browser is Some,
        m.monitor.run is None,
        m.chain.probe is None,
        m.flash is None || !m.flash.unwrap().busy,
    ensures
        ({
            let question = Overlay::<Seq<char>>::ConfirmRestartDevice { confirm };
            &&& m.agreed(question).effects == m.effects.push(
                Effect::Task(
                    Task::Dispatch {
                        request: BrowserRequest::Reset,
                        port: m.port(),
                    },
                ),
            )
            &&& m.declined(question) == m
        }),
{
    reveal(Model::agreed);
    reveal(Model::agreed_on_device);
    reveal(Model::declined);
}

/// A monitor is opened on the selected port; the tab shows and takes the
/// keyboard, and the session is the one that started.
pub proof fn the_monitor_opens_on_the_selected_board(m: Model, id: u64, why: Seq<char>)
    ensures
        m.project.manager.spec_kind() is Some ==> m.monitor_asked().effects == m.effects.push(
            Effect::Task(Task::SpawnMonitor { port: m.port() }),
        ),
        m.project.manager.spec_kind() is None ==> m.monitor_asked() == m,
        ({
            let opened = m.monitor_answered(Ok(id));
            let failed = m.monitor_answered(Err(why));
            &&& opened.monitor.device == Some(id)
            &&& opened.monitor.source is Device
            &&& opened.screen.focus is Logs
            &&& opened.screen.log_tab is Monitor
            &&& opened.logs == m.logs
            &&& failed.monitor.device is None
            &&& failed.logs.lines.last().0 is Error
        }),
{
}

/// The picker's rows stand for automatic detection and each backend, and the
/// picker opens on the row of the answer in force.
pub proof fn a_backend_row_is_its_answer(m: Model, selected: usize)
    requires
        selected <= 2,
    ensures
        ({
            let after = m.overridden(
                if selected == 0 {
                    None
                } else if selected == 1 {
                    Some(BackendKind::MicroPython)
                } else {
                    Some(BackendKind::Zephyr)
                },
            );
            &&& after.picker_row() == selected
            &&& after.effects == m.effects
        }),
{
}

/// A saved answer is a success; one that could not be saved is a warning and
/// holds for the session all the same.
pub proof fn a_saved_answer_is_reported(m: Model, kind: BackendKind, why: Seq<char>)
    ensures
        m.scaffold_answered(kind, None).logs.lines.last().0 is Success,
        m.scaffold_answered(kind, Some(why)).logs.lines.last().0 is Warn,
        m.scaffold_answered(kind, Some(why)).project == m.project,
{
}

/// The interrupt question opens over a free screen and over the package
/// manager, which it then returns to; it opens on No, and only where
/// something waits for its answer.
pub proof fn the_interrupt_question_opens_where_it_may(m: Model)
    ensures
        ({
            let after = m.gate_checked();
            let held = m.panels.browser is Some && m.panels.browser.unwrap().held;
            let listing = m.chain.held_root_listing && m.chain.flash_query_pending
                && m.panels.devices.script == ScriptState::Running;
            &&& !held && !listing ==> after == m
            &&& (held || listing) && m.overlay is None ==> after.overlay == Some(
                Overlay::<Seq<char>>::ConfirmInterruptDevice {
                    confirm: false,
                    return_to_packages: false,
                },
            )
            &&& (held || listing) && m.overlay is Some && m.overlay.unwrap() is Packages
                ==> after.overlay == Some(
                Overlay::<Seq<char>>::ConfirmInterruptDevice {
                    confirm: false,
                    return_to_packages: true,
                },
            )
            &&& m.overlay is Some && !(m.overlay.unwrap() is Packages) ==> after == m
            &&& after.effects == m.effects
        }),
{
}

/// Refusing the interruption cancels what waited for it and returns where
/// the question came from.
pub proof fn a_refused_interruption_cancels_what_waited(m: Model, confirm: bool, to_packages: bool)
    requires
        m.panels.browser is Some,
        m.monitor.run is None,
        m.chain.probe is None,
        m.flash is None || !m.flash.unwrap().busy,
    ensures
        ({
            let after = m.declined(
                Overlay::<Seq<char>>::ConfirmInterruptDevice {
                    confirm,
                    return_to_packages: to_packages,
                },
            );
            &&& !after.chain.held_root_listing
            &&& after.effects == m.effects.push(Effect::Task(Task::DeclineHeldListing)).push(
                Effect::Task(
                    Task::Dispatch { request: BrowserRequest::CancelHeld, port: m.port() },
                ),
            )
            &&& to_packages ==> after.overlay == Some(Overlay::<Seq<char>>::Packages)
            &&& !to_packages ==> after.overlay == m.overlay
            &&& after.panels.devices == m.panels.devices
        }),
{
    reveal(Model::declined);
}

/// The restore question opens once everything it waits for is through, on
/// leaving the script stopped, and is then no longer due.
pub proof fn the_restore_question_waits_its_turn(m: Model)
    ensures
        ({
            let after = m.restore_offered();
            let free = m.chain.restore_pending && m.chain.probe is None && !(m.panels.browser
                is Some && m.panels.browser.unwrap().busy) && m.chain.identify
                != IdentifyAuth::Pending && !m.chain.flash_query_pending
                && m.chain.firmware_check == FirmwareCheck::Idle && !(m.flash is Some
                && m.flash.unwrap().chip_query_running);
            &&& !free ==> after == m
            &&& free && m.overlay is None ==> after.overlay == Some(
                Overlay::<Seq<char>>::RestoreDeviceScript {
                    selected: 2,
                    return_to_packages: false,
                },
            ) && !after.chain.restore_pending
            &&& free && m.overlay is Some && m.overlay.unwrap() is Packages ==> after.overlay
                == Some(
                Overlay::<Seq<char>>::RestoreDeviceScript {
                    selected: 2,
                    return_to_packages: true,
                },
            ) && !after.chain.restore_pending
            &&& free && m.overlay is Some && !(m.overlay.unwrap() is Packages) ==> after == m
        }),
{
}

/// A selected board is asked about once: its answer is noted for the port it
/// was given for, agreement makes the chip query due, refusal does not.
pub proof fn an_answer_is_noted_for_its_port(m: Model, port: String, query: bool)
    requires
        m.port() == Some(port),
    ensures
        m.identify_settled(query).chain.identify == IdentifyAuth::Idle,
        m.identify_settled(query).chain.identify_port == Some(port),
        m.identify_settled(query).chain.flash_query_pending == query,
        m.flashes() && !(m.chain.identify_port is Some && m.chain.identify_port.unwrap()@ == port@)
            ==> m.identification_requested().chain.identify == IdentifyAuth::Pending,
        m.chain.identify_port == Some(port) ==> m.identification_requested() == m,
        !m.flashes() ==> m.identification_requested() == m,
        m.identification_requested().effects == m.effects,
{
}

/// A listing released by the firmware's verdict is the listing of the
/// selected board: MicroPython is listed, anything else is refused with its
/// verdict in the pane.
pub proof fn the_verdict_decides_the_listing(m: Model, port: String)
    requires
        m.port() == Some(port),
        m.chain.identify != IdentifyAuth::Pending,
        !m.chain.flash_query_pending,
        m.chain.firmware_check == FirmwareCheck::Idle,
        m.chain.firmware_check_port == Some(port),
        m.flash is Some,
        !m.flash.unwrap().chip_query_running,
        m.panels.browser is Some,
        !m.probe_wanted(),
    ensures
        ({
            let after = m.root_loaded();
            let verdict = m.flash.unwrap().firmware;
            let listed = m.effects.push(
                Effect::Task(
                    Task::LoadDevice { port: Some(port), force: m.chain.force_listing },
                ),
            );
            &&& verdict is None ==> after.effects == listed
            &&& verdict is Some && verdict.unwrap() is Firmware && verdict.unwrap()->Firmware_0
                is MicroPython ==> after.effects == listed
            &&& verdict is Some && (verdict.unwrap() is Erased || !(verdict.unwrap()->Firmware_0
                is MicroPython)) ==> after.effects == m.effects
                && after.panels.browser.unwrap().device_state == PaneState::Failed(
                PaneError::Firmware(verdict.unwrap()),
            )
        }),
{
}

/// While the question, the chip query or the read is under way the listing
/// waits, remembered as held.
pub proof fn the_listing_waits_for_the_chain(m: Model)
    requires
        m.chain.identify == IdentifyAuth::Pending || m.chain.flash_query_pending || (m.flash
            is Some && m.flash.unwrap().chip_query_running),
    ensures
        m.firmware_held().0.chain.held_root_listing,
        m.firmware_held().0.effects == m.effects,
        m.held_driven().effects == m.effects,
{
}

/// A board chosen by hand forgets what was believed of another one's script.
pub proof fn another_board_has_another_script(m: Model, selected: usize)
    requires
        selected < m.panels.devices.known(),
    ensures
        ({
            let after = m.panels.devices.chosen(selected);
            &&& after.port() == Some(m.panels.devices.devices@[selected as int].port)
            &&& m.panels.devices.selected != Some(selected) ==> after.script
                == ScriptState::Unknown
            &&& m.panels.devices.selected == Some(selected) ==> after.script
                == m.panels.devices.script
            &&& after.devices == m.panels.devices.devices
        }),
{
}

/// What a backend's arrival makes possible is looked for at once: a browser
/// and its devices, or a build panel, a workspace and the serial ports.
pub proof fn an_arrived_backend_is_looked_after(m: Model)
    requires
        m.panels.browser is None,
        m.panels.build is None,
        m.panels.workspace is None,
    ensures
        ({
            let after = m.discovered();
            let dir = m.project.manager.spec_dir();
            let kind = m.project.manager.spec_kind();
            &&& kind == Some(BackendKind::MicroPython) ==> {
                &&& after.panels.browser is Some
                &&& after.panels.build is None
                &&& after.effects == m.effects.push(
                    Effect::Task(Task::CreateBrowser { root: dir }),
                ).push(Effect::Task(Task::ScanDevices))
            }
            &&& kind == Some(BackendKind::Zephyr) ==> {
                &&& after.panels.browser is None
                &&& after.panels.build is Some
                &&& after.panels.build.unwrap().root == dir
                &&& after.panels.workspace is Some
                &&& after.effects == m.effects.push(
                    Effect::Task(Task::CreateBuildPanel { root: dir }),
                ).push(Effect::Task(Task::CreateWorkspacePanel)).push(
                    Effect::Task(Task::ScanSerialPorts { dir: m.project.serial_dir }),
                )
            }
        }),
{
}

/// A serial port is named as a host names one: the known prefixes, and
/// nothing else.
pub proof fn serial_ports_are_known_by_their_prefix(rest: Seq<char>)
    ensures
        devices::is_serial_port("ttyUSB"@ + rest),
        devices::is_serial_port("ttyACM"@ + rest),
        devices::is_serial_port("cu.usb"@ + rest),
        devices::is_serial_port("tty.usb"@ + rest),
        !devices::is_serial_port("ttyS"@ + rest),
        !devices::is_serial_port("cu.Blue"@ + rest),
{
    reveal_strlit("ttyUSB");
    reveal_strlit("ttyACM");
    reveal_strlit("cu.usb");
    reveal_strlit("tty.usb");
    reveal_strlit("ttyS");
    reveal_strlit("cu.Blue");
    assert("ttyUSB"@.is_prefix_of("ttyUSB"@ + rest));
    assert("ttyACM"@.is_prefix_of("ttyACM"@ + rest));
    assert("cu.usb"@.is_prefix_of("cu.usb"@ + rest));
    assert("tty.usb"@.is_prefix_of("tty.usb"@ + rest));
    let s = "ttyS"@ + rest;
    let b = "cu.Blue"@ + rest;
    assert(s[0] == 't' && s[2] == 'y' && s[3] == 'S');
    assert(b[0] == 'c' && b[3] == 'B');
    if "ttyUSB"@.is_prefix_of(s) {
        assert("ttyUSB"@[3] == s.subrange(0, 6)[3]);
    }
    if "ttyACM"@.is_prefix_of(s) {
        assert("ttyACM"@[3] == s.subrange(0, 6)[3]);
    }
    if "cu.usb"@.is_prefix_of(s) {
        assert("cu.usb"@[0] == s.subrange(0, 6)[0]);
    }
    if "tty.usb"@.is_prefix_of(s) {
        assert("tty.usb"@[3] == s.subrange(0, 7)[3]);
    }
    if "ttyUSB"@.is_prefix_of(b) {
        assert("ttyUSB"@[0] == b.subrange(0, 6)[0]);
    }
    if "ttyACM"@.is_prefix_of(b) {
        assert("ttyACM"@[0] == b.subrange(0, 6)[0]);
    }
    if "cu.usb"@.is_prefix_of(b) {
        assert("cu.usb"@[3] == b.subrange(0, 6)[3]);
    }
    if "tty.usb"@.is_prefix_of(b) {
        assert("tty.usb"@[0] == b.subrange(0, 7)[0]);
    }
}

/// A tick counts, looks at what changed, and asks for its continuation last.
pub proof fn a_tick_asks_for_its_continuation(m: Model, facts: TickFacts)
    ensures
        ({
            let after = m.time_passed(facts);
            let n = after.effects.len() as int;
            &&& n >= m.effects.len() + 3
            &&& after.effects[n - 3] == Effect::<Seq<char>, Seq<u8>>::Task(
                Task::RefreshRequirements,
            )
            &&& after.effects[n - 2] == Effect::<Seq<char>, Seq<u8>>::Task(Task::TickProbe)
            &&& after.effects[n - 1] == Effect::<Seq<char>, Seq<u8>>::Task(Task::ContinueTick)
            &&& m.ticked().pending.ticks == (if m.pending.ticks == u64::MAX {
                0
            } else {
                m.pending.ticks + 1
            })
        }),
{
    reveal(Model::time_passed);
    reveal(Model::hotplug_checked);
}

/// A changed number of ports is scanned for the way the backend scans, when
/// it is due, and noted.
pub proof fn a_changed_port_count_is_scanned_for(m: Model, count: usize, before: usize)
    requires
        m.ports_due(),
        m.pending.last_port_count == Some(before),
        m.panels.browser is Some,
        !(m.flash is Some && m.flash.unwrap().busy),
    ensures
        ({
            let after = m.hotplug_checked(count);
            &&& after.pending.last_port_count == Some(count)
            &&& count == before ==> after.effects == m.effects
            &&& count != before && m.caps().filesystem ==> after.effects == m.effects.push(
                Effect::Task(Task::ScanDevices),
            )
            &&& count != before && !m.caps().filesystem ==> after.effects == m.effects.push(
                Effect::Task(Task::ScanSerialPorts { dir: m.project.serial_dir }),
            )
        }),
{
    reveal(Model::hotplug_checked);
}

/// What the documentation fetches say keeps its level and its words.
pub proof fn notices_keep_their_level(m: Model, level: Level, text: Seq<char>)
    ensures
        ({
            let after = m.docs_heard(Some((level, text)));
            &&& after.logs.lines.len() == m.logs.lines.len() + 1
            &&& after.logs.lines.last().1 == text
            &&& level is Error <==> after.logs.lines.last().0 is Error
            &&& level is Warn <==> after.logs.lines.last().0 is Warn
            &&& m.docs_heard(None) == m
        }),
{
}

/// A chip query that is due holds the listing while it can still run, and
/// lets it go where it never will.
pub proof fn a_due_query_holds_the_listing(m: Model)
    ensures
        !m.chain.flash_query_pending ==> m.chip_held() == (m, false),
        m.panels.devices.script == ScriptState::Running ==> m.chip_held() == (m, false),
        m.chain.flash_query_pending && m.panels.devices.script != ScriptState::Running
            && !m.flashes() ==> !m.chip_held().1 && !m.chip_held().0.chain.flash_query_pending
            && m.chip_held().0.effects == m.effects,
        m.chain.flash_query_pending && m.panels.devices.script != ScriptState::Running
            && m.flashes() && m.flash is Some && m.port_in_use() ==> m.chip_held().1
            && m.chip_held().0.chain.held_root_listing && m.chip_held().0.effects == m.effects,
{
}

/// A held listing goes on once nothing holds it: it is listed, or refused,
/// and no longer held either way.
pub proof fn a_held_listing_goes_on_or_is_refused(m: Model, port: String)
    requires
        m.port() == Some(port),
        m.chain.held_root_listing,
        m.chain.identify != IdentifyAuth::Pending,
        !m.chain.flash_query_pending,
        m.chain.firmware_check == FirmwareCheck::Idle,
        m.chain.firmware_check_port == Some(port),
        m.flash is Some,
        !m.flash.unwrap().chip_query_running,
        m.panels.browser is Some,
        !m.probe_wanted(),
    ensures
        ({
            let after = m.held_driven();
            let verdict = m.flash.unwrap().firmware;
            &&& !after.chain.held_root_listing
            &&& verdict is None ==> after.effects == m.effects.push(
                Effect::Task(
                    Task::LoadDevice { port: Some(port), force: m.chain.force_listing },
                ),
            )
            &&& verdict is Some && verdict.unwrap() is Erased ==> after.effects == m.effects
        }),
{
}

/// A new answer drops an earlier read, but not one that is running.
pub proof fn a_running_read_is_not_dropped(m: Model)
    ensures
        m.chain.firmware_check == FirmwareCheck::Running ==> m.check_dropped() == m,
        m.chain.firmware_check != FirmwareCheck::Running ==> m.check_dropped().chain.firmware_check
            == FirmwareCheck::Idle && m.check_dropped().chain.firmware_check_port is None,
        m.check_dropped().effects == m.effects,
{
}

} // verus!
