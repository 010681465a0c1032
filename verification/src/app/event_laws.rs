//! What holds of every event, whichever handler answers it.

use vstd::prelude::*;

use crate::app::{Model, Pending, RunState};
use crate::app::events::{PanelUpdates, ProcessEvent, Session, TickFacts};
use crate::app::flash_view;
use crate::app::flash_view::FirmwareHold;
use crate::effect::{Effect, TextTask};
use crate::overlay::Overlay;
use crate::panels::{DeviceInfo, FirmwareVerdict, ScriptState};

verus! {

/// A dialog on screen is never covered by a rescan: the look at the ports
/// waits until it closes.
pub proof fn a_dialog_holds_off_the_port_check(m: Model, count: usize)
    requires
        m.overlay is Some,
    ensures
        m.hotplug_checked(count) == m,
{
    reveal(Model::hotplug_checked);
}

/// While a query resets the board its port may blink: the count is kept up
/// to date, and nothing is scanned for.
pub proof fn a_port_blink_scans_nothing(m: Model, count: usize)
    requires
        m.flash_busy(),
        m.ports_due(),
    ensures
        m.hotplug_checked(count) == m.with_pending(
            Pending { last_port_count: Some(count), ..m.pending },
        ),
{
    reveal(Model::hotplug_checked);
}

/// An unchanged port count asks for nothing.
pub proof fn a_steady_port_count_scans_nothing(m: Model, count: usize)
    requires
        m.pending.last_port_count == Some(count),
    ensures
        m.hotplug_checked(count) == m,
{
    reveal(Model::hotplug_checked);
    assert(m.with_pending(Pending { last_port_count: Some(count), ..m.pending }) == m);
}

/// The ports are looked at on every fourth tick, and on no other.
pub proof fn the_port_check_keeps_its_pace(m: Model, count: usize)
    requires
        m.pending.ticks % 4 != 0,
    ensures
        m.hotplug_checked(count) == m,
{
    reveal(Model::hotplug_checked);
}

/// An event the package index took reaches nobody else.
pub proof fn a_claimed_event_changes_nothing(
    m: Model,
    event: ProcessEvent,
    updates: PanelUpdates,
)
    ensures
        m.process_heard(event, true, updates) == m,
{
}

/// A session's event reaches that session alone: whatever the panels would
/// have made of it is ignored.
pub proof fn a_sessions_event_reaches_no_panel(
    m: Model,
    event: ProcessEvent,
    a: PanelUpdates,
    b: PanelUpdates,
)
    requires
        m.session_of(event) is Some,
    ensures
        m.process_heard(event, false, a) == m.process_heard(event, false, b),
{
}

/// A session's end frees what it held: its id is gone, and the keyboard
/// with it.
pub proof fn an_ended_session_is_forgotten(m: Model, id: u64, summary: String, updates: PanelUpdates)
    ensures
        ({
            let event = ProcessEvent::Finished { id, summary };
            let after = m.process_heard(event, false, updates);
            match m.session_of(event) {
                Some(Session::Probe) => after.chain.probe is None,
                Some(Session::Version) => after.chain.version_capture is None,
                Some(Session::Address) => after.capture is None,
                Some(Session::Monitor) => after.monitor.device is None && !after.monitor_active(),
                Some(Session::Shell) => after.terminal.process is None && !after.terminal_active(),
                Some(Session::Run) => after.monitor.run is None && after.monitor.run_state
                    == RunState::Finished && after.panels.devices.script == ScriptState::Stopped,
                None => true,
            }
        }),
{
    reveal(Model::session_heard);
}

/// A session's output moves nothing: it is handed on, and that is all.
pub proof fn output_only_hands_on(m: Model, id: u64, text: String, updates: PanelUpdates)
    requires
        m.session_of(ProcessEvent::Output { id, text }) is Some,
    ensures
        ({
            let after = m.process_heard(ProcessEvent::Output { id, text }, false, updates);
            after == (Model { effects: after.effects, ..m }) && after.effects.len()
                == m.effects.len() + 1
        }),
{
    reveal(Model::session_heard);
}

/// Pasted text goes to a live shell and nowhere else.
pub proof fn a_paste_needs_a_live_shell(m: Model, text: Seq<char>)
    ensures
        !m.terminal_active() ==> m.pasted(text) == m,
        m.terminal_active() ==> m.pasted(text).effects == m.effects.push(
            Effect::Text(TextTask::PasteIntoShell, text),
        ),
{
}

/// The erase question opens once, however often it is asked for.
pub proof fn the_erase_question_opens_once(m: Model)
    ensures
        m.erase_asked(true).erase_asked(true) == m.erase_asked(true),
{
    reveal(Model::erase_asked);
}

/// Several boards and no choice yet: the picker opens before any of them is
/// touched.
pub proof fn several_boards_are_asked_about(m: Model, devices: Vec<DeviceInfo>)
    requires
        devices@.len() > 1,
        m.panels.devices.kept_selection(devices@) is None,
    ensures
        m.devices_found(devices).overlay matches Some(Overlay::DevicePicker { selected: 0 }),
        m.devices_found(devices).effects == m.effects,
{
    reveal(Model::devices_found);
}

/// A firmware read that finds another firmware has no script to bring back.
pub proof fn foreign_firmware_has_no_script_to_restore(m: Model)
    requires
        m.runs_foreign_firmware(),
    ensures
        !m.read_finished().chain.restore_pending,
        m.read_finished().restore_offered() == m.read_finished(),
{
}

proof fn a_query_opens_nothing(m: Model)
    ensures
        m.query_polled().0.overlay == m.overlay,
        m.check_polled().0.overlay == m.overlay,
{
    assert(m.query_polled().0.overlay == m.overlay);
}

proof fn a_refusal_opens_nothing(m: Model, verdict: FirmwareVerdict, reason: Seq<char>)
    ensures
        m.refused(verdict, reason).overlay == m.overlay,
{
}

proof fn the_firmware_hold_opens_nothing(m: Model)
    ensures
        m.firmware_held().0.overlay == m.overlay,
{
    match (m.flash, m.port()) {
        (Some(flash), Some(_)) => match flash.firmware {
            Some(verdict) => match flash_view::block_reason(verdict) {
                Some(reason) => {
                    a_refusal_opens_nothing(m, verdict, reason);
                },
                None => {},
            },
            None => {},
        },
        _ => {},
    }
}

proof fn the_first_listing_opens_nothing(m: Model)
    ensures
        m.root_loaded().overlay == m.overlay,
{
    let (chip, _) = m.chip_held();
    a_query_opens_nothing(m.flash_ensured());
    assert(chip.overlay == m.overlay);
    the_firmware_hold_opens_nothing(chip);
}

proof fn a_held_listing_opens_nothing(m: Model)
    ensures
        m.held_driven().overlay == m.overlay,
{
    the_firmware_hold_opens_nothing(m);
    let (held, hold) = m.firmware_held();
    let n = held.listing_held(false);
    the_first_listing_opens_nothing(n);
    assert(held.held_resumed().overlay == held.overlay);
    assert(m.held_driven() == if !m.chain.held_root_listing {
        m
    } else {
        match hold {
            FirmwareHold::Release => held.held_resumed(),
            FirmwareHold::Held => held,
            FirmwareHold::Blocked => n,
        }
    });
}

proof fn the_chain_opens_nothing(m: Model)
    ensures
        m.query_driven().overlay == m.overlay,
        m.check_driven().overlay == m.overlay,
        m.hunt_driven().overlay == m.overlay,
        m.listing_driven().overlay == m.overlay,
        m.ota_driven().overlay == m.overlay,
{
    a_query_opens_nothing(m);
    a_held_listing_opens_nothing(m);
    a_held_listing_opens_nothing(m.query_polled().0);
    reveal(Model::query_driven);
    reveal(Model::check_driven);
    reveal(Model::hunt_driven);
    reveal(Model::listing_driven);
}

/// Neither half of a tick covers an open dialog. Only over the package
/// manager does a question open, and it hands the window back.
pub proof fn a_tick_keeps_the_open_dialog(m: Model, facts: TickFacts)
    requires
        m.overlay is Some,
        m.overlay != Some(Overlay::<Seq<char>>::Packages),
    ensures
        m.time_passed(facts).overlay == m.overlay,
        m.tick_continued().overlay == m.overlay,
{
    a_dialog_holds_off_the_port_check(m.ticked(), facts.port_count);
    assert(m.time_passed(facts).overlay == m.overlay) by {
        reveal(Model::time_passed);
    }
    let c = m.questions_asked();
    assert(c.overlay == m.overlay) by {
        reveal(Model::questions_asked);
    }
    the_chain_opens_nothing(c);
    let d = c.check_driven();
    the_chain_opens_nothing(d);
    let e = d.hunt_driven();
    the_chain_opens_nothing(e);
    let f = e.query_driven();
    the_chain_opens_nothing(f);
    let g = f.listing_driven();
    let h = g.docs_driven();
    assert(h.overlay == m.overlay);
    the_chain_opens_nothing(h);
    assert(m.tick_continued() == h.ota_driven()) by {
        reveal(Model::tick_continued);
    }
}

} // verus!
