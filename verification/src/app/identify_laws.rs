//! What the identification question promises: reading a board restarts it, so
//! nothing reads or lists it while the question waits for its answer.

use vstd::prelude::*;
use vstd::view::View as _;

use crate::app::{Chain, Model, View};
use crate::app::events::{
    BrowserUpdate, BuildUpdate, FlashUpdate, PanelUpdates, ProcessEvent, Session, TickFacts,
};
use crate::app::flash_view::{FirmwareCheck, FirmwareHold, IdentifyAuth};
use crate::effect::{Effect, EffectModel, Task};
use crate::logs;
use crate::overlay::Overlay;
use crate::panels::{DeviceInfo, ScriptState};

verus! {

/// The effects that reach the selected board on their own account: its
/// listing, and every identification read.
pub open spec fn touches(effect: EffectModel) -> bool {
    match effect {
        Effect::Task(Task::LoadDevice { .. })
        | Effect::Task(Task::QueryDeviceInfo { .. })
        | Effect::Task(Task::QueryFirmware { .. })
        | Effect::Task(Task::HuntVersion { .. }) => true,
        _ => false,
    }
}

/// The effects among `effects` that touch the board.
pub open spec fn touching(effects: Seq<EffectModel>) -> Seq<EffectModel> {
    effects.filter(|e: EffectModel| touches(e))
}

impl Model {
    /// The question waits for its answer, or the board it was about is gone
    /// and its listing with it.
    pub open spec fn unasked(self) -> bool {
        ||| self.chain.identify == IdentifyAuth::Pending
        ||| self.port() is None && !self.chain.held_root_listing
    }
}

/// From one state to the next nothing touched the board, and nothing may
/// yet.
spec fn left_alone(before: Model, after: Model) -> bool {
    after.unasked() && touching(after.effects) == touching(before.effects)
}

/// An effect that does not touch the board leaves those that do as they were.
proof fn other_effects_do_not_touch()
    ensures
        forall|s: Seq<EffectModel>, e: EffectModel|
            !touches(e) ==> #[trigger] touching(s.push(e)) == touching(s),
{
    assert forall|s: Seq<EffectModel>, e: EffectModel| !touches(e) implies #[trigger] touching(
        s.push(e),
    ) == touching(s) by {
        reveal(Seq::filter);
        assert(s.push(e).drop_last() =~= s);
    }
}

// ---- the links of the chain ----
proof fn a_query_waits(m: Model)
    requires
        m.unasked(),
    ensures
        left_alone(m, m.query_polled().0),
        left_alone(m, m.check_polled().0),
        left_alone(m, m.hunt_polled()),
        m.query_polled().0.chain.identify == m.chain.identify,
        m.query_polled().0.chain.held_root_listing == m.chain.held_root_listing,
        m.query_polled().0.port() == m.port(),
        m.check_polled().0.chain.identify == m.chain.identify,
        m.check_polled().0.chain.held_root_listing == m.chain.held_root_listing,
        m.check_polled().0.port() == m.port(),
{
    other_effects_do_not_touch();
}

proof fn a_listing_waits(m: Model)
    requires
        m.chain.identify == IdentifyAuth::Pending,
    ensures
        left_alone(m, m.root_loaded()),
        m.root_loaded().chain.identify == IdentifyAuth::Pending,
        !m.probe_wanted() ==> m.root_loaded().chain.held_root_listing,
{
    other_effects_do_not_touch();
    a_query_waits(m.flash_ensured());
}

proof fn a_held_listing_waits(m: Model)
    requires
        m.unasked(),
    ensures
        left_alone(m, m.held_driven()),
{
}

// ---- what the panels report ----
proof fn an_empty_scan_leaves_the_board_alone(m: Model, devices: Vec<DeviceInfo>)
    requires
        m.chain.identify == IdentifyAuth::Pending,
        devices@.len() == 0,
    ensures
        left_alone(m, m.devices_found(devices)),
{
    other_effects_do_not_touch();
    reveal(Model::devices_found);
}

proof fn a_full_scan_leaves_the_board_alone(m: Model, devices: Vec<DeviceInfo>)
    requires
        m.chain.identify == IdentifyAuth::Pending,
        devices@.len() > 0,
    ensures
        left_alone(m, m.devices_found(devices)),
{
    let n = m.with_devices(m.panels.devices.with_devices(devices));
    let p = n.identification_requested();
    assert(p.chain.identify == IdentifyAuth::Pending && p.effects == m.effects);
    a_listing_waits(p);
    assert(m.devices_found(devices) == if n.panels.devices.undecided() {
        n.device_picker_opened()
    } else {
        p.root_loaded()
    }) by {
        reveal(Model::devices_found);
    }
}

proof fn a_failed_scan_leaves_the_board_alone(m: Model, error: String)
    requires
        m.chain.identify == IdentifyAuth::Pending,
    ensures
        left_alone(m, m.scan_failed(error)),
{
    other_effects_do_not_touch();
    reveal(Model::scan_failed);
}

proof fn a_scan_leaves_the_board_alone(
    m: Model,
    scan: Option<Result<Vec<DeviceInfo>, String>>,
)
    requires
        m.chain.identify == IdentifyAuth::Pending,
    ensures
        left_alone(m, m.scan_heard(scan)),
{
    match scan {
        Some(Ok(devices)) => {
            if devices@.len() == 0 {
                an_empty_scan_leaves_the_board_alone(m, devices);
            } else {
                a_full_scan_leaves_the_board_alone(m, devices);
            }
        },
        Some(Err(error)) => {
            a_failed_scan_leaves_the_board_alone(m, error);
        },
        None => {},
    }
}

proof fn the_browser_leaves_the_board_alone(m: Model, update: BrowserUpdate)
    requires
        m.chain.identify == IdentifyAuth::Pending,
    ensures
        left_alone(m, m.browser_heard(update)),
{
    other_effects_do_not_touch();
    reveal(Model::browser_heard);
    if m.panels.browser is Some {
        let a = m.told(logs::lines_view(update.notices@));
        a_scan_leaves_the_board_alone(a, update.device_scan);
        let b = a.scan_heard(update.device_scan);
        let c = b.view_heard(update.device_view);
        assert(left_alone(b, c)) by {
            reveal(Model::view_heard);
        }
        let d = c.erase_asked(update.prompt_micropython_flash);
        assert(left_alone(c, d)) by {
            reveal(Model::erase_asked);
        }
        let e = d.script_heard(update.script_running);
        assert(left_alone(d, e)) by {
            reveal(Model::script_heard);
        }
        let f = e.transfer_heard(update.transfer);
        assert(left_alone(e, f)) by {
            reveal(Model::transfer_heard);
        }
        let g = f.plan_heard(update.sync_plan);
        assert(left_alone(f, g)) by {
            reveal(Model::plan_heard);
        }
        assert(left_alone(g, g.listing_heard(update.listed)));
    }
}

proof fn a_rewrite_leaves_the_board_alone(m: Model, changed: bool)
    requires
        m.unasked(),
    ensures
        left_alone(m, m.reidentified_if(changed)),
{
    other_effects_do_not_touch();
}

proof fn the_build_leaves_the_board_alone(m: Model, update: BuildUpdate)
    requires
        m.unasked(),
    ensures
        left_alone(m, m.build_heard(update)),
{
    other_effects_do_not_touch();
    reveal(Model::build_heard);
    a_rewrite_leaves_the_board_alone(
        m.told(logs::lines_view(update.notices@)),
        update.flashed,
    );
}

proof fn an_offer_leaves_the_board_alone(m: Model)
    requires
        m.unasked(),
    ensures
        left_alone(m, m.write_offered()),
        left_alone(m, m.erase_offered()),
{
    other_effects_do_not_touch();
}

proof fn a_search_leaves_the_board_alone(m: Model)
    requires
        m.unasked(),
    ensures
        left_alone(m, m.search_asked(false).viewed(View::Flash)),
{
    other_effects_do_not_touch();
}

proof fn the_offers_leave_the_board_alone(m: Model, update: FlashUpdate)
    requires
        m.unasked(),
    ensures
        left_alone(m, m.offers_heard(update)),
{
    let a = m.told(logs::lines_view(update.notices@));
    assert(left_alone(m, a));
    an_offer_leaves_the_board_alone(a);
    let b = if update.offer_flash {
        a.write_offered()
    } else {
        a
    };
    a_search_leaves_the_board_alone(b);
    let c = if update.search_online_for_firmware {
        b.search_asked(false).viewed(View::Flash)
    } else {
        b
    };
    let d = c.told(logs::lines_view(update.fetch_notices@));
    assert(left_alone(c, d));
    an_offer_leaves_the_board_alone(d);
    assert(m.offers_heard(update) == if update.download_finished {
        d.erase_offered()
    } else {
        d
    }) by {
        reveal(Model::offers_heard);
    }
}

/// The chain once the firmware read reported back, or not.
spec fn read_if(m: Model, finished: bool) -> Model {
    if finished {
        m.read_finished()
    } else {
        m
    }
}

/// The chain once the chip answered, or not.
spec fn armed_if(m: Model, finished: bool) -> Model {
    if finished {
        m.check_armed()
    } else {
        m
    }
}

proof fn a_read_leaves_the_board_alone(m: Model, finished: bool)
    requires
        m.unasked(),
    ensures
        left_alone(m, read_if(m, finished)),
        left_alone(m, armed_if(m, finished)),
{
    other_effects_do_not_touch();
}

proof fn the_reads_heard(m: Model, update: FlashUpdate)
    ensures
        ({
            let a = m.reidentified_if(update.firmware_invalidated);
            let c = armed_if(
                read_if(a, update.firmware_read_finished),
                update.chip_query_finished,
            );
            m.chain_heard(update) == if update.chip_query_finished
                || update.firmware_read_finished {
                c.held_driven()
            } else {
                c
            }
        }),
{
    reveal(Model::chain_heard);
}

proof fn the_reads_leave_the_board_alone(m: Model, update: FlashUpdate)
    requires
        m.unasked(),
    ensures
        left_alone(m, m.chain_heard(update)),
{
    a_rewrite_leaves_the_board_alone(m, update.firmware_invalidated);
    let a = m.reidentified_if(update.firmware_invalidated);
    a_read_leaves_the_board_alone(a, update.firmware_read_finished);
    let b = read_if(a, update.firmware_read_finished);
    a_read_leaves_the_board_alone(b, update.chip_query_finished);
    a_held_listing_waits(armed_if(b, update.chip_query_finished));
    the_reads_heard(m, update);
}

proof fn the_installer_leaves_the_board_alone(m: Model, updates: PanelUpdates)
    requires
        m.unasked(),
    ensures
        left_alone(m, m.install_updated(updates.install)),
        left_alone(m, m.ota_updated(updates.ota)),
{
    other_effects_do_not_touch();
}

proof fn the_chain_leaves_the_board_alone(m: Model)
    requires
        m.unasked(),
    ensures
        left_alone(m, m.query_driven()),
        left_alone(m, m.check_driven()),
        left_alone(m, m.hunt_driven()),
        left_alone(m, m.listing_driven()),
{
    reveal(Model::query_driven);
    reveal(Model::check_driven);
    reveal(Model::hunt_driven);
    reveal(Model::listing_driven);
    a_query_waits(m);
    a_held_listing_waits(m);
    a_held_listing_waits(m.query_polled().0);
}

proof fn the_questions_leave_the_board_alone(m: Model)
    requires
        m.unasked(),
    ensures
        left_alone(m, m.questions_asked()),
{
    reveal(Model::questions_asked);
}

proof fn the_panels_leave_the_board_alone(m: Model, updates: PanelUpdates)
    requires
        m.chain.identify == IdentifyAuth::Pending,
    ensures
        left_alone(m, m.panels_heard(updates)),
{
    reveal(Model::panels_heard);
    the_browser_leaves_the_board_alone(m, updates.browser);
    let a = m.browser_heard(updates.browser);
    the_installer_leaves_the_board_alone(a, updates);
    let b = a.install_updated(updates.install);
    the_installer_leaves_the_board_alone(b, updates);
    let c = b.ota_updated(updates.ota);
    the_build_leaves_the_board_alone(c, updates.build);
    let d = c.build_heard(updates.build);
    if d.flash is Some {
        the_offers_leave_the_board_alone(d, updates.flash);
        the_reads_leave_the_board_alone(d.offers_heard(updates.flash), updates.flash);
    }
    let e = d.flash_heard(updates.flash);
    the_chain_leaves_the_board_alone(e);
    let f = e.query_driven();
    the_chain_leaves_the_board_alone(f);
    let g = f.check_driven();
    the_chain_leaves_the_board_alone(g);
    let h = g.hunt_driven();
    the_chain_leaves_the_board_alone(h);
    the_questions_leave_the_board_alone(h.listing_driven());
}

proof fn a_session_leaves_the_board_alone(m: Model, session: Session, event: ProcessEvent)
    ensures
        touching(m.session_heard(session, event).effects) == touching(m.effects),
{
    other_effects_do_not_touch();
    reveal(Model::session_heard);
}

proof fn a_process_leaves_the_board_alone(
    m: Model,
    event: ProcessEvent,
    claimed: bool,
    updates: PanelUpdates,
)
    requires
        m.chain.identify == IdentifyAuth::Pending,
    ensures
        touching(m.process_heard(event, claimed, updates).effects) == touching(m.effects),
{
    the_panels_leave_the_board_alone(m, updates);
    match m.session_of(event) {
        Some(session) => {
            a_session_leaves_the_board_alone(m, session, event);
        },
        None => {},
    }
}

proof fn a_tick_leaves_the_board_alone(m: Model, facts: TickFacts)
    ensures
        touching(m.time_passed(facts).effects) == touching(m.effects),
{
    other_effects_do_not_touch();
    let a = m.ticked();
    let b = a.hotplug_checked(facts.port_count);
    assert(touching(b.effects) == touching(a.effects)) by {
        reveal(Model::hotplug_checked);
    }
    let c = b.listings_refreshed(facts.local_changed, facts.files_changed);
    assert(touching(c.effects) == touching(b.effects));
    reveal(Model::time_passed);
}

proof fn the_rest_of_a_tick_leaves_the_board_alone(m: Model)
    requires
        m.chain.identify == IdentifyAuth::Pending,
    ensures
        touching(m.tick_continued().effects) == touching(m.effects),
{
    let a = m.questions_asked();
    the_questions_leave_the_board_alone(m);
    the_chain_leaves_the_board_alone(a);
    let b = a.check_driven();
    the_chain_leaves_the_board_alone(b);
    let c = b.hunt_driven();
    the_chain_leaves_the_board_alone(c);
    let d = c.query_driven();
    the_chain_leaves_the_board_alone(d);
    let e = d.listing_driven();
    assert(touching(e.docs_driven().ota_driven().effects) == touching(e.effects)) by {
        other_effects_do_not_touch();
    }
    assert(m.tick_continued() == e.docs_driven().ota_driven()) by {
        reveal(Model::tick_continued);
    }
}

/// While the identification question waits for its answer, no event of any
/// process, no tick and no request for the listing reads or lists the board.
pub proof fn nothing_touches_the_board_unasked(
    m: Model,
    event: ProcessEvent,
    claimed: bool,
    updates: PanelUpdates,
    facts: TickFacts,
)
    requires
        m.chain.identify == IdentifyAuth::Pending,
    ensures
        touching(m.process_heard(event, claimed, updates).effects) == touching(m.effects),
        touching(m.time_passed(facts).effects) == touching(m.effects),
        touching(m.tick_continued().effects) == touching(m.effects),
        touching(m.root_loaded().effects) == touching(m.effects),
{
    a_process_leaves_the_board_alone(m, event, claimed, updates);
    a_tick_leaves_the_board_alone(m, facts);
    the_rest_of_a_tick_leaves_the_board_alone(m);
    a_listing_waits(m);
}

/// A scan that leaves one board to talk to asks about it before it is read or
/// listed, unless the question was answered for its port.
pub proof fn a_scanned_board_is_asked_about(m: Model, devices: Vec<DeviceInfo>)
    requires
        devices@.len() == 1,
        m.flashes(),
        !m.identify_covers(devices@[0].port),
    ensures
        m.devices_found(devices).chain.identify == IdentifyAuth::Pending,
        touching(m.devices_found(devices).effects) == touching(m.effects),
{
    reveal(Model::devices_found);
    let n = m.with_devices(m.panels.devices.with_devices(devices));
    assert(n.port() == Some(devices@[0].port));
    a_listing_waits(n.identification_requested());
}

/// A board picked by hand is always asked about, whatever was answered
/// before.
pub proof fn a_picked_board_is_asked_about(m: Model, selected: usize)
    requires
        selected < m.panels.devices.known(),
        m.caps().filesystem,
        m.flashes(),
    ensures
        m.device_picked(selected).chain.identify == IdentifyAuth::Pending,
        touching(m.device_picked(selected).effects) == touching(m.effects),
{
    let devices = m.panels.devices;
    let n = m.with_devices(devices.chosen(selected)).info(
        "device set to "@ + devices.devices@[selected as int].label@,
    );
    let p = n.with_chain(Chain { identify_port: None, force_listing: true, ..n.chain });
    assert(p.port() is Some);
    a_listing_waits(p.identification_requested());
}

/// The question opens as soon as the screen is free, ahead of every other,
/// and on No.
pub proof fn the_identification_question_comes_first(m: Model)
    requires
        m.chain.identify == IdentifyAuth::Pending,
        m.overlay is None,
    ensures
        m.questions_asked().overlay == Some(
            Overlay::<Seq<char>>::ConfirmIdentifyDevice { confirm: false },
        ),
        m.questions_asked().effects == m.effects,
{
    reveal(Model::questions_asked);
}

/// Refusing leaves the board unread: the listing that waited goes out, and
/// nothing else touches the board.
pub proof fn a_refusal_releases_the_listing(m: Model, port: String)
    requires
        m.port() == Some(port),
        m.panels.browser is Some,
        m.chain.held_root_listing,
        m.chain.firmware_check == FirmwareCheck::Idle,
        !m.check_covers(port),
        m.flash matches Some(flash) ==> !flash.chip_query_running,
        !m.probe_wanted(),
    ensures
        m.identification_declined().effects == m.effects.push(
            Effect::Task(Task::LoadDevice { port: Some(port), force: m.chain.force_listing }),
        ),
        m.identification_declined().chain.identify == IdentifyAuth::Idle,
        !m.identification_declined().chain.flash_query_pending,
        !m.identification_declined().chain.held_root_listing,
        m.identification_declined().identify_covers(port),
{
    reveal(Model::identification_declined);
    let n = m.identify_settled(false);
    assert(n.firmware_held() == (n, FirmwareHold::Release));
    let p = n.listing_held(false);
    assert(n.held_driven() == p.root_loaded());
    assert(p.chip_held() == (p, false));
    assert(p.firmware_held() == (p, FirmwareHold::Release));
    assert(p.root_loaded() == p.root_released());
}

/// Agreeing asks the chip, and the listing goes on waiting behind it.
pub proof fn an_agreement_asks_the_chip_first(m: Model, port: String)
    requires
        m.port() == Some(port),
        m.overlay is None,
        m.chain.held_root_listing,
        m.chain.probe is None,
        m.monitor.device is None,
        m.monitor.run is None,
        !m.browser_busy(),
        m.query_starts(),
        m.panels.devices.script != ScriptState::Running,
    ensures
        touching(m.identification_accepted().effects) == touching(m.effects).push(
            Effect::Task(Task::QueryDeviceInfo { device: port }),
        ),
        m.identification_accepted().chain.identify == IdentifyAuth::Idle,
        m.identification_accepted().chain.held_root_listing,
        m.identification_accepted().identify_covers(port),
{
    let n = m.identify_settled(true).check_dropped();
    let q = n.with_chain(Chain { flash_query_pending: false, ..n.chain });
    let before = q.flash_ensured().effects;
    let asked = Effect::<Seq<char>, Seq<u8>>::Task(Task::QueryDeviceInfo { device: port });
    assert(m.identification_accepted() == n.query_driven()) by {
        reveal(Model::identification_accepted);
    }
    assert(n.query_driven() == q.device_queried()) by {
        reveal(Model::query_driven);
    }
    assert(q.device_queried().effects == before.push(asked));
    assert(touching(before.push(asked)) == touching(before).push(asked)) by {
        reveal(Seq::filter);
        assert(before.push(asked).drop_last() =~= before);
    }
    assert(touching(before) == touching(m.effects)) by {
        other_effects_do_not_touch();
    }
}

/// Agreeing while a script is believed running accepts that it is stopped,
/// and that it is offered back afterwards.
pub proof fn an_agreement_accepts_the_interruption(m: Model)
    requires
        m.panels.devices.script == ScriptState::Running,
    ensures
        m.interruption_accepted().chain.restore_pending,
        m.interruption_accepted().panels.devices.script == ScriptState::Stopped,
{
}

/// An answer holds for its port: selecting the same board by another scan
/// asks nothing.
pub proof fn an_answered_port_is_not_asked_again(m: Model, query: bool)
    ensures
        m.identify_settled(query).identification_requested() == m.identify_settled(query),
{
}

/// A board that left takes its answer, and an unanswered question, with it.
pub proof fn a_departed_board_takes_its_question(m: Model, port: String)
    ensures
        m.disconnected().chain.identify == IdentifyAuth::Idle,
        !m.disconnected().identify_covers(port),
        m.chain.identify == IdentifyAuth::Pending ==> !m.disconnected().chain.held_root_listing,
{
}

} // verus!
