//! What a panel's report leads to: each thing reported is taken up, as
//! reported, and nothing that was not.

use vstd::prelude::*;
use vstd::string::*;

use crate::app::{IdentifyAuth, Model};
use crate::app::events::{BrowserUpdate, FlashUpdate, PanelUpdates};
use crate::effect::{Effect, Task, TextTask};
use crate::input::{KeyCode, KeyEvent, KeyModifiers};
use crate::logs;
use crate::overlay::Overlay;
use crate::panels::ScriptState;

verus! {

impl BrowserUpdate {
    /// Nothing but what is asked about below was reported.
    pub open spec fn quiet(self) -> bool {
        &&& self.notices@.len() == 0
        &&& self.device_scan is None
        &&& self.device_view is None
        &&& self.transfer is None
    }
}

/// What the browser reports is taken up: a listed directory is handed on, a
/// sync plan is reviewed from No, a script's state believed, and a board that
/// does not answer as MicroPython does is offered the erase.
pub proof fn the_browsers_report_is_taken_up(m: Model, update: BrowserUpdate)
    requires
        m.panels.browser is Some,
        m.overlay is None,
        update.quiet(),
    ensures
        ({
            let after = m.browser_heard(update);
            let plain = update.script_running is None;
            &&& update.script_running == Some(true) ==> after.panels.devices.script
                == ScriptState::Running
            &&& update.script_running == Some(false) ==> after.panels.devices.script
                == ScriptState::Stopped
            &&& plain ==> after.panels.devices == m.panels.devices
            &&& update.sync_plan is Some ==> after.overlay == Some(
                Overlay::<Seq<char>>::SyncPreview {
                    plan: update.sync_plan.unwrap(),
                    confirm: false,
                },
            )
            &&& update.sync_plan is None && update.prompt_micropython_flash ==> after.overlay
                == Some(Overlay::<Seq<char>>::ConfirmEraseForMicroPython { confirm: false })
            &&& update.sync_plan is None && !update.prompt_micropython_flash ==> after.overlay
                is None
            &&& update.listed is Some ==> after.effects.len() > m.effects.len()
                && after.effects.last() == Effect::<Seq<char>, Seq<u8>>::Text(
                TextTask::DeviceListed,
                update.listed.unwrap()@,
            )
            &&& plain && update.listed is None ==> after.effects == m.effects
        }),
{
    reveal(Model::browser_heard);
    reveal(Model::view_heard);
    reveal(Model::erase_asked);
    reveal(Model::script_heard);
    reveal(Model::transfer_heard);
    reveal(Model::plan_heard);
}

/// The notices of a report reach the log, in order, before anything else it
/// leads to.
pub proof fn a_reports_notices_come_first(m: Model, update: FlashUpdate)
    requires
        !update.offer_flash,
        !update.search_online_for_firmware,
        !update.download_finished,
    ensures
        ({
            let after = m.offers_heard(update);
            &&& after.logs.lines == m.logs.lines + logs::lines_view(update.notices@)
                + logs::lines_view(update.fetch_notices@)
            &&& after.effects == m.effects
            &&& after.overlay == m.overlay
            &&& after.screen == m.screen
        }),
{
    reveal(Model::offers_heard);
    logs::pushed_lines_keep_their_order(m.logs, logs::lines_view(update.notices@));
    let told = m.told(logs::lines_view(update.notices@));
    logs::pushed_lines_keep_their_order(told.logs, logs::lines_view(update.fetch_notices@));
}

/// What the flash panel reports is followed up: a finished erase offers the
/// write, a wanted search goes out for the known chip and shows, a finished
/// download looks for the file and asks about the erase.
pub proof fn the_flash_panels_report_is_followed_up(m: Model, update: FlashUpdate)
    requires
        m.flash is Some,
        m.flash.unwrap().mcu is Some,
        update.notices@.len() == 0,
        update.fetch_notices@.len() == 0,
    ensures
        ({
            let after = m.offers_heard(update);
            let only_offer = update.offer_flash && !update.search_online_for_firmware
                && !update.download_finished;
            let only_search = !update.offer_flash && update.search_online_for_firmware
                && !update.download_finished;
            let only_download = !update.offer_flash && !update.search_online_for_firmware
                && update.download_finished;
            &&& only_offer ==> after.flash.unwrap().cursor == 3 && after.effects == m.effects
            &&& only_search ==> after.screen.view is Flash && after.effects == m.effects.push(
                Effect::Task(
                    Task::SearchOnline { mcu: m.flash.unwrap().mcu.unwrap(), dialog: false },
                ),
            )
            &&& only_download ==> after.effects.len() == m.effects.len() + 2
                && after.effects[m.effects.len() as int] == Effect::<Seq<char>, Seq<u8>>::Task(
                Task::DiscoverFirmware { wanted: None },
            )
        }),
{
    reveal(Model::offers_heard);
}

/// `Tab` tours forward and its shifted twin back; the control arrows walk to
/// the side they point at. Over a full-screen row 3 the tour and the
/// vertical walk rest.
pub proof fn the_walking_keys_walk_their_way(m: Model, modifiers: KeyModifiers)
    ensures
        ({
            let pressed = |code: KeyCode| m.walking_key(KeyEvent { code, modifiers });
            let whole = !m.screen.row3_fullscreen;
            &&& whole ==> pressed(KeyCode::Tab) == Some(m.focus_stepped(true))
            &&& whole ==> pressed(KeyCode::BackTab) == Some(m.focus_stepped(false))
            &&& !whole ==> pressed(KeyCode::Tab) is None && pressed(KeyCode::BackTab) is None
            &&& modifiers.control ==> pressed(KeyCode::Right) == Some(m.strip_switched(true))
            &&& modifiers.control ==> pressed(KeyCode::Left) == Some(m.strip_switched(false))
            &&& modifiers.control && whole ==> pressed(KeyCode::Down) == Some(
                m.focus_vertical(true),
            )
            &&& modifiers.control && whole ==> pressed(KeyCode::Up) == Some(
                m.focus_vertical(false),
            )
            &&& !modifiers.control ==> pressed(KeyCode::Right) is None && pressed(KeyCode::Up)
                is None
        }),
{
    reveal(Model::walking_key);
}

/// A sideways chord moves the strip of row 3 where row 3 has the keys, and
/// the focus everywhere else.
pub proof fn the_chord_moves_the_strip_it_is_on(m: Model, forward: bool)
    ensures
        m.screen.focus is Logs ==> m.strip_switched(forward) == m.log_tab_switched(forward),
        !(m.screen.focus is Logs) ==> m.strip_switched(forward) == m.focus_horizontal(forward),
{
}

/// The package manager is opened from the device's column alone, and where
/// the backend installs packages.
pub proof fn packages_open_from_the_device_column(m: Model)
    requires
        m.panels.browser is Some,
    ensures
        ({
            let after = m.files_key(KeyEvent::spec_plain(KeyCode::Char('i')));
            &&& m.screen.focus is FilesDevice && m.caps().package_install ==> after.effects
                == m.effects.push(Effect::Task(Task::OpenPackageManager))
            &&& m.screen.focus is FilesLocal || !m.caps().package_install ==> after.effects
                == m.effects
        }),
{
    reveal(Model::files_key);
}

/// A key in a file column makes that column the browser's own.
pub proof fn a_key_makes_its_column_the_browsers(m: Model, code: KeyCode)
    requires
        m.panels.browser is Some,
        code == KeyCode::Up || code == KeyCode::Down || code == KeyCode::Home || code
            == KeyCode::End,
    ensures
        ({
            let after = m.files_key(KeyEvent::spec_plain(code));
            &&& m.screen.focus is FilesDevice ==> after.panels.browser.unwrap().focus is Device
            &&& m.screen.focus is FilesLocal ==> after.panels.browser.unwrap().focus is Local
        }),
{
    reveal(Model::files_key);
}

impl PanelUpdates {
    /// The panels had nothing to say.
    pub open spec fn silent(self) -> bool {
        &&& self.browser.quiet()
        &&& !self.browser.prompt_micropython_flash
        &&& self.browser.script_running is None
        &&& self.browser.sync_plan is None
        &&& self.browser.listed is None
        &&& self.install.notice is None
        &&& !self.install.stopped
        &&& !self.install.finished
        &&& self.ota.notice is None
        &&& self.build.notices@.len() == 0
        &&& !self.build.flashed
        &&& !self.build.reported
        &&& self.flash.notices@.len() == 0
        &&& self.flash.fetch_notices@.len() == 0
        &&& !self.flash.offer_flash
        &&& !self.flash.search_online_for_firmware
        &&& !self.flash.download_finished
        &&& !self.flash.firmware_invalidated
        &&& !self.flash.firmware_read_finished
        &&& !self.flash.chip_query_finished
    }
}

/// While the identification question waits, no link of the chain moves.
proof fn the_chain_rests_on_a_due_question(m: Model)
    requires
        m.chain.identify == IdentifyAuth::Pending,
        !m.chain.held_root_listing,
    ensures
        m.query_driven() == m,
        m.check_driven() == m,
        m.hunt_driven() == m,
        m.listing_driven() == m,
{
    assert(m.query_driven() == m) by {
        reveal(Model::query_driven);
    }
    assert(m.check_driven() == m) by {
        reveal(Model::check_driven);
    }
    assert(m.hunt_driven() == m) by {
        reveal(Model::hunt_driven);
    }
    assert(m.listing_driven() == m) by {
        reveal(Model::listing_driven);
    }
}

proof fn a_due_question_is_asked(m: Model)
    requires
        m.chain.identify == IdentifyAuth::Pending,
        m.overlay is None,
    ensures
        m.questions_asked().overlay == Some(
            Overlay::<Seq<char>>::ConfirmIdentifyDevice { confirm: false },
        ),
        m.questions_asked().effects == m.effects,
        m.questions_asked().chain == m.chain,
        m.questions_asked().panels == m.panels,
{
    reveal(Model::questions_asked);
}

proof fn silent_panels_change_nothing(m: Model, updates: PanelUpdates)
    requires
        updates.silent(),
    ensures
        m.browser_heard(updates.browser).install_updated(updates.install).ota_updated(
            updates.ota,
        ).build_heard(updates.build).flash_heard(updates.flash) == m,
{
    reveal(Model::browser_heard);
    reveal(Model::view_heard);
    reveal(Model::erase_asked);
    reveal(Model::script_heard);
    reveal(Model::transfer_heard);
    reveal(Model::plan_heard);
    reveal(Model::build_heard);
    reveal(Model::offers_heard);
    reveal(Model::chain_heard);
    assert(logs::lines_view(updates.browser.notices@) =~= Seq::empty());
    assert(logs::lines_view(updates.build.notices@) =~= Seq::empty());
    assert(logs::lines_view(updates.flash.notices@) =~= Seq::empty());
    assert(logs::lines_view(updates.flash.fetch_notices@) =~= Seq::empty());
}

/// A question that is due opens with the next event over a free screen.
pub proof fn a_due_question_opens_with_any_event(m: Model, updates: PanelUpdates)
    requires
        m.chain.identify == IdentifyAuth::Pending,
        m.overlay is None,
        !m.chain.held_root_listing,
        updates.silent(),
    ensures
        m.panels_heard(updates).overlay == Some(
            Overlay::<Seq<char>>::ConfirmIdentifyDevice { confirm: false },
        ),
        m.panels_heard(updates).effects == m.effects,
{
    reveal(Model::panels_heard);
    silent_panels_change_nothing(m, updates);
    the_chain_rests_on_a_due_question(m);
    a_due_question_is_asked(m);
}

/// So does a tick ask it, and drives the documentation and an open update on
/// last.
pub proof fn a_tick_asks_and_drives_on(m: Model)
    requires
        m.chain.identify == IdentifyAuth::Pending,
        m.overlay is None,
        !m.chain.held_root_listing,
        m.panels.ota is Some,
    ensures
        m.tick_continued().overlay == Some(
            Overlay::<Seq<char>>::ConfirmIdentifyDevice { confirm: false },
        ),
        m.tick_continued().effects == m.effects.push(Effect::Task(Task::DriveDocs)).push(
            Effect::Task(Task::DriveOta),
        ),
{
    reveal(Model::tick_continued);
    a_due_question_is_asked(m);
    the_chain_rests_on_a_due_question(m.questions_asked());
}

} // verus!
