//! What flashing a board promises, from the row under the cursor to the
//! command that runs.

use vstd::prelude::*;
use vstd::string::*;

use crate::app::Model;
use crate::effect::{Effect, PairTask, Task, TextTask};
use crate::input::{KeyCode, KeyEvent};
use crate::logs::LineModel;
use crate::overlay::Overlay;
use crate::panels::{FlashAction, FlashPaneAction, FlashScreen};
use crate::text;

verus! {

/// The menu lists the five actions in a fixed order, each in one row.
pub proof fn the_menu_lists_every_action_once(action: FlashAction, row: int)
    requires
        0 <= row < 5,
    ensures
        FlashAction::spec_at(row) == action <==> row == match action {
            FlashAction::ChipInfo => 0int,
            FlashAction::FlashInfo => 1,
            FlashAction::EraseFlash => 2,
            FlashAction::WriteFlash => 3,
            FlashAction::VerifyFlash => 4,
        },
{
}

/// Erasing and writing change the flash and ask first; reading and verifying
/// do not. Writing and verifying need a file.
pub proof fn only_erasing_and_writing_change_the_flash(action: FlashAction)
    ensures
        action.destructive() == (action is EraseFlash || action is WriteFlash),
        action.wants_firmware() == (action is WriteFlash || action is VerifyFlash),
{
}

/// An action wanted leads to one request: for its firmware file where it
/// needs one and none is chosen, otherwise for what the panel says of that
/// very action on the selected port.
pub proof fn a_wanted_action_is_the_one_asked_about(m: Model, action: FlashAction)
    requires
        m.flash is Some,
    ensures
        ({
            let chosen = m.flash.unwrap().firmware_selected;
            let filed = action is WriteFlash || action is VerifyFlash;
            m.flash_triggered(action).effects == m.effects.push(
                if filed && !chosen {
                    Effect::Task(Task::DiscoverFirmware { wanted: Some(action) })
                } else {
                    Effect::Task(Task::PreviewFlash { action, port: m.port() })
                },
            )
        }),
        m.flash_triggered(action).overlay == m.overlay,
        m.flash_triggered(action).screen == m.screen,
{
}

/// `Enter` on the menu and on the options screen wants the action of the row
/// the menu's cursor stands on: a chip read, a flash read, the erase, the
/// write, the verification.
pub proof fn enter_wants_the_row_under_the_cursor(m: Model, action: FlashAction)
    requires
        m.flash is Some,
        m.flash.unwrap().cursor == match action {
            FlashAction::ChipInfo => 0usize,
            FlashAction::FlashInfo => 1,
            FlashAction::EraseFlash => 2,
            FlashAction::WriteFlash => 3,
            FlashAction::VerifyFlash => 4,
        },
        m.flash.unwrap().firmware_selected,
    ensures
        m.flash_menu_key(KeyEvent::spec_plain(KeyCode::Enter)).effects == m.effects.push(
            Effect::Task(Task::PreviewFlash { action, port: m.port() }),
        ),
        m.flash_options_key(KeyEvent::spec_plain(KeyCode::Enter)).effects == m.effects.push(
            Effect::Task(Task::PreviewFlash { action, port: m.port() }),
        ),
{
}

/// Without a file the write and the verification look for one first, and
/// every other action goes straight on, from either screen.
pub proof fn enter_looks_for_a_file_first(m: Model)
    requires
        m.flash is Some,
        !m.flash.unwrap().firmware_selected,
        m.flash.unwrap().cursor < 5,
    ensures
        ({
            let enter = KeyEvent::spec_plain(KeyCode::Enter);
            let row = m.flash.unwrap().cursor;
            &&& m.flash_menu_key(enter) == m.flash_options_key(enter)
            &&& row == 3 ==> m.flash_menu_key(enter).effects.last() == Effect::<
                Seq<char>,
                Seq<u8>,
            >::Task(Task::DiscoverFirmware { wanted: Some(FlashAction::WriteFlash) })
            &&& row == 4 ==> m.flash_menu_key(enter).effects.last() == Effect::<
                Seq<char>,
                Seq<u8>,
            >::Task(Task::DiscoverFirmware { wanted: Some(FlashAction::VerifyFlash) })
            &&& row < 3 ==> m.flash_menu_key(enter).effects.last() matches Effect::Task(
                Task::PreviewFlash { .. },
            )
        }),
{
}

/// The dialog hands `Enter` to whichever of its two lists is on screen.
pub proof fn the_dialog_reads_the_screen_it_shows(m: Model, key: KeyEvent)
    requires
        m.flash is Some,
        key.code != KeyCode::Esc,
        key.code != KeyCode::Char('q'),
        key.code != KeyCode::Char('?'),
        key.code != KeyCode::F(1),
    ensures
        m.flash.unwrap().screen is Menu ==> m.flash_key(key) == m.flash_menu_key(key),
        m.flash.unwrap().screen is Options ==> m.flash_key(key) == m.flash_options_key(key),
        m.flash.unwrap().screen is OnlineBoards ==> m.flash_key(key) == m.online_boards_key(key),
        m.flash.unwrap().screen is OnlineFirmware ==> m.flash_key(key) == m.online_firmware_key(
            key,
        ),
        m.flash.unwrap().screen is CustomUrl ==> m.flash_key(key) == m.custom_url_key(key),
{
    reveal(Model::flash_key);
}

/// Leaving steps back without asking anything of the board: from the menu to
/// the dashboard, from any other screen to the menu, which the dashboard
/// shows where its pane hosts it.
pub proof fn leaving_the_dialog_asks_nothing(m: Model, code: KeyCode)
    requires
        m.flash is Some,
        code == KeyCode::Esc || code == KeyCode::Char('q'),
    ensures
        ({
            let after = m.flash_key(KeyEvent::spec_plain(code));
            let flash = m.flash.unwrap();
            &&& after.effects == m.effects
            &&& after.overlay == m.overlay
            &&& after.logs == m.logs
            &&& after.flash is Some
            &&& after.flash.unwrap().screen is Menu
            &&& after.flash.unwrap().pending == flash.pending
            &&& flash.screen is Menu ==> after.screen.view is Dashboard
            &&& !(flash.screen is Menu) ==> (after.screen.view is Dashboard
                <==> m.actions_available() || m.screen.view is Dashboard)
        }),
{
    reveal(Model::flash_key);
}

/// On the options screen the four lists turn with the arrows and take no
/// letters; the two texts take letters and `Backspace` and leave the arrows
/// alone. `Tab` walks the fields forward, `Shift+Tab` back.
pub proof fn option_fields_take_their_own_keys(m: Model, c: char)
    requires
        m.flash is Some,
    ensures
        ({
            let field = m.flash.unwrap().options_focus;
            let text = field is Offset || field is ExtraArgs;
            let left = m.flash_options_key(KeyEvent::spec_plain(KeyCode::Left));
            let right = m.flash_options_key(KeyEvent::spec_plain(KeyCode::Right));
            let letter = m.flash_options_key(KeyEvent::spec_plain(KeyCode::Char(c)));
            let erase = m.flash_options_key(KeyEvent::spec_plain(KeyCode::Backspace));
            let on = m.flash_options_key(KeyEvent::spec_plain(KeyCode::Tab));
            let back = m.flash_options_key(KeyEvent::spec_plain(KeyCode::BackTab));
            &&& text ==> left == m && right == m
            &&& text ==> letter.effects == m.effects.push(
                Effect::Task(Task::OptionChar(field, c)),
            )
            &&& text ==> erase.effects == m.effects.push(
                Effect::Task(Task::OptionBackspace(field)),
            )
            &&& !text ==> letter == m && erase == m
            &&& !text ==> left.effects == m.effects.push(
                Effect::Task(Task::CycleOption { field, forward: false }),
            )
            &&& !text ==> right.effects == m.effects.push(
                Effect::Task(Task::CycleOption { field, forward: true }),
            )
            &&& on.effects == m.effects.push(Effect::Task(Task::StepOptionsFocus { forward: true }))
            &&& back.effects == m.effects.push(
                Effect::Task(Task::StepOptionsFocus { forward: false }),
            )
        }),
{
}

/// In the menu and in the online lists up moves up and down moves down, the
/// letters with the arrows.
pub proof fn list_cursors_follow_the_arrows(m: Model, code: KeyCode, down: bool)
    requires
        m.flash is Some,
        if down {
            code == KeyCode::Down || code == KeyCode::Char('j')
        } else {
            code == KeyCode::Up || code == KeyCode::Char('k')
        },
    ensures
        ({
            let key = KeyEvent::spec_plain(code);
            &&& m.flash_menu_key(key).effects == m.effects.push(
                Effect::Task(Task::MoveFlashCursor { down }),
            )
            &&& m.online_boards_key(key).effects == m.effects.push(
                Effect::Task(Task::MoveOnlineCursor { down }),
            )
            &&& m.online_firmware_key(key).effects == m.effects.push(
                Effect::Task(Task::MoveOnlineCursor { down }),
            )
        }),
{
}

/// The actions tab's cursor moves one row with the arrows and five with the
/// page keys, stops at the ends, and `Home` and `End` reach them.
pub proof fn the_actions_cursor_follows_the_arrows(m: Model, code: KeyCode)
    requires
        m.flash is Some,
        m.flash.unwrap().pane_cursor < m.panels.lists.pane_actions@.len() <= usize::MAX,
    ensures
        ({
            let at = m.flash.unwrap().pane_cursor as int;
            let last = m.panels.lists.pane_actions@.len() - 1;
            let after = m.flash_pane_key(KeyEvent::spec_plain(code));
            let now = after.flash.unwrap().pane_cursor as int;
            &&& code == KeyCode::Up || code == KeyCode::Char('k') ==> now == (if at >= 1 {
                at - 1
            } else {
                0
            }) && after.effects == m.effects
            &&& code == KeyCode::Down || code == KeyCode::Char('j') ==> now == (if at + 1 <= last {
                at + 1
            } else {
                last
            }) && after.effects == m.effects
            &&& code == KeyCode::PageUp ==> now == (if at >= 5 {
                at - 5
            } else {
                0
            })
            &&& code == KeyCode::PageDown ==> now == (if at + 5 <= last {
                at + 5
            } else {
                last
            })
            &&& code == KeyCode::Home ==> now == 0
            &&& code == KeyCode::End ==> now == last
        }),
{
    reveal(Model::flash_pane_key);
}

/// `Enter` on a row of the actions tab does that row: it wants the action
/// named there, searches online, or stops the running command.
pub proof fn the_actions_tab_runs_the_row_under_the_cursor(m: Model, action: FlashAction)
    requires
        m.flash is Some,
        m.flash.unwrap().pane_cursor < m.panels.lists.pane_actions@.len(),
    ensures
        ({
            let flash = m.flash.unwrap();
            let row = m.panels.lists.pane_actions@[flash.pane_cursor as int];
            let after = m.flash_pane_key(KeyEvent::spec_plain(KeyCode::Enter));
            &&& row == FlashPaneAction::Run(action) && flash.firmware_selected ==> after.effects
                == m.effects.push(Effect::Task(Task::PreviewFlash { action, port: m.port() }))
            &&& row is Stop && flash.busy ==> after.effects == m.effects.push(
                Effect::Task(Task::StopFlash),
            )
            &&& row is Stop && !flash.busy ==> after == m
            &&& row is SearchOnline && flash.mcu is Some ==> after.effects == m.effects.push(
                Effect::Task(Task::SearchOnline { mcu: flash.mcu.unwrap(), dialog: true }),
            )
            &&& row is SearchOnline && flash.mcu is None ==> after.effects == m.effects
        }),
{
    reveal(Model::flash_pane_key);
}

/// A search needs a known chip: it goes out for that chip, or says that none
/// is known and asks nothing.
pub proof fn a_search_names_the_known_chip(m: Model, dialog: bool)
    requires
        m.flash is Some,
    ensures
        match m.flash.unwrap().mcu {
            Some(mcu) => m.search_asked(dialog).effects == m.effects.push(
                Effect::Task(Task::SearchOnline { mcu, dialog }),
            ) && m.search_asked(dialog).logs == m.logs,
            None => m.search_asked(dialog).effects == m.effects && m.search_asked(
                dialog,
            ).logs.lines.len() == m.logs.lines.len() + 1,
        },
        m.flash_menu_key(KeyEvent::spec_plain(KeyCode::Char('s'))) == m.search_asked(false),
{
}

/// `Enter` in an online list takes the row under its cursor: a board's page,
/// a build's address. Past the end it does nothing.
pub proof fn online_rows_are_the_ones_fetched(m: Model)
    requires
        m.flash is Some,
    ensures
        ({
            let enter = KeyEvent::spec_plain(KeyCode::Enter);
            let at = m.flash.unwrap().online_cursor;
            let boards = m.panels.lists.online_boards@;
            let builds = m.panels.lists.online_firmware@;
            &&& at < boards.len() ==> m.online_boards_key(enter).effects == m.effects.push(
                Effect::Task(Task::FetchBoard { id: boards[at as int] }),
            )
            &&& at >= boards.len() ==> m.online_boards_key(enter) == m
            &&& at < builds.len() ==> m.online_firmware_key(enter).effects == m.effects.push(
                Effect::Text(TextTask::RequestDownload, builds[at as int]@),
            )
            &&& at >= builds.len() ==> m.online_firmware_key(enter) == m
        }),
{
}

/// The URL entry opens empty, on the menu and on the online lists; it takes
/// every character, gives back the last, and asks for the address typed
/// without the blanks around it. A blank entry asks for nothing.
pub proof fn the_url_entry_asks_for_what_was_typed(m: Model, c: char)
    requires
        m.flash is Some,
    ensures
        ({
            let flash = m.flash.unwrap();
            let u = KeyEvent::spec_plain(KeyCode::Char('u'));
            let typed = m.custom_url_key(KeyEvent::spec_plain(KeyCode::Char(c)));
            let entered = m.custom_url_key(KeyEvent::spec_plain(KeyCode::Enter));
            &&& m.flash_menu_key(u).flash.unwrap().screen is CustomUrl
            &&& m.flash_menu_key(u).flash.unwrap().custom_url.len() == 0
            &&& m.online_boards_key(u) == m.flash_menu_key(u)
            &&& m.online_firmware_key(u) == m.flash_menu_key(u)
            &&& typed.flash.unwrap().custom_url == flash.custom_url.push(c)
            &&& typed.effects == m.effects
            &&& typed.custom_url_key(KeyEvent::spec_plain(KeyCode::Backspace)) == m
            &&& text::trimmed(flash.custom_url).len() > 0 ==> entered.effects == m.effects.push(
                Effect::Text(TextTask::RequestDownload, text::trimmed(flash.custom_url)),
            )
            &&& text::trimmed(flash.custom_url).len() == 0 ==> entered.effects == m.effects
                && entered.logs.lines.len() == m.logs.lines.len() + 1
        }),
{
    let flash = m.flash.unwrap();
    let typed = m.custom_url_key(KeyEvent::spec_plain(KeyCode::Char(c)));
    assert(flash.custom_url.push(c).drop_last() =~= flash.custom_url);
    let back = typed.custom_url_key(KeyEvent::spec_plain(KeyCode::Backspace));
    assert(back.flash == m.flash);
}

/// A download never lands over a file unasked: where one is there the
/// question opens on No, otherwise it starts, from that address to that
/// place. Agreeing starts the very same download.
pub proof fn a_download_overwrites_nothing_unasked(m: Model, url: Seq<char>, dest: Seq<char>)
    requires
        m.flash is Some,
    ensures
        ({
            let asked = m.download_answered(url, Some(dest), true);
            let question = Overlay::ConfirmDownloadOverwrite { url, dest, confirm: false };
            let begun = Effect::<Seq<char>, Seq<u8>>::Pair(PairTask::StartDownload, url, dest);
            &&& asked.effects == m.effects
            &&& asked.overlay == Some(question)
            &&& m.download_answered(url, Some(dest), false).effects == m.effects.push(begun)
            &&& m.download_answered(url, Some(dest), false).overlay == m.overlay
            &&& asked.agreed(question).effects == m.effects.push(begun)
            &&& asked.declined(question).effects == m.effects
            &&& m.download_answered(url, None, true).effects == m.effects
            &&& m.download_answered(url, None, true).overlay == m.overlay
        }),
{
    reveal(Model::agreed);
    reveal(Model::agreed_on_host);
    reveal(Model::declined);
}

/// What a confirmation guards is what agreeing runs: the action asked about,
/// on the selected port, once. Refusing runs nothing and forgets it.
pub proof fn the_action_confirmed_is_the_one_that_runs(
    m: Model,
    action: FlashAction,
    command: Seq<char>,
)
    requires
        m.flash is Some,
        action is EraseFlash || action is WriteFlash,
        !m.pending.install_confirm,
    ensures
        ({
            let asked = m.flash_previewed(action, None, Some(command));
            let question = Overlay::<Seq<char>>::Confirm { message: command, confirm: false };
            let agreed = asked.closed().agreed(question);
            let refused = asked.closed().declined(question);
            &&& asked.overlay == Some(question)
            &&& asked.effects == m.effects
            &&& agreed.effects == m.effects.push(
                Effect::Task(Task::RunFlash { action, port: m.port() }),
            )
            &&& agreed.flash.unwrap().pending is None
            &&& refused.effects == m.effects
            &&& refused.flash.unwrap().pending is None
            &&& agreed.closed().agreed(question).effects == agreed.effects
        }),
{
    reveal(Model::agreed);
    reveal(Model::agreed_on_host);
    reveal(Model::declined);
}

/// Reading and verifying run at once, on the selected port; a blocked action
/// runs nothing and says why, whatever it is.
pub proof fn harmless_actions_run_at_once(m: Model, action: FlashAction, reason: Seq<char>)
    requires
        m.flash is Some,
    ensures
        action is ChipInfo || action is FlashInfo || action is VerifyFlash ==> {
            let after = m.flash_previewed(action, None, None);
            &&& after.effects == m.effects.push(
                Effect::Task(Task::RunFlash { action, port: m.port() }),
            )
            &&& after.overlay == m.overlay
        },
        m.flash_previewed(action, Some(reason), None).effects == m.effects,
        m.flash_previewed(action, Some(reason), None).overlay == m.overlay,
        m.flash_previewed(action, Some(reason), None).flash == m.flash,
        m.flash_previewed(action, Some(reason), None).logs == m.warn(reason).logs,
{
}

/// The firmware files found decide the next screen: none for a write opens
/// the search, one its options, several the picker.
pub proof fn the_files_found_decide_the_screen(m: Model, action: FlashAction, count: usize)
    requires
        m.flash is Some,
    ensures
        ({
            let after = m.firmware_found(Some(action), Seq::empty(), count);
            &&& after.flash.unwrap().firmware_count == count
            &&& count == 1 ==> after.flash.unwrap().screen is Options
                && after.flash.unwrap().options_focus is Chip && after.overlay == m.overlay
            &&& count > 1 ==> after.overlay == Some(
                Overlay::<Seq<char>>::FirmwarePicker { selected: 0 },
            )
            &&& count == 0 && action is WriteFlash && m.flash.unwrap().mcu is Some ==> after.effects
                == m.effects.push(
                Effect::Task(
                    Task::SearchOnline { mcu: m.flash.unwrap().mcu.unwrap(), dialog: true },
                ),
            )
            &&& count == 0 && !(action is WriteFlash) ==> after.effects == m.effects
                && after.overlay == m.overlay
        }),
{
}

/// Picking a firmware file chooses that row's and opens its options; a row
/// past the list chooses nothing.
pub proof fn the_picked_file_is_the_one_chosen(m: Model, selected: usize)
    requires
        m.flash is Some,
    ensures
        ({
            let after = m.firmware_picker_key(KeyEvent::spec_plain(KeyCode::Enter), selected);
            &&& selected < m.flash.unwrap().firmware_count ==> {
                &&& after.effects.len() > m.effects.len()
                &&& after.effects[m.effects.len() as int] == Effect::<Seq<char>, Seq<u8>>::Task(
                    Task::SelectFirmware(selected),
                )
                &&& after.flash is Some
                &&& after.flash.unwrap().firmware_selected
                &&& after.flash.unwrap().screen is Options
                &&& after.flash.unwrap().cursor == m.flash.unwrap().cursor
            }
            &&& selected >= m.flash.unwrap().firmware_count ==> after.effects == m.effects
        }),
{
    reveal(Model::firmware_picker_key);
}

/// After an erase the write is offered and never started: both cursors stand
/// on it, and nothing runs.
pub proof fn an_erase_offers_the_write(m: Model)
    requires
        m.flash is Some,
    ensures
        ({
            let after = m.write_offered();
            &&& after.effects == m.effects
            &&& FlashAction::spec_at(after.flash.unwrap().cursor as int) is WriteFlash
            &&& m.flash.unwrap().firmware_count == 0 ==> after.screen == m.screen && after.overlay
                == m.overlay
            &&& m.flash.unwrap().firmware_count == 1 ==> after.flash.unwrap().screen is Options
                && after.screen.view is Flash
            &&& m.flash.unwrap().firmware_count > 1 ==> after.overlay == Some(
                Overlay::<Seq<char>>::FirmwarePicker { selected: 0 },
            )
        }),
{
}

/// After a download the files are looked for again and the erase is asked
/// about, in that order.
pub proof fn a_download_offers_the_erase(m: Model)
    requires
        m.flash is Some,
    ensures
        m.erase_offered().effects == m.effects.push(
            Effect::Task(Task::DiscoverFirmware { wanted: None }),
        ).push(
            Effect::Task(
                Task::PreviewFlash { action: FlashAction::EraseFlash, port: m.port() },
            ),
        ),
{
}

/// A command that started shows its output: the Monitor tab, on the flash
/// feed, at its tail. One that did not says why and moves nothing.
pub proof fn a_started_command_shows_its_output(m: Model)
    ensures
        ({
            let after = m.flash_answered(Seq::empty());
            &&& after.screen.view is Dashboard
            &&& after.screen.log_tab is Monitor
            &&& after.monitor.source is Flash
            &&& after.monitor.scroll.following
            &&& after.screen.focus is Logs || after.screen.focus is FilesDevice
            &&& after.effects == m.effects
        }),
        forall|notices: Seq<LineModel>|
            notices.len() > 0 ==> (#[trigger] m.flash_answered(notices)).screen == m.screen
                && m.flash_answered(notices).monitor == m.monitor,
{
}

/// Only a running command is stopped.
pub proof fn only_a_running_command_is_stopped(m: Model)
    ensures
        m.flash_busy() ==> m.flash_stopped().effects == m.effects.push(
            Effect::Task(Task::StopFlash),
        ),
        !m.flash_busy() ==> m.flash_stopped() == m,
{
}

/// A search's answer moves the panel to the screen that came of it; the
/// dialog opens for it where the pane does not show it already.
pub proof fn a_searchs_answer_moves_the_panel(
    m: Model,
    screen: FlashScreen,
    url: Seq<char>,
    mcu: Seq<char>,
    dialog: bool,
)
    requires
        m.flash is Some,
    ensures
        ({
            let after = m.search_answered(
                Seq::empty(),
                Seq::empty(),
                screen,
                Some(url),
                mcu,
                dialog,
            );
            let hosted = m.actions_available() && screen is Menu;
            &&& after.flash.unwrap().screen == screen
            &&& dialog && !hosted ==> after.screen.view is Flash
            &&& !dialog || hosted ==> after.screen == m.screen
            &&& after.effects == m.effects
            &&& m.board_page_answered(Seq::empty(), screen).flash.unwrap().screen == screen
            &&& m.board_page_answered(Seq::empty(), screen).screen == m.screen
        }),
{
}

/// Agreeing to erase for MicroPython shows the online boards and asks the
/// chip, at once or once the browser is off the port; it erases nothing.
pub proof fn erasing_for_micropython_starts_with_the_boards(m: Model, port: String, yes: bool)
    requires
        m.flash is Some,
        m.flashes(),
        m.port() == Some(port),
        m.flash.unwrap().query_ready,
        !m.flash.unwrap().busy,
    ensures
        ({
            let after = m.agreed(Overlay::<Seq<char>>::ConfirmEraseForMicroPython { confirm: yes });
            let held = m.panels.browser is Some && m.panels.browser.unwrap().busy;
            &&& after.flash.unwrap().screen is OnlineBoards
            &&& after.screen.view is Flash
            &&& held ==> after.chain.flash_query_pending && after.effects == m.effects
            &&& !held ==> after.effects == m.effects.push(
                Effect::Task(Task::QueryDeviceInfo { device: port }),
            )
        }),
{
    reveal(Model::agreed);
}

/// The question whether the board may be read opens once it is due and the
/// screen is free, on No.
pub proof fn a_due_question_waits_for_the_screen(m: Model)
    ensures
        m.chain.identify is Pending && m.overlay is None ==> m.identification_asked().overlay
            == Some(Overlay::<Seq<char>>::ConfirmIdentifyDevice { confirm: false }),
        m.overlay is Some || !(m.chain.identify is Pending) ==> m.identification_asked() == m,
        m.identification_asked().effects == m.effects,
{
}

} // verus!
