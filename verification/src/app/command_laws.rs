//! What the dashboard's own keys and the pickers promise: which command a
//! letter runs, and what a picker's row stands for.

use vstd::prelude::*;
use vstd::string::*;

use crate::app::{DocsFocus, Focus, Model, ProjectRow};
use crate::app::devices::PickerOption;
use crate::app::file_browser::FileAction;
use crate::app::overlay_keys;
use crate::app::overlay_keys::Catalogue;
use crate::backend::BackendKind;
use crate::effect::{Effect, Task, TextTask};
use crate::geometry;
use crate::input::{KeyCode, KeyEvent, KeyModifiers};
use crate::overlay::{ConfirmStep, Overlay, RemoveTarget};
use crate::panels::{Side, SyncStatus};

verus! {

/// A letter pressed with nothing held.
pub open spec fn letter(c: char) -> KeyEvent {
    KeyEvent::spec_plain(KeyCode::Char(c))
}

/// A letter pressed with control held.
pub open spec fn chord(c: char) -> KeyEvent {
    KeyEvent {
        code: KeyCode::Char(c),
        modifiers: KeyModifiers { control: true, ..KeyEvent::spec_plain(KeyCode::Char(c)).modifiers },
    }
}

proof fn letters_walk_nowhere(m: Model, c: char)
    requires
        c != 'q',
        !('1' <= c <= '9'),
    ensures
        m.walking_key(letter(c)) is None,
        m.walking_key(chord(c)) is None,
        m.walking_key(KeyEvent::spec_plain(KeyCode::F(1))) is None,
{
    reveal(Model::walking_key);
}

/// The dashboard's letters: `d` looks for devices, `m` opens the monitor, `R`
/// and `ctrl+r` ask first, `t`, `?` and `F1` open their windows, `x` and `P`
/// leave for the flash actions and the project list.
pub proof fn each_letter_runs_its_command(m: Model)
    ensures
        ({
            let pressed = |key: KeyEvent| m.dashboard_key(key, false);
            let caps = m.caps();
            &&& pressed(letter('t')).overlay is Some
            &&& pressed(letter('t')).overlay.unwrap() is ThemePicker
            &&& pressed(letter('?')).overlay is Some
            &&& pressed(letter('?')).overlay.unwrap() is Help
            &&& pressed(KeyEvent::spec_plain(KeyCode::F(1))).overlay is Some
            &&& pressed(KeyEvent::spec_plain(KeyCode::F(1))).overlay.unwrap() is Help
            &&& caps.filesystem && m.panels.browser is Some ==> pressed(letter('d')).effects
                == m.effects.push(Effect::Task(Task::ScanDevices))
            &&& !caps.filesystem && caps.monitor ==> pressed(letter('d')).effects
                == m.effects.push(
                Effect::Task(Task::ScanSerialPorts { dir: m.project.serial_dir }),
            )
            &&& caps.monitor && m.project.manager.spec_kind() is Some ==> pressed(
                letter('m'),
            ).effects == m.effects.push(Effect::Task(Task::SpawnMonitor { port: m.port() }))
            &&& pressed(chord('r')).overlay == Some(
                Overlay::<Seq<char>>::ConfirmIdentifyDevice { confirm: false },
            )
            &&& pressed(chord('r')).effects == m.effects
            &&& caps.reset ==> pressed(letter('R')).overlay == Some(
                Overlay::<Seq<char>>::ConfirmRestartDevice { confirm: false },
            ) && pressed(letter('R')).effects == m.effects
            &&& pressed(letter('x')) == m.flash_opened()
            &&& pressed(chord('i')) == m.icons_cycled()
            &&& caps.workspace_sync ==> pressed(letter('s')) == m.toolchains_opened()
            &&& m.pending.commands_running == 0 ==> pressed(letter('P')).pending.switch_requested
                && !pressed(letter('P')).pending.should_quit || m.pending.should_quit
            &&& m.pending.commands_running > 0 ==> pressed(letter('P')).overlay == Some(
                Overlay::<Seq<char>>::ConfirmSwitchProject { confirm: false },
            ) && pressed(letter('P')).pending == m.pending
        }),
{
    letters_walk_nowhere(m, 't');
    letters_walk_nowhere(m, '?');
    letters_walk_nowhere(m, 'd');
    letters_walk_nowhere(m, 'm');
    letters_walk_nowhere(m, 'r');
    letters_walk_nowhere(m, 'R');
    letters_walk_nowhere(m, 'x');
    letters_walk_nowhere(m, 'i');
    letters_walk_nowhere(m, 's');
    letters_walk_nowhere(m, 'P');
    reveal(Model::dashboard_key);
    reveal(Model::command_key);
}

/// `q` quits, and changes nothing else.
pub proof fn q_quits(m: Model)
    ensures
        m.dashboard_key(letter('q'), false).pending.should_quit,
        m.dashboard_key(letter('q'), false).effects == m.effects,
        m.dashboard_key(letter('q'), false).overlay == m.overlay,
{
    reveal(Model::dashboard_key);
    reveal(Model::walking_key);
}

/// Cycling the icons keeps the new set; switching the project
/// once agreed to is what is asked of the shell.
pub proof fn switching_and_icons_take_effect(m: Model, yes: bool)
    ensures
        ({
            let question = Overlay::<Seq<char>>::ConfirmSwitchProject { confirm: yes };
            let after = m.icons_cycled();
            &&& after.effects == m.effects.push(
                Effect::Text(TextTask::PersistIcons, after.prefs.icons.spec_slug()),
            )
            &&& after.prefs.icons != m.prefs.icons
            &&& after.prefs.theme == m.prefs.theme
            &&& m.agreed(question).pending.switch_requested
            &&& m.agreed(question).effects == m.effects
            &&& m.declined(question) == m
        }),
{
    reveal(Model::agreed);
    reveal(Model::declined);
}

/// A key the pane letters claimed does nothing more.
pub proof fn a_claimed_key_is_spent(m: Model, key: KeyEvent)
    ensures
        m.dashboard_key(key, true) == m,
{
    reveal(Model::dashboard_key);
}

/// A key that is no command goes to the pane that holds the focus.
pub proof fn other_keys_reach_the_focused_pane(m: Model, code: KeyCode)
    requires
        code == KeyCode::Enter || code == KeyCode::Up || code == KeyCode::Down || code
            == KeyCode::PageUp || code == KeyCode::PageDown || code == KeyCode::Home || code
            == KeyCode::End || code == KeyCode::Char('j') || code == KeyCode::Char('k'),
        !(m.screen.focus is FilesDevice),
    ensures
        ({
            let key = KeyEvent::spec_plain(code);
            let after = m.dashboard_key(key, false);
            &&& m.screen.focus is FilesLocal && !m.builds() ==> after == m.files_key(key)
            &&& m.screen.focus is FilesLocal && m.builds() ==> after == m.log_key(key)
            &&& m.screen.focus is Project ==> after == m.project_key(key)
            &&& m.screen.focus is DeviceInfo ==> after == m.device_info_key(key)
            &&& m.screen.focus is Workspace ==> after.effects == m.effects.push(
                Effect::Task(Task::WorkspaceKey(key)),
            )
            &&& m.screen.focus is Build ==> after == m.build_key(key)
            &&& m.screen.focus is Logs ==> after == m.log_key(key)
        }),
{
    let key = KeyEvent::spec_plain(code);
    assert(m.walking_key(key) is None) by {
        reveal(Model::walking_key);
    }
    assert(m.command_key(key) is None) by {
        reveal(Model::command_key);
    }
    assert(m.dashboard_key(key, false) == m.pane_key(key)) by {
        reveal(Model::dashboard_key);
    }
    reveal(Model::pane_key);
}

/// A digit focuses the pane whose title carries it.
pub proof fn a_digit_focuses_the_pane_it_numbers(m: Model, n: u8, focus: Focus)
    requires
        1 <= n <= 9,
        m.number_of(focus) == Some(n),
        !m.screen.row3_fullscreen,
    ensures
        ({
            let c = (48 + n) as char;
            let after = m.dashboard_key(letter(c), false);
            m.number_of(after.screen.focus) == Some(n)
        }),
{
    reveal(Model::dashboard_key);
    reveal(Model::walking_key);
}

/// `Enter` on the device report copies the MAC that was read, and where
/// nothing was read yet asks to read it; it never reads unasked.
pub proof fn the_device_report_copies_its_mac(m: Model)
    ensures
        ({
            let after = m.device_info_key(KeyEvent::spec_plain(KeyCode::Enter));
            let read = m.flash is Some && m.flash.unwrap().identified;
            &&& read && m.flash.unwrap().mac is Some ==> after.pending.clipboard
                == m.flash.unwrap().mac && after.overlay == m.overlay
            &&& read && m.flash.unwrap().mac is None ==> after == m
            &&& !read ==> after.overlay == Some(
                Overlay::<Seq<char>>::ConfirmIdentifyDevice { confirm: false },
            ) && after.pending == m.pending
            &&& after.effects == m.effects
        }),
{
}

/// `Enter` on the board row opens the picker of the half that is chosen;
/// every other key of the Project pane is read outside.
pub proof fn the_board_row_opens_its_own_picker(m: Model, key: KeyEvent)
    ensures
        ({
            let after = m.project_key(key);
            let row = m.screen.project_cursor as int;
            let here = key.code == KeyCode::Enter && row < m.project.rows@.len()
                && m.project.rows@[row] == ProjectRow::BoardShield;
            &&& here ==> after.overlay is Some
            &&& here && m.screen.board_segment ==> after.overlay.unwrap() is BoardPicker
            &&& here && !m.screen.board_segment ==> after.overlay.unwrap() is ShieldPicker
            &&& !here ==> after.effects == m.effects.push(Effect::Task(Task::ProjectKey(key)))
        }),
{
    reveal(Model::project_key);
}

/// In every question `y` agrees and `n`, `q` and `Esc` refuse; `Enter` takes
/// the highlighted button, and the sideways keys turn it.
pub proof fn questions_read_their_keys(confirm: bool)
    ensures
        ({
            let step = |code: KeyCode| overlay_keys::confirm_step(code, confirm);
            &&& step(KeyCode::Char('y')) == ConfirmStep::Accept
            &&& step(KeyCode::Char('n')) == ConfirmStep::Decline
            &&& step(KeyCode::Char('q')) == ConfirmStep::Decline
            &&& step(KeyCode::Esc) == ConfirmStep::Decline
            &&& step(KeyCode::Enter) == (if confirm {
                ConfirmStep::Accept
            } else {
                ConfirmStep::Decline
            })
            &&& step(KeyCode::Left) == ConfirmStep::Toggle
            &&& step(KeyCode::Right) == ConfirmStep::Toggle
            &&& step(KeyCode::Tab) == ConfirmStep::Toggle
            &&& step(KeyCode::BackTab) == ConfirmStep::Toggle
            &&& step(KeyCode::Char('h')) == ConfirmStep::Toggle
            &&& step(KeyCode::Char('l')) == ConfirmStep::Toggle
            &&& step(KeyCode::Up) == ConfirmStep::Ignore
            &&& step(KeyCode::Char('x')) == ConfirmStep::Ignore
            &&& overlay_keys::highlight(ConfirmStep::Toggle, confirm) == !confirm
            &&& overlay_keys::highlight(ConfirmStep::Ignore, confirm) == confirm
        }),
{
}

/// A list that wraps is walked one row at a time: down from the last row is
/// the first, up from the first is the last.
pub proof fn lists_are_walked_a_row_at_a_time(selected: usize, count: usize)
    requires
        selected < count,
    ensures
        ({
            let next = if selected + 1 < count {
                (selected + 1) as usize
            } else {
                0
            };
            let last = if selected > 0 {
                (selected - 1) as usize
            } else {
                (count - 1) as usize
            };
            &&& overlay_keys::walked(KeyCode::Down, selected, count) == Some(next)
            &&& overlay_keys::walked(KeyCode::Char('j'), selected, count) == Some(next)
            &&& overlay_keys::walked(KeyCode::Up, selected, count) == Some(last)
            &&& overlay_keys::walked(KeyCode::Char('k'), selected, count) == Some(last)
            &&& overlay_keys::walked(KeyCode::Enter, selected, count) is None
        }),
{
    geometry::wrapping_steps_are_single(selected as int, count as int);
}

/// `Enter` in a picker takes the row under its cursor, and closes it.
pub proof fn enter_takes_the_row_under_the_cursor(m: Model, selected: usize)
    ensures
        ({
            let enter = KeyEvent::spec_plain(KeyCode::Enter);
            &&& m.flash is Some && selected < m.flash.unwrap().firmware_count
                ==> m.firmware_picker_key(enter, selected).effects == m.effects.push(
                Effect::Task(Task::SelectFirmware(selected)),
            )
            &&& m.device_picker_key(enter, selected).overlay is None
            &&& m.project_picker_key(enter, true, selected, None).effects == m.effects.push(
                Effect::Task(Task::ApplyMpyProject(selected)),
            )
            &&& m.panels.workspace is Some && m.panels.workspace.unwrap().projects is Some
                ==> m.project_picker_key(enter, false, selected, None).effects == m.effects.push(
                Effect::Text(
                    TextTask::ApplyProject(selected),
                    m.panels.workspace.unwrap().projects.unwrap()@,
                ),
            )
        }),
{
    reveal(Model::firmware_picker_key);
    reveal(Model::device_picker_key);
    reveal(Model::project_picker_key);
}

/// The board picker picks boards and the shield picker shields, by the row
/// and filter on screen; the build directory goes out with both.
pub proof fn catalogues_pick_their_own_kind(
    m: Model,
    filter: Seq<char>,
    selected: usize,
    scroll: u16,
    focus: DocsFocus,
)
    ensures
        ({
            let enter = KeyEvent::spec_plain(KeyCode::Enter);
            &&& m.catalogue_key(enter, Catalogue::Boards, filter, selected, scroll, focus)
                == m.board_picked(filter, selected)
            &&& m.catalogue_key(enter, Catalogue::Shields, filter, selected, scroll, focus)
                == m.shield_picked(filter, selected)
            &&& m.build_dir_key(enter, filter, selected).effects == m.effects.push(
                Effect::Text(TextTask::SetBuildDir(selected), filter),
            )
            &&& m.build_dir_key(KeyEvent::spec_plain(KeyCode::Esc), filter, selected) == m
        }),
{
    reveal(Model::catalogue_key);
    reveal(Model::build_dir_key);
}

/// A file menu runs the action in the row under the cursor, on the entry it
/// was opened for.
pub proof fn a_file_menu_runs_the_row_under_the_cursor(
    m: Model,
    side: Side,
    name: Seq<char>,
    is_dir: bool,
    is_text: bool,
    status: Option<SyncStatus>,
    selected: usize,
)
    ensures
        ({
            let rows = FileAction::offered(side, is_dir, is_text, status, m.caps());
            let pressed = |code: KeyCode|
                m.file_menu_key(
                    KeyEvent::spec_plain(code),
                    side,
                    name,
                    is_dir,
                    is_text,
                    status,
                    selected,
                );
            &&& selected < rows.len() ==> pressed(KeyCode::Enter) == m.file_action(
                side,
                name,
                is_dir,
                rows[selected as int],
            )
            &&& selected < rows.len() ==> pressed(KeyCode::Right) == pressed(KeyCode::Enter)
            &&& pressed(KeyCode::Left) == m
            &&& pressed(KeyCode::Esc) == m
            &&& pressed(KeyCode::Down).effects == m.effects
        }),
{
    reveal(Model::file_menu_key);
}

/// The entry boxes take what is typed, ask for it on `Enter`, and ask for
/// nothing on `Esc`.
pub proof fn entry_boxes_take_what_is_typed(
    m: Model,
    side: Side,
    name: Seq<char>,
    input: Seq<char>,
    c: char,
)
    ensures
        ({
            let create = |code: KeyCode| m.create_entry_key(KeyEvent::spec_plain(code), side, input);
            let rename = |code: KeyCode| m.rename_entry_key(KeyEvent::spec_plain(code), name, input);
            &&& create(KeyCode::Char(c)).overlay == Some(
                Overlay::CreateEntry { side, input: input.push(c) },
            )
            &&& rename(KeyCode::Char(c)).overlay == Some(
                Overlay::RenameEntry { name, input: input.push(c) },
            )
            &&& input.len() > 0 ==> create(KeyCode::Backspace).overlay == Some(
                Overlay::CreateEntry { side, input: input.drop_last() },
            )
            &&& input.len() > 0 ==> rename(KeyCode::Backspace).overlay == Some(
                Overlay::RenameEntry { name, input: input.drop_last() },
            )
            &&& create(KeyCode::Enter) == m.entry_asked(side, input)
            &&& rename(KeyCode::Enter) == m.rename_asked(name, input)
            &&& create(KeyCode::Esc) == m
            &&& rename(KeyCode::Esc) == m
        }),
{
    reveal(Model::create_entry_key);
    reveal(Model::rename_entry_key);
}

/// Agreeing to a removal removes the package asked about, from where it was
/// said to be; refusing comes back to the manager.
pub proof fn the_package_asked_about_is_the_one_removed(
    m: Model,
    name: Seq<char>,
    targets: Vec<RemoveTarget>,
    declared: bool,
    yes: bool,
)
    ensures
        ({
            let question = Overlay::ConfirmRemovePackage { name, targets, declared, confirm: yes };
            &&& m.agreed(question).effects == m.effects.push(
                Effect::Text(TextTask::RemovePackage { targets, declared }, name),
            )
            &&& m.agreed(question).overlay == Some(Overlay::<Seq<char>>::Packages)
            &&& m.declined(question).effects == m.effects
            &&& m.declined(question).overlay == Some(Overlay::<Seq<char>>::Packages)
        }),
{
    reveal(Model::agreed);
    reveal(Model::agreed_on_host);
    reveal(Model::declined);
}

/// A picker's rows stand for their backend: MicroPython before Zephyr, and
/// detection before both where it can be chosen.
pub proof fn rows_stand_for_their_backend(index: int)
    ensures
        BackendKind::spec_at(0) == Some(BackendKind::MicroPython),
        BackendKind::spec_at(1) == Some(BackendKind::Zephyr),
        index > 1 ==> BackendKind::spec_at(index) is None,
        PickerOption::spec_at(0) == Some(PickerOption::Automatic),
        PickerOption::spec_at(1) == Some(PickerOption::Backend(BackendKind::MicroPython)),
        PickerOption::spec_at(2) == Some(PickerOption::Backend(BackendKind::Zephyr)),
        index > 2 ==> PickerOption::spec_at(index) is None,
{
}

} // verus!
