//! What the windows and pickers promise of their own keys: where a cursor
//! lands, what a filter keeps, and where a window returns.

use vstd::prelude::*;
use vstd::string::*;

use crate::app::{DocsFocus, Model};
use crate::app::overlay_keys;
use crate::app::overlay_keys::Catalogue;
use crate::effect::{Effect, Task};
use crate::geometry;
use crate::input::{KeyCode, KeyEvent};
use crate::overlay::{DirPurpose, Overlay};

verus! {

/// The row below `selected` in a list of `count` that wraps.
pub open spec fn row_below(selected: usize, count: int) -> usize {
    if selected + 1 < count {
        (selected + 1) as usize
    } else {
        0
    }
}

/// The row above it.
pub open spec fn row_above(selected: usize, count: int) -> usize {
    if selected > 0 {
        (selected - 1) as usize
    } else {
        (count - 1) as usize
    }
}

/// The plain pickers walk the rows they list, wrapping at both ends, and ask
/// nothing on the way.
pub proof fn pickers_walk_the_rows_they_list(m: Model, selected: usize)
    ensures
        ({
            let down = KeyEvent::spec_plain(KeyCode::Down);
            let up = KeyEvent::spec_plain(KeyCode::Up);
            let devices = m.panels.devices.known();
            &&& selected < devices <= usize::MAX ==> {
                &&& m.device_picker_key(down, selected) == m.shown(
                    Overlay::DevicePicker { selected: row_below(selected, devices as int) },
                )
                &&& m.device_picker_key(up, selected) == m.shown(
                    Overlay::DevicePicker { selected: row_above(selected, devices as int) },
                )
            }
            &&& selected < 17 ==> {
                &&& m.theme_picker_key(down, selected) == m.shown(
                    Overlay::ThemePicker { selected: row_below(selected, 17) },
                )
                &&& m.theme_picker_key(up, selected) == m.shown(
                    Overlay::ThemePicker { selected: row_above(selected, 17) },
                )
            }
            &&& m.flash is Some && selected < m.flash.unwrap().firmware_count ==> {
                &&& m.firmware_picker_key(down, selected) == m.shown(
                    Overlay::FirmwarePicker {
                        selected: row_below(selected, m.flash.unwrap().firmware_count as int),
                    },
                )
                &&& m.firmware_picker_key(up, selected) == m.shown(
                    Overlay::FirmwarePicker {
                        selected: row_above(selected, m.flash.unwrap().firmware_count as int),
                    },
                )
            }
            &&& selected < 2 ==> {
                &&& m.project_setup_key(down, selected) == m.shown(
                    Overlay::ProjectSetup { selected: row_below(selected, 2) },
                )
                &&& m.project_setup_key(up, selected) == m.shown(
                    Overlay::ProjectSetup { selected: row_above(selected, 2) },
                )
            }
        }),
{
    reveal(Model::device_picker_key);
    reveal(Model::theme_picker_key);
    reveal(Model::firmware_picker_key);
    reveal(Model::project_setup_key);
    if selected < m.panels.devices.known() {
        geometry::wrapping_steps_are_single(selected as int, m.panels.devices.known() as int);
    }
    if selected < 17 {
        geometry::wrapping_steps_are_single(selected as int, 17);
    }
    if selected < 2 {
        geometry::wrapping_steps_are_single(selected as int, 2);
    }
    if m.flash is Some && selected < m.flash.unwrap().firmware_count {
        geometry::wrapping_steps_are_single(
            selected as int,
            m.flash.unwrap().firmware_count as int,
        );
    }
}

/// So do the restore question's three rows and the Zephyr menu's four.
pub proof fn menus_walk_their_rows(m: Model, selected: usize, to_packages: bool)
    ensures
        ({
            let down = KeyEvent::spec_plain(KeyCode::Down);
            let up = KeyEvent::spec_plain(KeyCode::Up);
            &&& selected < 3 ==> {
                &&& m.restore_key(down, selected, to_packages) == m.shown(
                    Overlay::RestoreDeviceScript {
                        selected: row_below(selected, 3),
                        return_to_packages: to_packages,
                    },
                )
                &&& m.restore_key(up, selected, to_packages) == m.shown(
                    Overlay::RestoreDeviceScript {
                        selected: row_above(selected, 3),
                        return_to_packages: to_packages,
                    },
                )
            }
            &&& selected < 4 ==> {
                &&& m.zephyr_actions_key(down, selected) == m.shown(
                    Overlay::ZephyrActions { selected: row_below(selected, 4) },
                )
                &&& m.zephyr_actions_key(up, selected) == m.shown(
                    Overlay::ZephyrActions { selected: row_above(selected, 4) },
                )
            }
        }),
{
    reveal(Model::restore_key);
    reveal(Model::zephyr_actions_key);
    if selected < 3 {
        geometry::wrapping_steps_are_single(selected as int, 3);
    }
    if selected < 4 {
        geometry::wrapping_steps_are_single(selected as int, 4);
    }
}

/// `Enter` in the restore question does its row, `Esc` leaves the script
/// stopped; both return to the package manager where it lent its place.
pub proof fn restoring_returns_where_it_came_from(m: Model, selected: usize, to_packages: bool)
    ensures
        ({
            let back = if to_packages {
                m.shown(Overlay::Packages)
            } else {
                m
            };
            &&& m.restore_key(KeyEvent::spec_plain(KeyCode::Enter), selected, to_packages)
                == back.restored(selected)
            &&& m.restore_key(KeyEvent::spec_plain(KeyCode::Esc), selected, to_packages) == back
        }),
{
    reveal(Model::restore_key);
}

/// A project picker walks its folder's rows, `Home` and `End` reach its
/// ends, and each of these forgets an error.
pub proof fn the_project_picker_walks_its_folder(
    m: Model,
    selected: usize,
    error: Option<Seq<char>>,
)
    requires
        m.project.mpy_projects is Some,
        selected < m.project.mpy_project_count,
    ensures
        ({
            let count = m.project.mpy_project_count as int;
            let at = |code: KeyCode|
                m.project_picker_key(KeyEvent::spec_plain(code), true, selected, error);
            let on = |row: usize|
                m.shown(Overlay::ProjectPicker { mpy: true, selected: row, error: None });
            &&& at(KeyCode::Down) == on(row_below(selected, count))
            &&& at(KeyCode::Up) == on(row_above(selected, count))
            &&& at(KeyCode::Home) == on(0)
            &&& at(KeyCode::End) == on((count - 1) as usize)
            &&& at(KeyCode::Esc) == m
        }),
{
    reveal(Model::project_picker_key);
    geometry::wrapping_steps_are_single(selected as int, m.project.mpy_project_count as int);
}

/// In the board picker the arrows walk the filtered rows while the list has
/// the keys and scroll while the details have them; `Tab` hands them over.
pub proof fn the_board_picker_walks_or_scrolls(
    m: Model,
    input: Seq<char>,
    selected: usize,
    scroll: u16,
    count: nat,
)
    requires
        m.picker_rows(Catalogue::Boards, input) == Some(count),
        selected < count <= usize::MAX,
        scroll < u16::MAX,
    ensures
        ({
            let list = |code: KeyCode|
                m.catalogue_key(
                    KeyEvent::spec_plain(code),
                    Catalogue::Boards,
                    input,
                    selected,
                    scroll,
                    DocsFocus::List,
                );
            let details = |code: KeyCode|
                m.catalogue_key(
                    KeyEvent::spec_plain(code),
                    Catalogue::Boards,
                    input,
                    selected,
                    scroll,
                    DocsFocus::Details,
                );
            let shown = |row: usize, line: u16, focus: DocsFocus|
                m.shown(Overlay::BoardPicker { input, selected: row, scroll: line, focus });
            &&& list(KeyCode::Down) == shown(
                row_below(selected, count as int),
                0,
                DocsFocus::List,
            )
            &&& list(KeyCode::Up) == shown(row_above(selected, count as int), 0, DocsFocus::List)
            &&& list(KeyCode::Tab) == shown(selected, scroll, DocsFocus::Details)
            &&& details(KeyCode::Tab) == shown(selected, scroll, DocsFocus::List)
            &&& details(KeyCode::Down) == shown(
                selected,
                (scroll + 1) as u16,
                DocsFocus::Details,
            )
            &&& details(KeyCode::Up) == shown(
                selected,
                if scroll > 0 {
                    (scroll - 1) as u16
                } else {
                    0
                },
                DocsFocus::Details,
            )
            &&& list(KeyCode::Esc) == m
            &&& details(KeyCode::Esc) == m
        }),
{
    reveal(Model::catalogue_key);
    geometry::wrapping_steps_are_single(selected as int, count as int);
}

/// A filter typed in the board picker keeps the cursor inside the rows it
/// leaves.
pub proof fn a_typed_filter_keeps_the_cursor_inside(
    m: Model,
    input: Seq<char>,
    selected: usize,
    scroll: u16,
    c: char,
    count: nat,
)
    requires
        m.picker_rows(Catalogue::Boards, input.push(c)) == Some(count),
        count <= usize::MAX,
    ensures
        ({
            let after = m.catalogue_key(
                KeyEvent::spec_plain(KeyCode::Char(c)),
                Catalogue::Boards,
                input,
                selected,
                scroll,
                DocsFocus::List,
            );
            &&& after.overlay is Some
            &&& after.overlay.unwrap() is BoardPicker
            &&& after.overlay.unwrap()->BoardPicker_input == input.push(c)
            &&& count > 0 ==> after.overlay.unwrap()->BoardPicker_selected < count
            &&& selected < count ==> after.overlay.unwrap()->BoardPicker_selected == selected
            &&& after.overlay.unwrap()->BoardPicker_scroll == 0
            &&& after.effects == m.effects
        }),
{
    reveal(Model::catalogue_key);
}

/// The help window walks the rows its filter leaves, `Home` and `End` reach
/// their ends, `/` starts a search, and `Esc` leaves.
pub proof fn the_help_window_walks_its_rows(m: Model, filter: Seq<char>, selected: usize)
    requires
        selected < m.help_rows(filter).len() <= usize::MAX,
    ensures
        ({
            let count = m.help_rows(filter).len() as int;
            let at = |code: KeyCode|
                m.help_key(KeyEvent::spec_plain(code), filter, false, selected);
            let on = |row: usize, filtering: bool|
                m.shown(Overlay::Help { filter, filtering, selected: row });
            &&& at(KeyCode::Down) == on(row_below(selected, count), false)
            &&& at(KeyCode::Char('j')) == on(row_below(selected, count), false)
            &&& at(KeyCode::Up) == on(row_above(selected, count), false)
            &&& at(KeyCode::Char('k')) == on(row_above(selected, count), false)
            &&& at(KeyCode::Home) == on(0, false)
            &&& at(KeyCode::End) == on((count - 1) as usize, false)
            &&& at(KeyCode::Char('/')) == on(selected, true)
            &&& at(KeyCode::Esc) == m
            &&& at(KeyCode::Char('?')) == m
            &&& at(KeyCode::Char('q')) == m
        }),
{
    reveal(Model::help_key);
    geometry::wrapping_steps_are_single(selected as int, m.help_rows(filter).len() as int);
}

/// `Enter` in the help window replays the key of the row under the cursor,
/// in the view the window was opened over; a row without one does nothing.
pub proof fn the_help_window_replays_the_row_under_the_cursor(
    m: Model,
    filter: Seq<char>,
    filtering: bool,
    selected: usize,
)
    requires
        selected < m.help_rows(filter).len(),
    ensures
        ({
            let after = m.help_key(
                KeyEvent::spec_plain(KeyCode::Enter),
                filter,
                filtering,
                selected,
            );
            let event = m.help_rows(filter)[selected as int].event;
            &&& event is None ==> after == m
            &&& event is Some && m.screen.view is Dashboard ==> after == m.dashboard_key(
                KeyEvent { code: event.unwrap().0, modifiers: event.unwrap().1 },
                false,
            )
            &&& event is Some && m.screen.view is Flash ==> after == m.flash_key(
                KeyEvent { code: event.unwrap().0, modifiers: event.unwrap().1 },
            )
        }),
{
    reveal(Model::help_key);
}

/// The windows read outside get every key but `Esc`, which leaves them.
pub proof fn outside_windows_get_their_keys(
    m: Model,
    key: KeyEvent,
    purpose: DirPurpose,
    path: Seq<char>,
    selected: usize,
    error: Option<Seq<char>>,
)
    ensures
        ({
            let folder = Overlay::DirPicker { purpose, path, selected, error };
            let packages = m.dialog_key(key, Overlay::Packages);
            let dir = m.dialog_key(key, folder);
            &&& key.code == KeyCode::Esc ==> packages == m.closed() && dir == m.closed()
            &&& key.code != KeyCode::Esc ==> {
                &&& packages.effects == m.effects.push(Effect::Task(Task::PackagesKey(key)))
                &&& packages.overlay == Some(Overlay::<Seq<char>>::Packages)
                &&& dir.effects == m.effects.push(Effect::Task(Task::DirPickerKey(key)))
                &&& dir.overlay == Some(folder)
            }
        }),
{
    reveal(Model::dialog_key);
    reveal(Model::handed_on);
}

/// A cursor held inside a list stays where it is while it can, and else
/// takes the last row.
pub proof fn a_held_cursor_moves_only_off_the_end(selected: usize, count: nat)
    requires
        count <= usize::MAX,
    ensures
        selected < count ==> overlay_keys::held_in(selected, count) == selected,
        selected >= count > 0 ==> overlay_keys::held_in(selected, count) == count - 1,
        count == 0 ==> overlay_keys::held_in(selected, count) == 0,
{
}

} // verus!
