//! What clicks and the wheel promise: the row under the pointer is the row
//! that is meant, and the wheel steps what it is over.

use vstd::prelude::*;
use vstd::string::*;

use crate::app::{DocsFocus, Focus, LogTab, Model, ProjectRow, Screen};
use crate::app::file_browser::FileAction;
use crate::app::mouse;
use crate::app::mouse::{DashboardAreas, Frame, RightKind, Row2, SplitAreas};
use crate::app::overlay_keys::Catalogue;
use crate::geometry;
use crate::geometry::{Point, Rect};
use crate::input::{KeyCode, KeyEvent, MouseEvent};
use crate::overlay::Overlay;
use crate::panels::{BuildAction, BuildPanel, FlashPaneAction, FlashScreen, OptionsField, PaneState};
use crate::text;

verus! {

/// The pointer is inside the border of `rect`.
pub open spec fn within(rect: Rect, point: Point) -> bool {
    &&& rect.x < point.0 < rect.x + rect.width - 1
    &&& rect.y < point.1 < rect.y + rect.height - 1
}

/// A click in the local column means the entry drawn under it: it takes the
/// cursor there, and the keys; the other column is left alone.
pub proof fn a_click_means_the_local_entry_under_it(m: Model, point: Point, rect: Rect, now: u64)
    requires
        m.panels.browser is Some,
        within(rect, point),
        m.screen.last_click is None,
    ensures
        ({
            let browser = m.panels.browser.unwrap();
            let entry = browser.local_offset + (point.1 - rect.y - 1);
            let after = m.local_clicked(point, rect, now);
            let shown = after.panels.browser.unwrap();
            &&& after.screen.focus is FilesLocal
            &&& shown.focus is Local
            &&& entry < browser.local_len ==> shown.local_cursor == entry
                && after.screen.last_click == Some((Focus::FilesLocal, entry as usize, now))
            &&& entry >= browser.local_len ==> shown.local_cursor == browser.local_cursor
            &&& shown.device_cursor == browser.device_cursor
            &&& after.effects == m.effects
        }),
{
    reveal(Model::local_clicked);
    reveal(Model::row_clicked);
}

/// So does one in the device column, above its footer and while a listing is
/// drawn.
pub proof fn a_click_means_the_device_entry_under_it(m: Model, point: Point, rect: Rect, now: u64)
    requires
        m.panels.browser is Some,
        within(rect, point),
        m.screen.last_click is None,
    ensures
        ({
            let browser = m.panels.browser.unwrap();
            let entry = browser.device_offset + (point.1 - rect.y - 1);
            let drawn = browser.device_state == PaneState::Ready && point.1 < rect.y + rect.height
                - 2 && entry < browser.device_len;
            let after = m.device_clicked(point, rect, now);
            let shown = after.panels.browser.unwrap();
            &&& after.screen.focus is FilesDevice
            &&& shown.focus is Device
            &&& drawn ==> shown.device_cursor == entry && after.screen.last_click == Some(
                (Focus::FilesDevice, entry as usize, now),
            )
            &&& !drawn ==> shown.device_cursor == browser.device_cursor
            &&& shown.local_cursor == browser.local_cursor
            &&& after.effects == m.effects
        }),
{
    reveal(Model::device_clicked);
    reveal(Model::row_clicked);
}

/// And one in the workspace's files.
pub proof fn a_click_means_the_workspace_entry_under_it(
    m: Model,
    point: Point,
    rect: Rect,
    now: u64,
)
    requires
        m.panels.workspace is Some,
        within(rect, point),
        m.screen.last_click is None,
    ensures
        ({
            let panel = m.panels.workspace.unwrap();
            let entry = panel.files_offset + (point.1 - rect.y - 1);
            let after = m.workspace_clicked(point, rect, now);
            &&& panel.files_error ==> after == m
            &&& !panel.files_error ==> after.screen.focus is Workspace
            &&& !panel.files_error && entry < panel.files_len
                ==> after.panels.workspace.unwrap().files_cursor == entry
            &&& !panel.files_error && entry >= panel.files_len
                ==> after.panels.workspace.unwrap().files_cursor == panel.files_cursor
            &&& after.effects == m.effects
        }),
{
    reveal(Model::workspace_clicked);
    reveal(Model::row_clicked);
}

/// A second click on the same row soon enough presses `Enter` on it, and is
/// then spent; a click elsewhere or too late only selects.
pub proof fn only_a_quick_repeat_presses_enter(
    m: Model,
    pane: Focus,
    index: usize,
    now: u64,
    before: (Focus, usize, u64),
)
    requires
        m.screen.last_click == Some(before),
    ensures
        ({
            let after = m.row_clicked(pane, index, now);
            let repeat = before.0 == pane && before.1 == index && now < before.2 + 400;
            &&& !repeat ==> after.effects == m.effects && after.overlay == m.overlay
                && after.screen.last_click == Some((pane, index, now))
            &&& repeat ==> after == m.with_screen(Screen { last_click: None, ..m.screen }).typed(
                KeyEvent::spec_plain(KeyCode::Enter),
            )
        }),
{
    reveal(Model::row_clicked);
}

/// A click in the checklist asks the row under it, the last one below them
/// all; on the merged row the half under the pointer is the one asked.
pub proof fn a_click_asks_the_row_under_it(m: Model, point: Point, rect: Rect, board_half: bool)
    requires
        m.project.rows@.len() > 0,
    ensures
        ({
            let after = m.project_clicked(point, rect, board_half);
            let row = point.1 - rect.y - 1;
            let cursor = if row < m.project.rows@.len() {
                row
            } else {
                m.project.rows@.len() - 1
            };
            &&& !within(rect, point) ==> after.screen.focus is Project && after.effects
                == m.effects && after.screen.project_cursor == m.screen.project_cursor
            &&& within(rect, point) ==> exists|asked: Model|
                {
                    &&& #[trigger] asked.typed(KeyEvent::spec_plain(KeyCode::Enter)) == after
                    &&& asked.screen.focus is Project
                    &&& asked.screen.project_cursor == cursor as usize
                    &&& asked.effects == m.effects
                }
        }),
{
    reveal(Model::project_clicked);
    let rows = m.project.rows@;
    if within(rect, point) {
        let row = point.1 - rect.y - 1;
        let cursor = if row < rows.len() - 1 {
            row
        } else {
            rows.len() - 1
        };
        let f = m.focused(Focus::Project);
        let asked = f.with_screen(
            Screen {
                project_cursor: cursor as usize,
                board_segment: if rows[cursor] == ProjectRow::BoardShield {
                    board_half
                } else {
                    f.screen.board_segment
                },
                ..f.screen
            },
        );
        assert(asked.typed(KeyEvent::spec_plain(KeyCode::Enter)) == m.project_clicked(
            point,
            rect,
            board_half,
        ));
    }
}

/// A click on the MAC's row copies the MAC, and on any other row nothing.
pub proof fn a_click_on_the_mac_copies_it(
    m: Model,
    point: Point,
    rect: Rect,
    mac_row: usize,
    now: u64,
)
    requires
        m.flash is Some,
        m.flash.unwrap().identified,
        m.flash.unwrap().mac is Some,
        within(rect, point),
    ensures
        ({
            let after = m.device_info_clicked(point, rect, Some(mac_row), now);
            &&& after.screen.focus is DeviceInfo
            &&& point.1 == rect.y + 1 + mac_row ==> after.pending.clipboard == m.flash.unwrap().mac
            &&& point.1 != rect.y + 1 + mac_row ==> after.pending == m.pending
            &&& after.effects == m.effects
        }),
{
    reveal(Model::device_info_clicked);
}

/// A click on a button of the build pane selects and runs that button's
/// action.
pub proof fn a_build_button_runs_its_action(m: Model, point: Point, rect: Rect, index: usize)
    requires
        m.panels.build is Some,
        !m.panels.build.unwrap().busy,
        index < m.panels.lists.build_actions@.len(),
        point.1 > rect.y,
    ensures
        exists|pressed: Model|
            {
                &&& #[trigger] pressed.build_run(m.panels.lists.build_actions@[index as int])
                    == m.build_stack_clicked(point, rect, Some(index))
                &&& pressed.screen.focus is Build
                &&& pressed.panels.build.unwrap().cursor == index
                &&& pressed.effects == m.effects
            },
        m.build_stack_clicked(point, rect, None).effects == m.effects,
        m.build_stack_clicked(point, rect, None).screen.focus is Build,
{
    reveal(Model::build_stack_clicked);
    let pressed = m.focused(Focus::Build).with_build(
        BuildPanel { cursor: index, ..m.panels.build.unwrap() },
    );
    assert(pressed.build_run(m.panels.lists.build_actions@[index as int])
        == m.build_stack_clicked(point, rect, Some(index)));
}

/// The stop row of a busy panel is drawn in the footer: no button of the
/// stack is it.
pub proof fn the_stack_leaves_stop_to_the_footer(m: Model)
    ensures
        m.build_busy() && m.panels.lists.build_actions@.len() > 0
            && m.panels.lists.build_actions@.last() == BuildAction::Stop ==> m.build_stack()
            == m.panels.lists.build_actions@.len() - 1,
        !m.build_busy() ==> m.build_stack() == m.panels.lists.build_actions@.len(),
        m.flash_busy() && m.panels.lists.pane_actions@.len() > 0
            && m.panels.lists.pane_actions@.last() == FlashPaneAction::Stop ==> m.flash_stack()
            == m.panels.lists.pane_actions@.len() - 1,
        !m.flash_busy() ==> m.flash_stack() == m.panels.lists.pane_actions@.len(),
{
}

/// A click on a button of the actions tab selects and runs that button's
/// action.
pub proof fn an_actions_button_runs_its_action(m: Model, point: Point, rect: Rect, index: usize)
    requires
        m.flash is Some,
        !m.flash.unwrap().busy,
        index < m.panels.lists.pane_actions@.len(),
        point.1 > rect.y,
    ensures
        exists|pressed: Model|
            {
                &&& #[trigger] pressed.pane_action_run(
                    m.panels.lists.pane_actions@[index as int],
                ) == m.flash_stack_clicked(point, rect, Some(index))
                &&& pressed.screen.focus is FilesDevice
                &&& pressed.flash.unwrap().pane_cursor == index
                &&& pressed.effects == m.effects
            },
{
    reveal(Model::flash_stack_clicked);
    reveal(Model::pane_pressed);
    let pressed = m.focused(Focus::FilesDevice).pane_cursor(index as int);
    assert(pressed.pane_action_run(m.panels.lists.pane_actions@[index as int])
        == m.flash_stack_clicked(point, rect, Some(index)));
}

/// Row 2 hands a click to the pane it fell in.
pub proof fn a_click_reaches_the_pane_it_fell_in(
    m: Model,
    point: Point,
    left: Rect,
    right: Rect,
    kind: RightKind,
    button: Option<usize>,
    now: u64,
)
    requires
        !(left.holds(point) && right.holds(point)),
    ensures
        ({
            let browser = m.row2_clicked(point, Row2::Browser { local: left, right, kind }, button, now);
            let build = m.row2_clicked(
                point,
                Row2::WorkspaceBuild { workspace: left, build: right },
                button,
                now,
            );
            &&& left.holds(point) ==> browser == m.local_clicked(point, left, now)
            &&& left.holds(point) ==> build == m.workspace_clicked(point, left, now)
            &&& right.holds(point) ==> build == m.build_stack_clicked(point, right, button)
            &&& right.holds(point) && kind == RightKind::Device ==> browser
                == m.device_pane_clicked(point, right, button, now)
            &&& right.holds(point) && kind == RightKind::Build ==> browser
                == m.build_stack_clicked(point, right, button)
            &&& right.holds(point) && kind == RightKind::NoDevice ==> browser == m
            &&& !left.holds(point) && !right.holds(point) ==> browser == m && build == m
            &&& m.row2_clicked(point, Row2::Placeholder, button, now) == m
        }),
{
    reveal(Model::row2_clicked);
}

/// A click on row 3 below its strip takes the keys there, one on a tab shows
/// it, and one elsewhere is not row 3's.
pub proof fn a_click_on_row_three_focuses_it(m: Model, point: Point, row3: Rect)
    ensures
        ({
            let after = m.row3_clicked(point, row3);
            let tab = geometry::tab_at(point, row3, m.log_strip());
            &&& !row3.holds(point) ==> after == m
            &&& row3.holds(point) && tab is Some ==> after.screen.log_tab == tab.unwrap()
            &&& row3.holds(point) && tab is None && point.1 > row3.y ==> after.screen.focus is Logs
                && after.screen.log_tab == m.screen.log_tab
        }),
{
    reveal(Model::row3_clicked);
}

/// A wheel notch is one row, down towards the end and up towards the start.
pub proof fn a_notch_is_one_row(cursor: int, len: int)
    requires
        0 <= cursor < len,
    ensures
        geometry::notch(cursor, len, true) == (if cursor + 1 < len {
            cursor + 1
        } else {
            cursor
        }),
        geometry::notch(cursor, len, false) == (if cursor > 0 {
            cursor - 1
        } else {
            0
        }),
        geometry::notch(cursor, 0, true) == cursor,
{
}

/// The wheel steps the list it is over by one row, towards where it turns,
/// and no other list.
pub proof fn the_wheel_steps_the_list_it_is_over(m: Model, point: Point, down: bool, areas: DashboardAreas)
    requires
        m.panels.browser is Some,
        areas.row2 is Browser,
        !areas.project.holds(point),
        !m.actions_active(),
        m.panels.browser.unwrap().device_state == PaneState::Ready,
        m.panels.browser.unwrap().local_cursor < m.panels.browser.unwrap().local_len,
        m.panels.browser.unwrap().device_cursor < m.panels.browser.unwrap().device_len,
    ensures
        ({
            let old = m.panels.browser.unwrap();
            let after = m.wheeled(point, down, areas);
            let now = after.panels.browser.unwrap();
            let left = areas.row2->local.holds(point);
            let right = !left && areas.row2->right.holds(point) && areas.row2->kind
                == RightKind::Device;
            let step = |cursor: usize, len: usize|
                if down && cursor + 1 < len {
                    cursor + 1
                } else if !down && cursor > 0 {
                    cursor - 1
                } else {
                    cursor as int
                };
            &&& left ==> now.local_cursor == step(old.local_cursor, old.local_len)
                && now.device_cursor == old.device_cursor
            &&& right ==> now.device_cursor == step(old.device_cursor, old.device_len)
                && now.local_cursor == old.local_cursor
            &&& !left && !right ==> now == old
        }),
{
    reveal(Model::wheeled);
    reveal(Model::list_wheeled);
}

/// Over row 3 the wheel turned up shows older rows and turned down newer
/// ones, of the tab in view.
pub proof fn the_wheel_scrolls_row_three(m: Model)
    ensures
        m.screen.log_tab is Log ==> {
            &&& m.row3_wheeled(true).logs.scroll == (if m.logs.scroll > 3 {
                m.logs.scroll - 3
            } else {
                0
            })
            &&& m.row3_wheeled(false).logs.scroll <= m.logs.lines.len()
            &&& m.logs.scroll + 3 + m.drawn.log_viewport <= m.logs.lines.len()
                ==> m.row3_wheeled(false).logs.scroll == m.logs.scroll + 3
            &&& m.row3_wheeled(false).monitor == m.monitor
        },
        !(m.screen.log_tab is Log) ==> {
            &&& m.row3_wheeled(true).logs == m.logs
            &&& !m.row3_wheeled(false).monitor.scroll.following
            &&& m.monitor.scroll.following ==> m.row3_wheeled(true).monitor == m.monitor
            &&& !m.monitor.scroll.following && m.monitor.scroll.offset >= 3 ==> m.row3_wheeled(
                false,
            ).monitor.scroll.offset == m.monitor.scroll.offset - 3
        },
{
}

/// A gesture goes to the dialog that is open, else to the view on screen, and
/// the wheel keeps its direction on the way.
pub proof fn gestures_keep_their_direction(
    m: Model,
    event: MouseEvent,
    frame: Frame,
    now: u64,
    buttons: Option<(Rect, Rect)>,
)
    requires
        m.screen.frame_area is Some,
        !m.screen.shortcuts_overlay_active,
    ensures
        ({
            let point = (event.column, event.row);
            let after = m.gestured(event, frame, now, buttons);
            let dashboard = m.overlay is None && m.screen.view is Dashboard;
            &&& event.kind is Other ==> after == m
            &&& event.kind is ScrollDown && m.overlay is Some ==> after == m.overlay_wheeled(
                point,
                true,
                frame,
            )
            &&& event.kind is ScrollUp && m.overlay is Some ==> after == m.overlay_wheeled(
                point,
                false,
                frame,
            )
            &&& event.kind is ScrollDown && dashboard ==> after == m.wheeled(
                point,
                true,
                frame.areas,
            )
            &&& event.kind is ScrollUp && dashboard ==> after == m.wheeled(
                point,
                false,
                frame.areas,
            )
            &&& event.kind is Click && dashboard ==> after == m.clicked(point, frame, now)
            &&& event.kind is Click && m.overlay is None && m.screen.view is Flash ==> after
                == m.flash_clicked(point, frame.flash, frame.fields@)
        }),
{
}

/// A dialog's list put on a row is on that row, and is otherwise the dialog
/// it was.
pub proof fn a_list_put_on_a_row_is_on_it(o: Overlay<Seq<char>>, index: usize, other: usize)
    requires
        o is DevicePicker || o is ThemePicker || o is FirmwarePicker || o is ProjectSetup
            || o is RestoreDeviceScript || o is FileActions || o is DirPicker || o is ProjectPicker
            || o is BuildDirPicker || o is SdkToolchains || o is ZephyrActions,
    ensures
        o.at_row(index).row() == index,
        o.at_row(o.row()) == o,
        o.at_row(other).at_row(index) == o.at_row(index),
{
}

/// Each picker's clickable rows are the rows it lists.
pub proof fn clickable_rows_are_the_rows_listed(m: Model, o: Overlay<Seq<char>>, dir_rows: usize)
    ensures
        ({
            let rows = m.click_rows(o, dir_rows);
            &&& o is DevicePicker ==> rows is Some && rows.unwrap().0
                == m.panels.devices.known() as usize
            &&& o is ThemePicker ==> rows is Some && rows.unwrap().0 == 17
            &&& o is FirmwarePicker && m.flash is Some ==> rows is Some && rows.unwrap().0
                == m.flash.unwrap().firmware_count
            &&& o is ProjectSetup ==> rows is Some && rows.unwrap().0 == 2
            &&& o is RestoreDeviceScript ==> rows is Some && rows.unwrap().0 == 3
            &&& o is SdkToolchains ==> rows is Some && rows.unwrap().0 == 37
            &&& o is DirPicker ==> rows is Some && rows.unwrap().0 == dir_rows
            &&& o is FileActions ==> rows is Some && rows.unwrap().0 == FileAction::offered(
                o->FileActions_side,
                o->FileActions_is_dir,
                o->FileActions_is_text,
                o->FileActions_status,
                m.caps(),
            ).len() as usize
            &&& o is CreateEntry || o is Help || o is OtaAddress ==> rows is None
        }),
{
    reveal(Model::click_rows);
}

/// A click in the flash dialog's menu, or in its lists, presses `Enter` on
/// the row under it; in the options it focuses the field under it, and
/// outside the dialog it leaves.
pub proof fn the_flash_dialog_means_the_row_under_the_pointer(
    m: Model,
    point: Point,
    popup: Rect,
    fields: Seq<OptionsField>,
)
    requires
        m.flash is Some,
        popup.fits(),
        popup.x < u16::MAX,
        popup.y < u16::MAX,
    ensures
        ({
            let after = m.flash_clicked(point, popup, fields);
            let row = point.1 - popup.y - 1;
            &&& !popup.holds(point) ==> after == m.flash_key(KeyEvent::spec_plain(KeyCode::Esc))
            &&& within(popup, point) && m.flash.unwrap().screen == FlashScreen::Options && 2 <= row
                < fields.len() + 2 ==> after.flash.unwrap().options_focus == fields[row - 2]
                && after.effects == m.effects
            &&& within(popup, point) && m.flash.unwrap().screen == FlashScreen::Menu
                && popup.height >= 7 && m.flash.unwrap().cursor < 5 && row < 5
                ==> exists|pressed: Model|
                {
                    &&& #[trigger] pressed.flash_key(KeyEvent::spec_plain(KeyCode::Enter)) == after
                    &&& pressed.flash.unwrap().cursor == row
                    &&& pressed.effects == m.effects
                }
        }),
{
    reveal(Model::flash_clicked);
    let row = point.1 - popup.y - 1;
    if within(popup, point) && m.flash.unwrap().screen == FlashScreen::Menu && popup.height >= 7
        && m.flash.unwrap().cursor < 5 && row < 5 {
        let pressed = m.menu_row(row);
        assert(pressed.flash_key(KeyEvent::spec_plain(KeyCode::Enter)) == m.flash_clicked(
            point,
            popup,
            fields,
        ));
    }
}

/// In the pickers a click on the list selects the row under it and hands the
/// list the keys; one on the details hands them the keys and selects nothing.
pub proof fn a_catalogue_click_means_the_row_under_it(
    m: Model,
    point: Point,
    areas: SplitAreas,
    input: Seq<char>,
    selected: usize,
    scroll: u16,
    focus: DocsFocus,
    count: nat,
)
    requires
        m.picker_rows(Catalogue::Boards, input) == Some(count),
        areas.list.fits(),
        areas.list.x < u16::MAX,
        areas.list.y < u16::MAX,
        count <= usize::MAX,
    ensures
        ({
            let after = m.catalogue_clicked(
                point,
                areas,
                Catalogue::Boards,
                input,
                selected,
                scroll,
                focus,
            );
            let entry = m.drawn.docs_list_offset + (point.1 - areas.list.y - 1);
            &&& areas.details.holds(point) ==> after.overlay == Some(
                Overlay::BoardPicker { input, selected, scroll, focus: DocsFocus::Details },
            )
            &&& !areas.details.holds(point) && within(areas.list, point) && entry < count
                ==> after.overlay == Some(
                Overlay::BoardPicker {
                    input,
                    selected: entry as usize,
                    scroll: 0,
                    focus: DocsFocus::List,
                },
            )
            &&& after.effects == m.effects
        }),
{
    reveal(Model::catalogue_clicked);
}

/// In the report window a click on the list selects the row under it, and on
/// either pane hands that pane the keys.
pub proof fn a_report_click_means_the_row_under_it(m: Model, point: Point, areas: SplitAreas)
    requires
        geometry::tab_at(point, areas.popup, m.dash_strip()) is None,
        m.dashboard.tab < m.dashboard.panes.len(),
        areas.list.fits(),
        areas.list.x < u16::MAX,
        areas.list.y < u16::MAX,
    ensures
        ({
            let after = m.window_clicked(point, areas);
            let tab = m.dashboard.tab as int;
            let pane = m.dashboard.panes[tab];
            let entry = m.drawn.dashboard_list_offset + (point.1 - areas.list.y - 1);
            &&& areas.details.holds(point) ==> after.dashboard.focus == DocsFocus::Details
                && after.dashboard.panes == m.dashboard.panes
            &&& !areas.details.holds(point) && within(areas.list, point) ==> after.dashboard.focus
                == DocsFocus::List
            &&& !areas.details.holds(point) && within(areas.list, point) && entry < pane.rows
                ==> after.dashboard.panes[tab].selected == entry
            &&& !areas.details.holds(point) && !areas.list.holds(point) ==> after == m
            &&& after.effects == m.effects
        }),
{
    reveal(Model::window_clicked);
}

/// In the package manager a click selects the row under it, and installs
/// nothing.
pub proof fn a_package_click_only_selects(m: Model, point: Point, areas: SplitAreas)
    requires
        m.panels.packages.selected < areas.list.height - 2,
        areas.list.height >= 3,
    ensures
        ({
            let after = m.packages_clicked(point, areas);
            let row = point.1 - areas.list.y - 1;
            &&& after.effects == m.effects
            &&& areas.details.holds(point) ==> after.panels.packages.details_focused
                && after.panels.packages.selected == m.panels.packages.selected
            &&& !areas.details.holds(point) && within(areas.list, point) && row
                < m.panels.packages.len ==> after.panels.packages.selected == row
                && !after.panels.packages.details_focused
            &&& !areas.details.holds(point) && !areas.list.holds(point) ==> after == m
        }),
{
    reveal(Model::packages_clicked);
}

/// In a drawn question the left button is No and the right one Yes: a click
/// on the left half of the strip never agrees, one on the right half never
/// refuses, and one above the strip answers nothing.
pub proof fn the_right_button_agrees(popup: Rect, buttons: Option<(Rect, Rect)>, point: Point)
    requires
        popup.fits(),
        popup.width >= 26,
        popup.height >= 5,
        geometry::buttons_of(popup, buttons),
    ensures
        ({
            let answer = geometry::confirm_click(buttons, point);
            let middle = popup.x + 1 + (popup.width - 25) / 2 + 12;
            &&& point.0 < middle ==> answer != Some(true)
            &&& point.0 >= middle ==> answer != Some(false)
            &&& point.1 < popup.y + popup.height - 4 ==> answer is None
            &&& middle - 12 <= point.0 < middle - 2 && popup.y + popup.height - 4 <= point.1
                < popup.y + popup.height - 1 ==> answer == Some(false)
            &&& middle + 2 <= point.0 < middle + 12 && popup.y + popup.height - 4 <= point.1
                < popup.y + popup.height - 1 ==> answer == Some(true)
        }),
{
}

/// The installer's button lies in the last three rows inside its border, at
/// the right edge, as wide as asked or as there is room.
pub proof fn the_installers_button_lies_at_the_bottom_right(popup: Rect, width: u16, point: Point)
    requires
        popup.fits(),
        popup.width >= 2,
        popup.height >= 5,
    ensures
        ({
            let button = mouse::footer_button(popup, width);
            let right = popup.x + popup.width - 1;
            let bottom = popup.y + popup.height - 1;
            &&& button.x + button.width == right
            &&& button.y + button.height == bottom
            &&& button.height == 3
            &&& button.width == (if width <= popup.width - 2 {
                width as int
            } else {
                popup.width - 2
            })
            &&& button.holds(point) ==> popup.holds(point)
        }),
{
}

/// The strips name their tabs in order, the first with the pane's number.
pub proof fn strips_name_their_tabs(m: Model, i: int)
    requires
        m.caps().monitor,
        0 <= i < 3,
        m.prefs.glyphs.list@.len() == 0,
        m.prefs.glyphs.screen@.len() == 0,
        m.prefs.glyphs.prompt@.len() == 0,
    ensures
        m.log_strip().len() == 3,
        m.log_strip()[i].0 == seq![LogTab::Log, LogTab::Monitor, LogTab::Terminal][i],
        m.log_strip()[0].1 == text::decimal(5) + " "@ + "Log"@,
        m.log_strip()[1].1 == "Monitor"@,
        m.log_strip()[2].1 == "Terminal"@,
{
}

/// A title's mark stands before it, with a gap, where there is one.
pub proof fn marks_stand_before_their_titles(glyph: Seq<char>, title: Seq<char>)
    ensures
        glyph.len() == 0 ==> mouse::marked(glyph, title) == title,
        glyph.len() > 0 ==> mouse::marked(glyph, title) == glyph + " "@ + title,
{
}

/// The wheel steps the checklist and the workspace's files the same way.
pub proof fn the_wheel_steps_the_checklist_and_the_files(
    m: Model,
    point: Point,
    down: bool,
    areas: DashboardAreas,
)
    requires
        m.panels.workspace is Some,
        areas.row2 is WorkspaceBuild,
        m.screen.project_cursor < m.project.rows@.len() <= usize::MAX,
        m.panels.workspace.unwrap().files_cursor < m.panels.workspace.unwrap().files_len,
        !m.panels.workspace.unwrap().files_error,
    ensures
        ({
            let after = m.wheeled(point, down, areas);
            let old = m.panels.workspace.unwrap();
            let now = after.panels.workspace.unwrap();
            let step = |cursor: int, len: int|
                if down && cursor + 1 < len {
                    cursor + 1
                } else if !down && cursor > 0 {
                    cursor - 1
                } else {
                    cursor
                };
            let checklist = areas.project.holds(point);
            let files = !checklist && areas.row2->workspace.holds(point);
            &&& checklist ==> after.screen.project_cursor == step(
                m.screen.project_cursor as int,
                m.project.rows@.len() as int,
            ) && now == old
            &&& files ==> now.files_cursor == step(old.files_cursor as int, old.files_len as int)
                && after.screen == m.screen
        }),
{
    reveal(Model::wheeled);
    reveal(Model::list_wheeled);
}

/// In the report window the wheel steps the list it is over by a row and
/// scrolls the details it is over by a line.
pub proof fn the_wheel_steps_the_report(m: Model, point: Point, down: bool, areas: SplitAreas)
    requires
        m.dashboard.tab < m.dashboard.panes.len(),
        m.dashboard.panes[m.dashboard.tab as int].selected
            < m.dashboard.panes[m.dashboard.tab as int].rows,
        m.dashboard.panes[m.dashboard.tab as int].scroll < u16::MAX,
    ensures
        ({
            let tab = m.dashboard.tab as int;
            let old = m.dashboard.panes[tab];
            let after = m.window_wheeled(point, down, areas);
            let now = after.dashboard.panes[tab];
            let list = areas.list.holds(point);
            let details = !list && areas.details.holds(point);
            &&& list && down ==> now.selected == (if old.selected + 1 < old.rows {
                old.selected + 1
            } else {
                old.selected as int
            })
            &&& list && !down ==> now.selected == (if old.selected > 0 {
                old.selected - 1
            } else {
                0
            })
            &&& details && down ==> now.scroll == old.scroll + 1 && now.selected == old.selected
            &&& details && !down ==> now.scroll == (if old.scroll > 0 {
                old.scroll - 1
            } else {
                0
            }) && now.selected == old.selected
            &&& !list && !details ==> after == m
        }),
{
    reveal(Model::window_wheeled);
}

/// In the board picker the wheel steps the rows it is over, or scrolls the
/// details.
pub proof fn the_wheel_steps_the_board_picker(
    m: Model,
    point: Point,
    down: bool,
    areas: SplitAreas,
    input: Seq<char>,
    selected: usize,
    scroll: u16,
    focus: DocsFocus,
    count: nat,
)
    requires
        m.picker_rows(Catalogue::Boards, input) == Some(count),
        selected < count <= usize::MAX,
        scroll < u16::MAX,
    ensures
        ({
            let after = m.catalogue_wheeled(
                point,
                down,
                areas,
                Catalogue::Boards,
                input,
                selected,
                scroll,
                focus,
            ).overlay;
            let row = if down && selected + 1 < count {
                (selected + 1) as usize
            } else if !down && selected > 0 {
                (selected - 1) as usize
            } else {
                selected
            };
            let line = if down {
                (scroll + 1) as u16
            } else if scroll > 0 {
                (scroll - 1) as u16
            } else {
                0
            };
            &&& areas.list.holds(point) ==> after == Some(
                Overlay::BoardPicker { input, selected: row, scroll: 0, focus },
            )
            &&& !areas.list.holds(point) && areas.details.holds(point) ==> after == Some(
                Overlay::BoardPicker { input, selected, scroll: line, focus },
            )
        }),
{
    reveal(Model::catalogue_wheeled);
}

/// A click in the Zephyr menu presses the button under it, and one on the
/// installer's button presses `Enter`.
pub proof fn a_menu_button_is_pressed(m: Model, point: Point, frame: Frame, index: usize)
    requires
        index < 4,
        frame.button == Some(index),
        point.1 > frame.popup.y,
    ensures
        m.dialog_clicked(
            Overlay::<Seq<char>>::ZephyrActions { selected: 0 },
            point,
            frame,
            None,
        ) == m.shown(Overlay::ZephyrActions { selected: index }).overlay_key(
            KeyEvent::spec_plain(KeyCode::Enter),
        ),
        mouse::footer_button(frame.popup, frame.stop_width).holds(point) ==> m.dialog_clicked(
            Overlay::<Seq<char>>::ZephyrInstall,
            point,
            frame,
            None,
        ) == m.overlay_key(KeyEvent::spec_plain(KeyCode::Enter)),
        !mouse::footer_button(frame.popup, frame.stop_width).holds(point) ==> m.dialog_clicked(
            Overlay::<Seq<char>>::ZephyrInstall,
            point,
            frame,
            None,
        ) == m,
{
    reveal(Model::dialog_clicked);
}

} // verus!
