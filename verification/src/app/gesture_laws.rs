//! A gesture never does more than the keyboard can.

use vstd::prelude::*;

use crate::app::{DocsFocus, Focus, Model, Screen};
use crate::app::build_dashboard_view;
use crate::app::mouse::{DOUBLE_CLICK, DashboardAreas, Frame, SplitAreas};
use crate::app::overlay_keys::Catalogue;
use crate::geometry;
use crate::geometry::{Point, Rect};
use crate::input::{KeyCode, KeyEvent, KeyModifiers, MouseEvent, MouseEventKind};
use crate::overlay::Overlay;

verus! {

/// A click outside an open dialog is `Esc`.
pub proof fn a_click_outside_a_dialog_is_esc(
    m: Model,
    event: MouseEvent,
    frame: Frame,
    now: u64,
    buttons: Option<(Rect, Rect)>,
)
    requires
        m.overlay is Some,
        m.screen.frame_area is Some,
        event.kind == MouseEventKind::Click,
        !frame.popup.holds((event.column, event.row)),
    ensures
        m.gestured(event, frame, now, buttons) == m.overlay_key(KeyEvent::spec_plain(KeyCode::Esc)),
{
    reveal(Model::overlay_clicked);
}

/// A click on a question's button is its key: `n` on No, `y` on Yes.
pub proof fn a_click_on_a_button_is_its_key(
    m: Model,
    o: Overlay<Seq<char>>,
    event: MouseEvent,
    frame: Frame,
    now: u64,
    buttons: Option<(Rect, Rect)>,
)
    requires
        m.overlay == Some(o),
        o.question() is Some,
        m.screen.frame_area is Some,
        event.kind == MouseEventKind::Click,
        frame.popup.holds((event.column, event.row)),
    ensures
        match geometry::confirm_click(buttons, (event.column, event.row)) {
            Some(yes) => m.gestured(event, frame, now, buttons) == m.overlay_key(
                KeyEvent::spec_plain(
                    KeyCode::Char(
                        if yes {
                            'y'
                        } else {
                            'n'
                        },
                    ),
                ),
            ),
            None => m.gestured(event, frame, now, buttons) == m,
        },
{
    reveal(Model::overlay_clicked);
    reveal(Model::dialog_clicked);
}

/// In a popup with room for them the buttons do not overlap, and a click on
/// one is a click inside the popup.
pub proof fn the_buttons_lie_apart_in_their_popup(popup: Rect, no: Rect, yes: Rect, point: Point)
    requires
        popup.width >= 26,
        popup.fits(),
        geometry::buttons_of(popup, Some((no, yes))),
    ensures
        !(no.holds(point) && yes.holds(point)),
        no.holds(point) || yes.holds(point) ==> popup.holds(point),
{
}

/// Without a drawn frame, and under the pane letters, a gesture does
/// nothing.
pub proof fn a_gesture_needs_a_frame(
    m: Model,
    event: MouseEvent,
    frame: Frame,
    now: u64,
    buttons: Option<(Rect, Rect)>,
)
    requires
        m.screen.frame_area is None || (m.overlay is None && m.screen.shortcuts_overlay_active),
    ensures
        m.gestured(event, frame, now, buttons) == m,
{
}

/// While a session owns the keyboard a click says nothing.
pub proof fn a_live_session_ignores_clicks(m: Model, point: Point, frame: Frame, now: u64)
    requires
        m.monitor_active() || m.terminal_active(),
    ensures
        m.clicked(point, frame, now) == m,
{
    reveal(Model::clicked);
}

/// The wheel never moves the focus and asks nothing of the world.
pub proof fn the_wheel_never_moves_the_focus(
    m: Model,
    point: Point,
    down: bool,
    areas: DashboardAreas,
)
    ensures
        m.wheeled(point, down, areas).screen.focus == m.screen.focus,
        m.wheeled(point, down, areas).effects == m.effects,
        m.wheeled(point, down, areas).overlay == m.overlay,
{
    reveal(Model::wheeled);
    reveal(Model::list_wheeled);
}

/// A wheel step leaves a list's cursor inside the list.
pub proof fn the_wheel_stays_in_the_list(
    m: Model,
    point: Point,
    down: bool,
    areas: DashboardAreas,
)
    requires
        areas.project.holds(point),
        m.project.rows@.len() > 0,
    ensures
        m.wheeled(point, down, areas).screen.project_cursor < m.project.rows@.len(),
{
    reveal(Model::wheeled);
    reveal(Model::list_wheeled);
    assert(m.project.rows@.len() == m.project.rows.len());
    geometry::a_notch_stays_in_the_list(
        m.screen.project_cursor as int,
        m.project.rows@.len() as int,
        down,
    );
}

/// A wheel step in the board and shield pickers never hands the keys to the
/// other pane, and leaves the filter alone.
pub proof fn the_pickers_wheel_keeps_the_keys(
    m: Model,
    point: Point,
    down: bool,
    areas: SplitAreas,
    what: Catalogue,
    input: Seq<char>,
    selected: usize,
    scroll: u16,
    focus: DocsFocus,
)
    ensures
        exists|row: usize, line: u16|
            m.catalogue_wheeled(point, down, areas, what, input, selected, scroll, focus)
                == #[trigger] m.catalogue_shown(what, input, row, line, focus),
{
    reveal(Model::catalogue_wheeled);
    let after = m.catalogue_wheeled(point, down, areas, what, input, selected, scroll, focus);
    if areas.list.holds(point) {
        let len: nat = match (m.picker_rows(what, input), what) {
            (Some(count), _) => count,
            (None, Catalogue::Boards) => 0,
            (None, Catalogue::Shields) => 1,
        };
        let row = geometry::notch(selected as int, len as int, down) as usize;
        assert(after == m.catalogue_shown(what, input, row, 0, focus) || after
            == m.catalogue_shown(what, input, selected, scroll, focus));
    } else if areas.details.holds(point) {
        let line = if down {
            build_dashboard_view::scroll_down(scroll, 1)
        } else {
            build_dashboard_view::scroll_up(scroll, 1)
        };
        assert(after == m.catalogue_shown(what, input, selected, line, focus));
    } else {
        assert(after == m.catalogue_shown(what, input, selected, scroll, focus));
    }
}

/// The second click on a row soon enough is `Enter`; a later one, or one on
/// another row, starts over.
pub proof fn a_double_click_is_enter(m: Model, pane: Focus, index: usize, then: u64, now: u64)
    requires
        then <= now,
        m.screen.last_click is None,
    ensures
        ({
            let once = m.row_clicked(pane, index, then);
            let after = m.with_screen(Screen { last_click: None, ..m.screen });
            &&& once == m.with_screen(
                Screen { last_click: Some((pane, index, then)), ..m.screen },
            )
            &&& now - then < DOUBLE_CLICK ==> once.row_clicked(pane, index, now) == after.typed(
                KeyEvent::spec_plain(KeyCode::Enter),
            )
            &&& now - then >= DOUBLE_CLICK ==> once.row_clicked(pane, index, now) == m.with_screen(
                Screen { last_click: Some((pane, index, now)), ..m.screen },
            )
        }),
{
    reveal(Model::row_clicked);
}

/// A click in a picker selects and never activates: nothing is asked of the
/// world, and the picker stays open on the row clicked.
pub proof fn a_click_in_a_picker_only_selects(
    m: Model,
    o: Overlay<Seq<char>>,
    point: Point,
    popup: Rect,
    rows: (usize, u16, u16),
)
    requires
        m.overlay == Some(o),
        !(o is SdkToolchains),
    ensures
        ({
            let after = m.row_picked(o, point, popup, rows);
            &&& after.effects == m.effects
            &&& after == m || exists|row: usize| #[trigger] m.shown(o.at_row(row)) == after && row
                < rows.0
        }),
{
    reveal(Model::row_picked);
    match geometry::list_row_at(point, popup, o.row() as int, rows.0 as int, rows.1, rows.2) {
        Some(index) => {
            assert(m.row_picked(o, point, popup, rows) == m.shown(o.at_row(index as usize)));
        },
        None => {},
    }
}

/// The header's project name is a shortcut for `shift+P`.
pub proof fn the_header_name_is_shift_p(m: Model, point: Point, frame: Frame, now: u64)
    requires
        !m.monitor_active(),
        !m.terminal_active(),
        Model::on_header(point, frame),
    ensures
        m.clicked(point, frame, now) == m.typed(
            KeyEvent { code: KeyCode::Char('P'), modifiers: KeyModifiers::spec_shift() },
        ),
{
    reveal(Model::clicked);
}

} // verus!
