//! Rectangles, and the maps from a clicked cell to what was drawn there.

use vstd::prelude::*;
use vstd::string::*;

verus! {

/// A rectangle of terminal cells.
#[derive(Debug, Clone, Copy, PartialEq, Eq, Structural)]
pub struct Rect {
    pub x: u16,
    pub y: u16,
    pub width: u16,
    pub height: u16,
}

/// A cell: column, then row.
pub type Point = (u16, u16);

impl Rect {
    /// Whether both far edges are cells a terminal can number.
    pub open spec fn fits(self) -> bool {
        self.x + self.width <= u16::MAX && self.y + self.height <= u16::MAX
    }

    /// Whether the cell lies in the rectangle.
    pub open spec fn holds(self, point: Point) -> bool {
        &&& self.x <= point.0 < self.x + self.width
        &&& self.y <= point.1 < self.y + self.height
    }

    /// Whether every cell of `other` lies in the rectangle.
    pub open spec fn covers(self, other: Rect) -> bool {
        forall|p: Point| #[trigger] other.holds(p) ==> self.holds(p)
    }

    pub fn new(x: u16, y: u16, width: u16, height: u16) -> (r: Rect)
        ensures
            r == (Rect { x, y, width, height }),
    {
        Rect { x, y, width, height }
    }

    /// The rectangle without the one-cell border drawn around it.
    pub open spec fn inside_border(self) -> Rect {
        Rect {
            x: (self.x + 1) as u16,
            y: (self.y + 1) as u16,
            width: less(self.width, 2),
            height: less(self.height, 2),
        }
    }

    pub fn inner(self) -> (r: Rect)
        requires
            self.x < u16::MAX,
            self.y < u16::MAX,
        ensures
            r == self.inside_border(),
    {
        Rect {
            x: self.x + 1,
            y: self.y + 1,
            width: self.width.saturating_sub(2),
            height: self.height.saturating_sub(2),
        }
    }
}

/// `a - b`, stopping at zero.
pub open spec fn less(a: u16, b: int) -> u16 {
    if a > b {
        (a - b) as u16
    } else {
        0
    }
}

/// Whether `rect` contains the point.
pub fn contains(rect: Rect, point: Point) -> (r: bool)
    ensures
        r == rect.holds(point),
{
    rect.x <= point.0 && point.0 - rect.x < rect.width && rect.y <= point.1 && point.1 - rect.y
        < rect.height
}

/// The cursor one wheel notch away in a list of `len` rows: a single row,
/// clamped at both ends, unchanged when there is nothing to walk.
pub open spec fn notch(cursor: int, len: int, down: bool) -> int {
    let moved = if down {
        cursor + 1
    } else {
        cursor - 1
    };
    if len == 0 {
        cursor
    } else if moved < 0 {
        0
    } else if moved > len - 1 {
        len - 1
    } else {
        moved
    }
}

pub fn stepped(cursor: usize, len: usize, down: bool) -> (r: usize)
    ensures
        r == notch(cursor as int, len as int, down),
{
    if len == 0 {
        cursor
    } else if down {
        if cursor >= len - 1 {
            len - 1
        } else {
            cursor + 1
        }
    } else if cursor == 0 {
        0
    } else if cursor - 1 > len - 1 {
        len - 1
    } else {
        cursor - 1
    }
}

/// A notch lands inside the list, whatever the cursor was.
pub proof fn a_notch_stays_in_the_list(cursor: int, len: int, down: bool)
    requires
        len > 0,
    ensures
        0 <= notch(cursor, len, down) < len,
{
}

/// A cursor moved by `rows` inside a list of `len` rows.
pub open spec fn paged(cursor: int, down: bool, rows: int, len: int) -> int {
    if !down {
        if cursor > rows {
            cursor - rows
        } else {
            0
        }
    } else if cursor + rows < len - 1 {
        cursor + rows
    } else if len > 0 {
        len - 1
    } else {
        0
    }
}

pub fn page_step(cursor: usize, down: bool, rows: usize, len: usize) -> (r: usize)
    ensures
        r == paged(cursor as int, down, rows as int, len as int),
{
    if !down {
        cursor.saturating_sub(rows)
    } else {
        let last: usize = len.saturating_sub(1);
        let next: usize = cursor.saturating_add(rows);
        if next < last {
            next
        } else {
            last
        }
    }
}

/// The cursor after a step up in a list that wraps.
pub open spec fn wrap_up(selected: int, count: int) -> int {
    (selected + count - 1) % count
}

/// The cursor after a step down in a list that wraps.
pub open spec fn wrap_down(selected: int, count: int) -> int {
    (selected + 1) % count
}

pub fn wrapped_up(selected: usize, count: usize) -> (r: usize)
    requires
        count > 0,
    ensures
        r == wrap_up(selected as int, count as int),
{
    let s: usize = selected % count;
    proof {
        vstd::arithmetic::div_mod::lemma_add_mod_noop(selected as int, count - 1, count as int);
        if s == 0 {
            vstd::arithmetic::div_mod::lemma_small_mod((count - 1) as nat, count as nat);
        } else {
            vstd::arithmetic::div_mod::lemma_small_mod((s - 1) as nat, count as nat);
            vstd::arithmetic::div_mod::lemma_mod_add_multiples_vanish(s - 1, count as int);
            vstd::arithmetic::div_mod::lemma_add_mod_noop(s as int, count - 1, count as int);
        }
        vstd::arithmetic::div_mod::lemma_mod_twice(selected as int, count as int);
        vstd::arithmetic::div_mod::lemma_add_mod_noop(s as int, count - 1, count as int);
    }
    if s == 0 {
        count - 1
    } else {
        s - 1
    }
}

pub fn wrapped_down(selected: usize, count: usize) -> (r: usize)
    requires
        count > 0,
    ensures
        r == wrap_down(selected as int, count as int),
{
    let s: usize = selected % count;
    proof {
        vstd::arithmetic::div_mod::lemma_mod_twice(selected as int, count as int);
        vstd::arithmetic::div_mod::lemma_add_mod_noop(selected as int, 1, count as int);
        vstd::arithmetic::div_mod::lemma_add_mod_noop(s as int, 1, count as int);
        if s == count - 1 {
            vstd::arithmetic::div_mod::lemma_mod_self_0(count as int);
        } else {
            vstd::arithmetic::div_mod::lemma_small_mod((s + 1) as nat, count as nat);
        }
    }
    if s == count - 1 {
        0
    } else {
        s + 1
    }
}

/// A wrapping step moves by one row, and from one end of the list to the
/// other.
pub proof fn wrapping_steps_are_single(selected: int, count: int)
    requires
        0 <= selected < count,
    ensures
        selected + 1 < count ==> wrap_down(selected, count) == selected + 1,
        selected + 1 == count ==> wrap_down(selected, count) == 0,
        selected > 0 ==> wrap_up(selected, count) == selected - 1,
        selected == 0 ==> wrap_up(selected, count) == count - 1,
{
    if selected + 1 == count {
        vstd::arithmetic::div_mod::lemma_mod_self_0(count);
    } else {
        vstd::arithmetic::div_mod::lemma_small_mod((selected + 1) as nat, count as nat);
    }
    if selected == 0 {
        vstd::arithmetic::div_mod::lemma_small_mod((count - 1) as nat, count as nat);
    } else {
        vstd::arithmetic::div_mod::lemma_mod_add_multiples_vanish(selected - 1, count);
        vstd::arithmetic::div_mod::lemma_small_mod((selected - 1) as nat, count as nat);
    }
}

/// A wrapping step lands inside the list, and the opposite step undoes it.
pub proof fn wrapping_steps_undo_each_other(selected: int, count: int)
    requires
        0 <= selected < count,
    ensures
        0 <= wrap_up(selected, count) < count,
        0 <= wrap_down(selected, count) < count,
        wrap_up(wrap_down(selected, count), count) == selected,
        wrap_down(wrap_up(selected, count), count) == selected,
{
    if selected == count - 1 {
        vstd::arithmetic::div_mod::lemma_mod_self_0(count);
        assert(wrap_down(selected, count) == 0);
        vstd::arithmetic::div_mod::lemma_small_mod((count - 1) as nat, count as nat);
    } else {
        vstd::arithmetic::div_mod::lemma_small_mod((selected + 1) as nat, count as nat);
        assert(wrap_down(selected, count) == selected + 1);
        vstd::arithmetic::div_mod::lemma_mod_add_multiples_vanish(selected, count);
        vstd::arithmetic::div_mod::lemma_small_mod(selected as nat, count as nat);
    }
    if selected == 0 {
        vstd::arithmetic::div_mod::lemma_small_mod((count - 1) as nat, count as nat);
        assert(wrap_up(selected, count) == count - 1);
        vstd::arithmetic::div_mod::lemma_mod_self_0(count);
    } else {
        vstd::arithmetic::div_mod::lemma_mod_add_multiples_vanish(selected - 1, count);
        vstd::arithmetic::div_mod::lemma_small_mod((selected - 1) as nat, count as nat);
        assert(wrap_up(selected, count) == selected - 1);
        vstd::arithmetic::div_mod::lemma_small_mod(selected as nat, count as nat);
    }
}

/// How many rows a bordered pane has inside, `skip` leading and `reserved`
/// trailing ones not counted.
pub open spec fn inner_height(rect: Rect, skip: u16, reserved: u16) -> int {
    if rect.height > 2 + skip + reserved {
        rect.height - 2 - skip - reserved
    } else {
        0
    }
}

/// The row of a bordered pane the point is on, counted from the first row
/// the list owns; `None` on the borders, the skipped and the reserved rows.
pub open spec fn inner_row_at(point: Point, rect: Rect, skip: u16, reserved: u16) -> Option<int> {
    let top = rect.y + 1 + skip;
    if rect.x < point.0 < rect.x + rect.width - 1 && top <= point.1 < top + inner_height(
        rect,
        skip,
        reserved,
    ) {
        Some(point.1 - top)
    } else {
        None
    }
}

/// The view of an optional index.
pub open spec fn opt_index(r: Option<usize>) -> Option<int> {
    match r {
        Some(i) => Some(i as int),
        None => None,
    }
}

/// The row index inside a bordered pane's inner area. `skip` counts leading
/// rows the list does not own (a message above it), `reserved` trailing
/// ones (a footer).
pub fn inner_row(point: Point, rect: Rect, skip: u16, reserved: u16) -> (r: Option<usize>)
    ensures
        opt_index(r) == inner_row_at(point, rect, skip, reserved),
{
    let top: u32 = rect.y as u32 + 1 + skip as u32;
    let taken: u32 = 2 + skip as u32 + reserved as u32;
    let height: u32 = (rect.height as u32).saturating_sub(taken);
    let row: u32 = point.1 as u32;
    let column: u32 = point.0 as u32;
    let left: u32 = rect.x as u32;
    if column > left && column + 1 < left + rect.width as u32 && row >= top && row - top < height {
        Some((row - top) as usize)
    } else {
        None
    }
}

/// The offset a list freshly drawn in `height` rows settles on: the
/// smallest one that shows `selected`.
pub open spec fn settled_offset(selected: int, height: int) -> int {
    if selected > height - 1 {
        selected - (height - 1)
    } else {
        0
    }
}

/// The entry drawn `row` rows below the list's first drawn one, when there
/// is one.
pub open spec fn entry_at(offset: int, row: int, len: int) -> Option<int> {
    if offset + row < len {
        Some(offset + row)
    } else {
        None
    }
}

fn entry(offset: usize, row: usize, len: usize) -> (r: Option<usize>)
    ensures
        opt_index(r) == entry_at(offset as int, row as int, len as int),
{
    if offset < len && row < len - offset {
        Some(offset + row)
    } else {
        None
    }
}

/// The entry a click selects in a list redrawn from `selected` every frame.
pub open spec fn list_row_at(
    point: Point,
    rect: Rect,
    selected: int,
    len: int,
    skip: u16,
    reserved: u16,
) -> Option<int> {
    match inner_row_at(point, rect, skip, reserved) {
        Some(row) => entry_at(
            settled_offset(selected, inner_height(rect, skip, reserved)),
            row,
            len,
        ),
        None => None,
    }
}

pub fn list_row(
    point: Point,
    rect: Rect,
    selected: usize,
    len: usize,
    skip: u16,
    reserved: u16,
) -> (r: Option<usize>)
    ensures
        opt_index(r) == list_row_at(point, rect, selected as int, len as int, skip, reserved),
{
    match inner_row(point, rect, skip, reserved) {
        Some(row) => {
            let taken: u32 = 2 + skip as u32 + reserved as u32;
            let height: usize = (rect.height as u32).saturating_sub(taken) as usize;
            let offset: usize = selected.saturating_sub(height - 1);
            entry(offset, row, len)
        },
        None => None,
    }
}

/// The entry a click selects in a list drawn from `offset`, the offset the
/// previous frame settled on.
pub open spec fn drawn_row_at(
    point: Point,
    rect: Rect,
    offset: int,
    len: int,
    skip: u16,
    reserved: u16,
) -> Option<int> {
    match inner_row_at(point, rect, skip, reserved) {
        Some(row) => entry_at(offset, row, len),
        None => None,
    }
}

pub fn drawn_list_row(
    point: Point,
    rect: Rect,
    offset: usize,
    len: usize,
    skip: u16,
    reserved: u16,
) -> (r: Option<usize>)
    ensures
        opt_index(r) == drawn_row_at(point, rect, offset as int, len as int, skip, reserved),
{
    match inner_row(point, rect, skip, reserved) {
        Some(row) => entry(offset, row, len),
        None => None,
    }
}

/// A click on a drawn row picks an entry of the list, and the one drawn at
/// that row: `row` rows below the entry at the list's offset.
pub proof fn a_row_click_picks_the_drawn_entry(
    point: Point,
    rect: Rect,
    offset: int,
    len: int,
    skip: u16,
    reserved: u16,
)
    requires
        0 <= offset,
    ensures
        drawn_row_at(point, rect, offset, len, skip, reserved) matches Some(i) ==> offset <= i < len
            && i - offset == point.1 - rect.y - 1 - skip,
        drawn_row_at(point, rect, offset, len, skip, reserved) is Some ==> rect.y < point.1
            < rect.y + rect.height - 1 && rect.x < point.0 < rect.x + rect.width - 1,
{
}

/// Clicking the row a freshly drawn list shows its selection on selects that
/// same entry again.
pub proof fn clicking_the_selection_keeps_it(
    column: u16,
    rect: Rect,
    selected: int,
    len: int,
    skip: u16,
    reserved: u16,
)
    requires
        0 <= selected < len,
        rect.fits(),
        rect.x < column < rect.x + rect.width - 1,
        inner_height(rect, skip, reserved) > 0,
    ensures
        ({
            let height = inner_height(rect, skip, reserved);
            let row = rect.y + 1 + skip + selected - settled_offset(selected, height);
            list_row_at((column, row as u16), rect, selected, len, skip, reserved) == Some(selected)
        }),
{
}

/// The entry a click selects in a borderless list under `header` rows.
pub open spec fn bare_row_at(
    point: Point,
    list: Rect,
    selected: int,
    len: int,
    header: u16,
) -> Option<int> {
    if list.holds(point) && point.1 - list.y >= header {
        entry_at(
            settled_offset(selected, list.height - header),
            point.1 - list.y - header,
            len,
        )
    } else {
        None
    }
}

/// Maps a click onto a row of a borderless list, with `header` leading rows
/// the clickable entries do not own.
pub fn bare_list_row(
    point: Point,
    list: Rect,
    selected: usize,
    len: usize,
    header: u16,
) -> (r: Option<usize>)
    ensures
        opt_index(r) == bare_row_at(point, list, selected as int, len as int, header),
{
    if !contains(list, point) || point.1 - list.y < header {
        return None;
    }
    let height: usize = (list.height - header) as usize;
    let row: usize = (point.1 - list.y - header) as usize;
    entry(selected.saturating_sub(height - 1), row, len)
}

/// `rect` without `top` rows above and `bottom` below.
pub open spec fn shrunk(rect: Rect, top: u16, bottom: u16) -> Rect {
    Rect { y: (rect.y + top) as u16, height: less(rect.height, top + bottom), ..rect }
}

pub fn inner_shrink(rect: Rect, top: u16, bottom: u16) -> (r: Rect)
    requires
        rect.y + top <= u16::MAX,
        top + bottom <= u16::MAX,
    ensures
        r == shrunk(rect, top, bottom),
{
    Rect { y: rect.y + top, height: rect.height.saturating_sub(top + bottom), ..rect }
}

/// The entry a click selects in a bordered pane's list drawn from `offset`,
/// both borders tested.
pub open spec fn pane_row_at(pane: Rect, point: Point, offset: int, len: int) -> Option<int> {
    if pane.inside_border().holds(point) {
        entry_at(offset, point.1 - pane.y - 1, len)
    } else {
        None
    }
}

/// A row of the board and shield pickers' list.
pub fn docs_list_row(pane: Rect, point: Point, offset: usize, len: usize) -> (r: Option<usize>)
    requires
        pane.x < u16::MAX,
        pane.y < u16::MAX,
    ensures
        opt_index(r) == pane_row_at(pane, point, offset as int, len as int),
{
    let inner = pane.inner();
    if !contains(inner, point) {
        return None;
    }
    entry(offset, (point.1 - inner.y) as usize, len)
}

/// A row of the build dashboard's list.
pub fn dashboard_list_row(pane: Rect, point: Point, offset: usize, len: usize) -> (r: Option<usize>)
    requires
        pane.x < u16::MAX,
        pane.y < u16::MAX,
    ensures
        opt_index(r) == pane_row_at(pane, point, offset as int, len as int),
{
    docs_list_row(pane, point, offset, len)
}

/// The columns tab `index` of a strip takes: its title with a pad on each
/// side.
pub open spec fn tab_width(titles: Seq<Seq<char>>, index: int) -> int {
    (2 + titles[index].len()) as int
}

/// The column tab `index` starts at, the strip starting at `start` and a
/// divider standing between neighbours.
pub open spec fn tab_start(titles: Seq<Seq<char>>, start: int, index: int) -> int
    decreases index,
{
    if index <= 0 {
        start
    } else {
        tab_start(titles, start, index - 1) + tab_width(titles, index - 1) + 1
    }
}

/// Whether `index` is the tab drawn at the point, on the top border of
/// `pane`, between its corners.
pub open spec fn on_tab(point: Point, pane: Rect, titles: Seq<Seq<char>>, index: int) -> bool {
    &&& point.1 == pane.y
    &&& pane.x + 1 <= point.0 < pane.x + pane.width - 1
    &&& 0 <= index < titles.len()
    &&& tab_start(titles, pane.x + 1, index) <= point.0 < tab_start(titles, pane.x + 1, index)
        + tab_width(titles, index)
}

/// The tabs of a strip lie side by side: the first just past the corner, each
/// as wide as its title and a pad on both sides, one divider between two.
pub proof fn tabs_lie_side_by_side(pane: Rect, titles: Seq<Seq<char>>, index: int, column: u16)
    requires
        0 <= index < titles.len(),
        pane.x < column < pane.x + pane.width - 1,
    ensures
        ({
            let start = tab_start(titles, pane.x + 1, index);
            let end = start + titles[index].len() + 2;
            &&& index == 0 ==> start == pane.x + 1
            &&& tab_start(titles, pane.x + 1, index + 1) == end + 1
            &&& on_tab((column, pane.y), pane, titles, index) <==> start <= column < end
            &&& column == end ==> !on_tab((column, pane.y), pane, titles, index + 1)
        }),
{
}

/// The titles of a strip.
pub open spec fn titles_of<T>(tabs: Seq<(T, String)>) -> Seq<Seq<char>> {
    tabs.map_values(|t: (T, String)| t.1@)
}

/// The tab a click on a pane's top-border strip selects; `None` when the
/// click missed every label, on a divider as past the last.
pub fn strip_tab<T: Copy>(point: Point, pane: Rect, tabs: &Vec<(T, String)>) -> (r: Option<T>)
    ensures
        r is Some ==> exists|i: int| #[trigger]
            on_tab(point, pane, titles_of(tabs@), i) && r == Some(tabs@[i].0),
        r is None ==> forall|i: int| !#[trigger] on_tab(point, pane, titles_of(tabs@), i),
{
    if point.1 != pane.y || point.0 <= pane.x || pane.width < 2 || point.0 - pane.x
        >= pane.width - 1 {
        return None;
    }
    let ghost titles = titles_of(tabs@);
    let column: usize = point.0 as usize;
    let mut x: usize = pane.x as usize + 1;
    let mut i: usize = 0;
    while i < tabs.len()
        invariant
            titles == titles_of(tabs@),
            i <= tabs.len(),
            point.1 == pane.y,
            pane.x + 1 <= point.0 < pane.x + pane.width - 1,
            column == point.0,
            x == tab_start(titles, pane.x + 1, i as int),
            x <= column,
            forall|j: int| 0 <= j < i ==> !#[trigger] on_tab(point, pane, titles, j),
        decreases tabs.len() - i,
    {
        let count: usize = tabs[i].1.as_str().unicode_len();
        let end: usize = x.saturating_add(count).saturating_add(2);
        assert(titles[i as int] == tabs@[i as int].1@);
        if column < end {
            assert(on_tab(point, pane, titles, i as int));
            return Some(tabs[i].0);
        }
        assert(!on_tab(point, pane, titles, i as int));
        if column == end {
            assert forall|j: int| !#[trigger] on_tab(point, pane, titles, j) by {
                if i < j {
                    starts_grow(titles, pane.x + 1, i + 1, j);
                }
            }
            return None;
        }
        x = end + 1;
        i = i + 1;
    }
    None
}

/// Tabs do not overlap: at most one is drawn at a point.
pub proof fn a_strip_click_is_unambiguous(
    point: Point,
    pane: Rect,
    titles: Seq<Seq<char>>,
    i: int,
    j: int,
)
    requires
        on_tab(point, pane, titles, i),
        on_tab(point, pane, titles, j),
    ensures
        i == j,
{
    if i < j {
        starts_grow(titles, pane.x + 1, i + 1, j);
    } else if j < i {
        starts_grow(titles, pane.x + 1, j + 1, i);
    }
}

proof fn starts_grow(titles: Seq<Seq<char>>, start: int, i: int, j: int)
    requires
        0 <= i <= j,
    ensures
        tab_start(titles, start, i) <= tab_start(titles, start, j),
    decreases j - i,
{
    if i < j {
        starts_grow(titles, start, i, j - 1);
    }
}

/// The tab drawn at the point, of a strip of tabs and titles.
pub open spec fn tab_at<T>(point: Point, pane: Rect, tabs: Seq<(T, Seq<char>)>) -> Option<T> {
    let titles = tabs.map_values(|t: (T, Seq<char>)| t.1);
    if exists|i: int| #[trigger] on_tab(point, pane, titles, i) {
        Some(tabs[choose|i: int| #[trigger] on_tab(point, pane, titles, i)].0)
    } else {
        None
    }
}

/// A strip with its titles as sequences of characters.
pub open spec fn strip_view<T>(tabs: Seq<(T, String)>) -> Seq<(T, Seq<char>)> {
    tabs.map_values(|t: (T, String)| (t.0, t.1@))
}

pub fn tab_under<T: Copy>(point: Point, pane: Rect, tabs: &Vec<(T, String)>) -> (r: Option<T>)
    ensures
        r == tab_at(point, pane, strip_view(tabs@)),
{
    let r = strip_tab(point, pane, tabs);
    proof {
        let titles = titles_of(tabs@);
        let seen = strip_view(tabs@);
        assert(seen.map_values(|t: (T, Seq<char>)| t.1) =~= titles);
        if r is Some {
            let i = choose|i: int| #[trigger]
                on_tab(point, pane, titles, i) && r == Some(tabs@[i].0);
            let j = choose|j: int| #[trigger] on_tab(point, pane, titles, j);
            a_strip_click_is_unambiguous(point, pane, titles, i, j);
            assert(seen[j].0 == tabs@[j].0);
        }
    }
    r
}

/// `ratatui::layout::Layout::vertical` with two fixed heights, then `areas`.
/// Both parts keep the area's columns and stay inside it: the solver's
/// required constraints put every edge between the area's own. Where the
/// area has room for both, they lie at its top, one under the other, each
/// of its height: then every stronger constraint is met, and the weaker
/// ones only grow what is left below. Which part gives way where there is
/// no room for both rests on the order the solver walks its tables in, and
/// stays unsaid.
#[verifier::external_body]
fn split_rows(area: Rect, top: u16, bottom: u16) -> (r: (Rect, Rect))
    requires
        area.fits(),
    ensures
        r.0.x == area.x && r.0.width == area.width && r.1.x == area.x && r.1.width == area.width,
        area.y <= r.0.y && r.0.y + r.0.height <= area.y + area.height,
        area.y <= r.1.y && r.1.y + r.1.height <= area.y + area.height,
        top + bottom <= area.height ==> r.0.y == area.y && r.0.height == top && r.1.y == area.y
            + top && r.1.height == bottom,
{
    let area = ratatui::layout::Rect::new(area.x, area.y, area.width, area.height);
    let [a, b] = ratatui::layout::Layout::vertical([
        ratatui::layout::Constraint::Length(top),
        ratatui::layout::Constraint::Length(bottom),
    ]).areas(area);
    (Rect::new(a.x, a.y, a.width, a.height), Rect::new(b.x, b.y, b.width, b.height))
}

/// `ratatui::layout::Layout::horizontal` with three fixed widths centred by
/// `Flex::Center`, then `areas`; the two outer parts. Both keep the area's
/// rows and stay inside it, by the solver's required constraints. Where the
/// area has room for all three, each has its width and the space left over
/// is split evenly around them, half a column rounding to the right. Which
/// part gives way where there is no room rests on the order the solver
/// walks its tables in, and stays unsaid.
#[verifier::external_body]
fn centred_pair(area: Rect, side: u16, gap: u16) -> (r: (Rect, Rect))
    requires
        area.fits(),
    ensures
        r.0.y == area.y && r.0.height == area.height && r.1.y == area.y && r.1.height
            == area.height,
        area.x <= r.0.x && r.0.x + r.0.width <= area.x + area.width,
        area.x <= r.1.x && r.1.x + r.1.width <= area.x + area.width,
        2 * side + gap <= area.width ==> r.0.x == area.x + (area.width - 2 * side - gap + 1) / 2
            && r.0.width == side && r.1.x == r.0.x + side + gap && r.1.width == side,
{
    let area = ratatui::layout::Rect::new(area.x, area.y, area.width, area.height);
    let [a, _, b] = ratatui::layout::Layout::horizontal([
        ratatui::layout::Constraint::Length(side),
        ratatui::layout::Constraint::Length(gap),
        ratatui::layout::Constraint::Length(side),
    ]).flex(ratatui::layout::Flex::Center).areas(area);
    (Rect::new(a.x, a.y, a.width, a.height), Rect::new(b.x, b.y, b.width, b.height))
}

/// Whether `buttons` are the `No` and `Yes` drawn in `popup`: both inside
/// it, on one row, and, in a popup with room for them, ten columns each,
/// four apart, centred in the three rows above the bottom border.
pub open spec fn buttons_of(popup: Rect, buttons: Option<(Rect, Rect)>) -> bool {
    match buttons {
        None => popup.width == 0 || popup.height == 0,
        Some((no, yes)) => {
            &&& popup.width > 0 && popup.height > 0
            &&& popup.covers(no) && popup.covers(yes)
            &&& no.y == yes.y && no.height == yes.height
            &&& popup.height >= 5 ==> no.y == popup.y + popup.height - 4 && no.height == 3
            &&& popup.width >= 26 ==> no.x == popup.x + 1 + (popup.width - 25) / 2 && no.width
                == 10 && yes.x == no.x + 14 && yes.width == 10
        },
    }
}

/// The `No` and `Yes` buttons of a confirm dialog drawn in `popup`: a
/// message over a three-row button strip, the pair centred in it.
pub fn confirm_buttons(popup: Rect) -> (r: Option<(Rect, Rect)>)
    requires
        popup.fits(),
    ensures
        buttons_of(popup, r),
{
    if popup.width == 0 || popup.height == 0 {
        return None;
    }
    let inner = popup.inner();
    let (_, buttons) = split_rows(inner, popup.height.saturating_sub(5), 3);
    let (no, yes) = centred_pair(buttons, 10, 4);
    Some((no, yes))
}

/// What a click inside a confirm dialog answers: `Some(false)` on `No`,
/// `Some(true)` on `Yes`, `None` beside both. `No` wins where they overlap.
pub open spec fn confirm_click(buttons: Option<(Rect, Rect)>, point: Point) -> Option<bool> {
    match buttons {
        Some((no, yes)) => if no.holds(point) {
            Some(false)
        } else if yes.holds(point) {
            Some(true)
        } else {
            None
        },
        None => None,
    }
}

pub fn confirm_answer_at(buttons: Option<(Rect, Rect)>, point: Point) -> (r: Option<bool>)
    ensures
        r == confirm_click(buttons, point),
{
    match buttons {
        Some((no, yes)) => {
            if contains(no, point) {
                Some(false)
            } else if contains(yes, point) {
                Some(true)
            } else {
                None
            }
        },
        None => None,
    }
}

} // verus!
