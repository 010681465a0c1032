//! The build dashboard window's keyboard and its door. Every printable
//! character is filter text there, so no action lives on a plain letter.

use vstd::prelude::*;
use vstd::string::*;

use crate::app::{App, DocsFocus, Drawn, Model};
use crate::effect::Task;
use crate::geometry;
use crate::geometry::page_step;
use crate::input::{KeyCode, KeyEvent, KeyModifiers};
use crate::overlay::Overlay;
use crate::panels::BuildAction;
use crate::text;

verus! {

broadcast use crate::overlay::group_overlay_models;

/// One tab's filter text, cursor and details scroll.
pub struct DashPane<T = String> {
    pub input: T,
    pub selected: usize,
    pub scroll: u16,
    /// Rows the tab lists under its filter.
    pub rows: usize,
}

impl DashPane<String> {
    pub open spec fn model(self) -> DashPane<Seq<char>> {
        DashPane {
            input: self.input@,
            selected: self.selected,
            scroll: self.scroll,
            rows: self.rows,
        }
    }
}

/// The build dashboard window's state.
pub struct DashboardState {
    /// The tab in view.
    pub tab: usize,
    pub focus: DocsFocus,
    /// One pane per tab, in strip order.
    pub panes: Vec<DashPane>,
    /// The tabs' names, in strip order.
    pub labels: Vec<String>,
    /// The Memory tab's place in the strip.
    pub memory_tab: usize,
    /// The row under the cursor generates the memory report.
    pub prompt_selected: bool,
}

/// The window's state as the contracts see it.
pub struct DashModel {
    pub tab: usize,
    pub focus: DocsFocus,
    pub panes: Seq<DashPane<Seq<char>>>,
    pub labels: Vec<String>,
    pub memory_tab: usize,
    pub prompt_selected: bool,
}

pub open spec fn panes_model(panes: Seq<DashPane>) -> Seq<DashPane<Seq<char>>> {
    panes.map_values(|p: DashPane| p.model())
}

impl DashboardState {
    pub open spec fn model(self) -> DashModel {
        DashModel {
            tab: self.tab,
            focus: self.focus,
            panes: panes_model(self.panes@),
            labels: self.labels,
            memory_tab: self.memory_tab,
            prompt_selected: self.prompt_selected,
        }
    }
}

/// A `u16` scroll moved down by `rows`, as far as it can be held.
pub open spec fn scroll_down(scroll: u16, rows: u16) -> u16 {
    if scroll + rows > u16::MAX {
        u16::MAX
    } else {
        (scroll + rows) as u16
    }
}

/// A `u16` scroll moved up by `rows`, no further than the top.
pub open spec fn scroll_up(scroll: u16, rows: u16) -> u16 {
    if scroll > rows {
        (scroll - rows) as u16
    } else {
        0
    }
}

/// The rows a page key moves by in a pane `viewport` rows high.
pub open spec fn page_rows(viewport: usize) -> u16 {
    if viewport == 0 {
        1
    } else {
        #[verifier::truncate]
        (viewport as u16)
    }
}

pub fn rows_per_page(viewport: usize) -> (r: u16)
    ensures
        r == page_rows(viewport),
{
    if viewport == 0 {
        1
    } else {
        #[verifier::truncate]
        (viewport as u16)
    }
}

/// The strip's titles: the window's mark rides the first.
pub open spec fn strip_title(glyph: Seq<char>, labels: Seq<String>, index: int) -> Seq<char> {
    if index == 0 && glyph.len() > 0 {
        glyph + " "@ + labels[index]@
    } else {
        labels[index]@
    }
}

impl Model {
    /// The pane of the tab in view.
    pub open spec fn dash_pane(self) -> Option<DashPane<Seq<char>>> {
        if self.dashboard.tab < self.dashboard.panes.len() {
            Some(self.dashboard.panes[self.dashboard.tab as int])
        } else {
            None
        }
    }

    pub open spec fn with_dash_pane(self, pane: DashPane<Seq<char>>) -> Model {
        self.with_dashboard(
            DashModel {
                panes: self.dashboard.panes.update(self.dashboard.tab as int, pane),
                ..self.dashboard
            },
        )
    }

    pub open spec fn dash_top(self) -> Model {
        self.with_drawn(Drawn { dashboard_list_offset: 0, ..self.drawn })
    }

    pub open spec fn report_loaded(self) -> Model {
        match self.panels.build {
            Some(panel) => self.task(
                Task::LoadReport { root: panel.root, tab: self.dashboard.tab },
            ),
            None => self,
        }
    }

    pub open spec fn dashboard_opened(self) -> Model {
        if self.panels.build is None {
            self.warn("no build directory --- configure a project first"@)
        } else {
            self.report_loaded().dash_top().shown(Overlay::BuildDashboard)
        }
    }

    pub open spec fn dash_tab(self, tab: usize) -> Model {
        if self.dashboard.tab == tab {
            self
        } else {
            self.with_dashboard(DashModel { tab, ..self.dashboard }).dash_top().report_loaded()
        }
    }

    /// One tab along the strip, never round its ends.
    pub open spec fn dash_stepped(self, right: bool) -> Model {
        self.dash_tab(
            geometry::paged(
                self.dashboard.tab as int,
                right,
                1,
                self.dashboard.labels@.len() as int,
            ) as usize,
        )
    }

    pub open spec fn dash_focused(self, focus: DocsFocus) -> Model {
        self.with_dashboard(DashModel { focus, ..self.dashboard })
    }

    pub open spec fn dash_selected(self, index: usize) -> Model {
        match self.dash_pane() {
            Some(pane) => self.with_dash_pane(DashPane { selected: index, ..pane }),
            None => self,
        }
    }

    pub open spec fn dash_scrolled(self, down: bool, rows: u16) -> Model {
        match self.dash_pane() {
            Some(pane) => self.with_dash_pane(
                DashPane {
                    scroll: if down {
                        scroll_down(pane.scroll, rows)
                    } else {
                        scroll_up(pane.scroll, rows)
                    },
                    ..pane
                },
            ),
            None => self,
        }
    }

    pub open spec fn dash_moved(self, down: bool, rows: usize) -> Model {
        match self.dash_pane() {
            Some(pane) => self.dash_selected(
                geometry::paged(
                    pane.selected as int,
                    down,
                    rows as int,
                    pane.rows as int,
                ) as usize,
            ),
            None => self,
        }
    }

    /// A changed filter: another list, from its top.
    pub open spec fn dash_filtered(self, input: Seq<char>) -> Model {
        match self.dash_pane() {
            Some(pane) => self.with_dash_pane(
                DashPane { input, selected: 0, scroll: 0, ..pane },
            ).dash_top(),
            None => self.dash_top(),
        }
    }

    /// A key while the window shows.
    #[verifier::opaque]
    pub open spec fn dashboard_window_key(self, key: KeyEvent) -> Model {
        let code = key.code;
        let details = self.dashboard.focus == DocsFocus::Details;
        let control = key.modifiers.control;
        let page = page_rows(self.drawn.dashboard_viewport);
        if code == KeyCode::Esc {
            self.closed()
        } else if code == KeyCode::Tab {
            self.dash_focused(self.dashboard.focus.other())
        } else if code == KeyCode::Left && control {
            self.dash_stepped(false)
        } else if code == KeyCode::Right && control {
            self.dash_stepped(true)
        } else if code == KeyCode::Backspace {
            match self.dash_pane() {
                Some(pane) => self.dash_filtered(text::popped(pane.input)),
                None => self.dash_top(),
            }
        } else if details && code == KeyCode::Up {
            self.dash_scrolled(false, 1)
        } else if details && code == KeyCode::Down {
            self.dash_scrolled(true, 1)
        } else if details && code == KeyCode::PageUp {
            self.dash_scrolled(false, page)
        } else if details && code == KeyCode::PageDown {
            self.dash_scrolled(true, page)
        } else if code == KeyCode::Up {
            self.dash_moved(false, 1)
        } else if code == KeyCode::Down {
            self.dash_moved(true, 1)
        } else if code == KeyCode::PageUp {
            self.dash_moved(false, 5)
        } else if code == KeyCode::PageDown {
            self.dash_moved(true, 5)
        } else if code == KeyCode::Home {
            self.dash_moved(false, usize::MAX)
        } else if code == KeyCode::End {
            self.dash_moved(true, usize::MAX)
        } else if code == KeyCode::Right {
            self.task(Task::ExpandRow)
        } else if code == KeyCode::Left {
            self.task(Task::CollapseRow)
        } else if code == KeyCode::Enter {
            if self.dashboard.prompt_selected {
                self.memory_report_asked()
            } else {
                self.task(Task::ToggleRow)
            }
        } else {
            match code {
                KeyCode::Char(c) => if control {
                    self
                } else {
                    match self.dash_pane() {
                        Some(pane) => self.dash_filtered(pane.input.push(c)),
                        None => self.dash_top(),
                    }
                },
                _ => self,
            }
        }
    }

    /// The memory report, the window closed first.
    pub open spec fn memory_report_asked(self) -> Model {
        self.closed().build_run(BuildAction::SizeReport)
    }

    /// The window back on the Memory tab, with the new report.
    pub open spec fn dashboard_reopened(self) -> Model {
        self.with_dashboard(
            DashModel { tab: self.dashboard.memory_tab, ..self.dashboard },
        ).task(Task::InvalidateMemoryReport).dash_top().report_loaded().shown(
            Overlay::BuildDashboard,
        )
    }
}

impl App {
    fn load_report(&mut self)
        ensures
            final(self)@ == old(self)@.report_loaded(),
    {
        let tab: usize = self.dashboard.tab;
        if let Some(panel) = &self.panels.build {
            let root = panel.root.clone();
            self.task(Task::LoadReport { root, tab });
        }
    }

    /// Opens the window over the build panel's project.
    pub fn open_build_dashboard(&mut self)
        ensures
            final(self)@ == old(self)@.dashboard_opened(),
    {
        if self.panels.build.is_none() {
            self.warn("no build directory --- configure a project first");
            return;
        }
        self.load_report();
        self.drawn.dashboard_list_offset = 0;
        self.show(Overlay::BuildDashboard);
    }

    /// Switches tab and loads what the new one needs.
    pub fn set_dashboard_tab(&mut self, tab: usize)
        ensures
            final(self)@ == old(self)@.dash_tab(tab),
    {
        if self.dashboard.tab == tab {
            return;
        }
        self.dashboard.tab = tab;
        self.drawn.dashboard_list_offset = 0;
        self.load_report();
    }

    /// Walks the strip one tab, clamped.
    pub fn step_dashboard_tab(&mut self, right: bool)
        ensures
            final(self)@ == old(self)@.dash_stepped(right),
    {
        let tab: usize = page_step(self.dashboard.tab, right, 1, self.dashboard.labels.len());
        self.set_dashboard_tab(tab);
    }

    /// Hands the keyboard to one half of the body.
    pub fn set_dashboard_focus(&mut self, focus: DocsFocus)
        ensures
            final(self)@ == old(self)@.dash_focused(focus),
    {
        self.dashboard.focus = focus;
    }

    /// Selects a row without activating it.
    pub fn set_dashboard_selection(&mut self, index: usize)
        ensures
            final(self)@ == old(self)@.dash_selected(index),
    {
        let tab: usize = self.dashboard.tab;
        if tab < self.dashboard.panes.len() {
            self.dashboard.panes[tab].selected = index;
            assert(panes_model(self.dashboard.panes@) =~= panes_model(
                old(self).dashboard.panes@,
            ).update(tab as int, self.dashboard.panes@[tab as int].model()));
        }
    }

    pub(crate) fn scroll_dashboard(&mut self, down: bool, rows: u16)
        ensures
            final(self)@ == old(self)@.dash_scrolled(down, rows),
    {
        let tab: usize = self.dashboard.tab;
        if tab < self.dashboard.panes.len() {
            let scroll: u16 = self.dashboard.panes[tab].scroll;
            self.dashboard.panes[tab].scroll = if down {
                scroll.saturating_add(rows)
            } else {
                scroll.saturating_sub(rows)
            };
            assert(panes_model(self.dashboard.panes@) =~= panes_model(
                old(self).dashboard.panes@,
            ).update(tab as int, self.dashboard.panes@[tab as int].model()));
        }
    }

    pub(crate) fn move_dashboard_cursor(&mut self, down: bool, rows: usize)
        ensures
            final(self)@ == old(self)@.dash_moved(down, rows),
    {
        let tab: usize = self.dashboard.tab;
        if tab < self.dashboard.panes.len() {
            let at: usize = self.dashboard.panes[tab].selected;
            let len: usize = self.dashboard.panes[tab].rows;
            self.set_dashboard_selection(page_step(at, down, rows, len));
        }
    }

    /// Takes a character into the filter, or its last one out of it.
    fn edit_dashboard_filter(&mut self, typed: Option<char>)
        ensures
            final(self)@ == match old(self)@.dash_pane() {
                Some(pane) => old(self)@.dash_filtered(
                    match typed {
                        Some(c) => pane.input.push(c),
                        None => text::popped(pane.input),
                    },
                ),
                None => old(self)@.dash_top(),
            },
    {
        let tab: usize = self.dashboard.tab;
        self.drawn.dashboard_list_offset = 0;
        if tab < self.dashboard.panes.len() {
            match typed {
                Some(c) => self.dashboard.panes[tab].input.push(c),
                None => {
                    let _ = self.dashboard.panes[tab].input.pop();
                },
            }
            self.dashboard.panes[tab].selected = 0;
            self.dashboard.panes[tab].scroll = 0;
            assert(panes_model(self.dashboard.panes@) =~= panes_model(
                old(self).dashboard.panes@,
            ).update(tab as int, self.dashboard.panes@[tab as int].model()));
        }
    }

    /// The strip's tabs and titles, in draw order.
    pub fn dashboard_strip_tabs(&self) -> (r: Vec<(usize, String)>)
        ensures
            r@.len() == self@.dashboard.labels@.len(),
            forall|i: int|
                0 <= i < r@.len() ==> (#[trigger] r@[i]).0 == i && r@[i].1@ == strip_title(
                    self@.prefs.glyphs.dashboard@,
                    self@.dashboard.labels@,
                    i,
                ),
    {
        let mut r: Vec<(usize, String)> = Vec::new();
        let mut i: usize = 0;
        let marked: bool = self.prefs.glyphs.dashboard.as_str().unicode_len() > 0;
        while i < self.dashboard.labels.len()
            invariant
                i <= self.dashboard.labels.len(),
                r@.len() == i,
                marked == (self.prefs.glyphs.dashboard@.len() > 0),
                forall|k: int|
                    0 <= k < i ==> (#[trigger] r@[k]).0 == k && r@[k].1@ == strip_title(
                        self.prefs.glyphs.dashboard@,
                        self.dashboard.labels@,
                        k,
                    ),
            decreases self.dashboard.labels.len() - i,
        {
            let title = if i == 0 && marked {
                text::join3(
                    self.prefs.glyphs.dashboard.as_str(),
                    " ",
                    self.dashboard.labels[i].as_str(),
                )
            } else {
                self.dashboard.labels[i].clone()
            };
            r.push((i, title));
            i = i + 1;
        }
        r
    }

    /// Handles a key while the window shows.
    pub fn on_build_dashboard_key(&mut self, key: KeyEvent)
        ensures
            final(self)@ == old(self)@.dashboard_window_key(key),
    {
        reveal(Model::dashboard_window_key);
        let code = key.code;
        let details: bool = self.dashboard.focus == DocsFocus::Details;
        let control: bool = key.modifiers.control;
        let page: u16 = rows_per_page(self.drawn.dashboard_viewport);
        if code == KeyCode::Esc {
            self.close();
        } else if code == KeyCode::Tab {
            self.dashboard.focus = self.dashboard.focus.toggled();
        } else if code == KeyCode::Left && control {
            self.step_dashboard_tab(false);
        } else if code == KeyCode::Right && control {
            self.step_dashboard_tab(true);
        } else if code == KeyCode::Backspace {
            self.edit_dashboard_filter(None);
        } else if details && code == KeyCode::Up {
            self.scroll_dashboard(false, 1);
        } else if details && code == KeyCode::Down {
            self.scroll_dashboard(true, 1);
        } else if details && code == KeyCode::PageUp {
            self.scroll_dashboard(false, page);
        } else if details && code == KeyCode::PageDown {
            self.scroll_dashboard(true, page);
        } else if code == KeyCode::Up {
            self.move_dashboard_cursor(false, 1);
        } else if code == KeyCode::Down {
            self.move_dashboard_cursor(true, 1);
        } else if code == KeyCode::PageUp {
            self.move_dashboard_cursor(false, 5);
        } else if code == KeyCode::PageDown {
            self.move_dashboard_cursor(true, 5);
        } else if code == KeyCode::Home {
            self.move_dashboard_cursor(false, usize::MAX);
        } else if code == KeyCode::End {
            self.move_dashboard_cursor(true, usize::MAX);
        } else if code == KeyCode::Right {
            self.task(Task::ExpandRow);
        } else if code == KeyCode::Left {
            self.task(Task::CollapseRow);
        } else if code == KeyCode::Enter {
            if self.dashboard.prompt_selected {
                self.generate_memory_report();
            } else {
                self.task(Task::ToggleRow);
            }
        } else if let KeyCode::Char(c) = code {
            if !control {
                self.edit_dashboard_filter(Some(c));
            }
        }
    }

    /// Runs the memory report, closing the window first.
    pub fn generate_memory_report(&mut self)
        ensures
            final(self)@ == old(self)@.memory_report_asked(),
    {
        self.close();
        self.run_build_action(BuildAction::SizeReport);
    }

    /// Re-opens the window on the Memory tab, its report fresh.
    pub fn reopen_dashboard_on_memory(&mut self)
        ensures
            final(self)@ == old(self)@.dashboard_reopened(),
    {
        self.dashboard.tab = self.dashboard.memory_tab;
        self.task(Task::InvalidateMemoryReport);
        self.drawn.dashboard_list_offset = 0;
        self.load_report();
        self.show(Overlay::BuildDashboard);
    }
}

/// Every plain letter is filter text: none of them closes the window, leaves
/// the tab or runs anything.
pub proof fn plain_letters_only_filter(m: Model, c: char)
    ensures
        ({
            let after = m.dashboard_window_key(
                KeyEvent { code: KeyCode::Char(c), modifiers: KeyModifiers::spec_none() },
            );
            &&& after.overlay == m.overlay
            &&& after.effects == m.effects
            &&& after.dashboard.tab == m.dashboard.tab
            &&& m.dash_pane() is Some ==> after.dash_pane() is Some
                && after.dash_pane().unwrap().input == m.dash_pane().unwrap().input.push(c)
        }),
{
    reveal(Model::dashboard_window_key);
}

/// The strip never wraps: at either end the step stays.
pub proof fn the_dashboard_strip_never_wraps(m: Model, right: bool)
    requires
        m.dashboard.tab < m.dashboard.labels@.len(),
    ensures
        m.dash_stepped(right).dashboard.tab < m.dashboard.labels@.len(),
        right && m.dashboard.tab == m.dashboard.labels@.len() - 1 ==> m.dash_stepped(right) == m,
        !right && m.dashboard.tab == 0 ==> m.dash_stepped(right) == m,
{
}

} // verus!
