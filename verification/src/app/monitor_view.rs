//! Row 3's Monitor tab: which console it shows, whether one is live, and
//! where the view sits in it.
//!
//! The scroll is anchored to the top of the document, so live output never
//! shifts a scrolled view.

use vstd::prelude::*;

use crate::app::{App, Focus, LogTab, Model, Monitor, Panels};
use crate::panels::{Browser, PaneError, PaneState};

verus! {

/// Which live feed the Monitor tab is showing.
#[derive(Debug, Clone, Copy, PartialEq, Eq, Structural)]
pub enum MonitorSource {
    Device,
    Flash,
    /// A script run on the device.
    Run,
    /// A build command.
    Build,
}

/// Scroll state for the Monitor tab: at the tail, or from the top.
#[derive(Debug, Clone, Copy, PartialEq, Eq, Structural)]
pub struct MonitorScroll {
    pub following: bool,
    /// First visible row; meaningful while scrolled.
    pub offset: usize,
}

/// Row metrics of the console on screen, published by the renderer.
#[derive(Debug, Clone, Copy, PartialEq, Eq, Structural)]
pub struct MonitorView {
    pub rows: usize,
    pub viewport: usize,
    pub width: usize,
}

impl MonitorScroll {
    /// At the tail.
    pub open spec fn tail() -> MonitorScroll {
        MonitorScroll { following: true, offset: 0 }
    }

    /// The scroll `rows` towards older output, the last offset being `max`.
    pub open spec fn up(self, rows: usize, max: usize) -> MonitorScroll {
        let from = if self.following {
            max
        } else {
            self.offset
        };
        MonitorScroll {
            following: false,
            offset: if from > rows {
                (from - rows) as usize
            } else {
                0
            },
        }
    }

    /// The scroll `rows` towards newer output: reaching the bottom resumes
    /// following.
    pub open spec fn down(self, rows: usize, max: usize) -> MonitorScroll {
        if self.following {
            self
        } else {
            let offset = if self.offset + rows < max {
                (self.offset + rows) as usize
            } else {
                max
            };
            MonitorScroll { following: offset >= max, offset }
        }
    }
}

impl Default for MonitorScroll {
    fn default() -> (r: MonitorScroll)
        ensures
            r == MonitorScroll::tail(),
    {
        MonitorScroll { following: true, offset: 0 }
    }
}

impl MonitorView {
    /// The highest first-visible row.
    pub open spec fn max_offset(self) -> usize {
        if self.rows > self.viewport {
            (self.rows - self.viewport) as usize
        } else {
            0
        }
    }
}

impl Model {
    /// An interactive device session is taking every keystroke.
    pub open spec fn monitor_active(self) -> bool {
        &&& self.screen.focus == Focus::Logs
        &&& self.screen.log_tab == LogTab::Monitor
        &&& self.monitor.source == MonitorSource::Device
        &&& self.monitor.device is Some
    }

    /// The Monitor tab is showing a run's output.
    pub open spec fn run_view(self) -> bool {
        &&& self.screen.focus == Focus::Logs
        &&& self.screen.log_tab == LogTab::Monitor
        &&& self.monitor.source == MonitorSource::Run
    }

    /// ... and the run is alive.
    pub open spec fn run_active(self) -> bool {
        self.run_view() && self.monitor.run is Some
    }

    /// The shell's tab is showing, focused, and the shell is attached.
    pub open spec fn terminal_active(self) -> bool {
        &&& self.screen.focus == Focus::Logs
        &&& self.screen.log_tab == LogTab::Terminal
        &&& self.terminal.process is Some
        &&& !self.terminal.detached
    }

    /// The Monitor tab on another feed, at its tail.
    pub open spec fn sourced(self, source: MonitorSource) -> Model {
        self.with_monitor(Monitor { source, scroll: MonitorScroll::tail(), ..self.monitor })
    }

    pub open spec fn scrolled(self, scroll: MonitorScroll) -> Model {
        self.with_monitor(Monitor { scroll, ..self.monitor })
    }

    pub open spec fn monitor_up(self, rows: usize) -> Model {
        self.scrolled(
            self.monitor.scroll.up(rows, self.monitor.view.max_offset()),
        )
    }

    pub open spec fn monitor_down(self, rows: usize) -> Model {
        self.scrolled(
            self.monitor.scroll.down(rows, self.monitor.view.max_offset()),
        )
    }

    /// The device pane showing an error.
    pub open spec fn pane_failed(self, error: PaneError) -> Model {
        self.with_panels(
            Panels {
                browser: match self.panels.browser {
                    Some(browser) => Some(
                        Browser { device_state: PaneState::Failed(error), ..browser },
                    ),
                    None => None,
                },
                ..self.panels
            },
        )
    }
}

impl App {
    pub fn set_device_pane_error(&mut self, error: PaneError)
        ensures
            final(self)@ == old(self)@.pane_failed(error),
    {
        if let Some(browser) = &mut self.panels.browser {
            browser.device_state = PaneState::Failed(error);
        }
    }

    /// Whether an interactive device session is taking every keystroke.
    pub fn is_monitor_active(&self) -> (r: bool)
        ensures
            r == self@.monitor_active(),
    {
        self.screen.focus == Focus::Logs && self.screen.log_tab == LogTab::Monitor
            && self.monitor.source == MonitorSource::Device
            && self.monitor.device.is_some()
    }

    /// Whether the Monitor tab shows a run that is still alive.
    pub fn is_run_active(&self) -> (r: bool)
        ensures
            r == self@.run_active(),
    {
        self.is_run_view() && self.monitor.run.is_some()
    }

    /// Whether the Monitor tab shows a run's output.
    pub fn is_run_view(&self) -> (r: bool)
        ensures
            r == self@.run_view(),
    {
        self.screen.focus == Focus::Logs && self.screen.log_tab == LogTab::Monitor
            && self.monitor.source == MonitorSource::Run
    }

    /// Whether the shell owns the keyboard.
    pub fn is_terminal_active(&self) -> (r: bool)
        ensures
            r == self@.terminal_active(),
    {
        self.screen.focus == Focus::Logs && self.screen.log_tab == LogTab::Terminal
            && self.terminal.process.is_some() && !self.terminal.detached
    }

    /// Where the device monitor's typed text will land; `None` unless the
    /// session owns the keyboard.
    pub fn monitor_cursor(&self) -> (r: Option<usize>)
        ensures
            r == if self@.monitor_active() {
                Some(self@.monitor.column)
            } else {
                None
            },
    {
        if self.is_monitor_active() {
            Some(self.monitor.column)
        } else {
            None
        }
    }

    /// Switches the Monitor tab's feed and re-pins it to the tail.
    pub fn set_monitor_source(&mut self, source: MonitorSource)
        ensures
            final(self)@ == old(self)@.sourced(source),
    {
        self.monitor.source = source;
        self.monitor.scroll = MonitorScroll::default();
    }

    /// The highest first-visible row of the Monitor console.
    pub fn monitor_max_offset(&self) -> (r: usize)
        ensures
            r == self@.monitor.view.max_offset(),
    {
        self.monitor.view.rows.saturating_sub(self.monitor.view.viewport)
    }

    /// Scrolls the Monitor tab towards older output, leaving the tail.
    pub fn monitor_scroll_up(&mut self, rows: usize)
        ensures
            final(self)@ == old(self)@.monitor_up(rows),
    {
        let max: usize = self.monitor_max_offset();
        self.monitor.scroll.offset = if self.monitor.scroll.following {
            max.saturating_sub(rows)
        } else {
            self.monitor.scroll.offset.saturating_sub(rows)
        };
        self.monitor.scroll.following = false;
    }

    /// Scrolls the Monitor tab towards newer output; reaching the bottom
    /// resumes following.
    pub fn monitor_scroll_down(&mut self, rows: usize)
        ensures
            final(self)@ == old(self)@.monitor_down(rows),
    {
        if self.monitor.scroll.following {
            return;
        }
        let max: usize = self.monitor_max_offset();
        let wanted: usize = self.monitor.scroll.offset.saturating_add(rows);
        let offset: usize = if wanted < max {
            wanted
        } else {
            max
        };
        self.monitor.scroll = MonitorScroll { following: offset >= max, offset };
    }
}

/// Scrolling up leaves the tail, and never scrolls past the first row;
/// scrolling down by at least as much resumes following.
pub proof fn scrolling_leaves_and_resumes_the_tail(
    scroll: MonitorScroll,
    rows: usize,
    more: usize,
    max: usize,
)
    requires
        scroll.following,
        rows <= more,
    ensures
        !scroll.up(rows, max).following,
        scroll.up(rows, max).offset <= max,
        scroll.up(rows, max).down(more, max).following,
{
}

/// A step down never goes past the last offset, and follows exactly there.
pub proof fn scrolling_down_is_clamped(scroll: MonitorScroll, rows: usize, max: usize)
    requires
        !scroll.following,
    ensures
        scroll.down(rows, max).offset <= max,
        scroll.down(rows, max).following == (scroll.down(rows, max).offset == max),
{
}

/// A new feed starts at its tail, whatever the last one was scrolled to.
pub proof fn a_new_feed_starts_at_its_tail(m: Model, source: MonitorSource)
    ensures
        m.sourced(source).monitor.scroll.following,
        m.sourced(source).monitor.source == source,
{
}

/// The keyboard has one owner: a device monitor, a shell and a run are never
/// active together.
pub proof fn the_keyboard_has_one_owner(m: Model)
    ensures
        !(m.monitor_active() && m.terminal_active()),
        !(m.monitor_active() && m.run_active()),
        !(m.run_active() && m.terminal_active()),
{
}

} // verus!
