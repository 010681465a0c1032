//! The log pane's store: the lines, and where the view sits in them.

use vstd::prelude::*;

verus! {

/// How serious a line is.
#[derive(Debug, Clone, Copy, PartialEq, Eq, Structural)]
pub enum Level {
    Info,
    Success,
    Warn,
    Error,
}

/// One line of the log.
#[derive(Debug, Clone)]
pub struct LogLine {
    pub level: Level,
    pub text: String,
}

/// A line as the contracts see it.
pub type LineModel = (Level, Seq<char>);

impl View for LogLine {
    type V = LineModel;

    open spec fn view(&self) -> LineModel {
        (self.level, self.text@)
    }
}

/// The lines of a log, as the contracts see them.
pub open spec fn lines_view(lines: Seq<LogLine>) -> Seq<LineModel> {
    lines.map_values(|l: LogLine| l@)
}

/// The log as the contracts see it: its lines, oldest first, and how many
/// rows the view is scrolled back from the tail.
pub struct LogModel {
    pub lines: Seq<LineModel>,
    pub scroll: nat,
}

impl LogModel {
    /// One more line. A view scrolled back stays on the rows it shows.
    pub open spec fn push(self, level: Level, text: Seq<char>) -> LogModel {
        LogModel {
            lines: self.lines.push((level, text)),
            scroll: if self.scroll == 0 {
                0
            } else if self.scroll < usize::MAX {
                self.scroll + 1
            } else {
                self.scroll
            },
        }
    }

    /// The lines one after the other.
    pub open spec fn push_all(self, lines: Seq<LineModel>) -> LogModel
        decreases lines.len(),
    {
        if lines.len() == 0 {
            self
        } else {
            self.push_all(lines.drop_last()).push(lines.last().0, lines.last().1)
        }
    }

    /// The furthest the view can be scrolled back in a pane `viewport` rows
    /// high: the oldest line at the top.
    pub open spec fn furthest(self, viewport: usize) -> nat {
        if self.lines.len() > viewport {
            (self.lines.len() - viewport) as nat
        } else {
            0
        }
    }

    /// `rows` towards older lines, as far as there are any.
    pub open spec fn scroll_up(self, rows: usize, viewport: usize) -> LogModel {
        LogModel {
            scroll: if self.scroll + rows < self.furthest(viewport) {
                self.scroll + rows as nat
            } else {
                self.furthest(viewport)
            },
            ..self
        }
    }

    /// `rows` towards the tail, stopping there.
    pub open spec fn scroll_down(self, rows: usize) -> LogModel {
        LogModel {
            scroll: if self.scroll > rows {
                (self.scroll - rows) as nat
            } else {
                0
            },
            ..self
        }
    }

    /// At the tail.
    pub open spec fn followed(self) -> LogModel {
        LogModel { scroll: 0, ..self }
    }
}

/// The log's lines and the view's position in them.
pub struct LogStore {
    lines: Vec<LogLine>,
    scroll: usize,
}

impl View for LogStore {
    type V = LogModel;

    closed spec fn view(&self) -> LogModel {
        LogModel { lines: lines_view(self.lines@), scroll: self.scroll as nat }
    }
}

impl LogStore {
    /// An empty log, at its tail.
    pub fn new() -> (r: LogStore)
        ensures
            r@ == (LogModel { lines: Seq::empty(), scroll: 0 }),
    {
        let r = LogStore { lines: Vec::new(), scroll: 0 };
        assert(r@.lines =~= Seq::empty());
        r
    }

    /// Appends a line.
    pub fn push(&mut self, level: Level, text: String)
        ensures
            final(self)@ == old(self)@.push(level, text@),
    {
        let line = LogLine { level, text };
        if self.scroll != 0 {
            self.scroll = self.scroll.saturating_add(1);
        }
        self.lines.push(line);
        assert(self@.lines =~= old(self)@.lines.push(line@));
    }

    /// Appends the lines in order.
    pub fn push_all(&mut self, lines: &Vec<LogLine>)
        ensures
            final(self)@ == old(self)@.push_all(lines_view(lines@)),
    {
        let mut i: usize = 0;
        assert(lines_view(lines@.take(0)) =~= Seq::empty());
        while i < lines.len()
            invariant
                i <= lines.len(),
                self@ == old(self)@.push_all(lines_view(lines@.take(i as int))),
            decreases lines.len() - i,
        {
            self.push(lines[i].level, lines[i].text.clone());
            proof {
                let done = lines_view(lines@.take(i + 1));
                assert(done.drop_last() =~= lines_view(lines@.take(i as int)));
                assert(done.last() == lines@[i as int]@);
            }
            i = i + 1;
        }
        assert(lines@.take(lines@.len() as int) =~= lines@);
    }

    /// Scrolls towards older lines, no further than keeps a pane `viewport`
    /// rows high full.
    pub fn scroll_up(&mut self, rows: usize, viewport: usize)
        ensures
            final(self)@ == old(self)@.scroll_up(rows, viewport),
    {
        let furthest: usize = self.lines.len().saturating_sub(viewport);
        let wanted: usize = self.scroll.saturating_add(rows);
        self.scroll = if wanted < furthest {
            wanted
        } else {
            furthest
        };
        assert(self@.lines =~= old(self)@.lines);
    }

    /// Scrolls towards the tail.
    pub fn scroll_down(&mut self, rows: usize)
        ensures
            final(self)@ == old(self)@.scroll_down(rows),
    {
        self.scroll = self.scroll.saturating_sub(rows);
    }

    /// Re-pins the view to the tail.
    pub fn scroll_to_bottom(&mut self)
        ensures
            final(self)@ == old(self)@.followed(),
    {
        self.scroll = 0;
    }

    /// How many rows the view is scrolled back.
    pub fn scroll(&self) -> (r: usize)
        ensures
            r == self@.scroll,
    {
        self.scroll
    }

    /// Whether the view is at the tail.
    pub fn is_following(&self) -> (r: bool)
        ensures
            r == (self@.scroll == 0),
    {
        self.scroll == 0
    }

    /// How many lines there are.
    pub fn len(&self) -> (r: usize)
        ensures
            r == self@.lines.len(),
    {
        self.lines.len()
    }

    /// The line at `index`, if there is one.
    pub fn line(&self, index: usize) -> (r: Option<&LogLine>)
        ensures
            r is Some == (index < self@.lines.len()),
            r matches Some(line) ==> line@ == self@.lines[index as int],
    {
        if index < self.lines.len() {
            Some(&self.lines[index])
        } else {
            None
        }
    }
}

/// A line arriving while the view is scrolled back does not move it: the
/// rows on screen stay the rows on screen.
pub proof fn new_lines_hold_a_scrolled_view(log: LogModel, level: Level, text: Seq<char>)
    requires
        0 < log.scroll < usize::MAX,
    ensures
        log.push(level, text).lines.len() - log.push(level, text).scroll == log.lines.len()
            - log.scroll,
{
}

/// At the tail, the view stays at the tail.
pub proof fn new_lines_keep_a_following_view_following(
    log: LogModel,
    level: Level,
    text: Seq<char>,
)
    requires
        log.scroll == 0,
    ensures
        log.push(level, text).scroll == 0,
{
}

/// The lines that report an error.
pub open spec fn errors_only(lines: Seq<LineModel>) -> Seq<LineModel> {
    lines.filter(|l: LineModel| l.0 == Level::Error)
}

/// Picks the lines that report an error, in order.
pub fn errors_of(lines: &Vec<LogLine>) -> (r: Vec<LogLine>)
    ensures
        lines_view(r@) == errors_only(lines_view(lines@)),
{
    let mut r: Vec<LogLine> = Vec::new();
    let mut i: usize = 0;
    let ghost all = lines_view(lines@);
    let ghost keep = |l: LineModel| l.0 == Level::Error;
    assert(lines_view(r@) =~= all.take(0).filter(keep)) by {
        reveal(Seq::filter);
    }
    while i < lines.len()
        invariant
            i <= lines.len(),
            all == lines_view(lines@),
            keep == (|l: LineModel| l.0 == Level::Error),
            lines_view(r@) == all.take(i as int).filter(keep),
        decreases lines.len() - i,
    {
        let ghost before = lines_view(r@);
        proof {
            let t = all.take(i + 1);
            assert(t.drop_last() =~= all.take(i as int));
            assert(t.last() == lines@[i as int]@);
            reveal(Seq::filter);
        }
        if lines[i].level == Level::Error {
            let line = LogLine { level: lines[i].level, text: lines[i].text.clone() };
            let ghost kept = line@;
            r.push(line);
            assert(lines_view(r@) =~= before.push(kept));
        }
        i = i + 1;
    }
    assert(all.take(i as int) =~= all);
    r
}

/// Lines pushed together follow what is there, in the order they came.
pub proof fn pushed_lines_keep_their_order(log: LogModel, lines: Seq<LineModel>)
    ensures
        log.push_all(lines).lines == log.lines + lines,
    decreases lines.len(),
{
    if lines.len() == 0 {
        assert(log.lines + lines =~= log.lines);
    } else {
        pushed_lines_keep_their_order(log, lines.drop_last());
        assert(lines.last() == (lines.last().0, lines.last().1));
        assert((log.lines + lines.drop_last()).push(lines.last()) =~= log.lines + lines);
    }
}

/// Scrolling up shows older lines as far as there are any, scrolling down
/// comes back, and the tail is where it ends.
pub proof fn scrolling_the_log_comes_back(log: LogModel, rows: usize, viewport: usize)
    requires
        log.scroll + rows + viewport <= log.lines.len(),
    ensures
        log.scroll_up(rows, viewport).scroll == log.scroll + rows,
        log.scroll_up(rows, viewport).scroll_down(rows) == log,
        log.followed().scroll == 0,
        log.scroll_up(usize::MAX, viewport).lines == log.lines,
{
}

/// The errors picked out are errors, and every error is picked.
pub proof fn picked_errors_are_all_the_errors(lines: Seq<LineModel>, line: LineModel)
    ensures
        errors_only(lines).contains(line) ==> line.0 == Level::Error,
        lines.contains(line) && line.0 == Level::Error ==> errors_only(lines).contains(line),
{
    let keep = |l: LineModel| l.0 == Level::Error;
    if errors_only(lines).contains(line) {
        let i = choose|i: int| 0 <= i < errors_only(lines).len() && errors_only(lines)[i] == line;
        lines.lemma_filter_pred(keep, i);
    }
    if lines.contains(line) && line.0 == Level::Error {
        let i = choose|i: int| 0 <= i < lines.len() && lines[i] == line;
        lines.lemma_filter_contains(keep, i);
    }
}

} // verus!
