//! The colour theme and the icon set a session renders in.

use vstd::prelude::*;
use vstd::string::*;

use crate::backend::BackendKind;
use crate::text;

verus! {

/// How many themes there are to name.
pub const THEME_COUNT: usize = 16;

/// Catppuccin Mocha's place among the themes.
pub const CATPPUCCIN_MOCHA: usize = 3;

/// Tokyo Night's place among the themes.
pub const TOKYO_NIGHT: usize = 7;

/// Everforest's place among the themes.
pub const EVERFOREST: usize = 13;

/// The slug of the theme at `index`, as a configuration file writes it.
pub open spec fn theme_slug(index: usize) -> Seq<char> {
    match index {
        0 => "dracula"@,
        1 => "one-dark-pro"@,
        2 => "nord"@,
        3 => "catppuccin-mocha"@,
        4 => "catppuccin-latte"@,
        5 => "gruvbox-dark"@,
        6 => "gruvbox-light"@,
        7 => "tokyo-night"@,
        8 => "solarized-dark"@,
        9 => "solarized-light"@,
        10 => "monokai-pro"@,
        11 => "rose-pine"@,
        12 => "kanagawa"@,
        13 => "everforest"@,
        14 => "cyberpunk"@,
        _ => "midnight-commander"@,
    }
}

/// The name of the theme at `index`, as a list shows it.
pub open spec fn theme_title(index: usize) -> Seq<char> {
    match index {
        0 => "Dracula"@,
        1 => "One Dark Pro"@,
        2 => "Nord"@,
        3 => "Catppuccin Mocha"@,
        4 => "Catppuccin Latte"@,
        5 => "Gruvbox Dark"@,
        6 => "Gruvbox Light"@,
        7 => "Tokyo Night"@,
        8 => "Solarized Dark"@,
        9 => "Solarized Light"@,
        10 => "Monokai Pro"@,
        11 => "Rosé Pine"@,
        12 => "Kanagawa"@,
        13 => "Everforest"@,
        14 => "Cyberpunk"@,
        _ => "Midnight Commander"@,
    }
}

/// The theme a text names, by its place among the themes.
pub uninterp spec fn theme_parsed(s: Seq<char>) -> Option<usize>;

/// `ratatui_themes::ThemeName::slug` of the theme at `index` of
/// `ThemeName::all`: the sixteen slugs, in that order.
#[verifier::external_body]
fn slug_at(index: usize) -> (r: &'static str)
    requires
        index < THEME_COUNT,
    ensures
        r@ == theme_slug(index),
{
    ratatui_themes::ThemeName::all()[index].slug()
}

/// `ratatui_themes::ThemeName::display_name` of the theme at `index` of
/// `ThemeName::all`: the sixteen names, in that order.
#[verifier::external_body]
fn title_at(index: usize) -> (r: &'static str)
    requires
        index < THEME_COUNT,
    ensures
        r@ == theme_title(index),
{
    ratatui_themes::ThemeName::all()[index].display_name()
}

/// `ratatui_themes::ThemeName`'s `FromStr`, the theme found given by its
/// place in `ThemeName::all`. The answer depends on the text alone, is one of
/// the sixteen, and a theme's own slug is among the texts that name it; which
/// other spellings do stays unsaid.
#[verifier::external_body]
fn parse_theme(s: &str) -> (r: Option<usize>)
    ensures
        r == theme_parsed(s@),
        r matches Some(i) ==> i < THEME_COUNT,
        forall|i: usize| i < THEME_COUNT && s@ == #[trigger] theme_slug(i) ==> r == Some(i),
{
    let name = s.parse::<ratatui_themes::ThemeName>().ok()?;
    ratatui_themes::ThemeName::all().iter().position(|theme| *theme == name)
}

/// The theme the user picked: a fixed one, or whichever suits the backend.
#[derive(Debug, Clone, Copy, PartialEq, Eq, Structural)]
pub enum ThemeChoice {
    Auto,
    /// The theme at this place among the sixteen.
    Named(usize),
}

impl ThemeChoice {
    /// Whether the theme named is one there is.
    pub open spec fn valid(self) -> bool {
        self matches ThemeChoice::Named(i) ==> i < THEME_COUNT
    }

    /// The choice in a picker's row `index`: `Auto` leads, then the themes.
    pub open spec fn spec_at(index: int) -> Option<ThemeChoice> {
        if index == 0 {
            Some(ThemeChoice::Auto)
        } else if 0 < index <= THEME_COUNT {
            Some(ThemeChoice::Named((index - 1) as usize))
        } else {
            None
        }
    }

    pub fn at(index: usize) -> (r: Option<ThemeChoice>)
        ensures
            r == Self::spec_at(index as int),
            r matches Some(choice) ==> choice.valid(),
    {
        if index == 0 {
            Some(ThemeChoice::Auto)
        } else if index <= THEME_COUNT {
            Some(ThemeChoice::Named(index - 1))
        } else {
            None
        }
    }

    /// How many rows the picker has.
    pub fn count() -> (r: usize)
        ensures
            r == THEME_COUNT + 1,
    {
        THEME_COUNT + 1
    }

    /// The row the choice is in.
    pub open spec fn spec_row(self) -> int {
        match self {
            ThemeChoice::Auto => 0,
            ThemeChoice::Named(i) => if i < THEME_COUNT {
                i + 1
            } else {
                0
            },
        }
    }

    pub fn row(self) -> (r: usize)
        ensures
            r == self.spec_row(),
    {
        match self {
            ThemeChoice::Auto => 0,
            ThemeChoice::Named(i) => if i < THEME_COUNT {
                i + 1
            } else {
                0
            },
        }
    }

    pub open spec fn spec_slug(self) -> Seq<char> {
        match self {
            ThemeChoice::Auto => "auto"@,
            ThemeChoice::Named(i) => theme_slug(i),
        }
    }

    /// How a configuration file writes the choice.
    pub fn slug(self) -> (r: &'static str)
        requires
            self.valid(),
        ensures
            r@ == self.spec_slug(),
    {
        match self {
            ThemeChoice::Auto => "auto",
            ThemeChoice::Named(i) => slug_at(i),
        }
    }

    /// How the picker shows the choice.
    pub fn display_name(self) -> (r: &'static str)
        requires
            self.valid(),
        ensures
            r@ == match self {
                ThemeChoice::Auto => "Auto"@,
                ThemeChoice::Named(i) => theme_title(i),
            },
    {
        match self {
            ThemeChoice::Auto => "Auto",
            ThemeChoice::Named(i) => title_at(i),
        }
    }

    /// The choice a slug stands for, when it stands for one.
    pub open spec fn spec_from_slug(slug: Seq<char>) -> Option<ThemeChoice> {
        if slug == "auto"@ || slug == "Auto"@ {
            Some(ThemeChoice::Auto)
        } else {
            match theme_parsed(slug) {
                Some(i) => Some(ThemeChoice::Named(i)),
                None => None,
            }
        }
    }

    pub fn from_slug(slug: &str) -> (r: Option<ThemeChoice>)
        ensures
            r == Self::spec_from_slug(slug@),
            r matches Some(choice) ==> choice.valid(),
            forall|i: usize| i < THEME_COUNT && slug@ == #[trigger] theme_slug(i) ==> r == Some(
                ThemeChoice::Named(i),
            ),
    {
        proof {
            slugs_are_not_auto();
        }
        if text::same(slug, "auto") || text::same(slug, "Auto") {
            return Some(ThemeChoice::Auto);
        }
        match parse_theme(slug) {
            Some(i) => Some(ThemeChoice::Named(i)),
            None => None,
        }
    }

    /// The theme the choice renders in under `backend`: a named one is
    /// itself, `Auto` follows the backend.
    pub open spec fn resolved(self, backend: Option<BackendKind>) -> int {
        match self {
            ThemeChoice::Named(i) => i as int,
            ThemeChoice::Auto => match backend {
                Some(BackendKind::Zephyr) => CATPPUCCIN_MOCHA as int,
                Some(BackendKind::MicroPython) => EVERFOREST as int,
                None => TOKYO_NIGHT as int,
            },
        }
    }

    pub fn resolve(self, backend: Option<BackendKind>) -> (r: usize)
        ensures
            r == self.resolved(backend),
    {
        match self {
            ThemeChoice::Named(i) => i,
            ThemeChoice::Auto => match backend {
                Some(BackendKind::Zephyr) => CATPPUCCIN_MOCHA,
                Some(BackendKind::MicroPython) => EVERFOREST,
                None => TOKYO_NIGHT,
            },
        }
    }
}

/// No theme's slug spells `auto`.
proof fn slugs_are_not_auto()
    ensures
        forall|i: usize| i < THEME_COUNT ==> #[trigger] theme_slug(i) != "auto"@ && theme_slug(i)
            != "Auto"@,
{
    reveal_strlit("auto");
    reveal_strlit("Auto");
    reveal_strlit("dracula");
    reveal_strlit("one-dark-pro");
    reveal_strlit("nord");
    reveal_strlit("catppuccin-mocha");
    reveal_strlit("catppuccin-latte");
    reveal_strlit("gruvbox-dark");
    reveal_strlit("gruvbox-light");
    reveal_strlit("tokyo-night");
    reveal_strlit("solarized-dark");
    reveal_strlit("solarized-light");
    reveal_strlit("monokai-pro");
    reveal_strlit("rose-pine");
    reveal_strlit("kanagawa");
    reveal_strlit("everforest");
    reveal_strlit("cyberpunk");
    reveal_strlit("midnight-commander");
    assert("nord"@[0] != "auto"@[0]);
    assert("nord"@[0] != "Auto"@[0]);
}

/// Every picker row's choice is in that row.
pub proof fn theme_rows_round_trip(index: int)
    requires
        0 <= index <= THEME_COUNT,
    ensures
        ThemeChoice::spec_at(index) matches Some(choice) && choice.spec_row() == index,
{
}

/// The theme choice stored under `slug`: Tokyo Night when nothing is stored
/// or nothing goes by that slug.
pub open spec fn stored_theme(slug: Option<Seq<char>>) -> ThemeChoice {
    match slug {
        Some(slug) => match ThemeChoice::spec_from_slug(slug) {
            Some(choice) => choice,
            None => ThemeChoice::Named(TOKYO_NIGHT),
        },
        None => ThemeChoice::Named(TOKYO_NIGHT),
    }
}

pub fn resolve_theme(slug: Option<&str>) -> (r: ThemeChoice)
    ensures
        r == stored_theme(
            match slug {
                Some(s) => Some(s@),
                None => None,
            },
        ),
        r.valid(),
{
    match slug {
        Some(slug) => match ThemeChoice::from_slug(slug) {
            Some(choice) => choice,
            None => ThemeChoice::Named(TOKYO_NIGHT),
        },
        None => ThemeChoice::Named(TOKYO_NIGHT),
    }
}

/// How the button glyphs are rendered.
#[derive(Debug, Clone, Copy, PartialEq, Eq, Structural)]
pub enum IconSet {
    Unicode,
    Nerd,
    /// No glyphs at all.
    Plain,
}

impl IconSet {
    pub open spec fn spec_slug(self) -> Seq<char> {
        match self {
            IconSet::Unicode => "unicode"@,
            IconSet::Nerd => "nerd"@,
            IconSet::Plain => "none"@,
        }
    }

    /// How a configuration file writes the set.
    pub fn slug(self) -> (r: &'static str)
        ensures
            r@ == self.spec_slug(),
    {
        match self {
            IconSet::Unicode => "unicode",
            IconSet::Nerd => "nerd",
            IconSet::Plain => "none",
        }
    }

    /// The set a slug stands for, when it stands for one.
    pub open spec fn spec_from_slug(slug: Seq<char>) -> Option<IconSet> {
        if slug == "unicode"@ {
            Some(IconSet::Unicode)
        } else if slug == "nerd"@ {
            Some(IconSet::Nerd)
        } else if slug == "none"@ {
            Some(IconSet::Plain)
        } else {
            None
        }
    }

    pub fn from_slug(slug: &str) -> (r: Option<IconSet>)
        ensures
            r == Self::spec_from_slug(slug@),
    {
        if text::same(slug, "unicode") {
            Some(IconSet::Unicode)
        } else if text::same(slug, "nerd") {
            Some(IconSet::Nerd)
        } else if text::same(slug, "none") {
            Some(IconSet::Plain)
        } else {
            None
        }
    }

    /// The next set of the cycle.
    pub open spec fn spec_next(self) -> IconSet {
        match self {
            IconSet::Unicode => IconSet::Nerd,
            IconSet::Nerd => IconSet::Plain,
            IconSet::Plain => IconSet::Unicode,
        }
    }

    pub fn next(self) -> (r: IconSet)
        ensures
            r == self.spec_next(),
    {
        match self {
            IconSet::Unicode => IconSet::Nerd,
            IconSet::Nerd => IconSet::Plain,
            IconSet::Plain => IconSet::Unicode,
        }
    }
}

/// The icon set stored under `slug`: plain Unicode when nothing is stored or
/// the value is not one of the three.
pub open spec fn stored_icons(slug: Option<Seq<char>>) -> IconSet {
    match slug {
        Some(slug) => match IconSet::spec_from_slug(slug) {
            Some(icons) => icons,
            None => IconSet::Unicode,
        },
        None => IconSet::Unicode,
    }
}

pub fn resolve_icons(slug: Option<&str>) -> (r: IconSet)
    ensures
        r == stored_icons(
            match slug {
                Some(s) => Some(s@),
                None => None,
            },
        ),
{
    match slug {
        Some(slug) => match IconSet::from_slug(slug) {
            Some(icons) => icons,
            None => IconSet::Unicode,
        },
        None => IconSet::Unicode,
    }
}

/// An icon set read back from the slug it is stored under is itself, and
/// three steps of the cycle are none.
pub proof fn icon_sets_round_trip(icons: IconSet)
    ensures
        stored_icons(Some(icons.spec_slug())) == icons,
        icons.spec_next().spec_next().spec_next() == icons,
{
    reveal_strlit("unicode");
    reveal_strlit("nerd");
    reveal_strlit("none");
    assert("nerd"@.len() == 4 && "none"@.len() == 4 && "unicode"@.len() == 7);
    assert("nerd"@[1] != "none"@[1]);
}

/// A named theme is drawn as named, whatever the backend; the automatic one
/// follows it.
pub proof fn only_the_automatic_theme_follows_the_backend(
    choice: ThemeChoice,
    a: Option<BackendKind>,
    b: Option<BackendKind>,
)
    ensures
        choice is Named ==> choice.resolved(a) == choice.resolved(b) && choice.resolved(a)
            == choice->Named_0,
        choice is Auto && a != b ==> choice.resolved(a) != choice.resolved(b),
        theme_slug(ThemeChoice::Auto.resolved(Some(BackendKind::Zephyr)) as usize)
            == "catppuccin-mocha"@,
        theme_slug(ThemeChoice::Auto.resolved(Some(BackendKind::MicroPython)) as usize)
            == "everforest"@,
        theme_slug(ThemeChoice::Auto.resolved(None) as usize) == "tokyo-night"@,
{
}

/// Nothing stored is Tokyo Night and Unicode glyphs; a stored `auto` is the
/// automatic theme.
pub proof fn nothing_stored_is_the_default()
    ensures
        stored_theme(None) is Named,
        theme_slug(stored_theme(None)->Named_0) == "tokyo-night"@,
        stored_theme(Some("auto"@)) is Auto,
        stored_icons(None) is Unicode,
{
}

} // verus!
