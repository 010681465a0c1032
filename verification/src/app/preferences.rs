//! The session's own answers: quitting, what the terminal can do, the theme
//! and the icons, and what waits for the shell to pick up.

use vstd::prelude::*;
use vstd::string::*;

use crate::app;
use crate::app::{App, DeskModel, Model, Pending, Prefs};
use crate::effect::{Effect, TextTask};
use crate::logs::Level;
use crate::overlay;
use crate::overlay::Overlay;
use crate::text;
use crate::theme;
use crate::theme::{IconSet, ThemeChoice, resolve_icons, resolve_theme};

verus! {

broadcast use crate::overlay::group_overlay_models;

impl Model {
    pub open spec fn quitting(self) -> Model {
        self.with_pending(Pending { should_quit: true, ..self.pending })
    }

    /// A text queued for the clipboard, and said so.
    pub open spec fn copied(self, what: Seq<char>, text: String) -> Model {
        self.logged(Level::Success, what + " copied to the clipboard"@).with_pending(
            Pending { clipboard: Some(text), ..self.pending },
        )
    }

    /// The theme picker, its cursor on the choice in force.
    pub open spec fn theme_picker_opened(self) -> Model {
        self.shown(Overlay::ThemePicker { selected: self.prefs.theme.spec_row() as usize })
    }

    /// The choice in row `selected`, in force at once and kept.
    pub open spec fn theme_picked(self, selected: usize) -> Model {
        match ThemeChoice::spec_at(selected as int) {
            Some(choice) => self.with_prefs(Prefs { theme: choice, ..self.prefs }).emit(
                Effect::Text(TextTask::PersistTheme, choice.spec_slug()),
            ),
            None => self,
        }
    }

    /// The theme the session is drawn in: the row hovered while the picker is
    /// open, the choice in force otherwise.
    pub open spec fn theme_drawn(self) -> int {
        let kind = self.project.manager.spec_kind();
        match self.overlay {
            Some(Overlay::ThemePicker { selected }) => match ThemeChoice::spec_at(
                selected as int,
            ) {
                Some(choice) => choice.resolved(kind),
                None => self.prefs.theme.resolved(kind),
            },
            _ => self.prefs.theme.resolved(kind),
        }
    }

    /// The next icon set, in force at once and kept.
    pub open spec fn icons_cycled(self) -> Model {
        let icons = self.prefs.icons.spec_next();
        self.with_prefs(Prefs { icons, ..self.prefs }).emit(
            Effect::Text(TextTask::PersistIcons, icons.spec_slug()),
        )
    }

    /// The home screen asked for: while commands run, that is a question.
    pub open spec fn home_screen_asked(self) -> Model {
        if self.pending.commands_running > 0 {
            self.shown(Overlay::ConfirmSwitchProject { confirm: false })
        } else {
            self.switching()
        }
    }

    pub open spec fn switching(self) -> Model {
        self.with_pending(Pending { switch_requested: true, ..self.pending })
    }

    /// Another home, its configuration and its stored choices with it.
    pub open spec fn rehomed(
        self,
        home: Seq<char>,
        theme: Option<Seq<char>>,
        icons: Option<Seq<char>>,
    ) -> Model {
        self.with_desk(
            DeskModel {
                home_dir: home,
                config_dir: text::joined(home, ".config"@),
                ..self.desk
            },
        ).with_prefs(
            Prefs {
                theme: theme::stored_theme(theme),
                icons: theme::stored_icons(icons),
                ..self.prefs
            },
        )
    }
}

impl App {
    pub fn should_quit(&self) -> (r: bool)
        ensures
            r == self@.pending.should_quit,
    {
        self.pending.should_quit
    }

    /// Where `~` in configuration resolves.
    pub fn home_dir(&self) -> (r: &str)
        ensures
            r@ == self@.desk.home_dir,
    {
        self.desk.home_dir.as_str()
    }

    /// The user configuration this session reads and writes.
    pub fn user_config_path(&self) -> (r: String)
        ensures
            r@ == text::joined(self@.desk.config_dir, "chiptui/config.toml"@),
    {
        text::join_path(self.desk.config_dir.as_str(), "chiptui/config.toml")
    }

    /// Moves the session to another home, with the choices stored there.
    pub fn set_home_dir(&mut self, home: String, theme: Option<String>, icons: Option<String>)
        ensures
            final(self)@ == old(self)@.rehomed(
                home@,
                overlay::opt_text(theme),
                overlay::opt_text(icons),
            ),
    {
        self.desk.config_dir = text::join_path(home.as_str(), ".config");
        self.desk.home_dir = home;
        self.prefs.theme = match &theme {
            Some(slug) => resolve_theme(Some(slug.as_str())),
            None => resolve_theme(None),
        };
        self.prefs.icons = match &icons {
            Some(slug) => resolve_icons(Some(slug.as_str())),
            None => resolve_icons(None),
        };
    }

    pub fn quit(&mut self)
        ensures
            final(self)@ == old(self)@.quitting(),
    {
        self.pending.should_quit = true;
    }

    /// Whether the terminal tells modified keys apart.
    pub fn set_keyboard_enhanced(&mut self, enhanced: bool)
        ensures
            final(self)@ == old(self)@.with_prefs(
                Prefs { keyboard_enhanced: enhanced, ..old(self)@.prefs },
            ),
    {
        self.prefs.keyboard_enhanced = enhanced;
    }

    /// Whether the session asked for mouse reporting.
    pub fn set_mouse_enabled(&mut self, enabled: bool)
        ensures
            final(self)@ == old(self)@.with_prefs(
                Prefs { mouse_enabled: enabled, ..old(self)@.prefs },
            ),
    {
        self.prefs.mouse_enabled = enabled;
    }

    /// Queues `text` for the clipboard and says so in the log.
    pub fn copy_to_clipboard(&mut self, what: &str, text: String)
        ensures
            final(self)@ == old(self)@.copied(what@, text),
    {
        self.log(Level::Success, text::join(what, " copied to the clipboard").as_str());
        self.pending.clipboard = Some(text);
    }

    /// Takes the text queued for the clipboard.
    pub fn take_clipboard_request(&mut self) -> (r: Option<String>)
        ensures
            r == old(self)@.pending.clipboard,
            final(self)@ == old(self)@.with_pending(
                Pending { clipboard: None, ..old(self)@.pending },
            ),
    {
        self.pending.clipboard.take()
    }

    pub fn theme_choice(&self) -> (r: ThemeChoice)
        ensures
            r == self@.prefs.theme,
    {
        self.prefs.theme
    }

    /// The theme the choice in force renders in.
    pub fn theme(&self) -> (r: usize)
        ensures
            r == self@.prefs.theme.resolved(self@.project.manager.spec_kind()),
    {
        self.prefs.theme.resolve(self.project.manager.selected_kind())
    }

    /// The theme drawn: a row hovered in the picker previews it.
    pub fn drawn_theme(&self) -> (r: usize)
        ensures
            r == self@.theme_drawn(),
    {
        reveal(app::opt_overlay);
        reveal(Overlay::model);
        if let Some(Overlay::ThemePicker { selected }) = &self.overlay {
            if let Some(choice) = ThemeChoice::at(*selected) {
                return choice.resolve(self.project.manager.selected_kind());
            }
        }
        self.theme()
    }

    pub fn icon_set(&self) -> (r: IconSet)
        ensures
            r == self@.prefs.icons,
    {
        self.prefs.icons
    }

    pub fn open_theme_picker(&mut self)
        ensures
            final(self)@ == old(self)@.theme_picker_opened(),
    {
        let selected: usize = self.prefs.theme.row();
        self.show(Overlay::ThemePicker { selected });
    }

    pub fn apply_theme_picker(&mut self, selected: usize)
        ensures
            final(self)@ == old(self)@.theme_picked(selected),
    {
        if let Some(choice) = ThemeChoice::at(selected) {
            self.prefs.theme = choice;
            self.emit(Effect::Text(TextTask::PersistTheme, choice.slug().to_owned()));
        }
    }

    /// Steps the icon set and keeps the answer.
    pub fn cycle_icon_set(&mut self)
        ensures
            final(self)@ == old(self)@.icons_cycled(),
    {
        self.prefs.icons = self.prefs.icons.next();
        let slug = self.prefs.icons.slug();
        self.emit(Effect::Text(TextTask::PersistIcons, slug.to_owned()));
    }

    /// Asks for the home screen.
    pub fn request_home_screen(&mut self)
        ensures
            final(self)@ == old(self)@.home_screen_asked(),
    {
        if self.pending.commands_running > 0 {
            self.show(Overlay::ConfirmSwitchProject { confirm: false });
        } else {
            self.request_project_switch();
        }
    }

    pub fn request_project_switch(&mut self)
        ensures
            final(self)@ == old(self)@.switching(),
    {
        self.pending.switch_requested = true;
    }
}

/// Hovering a row of the theme picker previews it without committing, and
/// leaving the picker reverts.
pub proof fn the_theme_picker_previews(m: Model, selected: usize, choice: ThemeChoice)
    requires
        ThemeChoice::spec_at(selected as int) == Some(choice),
        m.overlay is None,
    ensures
        ({
            let open = m.shown(Overlay::ThemePicker { selected });
            &&& open.prefs == m.prefs
            &&& open.theme_drawn() == choice.resolved(m.project.manager.spec_kind())
            &&& open.closed().theme_drawn() == m.theme_drawn()
        }),
{
}

/// A picked theme is in force at once, and what is kept is its slug.
pub proof fn a_picked_theme_is_in_force_and_kept(m: Model, selected: usize, choice: ThemeChoice)
    requires
        ThemeChoice::spec_at(selected as int) == Some(choice),
    ensures
        m.theme_picked(selected).prefs.theme == choice,
        m.theme_picked(selected).effects == m.effects.push(
            Effect::Text(TextTask::PersistTheme, choice.spec_slug()),
        ),
{
}

/// What the icon cycle keeps is what a restart reads back.
pub proof fn the_kept_icons_are_read_back(m: Model)
    ensures
        m.icons_cycled().effects.last() matches Effect::Text(TextTask::PersistIcons, slug)
            && theme::stored_icons(Some(slug)) == m.icons_cycled().prefs.icons,
{
    theme::icon_sets_round_trip(m.prefs.icons.spec_next());
}

/// Leaving the project while commands run asks first; otherwise it is asked
/// for at once.
pub proof fn running_commands_guard_the_switch(m: Model)
    ensures
        m.pending.commands_running > 0 ==> m.home_screen_asked().pending == m.pending,
        m.pending.commands_running == 0 ==> m.home_screen_asked().pending.switch_requested,
{
}

} // verus!
