//! What every dialog keeps to, whichever it is.

use vstd::prelude::*;

use crate::app::{DocsFocus, Model};
use crate::app::flash_view;
use crate::app::overlay_keys;
use crate::app::overlay_keys::Catalogue;
use crate::input::{KeyCode, KeyEvent};
use crate::overlay;
use crate::overlay::{ConfirmStep, Overlay};

verus! {

/// Every key in a question is one of its steps.
proof fn a_question_takes_steps(m: Model, o: Overlay<Seq<char>>, yes: bool, key: KeyEvent)
    requires
        m.overlay == Some(o),
        o.question() == Some(yes),
    ensures
        m.overlay_key(key) == m.closed().answered(o, overlay_keys::confirm_step(key.code, yes)),
{
    assert(!overlay::help_reachable(o));
    assert(m.dialog_key(key, o) == m.closed().answered(o, overlay_keys::confirm_step(key.code, yes))) by {
        reveal(Model::dialog_key);
    }
}

/// In every Yes/No question `y` agrees, `n`, `q` and `Esc` refuse, and
/// `Enter` gives the highlighted answer; the question is gone before its
/// answer takes effect.
pub proof fn questions_share_their_answers(m: Model, o: Overlay<Seq<char>>, yes: bool)
    requires
        m.overlay == Some(o),
        o.question() == Some(yes),
    ensures
        m.overlay_key(KeyEvent::spec_plain(KeyCode::Char('y'))) == m.closed().agreed(o),
        m.overlay_key(KeyEvent::spec_plain(KeyCode::Char('n'))) == m.closed().declined(o),
        m.overlay_key(KeyEvent::spec_plain(KeyCode::Char('q'))) == m.closed().declined(o),
        m.overlay_key(KeyEvent::spec_plain(KeyCode::Esc)) == m.closed().declined(o),
        m.overlay_key(KeyEvent::spec_plain(KeyCode::Enter)) == if yes {
            m.closed().agreed(o)
        } else {
            m.closed().declined(o)
        },
{
    a_question_takes_steps(m, o, yes, KeyEvent::spec_plain(KeyCode::Char('y')));
    a_question_takes_steps(m, o, yes, KeyEvent::spec_plain(KeyCode::Char('n')));
    a_question_takes_steps(m, o, yes, KeyEvent::spec_plain(KeyCode::Char('q')));
    a_question_takes_steps(m, o, yes, KeyEvent::spec_plain(KeyCode::Esc));
    a_question_takes_steps(m, o, yes, KeyEvent::spec_plain(KeyCode::Enter));
    reveal(Model::answered);
}

/// `Tab` moves a question's highlight to the other button, and a second
/// `Tab` moves it back.
pub proof fn tab_turns_a_question(m: Model, o: Overlay<Seq<char>>, yes: bool)
    requires
        m.overlay == Some(o),
        o.question() == Some(yes),
    ensures
        m.overlay_key(KeyEvent::spec_plain(KeyCode::Tab)) == m.shown(o.turned(!yes)),
        o.turned(!yes).question() == Some(!yes),
        m.overlay_key(KeyEvent::spec_plain(KeyCode::Tab)).overlay_key(
            KeyEvent::spec_plain(KeyCode::Tab),
        ) == m,
{
    let tab = KeyEvent::spec_plain(KeyCode::Tab);
    let other = o.turned(!yes);
    let once = m.shown(other);
    turning_keeps_the_question(o, yes);
    a_question_takes_steps(m, o, yes, tab);
    assert(m.closed().answered(o, ConfirmStep::Toggle) == m.closed().shown(other)) by {
        reveal(Model::answered);
    }
    a_question_takes_steps(once, other, !yes, tab);
    assert(once.closed().answered(other, ConfirmStep::Toggle) == once.closed().shown(o)) by {
        reveal(Model::answered);
    }
}

proof fn turning_keeps_the_question(o: Overlay<Seq<char>>, yes: bool)
    requires
        o.question() == Some(yes),
    ensures
        o.turned(!yes).question() == Some(!yes),
        o.turned(!yes).turned(yes) == o,
{
}

/// A question that opens on No survives a reflex `Enter`: nothing happens to
/// the board, and the question closes.
pub proof fn a_reflex_enter_restarts_nothing(m: Model)
    requires
        m.overlay == Some(Overlay::<Seq<char>>::ConfirmRestartDevice { confirm: false }),
    ensures
        m.overlay_key(KeyEvent::spec_plain(KeyCode::Enter)) == m.closed(),
{
    let o = Overlay::<Seq<char>>::ConfirmRestartDevice { confirm: false };
    questions_share_their_answers(m, o, false);
    reveal(Model::declined);
}

/// `F1` opens the help over every dialog that has no hint of its own; `?`
/// does too, except where it is text.
pub proof fn help_opens_over_silent_dialogs(m: Model, o: Overlay<Seq<char>>)
    requires
        m.overlay == Some(o),
        overlay::help_reachable(o),
    ensures
        m.overlay_key(KeyEvent::spec_plain(KeyCode::F(1))) == m.shown(flash_view::fresh_help()),
        !overlay::text_entry(o) ==> m.overlay_key(KeyEvent::spec_plain(KeyCode::Char('?')))
            == m.shown(flash_view::fresh_help()),
{
}

/// A `?` typed into a name lands in the name.
pub proof fn a_question_mark_is_text_in_a_name(m: Model, name: Seq<char>, input: Seq<char>)
    requires
        m.overlay == Some(Overlay::RenameEntry { name, input }),
    ensures
        m.overlay_key(KeyEvent::spec_plain(KeyCode::Char('?'))) == m.shown(
            Overlay::RenameEntry { name, input: input.push('?') },
        ),
{
    reveal(Model::dialog_key);
    reveal(Model::rename_entry_key);
}

/// Every dialog that takes text still opens the help, on `F1`.
pub proof fn text_dialogs_keep_the_help(m: Model, o: Overlay<Seq<char>>)
    requires
        m.overlay == Some(o),
        overlay::text_entry(o),
    ensures
        overlay::help_reachable(o),
        m.overlay_key(KeyEvent::spec_plain(KeyCode::F(1))) == m.shown(flash_view::fresh_help()),
{
}

proof fn a_catalogue_filters(
    m: Model,
    what: Catalogue,
    input: Seq<char>,
    selected: usize,
    scroll: u16,
    focus: DocsFocus,
    c: char,
)
    ensures
        m.catalogue_key(
            KeyEvent::spec_plain(KeyCode::Char(c)),
            what,
            input,
            selected,
            scroll,
            focus,
        ) == m.docs_top().catalogue_rebuilt(what, input.push(c), selected, focus),
{
    reveal(Model::catalogue_key);
}

/// In the board, the shield and the build directory picker every printable
/// character is filter text, `q` included: only `Esc` leaves.
pub proof fn a_picker_filters_on_every_character(m: Model, o: Overlay<Seq<char>>, c: char)
    requires
        m.overlay == Some(o),
        o is BoardPicker || o is ShieldPicker || o is BuildDirPicker,
    ensures
        m.overlay_key(KeyEvent::spec_plain(KeyCode::Char(c))) == match o {
            Overlay::BoardPicker { input, selected, scroll, focus } => m.closed().docs_top().catalogue_rebuilt(
                Catalogue::Boards,
                input.push(c),
                selected,
                focus,
            ),
            Overlay::ShieldPicker { input, selected, scroll, focus } => m.closed().docs_top().catalogue_rebuilt(
                Catalogue::Shields,
                input.push(c),
                selected,
                focus,
            ),
            Overlay::BuildDirPicker { input, selected } => m.closed().build_dir_rebuilt(
                input.push(c),
                selected,
            ),
            _ => m,
        },
{
    let key = KeyEvent::spec_plain(KeyCode::Char(c));
    let n = m.closed();
    match o {
        Overlay::BoardPicker { input, selected, scroll, focus } => {
            a_catalogue_filters(n, Catalogue::Boards, input, selected, scroll, focus, c);
        },
        Overlay::ShieldPicker { input, selected, scroll, focus } => {
            a_catalogue_filters(n, Catalogue::Shields, input, selected, scroll, focus, c);
        },
        Overlay::BuildDirPicker { input, selected } => {
            assert(n.build_dir_key(key, input, selected) == n.build_dir_rebuilt(
                input.push(c),
                selected,
            )) by {
                reveal(Model::build_dir_key);
            }
        },
        _ => {},
    }
    assert(m.overlay_key(key) == m.dialog_key(key, o));
    reveal(Model::dialog_key);
}

/// While a help search is typed, `j` and `k` are filter text.
pub proof fn searching_takes_letters_as_text(
    m: Model,
    filter: Seq<char>,
    selected: usize,
    c: char,
)
    requires
        m.overlay == Some(Overlay::Help { filter, filtering: true, selected }),
    ensures
        m.overlay_key(KeyEvent::spec_plain(KeyCode::Char(c))).overlay matches Some(
            Overlay::Help { filter: f, filtering, selected: row },
        ) && f == filter.push(c) && filtering && (row == 0 || row < m.help_rows(f).len()),
{
    reveal(Model::dialog_key);
    reveal(Model::help_key);
}

/// The first `Esc` of a help search keeps the filter and leaves the typing;
/// the second closes the window.
pub proof fn esc_leaves_the_search_before_the_help(m: Model, filter: Seq<char>, selected: usize)
    requires
        m.overlay == Some(Overlay::Help { filter, filtering: true, selected }),
    ensures
        ({
            let once = m.overlay_key(KeyEvent::spec_plain(KeyCode::Esc));
            &&& once.overlay matches Some(Overlay::Help { filter: f, filtering, .. })
            &&& f == filter && !filtering
            &&& once.overlay_key(KeyEvent::spec_plain(KeyCode::Esc)) == m.closed()
        }),
{
    reveal(Model::dialog_key);
    reveal(Model::help_key);
}

/// Leaving a menu or a list changes nothing but that it is gone.
pub proof fn leaving_a_picker_does_nothing_else(m: Model, o: Overlay<Seq<char>>)
    requires
        m.overlay == Some(o),
        o is DevicePicker || o is ThemePicker || o is FirmwarePicker || o is ProjectSetup
            || o is BuildTarget || o is BoardPicker || o is ShieldPicker || o is ProjectPicker
            || o is BuildDirPicker || o is FileActions || o is CreateEntry || o is RenameEntry
            || o is ZephyrActions || o is DirPicker || o is Packages,
    ensures
        m.overlay_key(KeyEvent::spec_plain(KeyCode::Esc)) == m.closed(),
{
    let esc = KeyEvent::spec_plain(KeyCode::Esc);
    let c = m.closed();
    assert(m.overlay_key(esc) == m.dialog_key(esc, o));
    match o {
        Overlay::DevicePicker { selected } => {
            assert(c.device_picker_key(esc, selected) == c) by {
                reveal(Model::device_picker_key);
            }
        },
        Overlay::ThemePicker { selected } => {
            assert(c.theme_picker_key(esc, selected) == c) by {
                reveal(Model::theme_picker_key);
            }
        },
        Overlay::FirmwarePicker { selected } => {
            assert(c.firmware_picker_key(esc, selected) == c) by {
                reveal(Model::firmware_picker_key);
            }
        },
        Overlay::ProjectSetup { selected } => {
            assert(c.project_setup_key(esc, selected) == c) by {
                reveal(Model::project_setup_key);
            }
        },
        Overlay::BuildTarget { kind, selected } => {
            assert(c.build_target_key(esc, kind, selected) == c) by {
                reveal(Model::build_target_key);
            }
        },
        Overlay::BoardPicker { input, selected, scroll, focus } => {
            assert(c.catalogue_key(esc, Catalogue::Boards, input, selected, scroll, focus) == c)
                by {
                reveal(Model::catalogue_key);
            }
        },
        Overlay::ShieldPicker { input, selected, scroll, focus } => {
            assert(c.catalogue_key(esc, Catalogue::Shields, input, selected, scroll, focus) == c)
                by {
                reveal(Model::catalogue_key);
            }
        },
        Overlay::ProjectPicker { mpy, selected, error } => {
            assert(c.project_picker_key(esc, mpy, selected, error) == c) by {
                reveal(Model::project_picker_key);
            }
        },
        Overlay::BuildDirPicker { input, selected } => {
            assert(c.build_dir_key(esc, input, selected) == c) by {
                reveal(Model::build_dir_key);
            }
        },
        Overlay::FileActions { side, name, is_dir, is_text, status, selected } => {
            assert(c.file_menu_key(esc, side, name, is_dir, is_text, status, selected) == c) by {
                reveal(Model::file_menu_key);
            }
        },
        Overlay::CreateEntry { side, input } => {
            assert(c.create_entry_key(esc, side, input) == c) by {
                reveal(Model::create_entry_key);
            }
        },
        Overlay::RenameEntry { name, input } => {
            assert(c.rename_entry_key(esc, name, input) == c) by {
                reveal(Model::rename_entry_key);
            }
        },
        Overlay::ZephyrActions { selected } => {
            assert(c.zephyr_actions_key(esc, selected) == c) by {
                reveal(Model::zephyr_actions_key);
            }
        },
        Overlay::DirPicker { .. } | Overlay::Packages => {
            reveal(Model::handed_on);
        },
        _ => {},
    }
    reveal(Model::dialog_key);
}

/// Moving in the project picker clears an error that spoke of another row.
pub proof fn moving_clears_the_pickers_error(
    m: Model,
    mpy: bool,
    selected: usize,
    error: Option<Seq<char>>,
)
    requires
        m.overlay == Some(Overlay::ProjectPicker { mpy, selected, error }),
    ensures
        m.overlay_key(KeyEvent::spec_plain(KeyCode::Down)).overlay matches Some(
            Overlay::ProjectPicker { error: None, .. },
        ),
{
    reveal(Model::dialog_key);
    reveal(Model::project_picker_key);
}

} // verus!
