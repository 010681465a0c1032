//! What the help window and the footer promise whatever the backend: rows
//! that fit their line, a filter that only narrows, a flash footer that
//! follows its screen.

use vstd::prelude::*;
use vstd::string::*;
use vstd::view::View as _;

use crate::app::View;
use crate::app::help;
use crate::app::help::{Context, HelpBinding, HelpSection, Site};
use crate::input::{KeyCode, KeyModifiers};
use crate::panels::FlashScreen;
use crate::text;

verus! {

proof fn dashboard_movement_are_short(index: usize)
    ensures
        help::spec_dashboard_navigation(index).key@.len() <= 21,
        help::spec_dashboard_navigation(index).description@.len() <= 52,
{
    reveal_strlit("tab / shift+tab");
    reveal_strlit("ctrl+k");
    reveal_strlit("↑ ↓ / k j");
    reveal_strlit("page up/down");
    reveal_strlit("home / end");
    reveal_strlit("→");
    reveal_strlit("backspace / ←");
    reveal_strlit("ctrl+← / ctrl+→");
    reveal_strlit("← / →");
    reveal_strlit("shift+p");
    reveal_strlit("move focus between panes");
    reveal_strlit("reveal pane letters; press one to jump");
    reveal_strlit("navigate inside the focused pane");
    reveal_strlit("scroll the log by one screen");
    reveal_strlit("jump to start / end");
    reveal_strlit("descend into the selected directory");
    reveal_strlit("go to the parent directory");
    reveal_strlit("switch the device pane's tabs from any pane");
    reveal_strlit("switch the Log, Monitor and Terminal tabs");
    reveal_strlit("back to the project list");
}

proof fn dashboard_commands_are_short(index: usize)
    ensures
        help::spec_dashboard_command(index).key@.len() <= 21,
        help::spec_dashboard_command(index).description@.len() <= 52,
{
    reveal_strlit("r");
    reveal_strlit("t");
    reveal_strlit("ctrl+i");
    reveal_strlit("x");
    reveal_strlit("enter (files)");
    reveal_strlit("v (workspace files)");
    reveal_strlit("del (workspace files)");
    reveal_strlit("a");
    reveal_strlit("c");
    reveal_strlit("shift+s");
    reveal_strlit("h");
    reveal_strlit("enter (build pane)");
    reveal_strlit("d");
    reveal_strlit("i");
    reveal_strlit("v (actions tab)");
    reveal_strlit("del (packages)");
    reveal_strlit("s (dependencies row)");
    reveal_strlit("m");
    reveal_strlit("terminal (tab)");
    reveal_strlit("s");
    reveal_strlit("shift+r");
    reveal_strlit("e");
    reveal_strlit("?");
    reveal_strlit("q / ctrl+c");
    reveal_strlit("re-detect, reload, or rename (file list)");
    reveal_strlit("pick a color theme");
    reveal_strlit("cycle icons (unicode/nerd/none)");
    reveal_strlit("open the device pane's Actions tab");
    reveal_strlit("browser: entry menu; workspace: open or answer");
    reveal_strlit("view a text file in the viewer");
    reveal_strlit("delete the selected entry (asks first)");
    reveal_strlit("create a file, or a dir if the name ends with /");
    reveal_strlit("compare the selected file by sha256");
    reveal_strlit("sync local files to the device");
    reveal_strlit("show or hide dot-files");
    reveal_strlit("run the selected action (build or flash pane)");
    reveal_strlit("scan for devices (mpremote or USB serial)");
    reveal_strlit("open the package manager");
    reveal_strlit("verify the flash against a firmware file");
    reveal_strlit("remove a package from requirements.txt and the board");
    reveal_strlit("open the device monitor/REPL; ctrl+] exits");
    reveal_strlit("the Terminal tab runs your shell (ctrl+] detaches)");
    reveal_strlit("add or update the SDK's toolchains");
    reveal_strlit("restart the device (soft-reset)");
    reveal_strlit("edit the viewed file with $EDITOR");
    reveal_strlit("save the run output to a file");
    reveal_strlit("toggle this help");
    reveal_strlit("quit; interrupts a running script");
}

/// A row of the dashboard's commands replays the key it is listed under: a
/// letter its letter, a chord its last letter with the modifier it names.
/// The help's own row and the terminal's replay nothing.
pub proof fn dashboard_rows_replay_their_key(index: usize)
    ensures
        ({
            let row = help::spec_dashboard_command(index);
            &&& row.event matches Some((code, modifiers)) ==> match code {
                KeyCode::Char(c) => if modifiers == KeyModifiers::spec_none() {
                    row.key@[0] == c && (row.key@.len() == 1 || row.key@[1] == ' ')
                } else {
                    &&& row.key@.last() == c
                    &&& modifiers.control == (row.key@[0] == 'c')
                    &&& modifiers.shift == (row.key@[0] == 's')
                    &&& !modifiers.alt
                },
                KeyCode::Enter => row.key@[0] == 'e' && row.key@[1] == 'n',
                KeyCode::Delete => row.key@[0] == 'd' && row.key@[1] == 'e',
                _ => false,
            }
            &&& row.event is None ==> index == 18 || index == 23
            &&& index == 18 || index == 23 ==> row.event is None
        }),
{
    reveal_strlit("r");
    reveal_strlit("t");
    reveal_strlit("ctrl+i");
    reveal_strlit("x");
    reveal_strlit("enter (files)");
    reveal_strlit("v (workspace files)");
    reveal_strlit("del (workspace files)");
    reveal_strlit("a");
    reveal_strlit("c");
    reveal_strlit("shift+s");
    reveal_strlit("h");
    reveal_strlit("enter (build pane)");
    reveal_strlit("d");
    reveal_strlit("i");
    reveal_strlit("v (actions tab)");
    reveal_strlit("del (packages)");
    reveal_strlit("s (dependencies row)");
    reveal_strlit("m");
    reveal_strlit("s");
    reveal_strlit("shift+r");
    reveal_strlit("e");
    reveal_strlit("q / ctrl+c");
}

/// So does a row of the flash dialog's, where its letters stand alone.
pub proof fn flash_rows_replay_their_key(index: usize)
    ensures
        ({
            let row = help::spec_flash_command(index);
            &&& row.key@.len() == 1 && row.event is Some ==> row.event == Some(
                (KeyCode::Char(row.key@[0]), KeyModifiers::spec_none()),
            )
            &&& row.event is None <==> index == 2 || index == 4
            &&& index == 0 ==> row.event == Some((KeyCode::Enter, KeyModifiers::spec_none()))
        }),
{
    reveal_strlit("enter");
    reveal_strlit("← →");
    reveal_strlit("type / backspace");
    reveal_strlit("ctrl+c");
    reveal_strlit("?");
    reveal_strlit("s");
    reveal_strlit("u");
}

proof fn flash_movement_are_short(index: usize)
    ensures
        help::spec_flash_navigation(index).key@.len() <= 16,
        help::spec_flash_navigation(index).description@.len() <= 35,
{
    reveal_strlit("↑ ↓ / k j");
    reveal_strlit("tab");
    reveal_strlit("q / esc");
    reveal_strlit("move the menu cursor");
    reveal_strlit("move between option fields");
    reveal_strlit("back one screen, then the dashboard");
}

proof fn flash_commands_are_short(index: usize)
    ensures
        help::spec_flash_command(index).key@.len() <= 16,
        help::spec_flash_command(index).description@.len() <= 35,
{
    reveal_strlit("enter");
    reveal_strlit("← →");
    reveal_strlit("type / backspace");
    reveal_strlit("ctrl+c");
    reveal_strlit("?");
    reveal_strlit("s");
    reveal_strlit("u");
    reveal_strlit("run the selected action");
    reveal_strlit("cycle an option's value");
    reveal_strlit("edit offset, flags, or a URL");
    reveal_strlit("quit");
    reveal_strlit("toggle this help");
    reveal_strlit("search boards and firmware online");
    reveal_strlit("flash firmware from a URL");
}

/// Every row of the help window fits one line of an 80-column terminal,
/// beside the widest key of its view: two columns of padding before the key,
/// two between, two after.
pub proof fn help_rows_fit_one_line(
    view: View,
    keys: HelpSection,
    i: int,
    section: HelpSection,
    j: int,
)
    requires
        0 <= i < help::rows_of(view, keys).len(),
        0 <= j < help::rows_of(view, section).len(),
    ensures
        2 + help::rows_of(view, keys)[i].key@.len() + 2 + help::rows_of(
            view,
            section,
        )[j].description@.len() + 2 <= 80,
{
    reveal(help::rows_of);
    dashboard_movement_are_short(i as usize);
    dashboard_movement_are_short(j as usize);
    dashboard_commands_are_short(i as usize);
    dashboard_commands_are_short(j as usize);
    flash_movement_are_short(i as usize);
    flash_movement_are_short(j as usize);
    flash_commands_are_short(i as usize);
    flash_commands_are_short(j as usize);
}

/// `part` comes from `whole` by leaving rows out, the order kept.
pub open spec fn narrows(part: Seq<HelpBinding>, whole: Seq<HelpBinding>) -> bool
    decreases whole.len(),
{
    if part.len() == 0 {
        true
    } else if whole.len() == 0 {
        false
    } else {
        (part.last() == whole.last() && narrows(part.drop_last(), whole.drop_last())) || narrows(
            part,
            whole.drop_last(),
        )
    }
}

proof fn a_stricter_choice_narrows(
    table: Seq<HelpBinding>,
    strict: spec_fn(HelpBinding) -> bool,
    loose: spec_fn(HelpBinding) -> bool,
)
    requires
        forall|row: HelpBinding| #[trigger] strict(row) ==> loose(row),
    ensures
        narrows(table.filter(strict), table.filter(loose)),
        narrows(table.filter(loose), table),
    decreases table.len(),
{
    reveal(Seq::filter);
    if table.len() > 0 {
        let rest = table.drop_last();
        let last = table.last();
        a_stricter_choice_narrows(rest, strict, loose);
        let whole = rest.filter(loose);
        if loose(last) {
            assert(whole.push(last).drop_last() =~= whole);
            if strict(last) {
                assert(rest.filter(strict).push(last).drop_last() =~= rest.filter(strict));
            }
        }
    }
}

proof fn mentions_carry_over(text: Seq<char>, middle: Seq<char>, needle: Seq<char>)
    requires
        text::mentions(text, middle),
        text::mentions(middle, needle),
    ensures
        text::mentions(text, needle),
{
    let i = choose|i: int|
        0 <= i <= text.len() - middle.len() && #[trigger] text.subrange(i, i + middle.len())
            == middle;
    let j = choose|j: int|
        0 <= j <= middle.len() - needle.len() && #[trigger] middle.subrange(j, j + needle.len())
            == needle;
    assert(text.subrange(i + j, i + j + needle.len()) =~= middle.subrange(j, j + needle.len()));
}

/// A filter only narrows: one that holds another, whatever the case, shows no
/// row the other hides, and the order stays. No filter shows every row.
pub proof fn a_longer_filter_only_narrows(
    table: Seq<HelpBinding>,
    shorter: Seq<char>,
    longer: Seq<char>,
)
    requires
        text::mentions(text::lowercase(longer), text::lowercase(shorter)),
    ensures
        narrows(help::rows_matching(table, longer), help::rows_matching(table, shorter)),
        narrows(help::rows_matching(table, shorter), table),
        help::rows_matching(table, Seq::empty()) == table,
{
    reveal(help::rows_matching);
    let loose = |row: HelpBinding| help::row_matches(row, shorter);
    let strict = |row: HelpBinding| help::row_matches(row, longer);
    assert forall|row: HelpBinding| #[trigger] strict(row) implies loose(row) by {
        let low = text::lowercase(longer);
        let less = text::lowercase(shorter);
        if low.len() > 0 {
            if text::mentions(text::lowercase(row.key@), low) {
                mentions_carry_over(text::lowercase(row.key@), low, less);
            } else {
                mentions_carry_over(text::lowercase(row.description@), low, less);
            }
        }
    }
    a_stricter_choice_narrows(table, strict, loose);
    no_filter_shows_every_row(table);
}

/// Typing on only narrows.
pub proof fn typing_only_narrows(table: Seq<HelpBinding>, filter: Seq<char>, c: char)
    requires
        text::ascii(filter.push(c)),
    ensures
        narrows(help::rows_matching(table, filter.push(c)), help::rows_matching(table, filter)),
{
    let longer = filter.push(c);
    assert(text::ascii(filter)) by {
        assert forall|i: int| 0 <= i < filter.len() implies #[trigger] filter[i] <= '\u{7f}' by {
            assert(longer[i] <= '\u{7f}');
        }
    }
    let less = text::lowercase(filter);
    let start: int = 0;
    assert(text::lowercase(longer).subrange(start, start + less.len()) =~= less);
    a_longer_filter_only_narrows(table, filter, longer);
}

proof fn no_filter_shows_every_row(table: Seq<HelpBinding>)
    ensures
        help::rows_matching(table, Seq::empty()) == table,
    decreases table.len(),
{
    reveal(help::rows_matching);
    reveal(Seq::filter);
    if table.len() > 0 {
        no_filter_shows_every_row(table.drop_last());
        assert(table.drop_last().push(table.last()) =~= table);
    } else {
        assert(help::rows_matching(table, Seq::empty()) =~= table);
    }
}

/// An ASCII letter in upper case; every other character as it is.
pub open spec fn ascii_upper(c: char) -> char {
    if 'a' <= c && c <= 'z' {
        (c as u32 - 32) as char
    } else {
        c
    }
}

/// The case a filter is typed in makes no difference.
pub proof fn a_filter_ignores_its_case(table: Seq<HelpBinding>, filter: Seq<char>)
    requires
        text::ascii(filter),
    ensures
        help::rows_matching(table, filter.map_values(|c: char| ascii_upper(c)))
            == help::rows_matching(table, filter),
{
    reveal(help::rows_matching);
    let upper = filter.map_values(|c: char| ascii_upper(c));
    assert(text::ascii(upper)) by {
        assert forall|i: int| 0 <= i < upper.len() implies #[trigger] upper[i] <= '\u{7f}' by {
            assert(filter[i] <= '\u{7f}');
        }
    }
    assert(text::lowercase(upper) =~= text::lowercase(filter)) by {
        assert forall|i: int| 0 <= i < filter.len() implies text::ascii_lower(#[trigger] upper[i])
            == text::ascii_lower(filter[i]) by {
            assert(filter[i] <= '\u{7f}');
        }
    }
    assert(forall|row: HelpBinding|
        #[trigger] help::row_matches(row, upper) == help::row_matches(row, filter));
    assert((|row: HelpBinding| help::row_matches(row, upper)) =~= (|row: HelpBinding|
        help::row_matches(row, filter)));
}

proof fn no_site_of_rank(sites: Seq<Site>, rank: int)
    requires
        forall|i: int| 0 <= i < sites.len() ==> (#[trigger] sites[i]).rank != rank,
    ensures
        help::of_rank(sites, rank) == Seq::<Site>::empty(),
    decreases sites.len(),
{
    reveal(Seq::filter);
    if sites.len() > 0 {
        no_site_of_rank(sites.drop_last(), rank);
    }
}

proof fn ranks_skipped(sites: Seq<Site>, from: int, to: int)
    requires
        0 <= from <= to,
        forall|i: int| 0 <= i < sites.len() ==> !(from <= (#[trigger] sites[i]).rank < to),
    ensures
        help::ranked(sites, to) == help::ranked(sites, from),
    decreases to - from,
{
    if from < to {
        ranks_skipped(sites, from, to - 1);
        no_site_of_rank(sites, to - 1);
        assert(help::ranked(sites, to) =~= help::ranked(sites, to - 1));
    }
}

/// The sites of the flash view's table, in order.
#[verifier::opaque]
spec fn flash_site(index: int) -> Site {
    if index == 0 {
        help::spec_flash_command(4).sites.list()[0]
    } else if index == 1 {
        help::spec_flash_command(5).sites.list()[0]
    } else {
        help::spec_flash_command(6).sites.list()[index - 2]
    }
}

/// What the footer writes for a flash site, where it comes and when it shows.
proof fn flash_site_read(index: int, ctx: Context)
    requires
        0 <= index < 5,
    ensures
        flash_site(index).rank == (if index == 0 {
            71u8
        } else if index == 1 {
            12u8
        } else {
            13u8
        }),
        (flash_site(index).label, flash_site(index).short) == (if index == 0 {
            ("?", "help")
        } else if index == 1 {
            ("s", "search online")
        } else {
            ("u", "paste URL")
        }),
        flash_site(index).live(ctx) == (if index == 0 {
            true
        } else if index <= 2 {
            ctx.flash_screen == Some(FlashScreen::Menu)
        } else if index == 3 {
            ctx.flash_screen == Some(FlashScreen::OnlineBoards)
        } else {
            ctx.flash_screen == Some(FlashScreen::OnlineFirmware)
        }),
{
    reveal(flash_site);
}

proof fn flash_sites_listed()
    ensures
        help::view_sites(View::Flash) == Seq::new(5, |i: int| flash_site(i)),
{
    reveal(help::rows_of);
    reveal(flash_site);
    let moves = help::rows_of(View::Flash, HelpSection::Navigation);
    assert(help::sites_of(moves.take(0)) =~= Seq::<Site>::empty());
    help::sites_step(moves, 0);
    help::sites_step(moves, 1);
    help::sites_step(moves, 2);
    assert(moves.take(3) =~= moves);
    assert(help::sites_of(moves) =~= Seq::<Site>::empty());
    let rows = help::rows_of(View::Flash, HelpSection::Commands);
    assert(help::sites_of(rows.take(0)) =~= Seq::<Site>::empty());
    help::sites_step(rows, 0);
    help::sites_step(rows, 1);
    help::sites_step(rows, 2);
    help::sites_step(rows, 3);
    assert(help::sites_of(rows.take(4)) =~= Seq::<Site>::empty());
    help::sites_step(rows, 4);
    assert(help::sites_of(rows.take(5)) =~= seq![flash_site(0)]);
    help::sites_step(rows, 5);
    assert(help::sites_of(rows.take(6)) =~= seq![flash_site(0), flash_site(1)]);
    help::sites_step(rows, 6);
    assert(rows.take(7) =~= rows);
    assert(help::view_sites(View::Flash) =~= Seq::new(5, |i: int| flash_site(i)));
}

/// The flash view's live sites, in table order.
spec fn flash_live(screen: Option<FlashScreen>) -> Seq<Site> {
    match screen {
        Some(FlashScreen::Menu) => seq![flash_site(0), flash_site(1), flash_site(2)],
        Some(FlashScreen::OnlineBoards) => seq![flash_site(0), flash_site(3)],
        Some(FlashScreen::OnlineFirmware) => seq![flash_site(0), flash_site(4)],
        _ => seq![flash_site(0)],
    }
}

proof fn live_step(sites: Seq<Site>, last: Site, ctx: Context)
    ensures
        sites.push(last).filter(|s: Site| s.live(ctx)) == if last.live(ctx) {
            sites.filter(|s: Site| s.live(ctx)).push(last)
        } else {
            sites.filter(|s: Site| s.live(ctx))
        },
{
    reveal(Seq::filter);
    assert(sites.push(last).drop_last() =~= sites);
}

proof fn flash_sites_live(ctx: Context)
    ensures
        help::live_sites(View::Flash, ctx) == flash_live(ctx.flash_screen),
{
    flash_sites_listed();
    let live = |s: Site| s.live(ctx);
    let all = Seq::new(5, |i: int| flash_site(i));
    assert(all.take(0).filter(live) =~= Seq::<Site>::empty()) by {
        reveal(Seq::filter);
    }
    live_step(all.take(0), flash_site(0), ctx);
    live_step(all.take(1), flash_site(1), ctx);
    live_step(all.take(2), flash_site(2), ctx);
    live_step(all.take(3), flash_site(3), ctx);
    live_step(all.take(4), flash_site(4), ctx);
    flash_site_read(0, ctx);
    flash_site_read(1, ctx);
    flash_site_read(2, ctx);
    flash_site_read(3, ctx);
    flash_site_read(4, ctx);
    assert(all.take(1) =~= all.take(0).push(flash_site(0)));
    assert(all.take(2) =~= all.take(1).push(flash_site(1)));
    assert(all.take(3) =~= all.take(2).push(flash_site(2)));
    assert(all.take(4) =~= all.take(3).push(flash_site(3)));
    assert(all.take(5) =~= all.take(4).push(flash_site(4)));
    assert(all.take(5) =~= all);
    assert(all.filter(live) =~= flash_live(ctx.flash_screen));
}

proof fn of_rank_step(sites: Seq<Site>, last: Site, rank: int)
    ensures
        help::of_rank(sites.push(last), rank) == if last.rank == rank {
            help::of_rank(sites, rank).push(last)
        } else {
            help::of_rank(sites, rank)
        },
{
    reveal(Seq::filter);
    assert(sites.push(last).drop_last() =~= sites);
}

proof fn of_rank_none(rank: int)
    ensures
        help::of_rank(Seq::<Site>::empty(), rank) == Seq::<Site>::empty(),
{
    reveal(Seq::filter);
}

/// Up to three sites, by rank.
proof fn of_rank_listed(a: Site, b: Site, c: Site, rank: int)
    ensures
        help::of_rank(seq![a], rank) == if a.rank == rank {
            seq![a]
        } else {
            Seq::empty()
        },
        a.rank != rank ==> help::of_rank(seq![a, b], rank) == if b.rank == rank {
            seq![b]
        } else {
            Seq::empty()
        },
        a.rank == rank && b.rank != rank ==> help::of_rank(seq![a, b], rank) == seq![a],
        a.rank != rank && b.rank != rank ==> help::of_rank(seq![a, b, c], rank) == if c.rank
            == rank {
            seq![c]
        } else {
            Seq::empty()
        },
        a.rank != rank && b.rank == rank && c.rank != rank ==> help::of_rank(seq![a, b, c], rank)
            == seq![b],
        a.rank == rank && b.rank != rank && c.rank != rank ==> help::of_rank(seq![a, b, c], rank)
            == seq![a],
{
    let none = Seq::<Site>::empty();
    of_rank_none(rank);
    of_rank_step(none, a, rank);
    of_rank_step(seq![a], b, rank);
    of_rank_step(seq![a, b], c, rank);
    assert(none.push(a) =~= seq![a]);
    assert(seq![a].push(b) =~= seq![a, b]);
    assert(seq![a, b].push(c) =~= seq![a, b, c]);
}

/// The ranks of the flash view's sites are all the ranking walks over.
proof fn flash_ranked(sites: Seq<Site>)
    requires
        forall|i: int|
            0 <= i < sites.len() ==> {
                ||| (#[trigger] sites[i]).rank == 12
                ||| sites[i].rank == 13
                ||| sites[i].rank == 71
            },
    ensures
        help::ranked(sites, 256) == help::of_rank(sites, 12) + help::of_rank(sites, 13)
            + help::of_rank(sites, 71),
{
    ranks_skipped(sites, 0, 12);
    ranks_skipped(sites, 14, 71);
    ranks_skipped(sites, 72, 256);
    assert(help::ranked(sites, 13) == help::ranked(sites, 12) + help::of_rank(sites, 12));
    assert(help::ranked(sites, 14) == help::ranked(sites, 13) + help::of_rank(sites, 13));
    assert(help::ranked(sites, 72) == help::ranked(sites, 71) + help::of_rank(sites, 71));
    assert(help::ranked(sites, 256) =~= help::of_rank(sites, 12) + help::of_rank(sites, 13)
        + help::of_rank(sites, 71));
}

/// The flash view's live sites, by rank.
spec fn flash_shown(screen: Option<FlashScreen>) -> Seq<Site> {
    match screen {
        Some(FlashScreen::Menu) => seq![flash_site(1), flash_site(2), flash_site(0)],
        Some(FlashScreen::OnlineBoards) => seq![flash_site(3), flash_site(0)],
        Some(FlashScreen::OnlineFirmware) => seq![flash_site(4), flash_site(0)],
        _ => seq![flash_site(0)],
    }
}

proof fn flash_sites_shown(ctx: Context)
    ensures
        help::ranked(flash_live(ctx.flash_screen), 256) == flash_shown(ctx.flash_screen),
{
    let screen = ctx.flash_screen;
    let sites = flash_live(screen);
    let (a, b, c) = match screen {
        Some(FlashScreen::Menu) => (flash_site(0), flash_site(1), flash_site(2)),
        Some(FlashScreen::OnlineBoards) => (flash_site(0), flash_site(3), flash_site(0)),
        Some(FlashScreen::OnlineFirmware) => (flash_site(0), flash_site(4), flash_site(0)),
        _ => (flash_site(0), flash_site(0), flash_site(0)),
    };
    flash_site_read(0, ctx);
    flash_site_read(1, ctx);
    flash_site_read(2, ctx);
    flash_site_read(3, ctx);
    flash_site_read(4, ctx);
    flash_ranked(sites);
    of_rank_listed(a, b, c, 12);
    of_rank_listed(a, b, c, 13);
    of_rank_listed(a, b, c, 71);
    assert(help::ranked(sites, 256) =~= flash_shown(screen));
}

/// What the footer writes on each screen of the flash view.
pub open spec fn flash_chips(screen: Option<FlashScreen>) -> Seq<(&'static str, &'static str)> {
    match screen {
        Some(FlashScreen::Menu) => seq![("s", "search online"), ("u", "paste URL"), ("?", "help")],
        Some(FlashScreen::OnlineBoards) | Some(FlashScreen::OnlineFirmware) => seq![
            ("u", "paste URL"),
            ("?", "help"),
        ],
        _ => seq![("?", "help")],
    }
}

/// What the footer writes for a site.
proof fn chips_step(sites: Seq<Site>, i: int)
    requires
        0 <= i < sites.len(),
    ensures
        help::chips(sites).len() == sites.len(),
        help::chips(sites)[i] == (sites[i].label, sites[i].short),
{
}

proof fn flash_sites_written(ctx: Context)
    ensures
        help::chips(flash_shown(ctx.flash_screen)) == flash_chips(ctx.flash_screen),
{
    flash_site_read(0, ctx);
    flash_site_read(1, ctx);
    flash_site_read(2, ctx);
    flash_site_read(3, ctx);
    flash_site_read(4, ctx);
    let sites = flash_shown(ctx.flash_screen);
    assert(help::chips(sites).len() == sites.len());
    assert forall|i: int| 0 <= i < sites.len() implies #[trigger] help::chips(sites)[i]
        == flash_chips(ctx.flash_screen)[i] by {
        chips_step(sites, i);
        assert(i == 0 || i == 1 || i == 2);
    }
    assert(help::chips(sites) =~= flash_chips(ctx.flash_screen));
}

/// The flash footer follows the screen: the search on the menu, the URL entry
/// there and on the online lists, the help everywhere.
pub proof fn the_flash_footer_follows_the_screen(ctx: Context)
    ensures
        help::chips(help::footer_sites(View::Flash, ctx)) == flash_chips(ctx.flash_screen),
{
    assert(help::footer_sites(View::Flash, ctx) == flash_shown(ctx.flash_screen)) by {
        flash_sites_live(ctx);
        flash_sites_shown(ctx);
    }
    flash_sites_written(ctx);
}

} // verus!
