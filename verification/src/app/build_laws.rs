//! What driving a build promises: which target a row stands for, which
//! command an answer starts, and what a project takes with it.

use vstd::prelude::*;
use vstd::string::*;

use crate::app::{DocsFocus, Model};
use crate::app::build_view;
use crate::app::build_view::{Composed, PickedProject};
use crate::effect::{Effect, Task, TextTask};
use crate::input::{KeyCode, KeyEvent, KeyModifiers};
use crate::overlay::{DirPurpose, Overlay};
use crate::panels;
use crate::panels::{BuildAction, BuildKind, Variant};
use crate::text;

verus! {

/// The variant an answer picks is the first one of its kind; none is picked
/// exactly where none of that kind is listed.
pub proof fn the_first_target_of_its_kind_is_picked(variants: Seq<Variant>, simulator: bool)
    ensures
        match panels::variant_for(variants, simulator) {
            Some(i) => {
                &&& 0 <= i < variants.len()
                &&& variants[i].simulator == simulator
                &&& forall|k: int|
                    0 <= k < i ==> (#[trigger] variants[k]).simulator != simulator
            },
            None => forall|k: int|
                0 <= k < variants.len() ==> (#[trigger] variants[k]).simulator != simulator,
        },
    decreases variants.len(),
{
    if variants.len() > 0 && variants[0].simulator != simulator {
        let rest = variants.drop_first();
        the_first_target_of_its_kind_is_picked(rest, simulator);
        assert forall|k: int|
            0 < k < variants.len() && rest[k - 1].simulator != simulator implies (
        #[trigger] variants[k]).simulator != simulator by {
            assert(rest[k - 1] == variants[k]);
        }
    }
}

/// The row answered with is the target built for: row 1 is remembered as the
/// simulator, row 0 as the board, and where a variant of that kind is listed
/// the one selected is of that kind and the one kept for the project.
pub proof fn the_answered_row_is_the_target(
    m: Model,
    kind: BuildKind,
    selected: usize,
    modifiers: KeyModifiers,
)
    requires
        selected <= 1,
        m.panels.build is Some,
        m.panels.lists.variants@.len() <= usize::MAX,
    ensures
        ({
            let simulator = selected == 1;
            let variants = m.panels.lists.variants@;
            let enter = KeyEvent { code: KeyCode::Enter, modifiers };
            let after = m.build_target_key(enter, kind, selected);
            let panel = after.panels.build.unwrap();
            let old = m.panels.build.unwrap();
            let listed = exists|k: int|
                0 <= k < variants.len() && (#[trigger] variants[k]).simulator == simulator;
            &&& after == m.target_applied(kind, selected)
            &&& panel.remembered_simulator == simulator
            &&& panel.root == old.root && panel.board == old.board && panel.shield == old.shield
            &&& listed ==> {
                &&& panel.variant is Some
                &&& panel.variant.unwrap() < variants.len()
                &&& variants[panel.variant.unwrap() as int].simulator == simulator
                &&& after.effects.len() > m.effects.len()
                &&& after.effects[m.effects.len() as int] == Effect::<Seq<char>, Seq<u8>>::Task(
                    Task::SelectVariant(panel.variant.unwrap()),
                )
            }
            &&& listed && m.project.manager.spec_kind() is Some ==> {
                &&& after.effects.len() > m.effects.len() + 1
                &&& after.effects[m.effects.len() as int + 1] == Effect::<Seq<char>, Seq<u8>>::Task(
                    Task::PersistTarget {
                        root: old.root,
                        board: old.board,
                        shield: old.shield,
                        variant: Some(variants[panel.variant.unwrap() as int].name),
                    },
                )
            }
            &&& !listed ==> panel.variant == old.variant
            &&& m.project.manager.spec_kind() is Some && !old.busy ==> after.effects.last()
                == Effect::<Seq<char>, Seq<u8>>::Task(Task::StartBuild(BuildAction::Build(kind)))
        }),
{
    reveal(Model::build_target_key);
    the_first_target_of_its_kind_is_picked(m.panels.lists.variants@, selected == 1);
}

/// The question opens on the answer last given to it.
pub proof fn the_question_opens_on_the_last_answer(
    m: Model,
    kind: BuildKind,
    again: BuildKind,
    selected: usize,
)
    requires
        selected <= 1,
        m.panels.build is Some,
    ensures
        m.target_applied(kind, selected).target_asked(again).overlay == Some(
            Overlay::<Seq<char>>::BuildTarget { kind: again, selected },
        ),
{
}

/// The question's two rows are walked by the arrows, which wrap; leaving it
/// starts nothing.
pub proof fn the_target_rows_are_walked(m: Model, kind: BuildKind, selected: usize)
    requires
        selected <= 1,
    ensures
        ({
            let other: usize = if selected == 0 {
                1
            } else {
                0
            };
            let turned = m.shown(Overlay::BuildTarget { kind, selected: other });
            &&& m.build_target_key(KeyEvent::spec_plain(KeyCode::Down), kind, selected) == turned
            &&& m.build_target_key(KeyEvent::spec_plain(KeyCode::Up), kind, selected) == turned
            &&& m.build_target_key(KeyEvent::spec_plain(KeyCode::Esc), kind, selected) == m
        }),
{
    reveal(Model::build_target_key);
}

/// A board picked is the row under the cursor of the filtered list: it is in
/// force, set, and kept with the project.
pub proof fn the_board_under_the_cursor_is_set(m: Model, filter: Seq<char>, selected: usize)
    requires
        m.panels.build is Some,
    ensures
        ({
            let rows = m.panels.lists.boards@.filter(
                |name: String| panels::name_matches(name@, filter),
            );
            let after = m.board_picked(filter, selected);
            let old = m.panels.build.unwrap();
            &&& selected < rows.len() ==> {
                let name = rows[selected as int];
                let set = m.effects.push(Effect::Text(TextTask::SetBoard, name@));
                &&& after.panels.build.unwrap().board == Some(name)
                &&& after.panels.build.unwrap().shield == old.shield
                &&& m.project.manager.spec_kind() is None ==> after.effects == set
                &&& m.project.manager.spec_kind() is Some ==> {
                    &&& after.effects.len() == m.effects.len() + 2
                    &&& after.effects.drop_last() == set
                    &&& after.effects.last() is Task
                    &&& after.effects.last()->Task_0 is PersistTarget
                    &&& after.effects.last()->Task_0->PersistTarget_board == Some(name)
                    &&& after.effects.last()->Task_0->PersistTarget_root == old.root
                    &&& after.effects.last()->Task_0->PersistTarget_shield == old.shield
                }
            }
            &&& selected >= rows.len() ==> after == m
        }),
{
    let after = m.board_picked(filter, selected);
    if selected < panels::filtered(m.panels.lists.boards@, filter).len()
        && m.project.manager.spec_kind() is Some {
        let name = panels::filtered(m.panels.lists.boards@, filter)[selected as int];
        assert(after.effects.drop_last() =~= m.effects.push(
            Effect::Text(TextTask::SetBoard, name@),
        ));
    }
}

/// The first shield row clears the shield; row `i` after it sets the `i`-th
/// of the filtered list. Either is kept with the project.
pub proof fn the_shield_under_the_cursor_is_set(m: Model, filter: Seq<char>, selected: usize)
    requires
        m.panels.build is Some,
    ensures
        ({
            let rows = m.panels.lists.shields@.filter(
                |name: String| panels::name_matches(name@, filter),
            );
            let after = m.shield_picked(filter, selected);
            let old = m.panels.build.unwrap();
            let shield = after.panels.build.unwrap().shield;
            &&& selected == 0 ==> shield is None && after.effects.len() > m.effects.len()
                && after.effects[m.effects.len() as int] == Effect::<Seq<char>, Seq<u8>>::Task(
                Task::ClearShield,
            )
            &&& 0 < selected <= rows.len() ==> shield == Some(rows[selected - 1])
                && after.effects.len() > m.effects.len() && after.effects[m.effects.len() as int]
                == Effect::<Seq<char>, Seq<u8>>::Text(
                TextTask::SetShield,
                rows[selected - 1]@,
            )
            &&& selected <= rows.len() && m.project.manager.spec_kind() is Some ==> {
                &&& after.effects.len() == m.effects.len() + 2
                &&& after.effects.last() is Task
                &&& after.effects.last()->Task_0 is PersistTarget
                &&& after.effects.last()->Task_0->PersistTarget_shield == shield
                &&& after.effects.last()->Task_0->PersistTarget_board == old.board
                &&& after.effects.last()->Task_0->PersistTarget_root == old.root
            }
            &&& after.panels.build.unwrap().board == old.board
            &&& selected > rows.len() ==> after == m
        }),
{
}

/// A confirmed question runs the action it asked about; refused, it runs
/// nothing.
pub proof fn the_confirmed_action_is_the_one_run(m: Model, action: BuildAction, yes: bool)
    requires
        m.panels.build is Some,
        m.project.manager.spec_kind() is Some,
    ensures
        ({
            let question = Overlay::<Seq<char>>::ConfirmBuild { action, confirm: yes };
            let after = m.agreed(question);
            &&& (action is Build || action is Flash) && !m.panels.build.unwrap().busy
                ==> after.effects == m.effects.push(Effect::Task(Task::StartBuild(action)))
            &&& (action is Build || action is Flash) && m.panels.build.unwrap().busy
                ==> after.effects == m.effects && after.logs.lines.last().0 is Warn
            &&& action is UpdateZephyr ==> after.effects == m.effects.push(
                Effect::Task(Task::WorkspaceUpdate),
            )
            &&& m.declined(question) == m
        }),
{
    reveal(Model::agreed);
    reveal(Model::agreed_on_host);
    reveal(Model::declined);
}

/// What each row of the build list asks for, on a free panel whose project
/// can be built.
pub proof fn each_action_asks_for_its_own_work(m: Model, kind: BuildKind)
    requires
        m.panels.build is Some,
        !m.panels.build.unwrap().busy,
        m.panels.build.unwrap().lifecycle_ready,
        m.panels.build.unwrap().buildable,
        m.project.manager.spec_kind() is Some,
        m.panels.workspace is Some,
        m.panels.workspace.unwrap().dir is Some,
    ensures
        ({
            let panel = m.panels.build.unwrap();
            let asks = |action: BuildAction, task: Task|
                m.build_run(action).effects == m.effects.push(Effect::Task(task));
            let asks_first = |action: BuildAction|
                m.build_run(action).effects == m.effects && m.build_run(action).overlay == Some(
                    Overlay::<Seq<char>>::ConfirmBuild { action, confirm: false },
                );
            &&& kind is Clean ==> asks_first(BuildAction::Build(kind))
            &&& !(kind is Clean) && !panel.offers_build_choice ==> asks(
                BuildAction::Build(kind),
                Task::StartBuild(BuildAction::Build(kind)),
            )
            &&& !(kind is Clean) && panel.offers_build_choice ==> m.build_run(
                BuildAction::Build(kind),
            ).overlay is Some && m.build_run(BuildAction::Build(kind)).overlay.unwrap()
                is BuildTarget && m.build_run(BuildAction::Build(kind)).effects == m.effects
            &&& asks_first(BuildAction::Flash)
            &&& asks(BuildAction::Menuconfig, Task::Menuconfig)
            &&& asks(BuildAction::InstallZephyr, Task::OpenPurposePicker(DirPurpose::Install))
            &&& asks(BuildAction::Dashboard, Task::StartBuild(BuildAction::Dashboard))
            &&& asks(BuildAction::Run, Task::StartBuild(BuildAction::Run))
            &&& asks(
                BuildAction::SizeReport,
                Task::ComposeReport { installation: m.panels.workspace.unwrap().dir.unwrap() },
            )
            &&& m.build_run(BuildAction::UpdateZephyr).overlay == Some(
                Overlay::<Seq<char>>::ZephyrActions { selected: 0 },
            )
            &&& m.build_run(BuildAction::Stop) == m
        }),
{
}

/// A running command is stopped by `Stop`, and by nothing else.
pub proof fn only_stop_reaches_a_running_command(m: Model, action: BuildAction)
    requires
        m.panels.build is Some,
        m.panels.build.unwrap().busy,
    ensures
        action is Stop ==> m.build_run(action).effects == m.effects.push(
            Effect::Task(Task::StopBuild),
        ),
        !(action is Stop) ==> m.build_run(action).effects == m.effects && m.build_run(
            action,
        ).overlay == m.overlay,
        m.build_run(action).logs.lines.len() == m.logs.lines.len() + 1,
        m.build_run(action).logs.lines.last().0 is Warn,
{
}

/// The operations wait for the checklist's answers, and the update for an
/// installation.
pub proof fn unanswered_checklists_hold_the_operations(m: Model, action: BuildAction)
    requires
        m.panels.build is Some,
        !m.panels.build.unwrap().busy,
    ensures
        !m.panels.build.unwrap().lifecycle_ready && (action is Build || action is Flash
            || action is Menuconfig) ==> m.build_run(action) == m,
        action is UpdateZephyr && (m.panels.workspace is None
            || m.panels.workspace.unwrap().dir is None) ==> m.build_run(action) == m,
        action is InstallZephyr ==> m.build_run(action) != m,
{
    if action is InstallZephyr {
        assert(m.build_run(action).effects.len() == m.effects.len() + 1);
    }
}

/// The build list's cursor follows the arrows, by one row or by five, and
/// stays in the list; `Enter` runs the row under it.
pub proof fn the_build_cursor_follows_the_arrows(m: Model)
    requires
        m.panels.build is Some,
        m.panels.build.unwrap().cursor < m.panels.lists.build_actions@.len() <= usize::MAX,
    ensures
        ({
            let at = m.panels.build.unwrap().cursor as int;
            let rows = m.panels.lists.build_actions@;
            let end = rows.len() - 1;
            let moved = |code: KeyCode|
                m.build_key(KeyEvent::spec_plain(code)).panels.build.unwrap().cursor as int;
            &&& moved(KeyCode::Up) == (if at > 0 {
                at - 1
            } else {
                0
            })
            &&& moved(KeyCode::Down) == (if at < end {
                at + 1
            } else {
                end
            })
            &&& moved(KeyCode::PageUp) == (if at > 5 {
                at - 5
            } else {
                0
            })
            &&& moved(KeyCode::PageDown) == (if at + 5 < end {
                at + 5
            } else {
                end
            })
            &&& moved(KeyCode::Home) == 0
            &&& moved(KeyCode::End) == end
            &&& m.build_key(KeyEvent::spec_plain(KeyCode::Enter)) == m.build_run(rows[at])
        }),
{
    reveal(Model::build_key);
}

/// A command that started marks the panel busy and shows its output; a flash
/// takes the keyboard there too. One that did not start changes no panel.
pub proof fn a_started_build_shows_its_output(
    m: Model,
    action: BuildAction,
    command: Seq<char>,
)
    requires
        m.panels.build is Some,
        !(action is Build),
    ensures
        ({
            let after = m.build_answered(action, Composed::Started(command));
            &&& after.panels.build.unwrap().busy
            &&& after.screen.view is Dashboard
            &&& after.screen.log_tab is Monitor
            &&& after.monitor.source is Build
            &&& action is Flash ==> after.screen.focus is Logs
            &&& !(action is Flash) ==> after.screen.focus is Build
            &&& m.build_answered(action, Composed::Refused) == m
            &&& m.build_answered(action, Composed::NoCommand).panels == m.panels
            &&& m.build_answered(action, Composed::NoCommand).logs.lines.last().0 is Warn
        }),
{
}

/// After a clean the cursor rests on the build row, wherever it stands.
pub proof fn a_clean_parks_on_the_build_row(m: Model, command: Seq<char>)
    requires
        m.panels.build is Some,
        m.panels.lists.build_actions@.len() <= usize::MAX,
        m.panels.lists.build_actions@.contains(BuildAction::Build(BuildKind::Build)),
    ensures
        ({
            let after = m.build_answered(
                BuildAction::Build(BuildKind::Clean),
                Composed::Started(command),
            );
            let at = after.panels.build.unwrap().cursor as int;
            &&& at < m.panels.lists.build_actions@.len()
            &&& m.panels.lists.build_actions@[at] == BuildAction::Build(BuildKind::Build)
        }),
{
    the_place_holds_the_action(
        m.panels.lists.build_actions@,
        BuildAction::Build(BuildKind::Build),
    );
}

proof fn the_place_holds_the_action(actions: Seq<BuildAction>, action: BuildAction)
    requires
        actions.contains(action),
    ensures
        build_view::action_place(actions, action) is Some,
        0 <= build_view::action_place(actions, action).unwrap() < actions.len(),
        actions[build_view::action_place(actions, action).unwrap()] == action,
    decreases actions.len(),
{
    if actions[0] != action {
        let i = choose|i: int| 0 <= i < actions.len() && actions[i] == action;
        assert(actions.drop_first()[i - 1] == action);
        the_place_holds_the_action(actions.drop_first(), action);
    }
}

/// The editor's command waits to be picked up as it was composed; without
/// one nothing waits.
pub proof fn the_editor_gets_its_command(m: Model, line: String)
    ensures
        m.menuconfig_answered(Some(line)).pending.command == Some(line),
        m.menuconfig_answered(Some(line)).logs.lines.last().0 is Info,
        m.menuconfig_answered(None).pending == m.pending,
        m.menuconfig_answered(None).logs.lines.last().0 is Warn,
{
}

/// A report that can be composed is built; one without an installation is
/// not even asked for.
pub proof fn a_report_needs_an_installation(m: Model)
    requires
        m.panels.build is Some,
        m.project.manager.spec_kind() is Some,
    ensures
        m.panels.workspace is None || m.panels.workspace.unwrap().dir is None
            ==> m.report_asked().effects == m.effects && m.report_asked().logs.lines.last().0
            is Warn,
        !m.panels.build.unwrap().busy ==> m.report_answered(None).effects == m.effects.push(
            Effect::Task(Task::StartBuild(BuildAction::SizeReport)),
        ),
{
}

/// A picked project takes the whole session along: the build root, the
/// workspace's files, and the refreshes of its boards, variants and answers,
/// all under the one path.
pub proof fn a_picked_project_takes_the_session_along(
    m: Model,
    selected: usize,
    row: PickedProject,
    reason: Seq<char>,
)
    requires
        m.panels.build is Some,
        m.panels.workspace is Some,
    ensures
        ({
            let after = m.project_answered(selected, Some(row), None);
            let n = m.effects.len() as int;
            let refused = m.project_answered(selected, None, Some(reason));
            &&& row.buildable ==> {
                &&& after.panels.build.unwrap().root == row.path
                &&& after.panels.workspace.unwrap().files_root == Some(row.path)
                &&& after.panels.workspace.unwrap().files_path == Some(row.path)
                &&& after.overlay is None
                &&& after.effects.len() == n + 4
                &&& after.effects.take(n) == m.effects
                &&& after.effects[n] == Effect::<Seq<char>, Seq<u8>>::Task(
                    Task::SetProject { root: row.path },
                )
                &&& after.effects[n + 1] == Effect::<Seq<char>, Seq<u8>>::Task(
                    Task::RefreshBoardRoots {
                        root: row.path,
                        stop_at: m.panels.workspace.unwrap().projects,
                    },
                )
                &&& after.effects[n + 2] == Effect::<Seq<char>, Seq<u8>>::Task(
                    Task::RefreshVariants { root: row.path },
                )
                &&& after.effects[n + 3] == Effect::<Seq<char>, Seq<u8>>::Task(
                    Task::ReadProjectAnswers { root: row.path },
                )
            }
            &&& !row.buildable ==> {
                &&& after.panels == m.panels
                &&& after.effects == m.effects
                &&& after.overlay is Some
                &&& after.overlay.unwrap() is ProjectPicker
            }
            &&& refused.overlay == Some(
                Overlay::ProjectPicker { mpy: false, selected, error: Some(reason) },
            )
            &&& refused.panels == m.panels
        }),
{
    let after = m.project_answered(selected, Some(row), None);
    if row.buildable {
        assert(after.effects.take(m.effects.len() as int) =~= m.effects);
    }
}

/// The row picked is looked up in the projects folder; without one the
/// folder is asked for first.
pub proof fn the_projects_folder_comes_first(m: Model, selected: usize)
    ensures
        m.panels.workspace is Some && m.panels.workspace.unwrap().projects is Some
            ==> m.project_asked(selected).effects == m.effects.push(
            Effect::Text(
                TextTask::ApplyProject(selected),
                m.panels.workspace.unwrap().projects.unwrap()@,
            ),
        ) && m.project_flow_opened().overlay == Some(
            Overlay::<Seq<char>>::ProjectPicker { mpy: false, selected: 0, error: None },
        ),
        m.panels.workspace is None || m.panels.workspace.unwrap().projects is None
            ==> m.project_flow_opened().effects == m.effects.push(
            Effect::Task(Task::OpenProjectsPicker),
        ) && m.project_asked(selected) == m.project_flow_opened(),
{
}

/// A session starts on the board, and a saved answer that names a listed
/// variant seeds the question; no saved answer leaves the last one.
pub proof fn a_session_starts_on_the_board(
    m: Model,
    variants: Vec<Variant>,
    saved: Option<Seq<char>>,
    i: int,
)
    requires
        m.panels.build is Some,
        variants@.len() <= usize::MAX,
        0 <= i < variants@.len(),
        saved is Some ==> variants@[i].name@ == saved.unwrap() && forall|k: int|
            0 <= k < i ==> (#[trigger] variants@[k]).name@ != saved.unwrap(),
    ensures
        ({
            let after = m.variants_found(variants, saved);
            let panel = after.panels.build.unwrap();
            &&& after.panels.lists.variants == variants
            &&& panel.variant is Some ==> panel.variant.unwrap() < variants@.len()
                && !variants@[panel.variant.unwrap() as int].simulator
            &&& panel.variant is None ==> forall|k: int|
                0 <= k < variants@.len() ==> (#[trigger] variants@[k]).simulator
            &&& saved is Some ==> panel.remembered_simulator == variants@[i].simulator
            &&& saved is None ==> panel.remembered_simulator
                == m.panels.build.unwrap().remembered_simulator
            &&& after.effects == m.effects
        }),
{
    the_first_target_of_its_kind_is_picked(variants@, false);
    if saved is Some {
        the_first_of_a_name_decides(variants@, i);
    }
}

proof fn the_first_of_a_name_decides(variants: Seq<Variant>, i: int)
    requires
        0 <= i < variants.len(),
        forall|k: int| 0 <= k < i ==> (#[trigger] variants[k]).name@ != variants[i].name@,
    ensures
        build_view::names_simulator(variants, variants[i].name@) == variants[i].simulator,
    decreases i,
{
    if i > 0 {
        let rest = variants.drop_first();
        assert(variants[0].name@ != variants[i].name@);
        assert(rest[i - 1] == variants[i]);
        assert forall|k: int| 0 <= k < i - 1 implies (#[trigger] rest[k]).name@ != rest[i
            - 1].name@ by {
            assert(rest[k] == variants[k + 1]);
        }
        the_first_of_a_name_decides(rest, i - 1);
    }
}

/// The Zephyr menu's rows: update (asked first), toolchains, the report
/// window, and the backend's own dashboard.
pub proof fn the_zephyr_menu_runs_the_row_under_the_cursor(m: Model, selected: usize)
    requires
        selected <= 3,
    ensures
        ({
            let after = m.zephyr_actions_key(KeyEvent::spec_plain(KeyCode::Enter), selected);
            let menu = m.shown(Overlay::<Seq<char>>::ZephyrActions { selected });
            &&& selected == 0 ==> after.overlay == Some(
                Overlay::<Seq<char>>::ConfirmBuild {
                    action: BuildAction::UpdateZephyr,
                    confirm: false,
                },
            ) && after.effects == m.effects
            &&& selected == 1 ==> after == menu.toolchains_opened()
            &&& selected == 2 ==> after == menu.dashboard_opened()
            &&& selected == 3 ==> after == m.build_run(BuildAction::Dashboard)
            &&& m.zephyr_actions_key(KeyEvent::spec_plain(KeyCode::Esc), selected) == m
        }),
{
    reveal(Model::zephyr_actions_key);
}

/// The pickers open on an empty filter at the first row, and fetch their own
/// list under the workspace's own documentation release.
pub proof fn the_pickers_fetch_their_own_list(m: Model)
    requires
        m.panels.build is Some,
        m.project.manager.spec_kind() is Some,
    ensures
        ({
            let boards = m.board_picker_opened();
            let shields = m.shield_picker_opened();
            let release = if m.panels.workspace is Some
                && m.panels.workspace.unwrap().zephyr_version is Some {
                m.panels.workspace.unwrap().zephyr_version.unwrap()@
            } else {
                "latest"@
            };
            let docs = m.effects.push(Effect::Text(TextTask::EnsureDocsIndex, release));
            &&& boards.effects == docs.push(Effect::Task(Task::FetchBoards))
            &&& shields.effects == docs.push(Effect::Task(Task::FetchShields))
            &&& boards.overlay is Some
            &&& boards.overlay.unwrap() is BoardPicker
            &&& boards.overlay.unwrap()->BoardPicker_input.len() == 0
            &&& boards.overlay.unwrap()->BoardPicker_selected == 0
            &&& shields.overlay is Some
            &&& shields.overlay.unwrap() is ShieldPicker
            &&& shields.overlay.unwrap()->ShieldPicker_input.len() == 0
            &&& shields.overlay.unwrap()->ShieldPicker_selected == 0
        }),
{
}

/// The documentation fetched is that of the row under the picker's cursor:
/// a board in the board picker, a shield in the shield picker, whose first
/// row is none; anywhere else the fetches only move on.
pub proof fn the_docs_follow_the_cursor(
    m: Model,
    input: Seq<char>,
    selected: usize,
    scroll: u16,
    focus: DocsFocus,
)
    requires
        m.panels.build is Some,
    ensures
        ({
            let boards = m.panels.lists.boards@.filter(
                |name: String| panels::name_matches(name@, input),
            );
            let shields = m.panels.lists.shields@.filter(
                |name: String| panels::name_matches(name@, input),
            );
            let idle = m.effects.push(Effect::Task(Task::DriveDocs));
            let board = m.shown(Overlay::BoardPicker { input, selected, scroll, focus });
            let shield = m.shown(Overlay::ShieldPicker { input, selected, scroll, focus });
            &&& selected < boards.len() ==> board.docs_driven().effects == m.effects.push(
                Effect::Text(TextTask::DriveBoardDocs, boards[selected as int]@),
            )
            &&& selected >= boards.len() ==> board.docs_driven().effects == idle
            &&& 0 < selected <= shields.len() ==> shield.docs_driven().effects == m.effects.push(
                Effect::Text(TextTask::DriveShieldDocs, shields[selected - 1]@),
            )
            &&& selected == 0 || selected > shields.len() ==> shield.docs_driven().effects == idle
            &&& m.overlay is None ==> m.docs_driven().effects == idle
        }),
{
}

/// A target answer that was kept is said where, and one that was not why.
pub proof fn a_kept_answer_is_reported(m: Model, config: Seq<char>, why: Seq<char>)
    ensures
        m.target_answered(config, None).logs.lines.last().0 is Info,
        m.target_answered(config, Some(why)).logs.lines.last().0 is Warn,
        m.target_answered(config, Some(why)).panels == m.panels,
        m.target_answered(config, None).effects == m.effects,
{
}

/// A board, a shield and a build are matched by a filter wherever it occurs
/// in their name, and by an empty one always.
pub proof fn a_filter_matches_anywhere_in_a_name(
    before: Seq<char>,
    filter: Seq<char>,
    after: Seq<char>,
)
    requires
        text::ascii(before + filter + after),
    ensures
        panels::name_matches(before + filter + after, filter),
        panels::name_matches(before, Seq::empty()),
{
    let name = before + filter + after;
    let low = text::lowercase(name);
    let needle = text::lowercase(filter);
    assert(text::ascii(filter)) by {
        assert forall|i: int| 0 <= i < filter.len() implies #[trigger] filter[i]
            <= '\u{7f}' by {
            assert(name[before.len() + i] == filter[i]);
        }
    }
    assert(low.subrange(before.len() as int, before.len() as int + needle.len()) =~= needle);
    assert(text::ascii(Seq::<char>::empty()));
    assert(text::lowercase(Seq::<char>::empty()).len() == 0);
}

/// What an action is called in the log is its own name.
pub proof fn actions_are_told_apart_by_name(a: BuildAction, b: BuildAction)
    requires
        a is Flash || a is SizeReport || a is Run || a is Dashboard,
        b is Flash || b is SizeReport || b is Run || b is Dashboard,
        build_view::action_label(a) == build_view::action_label(b),
    ensures
        a == b,
{
    reveal_strlit("Flash");
    reveal_strlit("Memory report");
    reveal_strlit("Run");
    reveal_strlit("Dashboard");
    assert("Flash"@.len() == 5 && "Memory report"@.len() == 13);
    assert("Run"@.len() == 3 && "Dashboard"@.len() == 9);
}

} // verus!
