//! What installing Zephyr promises: where the workspace goes, which command
//! the one question starts, and what is recorded when.

use vstd::prelude::*;
use vstd::string::*;

use crate::app::Model;
use crate::app::install_view::InstallUpdate;
use crate::app::tools;
use crate::effect::{Effect, PairTask, Task, TextTask};
use crate::geometry;
use crate::input::{KeyCode, KeyEvent};
use crate::overlay::{DirPurpose, Overlay};
use crate::panels::{InstallAction, Installer};
use crate::text;

verus! {

/// A workspace to be resumed is the folder itself; anything else gets a
/// `zephyr` folder inside.
pub proof fn the_workspace_goes_where_it_belongs(
    m: Model,
    dir: String,
    url: String,
    has_west: bool,
    complete: bool,
    toolchains: bool,
)
    ensures
        ({
            let after = m.installer_opened(dir, url, has_west, complete, toolchains);
            let installer = after.panels.installer.unwrap();
            &&& after.panels.installer is Some
            &&& has_west ==> installer.spec_root() == dir@
            &&& !has_west ==> installer.spec_root() == text::joined(dir@, "zephyr"@)
            &&& installer.complete == complete
            &&& installer.manifest_url == url
            &&& after.effects.last() == Effect::<Seq<char>, Seq<u8>>::Task(
                Task::ProbePrerequisites,
            )
            &&& toolchains ==> after.overlay == Some(
                Overlay::<Seq<char>>::SdkToolchains { selected: 0 },
            )
            &&& !toolchains ==> after.overlay == Some(Overlay::<Seq<char>>::ZephyrInstall)
        }),
{
}

/// Opening the installer inspects the folder it is opened over: an accepted
/// offer the folder offered, the toolchain list the installation in force.
pub proof fn the_folder_inspected_is_the_one_asked_for(
    m: Model,
    dir: Seq<char>,
    reason: Seq<char>,
    yes: bool,
)
    ensures
        ({
            let offer = Overlay::ConfirmInstallHere { dir, reason, confirm: yes };
            &&& m.agreed(offer).effects == m.effects.push(
                Effect::Text(TextTask::InspectInstallDir { toolchains: false }, dir),
            )
            &&& m.declined(offer).effects == m.effects
            &&& m.declined(offer).overlay == Some(
                Overlay::DirPicker {
                    purpose: DirPurpose::Installation,
                    path: dir,
                    selected: 0,
                    error: Some(reason),
                },
            )
            &&& m.panels.workspace is Some && m.panels.workspace.unwrap().dir is Some
                ==> m.toolchains_opened().effects == m.effects.push(
                Effect::Text(
                    TextTask::InspectInstallDir { toolchains: true },
                    m.panels.workspace.unwrap().dir.unwrap()@,
                ),
            )
            &&& m.panels.workspace is None || m.panels.workspace.unwrap().dir is None
                ==> m.toolchains_opened().effects == m.effects
                && m.toolchains_opened().logs.lines.last().0 is Warn
        }),
{
    reveal(Model::agreed);
    reveal(Model::agreed_on_host);
    reveal(Model::declined);
}

/// The installer's button does what it is labelled with.
pub proof fn the_button_does_what_it_says(m: Model, installer: Installer)
    requires
        m.panels.installer == Some(installer),
    ensures
        ({
            let pressed = |action: InstallAction| m.install_action(action);
            let root = installer.spec_root();
            let known = m.panels.workspace is Some && m.panels.workspace.unwrap().dir is Some
                && m.panels.workspace.unwrap().dir.unwrap()@ == root;
            &&& pressed(InstallAction::Stop).effects == m.effects.push(
                Effect::Task(Task::StopInstall),
            )
            &&& pressed(InstallAction::PickToolchains).overlay == Some(
                Overlay::<Seq<char>>::SdkToolchains { selected: 0 },
            )
            &&& pressed(InstallAction::Blocked) == m
            &&& pressed(InstallAction::Done) == m
            &&& known ==> pressed(InstallAction::InstallSdk).effects == m.effects.push(
                Effect::Task(Task::StartSdkOnly),
            )
            &&& !known ==> pressed(InstallAction::InstallSdk).effects == m.effects.push(
                Effect::Text(TextTask::SaveInstallation { sdk: None }, root),
            ).push(Effect::Task(Task::StartSdkOnly))
            &&& pressed(InstallAction::AddToolchains) == pressed(InstallAction::InstallSdk)
            &&& pressed(InstallAction::Retry) == pressed(InstallAction::Install)
            &&& pressed(InstallAction::Adopt).panels.installer is None
            &&& pressed(InstallAction::Adopt).overlay is None
            &&& pressed(InstallAction::Adopt).effects.len() > m.effects.len()
            &&& pressed(InstallAction::Adopt).effects[m.effects.len() as int] == Effect::<
                Seq<char>,
                Seq<u8>,
            >::Text(TextTask::SaveInstallation { sdk: installer.sdk }, root)
        }),
{
}

/// The one question quotes the run's first command and opens on No; agreeing
/// creates the target and then starts, refusing comes back to the installer.
pub proof fn the_question_quotes_the_first_command(
    m: Model,
    installer: Installer,
    why: Seq<char>,
    message: Seq<char>,
    yes: bool,
)
    requires
        m.panels.installer == Some(installer),
        installer.can_start,
    ensures
        ({
            let asked = m.install_action(InstallAction::Install);
            let question = Overlay::Confirm { message, confirm: yes };
            let accepted = asked.agreed(question);
            let declined = asked.declined(question);
            &&& asked.effects == m.effects
            &&& asked.overlay is Some
            &&& asked.overlay.unwrap() is Confirm
            &&& asked.overlay.unwrap().question() == Some(false)
            &&& installer.next_command is Some ==> asked.overlay.unwrap()->Confirm_message
                == installer.next_command.unwrap()@
            &&& installer.next_command is None ==> asked.overlay.unwrap()->Confirm_message
                == "west init -m "@ + installer.manifest_url@ + " ."@
            &&& accepted.effects == m.effects.push(
                Effect::Text(TextTask::CreateInstallRoot, installer.spec_root()),
            )
            &&& accepted.overlay == Some(Overlay::<Seq<char>>::ZephyrInstall)
            &&& !accepted.pending.install_confirm
            &&& accepted.install_root_answered(None).effects == accepted.effects.push(
                Effect::Task(Task::StartInstall),
            )
            &&& accepted.install_root_answered(Some(why)).effects == accepted.effects
            &&& accepted.install_root_answered(Some(why)).logs.lines.last().0 is Error
            &&& declined.effects == m.effects
            &&& declined.overlay == Some(Overlay::<Seq<char>>::ZephyrInstall)
            &&& !declined.pending.install_confirm
        }),
{
    reveal(Model::agreed);
    reveal(Model::agreed_on_host);
    reveal(Model::declined);
}

/// Without its prerequisites a run is not even asked about.
pub proof fn a_run_needs_its_prerequisites(m: Model, installer: Installer)
    requires
        m.panels.installer == Some(installer),
        !installer.can_start,
    ensures
        ({
            let after = m.install_action(InstallAction::Install);
            &&& after.effects == m.effects
            &&& after.overlay == m.overlay
            &&& after.pending == m.pending
            &&& !installer.prereqs_ready ==> after.logs.lines.last().0 is Warn
        }),
{
}

/// The installer's keys: the log scrolls the way the arrow points, by a row
/// or a page, `s` toggles the SDK, `t` lists the toolchains, `r` probes again
/// while nothing runs.
pub proof fn the_installer_takes_its_keys(m: Model, installer: Installer)
    requires
        m.panels.installer == Some(installer),
        m.drawn.install_viewport > 0,
    ensures
        ({
            let page = m.drawn.install_viewport;
            let asks = |code: KeyCode, task: Task|
                m.install_key(KeyEvent::spec_plain(code)).effects == m.effects.push(
                    Effect::Task(task),
                );
            let scroll = |down: bool, rows: usize| Task::ScrollInstall { down, rows, viewport: page };
            &&& asks(KeyCode::Up, scroll(false, 1))
            &&& asks(KeyCode::Down, scroll(true, 1))
            &&& asks(KeyCode::PageUp, scroll(false, page))
            &&& asks(KeyCode::PageDown, scroll(true, page))
            &&& asks(KeyCode::Char('s'), Task::ToggleSdk)
            &&& !installer.busy ==> asks(KeyCode::Char('r'), Task::ProbePrerequisites)
            &&& installer.busy ==> m.install_key(KeyEvent::spec_plain(KeyCode::Char('r'))) == m
            &&& m.install_key(KeyEvent::spec_plain(KeyCode::Char('t'))).overlay == Some(
                Overlay::<Seq<char>>::SdkToolchains { selected: 0 },
            )
            &&& m.install_key(KeyEvent::spec_plain(KeyCode::Enter)) == m.install_action(
                installer.action,
            )
            &&& !installer.busy ==> m.install_key(KeyEvent::spec_plain(KeyCode::Esc)) == m.closed()
        }),
{
    reveal(Model::install_key);
}

/// A toolchain is picked and unpicked by the space bar, on the row under the
/// cursor, and every pick is applied at once; the list wraps at both ends.
pub proof fn the_space_bar_picks_the_row_under_the_cursor(m: Model, selected: usize)
    requires
        m.panels.installer is Some,
        selected < 37,
    ensures
        ({
            let pressed = |code: KeyCode| m.toolchains_key(KeyEvent::spec_plain(code), selected);
            let space = pressed(KeyCode::Char(' '));
            &&& !m.desk.picked.contains(selected) ==> space.desk.picked == m.desk.picked.push(
                selected,
            )
            &&& m.desk.picked.contains(selected) ==> space.desk.picked.len() + 1
                == m.desk.picked.len()
            &&& space.effects == m.effects.push(Effect::Task(Task::RefreshSdkStep))
            &&& space.overlay == Some(Overlay::<Seq<char>>::SdkToolchains { selected })
            &&& pressed(KeyCode::Down).overlay == Some(
                Overlay::<Seq<char>>::SdkToolchains {
                    selected: if selected == 36 {
                        0
                    } else {
                        (selected + 1) as usize
                    },
                },
            )
            &&& pressed(KeyCode::Up).overlay == Some(
                Overlay::<Seq<char>>::SdkToolchains {
                    selected: if selected == 0 {
                        36
                    } else {
                        (selected - 1) as usize
                    },
                },
            )
            &&& pressed(KeyCode::Enter).overlay == Some(Overlay::<Seq<char>>::ZephyrInstall)
            &&& pressed(KeyCode::Esc).overlay == Some(Overlay::<Seq<char>>::ZephyrInstall)
            &&& pressed(KeyCode::Enter).desk == m.desk
        }),
{
    reveal(Model::toolchains_key);
    geometry::wrapping_steps_are_single(selected as int, 37);
    let picked = m.desk.picked;
    if picked.contains(selected) {
        picked.index_of_first_ensures(selected);
        let k = picked.index_of_first(selected).unwrap();
        assert(0 <= k < picked.len());
        assert(picked.remove(k).len() + 1 == picked.len());
    }
}

/// A step's failure is an error; a stopped run that left a complete
/// workspace has it recorded once, and a finished one is adopted.
pub proof fn what_a_run_leaves_is_recorded(m: Model, installer: Installer, update: InstallUpdate)
    requires
        m.panels.installer == Some(installer),
        update.notice is None,
    ensures
        ({
            let after = m.install_updated(update);
            let root = installer.spec_root();
            let save = Effect::<Seq<char>, Seq<u8>>::Text(
                TextTask::SaveInstallation { sdk: installer.sdk },
                root,
            );
            &&& update.stopped && !update.finished && !installer.complete ==> after == m
            &&& update.stopped && !update.finished && installer.complete && !m.workspace_at(root)
                ==> after.effects == m.effects.push(save) && after.panels == m.panels
            &&& update.stopped && !update.finished && m.workspace_at(root) ==> after == m
            &&& update.finished && !update.stopped ==> after.panels.installer is None
                && after.effects.len() > m.effects.len() && after.effects[m.effects.len() as int]
                == save
            &&& !update.finished && !update.stopped ==> after == m
        }),
{
}

/// With an installation but no projects folder, the folder is asked for next;
/// a folder already known is not asked for again.
pub proof fn the_projects_folder_is_asked_for_once(m: Model)
    ensures
        m.panels.workspace is Some && m.panels.workspace.unwrap().projects is None
            ==> m.projects_folder_offered().effects == m.effects.push(
            Effect::Task(Task::OpenProjectsPicker),
        ),
        m.panels.workspace is None || m.panels.workspace.unwrap().projects is Some
            ==> m.projects_folder_offered() == m,
{
}

/// Whatever became of recording an installation, the workspace is read anew,
/// and a failure is said as one.
pub proof fn a_recorded_installation_is_read_anew(
    m: Model,
    root: Seq<char>,
    target: Seq<char>,
    why: Seq<char>,
)
    ensures
        ({
            let refresh = m.effects.push(Effect::Task(Task::RefreshWorkspace));
            let kept = m.installation_answered(root, target, None, None);
            let lost = m.installation_answered(root, target, Some(why), None);
            let half = m.installation_answered(root, target, None, Some(why));
            &&& kept.effects == refresh
            &&& lost.effects == refresh
            &&& half.effects == refresh
            &&& kept.logs.lines.last().0 is Info
            &&& lost.logs.lines.last().0 is Error
            &&& half.logs.lines.last().0 is Error
            &&& kept.logs.lines.len() == m.logs.lines.len() + 1
            &&& half.logs.lines.len() == m.logs.lines.len() + 2
        }),
{
}

/// A tool set is told to the installer there is and kept for every later
/// one, which is told before it asks its prerequisites.
pub proof fn a_set_tool_reaches_every_installer(m: Model, tool: Seq<char>, program: Seq<char>)
    requires
        m.desk.installer_tools.len() == 0,
    ensures
        ({
            let set = m.installer_tool_set(tool, program);
            let told = Effect::<Seq<char>, Seq<u8>>::Pair(
                PairTask::SetInstallerTool,
                tool,
                program,
            );
            &&& m.panels.installer is Some ==> set.effects == m.effects.push(told)
            &&& m.panels.installer is None ==> set.effects == m.effects
            &&& set.tools_applied().effects == set.effects.push(told)
        }),
{
    reveal_with_fuel(tools::tool_place, 2);
    let set = m.installer_tool_set(tool, program);
    assert(set.desk.installer_tools.len() == 1);
    assert(tools::tool_effects(set.desk.installer_tools) =~= seq![
        Effect::<Seq<char>, Seq<u8>>::Pair(PairTask::SetInstallerTool, tool, program),
    ]);
    assert(set.tools_applied().effects =~= set.effects.push(
        Effect::Pair(PairTask::SetInstallerTool, tool, program),
    ));
}

} // verus!
