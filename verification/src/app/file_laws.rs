//! What working on local and device files promises: which side an action
//! reaches, and under which name.

use vstd::prelude::*;
use vstd::string::*;

use crate::app::{Focus, Model, PendingEdit, RunState};
use crate::app::file_browser;
use crate::app::file_browser::{
    FileAction, Transfer, TransferKind, ViewerModel, ViewerSource, ViewerState,
};
use crate::effect::{BrowserRequest, Effect, EffectModel, PairTask, Task, TextTask};
use crate::input::{KeyCode, KeyEvent};
use crate::overlay::{DevicePath, Overlay, SyncPlan};
use crate::panels::{DeviceEntry, Side};
use crate::text;
use crate::text_laws;

verus! {

/// The effects that change a file of this machine.
pub open spec fn changes_local(effect: EffectModel) -> bool {
    match effect {
        Effect::Text(TextTask::RemoveFile, _)
        | Effect::Text(TextTask::RemoveDir, _)
        | Effect::Text(TextTask::CreateFile, _)
        | Effect::Text(TextTask::CreateDir, _)
        | Effect::Pair(PairTask::Rename, _, _) => true,
        _ => false,
    }
}

/// The effects that ask something of the device's files.
pub open spec fn asks_device(effect: EffectModel) -> bool {
    match effect {
        Effect::Text(TextTask::Upload { .. }, _)
        | Effect::Text(TextTask::UploadDir { .. }, _)
        | Effect::Text(TextTask::Download { .. }, _)
        | Effect::Text(TextTask::DownloadDir { .. }, _)
        | Effect::Text(TextTask::EditDownload { .. }, _)
        | Effect::Text(TextTask::ViewOnDevice { .. }, _)
        | Effect::Text(TextTask::RemoveOnDevice { .. }, _)
        | Effect::Text(TextTask::RemoveDirOnDevice { .. }, _)
        | Effect::Text(TextTask::MakeDirOnDevice { .. }, _)
        | Effect::Text(TextTask::TouchOnDevice { .. }, _) => true,
        _ => false,
    }
}

impl Model {
    /// A browser is there, and nothing holds its port.
    pub open spec fn device_free(self) -> bool {
        &&& self.panels.browser is Some
        &&& self.monitor.run is None
        &&& self.chain.probe is None
        &&& self.flash matches Some(flash) ==> !flash.busy
    }
}

/// A request handed to a free device goes out as it is; without a browser,
/// or while a run, the probe or a flash command holds the port, nothing does.
pub proof fn a_free_device_takes_the_request(m: Model, effect: EffectModel)
    ensures
        m.device_free() ==> m.dispatched(effect).effects == m.effects.push(effect) && m.dispatched(
            effect,
        ).logs == m.logs,
        !m.device_free() ==> m.dispatched(effect).effects == m.effects,
        m.dispatched(effect).overlay == m.overlay,
{
}

/// A confirmed deletion reaches the side it was asked for, and only that: a
/// device entry is removed on the device under its own name, a local one in
/// the directory on screen, a directory as a directory.
pub proof fn a_deletion_reaches_the_side_it_was_asked_for(
    m: Model,
    side: Side,
    name: Seq<char>,
    is_dir: bool,
    yes: bool,
)
    ensures
        ({
            let question = Overlay::ConfirmDelete { side, name, is_dir, confirm: yes };
            let after = m.agreed(question);
            &&& side is Device ==> forall|i: int|
                m.effects.len() <= i < after.effects.len() ==> !changes_local(
                    #[trigger] after.effects[i],
                )
            &&& side is Local ==> forall|i: int|
                m.effects.len() <= i < after.effects.len() ==> !asks_device(
                    #[trigger] after.effects[i],
                )
            &&& side is Device && m.device_free() ==> after.effects == m.effects.push(
                Effect::Text(
                    if is_dir {
                        TextTask::RemoveDirOnDevice { port: m.port() }
                    } else {
                        TextTask::RemoveOnDevice { port: m.port() }
                    },
                    name,
                ),
            )
            &&& side is Local && m.panels.browser is Some ==> after.effects == m.effects.push(
                Effect::Text(
                    if is_dir {
                        TextTask::RemoveDir
                    } else {
                        TextTask::RemoveFile
                    },
                    text::joined(m.panels.browser.unwrap().local_path@, name),
                ),
            )
            &&& m.declined(question).effects == m.effects
        }),
{
    reveal(Model::agreed);
    reveal(Model::agreed_on_device);
    reveal(Model::declined);
}

/// The deletion an entry's menu asks about is the deletion of that entry: the
/// question carries its side, its name and its kind, and opens on No.
pub proof fn the_menu_deletes_its_own_entry(m: Model, side: Side, name: Seq<char>, is_dir: bool)
    requires
        m.device_free(),
    ensures
        ({
            let asked = m.file_action(side, name, is_dir, FileAction::Delete);
            let done = asked.closed().agreed(asked.overlay.unwrap());
            &&& asked.overlay is Some
            &&& asked.overlay.unwrap().question() == Some(false)
            &&& asked.effects == m.effects
            &&& done.effects.len() == m.effects.len() + 1
            &&& side is Device ==> done.effects.last() == Effect::<Seq<char>, Seq<u8>>::Text(
                if is_dir {
                    TextTask::RemoveDirOnDevice { port: m.port() }
                } else {
                    TextTask::RemoveOnDevice { port: m.port() }
                },
                name,
            )
            &&& side is Local ==> changes_local(done.effects.last())
        }),
{
    reveal(Model::agreed);
    reveal(Model::agreed_on_device);
}

/// A confirmed upload sends the entry asked about, a directory as a
/// directory; nothing local changes.
pub proof fn an_upload_sends_the_entry_asked_about(
    m: Model,
    name: Seq<char>,
    is_dir: bool,
    yes: bool,
)
    ensures
        ({
            let question = Overlay::ConfirmUpload { name, is_dir, confirm: yes };
            &&& m.device_free() ==> m.agreed(question).effects == m.effects.push(
                Effect::Text(
                    if is_dir {
                        TextTask::UploadDir { port: m.port() }
                    } else {
                        TextTask::Upload { port: m.port() }
                    },
                    name,
                ),
            )
            &&& !m.device_free() ==> m.agreed(question).effects == m.effects
            &&& m.declined(question).effects == m.effects
        }),
{
    reveal(Model::agreed);
    reveal(Model::agreed_on_device);
    reveal(Model::declined);
}

/// A download fetches the device entry named, a directory as a directory, and
/// needs no question; on the local side there is nothing to fetch or, on the
/// device's, to send or run.
pub proof fn a_download_fetches_the_entry_named(m: Model, name: Seq<char>, is_dir: bool)
    ensures
        m.device_free() ==> m.file_action(Side::Device, name, is_dir, FileAction::Download).effects
            == m.effects.push(
            Effect::Text(
                if is_dir {
                    TextTask::DownloadDir { port: m.port() }
                } else {
                    TextTask::Download { port: m.port() }
                },
                name,
            ),
        ),
        m.file_action(Side::Device, name, is_dir, FileAction::Download).overlay == m.overlay,
        m.file_action(Side::Local, name, is_dir, FileAction::Download) == m,
        m.file_action(Side::Device, name, is_dir, FileAction::SendToDevice) == m,
        m.file_action(Side::Device, name, is_dir, FileAction::Run) == m,
{
}

/// Opening an entry enters it in the browser, or in the workspace pane's
/// list where there is no browser.
pub proof fn opening_enters_the_listing(m: Model, side: Side, name: Seq<char>)
    ensures
        m.device_free() ==> m.file_action(side, name, true, FileAction::Open).effects
            == m.effects.push(
            Effect::Task(Task::Dispatch { request: BrowserRequest::Enter, port: m.port() }),
        ),
        m.panels.browser is None && m.panels.workspace is Some ==> m.file_action(
            side,
            name,
            true,
            FileAction::Open,
        ).effects == m.effects.push(Effect::Task(Task::EnterFiles)),
{
}

/// Viewing a local file reads it where it lies; viewing a device file asks
/// the device for it and waits, at the top, under the file's own path.
pub proof fn viewing_reads_the_file_named(m: Model, name: Seq<char>)
    requires
        m.device_free(),
    ensures
        ({
            let browser = m.panels.browser.unwrap();
            let local = m.file_action(Side::Local, name, false, FileAction::View);
            let device = m.file_action(Side::Device, name, false, FileAction::View);
            &&& local.effects == m.effects.push(
                Effect::Text(TextTask::ReadFile, text::joined(browser.local_path@, name)),
            )
            &&& m.oversized(name) is None ==> {
                &&& device.effects == m.effects.push(
                    Effect::Text(TextTask::ViewOnDevice { port: m.port() }, name),
                )
                &&& device.overlay == Some(Overlay::<Seq<char>>::FileViewer)
                &&& device.desk.viewer is Some
                &&& device.desk.viewer.unwrap().state is Loading
                &&& device.desk.viewer.unwrap().scroll == 0
                &&& device.desk.viewer.unwrap().source is Device
                &&& device.desk.viewer.unwrap().source->Device_0.name == name
            }
            &&& m.oversized(name) is Some ==> device.effects == m.effects && device.overlay
                == m.overlay && device.logs.lines.len() == m.logs.lines.len() + 1
        }),
{
}

/// A file is too large to show exactly where its listed size is above the
/// limit; an entry with no size is never too large.
pub proof fn the_limit_is_the_limit(m: Model, i: int)
    requires
        0 <= i < m.panels.lists.device_entries@.len(),
        forall|k: int|
            0 <= k < i ==> (#[trigger] m.panels.lists.device_entries@[k]).name@
                != m.panels.lists.device_entries@[i].name@,
    ensures
        ({
            let entry = m.panels.lists.device_entries@[i];
            m.oversized(entry.name@) is Some <==> entry.size is Some && entry.size.unwrap()
                > m.panels.lists.max_view_bytes
        }),
{
    first_named_is_sized(m.panels.lists.device_entries@, i);
}

proof fn first_named_is_sized(entries: Seq<DeviceEntry>, i: int)
    requires
        0 <= i < entries.len(),
        forall|k: int| 0 <= k < i ==> (#[trigger] entries[k]).name@ != entries[i].name@,
    ensures
        file_browser::size_of(entries, entries[i].name@) == entries[i].size,
    decreases i,
{
    if i > 0 {
        let rest = entries.drop_first();
        assert(entries[0].name@ != entries[i].name@);
        assert(rest[i - 1] == entries[i]);
        assert forall|k: int| 0 <= k < i - 1 implies (#[trigger] rest[k]).name@ != rest[i
            - 1].name@ by {
            assert(rest[k] == entries[k + 1]);
        }
        first_named_is_sized(rest, i - 1);
    }
}

/// A comparison shows the two copies of one name, the local one from the
/// directory on screen, and asks the device for its half.
pub proof fn a_comparison_is_of_one_name(m: Model, side: Side, name: Seq<char>)
    requires
        m.device_free(),
        m.oversized(name) is None,
    ensures
        ({
            let after = m.file_action(side, name, false, FileAction::Diff);
            &&& after.effects == m.effects.push(
                Effect::Text(TextTask::ViewOnDevice { port: m.port() }, name),
            )
            &&& after.overlay == Some(Overlay::<Seq<char>>::FileViewer)
            &&& after.desk.viewer is Some
            &&& after.desk.viewer.unwrap().state is Loading
            &&& after.desk.viewer.unwrap().source is Diff
            &&& after.desk.viewer.unwrap().source->local == text::joined(
                m.panels.browser.unwrap().local_path@,
                name,
            )
            &&& after.desk.viewer.unwrap().source->device.name == name
        }),
{
}

/// Editing a local file queues it for the editor with nowhere to go back to;
/// editing a device file fetches it first.
pub proof fn editing_starts_from_the_right_copy(m: Model, name: Seq<char>)
    requires
        m.device_free(),
    ensures
        ({
            let local = m.file_action(Side::Local, name, false, FileAction::Edit);
            let device = m.file_action(Side::Device, name, false, FileAction::Edit);
            &&& local.effects == m.effects
            &&& local.desk.pending_edit == Some(
                PendingEdit {
                    path: text::joined(m.panels.browser.unwrap().local_path@, name),
                    device_target: None::<DevicePath<Seq<char>>>,
                },
            )
            &&& device.effects == m.effects.push(
                Effect::Text(TextTask::EditDownload { port: m.port() }, name),
            )
            &&& device.desk == m.desk
        }),
{
}

/// A device file fetched for editing opens in the editor and goes back where
/// it came from; a failed fetch opens nothing. After it went back, restarting
/// the device is asked about, on No.
pub proof fn an_edited_device_file_goes_back_where_it_came_from(
    m: Model,
    path: Seq<char>,
    source: DevicePath<Seq<char>>,
    ok: bool,
)
    ensures
        ({
            let fetched = m.transferred(
                Transfer {
                    kind: TransferKind::Download { local_path: path, then_edit: true, source },
                    ok,
                },
            );
            let plain = m.transferred(
                Transfer {
                    kind: TransferKind::Download { local_path: path, then_edit: false, source },
                    ok,
                },
            );
            let sent = m.transferred(
                Transfer { kind: TransferKind::Upload { after_edit: true }, ok },
            );
            &&& ok ==> fetched.desk.pending_edit == Some(
                PendingEdit { path, device_target: Some(source) },
            )
            &&& !ok ==> fetched == m && sent == m
            &&& plain == m
            &&& ok ==> sent.overlay == Some(
                Overlay::<Seq<char>>::ConfirmRestartDevice { confirm: false },
            )
            &&& m.transferred(
                Transfer { kind: TransferKind::Upload { after_edit: false }, ok },
            ) == m
        }),
{
}

/// A script runs from the directory on screen, and only while nothing else
/// holds the device; the run's output starts empty, in view.
pub proof fn a_run_starts_the_script_named(m: Model, name: Seq<char>)
    requires
        m.panels.browser is Some,
    ensures
        ({
            let browser = m.panels.browser.unwrap();
            let path = text::joined(browser.local_path@, name);
            let after = m.file_action(Side::Local, name, false, FileAction::Run);
            let blocked = browser.busy || browser.held || m.monitor.device is Some
                || m.chain.version_capture is Some;
            &&& blocked ==> after.effects == m.effects && after.monitor == m.monitor
                && after.desk == m.desk && after.logs.lines.len() == m.logs.lines.len() + 1
            &&& !blocked ==> {
                &&& after.effects == m.effects.push(
                    Effect::Text(TextTask::SpawnRun { port: m.port() }, path),
                )
                &&& after.desk.run_script == Some(path)
                &&& after.desk.run_output.len() == 0
                &&& after.monitor.run_state == RunState::Running
                &&& after.monitor.source is Run
                &&& after.screen.focus is Logs
                &&& after.screen.log_tab is Monitor
            }
        }),
{
}

/// A run that started is the session its output is heard under; one that did
/// not leaves no run behind.
pub proof fn a_started_run_is_remembered(m: Model, id: u64, why: Seq<char>)
    ensures
        m.run_answered(Ok(id)).monitor.run == Some(id),
        m.run_answered(Ok(id)).logs == m.logs,
        m.run_answered(Err(why)).monitor.run == m.monitor.run,
        m.run_answered(Err(why)).monitor.run_state == RunState::Idle,
        m.run_answered(Err(why)).logs.lines.len() == m.logs.lines.len() + 1,
{
}

/// A new entry is created on the side it was asked for, and only there: in
/// the directory on screen, or on the device. A trailing slash asks for a
/// directory, and is not part of its name.
pub proof fn a_new_entry_lands_on_its_side(m: Model, side: Side, name: Seq<char>, dir: bool)
    requires
        m.device_free(),
        name.len() > 0,
        name.last() != '/',
        text::trimmed(name) == name,
        text::trimmed(name.push('/')) == name.push('/'),
    ensures
        ({
            let typed = if dir {
                name.push('/')
            } else {
                name
            };
            let after = m.entry_asked(side, typed);
            let place = text::joined(m.panels.browser.unwrap().local_path@, name);
            after.effects == m.effects.push(
                match (side, dir) {
                    (Side::Local, false) => Effect::Text(TextTask::CreateFile, place),
                    (Side::Local, true) => Effect::Text(TextTask::CreateDir, place),
                    (Side::Device, false) => Effect::Text(
                        TextTask::TouchOnDevice { port: m.port() },
                        name,
                    ),
                    (Side::Device, true) => Effect::Text(
                        TextTask::MakeDirOnDevice { port: m.port() },
                        name,
                    ),
                },
            )
        }),
{
    reveal_with_fuel(text::trim_last, 3);
    assert(name.push('/').drop_last() =~= name);
}

/// No name, no entry: a blank asks for nothing on either side.
pub proof fn a_blank_name_creates_nothing(m: Model, side: Side, from: Seq<char>)
    ensures
        m.entry_asked(side, Seq::empty()).effects == m.effects,
        m.entry_asked(side, seq!['/']).effects == m.effects,
        m.rename_asked(from, Seq::empty()).effects == m.effects,
{
    reveal_with_fuel(text::trim_last, 3);
    reveal_with_fuel(text::trim_start, 2);
    reveal_with_fuel(text::trim_end, 2);
    assert(seq!['/'].drop_last() =~= Seq::<char>::empty());
}

/// A rename moves the entry to the name typed, inside the directory on
/// screen; nothing else is touched.
pub proof fn a_rename_takes_the_typed_name(m: Model, from: Seq<char>, to: Seq<char>)
    requires
        m.panels.browser is Some,
        to.len() > 0,
        !to.contains('/'),
        text::trimmed(to) == to,
        to != from,
    ensures
        ({
            let dir = m.panels.browser.unwrap().local_path@;
            m.rename_asked(from, to).effects == m.effects.push(
                Effect::Pair(PairTask::Rename, text::joined(dir, from), text::joined(dir, to)),
            )
        }),
        m.rename_asked(to, to) == m,
{
    assert(to.last() != '/') by {
        assert(to[to.len() - 1] == to.last());
    }
    assert(text::trim_last(to, '/') == to);
}

/// What a change of a local file came to is said, and the listing follows a
/// success; a failure is an error and changes nothing.
pub proof fn local_changes_are_reported(m: Model, path: Seq<char>, to: Seq<char>, why: Seq<char>)
    requires
        m.panels.browser is Some,
    ensures
        ({
            let reload = m.effects.push(Effect::Task(Task::ReloadLocal));
            &&& m.removed(path, None).effects == reload
            &&& m.created(path, None).effects == reload
            &&& m.renamed(path, to, None).effects == reload
            &&& m.removed(path, Some(why)).effects == m.effects
            &&& m.created(path, Some(why)).effects == m.effects
            &&& m.renamed(path, to, Some(why)).effects == m.effects
            &&& m.removed(path, None).logs.lines.last().0 is Success
            &&& m.created(path, None).logs.lines.last().0 is Success
            &&& m.renamed(path, to, None).logs.lines.last().0 is Success
            &&& m.removed(path, Some(why)).logs.lines.last().0 is Error
            &&& m.created(path, Some(why)).logs.lines.last().0 is Error
            &&& m.renamed(path, to, Some(why)).logs.lines.last().0 is Error
        }),
{
}

/// Contents asked for land in the viewer that waits on that path; a reason
/// takes their place where they could not be read.
pub proof fn contents_land_in_the_viewer_that_waits(
    m: Model,
    path: DevicePath<Seq<char>>,
    content: Seq<char>,
    why: Seq<char>,
)
    requires
        m.desk.viewer matches Some(viewer) && viewer.source == ViewerSource::Device(path),
    ensures
        ({
            let shown = m.device_viewed(path.text, Ok(content)).desk.viewer;
            let failed = m.device_viewed(path.text, Err(why)).desk.viewer;
            &&& shown matches Some(viewer) && viewer.state == (ViewerState::<
                Seq<char>,
                Seq<Seq<char>>,
            >::Ready { lines: text::lines(content) })
            &&& failed matches Some(viewer) && viewer.state == ViewerState::<
                Seq<char>,
                Seq<Seq<char>>,
            >::Error(why)
            &&& m.device_viewed(path.text, Ok(content)).effects == m.effects
        }),
{
}

/// A local file opens in the viewer with its own lines, from the top; one
/// that cannot be read opens with the reason.
pub proof fn a_local_file_opens_with_its_lines(
    m: Model,
    path: Seq<char>,
    content: Seq<char>,
    why: Seq<char>,
)
    ensures
        m.file_viewed(path, Ok(content)).overlay == Some(Overlay::<Seq<char>>::FileViewer),
        m.file_viewed(path, Ok(content)).desk.viewer == Some(
            ViewerModel {
                source: ViewerSource::Local(path),
                state: ViewerState::Ready { lines: text::lines(content) },
                scroll: 0,
            },
        ),
        m.file_viewed(path, Err(why)).desk.viewer == Some(
            ViewerModel {
                source: ViewerSource::Local(path),
                state: ViewerState::Error(why),
                scroll: 0,
            },
        ),
{
}

/// A comparison goes on with the device's half once it is there, and shows
/// the lines that came of it; no lines are said to be none.
pub proof fn a_comparison_shows_its_lines(
    m: Model,
    local: Seq<char>,
    device: DevicePath<Seq<char>>,
    content: Seq<char>,
    lines: Seq<Seq<char>>,
)
    requires
        m.desk.viewer matches Some(viewer) && viewer.source == (ViewerSource::Diff {
            local,
            device,
        }),
    ensures
        m.device_viewed(device.text, Ok(content)).effects == m.effects.push(
            Effect::Pair(PairTask::ComputeDiff, local, content),
        ),
        lines.len() > 0 ==> m.compared(local, Ok(lines)).desk.viewer.unwrap().state == (
        ViewerState::<Seq<char>, Seq<Seq<char>>>::Ready { lines }),
        m.compared(local, Ok(Seq::empty())).desk.viewer.unwrap().state matches ViewerState::Ready {
            lines,
        } && lines.len() == 1,
{
}

/// The viewer's `e` edits the file shown: a local one where it lies, a device
/// one fetched by its name; a comparison or a run's output edits nothing. The
/// viewer is gone either way.
pub proof fn the_viewer_edits_what_it_shows(m: Model)
    requires
        m.desk.viewer is Some,
        m.device_free(),
    ensures
        ({
            let after = m.viewer_key(KeyEvent::spec_plain(KeyCode::Char('e')));
            &&& after.overlay is None
            &&& after.desk.viewer is None
            &&& match m.desk.viewer.unwrap().source {
                ViewerSource::Local(path) => after.desk.pending_edit == Some(
                    PendingEdit { path, device_target: None::<DevicePath<Seq<char>>> },
                ) && after.effects == m.effects,
                ViewerSource::Device(path) => after.effects == m.effects.push(
                    Effect::Text(TextTask::EditDownload { port: m.port() }, path.name),
                ) && after.desk.pending_edit == m.desk.pending_edit,
                _ => after.effects == m.effects && after.desk.pending_edit == m.desk.pending_edit,
            }
        }),
{
    reveal(Model::viewer_key);
}

/// In the viewer down moves towards the end and up towards the start, by one
/// line or one page.
pub proof fn the_viewer_follows_the_arrows(m: Model, code: KeyCode)
    requires
        m.viewer_end() is Some,
        m.viewer_end().unwrap() <= usize::MAX,
        m.desk.viewer.unwrap().scroll <= m.viewer_end().unwrap(),
        m.drawn.viewer_viewport > 0,
    ensures
        ({
            let at = m.desk.viewer.unwrap().scroll as int;
            let end = m.viewer_end().unwrap();
            let page = m.drawn.viewer_viewport as int;
            let after = m.viewer_key(KeyEvent::spec_plain(code));
            let now = after.desk.viewer.unwrap().scroll as int;
            &&& code == KeyCode::Down || code == KeyCode::Char('j') ==> now == (if at + 1 <= end {
                at + 1
            } else {
                end
            })
            &&& code == KeyCode::Up || code == KeyCode::Char('k') ==> now == (if at >= 1 {
                at - 1
            } else {
                0
            })
            &&& code == KeyCode::PageDown ==> now == (if at + page <= end {
                at + page
            } else {
                end
            })
            &&& code == KeyCode::PageUp ==> now == (if at >= page {
                at - page
            } else {
                0
            })
            &&& code == KeyCode::Home ==> now == 0
            &&& code == KeyCode::End ==> now == end
        }),
{
    reveal(Model::viewer_key);
}

/// A sync plan agreed to runs as it was shown, deletions allowed exactly where it
/// holds some; refusing runs nothing.
pub proof fn the_plan_agreed_to_is_the_one_that_runs(m: Model, plan: SyncPlan, yes: bool)
    requires
        m.device_free(),
    ensures
        ({
            let shown = Overlay::SyncPreview { plan, confirm: yes };
            &&& m.agreed(shown).effects == m.effects.push(
                Effect::Task(
                    Task::Dispatch {
                        request: BrowserRequest::ExecuteSync {
                            plan,
                            deletes: plan.deletes@.len() > 0,
                        },
                        port: m.port(),
                    },
                ),
            )
            &&& m.declined(shown).effects == m.effects
        }),
{
    reveal(Model::agreed);
    reveal(Model::agreed_on_device);
    reveal(Model::declined);
}

/// The file columns' keys: the arrows walk and enter, `c` compares and `S`
/// syncs where there is a filesystem, `r` reloads the column it is pressed
/// in.
pub proof fn the_columns_take_their_keys(m: Model, side: Side)
    requires
        m.device_free(),
        m.caps().filesystem,
        m.screen.focus == (if side is Device {
            Focus::FilesDevice
        } else {
            Focus::FilesLocal
        }),
    ensures
        ({
            let sent = |code: KeyCode| m.files_key(KeyEvent::spec_plain(code)).effects;
            let asked = |request: BrowserRequest|
                m.effects.push(Effect::Task(Task::Dispatch { request, port: m.port() }));
            let moved = |down: bool, rows: u8|
                m.effects.push(Effect::Task(Task::MoveFileCursor { down, rows }));
            &&& sent(KeyCode::Right) == asked(BrowserRequest::Enter)
            &&& sent(KeyCode::Left) == asked(BrowserRequest::Ascend)
            &&& sent(KeyCode::Backspace) == asked(BrowserRequest::Ascend)
            &&& sent(KeyCode::Char('c')) == asked(BrowserRequest::VerifySelected)
            &&& sent(KeyCode::Char('S')) == asked(BrowserRequest::Sync)
            &&& sent(KeyCode::Up) == moved(false, 1)
            &&& sent(KeyCode::Char('k')) == moved(false, 1)
            &&& sent(KeyCode::Down) == moved(true, 1)
            &&& sent(KeyCode::Char('j')) == moved(true, 1)
            &&& sent(KeyCode::PageUp) == moved(false, 10)
            &&& sent(KeyCode::PageDown) == moved(true, 10)
            &&& sent(KeyCode::Home) == m.effects.push(Effect::Task(Task::FileCursorToStart))
            &&& sent(KeyCode::End) == m.effects.push(Effect::Task(Task::FileCursorToEnd))
            &&& sent(KeyCode::Char('h')) == m.effects.push(Effect::Task(Task::ToggleHidden))
            &&& sent(KeyCode::Char('r')) == m.effects.push(
                if side is Device {
                    Effect::Task(Task::ReloadDevicePane)
                } else {
                    Effect::Task(Task::ReloadLocal)
                },
            )
        }),
{
    reveal(Model::files_key);
}

/// `Enter` opens the menu of the entry under the focused column's cursor, and
/// `a` the entry box for that column.
pub proof fn the_focused_column_is_the_one_asked(m: Model, side: Side)
    requires
        m.panels.browser is Some,
        m.screen.focus == (if side is Device {
            Focus::FilesDevice
        } else {
            Focus::FilesLocal
        }),
    ensures
        ({
            let browser = m.panels.browser.unwrap();
            let entry = if side is Device {
                browser.device_selected
            } else {
                browser.local_selected
            };
            let menu = m.files_key(KeyEvent::spec_plain(KeyCode::Enter));
            let boxed = m.files_key(KeyEvent::spec_plain(KeyCode::Char('a')));
            &&& entry is None ==> menu.overlay == m.overlay
            &&& entry is Some ==> menu.overlay == Some(
                Overlay::FileActions {
                    side,
                    name: entry.unwrap().name@,
                    is_dir: entry.unwrap().is_dir,
                    is_text: entry.unwrap().is_text,
                    status: entry.unwrap().status,
                    selected: 0,
                },
            )
            &&& menu.effects == m.effects
            &&& boxed.overlay == Some(Overlay::CreateEntry { side, input: Seq::<char>::empty() })
        }),
{
    reveal(Model::files_key);
}

/// A run's output is kept beside its script, as it stands; without output
/// there is nothing to keep.
pub proof fn run_output_is_kept_beside_its_script(m: Model, script: Seq<char>)
    requires
        m.desk.run_script == Some(script),
    ensures
        m.desk.run_output.len() > 0 ==> m.run_output_kept().effects == m.effects.push(
            Effect::Pair(
                PairTask::SaveText,
                file_browser::output_file(script),
                text::lines_text(m.desk.run_output),
            ),
        ),
        m.desk.run_output.len() == 0 ==> m.run_output_kept().effects == m.effects,
{
}

/// The file a run's output is kept in is named after the script, in the
/// script's own directory; a path without a name gives `run.output.txt`.
pub proof fn output_is_named_after_its_script(dir: Seq<char>, name: Seq<char>)
    requires
        text_laws::plain_name(name),
        dir.len() > 0,
    ensures
        file_browser::output_file(text::joined(dir, name)) == text::joined(
            text::parent_dir(text::joined(dir, name)),
            text::stem(name) + ".output.txt"@,
        ),
{
    text_laws::the_name_joined_is_read_back(dir, name);
}

/// Saving that output is said as a success or an error.
pub proof fn saving_output_is_reported(m: Model, dest: Seq<char>, why: Seq<char>)
    ensures
        m.output_saved(dest, None).logs.lines.last().0 is Success,
        m.output_saved(dest, Some(why)).logs.lines.last().0 is Error,
        m.output_saved(dest, None).effects == m.effects,
{
}

/// What the browser made of a request is taken over as it is, and a held one
/// is asked about.
pub proof fn the_browsers_answer_is_taken_over(m: Model, busy: bool, held: bool)
    requires
        m.panels.browser is Some,
        m.overlay is None,
        !m.chain.held_root_listing,
    ensures
        ({
            let after = m.dispatch_answered(Seq::empty(), busy, held);
            &&& after.panels.browser.unwrap().busy == busy
            &&& after.panels.browser.unwrap().held == held
            &&& held ==> after.overlay == Some(
                Overlay::<Seq<char>>::ConfirmInterruptDevice {
                    confirm: false,
                    return_to_packages: false,
                },
            )
            &&& !held ==> after.overlay is None
            &&& after.effects == m.effects
        }),
{
}

/// Once a second the listing that changed outside is reloaded, and only
/// that one.
pub proof fn changed_listings_are_reloaded(m: Model, local: bool, files: bool)
    ensures
        ({
            let after = m.listings_refreshed(local, files);
            let due = m.pending.ticks % 4 == 0;
            let browser = due && m.panels.browser is Some && local;
            let workspace = due && m.panels.workspace is Some && files;
            &&& browser ==> after.effects == m.effects.push(Effect::Task(Task::ReloadLocal))
            &&& !browser && workspace ==> after.effects == m.effects.push(
                Effect::Task(Task::ReloadFiles),
            )
            &&& !browser && !workspace ==> after == m
        }),
{
}

/// An editor runs from the project's folder: the workspace's where it names
/// one, else where the project was found or the session started.
pub proof fn an_editor_runs_from_the_project(m: Model)
    ensures
        m.panels.workspace is Some && m.panels.workspace.unwrap().files_root is Some
            && m.panels.workspace.unwrap().files_root.unwrap()@.len() > 0 ==> m.editor_dir()
            == m.panels.workspace.unwrap().files_root.unwrap(),
        m.panels.workspace is None && m.project.manager.root is Some ==> m.editor_dir()
            == m.project.manager.root.unwrap(),
        m.panels.workspace is None && m.project.manager.root is None ==> m.editor_dir()
            == m.project.manager.start_dir,
{
}

/// Without a browser local entries are those of the workspace's directory.
pub proof fn the_workspace_stands_in_for_the_browser(
    m: Model,
    name: Seq<char>,
    is_dir: bool,
    path: String,
)
    requires
        m.panels.browser is None,
        m.panels.workspace is Some,
        m.panels.workspace.unwrap().files_path == Some(path),
    ensures
        m.file_deleted(Side::Local, name, is_dir).effects == m.effects.push(
            Effect::Text(
                if is_dir {
                    TextTask::RemoveDir
                } else {
                    TextTask::RemoveFile
                },
                text::joined(path@, name),
            ),
        ),
        m.removed(path@, None).effects == m.effects.push(Effect::Task(Task::ReloadFiles)),
        m.file_deleted(Side::Device, name, is_dir).effects == m.effects,
{
}

/// A device path is its directory's path and the name, the root's starting
/// with the separator alone.
pub proof fn device_paths_are_joined(dir: String, name: Seq<char>)
    ensures
        file_browser::device_child(Some(dir), name) == text::joined(dir@, name),
        file_browser::device_child(None, name).len() == name.len() + 1,
        file_browser::device_child(None, name)[0] == '/',
        file_browser::device_child(None, name).skip(1) == name,
{
}

/// The restore question's rows: a hard reset, `main.py` again, or nothing.
pub proof fn a_restore_does_what_its_row_says(m: Model, selected: usize)
    requires
        m.device_free(),
    ensures
        selected == 0 ==> m.restored(selected).effects == m.effects.push(
            Effect::Task(Task::Dispatch { request: BrowserRequest::HardReset, port: m.port() }),
        ),
        selected == 1 ==> m.restored(selected).effects == m.effects.push(
            Effect::Task(Task::Dispatch { request: BrowserRequest::RelaunchMain, port: m.port() }),
        ),
        selected > 1 ==> m.restored(selected) == m,
{
}

} // verus!
