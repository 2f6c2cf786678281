//! What the operations on the processes ask for, and what becomes of the
//! application, told by the state, the selected process and the replies.

use crate::app;
use crate::app::{App, AppView, ProcStatus, ProcView};
use crate::command;
use crate::command::{
    Invocation, InvocationView, Part, Reply, Request, RequestView, StepView, TmuxErrorView,
};
use crate::laws;
use crate::shell;
use crate::text;
use crate::tmux;
use crate::tmux::SessionView;
use crate::tui;
use crate::tui::Action;
use vstd::prelude::*;
use vstd::string::*;

verus! {

/// A step whose result is not looked at.
pub open spec fn without_result(step: StepView<Seq<char>>) -> StepView<()> {
    match step {
        StepView::Ask(request) => StepView::Ask(request),
        StepView::Done(Ok(_)) => StepView::Done(Ok(())),
        StepView::Done(Err(e)) => StepView::Done(Err(e)),
    }
}

/// Whether `s` is the first shown process, or the end where none is shown.
pub open spec fn shown_first(procs: Seq<ProcView>, s: int) -> bool {
    &&& 0 <= s <= procs.len()
    &&& s < procs.len() ==> procs[s].is_shown
    &&& forall|i: int| 0 <= i < s ==> !(#[trigger] procs[i]).is_shown
}

/// Whether `k` is the first process of the name, or the end where there is none.
pub open spec fn named_first(procs: Seq<ProcView>, name: Seq<char>, k: int) -> bool {
    &&& 0 <= k <= procs.len()
    &&& k < procs.len() ==> procs[k].name == name
    &&& forall|i: int| 0 <= i < k ==> (#[trigger] procs[i]).name != name
}

/// Whether no process of the name is shown.
pub open spec fn name_not_shown(procs: Seq<ProcView>, name: Seq<char>) -> bool {
    forall|i: int| 0 <= i < procs.len() && (#[trigger] procs[i]).is_shown ==> procs[i].name != name
}

/// The windows and panes that bringing a process in moves: where another process
/// is shown in a live pane, that pane goes back to the window of its own
/// process and the pane of the wanted one is joined; otherwise that pane is
/// just joined. `asked` is how many replies the question after the life of the
/// pane has taken.
pub open spec fn brings(
    app: AppView,
    s: int,
    name: Seq<char>,
    replies: Seq<Reply>,
    asked: int,
) -> StepView<Seq<char>> {
    let source = app.session.session_name + ":"@ + (app.session.prefix + name);
    if asked == 1 && laws::tmux::tells_alive(replies[0]) {
        tmux::chain_step(
            Part::Swap,
            laws::tmux::then_resized(
                laws::tmux::swaps(
                    app.right->0,
                    app.session.session_name,
                    app.session.prefix + app.procs[s].name,
                    source,
                    app.left,
                ),
                app.left,
                Some(50),
            ),
            app.left,
            replies.skip(1),
        )
    } else {
        tmux::chain_step(
            Part::JoinPane,
            laws::tmux::then_resized(laws::tmux::joins(source, app.left), app.left, Some(50)),
            app.left,
            replies.skip(asked),
        )
    }
}

/// Showing a process that is not shown asks whether the pane of the shown one
/// lives, where there is such a pane, and then moves the panes.
pub proof fn law_show_asks(app: AppView, name: Seq<char>, replies: Seq<Reply>, s: int)
    requires
        shown_first(app.procs, s),
        name_not_shown(app.procs, name),
    ensures
        ({
            let step = app.show_step(name, replies).0;
            if s < app.procs.len() && app.right is Some {
                &&& replies.len() == 0 ==> laws::tmux::asks_tmux(
                    step,
                    seq!["display-message"@, "-t"@, app.right->0, "-p"@, "#{pane_dead}"@],
                    true,
                )
                &&& replies.len() > 0 ==> step == without_result(brings(app, s, name, replies, 1))
            } else {
                step == without_result(brings(app, s, name, replies, 0))
            }
        }),
{
    laws::app::lemma_first_shown(app.procs);
    lemma_first_shown_is(app.procs, s);
    assert(!app.shows(name));
    assert(replies.skip(0) == replies);
    let source = app.session.window_id(name);
    let old = if s < app.procs.len() {
        app.procs[s].name
    } else {
        name
    };
    let right = app.right->0;
    laws::tmux::law_moving_panes(
        app.session,
        old,
        name,
        right,
        source,
        app.left,
        Some(50),
        replies,
    );
    laws::tmux::law_moving_panes(
        app.session,
        old,
        name,
        right,
        source,
        app.left,
        Some(50),
        replies.skip(1),
    );
}

/// The first shown process is the one that is first shown.
proof fn lemma_first_shown_is(procs: Seq<ProcView>, s: int)
    requires
        shown_first(procs, s),
    ensures
        app::first_shown(procs) == s,
{
    laws::app::lemma_first_shown(procs);
    let first = app::first_shown(procs) as int;
    if first < s {
        assert(!procs[first].is_shown);
    } else if s < first {
        assert(!procs[s].is_shown);
    }
}

/// The first process of a name is the one that has it first.
proof fn lemma_first_named_is(procs: Seq<ProcView>, name: Seq<char>, k: int)
    requires
        named_first(procs, name, k),
    ensures
        app::first_named(procs, name) == k,
{
    laws::app::lemma_first_named(procs, name);
    let first = app::first_named(procs, name) as int;
    if first < k {
        assert(procs[first].name != name);
    } else if k < first {
        assert(procs[k].name != name);
    }
}

/// The pane that a chain that is done has brought.
pub open spec fn brought(app: AppView, s: int, name: Seq<char>, replies: Seq<Reply>) -> StepView<
    Seq<char>,
> {
    brings(
        app,
        s,
        name,
        replies,
        if s < app.procs.len() && app.right is Some {
            1
        } else {
            0
        },
    )
}

/// What becomes of the application when a process is shown: once the panes are
/// moved, the process of the name is shown in the pane that was brought, and
/// the one that was shown before is not. Where that fails, the one before is
/// not shown either, and no pane is taken for the right one. Nothing else ever
/// changes, and nothing does before the end.
pub proof fn law_show_changes(
    app: AppView,
    name: Seq<char>,
    replies: Seq<Reply>,
    s: int,
    k: int,
)
    requires
        shown_first(app.procs, s),
        named_first(app.procs, name, k),
        name_not_shown(app.procs, name),
    ensures
        ({
            let (step, after) = app.show_step(name, replies);
            &&& step is Ask ==> after == app
            &&& laws::app::same_setting(after, app)
            &&& forall|i: int|
                0 <= i < app.procs.len() ==> (#[trigger] after.procs[i]).status
                    == app.procs[i].status
            &&& step == StepView::<()>::Done(Ok(())) ==> {
                &&& brought(app, s, name, replies) matches StepView::Done(Ok(pane))
                &&& after.right == Some(pane)
                &&& forall|i: int|
                    0 <= i < app.procs.len() ==> (#[trigger] after.procs[i]).is_shown == (i == k
                        || (app.procs[i].is_shown && i != s))
            }
            &&& step is Done && step != StepView::<()>::Done(Ok(())) ==> {
                &&& after.right == if s < app.procs.len() {
                    None
                } else {
                    app.right
                }
                &&& forall|i: int|
                    0 <= i < app.procs.len() ==> (#[trigger] after.procs[i]).is_shown == (
                    app.procs[i].is_shown && i != s)
            }
        }),
{
    law_show_asks(app, name, replies, s);
    lemma_first_shown_is(app.procs, s);
    assert(!app.shows(name));
    let vacated = app.vacated();
    assert forall|i: int| 0 <= i < k implies (#[trigger] vacated.procs[i]).name != name by {
        assert(app.procs[i].name != name);
    }
    lemma_first_named_is(vacated.procs, name, k);
    laws::app::law_show_keeps(app, name, replies);
    laws::tmux::law_moving_panes(
        app.session,
        if s < app.procs.len() {
            app.procs[s].name
        } else {
            name
        },
        name,
        app.right->0,
        app.session.window_id(name),
        app.left,
        Some(50),
        replies,
    );
    laws::tmux::law_moving_panes(
        app.session,
        if s < app.procs.len() {
            app.procs[s].name
        } else {
            name
        },
        name,
        app.right->0,
        app.session.window_id(name),
        app.left,
        Some(50),
        replies.skip(1),
    );
    assert(replies.skip(0) == replies);
}

/// Restarting a process in its pane asks for the path of this program, and then
/// for a chain that kills that pane and joins, in its place, a new window of
/// the process that runs its command under the wrapper.
pub proof fn law_restart_in_place(app: AppView, replies: Seq<Reply>)
    requires
        app.selected < app.procs.len(),
        app.procs[app.selected as int].is_shown,
        app.right is Some,
    ensures
        ({
            let (step, after) = app.force_restart_step(replies);
            let chosen = app.procs[app.selected as int];
            &&& step is Ask ==> after == app
            &&& replies.len() == 0 ==> step == StepView::<()>::Ask(RequestView::ProgramPath)
            &&& replies.len() > 0 ==> match replies[0] {
                Reply::Text(program) => {
                    let line = program@ + " wrap "@ + ("/tmp/tmprocs_"@ + app.session.prefix
                        + chosen.name) + " "@ + shell::quoted(chosen.cmd);
                    let chain = tmux::chain_step(
                        Part::Restart,
                        laws::tmux::then_resized(
                            laws::tmux::restarts(
                                app.right->0,
                                app.session.session_name,
                                app.session.prefix + chosen.name,
                                line,
                                app.left,
                            ),
                            app.left,
                            Some(50),
                        ),
                        app.left,
                        replies.skip(1),
                    );
                    &&& step == without_result(chain)
                    &&& chain matches StepView::Done(Ok(pane)) ==> after == (AppView {
                        right: Some(pane),
                        procs: app.procs.update(
                            app.selected as int,
                            ProcView { status: ProcStatus::Running, ..chosen },
                        ),
                        ..app
                    })
                    &&& chain matches StepView::Done(Err(_)) ==> after == (AppView {
                        right: None,
                        procs: app.procs.update(
                            app.selected as int,
                            ProcView { is_shown: false, ..chosen },
                        ),
                        ..app
                    })
                },
                _ => {
                    &&& step == StepView::<()>::Done(
                        Err(TmuxErrorView::Program(laws::tmux::not_read(replies[0])->0)),
                    )
                    &&& after == (AppView { right: None, ..app })
                },
            }
        }),
{
    let chosen = app.procs[app.selected as int];
    if replies.len() > 0 {
        if let Reply::Text(program) = replies[0] {
            let line = app.session.wrapper_line(program@, chosen.name, chosen.cmd);
            laws::tmux::law_moving_panes(
                app.session,
                chosen.name,
                line,
                app.right->0,
                line,
                app.left,
                Some(50),
                replies.skip(1),
            );
        }
    }
}

/// How a start ends with the reply to the request for its window.
pub open spec fn start_ends(reply: Reply) -> StepView<()> {
    match reply {
        Reply::Exited(out) => if out.success {
            StepView::Done(Ok(()))
        } else {
            StepView::Done(
                Err(
                    TmuxErrorView::Refused {
                        part: Part::NewWindow,
                        stderr: command::lossy_text(out.stderr@),
                    },
                ),
            )
        },
        _ => StepView::Done(Err(TmuxErrorView::Launch(laws::tmux::not_run(reply)->0))),
    }
}

/// Restarting a process that is in no known pane kills its window, whatever
/// comes of that, and starts it again: by its name, with its command, under the
/// wrapper, in a hidden window.
pub proof fn law_restart_in_background(app: AppView, replies: Seq<Reply>)
    requires
        app.selected < app.procs.len(),
        !app.procs[app.selected as int].is_shown || app.right is None,
    ensures
        ({
            let (step, after) = app.force_restart_step(replies);
            let chosen = app.procs[app.selected as int];
            let window = app.session.prefix + chosen.name;
            &&& replies.len() == 0 ==> laws::tmux::asks_tmux(
                step,
                seq!["kill-window"@, "-t"@, app.session.session_name + ":"@ + window],
                false,
            )
            &&& replies.len() == 1 ==> step == StepView::<()>::Ask(RequestView::ProgramPath)
            &&& replies.len() > 1 ==> match replies[1] {
                Reply::Text(program) => {
                    &&& replies.len() == 2 ==> laws::tmux::asks_tmux(
                        step,
                        laws::tmux::starts_hidden(
                            app.session.session_name,
                            window,
                            program@ + " wrap "@ + ("/tmp/tmprocs_"@ + app.session.prefix
                                + chosen.name) + " "@ + shell::quoted(chosen.cmd),
                        ),
                        true,
                    )
                    &&& replies.len() > 2 ==> step == start_ends(replies[2])
                },
                _ => step == StepView::<()>::Done(
                    Err(TmuxErrorView::Program(laws::tmux::not_read(replies[1])->0)),
                ),
            }
            &&& after == if step == StepView::<()>::Done(Ok(())) {
                AppView {
                    procs: app.procs.update(
                        app.selected as int,
                        ProcView { status: ProcStatus::Running, is_shown: false, ..chosen },
                    ),
                    ..app
                }
            } else {
                app
            }
        }),
{
    let chosen = app.procs[app.selected as int];
    if replies.len() > 0 {
        let rest = replies.skip(1);
        laws::tmux::law_start(app.session, chosen.name, chosen.cmd, rest);
        if replies.len() > 1 {
            assert(rest[0] == replies[1]);
        }
        if replies.len() > 2 {
            assert(rest[1] == replies[2]);
        }
    }
}

/// Killing the selected process reads its own status file, and sends SIGTERM to
/// the group of the process that the file tells of. It never fails.
pub proof fn law_kill_selected(app: AppView, replies: Seq<Reply>)
    ensures
        ({
            let step = app.kill_step(replies);
            let name = app.procs[app.selected as int].name;
            &&& replies.len() == 0 ==> step == StepView::<()>::Ask(
                RequestView::ReadFile("/tmp/tmprocs_"@ + app.session.prefix + name),
            )
            &&& replies.len() > 0 ==> step == match laws::tmux::told_process(replies[0]) {
                Some(pid) if replies.len() == 1 => StepView::<()>::Ask(
                    RequestView::Run(
                        InvocationView {
                            program: "kill"@,
                            args: seq!["-TERM"@, "-"@ + pid],
                            captured: false,
                        },
                    ),
                ),
                _ => StepView::<()>::Done(Ok(())),
            }
        }),
{
    let path = app.session.status_file(app.procs[app.selected as int].name);
    laws::tmux::law_kill_child(path, replies);
}

/// The focus goes to the right pane, where there is one. That never fails.
pub proof fn law_focus(app: AppView, replies: Seq<Reply>)
    ensures
        app.right is Some && replies.len() == 0 ==> laws::tmux::asks_tmux(
            app.focus_step(replies),
            seq!["select-pane"@, "-t"@, app.right->0],
            false,
        ),
        app.right is None || replies.len() > 0 ==> app.focus_step(replies)
            == StepView::<()>::Done(Ok(())),
{
}

/// The statuses are read from the status files of the processes, one after the
/// other; once all are read, a process counts as running exactly where its file
/// was read and begins with `running` behind white space. Old statuses, and
/// what is shown, do not matter.
pub proof fn law_refresh_tells(app: AppView, replies: Seq<Reply>)
    ensures
        ({
            let (step, after) = app.refresh_step(replies);
            &&& replies.len() < app.procs.len() ==> step == StepView::<()>::Ask(
                RequestView::ReadFile(
                    "/tmp/tmprocs_"@ + app.session.prefix + app.procs[replies.len() as int].name,
                ),
            ) && after == app
            &&& replies.len() >= app.procs.len() ==> {
                &&& step == StepView::<()>::Done(Ok(()))
                &&& after.procs.len() == app.procs.len()
                &&& forall|i: int|
                    0 <= i < app.procs.len() ==> {
                        &&& (#[trigger] after.procs[i]).status == ProcStatus::Running
                            <==> reads_running(replies[i])
                        &&& after.procs[i] == (ProcView {
                            status: after.procs[i].status,
                            ..app.procs[i]
                        })
                    }
                &&& after == (AppView { procs: after.procs, ..app })
            }
        }),
{
    reveal_strlit("running");
    assert(text::trimmed(Seq::<char>::empty()) == Seq::<char>::empty());
}

/// A status file tells of a running process exactly where it begins with
/// `running` behind white space.
pub proof fn law_status_words(content: Seq<char>)
    ensures
        app::status_in(content) == ProcStatus::Running <==> "running"@.is_prefix_of(
            text::trimmed(content),
        ),
{
}

/// Whether a status file was read that begins with `running` behind white space.
pub open spec fn reads_running(reply: Reply) -> bool {
    reply matches Reply::Text(content) && "running"@.is_prefix_of(text::trimmed(content@))
}

/// Whether the replies tell that start `i` has succeeded: the path of this
/// program was had, and tmux has made the window.
pub open spec fn has_started(replies: Seq<Reply>, i: int) -> bool {
    &&& replies[2 * i] is Text
    &&& laws::tmux::succeeded(replies[2 * i + 1])
}

/// Every process is started under its own name with its own command, one after
/// the other: once the first `k` have started, the path of this program is
/// asked for, and then the hidden window of process `k` that runs its command
/// under the wrapper. What is refused there ends it; where all have started, it
/// has succeeded.
pub proof fn law_start_all_starts(
    session: SessionView,
    procs: Seq<ProcView>,
    replies: Seq<Reply>,
    k: int,
)
    requires
        0 <= k <= procs.len(),
        replies.len() >= 2 * k,
        forall|i: int|
            0 <= i < k ==> #[trigger] has_started(replies, i),
    ensures
        ({
            let step = app::start_all_step(session, procs, replies);
            &&& k == procs.len() ==> step == StepView::<()>::Done(Ok(()))
            &&& k < procs.len() && replies.len() == 2 * k ==> step == StepView::<()>::Ask(
                RequestView::ProgramPath,
            )
            &&& k < procs.len() && replies.len() > 2 * k ==> match replies[2 * k] {
                Reply::Text(program) => {
                    &&& replies.len() == 2 * k + 1 ==> laws::tmux::asks_tmux(
                        step,
                        laws::tmux::starts_hidden(
                            session.session_name,
                            session.prefix + procs[k].name,
                            program@ + " wrap "@ + ("/tmp/tmprocs_"@ + session.prefix
                                + procs[k].name) + " "@ + shell::quoted(procs[k].cmd),
                        ),
                        true,
                    )
                    &&& replies.len() > 2 * k + 1 && !laws::tmux::succeeded(replies[2 * k + 1])
                        ==> step == start_ends(replies[2 * k + 1])
                },
                _ => step == StepView::<()>::Done(
                    Err(TmuxErrorView::Program(laws::tmux::not_read(replies[2 * k])->0)),
                ),
            }
        }),
    decreases k,
{
    if procs.len() > 0 {
        laws::tmux::law_start(session, procs[0].name, procs[0].cmd, replies);
        if k > 0 {
            assert(has_started(replies, 0));
            let rest = replies.skip(2);
            let others = procs.skip(1);
            assert forall|i: int| 0 <= i < k - 1 implies #[trigger] has_started(rest, i) by {
                assert(has_started(replies, i + 1));
                assert(rest[2 * i] == replies[2 * (i + 1)]);
                assert(rest[2 * i + 1] == replies[2 * (i + 1) + 1]);
            }
            law_start_all_starts(session, others, rest, k - 1);
            if k < procs.len() {
                assert(others[k - 1] == procs[k]);
            }
            if replies.len() > 2 * k {
                assert(rest[2 * (k - 1)] == replies[2 * k]);
            }
            if replies.len() > 2 * k + 1 {
                assert(rest[2 * (k - 1) + 1] == replies[2 * k + 1]);
            }
        }
    }
}

/// Stopping goes through the processes in order: the status file of each is
/// read, and where it tells of a running process, the group of that process is
/// sent SIGTERM. Then the right pane is killed, where there is one. What comes of
/// any of it does not matter.
pub proof fn law_stop_goes_through(app: AppView, i: nat, replies: Seq<Reply>)
    ensures
        i < app.procs.len() ==> {
            let step = app.stop_step(i, replies);
            &&& replies.len() == 0 ==> step == StepView::<()>::Ask(
                RequestView::ReadFile(
                    "/tmp/tmprocs_"@ + app.session.prefix + app.procs[i as int].name,
                ),
            )
            &&& replies.len() > 0 ==> match laws::tmux::told_process(replies[0]) {
                Some(pid) => if replies.len() == 1 {
                    step == StepView::<()>::Ask(
                        RequestView::Run(
                            InvocationView {
                                program: "kill"@,
                                args: seq!["-TERM"@, "-"@ + pid],
                                captured: false,
                            },
                        ),
                    )
                } else {
                    &&& step == app.stop_step(i + 1, replies.skip(2))
                    &&& app.stop_replies(i, replies) == 2 + app.stop_replies(
                        i + 1,
                        replies.skip(2),
                    )
                },
                None => {
                    &&& step == app.stop_step(i + 1, replies.skip(1))
                    &&& app.stop_replies(i, replies) == 1 + app.stop_replies(
                        i + 1,
                        replies.skip(1),
                    )
                },
            }
        },
        i >= app.procs.len() ==> {
            let step = app.stop_step(i, replies);
            &&& app.right is Some && replies.len() == 0 ==> laws::tmux::asks_tmux(
                step,
                seq!["kill-pane"@, "-t"@, app.right->0],
                false,
            )
            &&& app.right is None || replies.len() > 0 ==> step == StepView::<()>::Done(Ok(()))
            &&& app.stop_replies(i, replies) == if app.right is Some {
                1nat
            } else {
                0nat
            }
        },
{
    if i < app.procs.len() {
        laws::tmux::law_kill_child(app.session.status_file(app.procs[i as int].name), replies);
    }
}

/// Up and down move the selection by one process, and not beyond the ends.
pub proof fn law_moves_by_one(app: AppView)
    ensures
        app.moved_up() == (AppView {
            selected: if app.selected == 0 {
                0
            } else {
                (app.selected - 1) as nat
            },
            ..app
        }),
        app.moved_down() == (AppView {
            selected: if app.selected + 1 < app.procs.len() {
                app.selected + 1
            } else {
                app.selected
            },
            ..app
        }),
{
}

/// Each action is the operation that it is named after, on the selected process
/// where it is about one.
pub proof fn law_actions(app: AppView, replies: Seq<Reply>)
    ensures
        tui::action_step(Action::Show, app, replies) == app.show_step(
            app.procs[app.selected as int].name,
            replies,
        ),
        tui::action_step(Action::Focus, app, replies) == (app.focus_step(replies), app),
        tui::action_step(Action::Restart, app, replies) == app.restart_step(replies),
        tui::action_step(Action::ForceRestart, app, replies) == app.force_restart_step(replies),
        tui::action_step(Action::Kill, app, replies) == (app.kill_step(replies), app),
        tui::action_step(Action::Refresh, app, replies) == app.refresh_step(replies),
        tui::action_step(Action::Clear, app, replies) == (StepView::<()>::Done(Ok(())), app),
{
}

/// What is said of an application is said of its processes, each by each, of
/// its selection, its session and its panes.
pub proof fn law_application_view(app: App, i: int)
    requires
        0 <= i < app.procs@.len(),
    ensures
        app@.procs.len() == app.procs@.len(),
        app@.procs[i].name == app.procs@[i].name@,
        app@.procs[i].cmd == app.procs@[i].cmd@,
        app@.procs[i].status == app.procs@[i].status,
        app@.procs[i].is_shown == app.procs@[i].is_shown,
        app@.selected == app.selected,
        app@.session == app.bg_session@,
        app@.left == app.left_pane_id@,
        app@.right is Some <==> app.right_pane_id is Some,
        app.right_pane_id is Some ==> app@.right->0 == app.right_pane_id->0@,
        app@.should_quit == app.should_quit,
{
}

/// What is said of a request is said of its program and its arguments, each by
/// each, or of its path.
pub proof fn law_request_view(invocation: Invocation, path: String, i: int)
    requires
        0 <= i < invocation.args@.len(),
    ensures
        ({
            let view = Request::Run(invocation)@;
            &&& view matches RequestView::Run(run)
            &&& run.program == invocation.program@
            &&& run.args.len() == invocation.args@.len()
            &&& run.args[i] == invocation.args@[i]@
            &&& run.captured == invocation.captured
        }),
        Request::ReadFile(path)@ == RequestView::ReadFile(path@),
        Request::ProgramPath@ == RequestView::ProgramPath,
{
}

} // verus!
