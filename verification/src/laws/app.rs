//! What every operation keeps of the processes, and what showing one does.

use crate::app;
use crate::app::{AppView, ProcStatus, ProcView};
use crate::command;
use crate::command::{Reply, RequestView, StepView, TmuxErrorView};
use crate::tmux;
use crate::tmux::SessionView;
use vstd::prelude::*;

verus! {

/// `first_shown` is the first shown process, or the end where none is.
pub proof fn lemma_first_shown(procs: Seq<ProcView>)
    ensures
        app::first_shown(procs) <= procs.len(),
        app::first_shown(procs) < procs.len() ==> procs[app::first_shown(
            procs,
        ) as int].is_shown,
        forall|i: int| 0 <= i < app::first_shown(procs) ==> !(#[trigger] procs[i]).is_shown,
    decreases procs.len(),
{
    if procs.len() > 0 && !procs[0].is_shown {
        lemma_first_shown(procs.skip(1));
        assert forall|i: int| 0 <= i < app::first_shown(procs) implies !(
        #[trigger] procs[i]).is_shown by {
            if i > 0 {
                assert(procs[i] == procs.skip(1)[i - 1]);
            }
        }
    }
}

/// `first_named` is the first process of the name, or the end where none has it.
pub proof fn lemma_first_named(procs: Seq<ProcView>, name: Seq<char>)
    ensures
        app::first_named(procs, name) <= procs.len(),
        app::first_named(procs, name) < procs.len() ==> procs[app::first_named(
            procs,
            name,
        ) as int].name == name,
        forall|i: int| 0 <= i < app::first_named(procs, name) ==> (#[trigger] procs[i]).name != name,
    decreases procs.len(),
{
    if procs.len() > 0 && procs[0].name != name {
        lemma_first_named(procs.skip(1), name);
        assert forall|i: int| 0 <= i < app::first_named(procs, name) implies (
        #[trigger] procs[i]).name != name by {
            if i > 0 {
                assert(procs[i] == procs.skip(1)[i - 1]);
            }
        }
    }
}

/// Whether the processes `a` and `b` are the same ones, whatever their states.
pub open spec fn same_procs(a: Seq<ProcView>, b: Seq<ProcView>) -> bool {
    &&& a.len() == b.len()
    &&& forall|i: int|
        0 <= i < a.len() ==> (#[trigger] a[i]).name == b[i].name && a[i].cmd == b[i].cmd
}

/// Whether `a` and `b` agree but for the states of the processes and the right
/// pane.
pub open spec fn same_setting(a: AppView, b: AppView) -> bool {
    &&& same_procs(a.procs, b.procs)
    &&& a.selected == b.selected
    &&& a.session == b.session
    &&& a.left == b.left
    &&& a.should_quit == b.should_quit
}

/// The application starts well formed, with nothing shown.
pub proof fn law_start_is_wf(procs: Seq<ProcView>, session: SessionView, left: Seq<char>)
    requires
        procs.len() > 0,
        app::distinct_names(procs),
        forall|i: int| 0 <= i < procs.len() ==> !(#[trigger] procs[i]).is_shown,
    ensures
        (AppView {
            procs,
            selected: 0,
            session,
            left,
            right: None,
            should_quit: false,
        }).wf(),
        (AppView {
            procs,
            selected: 0,
            session,
            left,
            right: None,
            should_quit: false,
        }).slot_known(),
{
}

/// The selection stays on a process, and moving touches nothing else.
pub proof fn law_moves(app: AppView)
    ensures
        app.wf() ==> app.moved_up().wf() && app.moved_down().wf(),
        app.moved_up() == (AppView { selected: app.moved_up().selected, ..app }),
        app.moved_down() == (AppView { selected: app.moved_down().selected, ..app }),
{
}

/// Up undoes down and down undoes up, but for the ends of the list.
pub proof fn law_moves_undo(app: AppView)
    requires
        app.selected < app.procs.len(),
    ensures
        app.selected + 1 < app.procs.len() ==> app.moved_down().moved_up() == app,
        app.selected > 0 ==> app.moved_up().moved_down() == app,
        app.selected == 0 ==> app.moved_up() == app,
        app.selected + 1 == app.procs.len() ==> app.moved_down() == app,
{
}

/// Vacating leaves nothing shown and the processes as they were.
proof fn lemma_vacated(app: AppView)
    ensures
        same_setting(app.vacated(), app),
        app::at_most_one_shown(app.procs) ==> forall|i: int|
            0 <= i < app.procs.len() ==> !(#[trigger] app.vacated().procs[i]).is_shown,
        forall|i: int|
            0 <= i < app.procs.len() ==> (#[trigger] app.vacated().procs[i]).status
                == app.procs[i].status,
{
    lemma_first_shown(app.procs);
    let shown = app::first_shown(app.procs) as int;
    if app::at_most_one_shown(app.procs) {
        assert forall|i: int| 0 <= i < app.procs.len() implies !(
        #[trigger] app.vacated().procs[i]).is_shown by {
            if shown < i {
                assert(app.procs[shown].is_shown);
                assert(!app.procs[i].is_shown);
            } else if i < shown {
                assert(!app.procs[i].is_shown);
            }
        }
    }
}

/// Showing a process keeps the application well formed, and changes nothing but
/// what is shown and where.
pub proof fn law_show_keeps(app: AppView, name: Seq<char>, replies: Seq<Reply>)
    ensures
        ({
            let after = app.show_step(name, replies).1;
            &&& app.wf() ==> after.wf()
            &&& same_setting(after, app)
            &&& forall|i: int|
                0 <= i < app.procs.len() ==> (#[trigger] after.procs[i]).status
                    == app.procs[i].status
        }),
{
    lemma_vacated(app);
    lemma_first_named(app.vacated().procs, name);
}

/// Once showing a process has succeeded, that process is shown, in a known
/// pane, and no other is.
pub proof fn law_show_shows(app: AppView, name: Seq<char>, replies: Seq<Reply>, k: int)
    requires
        app::distinct_names(app.procs),
        app::at_most_one_shown(app.procs),
        app.slot_known(),
        0 <= k < app.procs.len(),
        app.procs[k].name == name,
        app.show_step(name, replies).0 == StepView::<()>::Done(Ok(())),
    ensures
        ({
            let after = app.show_step(name, replies).1;
            &&& after.right is Some
            &&& forall|i: int|
                0 <= i < app.procs.len() ==> (#[trigger] after.procs[i]).is_shown == (i == k)
        }),
{
    let after = app.show_step(name, replies).1;
    if app.shows(name) {
        let s = choose|s: int|
            0 <= s < app.procs.len() && (#[trigger] app.procs[s]).is_shown && app.procs[s].name
                == name;
        assert(s == k) by {
            if s < k {
                assert(app.procs[s].name != app.procs[k].name);
            } else if k < s {
                assert(app.procs[k].name != app.procs[s].name);
            }
        }
        assert forall|i: int| 0 <= i < app.procs.len() implies (
        #[trigger] after.procs[i]).is_shown == (i == k) by {
            if i < k {
                assert(!(app.procs[i].is_shown && app.procs[k].is_shown));
            } else if k < i {
                assert(!(app.procs[k].is_shown && app.procs[i].is_shown));
            }
        }
    } else {
        lemma_vacated(app);
        let vacated = app.vacated();
        lemma_first_named(vacated.procs, name);
        let named = app::first_named(vacated.procs, name) as int;
        assert(named == k) by {
            assert(vacated.procs[k].name == name);
            if named < k {
                assert(app.procs[named].name != app.procs[k].name);
                assert(vacated.procs[named].name == app.procs[named].name);
            }
        }
        assert forall|i: int| 0 <= i < app.procs.len() implies (
        #[trigger] after.procs[i]).is_shown == (i == k) by {
            if i != k {
                assert(after.procs[i] == vacated.procs[i]);
            }
        }
    }
}

/// Showing a shown process asks for nothing and changes nothing.
pub proof fn law_show_again(app: AppView, name: Seq<char>, replies: Seq<Reply>, k: int)
    requires
        0 <= k < app.procs.len(),
        app.procs[k].name == name,
        app.procs[k].is_shown,
    ensures
        app.show_step(name, replies) == (StepView::<()>::Done(Ok(())), app),
{
    assert(app.shows(name));
}

/// Where showing a process fails while another is shown, nothing is shown any
/// more and no pane is taken for the right one.
pub proof fn law_failed_show_vacates(app: AppView, name: Seq<char>, replies: Seq<Reply>)
    requires
        app::at_most_one_shown(app.procs),
        app.show_step(name, replies).0 is Done,
        app.show_step(name, replies).0 != StepView::<()>::Done(Ok(())),
        exists|i: int| 0 <= i < app.procs.len() && (#[trigger] app.procs[i]).is_shown,
    ensures
        app.show_step(name, replies).1.right is None,
        forall|i: int|
            0 <= i < app.procs.len() ==> !(#[trigger] app.show_step(
                name,
                replies,
            ).1.procs[i]).is_shown,
{
    lemma_vacated(app);
    lemma_first_shown(app.procs);
}

/// A shown process stays in a known pane.
pub proof fn law_show_keeps_slot(app: AppView, name: Seq<char>, replies: Seq<Reply>)
    requires
        app::at_most_one_shown(app.procs),
        app.slot_known(),
    ensures
        app.show_step(name, replies).1.slot_known(),
{
    lemma_vacated(app);
}

/// Restarting keeps the application well formed, and the processes the same.
pub proof fn law_restart_keeps(app: AppView, replies: Seq<Reply>)
    ensures
        app.wf() ==> app.force_restart_step(replies).1.wf(),
        same_setting(app.force_restart_step(replies).1, app),
        app.wf() ==> app.restart_step(replies).1.wf(),
        same_setting(app.restart_step(replies).1, app),
{
    let after = app.force_restart_step(replies).1;
    if app.wf() {
        assert forall|i: int, j: int| 0 <= i < j < after.procs.len() implies !((
        #[trigger] after.procs[i]).is_shown && (#[trigger] after.procs[j]).is_shown) by {
            assert(!(app.procs[i].is_shown && app.procs[j].is_shown));
        }
        assert forall|i: int, j: int| 0 <= i < j < after.procs.len() implies (
        #[trigger] after.procs[i]).name != (#[trigger] after.procs[j]).name by {
            assert(app.procs[i].name != app.procs[j].name);
        }
    }
}

/// Whether a restart of the selected process has found, after `replies`, that
/// the path of this program is not to be had while the process is shown.
pub open spec fn loses_slot(app: AppView, replies: Seq<Reply>) -> bool {
    &&& app.procs[app.selected as int].is_shown
    &&& replies.len() > 0
    &&& command::given_text(replies[0]) is Err
}

/// A shown process stays in a known pane when a process is restarted, unless it
/// is the one that is restarted and the path of this program is not known. Then
/// the restart fails.
pub proof fn law_restart_keeps_slot(app: AppView, replies: Seq<Reply>)
    requires
        app.selected < app.procs.len(),
        app::at_most_one_shown(app.procs),
        app.slot_known(),
    ensures
        app.force_restart_step(replies).1.slot_known() <==> !loses_slot(app, replies),
        loses_slot(app, replies) ==> app.force_restart_step(replies) == (
            StepView::<()>::Done(
                Err(TmuxErrorView::Program(command::given_text(replies[0])->Err_0)),
            ),
            AppView { right: None, ..app },
        ),
        app.restart_step(replies).1.slot_known() <==> !(loses_slot(app, replies)
            && app.procs[app.selected as int].status == ProcStatus::Dead),
{
    let after = app.force_restart_step(replies).1;
    let s = app.selected as int;
    if loses_slot(app, replies) {
        assert(after.procs[s].is_shown && after.right is None);
    } else {
        assert forall|i: int| 0 <= i < after.procs.len() && (
        #[trigger] after.procs[i]).is_shown implies after.right is Some by {
            if app.procs[s].is_shown && i != s {
                if i < s {
                    assert(!(app.procs[i].is_shown && app.procs[s].is_shown));
                } else {
                    assert(!(app.procs[s].is_shown && app.procs[i].is_shown));
                }
            }
            assert(app.procs[i].is_shown);
        }
    }
}

/// Where a process is marked as shown and no right pane is known, a restart that
/// succeeds takes the mark away: what is shown is in a known pane again.
pub proof fn law_restart_recovers_slot(app: AppView, replies: Seq<Reply>)
    requires
        app.selected < app.procs.len(),
        app::at_most_one_shown(app.procs),
        app.procs[app.selected as int].is_shown,
        app.right is None,
        app.force_restart_step(replies).0 == StepView::<()>::Done(Ok(())),
    ensures
        !app.force_restart_step(replies).1.procs[app.selected as int].is_shown,
        app.force_restart_step(replies).1.slot_known(),
{
    let after = app.force_restart_step(replies).1;
    let s = app.selected as int;
    assert forall|i: int| 0 <= i < after.procs.len() implies !(
    #[trigger] after.procs[i]).is_shown by {
        if i < s {
            assert(!(app.procs[i].is_shown && app.procs[s].is_shown));
        } else if s < i {
            assert(!(app.procs[s].is_shown && app.procs[i].is_shown));
        }
    }
}

/// A process that is not dead is not restarted; one that is dead is restarted
/// as it is where the restart is forced.
pub proof fn law_restart_only_dead(app: AppView, replies: Seq<Reply>)
    requires
        app.selected < app.procs.len(),
    ensures
        match app.procs[app.selected as int].status {
            ProcStatus::Running => app.restart_step(replies) == (
                StepView::<()>::Done(Ok(())),
                app,
            ),
            ProcStatus::Dead => app.restart_step(replies) == app.force_restart_step(replies),
        },
{
}

/// A restart succeeds only where the process has been started afresh: in the
/// place of its pane where it is shown in a known one, and in a window of its
/// own otherwise.
pub proof fn law_restart_starts(app: AppView, replies: Seq<Reply>)
    requires
        app.selected < app.procs.len(),
        app.force_restart_step(replies).0 == StepView::<()>::Done(Ok(())),
    ensures
        ({
            let chosen = app.procs[app.selected as int];
            if chosen.is_shown && app.right is Some {
                &&& app.session.wrapper_step(chosen.name, chosen.cmd, replies) matches StepView::Done(
                    Ok(line),
                )
                &&& tmux::restart_step(
                    app.right->0,
                    app.session.session_name,
                    app.session.window_name(chosen.name),
                    line,
                    app.left,
                    Some(app::LEFT_COLS),
                    replies.skip(1),
                ) == StepView::<Seq<char>>::Done(Ok(app.force_restart_step(replies).1.right->0))
            } else {
                app.session.start_step(
                    chosen.name,
                    chosen.cmd,
                    replies.skip(1),
                ) matches StepView::Done(Ok(_))
            }
        }),
{
}

/// Once a restart has succeeded, the selected process counts as running, it is
/// shown where it was shown in a known pane, and no other process has changed.
/// Unless it has succeeded, no status has changed.
pub proof fn law_restarted_runs(app: AppView, replies: Seq<Reply>)
    ensures
        app.force_restart_step(replies).0 == StepView::<()>::Done(Ok(()))
            ==> app.force_restart_step(replies).1.procs == app::with_status(
            app::with_shown(
                app.procs,
                app.selected,
                app.procs[app.selected as int].is_shown && app.right is Some,
            ),
            app.selected,
            ProcStatus::Running,
        ),
        app.force_restart_step(replies).0 != StepView::<()>::Done(Ok(())) ==> forall|i: int|
            0 <= i < app.procs.len() ==> (#[trigger] app.force_restart_step(
                replies,
            ).1.procs[i]).status == app.procs[i].status,
{
}

/// Looking at the statuses changes nothing else.
pub proof fn law_refresh_keeps(app: AppView, replies: Seq<Reply>)
    ensures
        ({
            let after = app.refresh_step(replies).1;
            &&& app.wf() ==> after.wf()
            &&& same_setting(after, app)
            &&& after.right == app.right
            &&& forall|i: int|
                0 <= i < app.procs.len() ==> (#[trigger] after.procs[i]).is_shown
                    == app.procs[i].is_shown
        }),
{
    let after = app.refresh_step(replies).1;
    if app.wf() {
        assert forall|i: int, j: int| 0 <= i < j < after.procs.len() implies !((
        #[trigger] after.procs[i]).is_shown && (#[trigger] after.procs[j]).is_shown) by {
            assert(!(app.procs[i].is_shown && app.procs[j].is_shown));
        }
        assert forall|i: int, j: int| 0 <= i < j < after.procs.len() implies (
        #[trigger] after.procs[i]).name != (#[trigger] after.procs[j]).name by {
            assert(app.procs[i].name != app.procs[j].name);
        }
    }
}

/// Starting every process comes to an end after two replies for each.
pub proof fn law_start_all_ends(session: SessionView, procs: Seq<ProcView>, replies: Seq<Reply>)
    requires
        replies.len() >= 2 * procs.len(),
    ensures
        app::start_all_step(session, procs, replies) is Done,
    decreases procs.len(),
{
    if procs.len() > 0 {
        law_start_all_ends(session, procs.skip(1), replies.skip(2));
    }
}

/// Stopping everything comes to an end, without an error, after at most two
/// replies for each process and one for the right pane.
pub proof fn law_stop_ends(app: AppView, i: nat, replies: Seq<Reply>)
    requires
        i <= app.procs.len(),
        replies.len() >= 2 * (app.procs.len() - i) + 1,
    ensures
        app.stop_step(i, replies) == StepView::<()>::Done(Ok(())),
        app.stop_replies(i, replies) <= 2 * (app.procs.len() - i) + 1,
    decreases app.procs.len() - i,
{
    if i < app.procs.len() {
        law_stop_ends(
            app,
            i + 1,
            replies.skip(tmux::kill_child_replies(replies) as int),
        );
    }
}

/// Whether a request is one that killing a child makes: to read a status file,
/// or to run `kill`.
pub open spec fn is_about_child(request: RequestView) -> bool {
    match request {
        RequestView::ReadFile(_) => true,
        RequestView::Run(invocation) => invocation.program == "kill"@,
        RequestView::ProgramPath => false,
    }
}

/// Until every child has been dealt with, stopping does what it would do if
/// there were no right pane.
proof fn lemma_children_first(app: AppView, i: nat, replies: Seq<Reply>)
    ensures
        (AppView { right: None, ..app }).stop_step(i, replies) matches StepView::Ask(request) ==> {
            &&& app.stop_step(i, replies) == StepView::<()>::Ask(request)
            &&& is_about_child(request)
        },
    decreases app.procs.len() - i,
{
    if i < app.procs.len() {
        lemma_children_first(
            app,
            i + 1,
            replies.skip(tmux::kill_child_replies(replies) as int),
        );
    }
}

/// Shutting down deals with the children of all the processes before any pane
/// or window goes: as long as one of them is left (that is, as long as stopping
/// without a right pane is not done), what is asked for is about a child. The
/// windows go last, once stopping is done.
pub proof fn law_shut_down_order(app: AppView, replies: Seq<Reply>)
    ensures
        (AppView { right: None, ..app }).stop_step(0, replies) matches StepView::Ask(request) ==> {
            &&& app.shut_down_step(replies) == StepView::<()>::Ask(request)
            &&& is_about_child(request)
        },
        app.stop_step(0, replies) matches StepView::Ask(request) ==> app.shut_down_step(replies)
            == StepView::<()>::Ask(request),
        app.stop_step(0, replies) is Done ==> app.shut_down_step(replies)
            == app.session.cleanup_step(replies.skip(app.stop_replies(0, replies) as int)),
{
    lemma_children_first(app, 0, replies);
}

} // verus!
