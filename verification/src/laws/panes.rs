//! Panes and the chains of commands that move them.

use crate::command;
use crate::command::{Part, Reply, StepView, TmuxErrorView};
use crate::tmux;
use crate::tmux::SessionView;
use vstd::prelude::*;
use vstd::string::*;

verus! {

/// Line `i` describes the pane `pane`.
pub open spec fn lists(lines: Seq<Seq<char>>, i: int, pane: (u32, Seq<char>)) -> bool {
    0 <= i < lines.len() && tmux::listed_pane(lines[i]) == Some(pane)
}

/// The rightmost pane of a listing is listed, no listed pane is further to the
/// right, and none after it is as far; there is none only where no line
/// describes a pane.
pub proof fn law_rightmost(lines: Seq<Seq<char>>)
    ensures
        match tmux::rightmost_listed(lines) {
            Some(best) => exists|i: int|
                #[trigger] lists(lines, i, best) && forall|j: int, pane: (u32, Seq<char>)|
                    #[trigger] lists(lines, j, pane) ==> pane.0 <= best.0 && (j > i ==> pane.0
                        < best.0),
            None => forall|j: int, pane: (u32, Seq<char>)| !#[trigger] lists(lines, j, pane),
        },
    decreases lines.len(),
{
    if lines.len() > 0 {
        let front = lines.drop_last();
        let last = lines.len() - 1;
        law_rightmost(front);
        assert forall|j: int, pane: (u32, Seq<char>)| #[trigger]
            lists(lines, j, pane) && j < last implies lists(front, j, pane) by {
            assert(front[j] == lines[j]);
        }
        match tmux::rightmost_listed(lines) {
            Some(best) => {
                let earlier = tmux::rightmost_listed(front);
                if tmux::listed_pane(lines.last()) == Some(best) && (earlier is None || best.0 >= (
                earlier->0).0) {
                    assert(lists(lines, last, best));
                    assert forall|j: int, pane: (u32, Seq<char>)| #[trigger]
                        lists(lines, j, pane) implies pane.0 <= best.0 && (j > last ==> pane.0
                        < best.0) by {
                        if j < last {
                            assert(lists(front, j, pane));
                        }
                    }
                } else {
                    let i = choose|i: int|
                        #[trigger] lists(front, i, best) && forall|
                            j: int,
                            pane: (u32, Seq<char>),
                        | #[trigger]
                            lists(front, j, pane) ==> pane.0 <= best.0 && (j > i ==> pane.0
                                < best.0);
                    assert(front[i] == lines[i]);
                    assert(lists(lines, i, best));
                    assert forall|j: int, pane: (u32, Seq<char>)| #[trigger]
                        lists(lines, j, pane) implies pane.0 <= best.0 && (j > i ==> pane.0
                        < best.0) by {
                        if j < last {
                            assert(lists(front, j, pane));
                        }
                    }
                }
            },
            None => {
                assert forall|j: int, pane: (u32, Seq<char>)| !#[trigger]
                    lists(lines, j, pane) by {
                    if lists(lines, j, pane) && j < last {
                        assert(lists(front, j, pane));
                    }
                }
            },
        }
    }
}

/// The command `command` stands in a chain at `i`: behind a separator, and
/// before another or at the end.
pub open spec fn stands_at(args: Seq<Seq<char>>, command: Seq<Seq<char>>, i: int) -> bool {
    &&& 0 < i <= i + command.len() <= args.len()
    &&& args[i - 1] == ";"@
    &&& args.subrange(i, i + command.len()) == command
    &&& i + command.len() < args.len() ==> args[i + command.len()] == ";"@
}

/// The command `command` stands in a chain behind its first command.
pub open spec fn runs(args: Seq<Seq<char>>, command: Seq<Seq<char>>) -> bool {
    exists|i: int| #[trigger] stands_at(args, command, i)
}

/// Whether a chain keeps the window `target` out of the status line.
#[verifier::opaque]
pub open spec fn hides(args: Seq<Seq<char>>, target: Seq<char>) -> bool {
    &&& runs(args, tmux::window_option(target, "window-status-format"@, ""@))
    &&& runs(args, tmux::window_option(target, "window-status-current-format"@, ""@))
}

/// A chain with the hiding arguments in it hides the window.
proof fn lemma_hides(front: Seq<Seq<char>>, target: Seq<char>, rest: Seq<Seq<char>>)
    requires
        rest.len() > 0 ==> rest[0] == ";"@,
    ensures
        hides(front + tmux::hiding_args(target) + rest, target),
{
    reveal(hides);
    let args = front + tmux::hiding_args(target) + rest;
    let n = front.len() as int;
    let plain = tmux::window_option(target, "window-status-format"@, ""@);
    let current = tmux::window_option(target, "window-status-current-format"@, ""@);
    assert(plain.len() == 5 && current.len() == 5);
    assert(tmux::hiding_args(target).len() == 12);
    assert(args.subrange(n + 1, n + 6) == plain);
    assert(args.subrange(n + 7, n + 12) == current);
    assert(stands_at(args, plain, n + 1));
    assert(stands_at(args, current, n + 7));
}

/// How a chain of arguments can be grouped.
proof fn lemma_regroup(
    front: Seq<Seq<char>>,
    hiding: Seq<Seq<char>>,
    join: Seq<Seq<char>>,
    resize: Seq<Seq<char>>,
)
    ensures
        front + hiding + Seq::<Seq<char>>::empty() == front + hiding,
        front + hiding + seq![";"@] + join + resize == front + hiding + (seq![";"@] + join
            + resize),
{
}

/// The window of a started process is kept out of the status line.
proof fn lemma_start_hides(session: SessionView, name: Seq<char>, wrapper_cmd: Seq<char>)
    ensures
        hides(session.start_args(name, wrapper_cmd), session.window_id(name)),
{
    let target = session.window_id(name);
    let front = seq![
        "new-window"@,
        "-d"@,
        "-t"@,
        session.session_name,
        "-n"@,
        session.window_name(name),
        wrapper_cmd,
        ";"@,
    ] + tmux::window_option(target, "remain-on-exit"@, "on"@);
    lemma_hides(front, target, Seq::empty());
    lemma_regroup(front, tmux::hiding_args(target), Seq::empty(), Seq::empty());
}

/// Every window that is sent to the background is kept out of the status line:
/// that of a started process, and the one that a shown pane goes back to.
pub proof fn law_background_windows_hidden(
    session: SessionView,
    name: Seq<char>,
    wrapper_cmd: Seq<char>,
    right_pane_id: Seq<char>,
    new_window: Seq<char>,
    left_pane_id: Seq<char>,
    max_left_cols: Option<u16>,
)
    ensures
        hides(session.start_args(name, wrapper_cmd), session.window_id(name)),
        hides(
            tmux::swap_args(
                right_pane_id,
                session.session_name,
                session.window_name(name),
                new_window,
                left_pane_id,
            ) + tmux::resize_args(left_pane_id, max_left_cols),
            session.window_id(name),
        ),
{
    lemma_start_hides(session, name, wrapper_cmd);
    let target = session.window_id(name);
    let front = seq![
        "break-pane"@,
        "-d"@,
        "-s"@,
        right_pane_id,
        "-t"@,
        session.session_name,
        "-n"@,
        session.window_name(name),
    ];
    let join = tmux::join_args(new_window, left_pane_id);
    let resize = tmux::resize_args(left_pane_id, max_left_cols);
    lemma_hides(front, target, seq![";"@] + join + resize);
    lemma_regroup(front, tmux::hiding_args(target), join, resize);
}

/// Moving panes takes one invocation of tmux that changes anything visible;
/// what follows only looks for the pane and sets its option, and with three
/// replies it is done.
pub proof fn law_chain_ends(
    part: Part,
    args: Seq<Seq<char>>,
    left_pane_id: Seq<char>,
    replies: Seq<Reply>,
)
    ensures
        replies.len() >= 3 ==> tmux::chain_step(part, args, left_pane_id, replies) is Done,
        replies.len() == 0 ==> tmux::chain_step(part, args, left_pane_id, replies)
            == StepView::<Seq<char>>::Ask(command::tmux_request(args, true)),
        replies.len() == 1 && tmux::chain_step(part, args, left_pane_id, replies) is Ask
            ==> tmux::chain_step(part, args, left_pane_id, replies) == tmux::rightmost_step(
            left_pane_id,
            seq![],
        ),
        replies.len() == 2 && tmux::chain_step(part, args, left_pane_id, replies) is Ask
            ==> exists|id: Seq<char>|
            tmux::rightmost_step(left_pane_id, replies.skip(1)) == StepView::Done(
                Ok::<Seq<char>, TmuxErrorView>(id),
            ) && tmux::chain_step(part, args, left_pane_id, replies) == StepView::<Seq<char>>::Ask(
                #[trigger] tmux::remain_on_exit(id),
            ),
{
    if replies.len() == 1 {
        assert(replies.skip(1) == Seq::<Reply>::empty());
    }
}

} // verus!
