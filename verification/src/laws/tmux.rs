//! What each operation on tmux asks for, argument by argument, and what it
//! makes of each answer.

use crate::command;
use crate::command::{
    InvocationView, Part, Reply, Request, RequestView, Step, StepView, TmuxError, TmuxErrorView,
};
use crate::laws;
use crate::number;
use crate::shell;
use crate::text;
use crate::tmux;
use crate::tmux::SessionView;
use vstd::prelude::*;
use vstd::string::*;
use vstd::utf8::*;

verus! {

/// Whether a step is to run tmux with these arguments.
pub open spec fn asks_tmux<V>(step: StepView<V>, args: Seq<Seq<char>>, captured: bool) -> bool {
    step == StepView::<V>::Ask(
        RequestView::Run(InvocationView { program: "tmux"@, args, captured }),
    )
}

/// Whether a reply tells of a command that has succeeded.
pub open spec fn succeeded(reply: Reply) -> bool {
    reply matches Reply::Exited(out) && out.success
}

/// Why a command was not run, as far as `reply` tells.
pub open spec fn not_run(reply: Reply) -> Option<Seq<char>> {
    match reply {
        Reply::Failed(reason) => Some(reason@),
        Reply::Text(_) => Some("unexpected reply"@),
        Reply::Exited(_) => None,
    }
}

/// Why a text is not to be had, as far as `reply` tells.
pub open spec fn not_read(reply: Reply) -> Option<Seq<char>> {
    match reply {
        Reply::Failed(reason) => Some(reason@),
        Reply::Exited(_) => Some("unexpected reply"@),
        Reply::Text(_) => None,
    }
}

/// Two commands in one chain.
pub open spec fn then_run(first: Seq<Seq<char>>, next: Seq<Seq<char>>) -> Seq<Seq<char>> {
    first + seq![";"@] + next
}

/// The command that sets an option of a window.
pub open spec fn sets_option(target: Seq<char>, option: Seq<char>, value: Seq<char>) -> Seq<
    Seq<char>,
> {
    seq!["set-window-option"@, "-t"@, target, option, value]
}

/// The command that joins the pane of the window `source` to the right of `left`.
pub open spec fn joins(source: Seq<char>, left: Seq<char>) -> Seq<Seq<char>> {
    seq!["join-pane"@, "-h"@, "-d"@, "-s"@, source, "-t"@, left]
}

/// The command that starts `line` in a new window.
pub open spec fn opens(session: Seq<char>, window: Seq<char>, line: Seq<char>) -> Seq<Seq<char>> {
    seq!["new-window"@, "-d"@, "-t"@, session, "-n"@, window, line]
}

/// The command that sends a pane to a window of its own.
pub open spec fn breaks_off(pane: Seq<char>, session: Seq<char>, window: Seq<char>) -> Seq<
    Seq<char>,
> {
    seq!["break-pane"@, "-d"@, "-s"@, pane, "-t"@, session, "-n"@, window]
}

/// `args`, and then the left pane gets `cols` columns, where a limit is given.
pub open spec fn then_resized(args: Seq<Seq<char>>, left: Seq<char>, cols: Option<u16>) -> Seq<
    Seq<char>,
> {
    match cols {
        Some(cols) => then_run(
            args,
            seq!["resize-pane"@, "-t"@, left, "-x"@, number::decimal(cols as nat)],
        ),
        None => args,
    }
}

/// `args`, and then the window `target` is kept out of the status line.
pub open spec fn then_hidden(args: Seq<Seq<char>>, target: Seq<char>) -> Seq<Seq<char>> {
    then_run(
        then_run(args, sets_option(target, "window-status-format"@, ""@)),
        sets_option(target, "window-status-current-format"@, ""@),
    )
}

/// The chain that starts `line` in a hidden window that stays.
pub open spec fn starts_hidden(session: Seq<char>, window: Seq<char>, line: Seq<char>) -> Seq<
    Seq<char>,
> {
    let target = session + ":"@ + window;
    then_hidden(
        then_run(opens(session, window, line), sets_option(target, "remain-on-exit"@, "on"@)),
        target,
    )
}

/// The chain that kills a pane, starts `line` in a window that stays, and joins
/// that window in its place.
pub open spec fn restarts(
    pane: Seq<char>,
    session: Seq<char>,
    window: Seq<char>,
    line: Seq<char>,
    left: Seq<char>,
) -> Seq<Seq<char>> {
    let target = session + ":"@ + window;
    then_run(
        then_run(
            then_run(seq!["kill-pane"@, "-t"@, pane], opens(session, window, line)),
            sets_option(target, "remain-on-exit"@, "on"@),
        ),
        joins(target, left),
    )
}

/// The chain that sends a pane back to a hidden window, and joins another one.
pub open spec fn swaps(
    pane: Seq<char>,
    session: Seq<char>,
    window: Seq<char>,
    source: Seq<char>,
    left: Seq<char>,
) -> Seq<Seq<char>> {
    then_run(
        then_hidden(breaks_off(pane, session, window), session + ":"@ + window),
        joins(source, left),
    )
}

/// The names of a process: its window, the window's target and its status file.
pub proof fn law_names(pid: u32, session_name: Seq<char>, name: Seq<char>)
    ensures
        ({
            let prefix = "_tp"@ + number::decimal(pid as nat) + "_"@;
            let session = SessionView { session_name, prefix };
            &&& tmux::instance_prefix(pid) == prefix
            &&& session.window_name(name) == prefix + name
            &&& session.window_id(name) == session_name + ":"@ + (prefix + name)
            &&& session.status_file(name) == "/tmp/tmprocs_"@ + prefix + name
        }),
{
}

/// The same, whatever the prefix is.
pub proof fn law_names_carry_prefix(session: SessionView, name: Seq<char>)
    ensures
        session.window_name(name) == session.prefix + name,
        session.window_id(name) == session.session_name + ":"@ + (session.prefix + name),
        session.status_file(name) == "/tmp/tmprocs_"@ + session.prefix + name,
{
}

/// The wrapper's command line: this program, the word `wrap`, the status file
/// of the process and its command as one quoted word.
pub proof fn law_wrapper_line(
    session: SessionView,
    name: Seq<char>,
    shell_cmd: Seq<char>,
    replies: Seq<Reply>,
)
    ensures
        replies.len() == 0 ==> session.wrapper_step(name, shell_cmd, replies) == StepView::<
            Seq<char>,
        >::Ask(RequestView::ProgramPath),
        replies.len() > 0 ==> match replies[0] {
            Reply::Text(program) => session.wrapper_step(name, shell_cmd, replies) == StepView::<
                Seq<char>,
            >::Done(
                Ok(
                    program@ + " wrap "@ + ("/tmp/tmprocs_"@ + session.prefix + name) + " "@
                        + shell::quoted(shell_cmd),
                ),
            ),
            _ => session.wrapper_step(name, shell_cmd, replies) == StepView::<Seq<char>>::Done(
                Err(TmuxErrorView::Program(not_read(replies[0])->0)),
            ),
        },
{
}

/// Text behind text behind text.
proof fn lemma_five(
    a: Seq<Seq<char>>,
    b: Seq<Seq<char>>,
    c: Seq<Seq<char>>,
    d: Seq<Seq<char>>,
    e: Seq<Seq<char>>,
)
    ensures
        a + (b + c + d + e) == a + b + c + d + e,
        a + (b + c) == a + b + c,
{
}

/// A chain of arguments is its commands with a separator between each two.
pub proof fn law_chains(
    session: SessionView,
    name: Seq<char>,
    line: Seq<char>,
    pane: Seq<char>,
    source: Seq<char>,
    left: Seq<char>,
    cols: Option<u16>,
)
    ensures
        session.start_args(name, line) == starts_hidden(
            session.session_name,
            session.window_name(name),
            line,
        ),
        tmux::join_args(source, left) + tmux::resize_args(left, cols) == then_resized(
            joins(source, left),
            left,
            cols,
        ),
        tmux::restart_args(pane, session.session_name, session.window_name(name), line, left)
            + tmux::resize_args(left, cols) == then_resized(
            restarts(pane, session.session_name, session.window_name(name), line, left),
            left,
            cols,
        ),
        tmux::swap_args(pane, session.session_name, session.window_name(name), source, left)
            + tmux::resize_args(left, cols) == then_resized(
            swaps(pane, session.session_name, session.window_name(name), source, left),
            left,
            cols,
        ),
{
    lemma_start_chain(session, name, line);
    lemma_resize_chain(tmux::join_args(source, left), left, cols);
    let window = session.window_name(name);
    lemma_restart_chain(pane, session.session_name, window, line, left);
    lemma_resize_chain(
        tmux::restart_args(pane, session.session_name, window, line, left),
        left,
        cols,
    );
    lemma_swap_chain(pane, session.session_name, window, source, left);
    lemma_resize_chain(
        tmux::swap_args(pane, session.session_name, window, source, left),
        left,
        cols,
    );
}

proof fn lemma_resize_chain(args: Seq<Seq<char>>, left: Seq<char>, cols: Option<u16>)
    ensures
        args + tmux::resize_args(left, cols) == then_resized(args, left, cols),
{
    if let Some(n) = cols {
        let resize = seq!["resize-pane"@, "-t"@, left, "-x"@, number::decimal(n as nat)];
        assert(tmux::resize_args(left, cols) == seq![";"@] + resize);
        lemma_five(args, seq![";"@], resize, resize, resize);
    } else {
        assert(args + tmux::resize_args(left, cols) == args);
    }
}

proof fn lemma_start_chain(session: SessionView, name: Seq<char>, line: Seq<char>)
    ensures
        session.start_args(name, line) == starts_hidden(
            session.session_name,
            session.window_name(name),
            line,
        ),
{
    let window = session.window_name(name);
    let target = session.window_id(name);
    let open = opens(session.session_name, window, line);
    assert(seq![
        "new-window"@,
        "-d"@,
        "-t"@,
        session.session_name,
        "-n"@,
        window,
        line,
        ";"@,
    ] == open + seq![";"@]);
    lemma_five(
        open + seq![";"@] + sets_option(target, "remain-on-exit"@, "on"@),
        seq![";"@],
        sets_option(target, "window-status-format"@, ""@),
        seq![";"@],
        sets_option(target, "window-status-current-format"@, ""@),
    );
}

proof fn lemma_restart_chain(
    pane: Seq<char>,
    session: Seq<char>,
    window: Seq<char>,
    line: Seq<char>,
    left: Seq<char>,
)
    ensures
        tmux::restart_args(pane, session, window, line, left) == restarts(
            pane,
            session,
            window,
            line,
            left,
        ),
{
    assert(seq![
        "kill-pane"@,
        "-t"@,
        pane,
        ";"@,
        "new-window"@,
        "-d"@,
        "-t"@,
        session,
        "-n"@,
        window,
        line,
        ";"@,
    ] == seq!["kill-pane"@, "-t"@, pane] + seq![";"@] + opens(session, window, line) + seq![";"@]);
}

proof fn lemma_swap_chain(
    pane: Seq<char>,
    session: Seq<char>,
    window: Seq<char>,
    source: Seq<char>,
    left: Seq<char>,
)
    ensures
        tmux::swap_args(pane, session, window, source, left) == swaps(
            pane,
            session,
            window,
            source,
            left,
        ),
{
    let target = session + ":"@ + window;
    lemma_five(
        breaks_off(pane, session, window),
        seq![";"@],
        sets_option(target, "window-status-format"@, ""@),
        seq![";"@],
        sets_option(target, "window-status-current-format"@, ""@),
    );
}

/// Starting a process asks for the path of this program, and then for a hidden
/// window, named after the process, that runs its command under the wrapper.
/// It gives the window's target where tmux agrees.
pub proof fn law_start(
    session: SessionView,
    name: Seq<char>,
    shell_cmd: Seq<char>,
    replies: Seq<Reply>,
)
    ensures
        ({
            let step = session.start_step(name, shell_cmd, replies);
            &&& replies.len() == 0 ==> step == StepView::<Seq<char>>::Ask(RequestView::ProgramPath)
            &&& replies.len() > 0 ==> match replies[0] {
                Reply::Text(program) => {
                    &&& replies.len() == 1 ==> asks_tmux(
                        step,
                        starts_hidden(
                            session.session_name,
                            session.prefix + name,
                            program@ + " wrap "@ + ("/tmp/tmprocs_"@ + session.prefix + name)
                                + " "@ + shell::quoted(shell_cmd),
                        ),
                        true,
                    )
                    &&& replies.len() > 1 ==> match replies[1] {
                        Reply::Exited(out) => step == if out.success {
                            StepView::Done(
                                Ok(session.session_name + ":"@ + (session.prefix + name)),
                            )
                        } else {
                            StepView::Done(
                                Err(
                                    TmuxErrorView::Refused {
                                        part: Part::NewWindow,
                                        stderr: command::lossy_text(out.stderr@),
                                    },
                                ),
                            )
                        },
                        _ => step == StepView::<Seq<char>>::Done(
                            Err(TmuxErrorView::Launch(not_run(replies[1])->0)),
                        ),
                    }
                },
                _ => step == StepView::<Seq<char>>::Done(
                    Err(TmuxErrorView::Program(not_read(replies[0])->0)),
                ),
            }
        }),
{
    if replies.len() > 0 {
        if let Reply::Text(program) = replies[0] {
            let line = session.wrapper_line(program@, name, shell_cmd);
            lemma_start_chain(session, name, line);
        }
    }
}

/// A chain that joins a pane is run; then the rightmost pane of the left one's
/// window is looked for, and told to stay open; that pane is what the chain has
/// brought.
pub proof fn law_chain(part: Part, args: Seq<Seq<char>>, left: Seq<char>, replies: Seq<Reply>)
    ensures
        ({
            let step = tmux::chain_step(part, args, left, replies);
            &&& replies.len() == 0 ==> asks_tmux(step, args, true)
            &&& replies.len() > 0 ==> match replies[0] {
                Reply::Exited(out) => {
                    &&& !out.success ==> step == StepView::<Seq<char>>::Done(
                        Err(
                            TmuxErrorView::Refused {
                                part,
                                stderr: command::lossy_text(out.stderr@),
                            },
                        ),
                    )
                    &&& out.success && replies.len() == 1 ==> asks_tmux(
                        step,
                        seq!["list-panes"@, "-t"@, left, "-F"@, "#{pane_left} #{pane_id}"@],
                        true,
                    )
                    &&& out.success && replies.len() > 1 ==> match found_pane(replies[1], left) {
                        Ok(pane) => if replies.len() == 2 {
                            asks_tmux(
                                step,
                                seq!["set-option"@, "-p"@, "-t"@, pane, "remain-on-exit"@, "on"@],
                                false,
                            )
                        } else {
                            step == StepView::<Seq<char>>::Done(Ok(pane))
                        },
                        Err(e) => step == StepView::<Seq<char>>::Done(Err(e)),
                    }
                },
                _ => step == StepView::<Seq<char>>::Done(
                    Err(TmuxErrorView::Launch(not_run(replies[0])->0)),
                ),
            }
        }),
{
}

/// The rightmost pane that a reply to the listing of panes tells of.
pub open spec fn found_pane(reply: Reply, left: Seq<char>) -> Result<Seq<char>, TmuxErrorView> {
    match reply {
        Reply::Exited(out) => if !out.success {
            Err(
                TmuxErrorView::Refused {
                    part: Part::ListPanes,
                    stderr: command::lossy_text(out.stderr@),
                },
            )
        } else if !valid_utf8(out.stdout@) {
            Err(TmuxErrorView::NotUtf8(command::utf8_error_text(out.stdout@)))
        } else {
            match tmux::rightmost_listed(text::lines_of(decode_utf8(out.stdout@))) {
                Some(pane) => Ok(pane.1),
                None => Err(TmuxErrorView::NoPanes(left)),
            }
        },
        _ => Err(TmuxErrorView::Launch(not_run(reply)->0)),
    }
}

/// The search for the rightmost pane lists the panes, and finds it in the list.
pub proof fn law_rightmost_search(pane_id: Seq<char>, replies: Seq<Reply>)
    ensures
        replies.len() == 0 ==> asks_tmux(
            tmux::rightmost_step(pane_id, replies),
            seq!["list-panes"@, "-t"@, pane_id, "-F"@, "#{pane_left} #{pane_id}"@],
            true,
        ),
        replies.len() > 0 ==> tmux::rightmost_step(pane_id, replies) == StepView::<
            Seq<char>,
        >::Done(found_pane(replies[0], pane_id)),
{
}

/// A line of the listing tells of a pane where its first word is a number, the
/// left offset, and there is a second one, the pane's name.
pub proof fn law_listed_pane(line: Seq<char>, offset: u32, pane: Seq<char>)
    ensures
        tmux::listed_pane(line) == Some((offset, pane)) <==> text::words_of(line).len() >= 2
            && number::parsed_u32(text::words_of(line)[0]) == Some(offset) && text::words_of(
            line,
        )[1] == pane,
{
}

/// Joining, restarting and swapping are such chains.
pub proof fn law_moving_panes(
    session: SessionView,
    name: Seq<char>,
    line: Seq<char>,
    pane: Seq<char>,
    source: Seq<char>,
    left: Seq<char>,
    cols: Option<u16>,
    replies: Seq<Reply>,
)
    ensures
        tmux::join_step(source, left, cols, replies) == tmux::chain_step(
            Part::JoinPane,
            then_resized(joins(source, left), left, cols),
            left,
            replies,
        ),
        tmux::restart_step(
            pane,
            session.session_name,
            session.window_name(name),
            line,
            left,
            cols,
            replies,
        ) == tmux::chain_step(
            Part::Restart,
            then_resized(
                restarts(pane, session.session_name, session.prefix + name, line, left),
                left,
                cols,
            ),
            left,
            replies,
        ),
        tmux::swap_step(
            pane,
            session.session_name,
            session.window_name(name),
            source,
            left,
            cols,
            replies,
        ) == tmux::chain_step(
            Part::Swap,
            then_resized(
                swaps(pane, session.session_name, session.prefix + name, source, left),
                left,
                cols,
            ),
            left,
            replies,
        ),
{
    law_chains(session, name, line, pane, source, left, cols);
}

/// Whether a reply to the question after a dead pane tells of a live one.
pub open spec fn tells_alive(reply: Reply) -> bool {
    reply matches Reply::Exited(out) && out.success && text::trimmed(
        command::lossy_text(out.stdout@),
    ) == "0"@
}

/// A pane is alive exactly where tmux answers the question after its death with
/// a zero.
pub proof fn law_alive(pane: Seq<char>, replies: Seq<Reply>)
    ensures
        replies.len() == 0 ==> asks_tmux(
            tmux::alive_step(pane, replies),
            seq!["display-message"@, "-t"@, pane, "-p"@, "#{pane_dead}"@],
            true,
        ),
        replies.len() > 0 ==> tmux::alive_step(pane, replies) == StepView::<bool>::Done(
            Ok(tells_alive(replies[0])),
        ),
{
}

/// A command whose outcome does not matter is run; only where it is not, that
/// is an error.
pub proof fn law_plain(args: Seq<Seq<char>>, replies: Seq<Reply>)
    ensures
        replies.len() == 0 ==> asks_tmux(tmux::plain_step(args, replies), args, false),
        replies.len() > 0 ==> match replies[0] {
            Reply::Exited(_) => tmux::plain_step(args, replies) == StepView::<()>::Done(Ok(())),
            _ => tmux::plain_step(args, replies) == StepView::<()>::Done(
                Err(TmuxErrorView::Launch(not_run(replies[0])->0)),
            ),
        },
{
}

/// The process that a status file tells of as running: what follows `running:`
/// in it.
pub open spec fn told_process(reply: Reply) -> Option<Seq<char>> {
    match reply {
        Reply::Text(content) => text::after_prefix(text::trimmed(content@), "running:"@),
        _ => None,
    }
}

/// Killing a child reads the status file, and sends SIGTERM to the whole group
/// of the process that the file tells of as running, and to no other. It takes
/// one reply for each.
pub proof fn law_kill_child(path: Seq<char>, replies: Seq<Reply>)
    ensures
        ({
            let step = tmux::kill_child_step(path, replies);
            &&& replies.len() == 0 ==> step == StepView::<()>::Ask(RequestView::ReadFile(path))
            &&& replies.len() > 0 ==> match told_process(replies[0]) {
                Some(pid) => {
                    &&& tmux::kill_child_replies(replies) == 2
                    &&& replies.len() == 1 ==> step == StepView::<()>::Ask(
                        RequestView::Run(
                            InvocationView {
                                program: "kill"@,
                                args: seq!["-TERM"@, "-"@ + pid],
                                captured: false,
                            },
                        ),
                    )
                    &&& replies.len() > 1 ==> match replies[1] {
                        Reply::Exited(out) => step == if out.success {
                            StepView::<()>::Done(Ok(()))
                        } else {
                            StepView::<()>::Done(Err(TmuxErrorView::KillExited(out.status@)))
                        },
                        _ => step == StepView::<()>::Done(
                            Err(TmuxErrorView::Kill(not_run(replies[1])->0)),
                        ),
                    }
                },
                None => {
                    &&& tmux::kill_child_replies(replies) == 1
                    &&& match replies[0] {
                        Reply::Text(_) => step == StepView::<()>::Done(
                            Err(TmuxErrorView::NotRunning),
                        ),
                        _ => step == StepView::<()>::Done(
                            Err(TmuxErrorView::StatusFile(not_read(replies[0])->0)),
                        ),
                    }
                },
            }
        }),
{
}

/// The cleanup lists the windows of the session, and kills those of the list
/// that begin with the prefix, each of them once and in the order of the list.
pub proof fn law_cleanup(session: SessionView, replies: Seq<Reply>)
    ensures
        ({
            let step = session.cleanup_step(replies);
            &&& replies.len() == 0 ==> asks_tmux(
                step,
                seq!["list-windows"@, "-t"@, session.session_name, "-F"@, "#{window_name}"@],
                true,
            )
            &&& replies.len() > 0 ==> match replies[0] {
                Reply::Exited(out) => if !out.success {
                    step == StepView::<()>::Done(Ok(()))
                } else if !valid_utf8(out.stdout@) {
                    step == StepView::<()>::Done(
                        Err(TmuxErrorView::NotUtf8(command::utf8_error_text(out.stdout@))),
                    )
                } else {
                    let owned = text::lines_of(decode_utf8(out.stdout@)).filter(
                        |window: Seq<char>| session.prefix.is_prefix_of(window),
                    );
                    if replies.len() <= owned.len() {
                        asks_tmux(
                            step,
                            seq![
                                "kill-window"@,
                                "-t"@,
                                session.session_name + ":"@ + owned[replies.len() - 1],
                            ],
                            false,
                        )
                    } else {
                        step == StepView::<()>::Done(Ok(()))
                    }
                },
                _ => step == StepView::<()>::Done(
                    Err(TmuxErrorView::Launch(not_run(replies[0])->0)),
                ),
            }
        }),
{
}

/// A description of the current pane is its session, its window and its name,
/// with tabs between them.
pub proof fn law_described_pane(
    description: Seq<char>,
    session: Seq<char>,
    window: Seq<char>,
    pane: Seq<char>,
)
    requires
        laws::text::lacks(session, '\t'),
        laws::text::lacks(window, '\t'),
    ensures
        text::trimmed(description) == session + seq!['\t'] + (window + seq!['\t'] + pane)
            ==> tmux::described_pane(description) == Some((session, window, pane)),
        text::trimmed(description) == session + seq!['\t'] + window ==> tmux::described_pane(
            description,
        ) is None,
        text::trimmed(description) == session ==> tmux::described_pane(description) is None,
{
    let two = window + seq!['\t'] + pane;
    laws::text::law_pieces(session, '\t', two, 3);
    laws::text::law_pieces(window, '\t', pane, 2);
    laws::text::law_pieces(session, '\t', window, 3);
    laws::text::law_pieces(window, '\t', window, 2);
    assert(seq![session] + (seq![window] + seq![pane]) == seq![session, window, pane]);
}

/// The current pane is asked for, and is what the description tells of.
pub proof fn law_current_pane(replies: Seq<Reply>)
    ensures
        ({
            let step = tmux::current_pane_step(replies);
            &&& replies.len() == 0 ==> asks_tmux(
                step,
                seq!["display-message"@, "-p"@, "#S\t#W\t#D"@],
                true,
            )
            &&& replies.len() > 0 ==> match replies[0] {
                Reply::Exited(out) => step == StepView::<(Seq<char>, Seq<char>, Seq<char>)>::Done(
                    if !out.success {
                        Err(TmuxErrorView::NotInTmux)
                    } else if !valid_utf8(out.stdout@) {
                        Err(TmuxErrorView::NotUtf8(command::utf8_error_text(out.stdout@)))
                    } else {
                        match tmux::described_pane(decode_utf8(out.stdout@)) {
                            Some(pane) => Ok(pane),
                            None => Err(
                                TmuxErrorView::UnexpectedOutput(decode_utf8(out.stdout@)),
                            ),
                        }
                    },
                ),
                _ => step == StepView::<(Seq<char>, Seq<char>, Seq<char>)>::Done(
                    Err(TmuxErrorView::Launch(not_run(replies[0])->0)),
                ),
            }
        }),
{
}

/// Each error is told in words that hold what is known of it.
pub proof fn law_messages(e: Seq<char>)
    ensures
        TmuxErrorView::Program(e).message() == e,
        TmuxErrorView::Launch(e).message() == e,
        TmuxErrorView::NotUtf8(e).message() == e,
        (TmuxErrorView::Refused { part: Part::NewWindow, stderr: e }).message() == "tmux "@
            + "new-window"@ + " failed: "@ + e,
        (TmuxErrorView::Refused { part: Part::JoinPane, stderr: e }).message() == "tmux "@
            + "join-pane"@ + " failed: "@ + e,
        (TmuxErrorView::Refused { part: Part::ListPanes, stderr: e }).message() == "tmux "@
            + "list-panes"@ + " failed: "@ + e,
        (TmuxErrorView::Refused { part: Part::Restart, stderr: e }).message() == "tmux "@
            + "restart"@ + " failed: "@ + e,
        (TmuxErrorView::Refused { part: Part::Swap, stderr: e }).message() == "tmux "@ + "swap"@
            + " failed: "@ + e,
        TmuxErrorView::NoPanes(e).message() == "no panes found in window containing "@ + e,
        TmuxErrorView::NotInTmux.message() == "not running inside tmux"@,
        TmuxErrorView::UnexpectedOutput(e).message()
            == "unexpected tmux display-message output: "@ + e,
        TmuxErrorView::StatusFile(e).message() == "cannot read status file: "@ + e,
        TmuxErrorView::NotRunning.message() == "process is not running"@,
        TmuxErrorView::Kill(e).message() == "kill failed: "@ + e,
        TmuxErrorView::KillExited(e).message() == "kill exited with "@ + e,
{
}

/// What is said of an error is said of the text in it.
pub proof fn law_error_view(e: String, part: Part)
    ensures
        TmuxError::Program(e)@ == TmuxErrorView::Program(e@),
        TmuxError::Launch(e)@ == TmuxErrorView::Launch(e@),
        (TmuxError::Refused { part, stderr: e })@ == (TmuxErrorView::Refused { part, stderr: e@ }),
        TmuxError::NotUtf8(e)@ == TmuxErrorView::NotUtf8(e@),
        TmuxError::NoPanes(e)@ == TmuxErrorView::NoPanes(e@),
        TmuxError::NotInTmux@ == TmuxErrorView::NotInTmux,
        TmuxError::UnexpectedOutput(e)@ == TmuxErrorView::UnexpectedOutput(e@),
        TmuxError::StatusFile(e)@ == TmuxErrorView::StatusFile(e@),
        TmuxError::NotRunning@ == TmuxErrorView::NotRunning,
        TmuxError::Kill(e)@ == TmuxErrorView::Kill(e@),
        TmuxError::KillExited(e)@ == TmuxErrorView::KillExited(e@),
{
}

/// What is said of a step is said of its request, its value or its error.
pub proof fn law_step_view(request: Request, value: String, error: TmuxError)
    ensures
        Step::<String>::Ask(request)@ == StepView::<Seq<char>>::Ask(request@),
        Step::<String>::Done(Ok(value))@ == StepView::<Seq<char>>::Done(Ok(value@)),
        Step::<String>::Done(Err(error))@ == StepView::<Seq<char>>::Done(Err(error@)),
{
}

} // verus!
