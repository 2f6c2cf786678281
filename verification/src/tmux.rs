//! tmux: the windows and panes in which the processes run.

use crate::command;
use crate::command::{
    Invocation, InvocationView, Part, Reply, Request, RequestView, Step, StepView, TmuxError,
    TmuxErrorView,
};
use crate::number;
use crate::shell;
use crate::text;
use vstd::prelude::*;
use vstd::string::*;
use vstd::utf8::*;

verus! {

/// Manages process windows as hidden windows in the user's own tmux session,
/// using a per-instance prefix so they don't pollute the session chooser.
pub struct TmuxSession {
    pub session_name: String,
    prefix: String,
}

/// What a `TmuxSession` holds.
#[verifier::ext_equal]
pub struct SessionView {
    pub session_name: Seq<char>,
    pub prefix: Seq<char>,
}

/// The window name prefix of the instance with this process id.
pub open spec fn instance_prefix(pid: u32) -> Seq<char> {
    "_tp"@ + number::decimal(pid as nat) + "_"@
}

/// The arguments that set a window option.
pub open spec fn window_option(target: Seq<char>, option: Seq<char>, value: Seq<char>) -> Seq<
    Seq<char>,
> {
    seq!["set-window-option"@, "-t"@, target, option, value]
}

/// The arguments that keep a background window out of the status line: both
/// of its status formats become empty.
pub open spec fn hiding_args(target: Seq<char>) -> Seq<Seq<char>> {
    seq![";"@] + window_option(target, "window-status-format"@, ""@) + seq![";"@] + window_option(
        target,
        "window-status-current-format"@,
        ""@,
    )
}

/// The arguments that resize the left pane, if it is to be resized.
pub open spec fn resize_args(left_pane_id: Seq<char>, max_left_cols: Option<u16>) -> Seq<Seq<char>> {
    match max_left_cols {
        Some(cols) => seq![
            ";"@,
            "resize-pane"@,
            "-t"@,
            left_pane_id,
            "-x"@,
            number::decimal(cols as nat),
        ],
        None => seq![],
    }
}

impl SessionView {
    pub open spec fn window_name(self, name: Seq<char>) -> Seq<char> {
        self.prefix + name
    }

    pub open spec fn window_id(self, name: Seq<char>) -> Seq<char> {
        self.session_name + ":"@ + self.window_name(name)
    }

    pub open spec fn status_file(self, name: Seq<char>) -> Seq<char> {
        "/tmp/tmprocs_"@ + self.prefix + name
    }

    /// The command line that runs `shell_cmd` under the wrapper of `program`.
    pub open spec fn wrapper_line(
        self,
        program: Seq<char>,
        name: Seq<char>,
        shell_cmd: Seq<char>,
    ) -> Seq<char> {
        program + " wrap "@ + self.status_file(name) + " "@ + shell::quoted(shell_cmd)
    }

    /// How making that line goes on after `replies`: it needs the path of this
    /// program.
    pub open spec fn wrapper_step(
        self,
        name: Seq<char>,
        shell_cmd: Seq<char>,
        replies: Seq<Reply>,
    ) -> StepView<Seq<char>> {
        if replies.len() == 0 {
            StepView::Ask(RequestView::ProgramPath)
        } else {
            match command::given_text(replies[0]) {
                Ok(program) => StepView::Done(Ok(self.wrapper_line(program, name, shell_cmd))),
                Err(e) => StepView::Done(Err(TmuxErrorView::Program(e))),
            }
        }
    }

    /// The arguments that start a process in a hidden window of its own.
    pub open spec fn start_args(self, name: Seq<char>, wrapper_cmd: Seq<char>) -> Seq<Seq<char>> {
        seq![
            "new-window"@,
            "-d"@,
            "-t"@,
            self.session_name,
            "-n"@,
            self.window_name(name),
            wrapper_cmd,
            ";"@,
        ] + window_option(self.window_id(name), "remain-on-exit"@, "on"@) + hiding_args(
            self.window_id(name),
        )
    }

    /// How starting a process goes on after `replies`.
    pub open spec fn start_step(
        self,
        name: Seq<char>,
        shell_cmd: Seq<char>,
        replies: Seq<Reply>,
    ) -> StepView<Seq<char>> {
        match self.wrapper_step(name, shell_cmd, replies) {
            StepView::Done(Ok(wrapper_cmd)) => self.new_window_step(
                name,
                wrapper_cmd,
                replies.skip(1),
            ),
            other => other,
        }
    }

    /// How making the window for a process goes on after `replies`.
    pub open spec fn new_window_step(
        self,
        name: Seq<char>,
        wrapper_cmd: Seq<char>,
        replies: Seq<Reply>,
    ) -> StepView<Seq<char>> {
        if replies.len() == 0 {
            StepView::Ask(command::tmux_request(self.start_args(name, wrapper_cmd), true))
        } else {
            match command::outcome(replies[0]) {
                Err(e) => StepView::Done(Err(TmuxErrorView::Launch(e))),
                Ok(out) => if out.success {
                    StepView::Done(Ok(self.window_id(name)))
                } else {
                    StepView::Done(
                        Err(
                            TmuxErrorView::Refused {
                                part: Part::NewWindow,
                                stderr: command::lossy_text(out.stderr@),
                            },
                        ),
                    )
                },
            }
        }
    }

    /// The windows of a listing that this instance owns.
    pub open spec fn owned_windows(self, listing: Seq<char>) -> Seq<Seq<char>> {
        text::lines_of(listing).filter(|window: Seq<char>| self.prefix.is_prefix_of(window))
    }

    /// How killing the windows `windows` goes on after `killed` of them.
    pub open spec fn kill_windows_step(self, windows: Seq<Seq<char>>, killed: nat) -> StepView<()> {
        if killed < windows.len() {
            StepView::Ask(
                command::tmux_request(
                    seq![
                        "kill-window"@,
                        "-t"@,
                        self.session_name + ":"@ + windows[killed as int],
                    ],
                    false,
                ),
            )
        } else {
            StepView::Done(Ok(()))
        }
    }

    /// How the cleanup goes on after `replies`.
    pub open spec fn cleanup_step(self, replies: Seq<Reply>) -> StepView<()> {
        if replies.len() == 0 {
            StepView::Ask(
                command::tmux_request(
                    seq![
                        "list-windows"@,
                        "-t"@,
                        self.session_name,
                        "-F"@,
                        "#{window_name}"@,
                    ],
                    true,
                ),
            )
        } else {
            match command::outcome(replies[0]) {
                Err(e) => StepView::Done(Err(TmuxErrorView::Launch(e))),
                Ok(out) => if !out.success {
                    StepView::Done(Ok(()))
                } else if !valid_utf8(out.stdout@) {
                    StepView::Done(
                        Err(TmuxErrorView::NotUtf8(command::utf8_error_text(out.stdout@))),
                    )
                } else {
                    self.kill_windows_step(
                        self.owned_windows(decode_utf8(out.stdout@)),
                        (replies.len() - 1) as nat,
                    )
                },
            }
        }
    }
}

impl View for TmuxSession {
    type V = SessionView;

    closed spec fn view(&self) -> SessionView {
        SessionView { session_name: self.session_name@, prefix: self.prefix@ }
    }
}

/// Appends the arguments that set a window option.
fn add_window_option(args: &mut Vec<String>, target: &str, option: &str, value: &str)
    ensures
        text::texts(final(args)@) == text::texts(old(args)@) + window_option(
            target@,
            option@,
            value@,
        ),
{
    command::add_arg(args, "set-window-option");
    command::add_arg(args, "-t");
    command::add_arg(args, target);
    command::add_arg(args, option);
    command::add_arg(args, value);
}

/// Appends the arguments that keep a background window out of the status line.
fn add_hiding(args: &mut Vec<String>, target: &str)
    ensures
        text::texts(final(args)@) == text::texts(old(args)@) + hiding_args(target@),
{
    command::add_arg(args, ";");
    add_window_option(args, target, "window-status-format", "");
    command::add_arg(args, ";");
    add_window_option(args, target, "window-status-current-format", "");
}

/// Appends the arguments that resize the left pane, if it is to be resized.
fn add_resize(args: &mut Vec<String>, left_pane_id: &str, max_left_cols: Option<u16>)
    ensures
        text::texts(final(args)@) == text::texts(old(args)@) + resize_args(
            left_pane_id@,
            max_left_cols,
        ),
{
    if let Some(cols) = max_left_cols {
        command::add_arg(args, ";");
        command::add_arg(args, "resize-pane");
        command::add_arg(args, "-t");
        command::add_arg(args, left_pane_id);
        command::add_arg(args, "-x");
        command::add_arg(args, number::decimal_text(cols as u32).as_str());
    }
}

impl TmuxSession {
    /// Use the current tmux session; process windows get a `_tp<pid>_` prefix.
    pub fn new(session_name: String, pid: u32) -> (session: Self)
        ensures
            session@ == (SessionView {
                session_name: session_name@,
                prefix: instance_prefix(pid),
            }),
    {
        let mut prefix: String = "_tp".to_owned();
        prefix.append(number::decimal_text(pid).as_str());
        prefix.append("_");
        TmuxSession { session_name, prefix }
    }

    /// The name of the tmux session.
    pub fn session(&self) -> (name: &str)
        ensures
            name@ == self@.session_name,
    {
        self.session_name.as_str()
    }

    pub fn window_name_for(&self, name: &str) -> (window: String)
        ensures
            window@ == self@.window_name(name@),
    {
        command::concat(self.prefix.as_str(), name)
    }

    pub fn window_id(&self, name: &str) -> (target: String)
        ensures
            target@ == self@.window_id(name@),
    {
        let mut target: String = command::concat(self.session_name.as_str(), ":");
        target.append(self.window_name_for(name).as_str());
        target
    }

    pub fn status_file_for(&self, name: &str) -> (path: String)
        ensures
            path@ == self@.status_file(name@),
    {
        let mut path: String = command::concat("/tmp/tmprocs_", self.prefix.as_str());
        path.append(name);
        path
    }

    /// The command line that runs `shell_cmd` under this program's wrapper.
    pub fn wrapper_cmd_for(&self, name: &str, shell_cmd: &str, replies: &[Reply]) -> (step: Step<
        String,
    >)
        ensures
            step@ == self@.wrapper_step(name@, shell_cmd@, replies@),
    {
        if replies.len() == 0 {
            return Step::Ask(Request::ProgramPath);
        }
        match command::text_of(&replies[0]) {
            Ok(program) => {
                let mut line: String = command::concat(program, " wrap ");
                line.append(self.status_file_for(name).as_str());
                line.append(" ");
                line.append(shell::shell_quote(shell_cmd).as_str());
                Step::Done(Ok(line))
            },
            Err(e) => Step::Done(Err(TmuxError::Program(e))),
        }
    }

    /// Make the window for a process.
    fn new_window(&self, name: &str, wrapper_cmd: &str, replies: &[Reply]) -> (step: Step<String>)
        ensures
            step@ == self@.new_window_step(name@, wrapper_cmd@, replies@),
    {
        let target: String = self.window_id(name);
        if replies.len() == 0 {
            let window_name: String = self.window_name_for(name);
            let mut args: Vec<String> = Vec::new();
            assert(text::texts(args@) == Seq::<Seq<char>>::empty());
            command::add_arg(&mut args, "new-window");
            command::add_arg(&mut args, "-d");
            command::add_arg(&mut args, "-t");
            command::add_arg(&mut args, self.session_name.as_str());
            command::add_arg(&mut args, "-n");
            command::add_arg(&mut args, window_name.as_str());
            command::add_arg(&mut args, wrapper_cmd);
            command::add_arg(&mut args, ";");
            add_window_option(&mut args, target.as_str(), "remain-on-exit", "on");
            add_hiding(&mut args, target.as_str());
            return Step::Ask(command::tmux(args, true));
        }
        match command::output_of(&replies[0]) {
            Err(e) => Step::Done(Err(TmuxError::Launch(e))),
            Ok(out) => if out.success {
                Step::Done(Ok(target))
            } else {
                Step::Done(
                    Err(
                        TmuxError::Refused {
                            part: Part::NewWindow,
                            stderr: command::decode_lossy(&out.stderr),
                        },
                    ),
                )
            },
        }
    }

    /// Start a process as a new (detached) window in the current session,
    /// wrapped by the wrapper so the pane stays alive after exit. The window
    /// does not show in the status line. Gives the window's target.
    pub fn start_proc(&self, name: &str, shell_cmd: &str, replies: &[Reply]) -> (step: Step<String>)
        ensures
            step@ == self@.start_step(name@, shell_cmd@, replies@),
    {
        match self.wrapper_cmd_for(name, shell_cmd, replies) {
            Step::Done(Ok(wrapper_cmd)) => {
                let later: &[Reply] = vstd::slice::slice_subrange(replies, 1, replies.len());
                self.new_window(name, wrapper_cmd.as_str(), later)
            },
            other => other,
        }
    }

    /// The windows of a listing, one name to a line, that this instance owns.
    pub fn owned_windows(&self, listing: &str) -> (windows: Vec<String>)
        ensures
            text::texts(windows@) == self@.owned_windows(listing@),
    {
        let lines: Vec<String> = text::lines(listing);
        let mut windows: Vec<String> = Vec::new();
        let ghost all = text::texts(lines@);
        let ghost owned = |window: Seq<char>| self.prefix@.is_prefix_of(window);
        let mut i: usize = 0;
        assert(text::texts(windows@) == all.take(0).filter(owned)) by {
            reveal(Seq::filter);
        }
        while i < lines.len()
            invariant
                i <= lines.len(),
                all == text::texts(lines@),
                owned == (|window: Seq<char>| self.prefix@.is_prefix_of(window)),
                text::texts(windows@) == all.take(i as int).filter(owned),
            decreases lines.len() - i,
        {
            let ghost kept = text::texts(windows@);
            proof {
                reveal(Seq::filter);
                assert(all.take(i + 1).drop_last() == all.take(i as int));
                assert(all.take(i + 1).last() == lines@[i as int]@);
            }
            if text::starts_with(lines[i].as_str(), self.prefix.as_str()) {
                windows.push(lines[i].clone());
                assert(text::texts(windows@) == kept.push(lines@[i as int]@));
            }
            i += 1;
        }
        assert(all.take(i as int) == all);
        windows
    }

    /// Kill all windows owned by this instance.
    pub fn cleanup(&self, replies: &[Reply]) -> (step: Step<()>)
        ensures
            step@ == self@.cleanup_step(replies@),
    {
        if replies.len() == 0 {
            let mut args: Vec<String> = Vec::new();
            assert(text::texts(args@) == Seq::<Seq<char>>::empty());
            command::add_arg(&mut args, "list-windows");
            command::add_arg(&mut args, "-t");
            command::add_arg(&mut args, self.session_name.as_str());
            command::add_arg(&mut args, "-F");
            command::add_arg(&mut args, "#{window_name}");
            return Step::Ask(command::tmux(args, true));
        }
        match command::output_of(&replies[0]) {
            Err(e) => Step::Done(Err(TmuxError::Launch(e))),
            Ok(out) => if !out.success {
                // The session may already be gone.
                Step::Done(Ok(()))
            } else {
                match command::decode(&out.stdout) {
                    Err(e) => Step::Done(Err(TmuxError::NotUtf8(e))),
                    Ok(listing) => {
                        let windows: Vec<String> = self.owned_windows(listing.as_str());
                        let killed: usize = replies.len() - 1;
                        if killed < windows.len() {
                            let mut target: String = command::concat(
                                self.session_name.as_str(),
                                ":",
                            );
                            target.append(windows[killed].as_str());
                            Step::Ask(
                                command::tmux(kill_window_args(target.as_str()), false),
                            )
                        } else {
                            Step::Done(Ok(()))
                        }
                    },
                }
            },
        }
    }
}

/// The arguments that kill a window.
fn kill_window_args(window: &str) -> (args: Vec<String>)
    ensures
        text::texts(args@) == seq!["kill-window"@, "-t"@, window@],
{
    let mut args: Vec<String> = Vec::new();
    assert(text::texts(args@) == Seq::<Seq<char>>::empty());
    command::add_arg(&mut args, "kill-window");
    command::add_arg(&mut args, "-t");
    command::add_arg(&mut args, window);
    args
}

/// How a command whose outcome does not matter goes on after `replies`: it is
/// run, and only a failure to start it is an error.
pub open spec fn plain_step(args: Seq<Seq<char>>, replies: Seq<Reply>) -> StepView<()> {
    if replies.len() == 0 {
        StepView::Ask(command::tmux_request(args, false))
    } else {
        match command::outcome(replies[0]) {
            Err(e) => StepView::Done(Err(TmuxErrorView::Launch(e))),
            Ok(_) => StepView::Done(Ok(())),
        }
    }
}

/// How a command whose outcome does not matter goes on after `replies`.
fn plain(args: Vec<String>, replies: &[Reply]) -> (step: Step<()>)
    ensures
        step@ == plain_step(text::texts(args@), replies@),
{
    if replies.len() == 0 {
        return Step::Ask(command::tmux(args, false));
    }
    match command::output_of(&replies[0]) {
        Err(e) => Step::Done(Err(TmuxError::Launch(e))),
        Ok(_) => Step::Done(Ok(())),
    }
}

/// Move tmux focus to the given pane.
pub fn focus_pane(pane_id: &str, replies: &[Reply]) -> (step: Step<()>)
    ensures
        step@ == plain_step(seq!["select-pane"@, "-t"@, pane_id@], replies@),
{
    let mut args: Vec<String> = Vec::new();
    assert(text::texts(args@) == Seq::<Seq<char>>::empty());
    command::add_arg(&mut args, "select-pane");
    command::add_arg(&mut args, "-t");
    command::add_arg(&mut args, pane_id);
    plain(args, replies)
}

/// Kill a pane by ID.
pub fn kill_pane(pane_id: &str, replies: &[Reply]) -> (step: Step<()>)
    ensures
        step@ == plain_step(seq!["kill-pane"@, "-t"@, pane_id@], replies@),
{
    let mut args: Vec<String> = Vec::new();
    assert(text::texts(args@) == Seq::<Seq<char>>::empty());
    command::add_arg(&mut args, "kill-pane");
    command::add_arg(&mut args, "-t");
    command::add_arg(&mut args, pane_id);
    plain(args, replies)
}

/// Kill a window in the background session.
pub fn kill_window(window: &str, replies: &[Reply]) -> (step: Step<()>)
    ensures
        step@ == plain_step(seq!["kill-window"@, "-t"@, window@], replies@),
{
    plain(kill_window_args(window), replies)
}

/// The process that a status file names as running, in the words of the file.
pub open spec fn running_process(content: Seq<char>) -> Option<Seq<char>> {
    text::after_prefix(text::trimmed(content), "running:"@)
}

/// How killing the process that the status file `path` tells of goes on after
/// `replies`: the file is read, and then the process group is sent a signal.
pub open spec fn kill_child_step(path: Seq<char>, replies: Seq<Reply>) -> StepView<()> {
    if replies.len() == 0 {
        StepView::Ask(RequestView::ReadFile(path))
    } else {
        match command::given_text(replies[0]) {
            Err(e) => StepView::Done(Err(TmuxErrorView::StatusFile(e))),
            Ok(content) => match running_process(content) {
                None => StepView::Done(Err(TmuxErrorView::NotRunning)),
                Some(pid) => signal_step(pid, replies.skip(1)),
            },
        }
    }
}

/// How many replies that takes: the second only where there is a process to
/// send a signal to.
pub open spec fn kill_child_replies(replies: Seq<Reply>) -> nat {
    match command::given_text(replies[0]) {
        Ok(content) => if running_process(content) is Some {
            2
        } else {
            1
        },
        Err(_) => 1,
    }
}

/// How sending SIGTERM to the process group `pid` goes on after `replies`.
pub open spec fn signal_step(pid: Seq<char>, replies: Seq<Reply>) -> StepView<()> {
    if replies.len() == 0 {
        StepView::Ask(
            RequestView::Run(
                InvocationView {
                    program: "kill"@,
                    args: seq!["-TERM"@, "-"@ + pid],
                    captured: false,
                },
            ),
        )
    } else {
        match command::outcome(replies[0]) {
            Err(e) => StepView::Done(Err(TmuxErrorView::Kill(e))),
            Ok(out) => if out.success {
                StepView::Done(Ok(()))
            } else {
                StepView::Done(Err(TmuxErrorView::KillExited(out.status@)))
            },
        }
    }
}

/// Send SIGTERM to the process group `pid`.
fn signal_group(pid: &str, replies: &[Reply]) -> (step: Step<()>)
    ensures
        step@ == signal_step(pid@, replies@),
{
    if replies.len() == 0 {
        // Negative: the whole process group.
        let group: String = command::concat("-", pid);
        let mut args: Vec<String> = Vec::new();
        assert(text::texts(args@) == Seq::<Seq<char>>::empty());
        command::add_arg(&mut args, "-TERM");
        command::add_arg(&mut args, group.as_str());
        return Step::Ask(
            Request::Run(Invocation { program: "kill".to_owned(), args, captured: false }),
        );
    }
    match command::output_of(&replies[0]) {
        Err(e) => Step::Done(Err(TmuxError::Kill(e))),
        Ok(out) => if out.success {
            Step::Done(Ok(()))
        } else {
            Step::Done(Err(TmuxError::KillExited(out.status.clone())))
        },
    }
}

/// Kill the child process tracked by a wrapper status file. Sends SIGTERM to
/// the process group of the child PID recorded as `running:<pid>`. Ends in an
/// error if the status file is missing/unreadable, the proc is not running, or
/// the `kill` command fails.
pub fn kill_child_in_wrapper(status_file: &str, replies: &[Reply]) -> (step: Step<()>)
    ensures
        step@ == kill_child_step(status_file@, replies@),
{
    if replies.len() == 0 {
        return Step::Ask(Request::ReadFile(status_file.to_owned()));
    }
    let content: &str = match command::text_of(&replies[0]) {
        Ok(content) => content,
        Err(e) => return Step::Done(Err(TmuxError::StatusFile(e))),
    };
    let later: &[Reply] = vstd::slice::slice_subrange(replies, 1, replies.len());
    match text::strip_prefix(text::trim(content), "running:") {
        Some(pid) => signal_group(pid, later),
        None => Step::Done(Err(TmuxError::NotRunning)),
    }
}

/// How many replies `kill_child_in_wrapper` took when it is done.
pub fn kill_child_taken(replies: &[Reply]) -> (taken: usize)
    requires
        replies@.len() > 0,
    ensures
        taken == kill_child_replies(replies@),
{
    match command::text_of(&replies[0]) {
        Ok(content) => if text::starts_with(text::trim(content), "running:") {
            2
        } else {
            1
        },
        Err(_) => 1,
    }
}

/// The session, window and pane in a description of the current pane, if it
/// has the three.
pub open spec fn described_pane(description: Seq<char>) -> Option<(Seq<char>, Seq<char>, Seq<char>)> {
    let parts = text::pieces_of(text::trimmed(description), '\t', 3);
    if parts.len() == 3 {
        Some((parts[0], parts[1], parts[2]))
    } else {
        None
    }
}

/// The session, window and pane in a description of the current pane.
pub fn parse_pane(description: &str) -> (pane: Option<(String, String, String)>)
    ensures
        match pane {
            Some(p) => described_pane(description@) == Some(p@),
            None => described_pane(description@) is None,
        },
{
    let parts: Vec<String> = text::pieces(text::trim(description), '\t', 3);
    let ghost all = text::pieces_of(text::trimmed(description@), '\t', 3);
    assert(parts.len() == all.len());
    if parts.len() != 3 {
        return None;
    }
    assert(parts@[0]@ == all[0] && parts@[1]@ == all[1] && parts@[2]@ == all[2]);
    Some((parts[0].clone(), parts[1].clone(), parts[2].clone()))
}

/// How asking for the current pane goes on after `replies`.
pub open spec fn current_pane_step(replies: Seq<Reply>) -> StepView<
    (Seq<char>, Seq<char>, Seq<char>),
> {
    if replies.len() == 0 {
        StepView::Ask(
            command::tmux_request(seq!["display-message"@, "-p"@, "#S\t#W\t#D"@], true),
        )
    } else {
        match command::outcome(replies[0]) {
            Err(e) => StepView::Done(Err(TmuxErrorView::Launch(e))),
            Ok(out) => if !out.success {
                StepView::Done(Err(TmuxErrorView::NotInTmux))
            } else if !valid_utf8(out.stdout@) {
                StepView::Done(
                    Err(TmuxErrorView::NotUtf8(command::utf8_error_text(out.stdout@))),
                )
            } else {
                match described_pane(decode_utf8(out.stdout@)) {
                    Some(pane) => StepView::Done(Ok(pane)),
                    None => StepView::Done(
                        Err(TmuxErrorView::UnexpectedOutput(decode_utf8(out.stdout@))),
                    ),
                }
            },
        }
    }
}

/// Get the current tmux session and window/pane we're running in.
pub fn current_pane(replies: &[Reply]) -> (step: Step<(String, String, String)>)
    ensures
        step@ == current_pane_step(replies@),
{
    if replies.len() == 0 {
        let mut args: Vec<String> = Vec::new();
        assert(text::texts(args@) == Seq::<Seq<char>>::empty());
        command::add_arg(&mut args, "display-message");
        command::add_arg(&mut args, "-p");
        // Session, window name, pane id.
        command::add_arg(&mut args, "#S\t#W\t#D");
        return Step::Ask(command::tmux(args, true));
    }
    match command::output_of(&replies[0]) {
        Err(e) => Step::Done(Err(TmuxError::Launch(e))),
        Ok(out) => if !out.success {
            Step::Done(Err(TmuxError::NotInTmux))
        } else {
            match command::decode(&out.stdout) {
                Err(e) => Step::Done(Err(TmuxError::NotUtf8(e))),
                Ok(description) => match parse_pane(description.as_str()) {
                    Some(pane) => Step::Done(Ok(pane)),
                    None => Step::Done(Err(TmuxError::UnexpectedOutput(description))),
                },
            }
        },
    }
}

/// Whether a pane is described as having a live process.
pub fn described_alive(description: &str) -> (alive: bool)
    ensures
        alive == (text::trimmed(description@) == "0"@),
{
    text::same(text::trim(description), "0")
}

/// How asking whether a pane is alive goes on after `replies`.
pub open spec fn alive_step(pane_id: Seq<char>, replies: Seq<Reply>) -> StepView<bool> {
    if replies.len() == 0 {
        StepView::Ask(
            command::tmux_request(
                seq!["display-message"@, "-t"@, pane_id, "-p"@, "#{pane_dead}"@],
                true,
            ),
        )
    } else {
        match command::outcome(replies[0]) {
            Err(_) => StepView::Done(Ok(false)),
            Ok(out) => StepView::Done(
                Ok(out.success && text::trimmed(command::lossy_text(out.stdout@)) == "0"@),
            ),
        }
    }
}

/// Check whether a pane (by ID, e.g. `%42`) has a live process.
/// Only use this for pane IDs, not window targets, which can fall back
/// to the current pane on some tmux versions.
pub fn is_pane_alive(pane_id: &str, replies: &[Reply]) -> (step: Step<bool>)
    ensures
        step@ == alive_step(pane_id@, replies@),
{
    if replies.len() == 0 {
        let mut args: Vec<String> = Vec::new();
        assert(text::texts(args@) == Seq::<Seq<char>>::empty());
        command::add_arg(&mut args, "display-message");
        command::add_arg(&mut args, "-t");
        command::add_arg(&mut args, pane_id);
        command::add_arg(&mut args, "-p");
        command::add_arg(&mut args, "#{pane_dead}");
        return Step::Ask(command::tmux(args, true));
    }
    match command::output_of(&replies[0]) {
        Err(_) => Step::Done(Ok(false)),
        Ok(out) => {
            let description: String = command::decode_lossy(&out.stdout);
            Step::Done(Ok(out.success && described_alive(description.as_str())))
        },
    }
}

/// The left offset and the ID of the pane that a line of a listing describes.
pub open spec fn listed_pane(line: Seq<char>) -> Option<(u32, Seq<char>)> {
    let words = text::words_of(line);
    if words.len() >= 2 && number::parsed_u32(words[0]) is Some {
        Some((number::parsed_u32(words[0])->0, words[1]))
    } else {
        None
    }
}

/// The listed pane with the largest left offset, and the last of them where
/// several have it.
pub open spec fn rightmost_listed(lines: Seq<Seq<char>>) -> Option<(u32, Seq<char>)>
    decreases lines.len(),
{
    if lines.len() == 0 {
        None
    } else {
        match (rightmost_listed(lines.drop_last()), listed_pane(lines.last())) {
            (best, None) => best,
            (None, Some(pane)) => Some(pane),
            (Some(best), Some(pane)) => if pane.0 >= best.0 {
                Some(pane)
            } else {
                Some(best)
            },
        }
    }
}

/// The ID of the rightmost pane of a listing.
pub open spec fn rightmost_pane(listing: Seq<char>) -> Option<Seq<char>> {
    match rightmost_listed(text::lines_of(listing)) {
        Some(pane) => Some(pane.1),
        None => None,
    }
}

/// The left offset and the ID of the pane that a line of a listing describes.
fn parse_listed_pane(line: &str) -> (pane: Option<(u32, String)>)
    ensures
        match pane {
            Some(p) => listed_pane(line@) == Some((p.0, p.1@)),
            None => listed_pane(line@) is None,
        },
{
    let words: Vec<String> = text::words(line);
    assert(words.len() == text::words_of(line@).len());
    if words.len() < 2 {
        return None;
    }
    assert(words@[0]@ == text::words_of(line@)[0]);
    assert(words@[1]@ == text::words_of(line@)[1]);
    match number::parse_u32(words[0].as_str()) {
        Some(left) => Some((left, words[1].clone())),
        None => None,
    }
}

/// The ID of the pane of a listing, a left offset and an ID to a line, that
/// has the largest left offset.
pub fn parse_rightmost(listing: &str) -> (pane: Option<String>)
    ensures
        match pane {
            Some(id) => rightmost_pane(listing@) == Some(id@),
            None => rightmost_pane(listing@) is None,
        },
{
    let lines: Vec<String> = text::lines(listing);
    let ghost all = text::texts(lines@);
    let mut best: Option<(u32, String)> = None;
    let mut i: usize = 0;
    while i < lines.len()
        invariant
            i <= lines.len(),
            all == text::texts(lines@),
            match best {
                Some(b) => rightmost_listed(all.take(i as int)) == Some((b.0, b.1@)),
                None => rightmost_listed(all.take(i as int)) is None,
            },
        decreases lines.len() - i,
    {
        proof {
            assert(all.take(i + 1).drop_last() == all.take(i as int));
            assert(all.take(i + 1).last() == lines@[i as int]@);
        }
        if let Some(pane) = parse_listed_pane(lines[i].as_str()) {
            let further: bool = match &best {
                Some(b) => pane.0 >= b.0,
                None => true,
            };
            if further {
                best = Some(pane);
            }
        }
        i += 1;
    }
    assert(all.take(i as int) == all);
    match best {
        Some(b) => Some(b.1),
        None => None,
    }
}

/// How the search for the rightmost pane in the window of `pane_id` goes on
/// after `replies`.
pub open spec fn rightmost_step(pane_id: Seq<char>, replies: Seq<Reply>) -> StepView<Seq<char>> {
    if replies.len() == 0 {
        StepView::Ask(
            command::tmux_request(
                seq!["list-panes"@, "-t"@, pane_id, "-F"@, "#{pane_left} #{pane_id}"@],
                true,
            ),
        )
    } else {
        match command::outcome(replies[0]) {
            Err(e) => StepView::Done(Err(TmuxErrorView::Launch(e))),
            Ok(out) => if !out.success {
                StepView::Done(
                    Err(
                        TmuxErrorView::Refused {
                            part: Part::ListPanes,
                            stderr: command::lossy_text(out.stderr@),
                        },
                    ),
                )
            } else if !valid_utf8(out.stdout@) {
                StepView::Done(
                    Err(TmuxErrorView::NotUtf8(command::utf8_error_text(out.stdout@))),
                )
            } else {
                match rightmost_pane(decode_utf8(out.stdout@)) {
                    Some(id) => StepView::Done(Ok(id)),
                    None => StepView::Done(Err(TmuxErrorView::NoPanes(pane_id))),
                }
            },
        }
    }
}

/// Find the pane with the largest left offset within the same window as
/// `pane_id`.
pub fn rightmost_pane_in_window(pane_id: &str, replies: &[Reply]) -> (step: Step<String>)
    ensures
        step@ == rightmost_step(pane_id@, replies@),
{
    if replies.len() == 0 {
        let mut args: Vec<String> = Vec::new();
        assert(text::texts(args@) == Seq::<Seq<char>>::empty());
        command::add_arg(&mut args, "list-panes");
        command::add_arg(&mut args, "-t");
        command::add_arg(&mut args, pane_id);
        command::add_arg(&mut args, "-F");
        command::add_arg(&mut args, "#{pane_left} #{pane_id}");
        return Step::Ask(command::tmux(args, true));
    }
    match command::output_of(&replies[0]) {
        Err(e) => Step::Done(Err(TmuxError::Launch(e))),
        Ok(out) => if !out.success {
            Step::Done(
                Err(
                    TmuxError::Refused {
                        part: Part::ListPanes,
                        stderr: command::decode_lossy(&out.stderr),
                    },
                ),
            )
        } else {
            match command::decode(&out.stdout) {
                Err(e) => Step::Done(Err(TmuxError::NotUtf8(e))),
                Ok(listing) => match parse_rightmost(listing.as_str()) {
                    Some(id) => Step::Done(Ok(id)),
                    None => Step::Done(Err(TmuxError::NoPanes(pane_id.to_owned()))),
                },
            }
        },
    }
}

/// The command that keeps a pane open when its process ends.
pub open spec fn remain_on_exit(pane_id: Seq<char>) -> RequestView {
    command::tmux_request(
        seq!["set-option"@, "-p"@, "-t"@, pane_id, "remain-on-exit"@, "on"@],
        false,
    )
}

/// Set remain-on-exit at the pane level so the pane survives regardless of the
/// window option on whichever window it currently lives in.
pub fn set_pane_remain_on_exit(pane_id: &str) -> (request: Request)
    ensures
        request@ == remain_on_exit(pane_id@),
{
    let mut args: Vec<String> = Vec::new();
    assert(text::texts(args@) == Seq::<Seq<char>>::empty());
    command::add_arg(&mut args, "set-option");
    command::add_arg(&mut args, "-p");
    command::add_arg(&mut args, "-t");
    command::add_arg(&mut args, pane_id);
    command::add_arg(&mut args, "remain-on-exit");
    command::add_arg(&mut args, "on");
    command::tmux(args, false)
}

/// How it goes on after `replies` once a pane has been joined: the pane is
/// found and kept open; whether that setting worked does not matter.
pub open spec fn settle_step(left_pane_id: Seq<char>, replies: Seq<Reply>) -> StepView<Seq<char>> {
    match rightmost_step(left_pane_id, replies) {
        StepView::Done(Ok(id)) => if replies.len() == 1 {
            StepView::Ask(remain_on_exit(id))
        } else {
            StepView::Done(Ok(id))
        },
        other => other,
    }
}

/// How a chain of tmux commands that ends with a joined pane goes on after
/// `replies`: the chain is run in one invocation, and then the pane settles.
pub open spec fn chain_step(
    part: Part,
    args: Seq<Seq<char>>,
    left_pane_id: Seq<char>,
    replies: Seq<Reply>,
) -> StepView<Seq<char>> {
    if replies.len() == 0 {
        StepView::Ask(command::tmux_request(args, true))
    } else {
        match command::outcome(replies[0]) {
            Err(e) => StepView::Done(Err(TmuxErrorView::Launch(e))),
            Ok(out) => if !out.success {
                StepView::Done(
                    Err(
                        TmuxErrorView::Refused {
                            part,
                            stderr: command::lossy_text(out.stderr@),
                        },
                    ),
                )
            } else {
                settle_step(left_pane_id, replies.skip(1))
            },
        }
    }
}

/// How a chain of tmux commands that ends with a joined pane goes on.
fn chain(part: Part, args: Vec<String>, left_pane_id: &str, replies: &[Reply]) -> (step: Step<
    String,
>)
    ensures
        step@ == chain_step(part, text::texts(args@), left_pane_id@, replies@),
{
    if replies.len() == 0 {
        return Step::Ask(command::tmux(args, true));
    }
    match command::output_of(&replies[0]) {
        Err(e) => Step::Done(Err(TmuxError::Launch(e))),
        Ok(out) => if !out.success {
            Step::Done(
                Err(TmuxError::Refused { part, stderr: command::decode_lossy(&out.stderr) }),
            )
        } else {
            let later: &[Reply] = vstd::slice::slice_subrange(replies, 1, replies.len());
            match rightmost_pane_in_window(left_pane_id, later) {
                Step::Done(Ok(id)) => if later.len() == 1 {
                    Step::Ask(set_pane_remain_on_exit(id.as_str()))
                } else {
                    Step::Done(Ok(id))
                },
                other => other,
            }
        },
    }
}

/// The arguments that join a pane to the right of another.
pub open spec fn join_args(src_window: Seq<char>, left_pane_id: Seq<char>) -> Seq<Seq<char>> {
    seq!["join-pane"@, "-h"@, "-d"@, "-s"@, src_window, "-t"@, left_pane_id]
}

/// Appends the arguments that join a pane to the right of another.
fn add_join(args: &mut Vec<String>, src_window: &str, left_pane_id: &str)
    ensures
        text::texts(final(args)@) == text::texts(old(args)@) + join_args(
            src_window@,
            left_pane_id@,
        ),
{
    command::add_arg(args, "join-pane");
    command::add_arg(args, "-h");
    command::add_arg(args, "-d");
    command::add_arg(args, "-s");
    command::add_arg(args, src_window);
    command::add_arg(args, "-t");
    command::add_arg(args, left_pane_id);
}

/// How joining a pane goes on after `replies`.
pub open spec fn join_step(
    src_window: Seq<char>,
    left_pane_id: Seq<char>,
    max_left_cols: Option<u16>,
    replies: Seq<Reply>,
) -> StepView<Seq<char>> {
    chain_step(
        Part::JoinPane,
        join_args(src_window, left_pane_id) + resize_args(left_pane_id, max_left_cols),
        left_pane_id,
        replies,
    )
}

/// Join a process pane to the right of `left_pane_id`, giving the new right
/// pane's ID. `max_left_cols`: if Some, resize the left pane to at most that
/// width in the same chain.
pub fn join_pane_right(
    src_window: &str,
    left_pane_id: &str,
    max_left_cols: Option<u16>,
    replies: &[Reply],
) -> (step: Step<String>)
    ensures
        step@ == join_step(src_window@, left_pane_id@, max_left_cols, replies@),
{
    let mut args: Vec<String> = Vec::new();
    add_join(&mut args, src_window, left_pane_id);
    add_resize(&mut args, left_pane_id, max_left_cols);
    assert(text::texts(args@) == join_args(src_window@, left_pane_id@) + resize_args(
        left_pane_id@,
        max_left_cols,
    ));
    chain(Part::JoinPane, args, left_pane_id, replies)
}

/// The arguments that kill a pane, start a window and join it.
pub open spec fn restart_args(
    right_pane_id: Seq<char>,
    session: Seq<char>,
    window_name: Seq<char>,
    shell_cmd: Seq<char>,
    left_pane_id: Seq<char>,
) -> Seq<Seq<char>> {
    let target = session + ":"@ + window_name;
    seq![
        "kill-pane"@,
        "-t"@,
        right_pane_id,
        ";"@,
        "new-window"@,
        "-d"@,
        "-t"@,
        session,
        "-n"@,
        window_name,
        shell_cmd,
        ";"@,
    ] + window_option(target, "remain-on-exit"@, "on"@) + seq![";"@] + join_args(
        target,
        left_pane_id,
    )
}

/// How restarting a shown process goes on after `replies`.
pub open spec fn restart_step(
    right_pane_id: Seq<char>,
    session: Seq<char>,
    window_name: Seq<char>,
    shell_cmd: Seq<char>,
    left_pane_id: Seq<char>,
    max_left_cols: Option<u16>,
    replies: Seq<Reply>,
) -> StepView<Seq<char>> {
    chain_step(
        Part::Restart,
        restart_args(right_pane_id, session, window_name, shell_cmd, left_pane_id) + resize_args(
            left_pane_id,
            max_left_cols,
        ),
        left_pane_id,
        replies,
    )
}

/// Kill a dead shown pane, start a fresh window, join it, and resize, all in
/// one tmux invocation to avoid intermediate repaints.
pub fn restart_shown_proc_pane(
    right_pane_id: &str,
    session: &str,
    window_name: &str,
    shell_cmd: &str,
    left_pane_id: &str,
    max_left_cols: Option<u16>,
    replies: &[Reply],
) -> (step: Step<String>)
    ensures
        step@ == restart_step(
            right_pane_id@,
            session@,
            window_name@,
            shell_cmd@,
            left_pane_id@,
            max_left_cols,
            replies@,
        ),
{
    let mut target: String = command::concat(session, ":");
    target.append(window_name);
    let mut args: Vec<String> = Vec::new();
    assert(text::texts(args@) == Seq::<Seq<char>>::empty());
    command::add_arg(&mut args, "kill-pane");
    command::add_arg(&mut args, "-t");
    command::add_arg(&mut args, right_pane_id);
    command::add_arg(&mut args, ";");
    command::add_arg(&mut args, "new-window");
    command::add_arg(&mut args, "-d");
    command::add_arg(&mut args, "-t");
    command::add_arg(&mut args, session);
    command::add_arg(&mut args, "-n");
    command::add_arg(&mut args, window_name);
    command::add_arg(&mut args, shell_cmd);
    command::add_arg(&mut args, ";");
    add_window_option(&mut args, target.as_str(), "remain-on-exit", "on");
    command::add_arg(&mut args, ";");
    add_join(&mut args, target.as_str(), left_pane_id);
    add_resize(&mut args, left_pane_id, max_left_cols);
    assert(text::texts(args@) == restart_args(
        right_pane_id@,
        session@,
        window_name@,
        shell_cmd@,
        left_pane_id@,
    ) + resize_args(left_pane_id@, max_left_cols));
    chain(Part::Restart, args, left_pane_id, replies)
}

/// The arguments that send a pane back to a hidden window and join another.
pub open spec fn swap_args(
    right_pane_id: Seq<char>,
    session: Seq<char>,
    old_window_name: Seq<char>,
    new_window: Seq<char>,
    left_pane_id: Seq<char>,
) -> Seq<Seq<char>> {
    seq!["break-pane"@, "-d"@, "-s"@, right_pane_id, "-t"@, session, "-n"@, old_window_name]
        + hiding_args(session + ":"@ + old_window_name) + seq![";"@] + join_args(
        new_window,
        left_pane_id,
    )
}

/// How swapping the shown process goes on after `replies`.
pub open spec fn swap_step(
    right_pane_id: Seq<char>,
    session: Seq<char>,
    old_window_name: Seq<char>,
    new_window: Seq<char>,
    left_pane_id: Seq<char>,
    max_left_cols: Option<u16>,
    replies: Seq<Reply>,
) -> StepView<Seq<char>> {
    chain_step(
        Part::Swap,
        swap_args(right_pane_id, session, old_window_name, new_window, left_pane_id) + resize_args(
            left_pane_id,
            max_left_cols,
        ),
        left_pane_id,
        replies,
    )
}

/// Swap the currently-shown pane out and bring in a new one in a single tmux
/// server round-trip, so the server can process both commands before repainting.
/// The window that the old pane goes back to does not show in the status line.
/// `max_left_cols`: if Some, resize the left pane in the same chain.
/// Gives the new right pane's ID.
pub fn swap_proc_pane(
    right_pane_id: &str,
    session: &str,
    old_window_name: &str,
    new_window: &str,
    left_pane_id: &str,
    max_left_cols: Option<u16>,
    replies: &[Reply],
) -> (step: Step<String>)
    ensures
        step@ == swap_step(
            right_pane_id@,
            session@,
            old_window_name@,
            new_window@,
            left_pane_id@,
            max_left_cols,
            replies@,
        ),
{
    let mut target: String = command::concat(session, ":");
    target.append(old_window_name);
    let mut args: Vec<String> = Vec::new();
    assert(text::texts(args@) == Seq::<Seq<char>>::empty());
    command::add_arg(&mut args, "break-pane");
    command::add_arg(&mut args, "-d");
    command::add_arg(&mut args, "-s");
    command::add_arg(&mut args, right_pane_id);
    command::add_arg(&mut args, "-t");
    command::add_arg(&mut args, session);
    command::add_arg(&mut args, "-n");
    command::add_arg(&mut args, old_window_name);
    add_hiding(&mut args, target.as_str());
    command::add_arg(&mut args, ";");
    add_join(&mut args, new_window, left_pane_id);
    add_resize(&mut args, left_pane_id, max_left_cols);
    assert(text::texts(args@) == swap_args(
        right_pane_id@,
        session@,
        old_window_name@,
        new_window@,
        left_pane_id@,
    ) + resize_args(left_pane_id@, max_left_cols));
    chain(Part::Swap, args, left_pane_id, replies)
}

} // verus!
