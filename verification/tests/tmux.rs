use tmprocs::command::{Invocation, Output, Part, Reply, Request, Step, TmuxError};
use tmprocs::tmux;
use tmprocs::tmux::TmuxSession;

fn session() -> TmuxSession {
    TmuxSession::new("main".to_string(), 42)
}

fn ok(stdout: &[u8]) -> Reply {
    Reply::Exited(Output {
        success: true,
        status: "exit status: 0".to_string(),
        stdout: stdout.to_vec(),
        stderr: vec![],
    })
}

fn bad(stderr: &[u8]) -> Reply {
    Reply::Exited(Output {
        success: false,
        status: "exit status: 1".to_string(),
        stdout: vec![],
        stderr: stderr.to_vec(),
    })
}

fn failed(why: &str) -> Reply {
    Reply::Failed(why.to_string())
}

fn run(program: &str, args: &[&str], captured: bool) -> Request {
    Request::Run(Invocation {
        program: program.to_string(),
        args: args.iter().map(|s| s.to_string()).collect(),
        captured,
    })
}

fn tmux_cmd(args: &[&str], captured: bool) -> Request {
    run("tmux", args, captured)
}

#[test]
fn names_carry_the_prefix() {
    let s = session();
    assert_eq!(s.session(), "main");
    assert_eq!(s.session_name, "main");
    assert_eq!(s.window_name_for("web"), "_tp42_web");
    assert_eq!(s.window_id("web"), "main:_tp42_web");
    assert_eq!(s.status_file_for("web"), "/tmp/tmprocs__tp42_web");
}

#[test]
fn names_differ() {
    let s = session();
    assert_ne!(s.window_name_for("a"), s.window_name_for("b"));
    assert_ne!(s.window_id("a"), s.window_id("b"));
    assert_ne!(s.status_file_for("a"), s.status_file_for("b"));
}

#[test]
fn wrapper_line() {
    let s = session();
    assert_eq!(s.wrapper_cmd_for("web", "npm run dev", &[]), Step::Ask(Request::ProgramPath));
    assert_eq!(
        s.wrapper_cmd_for("web", "echo 'hi'", &[Reply::Text("/bin/tmprocs".to_string())]),
        Step::Done(Ok(
            "/bin/tmprocs wrap /tmp/tmprocs__tp42_web 'echo '\\''hi'\\'''".to_string()
        ))
    );
    assert_eq!(
        s.wrapper_cmd_for("web", "x", &[failed("gone")]),
        Step::Done(Err(TmuxError::Program("gone".to_string())))
    );
}

#[test]
fn start_makes_a_hidden_window() {
    let s = session();
    let path = || Reply::Text("/bin/tmprocs".to_string());
    assert_eq!(s.start_proc("web", "ls", &[]), Step::Ask(Request::ProgramPath));
    assert_eq!(
        s.start_proc("web", "ls", &[path()]),
        Step::Ask(tmux_cmd(
            &[
                "new-window", "-d", "-t", "main", "-n", "_tp42_web",
                "/bin/tmprocs wrap /tmp/tmprocs__tp42_web 'ls'", ";",
                "set-window-option", "-t", "main:_tp42_web", "remain-on-exit", "on", ";",
                "set-window-option", "-t", "main:_tp42_web", "window-status-format", "", ";",
                "set-window-option", "-t", "main:_tp42_web", "window-status-current-format", "",
            ],
            true
        ))
    );
    assert_eq!(
        s.start_proc("web", "ls", &[path(), ok(b"")]),
        Step::Done(Ok("main:_tp42_web".to_string()))
    );
    assert_eq!(
        s.start_proc("web", "ls", &[path(), bad(b"no session\xff")]),
        Step::Done(Err(TmuxError::Refused {
            part: Part::NewWindow,
            stderr: "no session\u{fffd}".to_string(),
        }))
    );
    assert_eq!(
        s.start_proc("web", "ls", &[path(), failed("no tmux")]),
        Step::Done(Err(TmuxError::Launch("no tmux".to_string())))
    );
    assert_eq!(
        s.start_proc("web", "ls", &[failed("gone")]),
        Step::Done(Err(TmuxError::Program("gone".to_string())))
    );
}

#[test]
fn misfitting_replies_are_errors() {
    let s = session();
    assert_eq!(
        s.start_proc("web", "ls", &[ok(b"")]),
        Step::Done(Err(TmuxError::Program("unexpected reply".to_string())))
    );
    assert_eq!(
        tmux::focus_pane("%1", &[Reply::Text("x".to_string())]),
        Step::Done(Err(TmuxError::Launch("unexpected reply".to_string())))
    );
}

#[test]
fn cleanup_kills_each_owned_window() {
    let s = session();
    let listing = b"shell\n_tp42_web\n_tp421_web\n_tp4_web\n_tp42_db\n x_tp42_\n";
    assert_eq!(
        s.cleanup(&[]),
        Step::Ask(tmux_cmd(&["list-windows", "-t", "main", "-F", "#{window_name}"], true))
    );
    assert_eq!(
        s.cleanup(&[ok(listing)]),
        Step::Ask(tmux_cmd(&["kill-window", "-t", "main:_tp42_web"], false))
    );
    assert_eq!(
        s.cleanup(&[ok(listing), failed("whatever")]),
        Step::Ask(tmux_cmd(&["kill-window", "-t", "main:_tp42_db"], false))
    );
    assert_eq!(s.cleanup(&[ok(listing), ok(b""), bad(b"x")]), Step::Done(Ok(())));
}

#[test]
fn cleanup_of_a_gone_session() {
    let s = session();
    assert_eq!(s.cleanup(&[bad(b"no session")]), Step::Done(Ok(())));
    assert_eq!(
        s.cleanup(&[failed("no tmux")]),
        Step::Done(Err(TmuxError::Launch("no tmux".to_string())))
    );
}

#[test]
fn cleanup_of_a_listing_that_is_no_text() {
    let s = session();
    let text = String::from_utf8(vec![b'a', 0xff]).unwrap_err().to_string();
    assert_eq!(s.cleanup(&[ok(b"a\xff")]), Step::Done(Err(TmuxError::NotUtf8(text))));
}

#[test]
fn instances_do_not_own_each_others_windows() {
    let one = TmuxSession::new("main".to_string(), 4);
    let other = TmuxSession::new("main".to_string(), 42);
    let listing = format!("{}\n{}\n", one.window_name_for("x"), other.window_name_for("x"));
    assert_eq!(one.owned_windows(&listing), vec!["_tp4_x".to_string()]);
    assert_eq!(other.owned_windows(&listing), vec!["_tp42_x".to_string()]);
}

#[test]
fn kill_child_reads_then_signals() {
    let file = "/tmp/tmprocs__tp42_web";
    let running = || Reply::Text("running:123\n".to_string());
    assert_eq!(
        tmux::kill_child_in_wrapper(file, &[]),
        Step::Ask(Request::ReadFile(file.to_string()))
    );
    assert_eq!(
        tmux::kill_child_in_wrapper(file, &[running()]),
        Step::Ask(run("kill", &["-TERM", "-123"], false))
    );
    assert_eq!(tmux::kill_child_in_wrapper(file, &[running(), ok(b"")]), Step::Done(Ok(())));
    assert_eq!(
        tmux::kill_child_in_wrapper(file, &[running(), bad(b"")]),
        Step::Done(Err(TmuxError::KillExited("exit status: 1".to_string())))
    );
    assert_eq!(
        tmux::kill_child_in_wrapper(file, &[running(), failed("no kill")]),
        Step::Done(Err(TmuxError::Kill("no kill".to_string())))
    );
    assert_eq!(
        tmux::kill_child_in_wrapper(file, &[Reply::Text("dead:0".to_string())]),
        Step::Done(Err(TmuxError::NotRunning))
    );
    assert_eq!(
        tmux::kill_child_in_wrapper(file, &[failed("missing")]),
        Step::Done(Err(TmuxError::StatusFile("missing".to_string())))
    );
}

#[test]
fn replies_that_killing_takes() {
    assert_eq!(tmux::kill_child_taken(&[Reply::Text("running:1".to_string())]), 2);
    assert_eq!(tmux::kill_child_taken(&[Reply::Text("dead:1".to_string())]), 1);
    assert_eq!(tmux::kill_child_taken(&[failed("x")]), 1);
}

#[test]
fn current_pane_is_parsed() {
    assert_eq!(
        tmux::current_pane(&[]),
        Step::Ask(tmux_cmd(&["display-message", "-p", "#S\t#W\t#D"], true))
    );
    assert_eq!(
        tmux::current_pane(&[ok(b"main\tmy window\t%3\n")]),
        Step::Done(Ok(("main".to_string(), "my window".to_string(), "%3".to_string())))
    );
    assert_eq!(
        tmux::current_pane(&[ok(b"main\tvim\n")]),
        Step::Done(Err(TmuxError::UnexpectedOutput("main\tvim\n".to_string())))
    );
    assert_eq!(tmux::current_pane(&[bad(b"")]), Step::Done(Err(TmuxError::NotInTmux)));
    assert_eq!(
        tmux::current_pane(&[failed("no tmux")]),
        Step::Done(Err(TmuxError::Launch("no tmux".to_string())))
    );
    assert!(matches!(
        tmux::current_pane(&[ok(b"\xff")]),
        Step::Done(Err(TmuxError::NotUtf8(_)))
    ));
    assert_eq!(
        tmux::parse_pane("a\tb\tc\td"),
        Some(("a".to_string(), "b".to_string(), "c\td".to_string()))
    );
    assert_eq!(tmux::parse_pane(""), None);
}

#[test]
fn alive_panes() {
    assert_eq!(
        tmux::is_pane_alive("%3", &[]),
        Step::Ask(tmux_cmd(&["display-message", "-t", "%3", "-p", "#{pane_dead}"], true))
    );
    assert_eq!(tmux::is_pane_alive("%3", &[ok(b"0\n")]), Step::Done(Ok(true)));
    assert_eq!(tmux::is_pane_alive("%3", &[ok(b"1\n")]), Step::Done(Ok(false)));
    assert_eq!(tmux::is_pane_alive("%3", &[ok(b"0\xff")]), Step::Done(Ok(false)));
    assert_eq!(tmux::is_pane_alive("%3", &[bad(b"")]), Step::Done(Ok(false)));
    assert_eq!(tmux::is_pane_alive("%3", &[failed("x")]), Step::Done(Ok(false)));
    assert!(tmux::described_alive(" 0 \n"));
    assert!(!tmux::described_alive(""));
}

#[test]
fn rightmost_pane_of_a_listing() {
    assert_eq!(tmux::parse_rightmost("0 %1\n51 %7\n20 %9\n"), Some("%7".to_string()));
    assert_eq!(tmux::parse_rightmost("10 %1\n10 %2\n"), Some("%2".to_string()));
    assert_eq!(tmux::parse_rightmost("x %1\n5\n3 %4 more\n"), Some("%4".to_string()));
    assert_eq!(tmux::parse_rightmost("99999999999 %1\n"), None);
    assert_eq!(tmux::parse_rightmost(""), None);
}

#[test]
fn rightmost_pane_steps() {
    assert_eq!(
        tmux::rightmost_pane_in_window("%1", &[]),
        Step::Ask(tmux_cmd(&["list-panes", "-t", "%1", "-F", "#{pane_left} #{pane_id}"], true))
    );
    assert_eq!(
        tmux::rightmost_pane_in_window("%1", &[ok(b"\n")]),
        Step::Done(Err(TmuxError::NoPanes("%1".to_string())))
    );
    assert_eq!(
        tmux::rightmost_pane_in_window("%1", &[bad(b"gone")]),
        Step::Done(Err(TmuxError::Refused {
            part: Part::ListPanes,
            stderr: "gone".to_string(),
        }))
    );
}

#[test]
fn join_finds_and_keeps_the_pane() {
    let step = |replies: &[Reply]| tmux::join_pane_right("main:_tp42_web", "%1", Some(50), replies);
    assert_eq!(
        step(&[]),
        Step::Ask(tmux_cmd(
            &[
                "join-pane", "-h", "-d", "-s", "main:_tp42_web", "-t", "%1", ";", "resize-pane",
                "-t", "%1", "-x", "50",
            ],
            true
        ))
    );
    assert_eq!(
        step(&[ok(b"")]),
        Step::Ask(tmux_cmd(&["list-panes", "-t", "%1", "-F", "#{pane_left} #{pane_id}"], true))
    );
    assert_eq!(
        step(&[ok(b""), ok(b"0 %1\n51 %7\n")]),
        Step::Ask(tmux_cmd(&["set-option", "-p", "-t", "%7", "remain-on-exit", "on"], false))
    );
    assert_eq!(
        step(&[ok(b""), ok(b"0 %1\n51 %7\n"), failed("whatever")]),
        Step::Done(Ok("%7".to_string()))
    );
    assert_eq!(
        step(&[bad(b"no space")]),
        Step::Done(Err(TmuxError::Refused {
            part: Part::JoinPane,
            stderr: "no space".to_string(),
        }))
    );
    assert_eq!(
        tmux::join_pane_right("w", "%1", None, &[]),
        Step::Ask(tmux_cmd(&["join-pane", "-h", "-d", "-s", "w", "-t", "%1"], true))
    );
}

#[test]
fn restart_is_one_chain() {
    assert_eq!(
        tmux::restart_shown_proc_pane("%7", "main", "_tp42_web", "cmd", "%1", Some(50), &[]),
        Step::Ask(tmux_cmd(
            &[
                "kill-pane", "-t", "%7", ";", "new-window", "-d", "-t", "main", "-n", "_tp42_web",
                "cmd", ";", "set-window-option", "-t", "main:_tp42_web", "remain-on-exit", "on",
                ";", "join-pane", "-h", "-d", "-s", "main:_tp42_web", "-t", "%1", ";",
                "resize-pane", "-t", "%1", "-x", "50",
            ],
            true
        ))
    );
    assert_eq!(
        tmux::restart_shown_proc_pane("%7", "main", "w", "cmd", "%1", None, &[bad(b"e")]),
        Step::Done(Err(TmuxError::Refused { part: Part::Restart, stderr: "e".to_string() }))
    );
}

#[test]
fn swap_hides_the_old_window() {
    assert_eq!(
        tmux::swap_proc_pane("%7", "main", "_tp42_web", "main:_tp42_db", "%1", Some(50), &[]),
        Step::Ask(tmux_cmd(
            &[
                "break-pane", "-d", "-s", "%7", "-t", "main", "-n", "_tp42_web", ";",
                "set-window-option", "-t", "main:_tp42_web", "window-status-format", "", ";",
                "set-window-option", "-t", "main:_tp42_web", "window-status-current-format", "",
                ";", "join-pane", "-h", "-d", "-s", "main:_tp42_db", "-t", "%1", ";",
                "resize-pane", "-t", "%1", "-x", "50",
            ],
            true
        ))
    );
    assert_eq!(
        tmux::swap_proc_pane("%7", "main", "w", "x", "%1", None, &[bad(b"e")]),
        Step::Done(Err(TmuxError::Refused { part: Part::Swap, stderr: "e".to_string() }))
    );
}

#[test]
fn plain_commands() {
    assert_eq!(
        tmux::focus_pane("%2", &[]),
        Step::Ask(tmux_cmd(&["select-pane", "-t", "%2"], false))
    );
    assert_eq!(tmux::kill_pane("%2", &[]), Step::Ask(tmux_cmd(&["kill-pane", "-t", "%2"], false)));
    assert_eq!(
        tmux::kill_window("main:w", &[]),
        Step::Ask(tmux_cmd(&["kill-window", "-t", "main:w"], false))
    );
    assert_eq!(tmux::kill_window("main:w", &[bad(b"x")]), Step::Done(Ok(())));
    assert_eq!(
        tmux::kill_pane("%2", &[failed("no tmux")]),
        Step::Done(Err(TmuxError::Launch("no tmux".to_string())))
    );
}

#[test]
fn errors_in_words() {
    let s = |t: &str| t.to_string();
    assert_eq!(TmuxError::Program(s("a")).message(), "a");
    assert_eq!(TmuxError::Launch(s("b")).message(), "b");
    let refused = |part: Part| TmuxError::Refused { part, stderr: s("why") }.message();
    assert_eq!(refused(Part::NewWindow), "tmux new-window failed: why");
    assert_eq!(refused(Part::JoinPane), "tmux join-pane failed: why");
    assert_eq!(refused(Part::ListPanes), "tmux list-panes failed: why");
    assert_eq!(refused(Part::Restart), "tmux restart failed: why");
    assert_eq!(refused(Part::Swap), "tmux swap failed: why");
    assert_eq!(TmuxError::NotUtf8(s("c")).message(), "c");
    assert_eq!(TmuxError::NoPanes(s("%1")).message(), "no panes found in window containing %1");
    assert_eq!(TmuxError::NotInTmux.message(), "not running inside tmux");
    assert_eq!(
        TmuxError::UnexpectedOutput(s("x")).message(),
        "unexpected tmux display-message output: x"
    );
    assert_eq!(TmuxError::StatusFile(s("e")).message(), "cannot read status file: e");
    assert_eq!(TmuxError::NotRunning.message(), "process is not running");
    assert_eq!(TmuxError::Kill(s("e")).message(), "kill failed: e");
    assert_eq!(
        TmuxError::KillExited(s("exit status: 1")).message(),
        "kill exited with exit status: 1"
    );
}
