use tmprocs::app::{parse_status, start_all, App, Proc, ProcStatus};
use tmprocs::command::{Invocation, Output, Part, Reply, Request, Step, TmuxError};
use tmprocs::tmux::TmuxSession;

fn proc(name: &str) -> Proc {
    Proc {
        name: name.to_string(),
        cmd: format!("run {name}"),
        status: ProcStatus::Running,
        is_shown: false,
    }
}

fn app() -> App {
    App::new(
        vec![proc("api"), proc("db"), proc("web")],
        TmuxSession::new("main".to_string(), 42),
        "%1".to_string(),
    )
}

fn ok(stdout: &[u8]) -> Reply {
    Reply::Exited(Output {
        success: true,
        status: "exit status: 0".to_string(),
        stdout: stdout.to_vec(),
        stderr: vec![],
    })
}

fn bad() -> Reply {
    Reply::Exited(Output {
        success: false,
        status: "exit status: 1".to_string(),
        stdout: vec![],
        stderr: b"why".to_vec(),
    })
}

fn path() -> Reply {
    Reply::Text("/bin/tmprocs".to_string())
}

fn first_args(request: &Request, n: usize) -> Vec<String> {
    match request {
        Request::Run(Invocation { args, .. }) => args[..n].to_vec(),
        other => panic!("no command: {other:?}"),
    }
}

/// Drives an operation with the replies given, and returns what it asked for
/// and how it ended.
fn drive(
    mut op: impl FnMut(&[Reply]) -> Step<()>,
    replies: Vec<Reply>,
) -> (Vec<Request>, Result<(), TmuxError>) {
    let mut asked = vec![];
    let mut given: Vec<Reply> = vec![];
    let mut rest = replies.into_iter();
    loop {
        match op(&given) {
            Step::Ask(request) => {
                asked.push(request);
                given.push(rest.next().expect("one more reply is needed"));
            }
            Step::Done(result) => {
                assert!(rest.next().is_none(), "a reply is left");
                return (asked, result);
            }
        }
    }
}

fn joined() -> Vec<Reply> {
    vec![ok(b""), ok(b"0 %1\n51 %7\n"), ok(b"")]
}

fn shown(app: &App) -> Vec<bool> {
    app.procs.iter().map(|p| p.is_shown).collect()
}

#[test]
fn starts_with_nothing_shown() {
    let app = app();
    assert_eq!(app.selected, 0);
    assert_eq!(app.right_pane_id, None);
    assert_eq!(app.left_pane_id, "%1");
    assert!(!app.should_quit);
    assert_eq!(shown(&app), vec![false, false, false]);
}

#[test]
fn selection_stays_in_the_list() {
    let mut app = app();
    app.move_up();
    assert_eq!(app.selected, 0);
    app.move_down();
    app.move_down();
    assert_eq!(app.selected, 2);
    app.move_down();
    assert_eq!(app.selected, 2);
    app.move_up();
    assert_eq!(app.selected, 1);
    app.move_down();
    app.move_up();
    assert_eq!(app.selected, 1);
}

#[test]
fn selection_in_an_empty_list() {
    let mut app = App::new(vec![], TmuxSession::new("m".to_string(), 1), "%1".to_string());
    app.move_down();
    app.move_up();
    assert_eq!(app.selected, 0);
}

#[test]
fn first_show_joins() {
    let mut app = app();
    let (asked, result) = drive(|r| app.show_selected(r), joined());
    assert_eq!(result, Ok(()));
    assert_eq!(first_args(&asked[0], 5), ["join-pane", "-h", "-d", "-s", "main:_tp42_api"]);
    assert_eq!(shown(&app), vec![true, false, false]);
    assert_eq!(app.right_pane_id, Some("%7".to_string()));
    assert!(app.is_showing("api"));
    assert!(!app.is_showing("db"));
}

#[test]
fn showing_again_does_nothing() {
    let mut app = app();
    let _ = drive(|r| app.show_proc("db", r), joined());
    let (asked, result) = drive(|r| app.show_proc("db", r), vec![]);
    assert_eq!((asked, result), (vec![], Ok(())));
    assert_eq!(shown(&app), vec![false, true, false]);
    assert_eq!(app.right_pane_id, Some("%7".to_string()));
}

#[test]
fn showing_another_swaps_a_live_pane() {
    let mut app = app();
    let _ = drive(|r| app.show_selected(r), joined());
    let mut replies = vec![ok(b"0\n"), ok(b"")];
    replies.push(ok(b"0 %1\n51 %9\n"));
    replies.push(ok(b""));
    let (asked, result) = drive(|r| app.show_proc("web", r), replies);
    assert_eq!(result, Ok(()));
    assert_eq!(first_args(&asked[0], 3), ["display-message", "-t", "%7"]);
    assert_eq!(
        first_args(&asked[1], 8),
        ["break-pane", "-d", "-s", "%7", "-t", "main", "-n", "_tp42_api"]
    );
    assert_eq!(shown(&app), vec![false, false, true]);
    assert_eq!(app.right_pane_id, Some("%9".to_string()));
}

#[test]
fn showing_another_joins_beside_a_dead_pane() {
    let mut app = app();
    let _ = drive(|r| app.show_selected(r), joined());
    let mut replies = vec![ok(b"1\n")];
    replies.extend(joined());
    let (asked, result) = drive(|r| app.show_proc("web", r), replies);
    assert_eq!(result, Ok(()));
    assert_eq!(first_args(&asked[1], 5), ["join-pane", "-h", "-d", "-s", "main:_tp42_web"]);
    assert_eq!(shown(&app), vec![false, false, true]);
}

#[test]
fn failed_swap_leaves_nothing_shown() {
    let mut app = app();
    let _ = drive(|r| app.show_selected(r), joined());
    let (_, result) = drive(|r| app.show_proc("db", r), vec![ok(b"0"), bad()]);
    assert_eq!(
        result,
        Err(TmuxError::Refused { part: Part::Swap, stderr: "why".to_string() })
    );
    assert_eq!(shown(&app), vec![false, false, false]);
    assert_eq!(app.right_pane_id, None);
}

#[test]
fn shown_without_a_pane_joins() {
    let mut app = app();
    app.procs[1].is_shown = true;
    let (asked, result) = drive(|r| app.show_proc("api", r), joined());
    assert_eq!(result, Ok(()));
    assert_eq!(first_args(&asked[0], 1), ["join-pane"]);
    assert_eq!(shown(&app), vec![true, false, false]);
}

#[test]
fn unknown_name_fills_the_pane_only() {
    let mut app = app();
    let (_, result) = drive(|r| app.show_proc("none", r), joined());
    assert_eq!(result, Ok(()));
    assert_eq!(shown(&app), vec![false, false, false]);
    assert_eq!(app.right_pane_id, Some("%7".to_string()));
}

#[test]
fn a_running_process_is_not_restarted() {
    let mut app = app();
    assert_eq!(drive(|r| app.restart_selected(r), vec![]), (vec![], Ok(())));
}

#[test]
fn a_dead_hidden_process_is_started_again() {
    let mut app = app();
    app.selected = 1;
    app.procs[1].status = ProcStatus::Dead;
    let (asked, result) = drive(|r| app.restart_selected(r), vec![bad(), path(), ok(b"")]);
    assert_eq!(result, Ok(()));
    assert_eq!(first_args(&asked[0], 3), ["kill-window", "-t", "main:_tp42_db"]);
    assert_eq!(asked[1], Request::ProgramPath);
    assert_eq!(
        first_args(&asked[2], 7)[6],
        "/bin/tmprocs wrap /tmp/tmprocs__tp42_db 'run db'"
    );
    assert_eq!(app.procs[1].status, ProcStatus::Running);
}

#[test]
fn a_hidden_process_that_does_not_start_stays_dead() {
    let mut app = app();
    app.procs[0].status = ProcStatus::Dead;
    let (_, result) = drive(|r| app.restart_selected(r), vec![ok(b""), path(), bad()]);
    assert!(result.is_err());
    assert_eq!(app.procs[0].status, ProcStatus::Dead);
}

#[test]
fn a_dead_shown_process_is_restarted_in_place() {
    let mut app = app();
    let _ = drive(|r| app.show_selected(r), joined());
    app.procs[0].status = ProcStatus::Dead;
    let replies = vec![path(), ok(b""), ok(b"0 %1\n51 %8\n"), ok(b"")];
    let (asked, result) = drive(|r| app.restart_selected(r), replies);
    assert_eq!(result, Ok(()));
    assert_eq!(asked[0], Request::ProgramPath);
    assert_eq!(first_args(&asked[1], 5), ["kill-pane", "-t", "%7", ";", "new-window"]);
    assert_eq!(app.procs[0].status, ProcStatus::Running);
    assert_eq!(app.right_pane_id, Some("%8".to_string()));
    assert_eq!(shown(&app), vec![true, false, false]);
}

#[test]
fn a_failed_restart_in_place_vacates() {
    let mut app = app();
    let _ = drive(|r| app.show_selected(r), joined());
    app.procs[0].status = ProcStatus::Dead;
    let (_, result) = drive(|r| app.restart_selected(r), vec![path(), bad()]);
    assert!(result.is_err());
    assert_eq!(app.right_pane_id, None);
    assert_eq!(shown(&app), vec![false, false, false]);
    assert_eq!(app.procs[0].status, ProcStatus::Dead);
}

#[test]
fn an_unknown_path_takes_the_pane_only() {
    let mut app = app();
    let _ = drive(|r| app.show_selected(r), joined());
    app.procs[0].status = ProcStatus::Dead;
    let unknown = vec![Reply::Failed("gone".to_string())];
    let (_, result) = drive(|r| app.restart_selected(r), unknown);
    assert_eq!(result, Err(TmuxError::Program("gone".to_string())));
    assert_eq!(app.right_pane_id, None);
    assert_eq!(shown(&app), vec![true, false, false]);
    assert_eq!(app.procs[0].status, ProcStatus::Dead);
}

#[test]
fn a_process_in_an_unknown_pane_is_started_in_the_background() {
    let mut app = app();
    app.procs[0].is_shown = true;
    app.procs[0].status = ProcStatus::Dead;
    let (_, result) = drive(|r| app.restart_selected(r), vec![ok(b""), path(), bad()]);
    assert!(result.is_err());
    assert_eq!(app.procs[0].status, ProcStatus::Dead);
    assert_eq!(shown(&app), vec![true, false, false]);
    let (asked, result) = drive(|r| app.restart_selected(r), vec![bad(), path(), ok(b"")]);
    assert_eq!(result, Ok(()));
    assert_eq!(first_args(&asked[0], 3), ["kill-window", "-t", "main:_tp42_api"]);
    assert_eq!(first_args(&asked[2], 1), ["new-window"]);
    assert_eq!(app.procs[0].status, ProcStatus::Running);
    assert_eq!(app.right_pane_id, None);
    assert_eq!(shown(&app), vec![false, false, false]);
}

#[test]
fn a_running_process_can_be_forced() {
    let mut app = app();
    let (asked, result) = drive(|r| app.force_restart_selected(r), vec![ok(b""), path(), ok(b"")]);
    assert_eq!(result, Ok(()));
    assert_eq!(first_args(&asked[0], 3), ["kill-window", "-t", "main:_tp42_api"]);
    assert_eq!(app.procs[0].status, ProcStatus::Running);
}

#[test]
fn killing_never_fails() {
    let mut app = app();
    app.selected = 2;
    let running = || Reply::Text("running:77".to_string());
    let (asked, result) = drive(|r| app.kill_selected(r), vec![running(), bad()]);
    assert_eq!(result, Ok(()));
    assert_eq!(asked[0], Request::ReadFile("/tmp/tmprocs__tp42_web".to_string()));
    assert_eq!(first_args(&asked[1], 2), ["-TERM", "-77"]);
    assert_eq!(app.procs[2].status, ProcStatus::Running);
    let missing = vec![Reply::Failed("missing".to_string())];
    assert_eq!(drive(|r| app.kill_selected(r), missing).1, Ok(()));
}

#[test]
fn statuses_come_from_the_files() {
    let mut app = app();
    let replies = vec![
        Reply::Text(" running:5\n".to_string()),
        Reply::Text("dead:1".to_string()),
        Reply::Failed("missing".to_string()),
    ];
    let (asked, result) = drive(|r| app.refresh_status(r), replies);
    assert_eq!(result, Ok(()));
    assert_eq!(
        asked,
        vec![
            Request::ReadFile("/tmp/tmprocs__tp42_api".to_string()),
            Request::ReadFile("/tmp/tmprocs__tp42_db".to_string()),
            Request::ReadFile("/tmp/tmprocs__tp42_web".to_string()),
        ]
    );
    let got: Vec<ProcStatus> = app.procs.iter().map(|p| p.status).collect();
    assert_eq!(got, vec![ProcStatus::Running, ProcStatus::Dead, ProcStatus::Dead]);
}

#[test]
fn status_words() {
    assert_eq!(parse_status("running:1"), ProcStatus::Running);
    assert_eq!(parse_status("  running"), ProcStatus::Running);
    assert_eq!(parse_status("dead:0"), ProcStatus::Dead);
    assert_eq!(parse_status(""), ProcStatus::Dead);
    assert_eq!(parse_status("not running"), ProcStatus::Dead);
}

#[test]
fn all_are_started_in_order() {
    let app = app();
    let replies = vec![path(), ok(b""), path(), ok(b""), path(), ok(b"")];
    let (asked, result) = drive(|r| start_all(&app.bg_session, &app.procs, r), replies);
    assert_eq!(result, Ok(()));
    let windows: Vec<String> = asked
        .iter()
        .filter(|q| **q != Request::ProgramPath)
        .map(|q| first_args(q, 6)[5].clone())
        .collect();
    assert_eq!(windows, ["_tp42_api", "_tp42_db", "_tp42_web"]);
}

#[test]
fn the_first_failed_start_ends_it() {
    let app = app();
    let replies = vec![path(), ok(b""), path(), bad()];
    let (asked, result) = drive(|r| start_all(&app.bg_session, &app.procs, r), replies);
    assert_eq!(asked.len(), 4);
    assert_eq!(
        result,
        Err(TmuxError::Refused { part: Part::NewWindow, stderr: "why".to_string() })
    );
}

#[test]
fn stopping_kills_children_and_then_the_pane() {
    let mut app = app();
    let _ = drive(|r| app.show_selected(r), joined());
    let replies = vec![
        Reply::Text("running:1".to_string()),
        ok(b""),
        Reply::Text("dead:0".to_string()),
        Reply::Text("running:3".to_string()),
        bad(),
        bad(),
    ];
    let (asked, result) = drive(|r| app.stop(r), replies);
    assert_eq!(result, Ok(()));
    assert_eq!(first_args(&asked[1], 2), ["-TERM", "-1"]);
    assert_eq!(asked[2], Request::ReadFile("/tmp/tmprocs__tp42_db".to_string()));
    assert_eq!(asked[3], Request::ReadFile("/tmp/tmprocs__tp42_web".to_string()));
    assert_eq!(first_args(&asked[5], 3), ["kill-pane", "-t", "%7"]);
    assert_eq!(
        app.status_files(),
        vec!["/tmp/tmprocs__tp42_api", "/tmp/tmprocs__tp42_db", "/tmp/tmprocs__tp42_web"]
    );
}

#[test]
fn shutting_down_kills_children_before_windows() {
    let mut app = app();
    let _ = drive(|r| app.show_selected(r), joined());
    let replies = vec![
        Reply::Text("running:1".to_string()),
        bad(),
        Reply::Failed("missing".to_string()),
        Reply::Text("running:3".to_string()),
        ok(b""),
        ok(b""),
        ok(b"zsh\n_tp42_db\n_tp42_web\n"),
        ok(b""),
        bad(),
    ];
    let (asked, result) = drive(|r| app.shut_down(r), replies);
    assert_eq!(result, Ok(()));
    assert_eq!(first_args(&asked[1], 2), ["-TERM", "-1"]);
    assert_eq!(first_args(&asked[4], 2), ["-TERM", "-3"]);
    assert_eq!(first_args(&asked[5], 3), ["kill-pane", "-t", "%7"]);
    assert_eq!(first_args(&asked[6], 3), ["list-windows", "-t", "main"]);
    assert_eq!(first_args(&asked[7], 3), ["kill-window", "-t", "main:_tp42_db"]);
    assert_eq!(first_args(&asked[8], 3), ["kill-window", "-t", "main:_tp42_web"]);
}

#[test]
fn shutting_down_fails_where_the_cleanup_does() {
    let app = App::new(vec![], TmuxSession::new("m".to_string(), 1), "%1".to_string());
    let (asked, result) = drive(|r| app.shut_down(r), vec![Reply::Failed("gone".to_string())]);
    assert_eq!(first_args(&asked[0], 1), ["list-windows"]);
    assert_eq!(result, Err(TmuxError::Launch("gone".to_string())));
    assert_eq!(drive(|r| app.shut_down(r), vec![bad()]).1, Ok(()));
}

#[test]
fn focus_goes_to_the_right_pane() {
    let mut app = app();
    assert_eq!(drive(|r| app.focus_right(r), vec![]), (vec![], Ok(())));
    app.right_pane_id = Some("%5".to_string());
    let (asked, result) = drive(|r| app.focus_right(r), vec![Reply::Failed("x".to_string())]);
    assert_eq!(first_args(&asked[0], 3), ["select-pane", "-t", "%5"]);
    assert_eq!(result, Ok(()));
}
