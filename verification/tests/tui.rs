use tmprocs::app::{App, Proc, ProcStatus};
use tmprocs::command::{Reply, Request, Step};
use tmprocs::tmux::TmuxSession;
use tmprocs::tui::{complaint, perform, Action, Event, EventLoop, Key};

const MS: u128 = 1_000_000;

fn app() -> App {
    let proc = |name: &str| Proc {
        name: name.to_string(),
        cmd: "x".to_string(),
        status: ProcStatus::Running,
        is_shown: false,
    };
    App::new(
        vec![proc("a"), proc("b"), proc("c")],
        TmuxSession::new("main".to_string(), 1),
        "%1".to_string(),
    )
}

fn key(key: Key) -> Event {
    Event::Key { control: false, key }
}

#[test]
fn waits_a_second_for_the_statuses() {
    let ev = EventLoop::new();
    assert_eq!(ev.timeout(0), 1000 * MS);
    assert_eq!(ev, EventLoop { last_swap: None, nav_pending: false });
}

#[test]
fn first_move_shows_at_once() {
    let mut ev = EventLoop::new();
    let mut app = app();
    assert_eq!(ev.take_event(&mut app, key(Key::Down), 5), vec![Action::Show]);
    assert_eq!(app.selected, 1);
    assert!(!ev.nav_pending);
    ev.swapped(7 * MS);
    assert_eq!(ev.last_swap, Some(7 * MS));
}

#[test]
fn quick_moves_wait_for_the_throttle() {
    let mut ev = EventLoop { last_swap: Some(100 * MS), nav_pending: false };
    let mut app = app();
    assert_eq!(ev.take_event(&mut app, key(Key::Char('j')), 200 * MS), vec![]);
    assert_eq!(app.selected, 1);
    assert!(ev.nav_pending);
    assert_eq!(ev.timeout(200 * MS), 150 * MS);
    assert_eq!(ev.timeout(400 * MS), 0);
    assert_eq!(ev.take_event(&mut app, Event::Timeout, 350 * MS), vec![Action::Show]);
    ev.swapped(360 * MS);
    assert!(!ev.nav_pending);
    assert_eq!(ev.timeout(360 * MS), 1000 * MS);
}

#[test]
fn a_move_at_the_throttle_shows() {
    let mut app = app();
    let mut ev = EventLoop { last_swap: Some(100 * MS), nav_pending: true };
    assert_eq!(ev.take_event(&mut app, key(Key::Down), 350 * MS), vec![Action::Show]);
    let mut early = EventLoop { last_swap: Some(100 * MS), nav_pending: false };
    assert_eq!(early.take_event(&mut app, key(Key::Up), 350 * MS - 1), vec![]);
    assert_eq!(early.timeout(350 * MS - 1), 1);
}

#[test]
fn time_that_runs_backwards_counts_as_none() {
    let ev = EventLoop { last_swap: Some(500 * MS), nav_pending: true };
    assert_eq!(ev.timeout(100 * MS), 250 * MS);
    let odd = EventLoop { last_swap: None, nav_pending: true };
    assert_eq!(odd.timeout(1), 0);
}

#[test]
fn enter_focuses_and_shows_what_is_pending() {
    let mut app = app();
    let mut ev = EventLoop { last_swap: Some(0), nav_pending: true };
    assert_eq!(
        ev.take_event(&mut app, key(Key::Enter), 1),
        vec![Action::Show, Action::Focus]
    );
    ev.swapped(2);
    assert_eq!(ev.take_event(&mut app, key(Key::Enter), 3), vec![Action::Focus]);
}

#[test]
fn keys_and_what_they_do() {
    let mut ev = EventLoop::new();
    let mut app = app();
    let mut take = |e: Event| ev.take_event(&mut app, e, 0);
    assert_eq!(take(key(Key::Char('s'))), vec![Action::Restart]);
    assert_eq!(take(key(Key::Char('r'))), vec![Action::ForceRestart, Action::Clear]);
    assert_eq!(take(key(Key::Char('x'))), vec![Action::Kill]);
    assert_eq!(take(Event::Resize), vec![Action::Clear]);
    assert_eq!(take(Event::Other), vec![]);
    assert_eq!(take(Event::Timeout), vec![Action::Refresh]);
    assert_eq!(take(key(Key::Other)), vec![]);
    assert_eq!(take(key(Key::Char('c'))), vec![]);
    assert_eq!(take(key(Key::Char('Q'))), vec![]);
    assert_eq!(take(Event::Key { control: true, key: Key::Char('k') }), vec![Action::Show]);
    assert!(!app.should_quit);
    assert_eq!(app.selected, 0);
}

#[test]
fn quitting() {
    for event in [
        key(Key::Char('q')),
        Event::Key { control: true, key: Key::Char('q') },
        Event::Key { control: true, key: Key::Char('c') },
    ] {
        let mut app = app();
        let mut ev = EventLoop::new();
        assert_eq!(ev.take_event(&mut app, event, 0), vec![]);
        assert!(app.should_quit);
    }
}

#[test]
fn actions_reach_the_application() {
    let mut app = app();
    assert!(matches!(perform(Action::Show, &mut app, &[]), Step::Ask(Request::Run(_))));
    assert_eq!(perform(Action::Focus, &mut app, &[]), Step::Done(Ok(())));
    assert_eq!(perform(Action::Restart, &mut app, &[]), Step::Done(Ok(())));
    assert!(matches!(perform(Action::ForceRestart, &mut app, &[]), Step::Ask(Request::Run(_))));
    assert_eq!(
        perform(Action::Kill, &mut app, &[]),
        Step::Ask(Request::ReadFile("/tmp/tmprocs__tp1_a".to_string()))
    );
    assert_eq!(
        perform(Action::Refresh, &mut app, &[Reply::Text("dead:0".to_string())]),
        Step::Ask(Request::ReadFile("/tmp/tmprocs__tp1_b".to_string()))
    );
    assert_eq!(perform(Action::Clear, &mut app, &[]), Step::Done(Ok(())));
    assert_eq!(app.procs[0].status, ProcStatus::Running);
}

#[test]
fn complaints() {
    assert_eq!(complaint(Action::Show, "e"), "error showing proc: e");
    assert_eq!(complaint(Action::Restart, "e"), "error restarting proc: e");
    assert_eq!(complaint(Action::ForceRestart, "e"), "error restarting proc: e");
    assert_eq!(complaint(Action::Kill, "e"), "error killing proc: e");
    assert_eq!(complaint(Action::Refresh, "e"), "e");
}

#[test]
fn actions_on_an_empty_list() {
    let mut app = App::new(vec![], TmuxSession::new("main".to_string(), 1), "%1".to_string());
    assert_eq!(perform(Action::Focus, &mut app, &[]), Step::Done(Ok(())));
    assert_eq!(perform(Action::Refresh, &mut app, &[]), Step::Done(Ok(())));
    assert_eq!(perform(Action::Clear, &mut app, &[]), Step::Done(Ok(())));
    app.right_pane_id = Some("%5".to_string());
    assert!(matches!(perform(Action::Focus, &mut app, &[]), Step::Ask(Request::Run(_))));
}

#[test]
fn shows_over_a_run_are_throttled() {
    let mut ev = EventLoop::new();
    let mut app = app();
    // The time at which each event is taken, the event, and whether it shows.
    let rounds = [
        (10, key(Key::Down), true),
        (100, key(Key::Down), false),
        (150, key(Key::Up), false),
        (200, Event::Resize, false),
        (280, Event::Timeout, true),
        (400, key(Key::Down), false),
        (410, key(Key::Enter), true),
        (500, key(Key::Up), false),
        (700, key(Key::Up), true),
        (1700, Event::Timeout, false),
    ];
    let mut selected = vec![];
    let mut last_end: Option<u128> = None;
    for (at, event, shows) in rounds {
        let taken = at * MS;
        let actions = ev.take_event(&mut app, event, taken);
        assert_eq!(actions.contains(&Action::Show), shows, "at {at}");
        selected.push(app.selected);
        if shows {
            if let (Some(end), false) = (last_end, event == key(Key::Enter)) {
                assert!(taken >= end + 250 * MS);
            }
            let end = taken + 20 * MS;
            ev.swapped(end);
            last_end = Some(end);
        }
    }
    assert_eq!(selected, vec![1, 2, 1, 1, 1, 2, 2, 1, 0, 0]);
}
