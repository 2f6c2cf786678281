use tmprocs::app::{parse_status, ProcStatus};
use tmprocs::command::{Invocation, Reply, Request, Step, TmuxError};
use tmprocs::tmux;
use tmprocs::wrapper::{
    dead_status, exit_message, react, running_status, Effect, Happening, Phase,
};

#[test]
fn status_texts() {
    assert_eq!(running_status(1234), "running:1234");
    assert_eq!(dead_status(0), "dead:0");
    assert_eq!(dead_status(-1), "dead:-1");
    assert_eq!(dead_status(130), "dead:130");
}

#[test]
fn statuses_read_back() {
    for pid in [0u32, 1, 99, 4194304, u32::MAX] {
        let text = running_status(pid);
        assert_eq!(parse_status(&text), ProcStatus::Running);
        assert_eq!(
            tmux::kill_child_in_wrapper("f", &[Reply::Text(text)]),
            Step::Ask(Request::Run(Invocation {
                program: "kill".to_string(),
                args: vec!["-TERM".to_string(), format!("-{pid}")],
                captured: false,
            }))
        );
    }
    for code in [0, 1, -1, i32::MIN] {
        let text = dead_status(code);
        assert_eq!(parse_status(&text), ProcStatus::Dead);
        assert_eq!(
            tmux::kill_child_in_wrapper("f", &[Reply::Text(text)]),
            Step::Done(Err(TmuxError::NotRunning))
        );
    }
}

#[test]
fn exit_messages() {
    assert_eq!(
        exit_message(0),
        "\n\x1b[31m[process exited: success]\x1b[0m\n\x1b[90mpress 's' to restart: \x1b[0m"
    );
    assert_eq!(
        exit_message(-1),
        "\n\x1b[31m[process exited: code -1]\x1b[0m\n\x1b[90mpress 's' to restart: \x1b[0m"
    );
}

#[test]
fn a_start_is_written_down() {
    assert_eq!(
        react(Phase::Starting, &Happening::Started(7)),
        (
            Phase::Watching,
            vec![
                Effect::WriteStatus { text: "running:7".to_string(), vital: true },
                Effect::Watch,
            ]
        )
    );
    assert_eq!(react(Phase::Starting, &Happening::NotStarted), (Phase::Ended, vec![]));
    assert_eq!(react(Phase::Watching, &Happening::NotStarted), (Phase::Ended, vec![]));
}

#[test]
fn watching_goes_on() {
    assert_eq!(
        react(Phase::Watching, &Happening::StillRunning),
        (Phase::Watching, vec![Effect::Pause, Effect::Watch])
    );
}

#[test]
fn an_exit_prompts() {
    assert_eq!(
        react(Phase::Watching, &Happening::Exited(Some(3))),
        (
            Phase::Prompting,
            vec![
                Effect::WriteStatus { text: "dead:3".to_string(), vital: false },
                Effect::Print(exit_message(3)),
                Effect::TakeTerminal,
                Effect::ReadKey,
            ]
        )
    );
    let (_, effects) = react(Phase::Watching, &Happening::Exited(None));
    assert_eq!(effects[0], Effect::WriteStatus { text: "dead:-1".to_string(), vital: false });
}

#[test]
fn a_lost_process_leaves_the_pane_open() {
    assert_eq!(
        react(Phase::Watching, &Happening::Lost("gone".to_string())),
        (
            Phase::Idle,
            vec![
                Effect::WriteStatus { text: "dead:-1".to_string(), vital: false },
                Effect::Complain("[wrapper error: gone]".to_string()),
                Effect::Sleep,
            ]
        )
    );
    assert_eq!(react(Phase::Idle, &Happening::Typed(Some(b's'))), (Phase::Idle, vec![]));
}

#[test]
fn only_the_restart_key_restarts() {
    for byte in [b's', b'S'] {
        assert_eq!(
            react(Phase::Prompting, &Happening::Typed(Some(byte))),
            (
                Phase::Starting,
                vec![Effect::Print("\n[restarting...]\n".to_string()), Effect::Start]
            )
        );
    }
    for byte in [b'q', b'\n', 3, 0, 255] {
        assert_eq!(
            react(Phase::Prompting, &Happening::Typed(Some(byte))),
            (Phase::Prompting, vec![Effect::ReadKey])
        );
    }
    assert_eq!(
        react(Phase::Prompting, &Happening::Typed(None)),
        (Phase::Prompting, vec![Effect::Pause, Effect::ReadKey])
    );
}
