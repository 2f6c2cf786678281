use tmprocs::startup::{parse_args, Mode, StartError};

fn args(list: &[&str]) -> Vec<String> {
    list.iter().map(|s| s.to_string()).collect()
}

#[test]
fn lists_without_wrap() {
    assert_eq!(parse_args(&args(&[])), Ok(Mode::List));
    assert_eq!(parse_args(&args(&["tmprocs"])), Ok(Mode::List));
    assert_eq!(parse_args(&args(&["tmprocs", "other", "wrap"])), Ok(Mode::List));
}

#[test]
fn wraps_with_all_arguments() {
    let expected = Mode::Wrap { status_file: "/tmp/f".to_string(), shell_cmd: "ls -l".to_string() };
    assert_eq!(parse_args(&args(&["tmprocs", "wrap", "/tmp/f", "ls -l"])), Ok(expected));
    let extra = Mode::Wrap { status_file: "f".to_string(), shell_cmd: "c".to_string() };
    assert_eq!(parse_args(&args(&["tmprocs", "wrap", "f", "c", "more"])), Ok(extra));
}

#[test]
fn wrap_needs_its_arguments() {
    assert_eq!(parse_args(&args(&["tmprocs", "wrap"])), Err(StartError::MissingStatusFile));
    assert_eq!(parse_args(&args(&["tmprocs", "wrap", "f"])), Err(StartError::MissingCommand));
}

#[test]
fn reasons_in_words() {
    assert_eq!(StartError::MissingStatusFile.message(), "wrap: missing status file");
    assert_eq!(StartError::MissingCommand.message(), "wrap: missing command");
    assert_eq!(StartError::OutsideTmux.message(), "tmprocs must be run inside a tmux session");
    assert_eq!(
        StartError::NoConfig.message(),
        "no mprocs.yml / tmprocs.yml found in current directory"
    );
    assert_eq!(StartError::NoProcs.message(), "no procs defined in config");
}
