use std::cell::RefCell;
use tmprocs::app::ProcStatus;
use tmprocs::config::{find_config, Config, NamedProc, ProcConfig};
use tmprocs::startup::StartError;

fn shell(name: &str, line: &str) -> NamedProc {
    NamedProc {
        name: name.to_string(),
        config: ProcConfig { shell: Some(line.to_string()), cmd: None },
    }
}

#[test]
fn shell_line_comes_first() {
    let both = ProcConfig {
        shell: Some("make run".to_string()),
        cmd: Some(vec!["ignored".to_string()]),
    };
    assert_eq!(both.command(), Some("make run".to_string()));
}

#[test]
fn command_words_are_joined() {
    let cmd = ProcConfig {
        shell: None,
        cmd: Some(vec!["npm".to_string(), "run".to_string(), "dev".to_string()]),
    };
    assert_eq!(cmd.command(), Some("npm run dev".to_string()));
    let empty = ProcConfig { shell: None, cmd: Some(vec![]) };
    assert_eq!(empty.command(), Some(String::new()));
    let neither = ProcConfig { shell: None, cmd: None };
    assert_eq!(neither.command(), None);
}

#[test]
fn procs_begin_in_order() {
    let config = Config {
        procs: vec![
            shell("web", "w"),
            shell("api", "a"),
            NamedProc {
                name: "db".to_string(),
                config: ProcConfig { shell: None, cmd: None },
            },
            shell("Web", "W"),
        ],
    };
    let procs = config.initial_procs().unwrap();
    let got: Vec<(&str, &str)> =
        procs.iter().map(|p| (p.name.as_str(), p.cmd.as_str())).collect();
    assert_eq!(
        got,
        vec![("Web", "W"), ("api", "a"), ("db", "echo 'no command'"), ("web", "w")]
    );
    assert!(procs.iter().all(|p| p.status == ProcStatus::Running && !p.is_shown));
}

#[test]
fn order_does_not_depend_on_the_file() {
    let one = Config { procs: vec![shell("a", "1"), shell("b", "2"), shell("c", "3")] };
    let other = Config { procs: vec![shell("c", "3"), shell("a", "1"), shell("b", "2")] };
    let names = |c: &Config| -> Vec<String> {
        c.initial_procs().unwrap().into_iter().map(|p| p.name).collect()
    };
    assert_eq!(names(&one), names(&other));
    assert_eq!(names(&one), vec!["a".to_string(), "b".to_string(), "c".to_string()]);
}

#[test]
fn no_procs_is_an_error() {
    let config = Config { procs: vec![] };
    assert!(matches!(config.initial_procs(), Err(StartError::NoProcs)));
}

#[test]
fn first_present_name_is_found() {
    assert_eq!(find_config(|_: &str| true), Some("mprocs.yml"));
    assert_eq!(find_config(|n: &str| n == "mprocs.yaml" || n == "tmprocs.yml"), Some("mprocs.yaml"));
    assert_eq!(find_config(|n: &str| n.starts_with("tmprocs")), Some("tmprocs.yml"));
    assert_eq!(find_config(|n: &str| n == "tmprocs.yaml"), Some("tmprocs.yaml"));
    assert_eq!(find_config(|_: &str| false), None);
}

#[test]
fn names_are_tried_until_one_is_present() {
    let tried: RefCell<Vec<String>> = RefCell::new(vec![]);
    let found = find_config(|n: &str| {
        tried.borrow_mut().push(n.to_string());
        n == "tmprocs.yml"
    });
    assert_eq!(found, Some("tmprocs.yml"));
    assert_eq!(*tried.borrow(), vec!["mprocs.yml", "mprocs.yaml", "tmprocs.yml"]);
}
