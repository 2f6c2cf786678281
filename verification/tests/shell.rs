use tmprocs::shell;

#[test]
fn quotes_plain_text() {
    assert_eq!(shell::shell_quote("npm run dev"), "'npm run dev'");
    assert_eq!(shell::shell_quote(""), "''");
}

#[test]
fn escapes_single_quotes() {
    assert_eq!(shell::shell_quote("echo 'no command'"), "'echo '\\''no command'\\'''");
    assert_eq!(shell::shell_quote("'"), "''\\'''");
    assert_eq!(shell::shell_quote("''"), "''\\'''\\'''");
    assert_eq!(shell::shell_quote("$HOME; ls | wc \\ \"x\""), "'$HOME; ls | wc \\ \"x\"'");
}

#[test]
fn quotes_as_replacing_does() {
    for s in ["a'b", "'a", "a'", "a''b", "é'ü", "x\ny'z"] {
        assert_eq!(shell::shell_quote(s), format!("'{}'", s.replace('\'', "'\\''")));
    }
}
