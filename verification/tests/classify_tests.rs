use shell_core::command::{classify, is_builtin, Command};
use shell_core::text::{tokenize, trim};

#[test]
fn exit_directive_is_classified_as_exit() {
    assert!(matches!(classify("exit 0"), Command::Exit));
}

#[test]
fn pwd_line_is_classified_as_pwd() {
    assert!(matches!(classify("pwd"), Command::Pwd));
}

#[test]
fn cd_line_keeps_target_verbatim() {
    match classify("cd /usr/local/bin") {
        Command::ChangeDir { target } => assert_eq!(target, "/usr/local/bin"),
        _ => panic!("expected a directory change"),
    }
}

#[test]
fn type_line_keeps_remainder_verbatim() {
    match classify("type ls") {
        Command::TypeQuery { name } => assert_eq!(name, "ls"),
        _ => panic!("expected a type query"),
    }
}

#[test]
fn echo_payload_is_not_collapsed() {
    match classify("echo hello   world") {
        Command::Echo { payload } => assert_eq!(payload, "hello   world"),
        _ => panic!("expected an echo"),
    }
}

#[test]
fn bare_echo_has_empty_payload() {
    match classify("echo") {
        Command::Echo { payload } => assert_eq!(payload, ""),
        _ => panic!("expected an echo"),
    }
}

#[test]
fn external_line_splits_name_and_args() {
    match classify("ls  -l   /tmp") {
        Command::External { name, args } => {
            assert_eq!(name, "ls");
            assert_eq!(args, vec!["-l".to_string(), "/tmp".to_string()]);
        }
        _ => panic!("expected an external command"),
    }
}

#[test]
fn lone_name_has_no_args() {
    match classify("foobarbaz") {
        Command::External { name, args } => {
            assert_eq!(name, "foobarbaz");
            assert!(args.is_empty());
        }
        _ => panic!("expected an external command"),
    }
}

#[test]
fn cd_target_may_contain_spaces() {
    match classify("cd foo bar") {
        Command::ChangeDir { target } => assert_eq!(target, "foo bar"),
        _ => panic!("expected a directory change"),
    }
}

#[test]
fn bare_cd_is_not_the_builtin() {
    match classify("cd") {
        Command::External { name, args } => {
            assert_eq!(name, "cd");
            assert!(args.is_empty());
        }
        _ => panic!("expected an external command"),
    }
}

#[test]
fn classify_after_trim_handles_surrounding_whitespace() {
    match classify(&trim("   echo hi there \n")) {
        Command::Echo { payload } => assert_eq!(payload, "hi there"),
        _ => panic!("expected an echo"),
    }
}

#[test]
fn blank_line_is_empty() {
    assert!(matches!(classify(""), Command::Empty));
}

#[test]
fn exit_with_other_code_is_external() {
    match classify("exit 1") {
        Command::External { name, args } => {
            assert_eq!(name, "exit");
            assert_eq!(args, vec!["1".to_string()]);
        }
        _ => panic!("expected an external command"),
    }
}

#[test]
fn builtin_set_is_exactly_the_five_names() {
    for name in ["exit", "echo", "type", "pwd", "cd"] {
        assert!(is_builtin(name));
    }
    assert!(!is_builtin("ls"));
    assert!(!is_builtin("exit 0"));
    assert!(!is_builtin(""));
}

#[test]
fn trim_removes_surrounding_whitespace_only() {
    assert_eq!(trim("  echo hi   \n"), "echo hi");
    assert_eq!(trim("\t\r\n "), "");
    assert_eq!(trim("pwd"), "pwd");
}

#[test]
fn tokenize_collapses_whitespace_runs() {
    assert_eq!(
        tokenize("  a  bb\tccc "),
        vec!["a".to_string(), "bb".to_string(), "ccc".to_string()]
    );
    assert_eq!(tokenize(""), Vec::<String>::new());
    assert_eq!(tokenize("   \t"), Vec::<String>::new());
}
