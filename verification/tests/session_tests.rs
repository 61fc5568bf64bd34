use shell_core::external::{report_external, ExternalReport, RunCapture, RunResult};
use shell_core::messages::{pwd_error_message, run_error_message, type_message};
use shell_core::session::{cd_candidate, join_path, Session};

#[test]
fn type_reports_builtins_even_when_a_path_matches() {
    for name in ["exit", "echo", "type", "pwd", "cd"] {
        let shadow = format!("/usr/bin/{}", name);
        let message = type_message(name, Some(&shadow));
        assert_eq!(message, format!("{} is a shell builtin", name));
        assert_eq!(type_message(name, None), format!("{} is a shell builtin", name));
    }
}

#[test]
fn type_reports_a_resolved_path() {
    let path = "/usr/bin/ls".to_string();
    assert_eq!(type_message("ls", Some(&path)), "ls is /usr/bin/ls");
}

#[test]
fn type_reports_not_found() {
    assert_eq!(type_message("frobnicate", None), "frobnicate: not found");
}

#[test]
fn absolute_cd_target_is_taken_as_is() {
    let home = Ok("/home/user".to_string());
    assert_eq!(
        cd_candidate("/var/log", &home, "/tmp"),
        Ok("/var/log".to_string())
    );
}

#[test]
fn tilde_goes_to_the_home_directory() {
    let home = Ok("/home/user".to_string());
    assert_eq!(cd_candidate("~", &home, "/tmp"), Ok("/home/user".to_string()));
}

#[test]
fn tilde_without_home_fails_with_the_lookup_error() {
    let home = Err("environment variable not found".to_string());
    assert_eq!(
        cd_candidate("~", &home, "/tmp"),
        Err("environment variable not found".to_string())
    );
}

#[test]
fn relative_cd_target_joins_the_working_directory() {
    let home = Ok("/home/user".to_string());
    assert_eq!(
        cd_candidate("src", &home, "/work/repo"),
        Ok("/work/repo/src".to_string())
    );
}

#[test]
fn join_does_not_double_the_separator_at_the_root() {
    assert_eq!(join_path("/", "etc"), "/etc");
    assert_eq!(join_path("/work", "src"), "/work/src");
}

#[test]
fn successful_cd_is_reflected_by_pwd() {
    let mut session = Session::new("/start".to_string());
    let outcome = session.apply_cd("elsewhere", "/start/elsewhere".to_string(), true);
    assert_eq!(outcome, Ok(()));
    assert_eq!(session.pwd(), "/start/elsewhere");
}

#[test]
fn failed_cd_keeps_the_working_directory_and_echoes_the_typed_path() {
    let mut session = Session::new("/start".to_string());
    let outcome = session.apply_cd("missing", "/start/missing".to_string(), false);
    assert_eq!(
        outcome,
        Err("cd: missing: No such file or directory".to_string())
    );
    assert_eq!(session.pwd(), "/start");
}

#[test]
fn completed_run_surfaces_stdout_alone() {
    let capture = RunCapture {
        stdout: b"ok\n".to_vec(),
        stderr: b"noise on stderr".to_vec(),
        status: Some(3),
    };
    match report_external(RunResult::Completed(capture)) {
        ExternalReport::Output(out) => assert_eq!(out, b"ok\n".to_vec()),
        ExternalReport::Failure(_) => panic!("expected output"),
    }
}

#[test]
fn spawn_failure_is_reported_with_the_system_text() {
    match report_external(RunResult::SpawnFailed("Permission denied (os error 13)".to_string())) {
        ExternalReport::Failure(message) => {
            assert_eq!(message, "Error running command: Permission denied (os error 13)");
        }
        ExternalReport::Output(_) => panic!("expected a failure"),
    }
}

#[test]
fn run_error_message_is_exact() {
    assert_eq!(run_error_message("boom"), "Error running command: boom");
}

#[test]
fn pwd_error_message_is_exact() {
    assert_eq!(pwd_error_message(), "Error retrieving current directory");
}
