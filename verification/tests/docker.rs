use nais_build::docker::tag::{compose, generate, Error as TagError, Timestamp};
use nais_build::docker::{
    build, build_command, build_script, judge, login, login_command, logout, logout_command,
    push, push_command, Error, Operation,
};
use nais_build::process::{ExitStatus, Invocation, Outcome};
use nais_build::sdk::golang::{self, Config};
use nais_build::sdk::SDK;
use nais_build::tree::{Entry, Listing, Probe};

fn exited(code: i32) -> Outcome {
    Outcome::Exited(ExitStatus { code: Some(code), signal: None })
}

fn arguments(invocation: &Invocation) -> Vec<&str> {
    invocation.arguments.iter().map(|s| s.as_str()).collect()
}

fn go_sdk(cmd: Listing) -> SDK {
    let cfg = Config {
        filesystem_path: ".".to_string(),
        docker_builder_image: "golang:1".to_string(),
        docker_runtime_image: "scratch".to_string(),
        start_hook: None,
        end_hook: None,
    };
    SDK::Golang(golang::new(cfg, &Probe::File, cmd).unwrap().unwrap())
}

#[test]
fn exit_code_zero_is_success() {
    assert!(ExitStatus { code: Some(0), signal: None }.success());
    assert!(!ExitStatus { code: Some(1), signal: None }.success());
    assert!(!ExitStatus { code: Some(-1), signal: None }.success());
    assert!(!ExitStatus { code: None, signal: None }.success());
}

#[test]
fn build_command_names_file_tag_and_context() {
    let invocation = build_command("/tmp/Dockerfile.1", "r/t/a:1", "/src/app");
    assert_eq!(invocation.program, "docker");
    assert_eq!(
        arguments(&invocation),
        vec!["build", "--file", "/tmp/Dockerfile.1", "--tag", "r/t/a:1", "/src/app"]
    );
    assert_eq!(invocation.stdin, None);
}

#[test]
fn login_command_feeds_the_token_on_standard_input() {
    let invocation = login_command("registry.example", "s3cr3t");
    assert_eq!(invocation.program, "docker");
    assert_eq!(
        arguments(&invocation),
        vec!["login", "registry.example", "--username", "oauth2accesstoken", "--password-stdin"]
    );
    assert_eq!(invocation.stdin, Some("s3cr3t".to_string()));
}

#[test]
fn logout_and_push_commands() {
    let invocation = logout_command("registry.example");
    assert_eq!(invocation.program, "docker");
    assert_eq!(arguments(&invocation), vec!["logout", "registry.example"]);
    assert_eq!(invocation.stdin, None);
    let invocation = push_command("r/t/a:1");
    assert_eq!(invocation.program, "docker");
    assert_eq!(arguments(&invocation), vec!["push", "r/t/a:1"]);
    assert_eq!(invocation.stdin, None);
}

#[test]
fn a_failed_operation_reports_its_exit_status() {
    assert!(build(&exited(0)).is_ok());
    assert!(login(&exited(0)).is_ok());
    assert!(logout(&exited(0)).is_ok());
    assert!(push(&exited(0)).is_ok());
    assert!(matches!(build(&exited(2)), Err(Error::Build(ExitStatus { code: Some(2), signal: None }))));
    assert!(matches!(login(&exited(3)), Err(Error::Login(ExitStatus { code: Some(3), signal: None }))));
    assert!(matches!(logout(&exited(4)), Err(Error::Logout(ExitStatus { code: Some(4), signal: None }))));
    assert!(matches!(push(&exited(5)), Err(Error::Push(ExitStatus { code: Some(5), signal: None }))));
    let killed = Outcome::Exited(ExitStatus { code: None, signal: None });
    assert!(matches!(push(&killed), Err(Error::Push(ExitStatus { code: None, signal: None }))));
    assert!(matches!(
        judge(Operation::Build, &exited(1)),
        Err(Error::Build(ExitStatus { code: Some(1), signal: None }))
    ));
}

#[test]
fn an_engine_that_cannot_be_run_is_an_io_error() {
    let outcome = Outcome::Failed("No such file or directory".to_string());
    for operation in [Operation::Build, Operation::Login, Operation::Logout, Operation::Push] {
        match judge(operation, &outcome) {
            Err(Error::IOError(err)) => assert_eq!(err, "No such file or directory"),
            _ => panic!("the failure to run was lost"),
        }
    }
}

#[test]
fn build_script_is_the_dockerfile_of_the_sdk() {
    let sdk = go_sdk(Listing::Entries(vec![Entry::Named {
        name: "server".to_string(),
        is_dir: true,
    }]));
    let script = build_script(&sdk).unwrap();
    assert!(script.contains("RUN go build -a -installsuffix cgo -o /build/server ./cmd/server"));
    let sdk = go_sdk(Listing::Failed("denied".to_string()));
    assert!(matches!(build_script(&sdk), Err(Error::Generate(_))));
}

fn noon() -> Timestamp {
    Timestamp { year: 2024, month: 10, day: 8, hour: 15, minute: 25, second: 58 }
}

#[test]
fn timestamps_are_written_with_fixed_widths() {
    assert_eq!(noon().to_stamp(), "20241008.152558");
    let early = Timestamp { year: 987, month: 1, day: 2, hour: 3, minute: 4, second: 5 };
    assert_eq!(early.to_stamp(), "09870102.030405");
    assert!(noon().is_well_formed());
    assert!(!Timestamp { month: 13, ..noon() }.is_well_formed());
    assert!(!Timestamp { month: 0, ..noon() }.is_well_formed());
    assert!(!Timestamp { day: 0, ..noon() }.is_well_formed());
    assert!(!Timestamp { day: 32, ..noon() }.is_well_formed());
    assert!(!Timestamp { hour: 24, ..noon() }.is_well_formed());
    assert!(!Timestamp { minute: 60, ..noon() }.is_well_formed());
    assert!(!Timestamp { second: 60, ..noon() }.is_well_formed());
    assert!(!Timestamp { year: 10000, ..noon() }.is_well_formed());
}

#[test]
fn tags_hold_time_and_commit() {
    assert_eq!(compose("20241008.152558", "abcdef", false), "20241008.152558.abcdef");
    assert_eq!(compose("20241008.152558", "abcdef", true), "20241008.152558.abcdef-dirty");
}

#[test]
fn generated_tag_of_a_clean_tree() {
    let tag = generate(&noon(), Ok(Vec::new()), Ok(b"abcdef\n".to_vec())).unwrap();
    assert_eq!(tag, "20241008.152558.abcdef");
}

#[test]
fn generated_tag_of_a_dirty_tree() {
    let tag = generate(&noon(), Ok(b"new.txt\n".to_vec()), Ok(b" abcdef \n".to_vec())).unwrap();
    assert_eq!(tag, "20241008.152558.abcdef-dirty");
}

#[test]
fn no_tag_where_git_cannot_be_run() {
    match generate(&noon(), Err("git: not found".to_string()), Ok(b"abcdef".to_vec())) {
        Err(TagError::FailedExecute(err)) => assert_eq!(err, "git: not found"),
        _ => panic!("a tag without git"),
    }
    match generate(&noon(), Ok(Vec::new()), Err("git: not found".to_string())) {
        Err(TagError::FailedExecute(err)) => assert_eq!(err, "git: not found"),
        _ => panic!("a tag without git"),
    }
}

#[test]
fn no_tag_where_the_commit_is_no_text() {
    let found = generate(&noon(), Ok(Vec::new()), Ok(vec![0x61, 0xff, 0x62]));
    assert!(matches!(found, Err(TagError::ParseGitShortSha(_))));
    let found = generate(&noon(), Ok(Vec::new()), Ok(vec![0xc3]));
    assert!(matches!(found, Err(TagError::ParseGitShortSha(_))));
}

#[test]
fn commits_may_hold_any_text() {
    let tag = generate(&noon(), Ok(Vec::new()), Ok("blåbær\n".as_bytes().to_vec())).unwrap();
    assert_eq!(tag, "20241008.152558.blåbær");
}
