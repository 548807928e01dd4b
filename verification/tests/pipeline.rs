use nais_build::config::runtime::{Config, Release, ReleaseParams, ReleaseType};
use nais_build::docker::Error as DockerError;
use nais_build::error::Error;
use nais_build::pipeline::{
    image_reference, includes, Action, Command, Event, GitMetadata, Phase, Pipeline, Plan, Stage,
};
use nais_build::process::{ExitStatus, Invocation, Outcome};
use nais_build::sdk::golang::{self, Config as GoConfig};
use nais_build::sdk::SDK;
use nais_build::tree::{Entry, Listing, Probe};

/// What the collaborators of a run answer, and what they were asked.
struct Stub {
    build: i32,
    token: Result<String, String>,
    login: i32,
    push: i32,
    logout: i32,
    git: Result<(), String>,
    apikey: Option<String>,
    deploy_server: Option<String>,
    deploy: i32,
    log: Vec<String>,
    commands: Vec<Invocation>,
}

fn stub() -> Stub {
    Stub {
        build: 0,
        token: Ok("tok".to_string()),
        login: 0,
        push: 0,
        logout: 0,
        git: Ok(()),
        apikey: Some("key".to_string()),
        deploy_server: Some("server:443".to_string()),
        deploy: 0,
        log: Vec::new(),
        commands: Vec::new(),
    }
}

fn exited(code: i32) -> Event {
    Event::Process(Outcome::Exited(ExitStatus { code: Some(code), signal: None }))
}

fn perform(stub: &mut Stub, action: Action) -> Result<Event, Result<(), Error>> {
    Ok(match action {
        Action::Print { .. } => {
            stub.log.push("print".to_string());
            Event::Printed
        }
        Action::GatherGit { .. } => {
            stub.log.push("git".to_string());
            Event::Git(match &stub.git {
                Ok(_) => Ok(GitMetadata {
                    short_sha: "abcdef".to_string(),
                    owner: "navikt".to_string(),
                    name: "myapp".to_string(),
                }),
                Err(err) => Err(err.clone()),
            })
        }
        Action::Build { .. } => {
            stub.log.push("build".to_string());
            exited(stub.build)
        }
        Action::AcquireToken => {
            stub.log.push("token".to_string());
            Event::Token(match &stub.token {
                Ok(token) => Ok(token.clone()),
                Err(err) => Err(nais_build::auth::Failure {
                    endpoint: Some("https://sts.googleapis.com/v1/token".to_string()),
                    error: nais_build::auth::Error::Reqwest(err.clone()),
                }),
            })
        }
        Action::Login(invocation) => {
            stub.log.push("login".to_string());
            stub.commands.push(invocation);
            exited(stub.login)
        }
        Action::Push(invocation) => {
            stub.log.push("push".to_string());
            stub.commands.push(invocation);
            exited(stub.push)
        }
        Action::Logout(invocation) => {
            stub.log.push("logout".to_string());
            stub.commands.push(invocation);
            exited(stub.logout)
        }
        Action::ReadEnvironment => {
            stub.log.push("environment".to_string());
            Event::Environment {
                apikey: stub.apikey.clone(),
                deploy_server: stub.deploy_server.clone(),
            }
        }
        Action::Deploy(invocation) => {
            stub.log.push("deploy".to_string());
            stub.commands.push(invocation);
            exited(stub.deploy)
        }
        Action::Done(result) => return Err(result),
    })
}

fn run(plan: Plan, stub: &mut Stub) -> Result<(), Error> {
    let (mut pipeline, mut action) = Pipeline::start(plan);
    let mut steps = 0;
    loop {
        let event = match perform(stub, action) {
            Ok(event) => event,
            Err(result) => {
                assert_eq!(pipeline.phase, Phase::Finished);
                return result;
            }
        };
        assert!(pipeline.is_accepted(&event));
        let (next, then) = pipeline.step(event);
        pipeline = next;
        action = then;
        steps += 1;
        assert!(steps <= 9);
    }
}

fn sdk() -> SDK {
    let cfg = GoConfig {
        filesystem_path: "/src/app".to_string(),
        docker_builder_image: "golang:1".to_string(),
        docker_runtime_image: "scratch".to_string(),
        start_hook: None,
        end_hook: None,
    };
    let cmd = Listing::Entries(vec![Entry::Named { name: "server".to_string(), is_dir: true }]);
    SDK::Golang(golang::new(cfg, &Probe::File, cmd).unwrap().unwrap())
}

fn config(typ: ReleaseType) -> Config {
    Config {
        app: "myapp".to_string(),
        team: "myteam".to_string(),
        release: Release { typ, params: ReleaseParams { registry: "registry.example".to_string() } },
    }
}

fn plan(command: Command, supplied: Option<&str>) -> Plan {
    Plan::new(
        command,
        supplied.map(|s| s.to_string()),
        &config(ReleaseType::GAR),
        "20241008.152558.abcdef",
        "./nais.yaml".to_string(),
        sdk(),
    )
}

fn deploy() -> Command {
    Command::Deploy { cluster: "dev-gcp".to_string() }
}

fn log(stub: &Stub) -> Vec<&str> {
    stub.log.iter().map(|s| s.as_str()).collect()
}

#[test]
fn plans_name_the_image_after_the_release_target() {
    let made = plan(Command::Build, None);
    assert_eq!(made.stage, Stage::Build);
    assert_eq!(made.image, "registry.example/myteam/myapp:20241008.152558.abcdef");
    assert_eq!(made.registry, "registry.example");
    assert_eq!(made.manifest, "./nais.yaml");
    assert_eq!(made.cluster, "");
    assert!(!made.overridden);
    let made = Plan::new(
        Command::Release,
        None,
        &config(ReleaseType::GHCR),
        "1",
        "./nais.yaml".to_string(),
        sdk(),
    );
    assert_eq!(made.stage, Stage::Release);
    assert_eq!(made.image, "registry.example/myapp:1");
}

#[test]
fn plans_take_a_supplied_image_as_it_is() {
    let made = plan(deploy(), Some("elsewhere.example/other:7"));
    assert_eq!(made.stage, Stage::Deploy);
    assert_eq!(made.image, "elsewhere.example/other:7");
    assert_eq!(made.cluster, "dev-gcp");
    assert!(made.overridden);
    let name = config(ReleaseType::GAR).release.docker_name_builder(
        nais_build::docker::name::Config {
            registry: "r".to_string(),
            team: "t".to_string(),
            app: "a".to_string(),
            tag: "1".to_string(),
        },
    );
    assert_eq!(image_reference(&name, &None), "r/t/a:1");
    assert_eq!(image_reference(&name, &Some("x/y:2".to_string())), "x/y:2");
}

#[test]
fn stages_run_in_order() {
    let all = [Stage::Dockerfile, Stage::Build, Stage::Release, Stage::Deploy];
    let ran = |requested: Stage, overridden: bool| -> Vec<Stage> {
        all.iter().copied().filter(|s| includes(requested, overridden, *s)).collect()
    };
    assert_eq!(ran(Stage::Dockerfile, false), vec![Stage::Dockerfile]);
    assert_eq!(ran(Stage::Build, false), vec![Stage::Dockerfile, Stage::Build]);
    assert_eq!(
        ran(Stage::Release, false),
        vec![Stage::Dockerfile, Stage::Build, Stage::Release]
    );
    assert_eq!(
        ran(Stage::Deploy, false),
        vec![Stage::Dockerfile, Stage::Build, Stage::Release, Stage::Deploy]
    );
    assert_eq!(ran(Stage::Dockerfile, true), vec![Stage::Dockerfile]);
    assert_eq!(ran(Stage::Build, true), vec![Stage::Dockerfile, Stage::Build]);
    assert_eq!(ran(Stage::Release, true), vec![Stage::Release]);
    assert_eq!(ran(Stage::Deploy, true), vec![Stage::Deploy]);
    assert_eq!(Stage::Dockerfile.position(), 0);
    assert_eq!(Stage::Deploy.position(), 3);
}

#[test]
fn dockerfile_command_prints_the_dockerfile() {
    let (pipeline, action) = Pipeline::start(plan(Command::Dockerfile, None));
    assert_eq!(pipeline.phase, Phase::Printing);
    match action {
        Action::Print { dockerfile, image } => {
            assert!(dockerfile.contains("RUN go build -a -installsuffix cgo -o /build/server"));
            assert_eq!(image, "registry.example/myteam/myapp:20241008.152558.abcdef");
        }
        _ => panic!("the Dockerfile was not printed"),
    }
    let mut collaborators = stub();
    assert!(run(plan(Command::Dockerfile, None), &mut collaborators).is_ok());
    assert_eq!(log(&collaborators), vec!["print"]);
}

#[test]
fn build_command_builds_the_image() {
    let (_, action) = Pipeline::start(plan(Command::Build, None));
    match action {
        Action::Build { dockerfile, tag, filesystem_path } => {
            assert!(dockerfile.contains("FROM golang:1 AS builder"));
            assert_eq!(tag, "registry.example/myteam/myapp:20241008.152558.abcdef");
            assert_eq!(filesystem_path, "/src/app");
        }
        _ => panic!("the image was not built"),
    }
    let mut collaborators = stub();
    assert!(run(plan(Command::Build, None), &mut collaborators).is_ok());
    assert_eq!(log(&collaborators), vec!["build"]);
}

#[test]
fn a_failed_build_is_fatal() {
    let mut collaborators = stub();
    collaborators.build = 1;
    let result = run(plan(deploy(), None), &mut collaborators);
    assert!(matches!(
        result,
        Err(Error::Docker(DockerError::Build(ExitStatus { code: Some(1), signal: None })))
    ));
    assert_eq!(log(&collaborators), vec!["git", "build"]);
}

#[test]
fn a_dockerfile_that_cannot_be_written_ends_the_run() {
    let cfg = GoConfig {
        filesystem_path: "/src/app".to_string(),
        docker_builder_image: "golang:1".to_string(),
        docker_runtime_image: "scratch".to_string(),
        start_hook: None,
        end_hook: None,
    };
    let broken = |command: Command| {
        let sdk = SDK::Golang(
            golang::new(cfg.clone(), &Probe::File, Listing::Failed("denied".to_string()))
                .unwrap()
                .unwrap(),
        );
        Plan::new(command, None, &config(ReleaseType::GAR), "1", "./nais.yaml".to_string(), sdk)
    };
    let mut collaborators = stub();
    let result = run(broken(Command::Dockerfile), &mut collaborators);
    assert!(matches!(result, Err(Error::SDKError(_))));
    assert!(collaborators.log.is_empty());
    let result = run(broken(Command::Release), &mut collaborators);
    assert!(matches!(result, Err(Error::Docker(DockerError::Generate(_)))));
    assert!(collaborators.log.is_empty());
}

#[test]
fn release_builds_logs_in_pushes_and_logs_out() {
    let mut collaborators = stub();
    assert!(run(plan(Command::Release, None), &mut collaborators).is_ok());
    assert_eq!(log(&collaborators), vec!["build", "token", "login", "push", "logout"]);
    let login = &collaborators.commands[0];
    assert_eq!(login.arguments[1], "registry.example");
    assert_eq!(login.stdin, Some("tok".to_string()));
    let push = &collaborators.commands[1];
    assert_eq!(push.arguments, vec!["push", "registry.example/myteam/myapp:20241008.152558.abcdef"]);
    let logout = &collaborators.commands[2];
    assert_eq!(logout.arguments, vec!["logout", "registry.example"]);
}

#[test]
fn release_of_a_supplied_image_does_not_build() {
    let mut collaborators = stub();
    assert!(run(plan(Command::Release, Some("x/y:2")), &mut collaborators).is_ok());
    assert_eq!(log(&collaborators), vec!["token", "login", "push", "logout"]);
    assert_eq!(collaborators.commands[1].arguments, vec!["push", "x/y:2"]);
}

#[test]
fn a_failed_push_still_logs_out_once() {
    let mut collaborators = stub();
    collaborators.push = 1;
    let result = run(plan(Command::Release, None), &mut collaborators);
    assert!(matches!(
        result,
        Err(Error::Docker(DockerError::Push(ExitStatus { code: Some(1), signal: None })))
    ));
    assert_eq!(log(&collaborators), vec!["build", "token", "login", "push", "logout"]);
    assert_eq!(collaborators.log.iter().filter(|a| a.as_str() == "logout").count(), 1);
}

#[test]
fn a_failed_push_wins_over_a_failed_logout() {
    let mut collaborators = stub();
    collaborators.push = 1;
    collaborators.logout = 2;
    let result = run(plan(deploy(), None), &mut collaborators);
    assert!(matches!(
        result,
        Err(Error::Docker(DockerError::Push(ExitStatus { code: Some(1), signal: None })))
    ));
    assert_eq!(log(&collaborators), vec!["git", "build", "token", "login", "push", "logout"]);
}

#[test]
fn a_failed_logout_is_reported() {
    let mut collaborators = stub();
    collaborators.logout = 2;
    let result = run(plan(deploy(), None), &mut collaborators);
    assert!(matches!(
        result,
        Err(Error::Docker(DockerError::Logout(ExitStatus { code: Some(2), signal: None })))
    ));
    assert_eq!(log(&collaborators), vec!["git", "build", "token", "login", "push", "logout"]);
}

#[test]
fn a_failed_login_pushes_nothing() {
    let mut collaborators = stub();
    collaborators.login = 1;
    let result = run(plan(Command::Release, None), &mut collaborators);
    assert!(matches!(
        result,
        Err(Error::Docker(DockerError::Login(ExitStatus { code: Some(1), signal: None })))
    ));
    assert_eq!(log(&collaborators), vec!["build", "token", "login"]);
}

#[test]
fn no_token_no_login() {
    let mut collaborators = stub();
    collaborators.token = Err("operation timed out".to_string());
    let result = run(plan(Command::Release, None), &mut collaborators);
    match result {
        Err(Error::Google(failure)) => {
            assert_eq!(failure.endpoint, Some("https://sts.googleapis.com/v1/token".to_string()));
            match failure.error {
                nais_build::auth::Error::Reqwest(err) => assert_eq!(err, "operation timed out"),
                _ => panic!("the failure of the request was lost"),
            }
        }
        _ => panic!("the run went on without a token"),
    }
    assert_eq!(log(&collaborators), vec!["build", "token"]);
}

#[test]
fn deploy_runs_every_stage() {
    let mut collaborators = stub();
    assert!(run(plan(deploy(), None), &mut collaborators).is_ok());
    assert_eq!(
        log(&collaborators),
        vec!["git", "build", "token", "login", "push", "logout", "environment", "deploy"]
    );
    let command = collaborators.commands.last().unwrap();
    assert_eq!(command.program, "deploy");
    assert_eq!(
        command.arguments,
        vec![
            "--resource",
            "./nais.yaml",
            "--var",
            "image=registry.example/myteam/myapp:20241008.152558.abcdef",
            "--apikey",
            "key",
            "--cluster",
            "dev-gcp",
            "--deploy-server",
            "server:443",
            "--owner",
            "navikt",
            "--ref",
            "abcdef",
            "--repository",
            "myapp",
            "--vars",
            "",
            "--wait",
            "true",
        ]
    );
}

#[test]
fn deploy_of_a_supplied_image_neither_builds_nor_releases() {
    let mut collaborators = stub();
    assert!(run(plan(deploy(), Some("x/y:2")), &mut collaborators).is_ok());
    assert_eq!(log(&collaborators), vec!["git", "environment", "deploy"]);
    let command = collaborators.commands.last().unwrap();
    assert_eq!(command.arguments[3], "image=x/y:2");
}

#[test]
fn incomplete_deploy_configuration_never_reaches_the_client() {
    let cases = [(None, Some("server:443".to_string())), (Some("key".to_string()), None), (None, None)];
    for (apikey, deploy_server) in cases {
        let mut collaborators = stub();
        collaborators.apikey = apikey;
        collaborators.deploy_server = deploy_server;
        let result = run(plan(deploy(), Some("x/y:2")), &mut collaborators);
        assert!(matches!(result, Err(Error::ConfigIncomplete)));
        assert_eq!(log(&collaborators), vec!["git", "environment"]);
        assert!(collaborators.commands.is_empty());
    }
}

#[test]
fn a_failed_deploy_reports_the_exit_status() {
    let mut collaborators = stub();
    collaborators.deploy = 3;
    let result = run(plan(deploy(), Some("x/y:2")), &mut collaborators);
    assert!(matches!(
        result,
        Err(Error::Deploy(nais_build::deploy::Error::Deploy(ExitStatus { code: Some(3), signal: None })))
    ));
}

#[test]
fn a_deploy_without_version_control_does_nothing() {
    let mut collaborators = stub();
    collaborators.git = Err("not a git repository".to_string());
    let result = run(plan(deploy(), None), &mut collaborators);
    match result {
        Err(Error::FilesystemError(err)) => assert_eq!(err, "not a git repository"),
        _ => panic!("the run went on without version control"),
    }
    assert_eq!(log(&collaborators), vec!["git"]);
}

#[test]
fn events_must_answer_the_action() {
    let (pipeline, _) = Pipeline::start(plan(Command::Build, None));
    assert!(pipeline.is_accepted(&exited(0)));
    assert!(!pipeline.is_accepted(&Event::Printed));
    assert!(!pipeline.is_accepted(&Event::Token(Ok("t".to_string()))));
    let (pipeline, _) = pipeline.step(exited(0));
    assert_eq!(pipeline.phase, Phase::Finished);
    assert!(!pipeline.is_accepted(&exited(0)));
    assert!(!pipeline.is_accepted(&Event::Printed));
}

#[test]
fn plans_need_an_image_that_can_be_named() {
    let mut unnamed = config(ReleaseType::GAR);
    unnamed.app = String::new();
    let made = Plan::checked(Command::Build, None, &unnamed, "1", "./nais.yaml".to_string(), sdk());
    assert!(matches!(made, Err(Error::ConfigIncomplete)));
    let made = Plan::checked(
        Command::Build,
        None,
        &config(ReleaseType::GAR),
        "",
        "./nais.yaml".to_string(),
        sdk(),
    );
    assert!(matches!(made, Err(Error::ConfigIncomplete)));
    let made = Plan::checked(
        Command::Release,
        Some("x/y:2".to_string()),
        &unnamed,
        "",
        "./nais.yaml".to_string(),
        sdk(),
    )
    .unwrap();
    assert_eq!(made.image, "x/y:2");
    let made = Plan::checked(
        Command::Build,
        None,
        &config(ReleaseType::GAR),
        "1",
        "./nais.yaml".to_string(),
        sdk(),
    )
    .unwrap();
    assert_eq!(made.image, "registry.example/myteam/myapp:1");
}
