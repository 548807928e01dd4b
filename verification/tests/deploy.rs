use nais_build::deploy::{deploy, deploy_command, Config, Error};
use nais_build::process::{ExitStatus, Outcome};

#[test]
fn deploy_config_needs_key_and_server() {
    assert!(Config::try_new_from_env(None, None).is_none());
    assert!(Config::try_new_from_env(Some("key".to_string()), None).is_none());
    assert!(Config::try_new_from_env(None, Some("server:443".to_string())).is_none());
    let cfg =
        Config::try_new_from_env(Some("key".to_string()), Some("server:443".to_string())).unwrap();
    assert_eq!(cfg.apikey, "key");
    assert_eq!(cfg.deploy_server, "server:443");
    assert!(cfg.wait);
    assert_eq!(cfg.cluster, "");
    assert_eq!(cfg.owner, "");
    assert_eq!(cfg.git_ref, "");
    assert_eq!(cfg.repository, "");
    assert!(cfg.resource.is_empty());
    assert!(cfg.var.is_empty());
    assert_eq!(cfg.vars, "");
}

#[test]
fn default_deploy_config_is_empty() {
    let cfg = Config::default();
    assert_eq!(cfg.apikey, "");
    assert_eq!(cfg.deploy_server, "");
    assert!(!cfg.wait);
    assert!(cfg.resource.is_empty());
    assert!(cfg.var.is_empty());
}

#[test]
fn deploy_command_lists_resources_variables_and_options() {
    let cfg = Config {
        apikey: "key".to_string(),
        cluster: "dev-gcp".to_string(),
        deploy_server: "server:443".to_string(),
        owner: "navikt".to_string(),
        git_ref: "abcdef".to_string(),
        repository: "myapp".to_string(),
        resource: vec!["nais.yaml".to_string(), "alerts.yaml".to_string()],
        var: vec!["image=r/t/a:1".to_string(), "x=y".to_string()],
        vars: "vars.yaml".to_string(),
        wait: true,
    };
    let invocation = deploy_command(&cfg);
    assert_eq!(invocation.program, "deploy");
    assert_eq!(invocation.stdin, None);
    let arguments: Vec<&str> = invocation.arguments.iter().map(|s| s.as_str()).collect();
    assert_eq!(
        arguments,
        vec![
            "--resource",
            "nais.yaml",
            "--resource",
            "alerts.yaml",
            "--var",
            "image=r/t/a:1",
            "--var",
            "x=y",
            "--apikey",
            "key",
            "--cluster",
            "dev-gcp",
            "--deploy-server",
            "server:443",
            "--owner",
            "navikt",
            "--ref",
            "abcdef",
            "--repository",
            "myapp",
            "--vars",
            "vars.yaml",
            "--wait",
            "true",
        ]
    );
}

#[test]
fn deploy_command_without_resources() {
    let invocation = deploy_command(&Config::default());
    let arguments: Vec<&str> = invocation.arguments.iter().map(|s| s.as_str()).collect();
    assert_eq!(
        arguments,
        vec![
            "--apikey",
            "",
            "--cluster",
            "",
            "--deploy-server",
            "",
            "--owner",
            "",
            "--ref",
            "",
            "--repository",
            "",
            "--vars",
            "",
            "--wait",
            "false",
        ]
    );
}

#[test]
fn a_failed_deploy_reports_its_exit_status() {
    assert!(deploy(&Outcome::Exited(ExitStatus { code: Some(0), signal: None })).is_ok());
    assert!(matches!(
        deploy(&Outcome::Exited(ExitStatus { code: Some(7), signal: None })),
        Err(Error::Deploy(ExitStatus { code: Some(7), signal: None }))
    ));
    match deploy(&Outcome::Failed("not found".to_string())) {
        Err(Error::IOError(err)) => assert_eq!(err, "not found"),
        _ => panic!("the failure to run was lost"),
    }
}
