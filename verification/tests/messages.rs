use nais_build::deploy::DeployServer;
use nais_build::error::Error;
use nais_build::process::ExitStatus;
use nais_build::text::{join, to_signed_decimal};
use nais_build::{auth, config, deploy, docker, google, nais_yaml, sdk};

fn status(code: i32) -> ExitStatus {
    ExitStatus { code: Some(code), signal: None }
}

#[test]
fn whole_numbers_are_written_with_their_sign() {
    assert_eq!(to_signed_decimal(0), "0");
    assert_eq!(to_signed_decimal(17), "17");
    assert_eq!(to_signed_decimal(-1), "-1");
    assert_eq!(to_signed_decimal(i32::MAX), "2147483647");
    assert_eq!(to_signed_decimal(i32::MIN), "-2147483648");
    assert_eq!(join("a", "b"), "ab");
    assert_eq!(join("", ""), "");
}

#[test]
fn exit_status_messages() {
    assert_eq!(status(1).to_string(), "exit status: 1");
    assert_eq!(status(0).to_string(), "exit status: 0");
    assert_eq!(status(-7).to_string(), "exit status: -7");
    assert_eq!(ExitStatus { code: None, signal: None }.to_string(), "signal");
    assert_eq!(ExitStatus { code: None, signal: Some(9) }.to_string(), "signal: 9");
}

#[test]
fn sdk_messages() {
    let err = sdk::DetectBuildTargetError::FilesystemError("denied".to_string());
    assert_eq!(err.to_string(), "filesystem error: denied");
    let err = sdk::DetectBuildTargetError::FileError("denied".to_string(), "./cmd".to_string());
    assert_eq!(err.to_string(), "can't find ./cmd: denied ");
    let err = sdk::DetectBuildTargetError::EmptyFilename;
    assert_eq!(err.to_string(), "target name is empty");
    let err = sdk::Error::DetectBuildTargetError(sdk::DetectBuildTargetError::EmptyFilename);
    assert_eq!(err.to_string(), "detect build target: target name is empty");
}

#[test]
fn docker_messages() {
    assert_eq!(
        docker::Error::Build(status(1)).to_string(),
        "docker build failed with exit code exit status: 1"
    );
    assert_eq!(
        docker::Error::Login(status(2)).to_string(),
        "docker login failed with exit code exit status: 2"
    );
    assert_eq!(
        docker::Error::Logout(status(3)).to_string(),
        "docker logout failed with exit code exit status: 3"
    );
    assert_eq!(
        docker::Error::Push(status(4)).to_string(),
        "docker push failed with exit code exit status: 4"
    );
    assert_eq!(docker::Error::IOError("not found".to_string()).to_string(), "not found");
    let generate = docker::Error::Generate(sdk::Error::DetectBuildTargetError(
        sdk::DetectBuildTargetError::EmptyFilename,
    ));
    assert_eq!(
        generate.to_string(),
        "dockerfile generation failed: detect build target: target name is empty"
    );
    assert_eq!(
        docker::tag::Error::FailedExecute("not found".to_string()).to_string(),
        "failed to execute Git: not found"
    );
    assert_eq!(
        docker::tag::Error::ParseGitShortSha("invalid utf-8".to_string()).to_string(),
        "failed to parse Git short SHA: invalid utf-8"
    );
}

#[test]
fn deploy_messages() {
    assert_eq!(
        deploy::Error::Deploy(status(1)).to_string(),
        "deploy client exited with code exit status: 1"
    );
    assert_eq!(deploy::Error::IOError("not found".to_string()).to_string(), "not found");
    assert_eq!(
        DeployServer { tenant: "nav".to_string() }.to_string(),
        "https://deploy.nav.cloud.nais.io"
    );
}

#[test]
fn manifest_messages() {
    assert_eq!(nais_yaml::Error::NaisYamlNotFound.to_string(), "no suitable file found");
    assert_eq!(
        nais_yaml::Error::FileSystem("denied".to_string()).to_string(),
        "scan file system: denied"
    );
    let err = nais_yaml::Error::ReadFile { err: "denied".to_string(), path: "./nais.yaml".to_string() };
    assert_eq!(err.to_string(), "read ./nais.yaml: denied");
    assert_eq!(
        nais_yaml::Error::Deserialize("missing field".to_string()).to_string(),
        "deserialize: missing field"
    );
}

#[test]
fn configuration_messages() {
    let err = config::file::Error::ReadConfig {
        err: "denied".to_string(),
        filename: "nb.toml".to_string(),
    };
    assert_eq!(err.to_string(), "read \"nb.toml\": denied");
    let err = config::file::Error::ParseConfig {
        err: "expected `=`".to_string(),
        filename: "nb.toml".to_string(),
    };
    assert_eq!(err.to_string(), "parse \"nb.toml\": expected `=`");
    assert_eq!(config::file::Error::Serialization("oops".to_string()).to_string(), "oops");
}

#[test]
fn token_messages() {
    assert_eq!(auth::Error::AuthError("x".to_string()).to_string(), "auth error: x");
    assert_eq!(auth::Error::AuthTokenError("x".to_string()).to_string(), "auth token error: x");
    assert_eq!(auth::Error::Reqwest("x".to_string()).to_string(), "reqwest: x");
    assert_eq!(
        auth::Error::Deserialize(502, "<html>".to_string()).to_string(),
        "code: 502, body: <html>"
    );
    assert_eq!(auth::Error::Status(403, "no".to_string()).to_string(), "code: 403, body: no");
    assert_eq!(google::Error::AuthError("x".to_string()).to_string(), "auth error: x");
    assert_eq!(google::Error::AuthTokenError("x".to_string()).to_string(), "auth token error: x");
    assert_eq!(google::Error::Reqwest("x".to_string()).to_string(), "reqwest: x");
}

#[test]
fn fatal_messages() {
    assert_eq!(Error::SDKNotDetected.to_string(), "no compatible SDKs for this source directory");
    assert_eq!(Error::FilesystemError("denied".to_string()).to_string(), "filesystem error: denied");
    assert_eq!(Error::ConfigIncomplete.to_string(), "configuration is incomplete");
    assert_eq!(
        Error::ConfigParse(config::file::Error::Serialization("oops".to_string())).to_string(),
        "configuration file: oops"
    );
    assert_eq!(
        Error::Config(config::runtime::Error::MissingConfig).to_string(),
        "configuration: missing configuration"
    );
    assert_eq!(
        Error::Deploy(deploy::Error::Deploy(status(1))).to_string(),
        "deploy: deploy client exited with code exit status: 1"
    );
    assert_eq!(
        Error::DockerTag(docker::tag::Error::FailedExecute("x".to_string())).to_string(),
        "docker tag could not be generated: failed to execute Git: x"
    );
    assert_eq!(
        Error::Docker(docker::Error::Push(status(1))).to_string(),
        "docker error: docker push failed with exit code exit status: 1"
    );
    assert_eq!(
        Error::DetectNaisYaml(nais_yaml::Error::NaisYamlNotFound).to_string(),
        "detect nais.yaml: no suitable file found"
    );
    let failure = auth::Failure {
        endpoint: Some("https://sts.googleapis.com/v1/token".to_string()),
        error: auth::Error::Deserialize(200, "not json".to_string()),
    };
    assert_eq!(
        failure.to_string(),
        "code: 200, body: not json (endpoint: https://sts.googleapis.com/v1/token)"
    );
    assert_eq!(
        Error::Google(failure).to_string(),
        "google: code: 200, body: not json (endpoint: https://sts.googleapis.com/v1/token)"
    );
    let failure =
        auth::Failure { endpoint: None, error: auth::Error::AuthError("none".to_string()) };
    assert_eq!(Error::Google(failure).to_string(), "google: auth error: none");
    assert_eq!(
        Error::SDKError(sdk::Error::DetectBuildTargetError(
            sdk::DetectBuildTargetError::EmptyFilename
        ))
        .to_string(),
        "build error: detect build target: target name is empty"
    );
}
