use nais_build::config::runtime::{Release, ReleaseParams, ReleaseType};
use nais_build::docker::name::{Config, GitHubContainerRegistry, GoogleArtifactRegistry};

fn configuration() -> Config {
    Config {
        registry: "path/to/registry".to_string(),
        team: "mynamespace".to_string(),
        app: "myapplication".to_string(),
        tag: "1-foo".to_string(),
    }
}

#[test]
fn gar_release() {
    assert_eq!(
        GoogleArtifactRegistry(configuration()).to_string(),
        "path/to/registry/mynamespace/myapplication:1-foo".to_string()
    );
}

#[test]
fn ghcr_release() {
    assert_eq!(
        GitHubContainerRegistry(configuration()).to_string(),
        "path/to/registry/myapplication:1-foo".to_string()
    );
}

fn parts(registry: &str, team: &str, app: &str, tag: &str) -> Config {
    Config {
        registry: registry.to_string(),
        team: team.to_string(),
        app: app.to_string(),
        tag: tag.to_string(),
    }
}

#[test]
fn gar_names_hold_the_team() {
    assert_eq!(GoogleArtifactRegistry(parts("r", "t", "a", "1")).to_string(), "r/t/a:1");
}

#[test]
fn ghcr_names_leave_the_team_out() {
    assert_eq!(GitHubContainerRegistry(parts("r", "t", "a", "1")).to_string(), "r/a:1");
    assert_eq!(
        GitHubContainerRegistry(parts("r", "t", "a", "1")).to_string(),
        GitHubContainerRegistry(parts("r", "another", "a", "1")).to_string()
    );
}

#[test]
fn names_are_the_same_for_the_same_parts() {
    let first = GoogleArtifactRegistry(parts("r", "t", "a", "1")).to_string();
    let second = GoogleArtifactRegistry(parts("r", "t", "a", "1")).to_string();
    assert_eq!(first, second);
}

#[test]
fn name_builder_follows_the_release_type() {
    let gar = Release {
        typ: ReleaseType::GAR,
        params: ReleaseParams { registry: "r".to_string() },
    };
    let ghcr = Release {
        typ: ReleaseType::GHCR,
        params: ReleaseParams { registry: "r".to_string() },
    };
    assert_eq!(gar.docker_name_builder(parts("r", "t", "a", "1")).to_string(), "r/t/a:1");
    assert_eq!(ghcr.docker_name_builder(parts("r", "t", "a", "1")).to_string(), "r/a:1");
}

#[test]
fn parts_without_application_or_tag_cannot_be_named() {
    assert!(parts("r", "t", "a", "1").is_nameable());
    assert!(parts("", "", "a", "1").is_nameable());
    assert!(!parts("r", "t", "", "1").is_nameable());
    assert!(!parts("r", "t", "a", "").is_nameable());
}
