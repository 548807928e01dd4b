//! The configuration that a pipeline run works with.

use crate::config::file::File;
use crate::docker::name::Name;
use crate::nais_yaml::NaisYaml;
use vstd::prelude::*;

verus! {

/// What happens to the artifacts built from one branch.
#[derive(Debug, Clone)]
pub struct BranchRule {
    pub output: String,
    pub deploy: BranchDeployRule,
}

/// Where a branch is deployed to.
#[derive(Debug, Clone)]
pub struct BranchDeployRule {
    pub environments: Vec<String>,
    pub parallel: bool,
}

/// The images of every supported SDK.
#[derive(Debug, Clone)]
pub struct Sdk {
    pub go: SdkGolang,
    pub rust: SdkRust,
    pub gradle: SdkGradle,
    pub maven: SdkMaven,
}

/// The images of Go projects.
#[derive(Debug, Clone)]
pub struct SdkGolang {
    pub build_docker_image: String,
    pub runtime_docker_image: String,
}

/// The images of Rust projects.
#[derive(Debug, Clone)]
pub struct SdkRust {
    pub build_docker_image: String,
    pub runtime_docker_image: String,
}

/// The images of Gradle projects, and the settings file they are built
/// with, if any.
#[derive(Debug, Clone)]
pub struct SdkGradle {
    pub build_docker_image: String,
    pub runtime_docker_image: String,
    pub settings_file: Option<String>,
}

/// The images of Maven projects.
#[derive(Debug, Clone)]
pub struct SdkMaven {
    pub build_docker_image: String,
    pub runtime_docker_image: String,
}

/// What is built, and with which SDK.
#[derive(Debug, Clone)]
pub struct Build {
    pub typ: String,
    pub sdk: String,
    pub docker: Docker,
}

/// How the image of a build is named.
#[derive(Debug, Clone)]
pub struct Docker {
    pub image_name: String,
    pub image_tag: String,
}

/// The parameters of one release target.
#[derive(Debug, Clone)]
pub struct ReleaseParams {
    pub registry: String,
}

/// The registry convention that images are released under.
#[derive(Debug, Clone, Copy, PartialEq, Eq, Structural)]
pub enum ReleaseType {
    /// Google Artifact Registry
    GAR,
    /// GitHub Container Registry
    GHCR,
}

/// The one release target of a run, with its parameters.
#[derive(Debug, Clone)]
pub struct Release {
    pub typ: ReleaseType,
    pub params: ReleaseParams,
}

impl Release {
    /// The image name formatter of this release target, over `config`.
    pub fn docker_name_builder(&self, config: crate::docker::name::Config) -> (r: Name)
        ensures
            r == Name::of(self.typ, config),
    {
        match self.typ {
            ReleaseType::GAR => Name::GoogleArtifactRegistry(
                crate::docker::name::GoogleArtifactRegistry(config),
            ),
            ReleaseType::GHCR => Name::GitHubContainerRegistry(
                crate::docker::name::GitHubContainerRegistry(config),
            ),
        }
    }
}

/// The essentials of a run: what is built, for whom, and where it goes.
#[derive(Debug, Clone)]
pub struct Config {
    pub app: String,
    pub team: String,
    pub release: Release,
}

/// Why the essentials of a run could not be extracted.
#[derive(Debug, Clone, Copy, PartialEq, Eq, Structural)]
pub enum Error {
    /// The configuration file names no release target.
    MissingConfig,
}

impl Error {
    /// The message shown to the operator.
    pub fn to_string(&self) -> (r: String)
        ensures
            r@ == "missing configuration"@,
    {
        "missing configuration".to_owned()
    }
}

impl Config {
    /// Extracts the essentials from the configuration file and the
    /// deployment manifest. The team of the configuration file, where it
    /// names one, wins over the namespace of the manifest.
    pub fn new(cfg: &File, nais_yaml: NaisYaml) -> (r: Result<Config, Error>)
        ensures
            cfg.release is None <==> r is Err,
            r is Err ==> r->Err_0 == Error::MissingConfig,
            r is Ok ==> {
                let c = r->Ok_0;
                let release = cfg.release->0;
                &&& c.app@ == nais_yaml.app@
                &&& c.team@ == (match cfg.team {
                    Some(team) => team@,
                    None => nais_yaml.team@,
                })
                &&& c.release.typ == release.typ
                &&& c.release.params.registry@ == release.selected().registry@
            },
    {
        let release = match &cfg.release {
            Some(release) => release,
            None => return Err(Error::MissingConfig),
        };
        let release_params = release.params_for_type();
        let team = match &cfg.team {
            Some(team) => team.clone(),
            None => nais_yaml.team,
        };
        Ok(
            Config {
                app: nais_yaml.app,
                team,
                release: Release { typ: release.typ, params: release_params },
            },
        )
    }
}

} // verus!
