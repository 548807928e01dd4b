//! The structures of the `nb.toml` configuration file.

use crate::config::runtime::{
    BranchRule, ReleaseParams, ReleaseType, Sdk, SdkGolang, SdkGradle, SdkMaven, SdkRust,
};
use std::collections::HashMap;
use vstd::prelude::*;

verus! {

/// Why a configuration file could not be used.
#[derive(Debug, Clone)]
pub enum Error {
    /// The file could not be read.
    ReadConfig { err: String, filename: String },
    /// The file does not hold a configuration.
    ParseConfig { err: String, filename: String },
    /// The file could not be merged with the built-in configuration.
    Serialization(String),
}

/// An `Error` in the terms of contracts.
pub enum ErrorView {
    ReadConfig { err: Seq<char>, filename: Seq<char> },
    ParseConfig { err: Seq<char>, filename: Seq<char> },
    Serialization(Seq<char>),
}

impl View for Error {
    type V = ErrorView;

    open spec fn view(&self) -> ErrorView {
        match self {
            Error::ReadConfig { err, filename } => ErrorView::ReadConfig {
                err: err@,
                filename: filename@,
            },
            Error::ParseConfig { err, filename } => ErrorView::ParseConfig {
                err: err@,
                filename: filename@,
            },
            Error::Serialization(err) => ErrorView::Serialization(err@),
        }
    }
}

/// A `nb.toml` file.
#[derive(Debug, Clone)]
pub struct File {
    pub description: Option<String>,
    pub team: Option<String>,
    pub branch: HashMap<String, BranchRule>,
    pub sdk: Option<Sdk>,
    pub release: Option<Release>,
}

/// The name of the configuration file in the root of a source tree.
pub const DEFAULT_CONFIG_FILE: &'static str = "nb.toml";

/// The path of the configuration file in the root of a source tree.
pub open spec fn default_path(source_directory: Seq<char>) -> Seq<char> {
    source_directory + seq!['/'] + DEFAULT_CONFIG_FILE@
}

/// The path of the configuration file in the root of a source tree.
pub fn default_config_path(source_directory: &str) -> (r: String)
    ensures
        r@ == default_path(source_directory@),
{
    proof {
        reveal_strlit("/");
        assert("/"@ =~= seq!['/']);
    }
    let mut path = source_directory.to_owned();
    path.append("/");
    path.append(DEFAULT_CONFIG_FILE);
    path
}

/// The configuration file that is read: the one that the operator named,
/// or else the one in the root of the source tree, where that is a file.
/// Without either, the built-in configuration stands alone.
pub open spec fn chosen(
    source_directory: Seq<char>,
    named: Option<Seq<char>>,
    default_is_file: bool,
) -> Option<Seq<char>> {
    match named {
        Some(path) => Some(path),
        None => if default_is_file {
            Some(default_path(source_directory))
        } else {
            None
        },
    }
}

/// The path of the configuration file that is read, if one is.
pub fn config_file(source_directory: &str, named: &Option<String>, default_is_file: bool) -> (r:
    Option<String>)
    ensures
        crate::text::optional(r) == chosen(
            source_directory@,
            crate::text::optional(*named),
            default_is_file,
        ),
{
    match named {
        Some(path) => Some(path.clone()),
        None => {
            if default_is_file {
                Some(default_config_path(source_directory))
            } else {
                None
            }
        },
    }
}

/// The description of the built-in configuration.
pub const DEFAULT_DESCRIPTION: &'static str = "Default configuration file";

/// The registry of the built-in configuration for Google Artifact Registry.
pub const DEFAULT_GAR_REGISTRY: &'static str = "europe-north1-docker.pkg.dev/nais-io/nais/images";

/// The registry of the built-in configuration for GitHub Container Registry.
pub const DEFAULT_GHCR_REGISTRY: &'static str = "ghcr.io";

/// The image that Go projects are built in, in the built-in configuration.
pub const DEFAULT_GO_BUILD_IMAGE: &'static str = "library/golang:1-alpine";

/// The image that Rust projects are built in, in the built-in
/// configuration.
pub const DEFAULT_RUST_BUILD_IMAGE: &'static str = "library/rust:1-alpine";

/// The image that Gradle projects are built in, in the built-in
/// configuration.
pub const DEFAULT_GRADLE_BUILD_IMAGE: &'static str = "library/gradle:8-jdk21";

/// The image that Maven projects are built in, in the built-in
/// configuration.
pub const DEFAULT_MAVEN_BUILD_IMAGE: &'static str = "library/maven:3-eclipse-temurin-21";

/// The image that native binaries run in, in the built-in configuration.
pub const DEFAULT_STATIC_RUNTIME_IMAGE: &'static str = "gcr.io/distroless/static-debian12:nonroot";

/// The image that Java archives run in, in the built-in configuration.
pub const DEFAULT_JAVA_RUNTIME_IMAGE: &'static str = "gcr.io/distroless/java21-debian12:nonroot";

impl Default for File {
    /// The built-in configuration: images for every SDK, and a release to
    /// Google Artifact Registry.
    fn default() -> (r: File)
        ensures
            r.description is Some && r.description->0@ == DEFAULT_DESCRIPTION@,
            r.team is None,
            r.branch@.len() == 0,
            r.sdk is Some,
            r.sdk->0.go.build_docker_image@ == DEFAULT_GO_BUILD_IMAGE@,
            r.sdk->0.go.runtime_docker_image@ == DEFAULT_STATIC_RUNTIME_IMAGE@,
            r.sdk->0.rust.build_docker_image@ == DEFAULT_RUST_BUILD_IMAGE@,
            r.sdk->0.rust.runtime_docker_image@ == DEFAULT_STATIC_RUNTIME_IMAGE@,
            r.sdk->0.gradle.build_docker_image@ == DEFAULT_GRADLE_BUILD_IMAGE@,
            r.sdk->0.gradle.runtime_docker_image@ == DEFAULT_JAVA_RUNTIME_IMAGE@,
            r.sdk->0.gradle.settings_file is None,
            r.sdk->0.maven.build_docker_image@ == DEFAULT_MAVEN_BUILD_IMAGE@,
            r.sdk->0.maven.runtime_docker_image@ == DEFAULT_JAVA_RUNTIME_IMAGE@,
            r.release is Some,
            r.release->0.typ == ReleaseType::GAR,
            r.release->0.gar.registry@ == DEFAULT_GAR_REGISTRY@,
            r.release->0.ghcr.registry@ == DEFAULT_GHCR_REGISTRY@,
    {
        File {
            description: Some(DEFAULT_DESCRIPTION.to_owned()),
            team: None,
            branch: HashMap::new(),
            sdk: Some(
                Sdk {
                    go: SdkGolang {
                        build_docker_image: DEFAULT_GO_BUILD_IMAGE.to_owned(),
                        runtime_docker_image: DEFAULT_STATIC_RUNTIME_IMAGE.to_owned(),
                    },
                    rust: SdkRust {
                        build_docker_image: DEFAULT_RUST_BUILD_IMAGE.to_owned(),
                        runtime_docker_image: DEFAULT_STATIC_RUNTIME_IMAGE.to_owned(),
                    },
                    gradle: SdkGradle {
                        build_docker_image: DEFAULT_GRADLE_BUILD_IMAGE.to_owned(),
                        runtime_docker_image: DEFAULT_JAVA_RUNTIME_IMAGE.to_owned(),
                        settings_file: None,
                    },
                    maven: SdkMaven {
                        build_docker_image: DEFAULT_MAVEN_BUILD_IMAGE.to_owned(),
                        runtime_docker_image: DEFAULT_JAVA_RUNTIME_IMAGE.to_owned(),
                    },
                },
            ),
            release: Some(
                Release {
                    typ: ReleaseType::GAR,
                    ghcr: ReleaseParams { registry: DEFAULT_GHCR_REGISTRY.to_owned() },
                    gar: ReleaseParams { registry: DEFAULT_GAR_REGISTRY.to_owned() },
                },
            ),
        }
    }
}

/// The release section: the target in use, and the parameters of each.
#[derive(Debug, Clone)]
pub struct Release {
    pub typ: ReleaseType,
    pub ghcr: ReleaseParams,
    pub gar: ReleaseParams,
}

impl Release {
    /// The parameters of the release target in use.
    pub open spec fn selected(&self) -> ReleaseParams {
        match self.typ {
            ReleaseType::GAR => self.gar,
            ReleaseType::GHCR => self.ghcr,
        }
    }

    /// The parameters of the release target in use.
    pub fn params_for_type(&self) -> (r: ReleaseParams)
        ensures
            r.registry@ == self.selected().registry@,
    {
        match self.typ {
            ReleaseType::GAR => ReleaseParams { registry: self.gar.registry.clone() },
            ReleaseType::GHCR => ReleaseParams { registry: self.ghcr.registry.clone() },
        }
    }
}

impl ErrorView {
    /// The message shown to the operator.
    pub open spec fn message(self) -> Seq<char> {
        match self {
            ErrorView::ReadConfig { err, filename } => "read \""@ + filename + "\": "@ + err,
            ErrorView::ParseConfig { err, filename } => "parse \""@ + filename + "\": "@ + err,
            ErrorView::Serialization(err) => err,
        }
    }
}

impl Error {
    /// The message shown to the operator.
    pub fn to_string(&self) -> (r: String)
        ensures
            r@ == self@.message(),
    {
        match self {
            Error::ReadConfig { err, filename } => {
                let mut out = "read \"".to_owned();
                out.append(filename.as_str());
                out.append("\": ");
                out.append(err.as_str());
                out
            },
            Error::ParseConfig { err, filename } => {
                let mut out = "parse \"".to_owned();
                out.append(filename.as_str());
                out.append("\": ");
                out.append(err.as_str());
                out
            },
            Error::Serialization(err) => err.clone(),
        }
    }
}

} // verus!
