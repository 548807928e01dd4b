//! Everything that ends a run of the pipeline.

use vstd::prelude::*;

verus! {

/// Why a run of the pipeline ended without success.
#[derive(Debug, Clone)]
pub enum Error {
    /// No SDK knows the source tree.
    SDKNotDetected,
    /// The file system or the version control refused a question.
    FilesystemError(String),
    /// The configuration of the deploy is incomplete.
    ConfigIncomplete,
    ConfigParse(crate::config::file::Error),
    Config(crate::config::runtime::Error),
    Deploy(crate::deploy::Error),
    DockerTag(crate::docker::tag::Error),
    Docker(crate::docker::Error),
    DetectNaisYaml(crate::nais_yaml::Error),
    Google(crate::auth::Failure),
    SDKError(crate::sdk::Error),
}

/// An `Error` in the terms of contracts.
pub enum ErrorView {
    SDKNotDetected,
    FilesystemError(Seq<char>),
    ConfigIncomplete,
    ConfigParse(crate::config::file::ErrorView),
    Config(crate::config::runtime::Error),
    Deploy(crate::deploy::ErrorView),
    DockerTag(crate::docker::tag::ErrorView),
    Docker(crate::docker::ErrorView),
    DetectNaisYaml(crate::nais_yaml::ErrorView),
    Google(crate::auth::FailureView),
    SDKError(crate::sdk::ErrorView),
}

impl View for Error {
    type V = ErrorView;

    open spec fn view(&self) -> ErrorView {
        match self {
            Error::SDKNotDetected => ErrorView::SDKNotDetected,
            Error::FilesystemError(err) => ErrorView::FilesystemError(err@),
            Error::ConfigIncomplete => ErrorView::ConfigIncomplete,
            Error::ConfigParse(err) => ErrorView::ConfigParse(err@),
            Error::Config(err) => ErrorView::Config(*err),
            Error::Deploy(err) => ErrorView::Deploy(err@),
            Error::DockerTag(err) => ErrorView::DockerTag(err@),
            Error::Docker(err) => ErrorView::Docker(err@),
            Error::DetectNaisYaml(err) => ErrorView::DetectNaisYaml(err@),
            Error::Google(err) => ErrorView::Google(err@),
            Error::SDKError(err) => ErrorView::SDKError(err@),
        }
    }
}

impl ErrorView {
    /// The message shown to the operator.
    pub open spec fn message(self) -> Seq<char> {
        match self {
            ErrorView::SDKNotDetected => "no compatible SDKs for this source directory"@,
            ErrorView::FilesystemError(err) => "filesystem error: "@ + err,
            ErrorView::ConfigIncomplete => "configuration is incomplete"@,
            ErrorView::ConfigParse(err) => "configuration file: "@ + err.message(),
            ErrorView::Config(_) => "configuration: missing configuration"@,
            ErrorView::Deploy(err) => "deploy: "@ + err.message(),
            ErrorView::DockerTag(err) => "docker tag could not be generated: "@ + err.message(),
            ErrorView::Docker(err) => "docker error: "@ + err.message(),
            ErrorView::DetectNaisYaml(err) => "detect nais.yaml: "@ + err.message(),
            ErrorView::Google(err) => "google: "@ + err.message(),
            ErrorView::SDKError(err) => "build error: "@ + err.message(),
        }
    }
}

impl Error {
    /// The one message that is shown to the operator when a run has ended
    /// without success.
    pub fn to_string(&self) -> (r: String)
        ensures
            r@ == self@.message(),
    {
        match self {
            Error::SDKNotDetected => "no compatible SDKs for this source directory".to_owned(),
            Error::FilesystemError(err) => crate::text::join("filesystem error: ", err.as_str()),
            Error::ConfigIncomplete => "configuration is incomplete".to_owned(),
            Error::ConfigParse(err) => crate::text::join(
                "configuration file: ",
                err.to_string().as_str(),
            ),
            Error::Config(err) => {
                let text = err.to_string();
                let out = crate::text::join("configuration: ", text.as_str());
                proof {
                    reveal_strlit("configuration: ");
                    reveal_strlit("missing configuration");
                    reveal_strlit("configuration: missing configuration");
                    assert(out@ =~= "configuration: missing configuration"@);
                }
                out
            },
            Error::Deploy(err) => crate::text::join("deploy: ", err.to_string().as_str()),
            Error::DockerTag(err) => crate::text::join(
                "docker tag could not be generated: ",
                err.to_string().as_str(),
            ),
            Error::Docker(err) => crate::text::join("docker error: ", err.to_string().as_str()),
            Error::DetectNaisYaml(err) => crate::text::join(
                "detect nais.yaml: ",
                err.to_string().as_str(),
            ),
            Error::Google(err) => crate::text::join("google: ", err.to_string().as_str()),
            Error::SDKError(err) => crate::text::join("build error: ", err.to_string().as_str()),
        }
    }
}

} // verus!
