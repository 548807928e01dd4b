//! Builders that describe an image build target by target.

use crate::oci::{DockerBuildParams, DockerBuilder, DockerImage, PosixGroup, PosixUser};
use crate::sdk::Version;
use crate::text::decimal;
use std::collections::HashMap;
use vstd::prelude::*;

verus! {

/// A builder that can build Rust programs.
pub struct Rust {
    pub version: Version,
}

/// The tag of the builder image of a version of Rust.
pub open spec fn builder_tag(version: Version) -> Seq<char> {
    match version {
        Version::Latest => "alpine"@,
        Version::Major(major) => decimal(major as nat) + "-alpine"@,
        Version::Exact(exact) => exact@ + "-alpine"@,
    }
}

/// The command that builds the binary `target`.
pub open spec fn build_script(target: Seq<char>) -> Seq<char> {
    "cargo build --release --bin "@ + target
}

impl Rust {
    /// A builder for a version of Rust.
    pub fn new(version: Version) -> (r: Rust)
        ensures
            r.version == version,
    {
        Rust { version }
    }

    /// The image that Rust programs are built in.
    pub fn docker_builder_image(&self) -> (r: DockerImage)
        ensures
            r.0@ == "library/rust:"@ + builder_tag(self.version),
    {
        let mut image = "library/rust:".to_owned();
        match &self.version {
            Version::Latest => {
                image.append("alpine");
            },
            Version::Major(major) => {
                image.append(crate::text::to_decimal(*major).as_str());
                image.append("-alpine");
            },
            Version::Exact(exact) => {
                image.append(exact.as_str());
                image.append("-alpine");
            },
        }
        assert(image@ =~= "library/rust:"@ + builder_tag(self.version));
        DockerImage(image)
    }
}

impl Default for Rust {
    fn default() -> (r: Rust)
        ensures
            r.version is Latest,
    {
        Rust { version: Version::Latest }
    }
}

impl DockerBuilder for Rust {
    /// How the binary `target` is built: in the builder image of the
    /// version, onto a small base image, for the default user and group,
    /// with no files and no variables.
    fn build_params(&self, target: &str) -> (r: DockerBuildParams)
        ensures
            r.builder_image.0@ == "library/rust:"@ + builder_tag(self.version),
            r.base_image.0@ == "library/alpine:3"@,
            r.output_image.0@ == "output/image:tag"@,
            r.build_script@ == build_script(target@),
            r.user.uid == crate::oci::NAIS_DEFAULT_UID_GID,
            r.user.name@ == "nobody"@,
            r.group.gid == crate::oci::NAIS_DEFAULT_UID_GID,
            r.group.name@ == "nogroup"@,
            r.input_files@.len() == 0,
            r.output_files@.len() == 0,
            r.env_vars@.len() == 0,
    {
        let mut script = "cargo build --release --bin ".to_owned();
        script.append(target);
        DockerBuildParams {
            builder_image: self.docker_builder_image(),
            base_image: DockerImage("library/alpine:3".to_owned()),
            output_image: DockerImage("output/image:tag".to_owned()),
            build_script: script,
            user: PosixUser::default(),
            group: PosixGroup::default(),
            input_files: Vec::new(),
            output_files: HashMap::new(),
            env_vars: HashMap::new(),
        }
    }
}

} // verus!
