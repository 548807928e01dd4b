//! What an image build is described by.

use std::collections::HashMap;
use vstd::prelude::*;

verus! {

/// The user and the group that applications run as.
pub const NAIS_DEFAULT_UID_GID: usize = 1069;

/// UID/username combination inside a POSIX environment.
#[derive(Debug, Clone)]
pub struct PosixUser {
    pub uid: usize,
    pub name: String,
}

impl Default for PosixUser {
    fn default() -> (r: PosixUser)
        ensures
            r.uid == NAIS_DEFAULT_UID_GID,
            r.name@ == "nobody"@,
    {
        PosixUser { uid: NAIS_DEFAULT_UID_GID, name: "nobody".to_owned() }
    }
}

/// GID/groupname combination inside a POSIX environment.
#[derive(Debug, Clone)]
pub struct PosixGroup {
    pub gid: usize,
    pub name: String,
}

impl Default for PosixGroup {
    fn default() -> (r: PosixGroup)
        ensures
            r.gid == NAIS_DEFAULT_UID_GID,
            r.name@ == "nogroup"@,
    {
        PosixGroup { gid: NAIS_DEFAULT_UID_GID, name: "nogroup".to_owned() }
    }
}

/// Reference to a docker image
#[derive(Debug, PartialEq)]
pub struct DockerImage(pub String);

/// How one target is built into an image.
pub struct DockerBuildParams {
    /// Docker image for building the application.
    pub builder_image: DockerImage,
    /// Which image to use as output base image.
    pub base_image: DockerImage,
    /// How to name the output Docker image.
    pub output_image: DockerImage,
    /// Run the following build script inside the build container.
    pub build_script: String,
    /// Which user to set up as the application owner inside the image.
    /// The application will be run as this user.
    pub user: PosixUser,
    /// Which group to set up as the application owner inside the image.
    /// The application will be run as this group.
    pub group: PosixGroup,
    /// Files to copy into the build container.
    pub input_files: Vec<String>,
    /// Files to copy from the build container to the application image,
    /// once the build script has been run to completion.
    pub output_files: HashMap<String, String>,
    /// Default values for environment variables.
    pub env_vars: HashMap<String, String>,
}

/// Anything that can say how one of its targets is built.
pub trait DockerBuilder {
    /// How `target` is built.
    fn build_params(&self, target: &str) -> DockerBuildParams;
}

} // verus!
