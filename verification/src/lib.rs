//! Build, release and deploy orchestration for containerised applications:
//! SDK detection, Dockerfile generation, image naming, registry
//! authentication and the stage ordering of the pipeline.

pub mod auth;
pub mod builder;
pub mod config;
pub mod deploy;
pub mod docker;
pub mod error;
pub mod git;
pub mod google;
pub mod nais_yaml;
pub mod oci;
pub mod pipeline;
pub mod process;
pub mod sdk;
pub mod text;
pub mod tree;
