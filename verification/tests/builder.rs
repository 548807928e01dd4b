use nais_build::builder::Rust;
use nais_build::oci::{DockerBuilder, DockerImage};
use nais_build::sdk::Version;

#[test]
fn rust_docker_images() {
    assert_eq!(
        Rust::new(Version::Latest).docker_builder_image(),
        DockerImage("library/rust:alpine".to_string())
    );
    assert_eq!(
        Rust::new(Version::Major(1)).docker_builder_image(),
        DockerImage("library/rust:1-alpine".to_string())
    );
    assert_eq!(
        Rust::new(Version::Exact("1.80".into())).docker_builder_image(),
        DockerImage("library/rust:1.80-alpine".to_string())
    );
}

#[test]
fn rust_major_versions_are_written_in_decimal() {
    assert_eq!(
        Rust::new(Version::Major(0)).docker_builder_image(),
        DockerImage("library/rust:0-alpine".to_string())
    );
    assert_eq!(
        Rust::new(Version::Major(1234567890)).docker_builder_image(),
        DockerImage("library/rust:1234567890-alpine".to_string())
    );
    assert_eq!(
        Rust::new(Version::Major(u64::MAX)).docker_builder_image(),
        DockerImage("library/rust:18446744073709551615-alpine".to_string())
    );
}

#[test]
fn rust_default_builds_with_the_latest_version() {
    assert_eq!(
        Rust::default().docker_builder_image(),
        DockerImage("library/rust:alpine".to_string())
    );
}

#[test]
fn rust_build_params_describe_one_target() {
    let params = Rust::new(Version::Major(1)).build_params("server");
    assert_eq!(params.builder_image, DockerImage("library/rust:1-alpine".to_string()));
    assert_eq!(params.base_image, DockerImage("library/alpine:3".to_string()));
    assert_eq!(params.output_image, DockerImage("output/image:tag".to_string()));
    assert_eq!(params.build_script, "cargo build --release --bin server");
    assert_eq!(params.user.uid, 1069);
    assert_eq!(params.user.name, "nobody");
    assert_eq!(params.group.gid, 1069);
    assert_eq!(params.group.name, "nogroup");
    assert!(params.input_files.is_empty());
    assert!(params.output_files.is_empty());
    assert!(params.env_vars.is_empty());
}
