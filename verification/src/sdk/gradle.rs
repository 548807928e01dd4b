//! Java and Kotlin projects that are built with the Gradle wrapper.

use crate::sdk::{
    command_block, is_script, is_targets, DetectBuildTargetError, DetectBuildTargetErrorView,
    DockerFileBuilder, Error, ErrorView,
};
use crate::text::{optional, views};
use crate::tree::Probe;
use vstd::prelude::*;

verus! {

/// The file whose presence in the root marks a Gradle project.
pub const MARKER: &'static str = "gradlew";

/// The Dockerfile up to the name of the builder image.
pub const DOCKERFILE_HEAD: &'static str = "\n# Dockerfile generated by NAIS build (version) at (timestamp)\n\n#\n# Builder image\n#\nFROM ";

/// The Dockerfile between the builder image and the build commands.
pub const DOCKERFILE_BUILD: &'static str = " AS builder\n\nWORKDIR /src\nCOPY . /src\n\n# Build all binaries found in /src/src/main/\n";

/// The Dockerfile between the build commands and the name of the runtime
/// image.
pub const DOCKERFILE_RUNTIME: &'static str = "\n\n# End hook is run after build\n#RUN ___end_hook\n\n#\n# Runtime image\n#\nFROM ";

/// The Dockerfile between the runtime image and the copy commands.
pub const DOCKERFILE_COPY: &'static str = "\n\n# TODO: Find out what this opts really does, what is the default?\nENV JAVA_OPTS='-XX:MaxRAMPercentage=90'\n\n";

/// The end of the Dockerfile: what the image runs.
pub const DOCKERFILE_TAIL: &'static str = "\n\nCMD [\"java\", \"-jar\", \"/app/app.jar\"]\n";

/// The command that copies the archive into the runtime image.
pub const COPY_COMMAND: &'static str = "COPY --from=builder /src/build/libs/app-all.jar /app/app.jar";

/// What a Gradle build is configured with.
#[derive(Debug, Clone)]
pub struct Config {
    pub filesystem_path: String,
    pub docker_builder_image: String,
    pub docker_runtime_image: String,
    pub settings_file: Option<String>,
    pub start_hook: Option<String>,
    pub end_hook: Option<String>,
}

/// A Gradle project.
#[derive(Debug, Clone)]
pub struct Gradle(pub Config);

/// A Gradle project if `marker`, the outcome of looking for `gradlew` in
/// the root, shows a regular file; `None` otherwise.
pub fn new(cfg: Config, marker: &Probe) -> (r: Result<Option<Gradle>, Error>)
    ensures
        r is Ok,
        r->Ok_0 is Some <==> marker is File,
        r->Ok_0 is Some ==> r->Ok_0->0 == Gradle(cfg),
{
    match marker {
        Probe::File => Ok(Some(Gradle(cfg))),
        _ => Ok(None),
    }
}

/// The tasks that are run, in their order: the tests, then the packaging.
pub open spec fn build_targets() -> Seq<Seq<char>> {
    seq!["test"@, "shadowJar"@]
}

/// The command that runs one task.
pub open spec fn build_command(settings_file: Option<Seq<char>>, target: Seq<char>) -> Seq<char> {
    match settings_file {
        None => "RUN ./gradlew "@ + target,
        Some(file) => "RUN ./gradlew -settings-file "@ + file + seq![' '] + target,
    }
}

/// The Dockerfile of a Gradle project.
pub open spec fn dockerfile_text(
    builder_image: Seq<char>,
    runtime_image: Seq<char>,
    settings_file: Option<Seq<char>>,
    targets: Seq<Seq<char>>,
) -> Seq<char> {
    DOCKERFILE_HEAD@ + builder_image + DOCKERFILE_BUILD@ + command_block(
        targets.map_values(|t: Seq<char>| build_command(settings_file, t)),
    ) + DOCKERFILE_RUNTIME@ + runtime_image + DOCKERFILE_COPY@ + COPY_COMMAND@ + DOCKERFILE_TAIL@
}

impl Gradle {
    /// The settings file that the tasks are run with, if any.
    pub open spec fn settings(&self) -> Option<Seq<char>> {
        optional(self.0.settings_file)
    }

    /// The build targets of this project.
    pub open spec fn targets(&self) -> Result<Seq<Seq<char>>, DetectBuildTargetErrorView> {
        Ok(build_targets())
    }

    /// The Dockerfile of this project.
    pub open spec fn script(&self) -> Result<Seq<char>, ErrorView> {
        Ok(
            dockerfile_text(
                self.0.docker_builder_image@,
                self.0.docker_runtime_image@,
                self.settings(),
                build_targets(),
            ),
        )
    }
}

/// Writes the Dockerfile of a Gradle project that runs `targets`.
pub fn write_dockerfile(
    builder_image: &str,
    runtime_image: &str,
    settings_file: &Option<String>,
    targets: &Vec<String>,
) -> (r: String)
    ensures
        r@ == dockerfile_text(
            builder_image@,
            runtime_image@,
            optional(*settings_file),
            views(targets@),
        ),
{
    let ghost settings = optional(*settings_file);
    let ghost names = views(targets@);
    let mut builds: Vec<String> = Vec::new();
    let mut k: usize = 0;
    assert(views(builds@) =~= names.take(0).map_values(
        |t: Seq<char>| build_command(settings, t),
    ));
    proof {
        reveal_strlit(" ");
        assert(" "@ =~= seq![' ']);
    }
    while k < targets.len()
        invariant
            k <= targets.len(),
            names == views(targets@),
            " "@ == seq![' '],
            settings == optional(*settings_file),
            views(builds@) == names.take(k as int).map_values(
                |t: Seq<char>| build_command(settings, t),
            ),
        decreases targets.len() - k,
    {
        let target = targets[k].as_str();
        let ghost before = views(builds@);
        let build = match settings_file {
            None => {
                let mut line = "RUN ./gradlew ".to_owned();
                line.append(target);
                line
            },
            Some(file) => {
                let mut line = "RUN ./gradlew -settings-file ".to_owned();
                line.append(file.as_str());
                line.append(" ");
                line.append(target);
                line
            },
        };
        builds.push(build);
        proof {
            assert(names.take(k + 1) =~= names.take(k as int).push(target@));
            assert(views(builds@) =~= before.push(build_command(settings, target@)));
            assert(views(builds@) =~= names.take(k + 1).map_values(
                |t: Seq<char>| build_command(settings, t),
            ));
        }
        k += 1;
    }
    assert(names.take(targets.len() as int) =~= names);
    let build_block = crate::sdk::block_of(&builds);
    let mut out = DOCKERFILE_HEAD.to_owned();
    out.append(builder_image);
    out.append(DOCKERFILE_BUILD);
    out.append(build_block.as_str());
    out.append(DOCKERFILE_RUNTIME);
    out.append(runtime_image);
    out.append(DOCKERFILE_COPY);
    out.append(COPY_COMMAND);
    out.append(DOCKERFILE_TAIL);
    out
}

impl DockerFileBuilder for Gradle {
    fn builder_docker_image(&self) -> (r: String)
        ensures
            r@ == self.0.docker_builder_image@,
    {
        self.0.docker_builder_image.clone()
    }

    fn runtime_docker_image(&self) -> (r: String)
        ensures
            r@ == self.0.docker_runtime_image@,
    {
        self.0.docker_runtime_image.clone()
    }

    /// The tasks that are run. They do not depend on the source tree.
    fn detect_build_targets(&self) -> (r: Result<Vec<String>, DetectBuildTargetError>)
        ensures
            is_targets(r, self.targets()),
    {
        let mut targets: Vec<String> = Vec::new();
        targets.push("test".to_owned());
        targets.push("shadowJar".to_owned());
        assert(views(targets@) =~= build_targets());
        Ok(targets)
    }

    /// The Dockerfile that runs every task and packs the resulting archive.
    fn dockerfile(&self) -> (r: Result<String, Error>)
        ensures
            is_script(r, self.script()),
    {
        let targets = match self.detect_build_targets() {
            Ok(targets) => targets,
            Err(err) => return Err(Error::DetectBuildTargetError(err)),
        };
        Ok(
            write_dockerfile(
                self.0.docker_builder_image.as_str(),
                self.0.docker_runtime_image.as_str(),
                &self.0.settings_file,
                &targets,
            ),
        )
    }

    fn filesystem_path(&self) -> (r: String)
        ensures
            r@ == self.0.filesystem_path@,
    {
        self.0.filesystem_path.clone()
    }
}

} // verus!
