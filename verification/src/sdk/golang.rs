//! Go projects: one binary for each subdirectory of `cmd`.

use crate::sdk::{
    command_block, is_script, is_targets, DetectBuildTargetError, DetectBuildTargetErrorView,
    DockerFileBuilder, Error, ErrorView,
};
use crate::text::{sorted, views};
use crate::tree::{Entry, Listing, Probe};
use vstd::prelude::*;

verus! {

/// The file whose presence in the root marks a Go project.
pub const MARKER: &'static str = "go.mod";

/// The directory that holds one subdirectory for each binary.
pub const TARGETS_DIRECTORY: &'static str = "cmd";

/// The Dockerfile up to the name of the builder image.
pub const DOCKERFILE_HEAD: &'static str = "\n# Dockerfile generated by NAIS build (version) at (timestamp)\n\n#\n# Builder image\n#\nFROM ";

/// The Dockerfile between the builder image and the build commands.
pub const DOCKERFILE_BUILD: &'static str = " AS builder\nENV GOOS=linux\nENV CGO_ENABLED=0\nWORKDIR /src\n\n# Copy go.mod and go.sum files into source directory\n# so that dependencies can be downloaded before the source code.\n# This is a cache optimization step (???)\nCOPY go.* /src/\nRUN go mod download\nCOPY . /src\n\n# Start hook is run before testing\n#RUN ___start_hook\n\n# Test all modules\nRUN go test ./...\n\n# Build all binaries found in ./cmd/*\n";

/// The Dockerfile between the build commands and the name of the runtime
/// image.
pub const DOCKERFILE_RUNTIME: &'static str = "\n\n# End hook is run after build\n#RUN ___end_hook\n\n#\n# Runtime image\n#\nFROM ";

/// The Dockerfile between the runtime image and the copy commands.
pub const DOCKERFILE_COPY: &'static str = "\nWORKDIR /app\n";

/// The line that stands where no one binary is to be run.
pub const NO_DEFAULT_TARGET: &'static str = "# Default CMD omitted due to multiple targets specified";

/// What a Go build is configured with.
#[derive(Debug, Clone)]
pub struct Config {
    pub filesystem_path: String,
    pub docker_builder_image: String,
    pub docker_runtime_image: String,
    pub start_hook: Option<String>,
    pub end_hook: Option<String>,
}

/// A Go project: its configuration, and what was found in its targets
/// directory.
#[derive(Debug, Clone)]
pub struct Golang {
    pub cfg: Config,
    pub cmd: Listing,
}

/// A Go project if `marker`, the outcome of looking for `go.mod` in the
/// root, shows a regular file; `None` otherwise.
pub fn new(cfg: Config, marker: &Probe, cmd: Listing) -> (r: Result<Option<Golang>, Error>)
    ensures
        r is Ok,
        r->Ok_0 is Some <==> marker is File,
        r->Ok_0 is Some ==> r->Ok_0->0 == (Golang { cfg, cmd }),
{
    match marker {
        Probe::File => Ok(Some(Golang { cfg, cmd })),
        _ => Ok(None),
    }
}

/// The place of the first entry that is unreadable or has no name.
pub open spec fn first_unusable(entries: Seq<Entry>) -> Option<int>
    decreases entries.len(),
{
    if entries.len() == 0 {
        None
    } else if !(entries[0] is Named) {
        Some(0)
    } else {
        match first_unusable(entries.drop_first()) {
            Some(i) => Some(i + 1),
            None => None,
        }
    }
}

/// The names of the subdirectories among the entries, in their order.
pub open spec fn subdirectories(entries: Seq<Entry>) -> Seq<Seq<char>>
    decreases entries.len(),
{
    if entries.len() == 0 {
        Seq::empty()
    } else {
        let front = subdirectories(entries.drop_last());
        match entries.last() {
            Entry::Named { name, is_dir } => if is_dir {
                front.push(name@)
            } else {
                front
            },
            _ => front,
        }
    }
}

/// The path of the targets directory below `root`.
pub open spec fn targets_path(root: Seq<char>) -> Seq<char> {
    root + seq!['/'] + TARGETS_DIRECTORY@
}

/// The build targets of a source tree: the names of the subdirectories of
/// the targets directory in ascending order, or the first reason why they
/// cannot be told.
pub open spec fn build_targets(root: Seq<char>, cmd: Listing) -> Result<
    Seq<Seq<char>>,
    DetectBuildTargetErrorView,
> {
    match cmd {
        Listing::Failed(err) => Err(
            DetectBuildTargetErrorView::FileError(err@, targets_path(root)),
        ),
        Listing::Entries(entries) => match first_unusable(entries@) {
            Some(i) => match entries@[i] {
                Entry::Unreadable(err) => Err(DetectBuildTargetErrorView::FilesystemError(err@)),
                _ => Err(DetectBuildTargetErrorView::EmptyFilename),
            },
            None => Ok(sorted(subdirectories(entries@))),
        },
    }
}

/// Where the first `k` entries are named, the first unusable entry of all
/// is the first one after them.
pub proof fn lemma_first_unusable_after(entries: Seq<Entry>, k: int)
    requires
        0 <= k <= entries.len(),
        forall|i: int| 0 <= i < k ==> entries[i] is Named,
    ensures
        first_unusable(entries) == (match first_unusable(entries.skip(k)) {
            Some(i) => Some(i + k),
            None => None,
        }),
    decreases k,
{
    if k == 0 {
        assert(entries.skip(0) =~= entries);
    } else {
        let rest = entries.drop_first();
        assert forall|i: int| 0 <= i < k - 1 implies rest[i] is Named by {
            assert(rest[i] == entries[i + 1]);
        }
        lemma_first_unusable_after(rest, k - 1);
        assert(rest.skip(k - 1) =~= entries.skip(k));
    }
}

/// The command that builds one binary.
pub open spec fn build_command(target: Seq<char>) -> Seq<char> {
    "RUN go build -a -installsuffix cgo -o /build/"@ + target + " ./cmd/"@ + target
}

/// The command that copies one binary into the runtime image.
pub open spec fn copy_command(target: Seq<char>) -> Seq<char> {
    "COPY --from=builder /build/"@ + target + " /app/"@ + target
}

/// The line that says what the image runs: the one binary, or a comment
/// where there is not exactly one.
pub open spec fn default_target(targets: Seq<Seq<char>>) -> Seq<char> {
    if targets.len() == 1 {
        "CMD [\"/app/"@ + targets[0] + "\"]"@
    } else {
        NO_DEFAULT_TARGET@
    }
}

/// The Dockerfile of a Go project.
pub open spec fn dockerfile_text(
    builder_image: Seq<char>,
    runtime_image: Seq<char>,
    targets: Seq<Seq<char>>,
) -> Seq<char> {
    DOCKERFILE_HEAD@ + builder_image + DOCKERFILE_BUILD@ + command_block(
        targets.map_values(|t: Seq<char>| build_command(t)),
    ) + DOCKERFILE_RUNTIME@ + runtime_image + DOCKERFILE_COPY@ + command_block(
        targets.map_values(|t: Seq<char>| copy_command(t)),
    ) + seq!['\n'] + default_target(targets) + seq!['\n']
}

/// Writes the Dockerfile of a Go project that builds `targets`.
pub fn write_dockerfile(builder_image: &str, runtime_image: &str, targets: &Vec<String>) -> (r:
    String)
    ensures
        r@ == dockerfile_text(builder_image@, runtime_image@, views(targets@)),
{
    let mut builds: Vec<String> = Vec::new();
    let mut copies: Vec<String> = Vec::new();
    let mut k: usize = 0;
    let ghost names = views(targets@);
    assert(views(builds@) =~= names.take(0).map_values(|t: Seq<char>| build_command(t)));
    assert(views(copies@) =~= names.take(0).map_values(|t: Seq<char>| copy_command(t)));
    while k < targets.len()
        invariant
            k <= targets.len(),
            names == views(targets@),
            views(builds@) == names.take(k as int).map_values(|t: Seq<char>| build_command(t)),
            views(copies@) == names.take(k as int).map_values(|t: Seq<char>| copy_command(t)),
        decreases targets.len() - k,
    {
        let target = targets[k].as_str();
        let ghost builds_before = views(builds@);
        let ghost copies_before = views(copies@);
        let mut build = "RUN go build -a -installsuffix cgo -o /build/".to_owned();
        build.append(target);
        build.append(" ./cmd/");
        build.append(target);
        builds.push(build);
        let mut copy = "COPY --from=builder /build/".to_owned();
        copy.append(target);
        copy.append(" /app/");
        copy.append(target);
        copies.push(copy);
        proof {
            assert(names.take(k + 1) =~= names.take(k as int).push(target@));
            assert(views(builds@) =~= builds_before.push(build_command(target@)));
            assert(views(copies@) =~= copies_before.push(copy_command(target@)));
            assert(views(builds@) =~= names.take(k + 1).map_values(
                |t: Seq<char>| build_command(t),
            ));
            assert(views(copies@) =~= names.take(k + 1).map_values(
                |t: Seq<char>| copy_command(t),
            ));
        }
        k += 1;
    }
    assert(names.take(targets.len() as int) =~= names);
    let build_block = crate::sdk::block_of(&builds);
    let copy_block = crate::sdk::block_of(&copies);
    let default_target = if targets.len() == 1 {
        let mut line = "CMD [\"/app/".to_owned();
        line.append(targets[0].as_str());
        line.append("\"]");
        line
    } else {
        NO_DEFAULT_TARGET.to_owned()
    };
    proof {
        reveal_strlit("\n");
        assert("\n"@ =~= seq!['\n']);
    }
    let mut out = DOCKERFILE_HEAD.to_owned();
    out.append(builder_image);
    out.append(DOCKERFILE_BUILD);
    out.append(build_block.as_str());
    out.append(DOCKERFILE_RUNTIME);
    out.append(runtime_image);
    out.append(DOCKERFILE_COPY);
    out.append(copy_block.as_str());
    out.append("\n");
    out.append(default_target.as_str());
    out.append("\n");
    out
}

impl Golang {
    /// The build targets of this project.
    pub open spec fn targets(&self) -> Result<Seq<Seq<char>>, DetectBuildTargetErrorView> {
        build_targets(self.cfg.filesystem_path@, self.cmd)
    }

    /// The Dockerfile of this project, or why it cannot be written.
    pub open spec fn script(&self) -> Result<Seq<char>, ErrorView> {
        match self.targets() {
            Ok(targets) => Ok(
                dockerfile_text(
                    self.cfg.docker_builder_image@,
                    self.cfg.docker_runtime_image@,
                    targets,
                ),
            ),
            Err(err) => Err(ErrorView::DetectBuildTargetError(err)),
        }
    }
}

impl DockerFileBuilder for Golang {
    fn builder_docker_image(&self) -> (r: String)
        ensures
            r@ == self.cfg.docker_builder_image@,
    {
        self.cfg.docker_builder_image.clone()
    }

    fn runtime_docker_image(&self) -> (r: String)
        ensures
            r@ == self.cfg.docker_runtime_image@,
    {
        self.cfg.docker_runtime_image.clone()
    }

    /// The names of the binaries that can be built: the subdirectories of
    /// the targets directory, in ascending order.
    fn detect_build_targets(&self) -> (r: Result<Vec<String>, DetectBuildTargetError>)
        ensures
            is_targets(r, self.targets()),
    {
        match &self.cmd {
            Listing::Failed(err) => {
                proof {
                    reveal_strlit("/");
                    assert("/"@ =~= seq!['/']);
                }
                let mut path = self.cfg.filesystem_path.clone();
                path.append("/");
                path.append(TARGETS_DIRECTORY);
                Err(DetectBuildTargetError::FileError(err.clone(), path))
            },
            Listing::Entries(entries) => {
                let mut names: Vec<String> = Vec::new();
                let mut k: usize = 0;
                assert(views(names@) =~= subdirectories(entries@.take(0)));
                while k < entries.len()
                    invariant
                        k <= entries.len(),
                        self.cmd == Listing::Entries(*entries),
                        forall|i: int| 0 <= i < k ==> entries@[i] is Named,
                        views(names@) == subdirectories(entries@.take(k as int)),
                    decreases entries.len() - k,
                {
                    proof {
                        lemma_first_unusable_after(entries@, k as int);
                        assert(entries@.take(k + 1).drop_last() =~= entries@.take(k as int));
                        assert(entries@.skip(k as int)[0] == entries@[k as int]);
                    }
                    let ghost before = views(names@);
                    match &entries[k] {
                        Entry::Named { name, is_dir } => {
                            if *is_dir {
                                names.push(name.clone());
                                assert(views(names@) =~= before.push(name@));
                            }
                        },
                        Entry::Unnamed => {
                            return Err(DetectBuildTargetError::EmptyFilename);
                        },
                        Entry::Unreadable(err) => {
                            return Err(DetectBuildTargetError::FilesystemError(err.clone()));
                        },
                    }
                    k += 1;
                }
                proof {
                    lemma_first_unusable_after(entries@, k as int);
                    assert(entries@.skip(k as int) =~= Seq::<Entry>::empty());
                    assert(entries@.take(k as int) =~= entries@);
                }
                Ok(crate::text::sort(&names))
            },
        }
    }

    /// The Dockerfile that tests the modules and builds every binary.
    fn dockerfile(&self) -> (r: Result<String, Error>)
        ensures
            is_script(r, self.script()),
    {
        let targets = match self.detect_build_targets() {
            Ok(targets) => targets,
            Err(err) => return Err(Error::DetectBuildTargetError(err)),
        };
        Ok(
            write_dockerfile(
                self.cfg.docker_builder_image.as_str(),
                self.cfg.docker_runtime_image.as_str(),
                &targets,
            ),
        )
    }

    fn filesystem_path(&self) -> (r: String)
        ensures
            r@ == self.cfg.filesystem_path@,
    {
        self.cfg.filesystem_path.clone()
    }
}

} // verus!
