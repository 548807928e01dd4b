//! The build SDKs: what each one builds with, which targets it finds, and
//! the Dockerfile it writes.

use crate::tree::{Probe, SourceTree};
use vstd::prelude::*;

pub mod golang;
pub mod gradle;
pub mod maven;

verus! {

/// Why the build targets of a source tree could not be told.
#[derive(Debug, Clone)]
pub enum DetectBuildTargetError {
    /// An entry of the targets directory could not be read.
    FilesystemError(String),
    /// The targets directory could not be listed: the reason, then the path.
    FileError(String, String),
    /// The name of a target cannot be represented as text.
    EmptyFilename,
}

/// A `DetectBuildTargetError` in the terms of contracts.
pub enum DetectBuildTargetErrorView {
    FilesystemError(Seq<char>),
    FileError(Seq<char>, Seq<char>),
    EmptyFilename,
}

impl View for DetectBuildTargetError {
    type V = DetectBuildTargetErrorView;

    open spec fn view(&self) -> DetectBuildTargetErrorView {
        match self {
            DetectBuildTargetError::FilesystemError(err) => {
                DetectBuildTargetErrorView::FilesystemError(err@)
            },
            DetectBuildTargetError::FileError(err, path) => DetectBuildTargetErrorView::FileError(
                err@,
                path@,
            ),
            DetectBuildTargetError::EmptyFilename => DetectBuildTargetErrorView::EmptyFilename,
        }
    }
}

/// Why an SDK could not describe its build.
#[derive(Debug, Clone)]
pub enum Error {
    DetectBuildTargetError(DetectBuildTargetError),
}

/// An `Error` in the terms of contracts.
pub enum ErrorView {
    DetectBuildTargetError(DetectBuildTargetErrorView),
}

impl View for Error {
    type V = ErrorView;

    open spec fn view(&self) -> ErrorView {
        match self {
            Error::DetectBuildTargetError(err) => ErrorView::DetectBuildTargetError(err@),
        }
    }
}

/// The build commands of a Dockerfile, or the copy commands: one line each,
/// without white space around the block.
pub open spec fn command_block(commands: Seq<Seq<char>>) -> Seq<char> {
    crate::text::trimmed(crate::text::stacked(commands))
}

/// Joins commands into the block that a Dockerfile holds.
pub fn block_of(commands: &Vec<String>) -> (r: String)
    ensures
        r@ == command_block(crate::text::views(commands@)),
{
    let stacked = crate::text::stack(commands);
    crate::text::trim(stacked.as_str())
}

/// Whether `r` is the outcome `want`, up to the characters of its strings.
pub open spec fn is_targets(
    r: Result<Vec<String>, DetectBuildTargetError>,
    want: Result<Seq<Seq<char>>, DetectBuildTargetErrorView>,
) -> bool {
    match r {
        Ok(targets) => want == Ok::<Seq<Seq<char>>, DetectBuildTargetErrorView>(
            crate::text::views(targets@),
        ),
        Err(err) => want == Err::<Seq<Seq<char>>, DetectBuildTargetErrorView>(err@),
    }
}

/// Whether `r` is the outcome `want`, up to the characters of its strings.
pub open spec fn is_script(r: Result<String, Error>, want: Result<Seq<char>, ErrorView>) -> bool {
    match r {
        Ok(script) => want == Ok::<Seq<char>, ErrorView>(script@),
        Err(err) => want == Err::<Seq<char>, ErrorView>(err@),
    }
}

/// An SDK is anything that can write the Dockerfile of a source tree.
pub trait DockerFileBuilder {
    /// The image that the application is built in.
    fn builder_docker_image(&self) -> String;

    /// The image that the application runs in.
    fn runtime_docker_image(&self) -> String;

    /// The names of what can be built.
    fn detect_build_targets(&self) -> Result<Vec<String>, DetectBuildTargetError>;

    /// The Dockerfile that builds every target.
    fn dockerfile(&self) -> Result<String, Error>;

    /// The root of the source tree.
    fn filesystem_path(&self) -> String;
}

/// Which version of an SDK is asked for.
#[derive(Debug, Clone)]
pub enum Version {
    /// The latest version.
    Latest,
    /// The latest version of a major version.
    Major(u64),
    /// Exactly this version.
    Exact(String),
}

/// The SDKs that the library knows.
#[derive(Debug, Clone, Copy, PartialEq, Eq, Structural)]
pub enum Kind {
    Golang,
    Gradle,
    Maven,
}

/// The SDK of a source tree.
#[derive(Debug, Clone)]
pub enum SDK {
    Golang(golang::Golang),
    Gradle(gradle::Gradle),
    Maven(maven::Maven),
}

impl SDK {
    /// Which SDK this is.
    pub open spec fn kind(&self) -> Kind {
        match self {
            SDK::Golang(_) => Kind::Golang,
            SDK::Gradle(_) => Kind::Gradle,
            SDK::Maven(_) => Kind::Maven,
        }
    }

    /// The build targets of the source tree.
    pub open spec fn targets(&self) -> Result<Seq<Seq<char>>, DetectBuildTargetErrorView> {
        match self {
            SDK::Golang(sdk) => sdk.targets(),
            SDK::Gradle(sdk) => sdk.targets(),
            SDK::Maven(sdk) => sdk.targets(),
        }
    }

    /// The Dockerfile of the source tree, or why it cannot be written.
    pub open spec fn script(&self) -> Result<Seq<char>, ErrorView> {
        match self {
            SDK::Golang(sdk) => sdk.script(),
            SDK::Gradle(sdk) => sdk.script(),
            SDK::Maven(sdk) => sdk.script(),
        }
    }

    /// The root of the source tree.
    pub open spec fn root(&self) -> Seq<char> {
        match self {
            SDK::Golang(sdk) => sdk.cfg.filesystem_path@,
            SDK::Gradle(sdk) => sdk.0.filesystem_path@,
            SDK::Maven(sdk) => sdk.0.filesystem_path@,
        }
    }

    /// The image that the application is built in.
    pub open spec fn builder_image(&self) -> Seq<char> {
        match self {
            SDK::Golang(sdk) => sdk.cfg.docker_builder_image@,
            SDK::Gradle(sdk) => sdk.0.docker_builder_image@,
            SDK::Maven(sdk) => sdk.0.docker_builder_image@,
        }
    }

    /// The image that the application runs in.
    pub open spec fn runtime_image(&self) -> Seq<char> {
        match self {
            SDK::Golang(sdk) => sdk.cfg.docker_runtime_image@,
            SDK::Gradle(sdk) => sdk.0.docker_runtime_image@,
            SDK::Maven(sdk) => sdk.0.docker_runtime_image@,
        }
    }
}

impl DockerFileBuilder for SDK {
    fn builder_docker_image(&self) -> (r: String)
        ensures
            r@ == self.builder_image(),
    {
        match self {
            SDK::Golang(sdk) => sdk.builder_docker_image(),
            SDK::Gradle(sdk) => sdk.builder_docker_image(),
            SDK::Maven(sdk) => sdk.builder_docker_image(),
        }
    }

    fn runtime_docker_image(&self) -> (r: String)
        ensures
            r@ == self.runtime_image(),
    {
        match self {
            SDK::Golang(sdk) => sdk.runtime_docker_image(),
            SDK::Gradle(sdk) => sdk.runtime_docker_image(),
            SDK::Maven(sdk) => sdk.runtime_docker_image(),
        }
    }

    fn detect_build_targets(&self) -> (r: Result<Vec<String>, DetectBuildTargetError>)
        ensures
            is_targets(r, self.targets()),
    {
        match self {
            SDK::Golang(sdk) => sdk.detect_build_targets(),
            SDK::Gradle(sdk) => sdk.detect_build_targets(),
            SDK::Maven(sdk) => sdk.detect_build_targets(),
        }
    }

    fn dockerfile(&self) -> (r: Result<String, Error>)
        ensures
            is_script(r, self.script()),
    {
        match self {
            SDK::Golang(sdk) => sdk.dockerfile(),
            SDK::Gradle(sdk) => sdk.dockerfile(),
            SDK::Maven(sdk) => sdk.dockerfile(),
        }
    }

    fn filesystem_path(&self) -> (r: String)
        ensures
            r@ == self.root(),
    {
        match self {
            SDK::Golang(sdk) => sdk.filesystem_path(),
            SDK::Gradle(sdk) => sdk.filesystem_path(),
            SDK::Maven(sdk) => sdk.filesystem_path(),
        }
    }
}

/// The SDKs in the order in which they are tried: the first whose marker
/// is found wins.
pub open spec fn priority() -> Seq<Kind> {
    seq![Kind::Golang, Kind::Gradle, Kind::Maven]
}

/// The SDKs in the order in which they are tried.
pub fn priority_order() -> (r: Vec<Kind>)
    ensures
        r@ == priority(),
{
    let r = vec![Kind::Golang, Kind::Gradle, Kind::Maven];
    assert(r@ =~= priority());
    r
}

/// The name of the file in the root of a source tree that marks it as a
/// project of the SDK.
pub open spec fn marker_name(kind: Kind) -> Seq<char> {
    match kind {
        Kind::Golang => golang::MARKER@,
        Kind::Gradle => gradle::MARKER@,
        Kind::Maven => maven::MARKER@,
    }
}

/// The name of the file in the root of a source tree that marks it as a
/// project of the SDK.
pub fn marker(kind: Kind) -> (r: &'static str)
    ensures
        r@ == marker_name(kind),
{
    match kind {
        Kind::Golang => golang::MARKER,
        Kind::Gradle => gradle::MARKER,
        Kind::Maven => maven::MARKER,
    }
}

/// What was found when the marker of the SDK was looked for.
pub open spec fn probe_of(tree: SourceTree, kind: Kind) -> Probe {
    match kind {
        Kind::Golang => tree.go_mod,
        Kind::Gradle => tree.gradlew,
        Kind::Maven => tree.pom_xml,
    }
}

/// What the detection of an SDK comes to.
pub enum Detection {
    /// The source tree is a project of this SDK.
    Found(Kind),
    /// The marker of this SDK could not be looked for; the text says why.
    Failed(Kind, Seq<char>),
    /// No SDK knows the source tree.
    NotDetected,
}

/// Tries the SDKs of `order` one after the other. The first whose marker is
/// a regular file is found, and those after it are not looked at. A marker
/// that is absent, or no regular file, passes on to the next SDK; a marker
/// that could not be looked for ends the detection with a failure.
pub open spec fn detect(tree: SourceTree, order: Seq<Kind>) -> Detection
    decreases order.len(),
{
    if order.len() == 0 {
        Detection::NotDetected
    } else {
        match probe_of(tree, order[0]) {
            Probe::File => Detection::Found(order[0]),
            Probe::Failed(err) => Detection::Failed(order[0], err@),
            _ => detect(tree, order.drop_first()),
        }
    }
}

/// Whether a Go project has `cmd` as the listing of its targets directory.
/// Projects of other SDKs have no targets directory.
pub open spec fn lists(sdk: SDK, cmd: crate::tree::Listing) -> bool {
    sdk matches SDK::Golang(sdk) ==> sdk.cmd == cmd
}

/// Whether `sdk` is the SDK `kind` with the images that `cfg` names for it,
/// rooted at `filesystem_path`.
pub open spec fn configured(
    sdk: SDK,
    kind: Kind,
    filesystem_path: Seq<char>,
    cfg: crate::config::runtime::Sdk,
) -> bool {
    &&& sdk.kind() == kind
    &&& sdk.root() == filesystem_path
    &&& match sdk {
        SDK::Golang(sdk) => {
            &&& sdk.cfg.docker_builder_image@ == cfg.go.build_docker_image@
            &&& sdk.cfg.docker_runtime_image@ == cfg.go.runtime_docker_image@
            &&& sdk.cfg.start_hook is None
            &&& sdk.cfg.end_hook is None
        },
        SDK::Gradle(sdk) => {
            &&& sdk.0.docker_builder_image@ == cfg.gradle.build_docker_image@
            &&& sdk.0.docker_runtime_image@ == cfg.gradle.runtime_docker_image@
            &&& crate::text::optional(sdk.0.settings_file) == crate::text::optional(
                cfg.gradle.settings_file,
            )
            &&& sdk.0.start_hook is None
            &&& sdk.0.end_hook is None
        },
        SDK::Maven(sdk) => {
            &&& sdk.0.docker_builder_image@ == cfg.maven.build_docker_image@
            &&& sdk.0.docker_runtime_image@ == cfg.maven.runtime_docker_image@
            &&& sdk.0.start_hook is None
            &&& sdk.0.end_hook is None
        },
    }
}

/// Whether `r` is what the detection `found` asks for: the SDK that was
/// found, configured from `cfg`; or `SDKNotDetected`; or the failure of the
/// file system.
pub open spec fn is_detection(
    r: Result<SDK, crate::error::Error>,
    found: Detection,
    filesystem_path: Seq<char>,
    cfg: crate::config::runtime::Sdk,
    tree: SourceTree,
) -> bool {
    match found {
        Detection::Found(kind) => r matches Ok(sdk) && configured(
            sdk,
            kind,
            filesystem_path,
            cfg,
        ) && lists(sdk, tree.cmd),
        Detection::Failed(_, err) => r matches Err(e) && e@
            == crate::error::ErrorView::FilesystemError(err),
        Detection::NotDetected => r matches Err(e) && e@
            == crate::error::ErrorView::SDKNotDetected,
    }
}

/// A copy of a text that may be missing.
fn copy_optional(s: &Option<String>) -> (r: Option<String>)
    ensures
        crate::text::optional(r) == crate::text::optional(*s),
{
    match s {
        Some(s) => Some(s.clone()),
        None => None,
    }
}

/// Whether two configurations name the same images.
pub open spec fn same_images(
    a: crate::config::runtime::Sdk,
    b: crate::config::runtime::Sdk,
) -> bool {
    &&& a.go.build_docker_image@ == b.go.build_docker_image@
    &&& a.go.runtime_docker_image@ == b.go.runtime_docker_image@
    &&& a.rust.build_docker_image@ == b.rust.build_docker_image@
    &&& a.rust.runtime_docker_image@ == b.rust.runtime_docker_image@
    &&& a.gradle.build_docker_image@ == b.gradle.build_docker_image@
    &&& a.gradle.runtime_docker_image@ == b.gradle.runtime_docker_image@
    &&& crate::text::optional(a.gradle.settings_file) == crate::text::optional(
        b.gradle.settings_file,
    )
    &&& a.maven.build_docker_image@ == b.maven.build_docker_image@
    &&& a.maven.runtime_docker_image@ == b.maven.runtime_docker_image@
}

/// A copy of the images of every SDK.
fn copy_images(sdk: &crate::config::runtime::Sdk) -> (r: crate::config::runtime::Sdk)
    ensures
        same_images(r, *sdk),
{
    crate::config::runtime::Sdk {
        go: crate::config::runtime::SdkGolang {
            build_docker_image: sdk.go.build_docker_image.clone(),
            runtime_docker_image: sdk.go.runtime_docker_image.clone(),
        },
        rust: crate::config::runtime::SdkRust {
            build_docker_image: sdk.rust.build_docker_image.clone(),
            runtime_docker_image: sdk.rust.runtime_docker_image.clone(),
        },
        gradle: crate::config::runtime::SdkGradle {
            build_docker_image: sdk.gradle.build_docker_image.clone(),
            runtime_docker_image: sdk.gradle.runtime_docker_image.clone(),
            settings_file: copy_optional(&sdk.gradle.settings_file),
        },
        maven: crate::config::runtime::SdkMaven {
            build_docker_image: sdk.maven.build_docker_image.clone(),
            runtime_docker_image: sdk.maven.runtime_docker_image.clone(),
        },
    }
}

/// What the detector asks its caller to find out.
#[derive(Debug)]
pub enum Question {
    /// What lies at `path`, where the marker of `kind` would lie.
    Marker { kind: Kind, path: String },
    /// What the targets directory at `path` holds.
    Targets { path: String },
}

/// What the caller found out.
#[derive(Debug)]
pub enum Answer {
    Marker(Probe),
    Targets(crate::tree::Listing),
}

/// The detection of an SDK between two questions. The markers are asked
/// for one at a time, in the order of `priority`, and no further than the
/// first that is found.
#[derive(Debug)]
pub struct Detector {
    /// The root of the source tree.
    pub filesystem_path: String,
    /// The images of every SDK.
    pub images: crate::config::runtime::Sdk,
    /// The place in `priority` of the SDK that is being looked at.
    pub position: usize,
    /// Whether the marker was found and the targets are being asked for.
    pub found: bool,
}

/// The next step of a detection.
#[derive(Debug)]
pub enum Step {
    /// The caller finds out what is asked and reports back.
    Ask(Detector, Question),
    /// The detection has ended.
    Done(Result<SDK, crate::error::Error>),
}

/// The path of the marker of an SDK below the root.
pub open spec fn marker_path(root: Seq<char>, kind: Kind) -> Seq<char> {
    root + seq!['/'] + marker_name(kind)
}

impl Detector {
    /// The SDK that is being looked at is one of `priority`; only a Go
    /// project is asked for its targets.
    pub open spec fn well_formed(&self) -> bool {
        &&& self.position < priority().len()
        &&& self.found ==> self.kind() is Golang
    }

    /// The SDK that is being looked at.
    pub open spec fn kind(&self) -> Kind {
        priority()[self.position as int]
    }

    /// Whether `answer` answers what was asked.
    pub open spec fn accepts(&self, answer: Answer) -> bool {
        self.found <==> answer is Targets
    }

    /// Whether `answer` answers what was asked.
    pub fn is_accepted(&self, answer: &Answer) -> (r: bool)
        ensures
            r == self.accepts(*answer),
    {
        match answer {
            Answer::Targets(_) => self.found,
            Answer::Marker(_) => !self.found,
        }
    }

    /// Whether `question` asks for the marker of the SDK at `position`.
    pub open spec fn asks_marker(&self, question: Question, position: int) -> bool {
        question matches Question::Marker { kind, path } && kind == priority()[position] && path@
            == marker_path(self.filesystem_path@, kind)
    }

    /// Whether `next` goes on with this detection at `position`.
    pub open spec fn goes_on(&self, next: Detector, position: int, found: bool) -> bool {
        &&& next.filesystem_path@ == self.filesystem_path@
        &&& same_images(next.images, self.images)
        &&& next.position == position
        &&& next.found == found
    }

    /// Whether `step` is what follows `answer`:
    /// a marker that could not be looked for ends the detection with that
    /// failure; a marker that is a regular file ends it with the SDK, once a
    /// Go project has listed its targets; any other marker passes on to the
    /// next SDK, and after the last, nothing is detected.
    pub open spec fn leads_to(&self, answer: Answer, step: Step) -> bool {
        match answer {
            Answer::Targets(cmd) => step matches Step::Done(Ok(sdk)) && configured(
                sdk,
                Kind::Golang,
                self.filesystem_path@,
                self.images,
            ) && lists(sdk, cmd),
            Answer::Marker(Probe::Failed(err)) => step matches Step::Done(Err(e)) && e@
                == crate::error::ErrorView::FilesystemError(err@),
            Answer::Marker(Probe::File) => if self.kind() is Golang {
                step matches Step::Ask(next, Question::Targets { path }) && self.goes_on(
                    next,
                    self.position as int,
                    true,
                ) && path@ == golang::targets_path(self.filesystem_path@)
            } else {
                step matches Step::Done(Ok(sdk)) && configured(
                    sdk,
                    self.kind(),
                    self.filesystem_path@,
                    self.images,
                )
            },
            Answer::Marker(_) => if self.position + 1 < priority().len() {
                step matches Step::Ask(next, question) && self.goes_on(
                    next,
                    self.position + 1,
                    false,
                ) && self.asks_marker(question, self.position + 1)
            } else {
                step matches Step::Done(Err(e)) && e@ == crate::error::ErrorView::SDKNotDetected
            },
        }
    }

    /// The question for the marker of `kind`.
    fn marker_question(filesystem_path: &str, kind: Kind) -> (r: Question)
        ensures
            r matches Question::Marker { kind: k, path } && k == kind && path@ == marker_path(
                filesystem_path@,
                kind,
            ),
    {
        proof {
            reveal_strlit("/");
            assert("/"@ =~= seq!['/']);
        }
        let mut path = filesystem_path.to_owned();
        path.append("/");
        path.append(marker(kind));
        Question::Marker { kind, path }
    }

    /// Begins a detection over the source tree at `filesystem_path`: asks
    /// for the marker of the first SDK.
    pub fn start(filesystem_path: &str, images: &crate::config::runtime::Sdk) -> (r: (
        Detector,
        Question,
    ))
        ensures
            r.0.well_formed(),
            r.0.filesystem_path@ == filesystem_path@,
            same_images(r.0.images, *images),
            r.0.position == 0,
            !r.0.found,
            r.0.asks_marker(r.1, 0),
    {
        let order = priority_order();
        let question = Self::marker_question(filesystem_path, order[0]);
        (
            Detector {
                filesystem_path: filesystem_path.to_owned(),
                images: copy_images(images),
                position: 0,
                found: false,
            },
            question,
        )
    }

    /// Takes the answer to the last question, and says what comes next.
    pub fn advance(self, answer: Answer) -> (r: Step)
        requires
            self.well_formed(),
            self.accepts(answer),
        ensures
            self.leads_to(answer, r),
            r matches Step::Ask(next, _) ==> next.well_formed(),
    {
        let order = priority_order();
        let kind = order[self.position];
        match answer {
            Answer::Targets(cmd) => {
                let found = golang::new(
                    golang::Config {
                        filesystem_path: self.filesystem_path,
                        docker_builder_image: self.images.go.build_docker_image,
                        docker_runtime_image: self.images.go.runtime_docker_image,
                        start_hook: None,
                        end_hook: None,
                    },
                    &Probe::File,
                    cmd,
                );
                match found {
                    Ok(Some(sdk)) => Step::Done(Ok(SDK::Golang(sdk))),
                    Ok(None) => {
                        assert(false);
                        Step::Done(Err(crate::error::Error::SDKNotDetected))
                    },
                    Err(err) => Step::Done(Err(crate::error::Error::SDKError(err))),
                }
            },
            Answer::Marker(Probe::Failed(err)) => Step::Done(
                Err(crate::error::Error::FilesystemError(err)),
            ),
            Answer::Marker(Probe::File) => match kind {
                Kind::Golang => {
                    proof {
                        reveal_strlit("/");
                        assert("/"@ =~= seq!['/']);
                    }
                    let mut path = self.filesystem_path.clone();
                    path.append("/");
                    path.append(golang::TARGETS_DIRECTORY);
                    Step::Ask(
                        Detector {
                            filesystem_path: self.filesystem_path,
                            images: self.images,
                            position: self.position,
                            found: true,
                        },
                        Question::Targets { path },
                    )
                },
                Kind::Gradle => {
                    let found = gradle::new(
                        gradle::Config {
                            filesystem_path: self.filesystem_path,
                            docker_builder_image: self.images.gradle.build_docker_image,
                            docker_runtime_image: self.images.gradle.runtime_docker_image,
                            settings_file: self.images.gradle.settings_file,
                            start_hook: None,
                            end_hook: None,
                        },
                        &Probe::File,
                    );
                    match found {
                        Ok(Some(sdk)) => Step::Done(Ok(SDK::Gradle(sdk))),
                        Ok(None) => {
                            assert(false);
                            Step::Done(Err(crate::error::Error::SDKNotDetected))
                        },
                        Err(err) => Step::Done(Err(crate::error::Error::SDKError(err))),
                    }
                },
                Kind::Maven => {
                    let found = maven::new(
                        maven::Config {
                            filesystem_path: self.filesystem_path,
                            docker_builder_image: self.images.maven.build_docker_image,
                            docker_runtime_image: self.images.maven.runtime_docker_image,
                            start_hook: None,
                            end_hook: None,
                        },
                        &Probe::File,
                    );
                    match found {
                        Ok(Some(sdk)) => Step::Done(Ok(SDK::Maven(sdk))),
                        Ok(None) => {
                            assert(false);
                            Step::Done(Err(crate::error::Error::SDKNotDetected))
                        },
                        Err(err) => Step::Done(Err(crate::error::Error::SDKError(err))),
                    }
                },
            },
            Answer::Marker(_) => {
                if self.position + 1 < order.len() {
                    let question = Self::marker_question(
                        self.filesystem_path.as_str(),
                        order[self.position + 1],
                    );
                    Step::Ask(
                        Detector {
                            filesystem_path: self.filesystem_path,
                            images: self.images,
                            position: self.position + 1,
                            found: false,
                        },
                        question,
                    )
                } else {
                    Step::Done(Err(crate::error::Error::SDKNotDetected))
                }
            },
        }
    }
}

/// A copy of what was found when a marker was looked for.
fn copy_probe(probe: &Probe) -> (r: Probe)
    ensures
        r == *probe,
{
    match probe {
        Probe::File => Probe::File,
        Probe::NotAFile => Probe::NotAFile,
        Probe::Absent => Probe::Absent,
        Probe::Failed(err) => Probe::Failed(err.clone()),
    }
}

/// Detects the SDK of the source tree at `filesystem_path`, of which
/// `tree` holds what was seen, and configures it with the images of `cfg`.
/// The SDKs are tried in the order of `priority`.
pub fn init_sdk(filesystem_path: &str, cfg: &crate::config::file::File, tree: SourceTree) -> (r:
    Result<SDK, crate::error::Error>)
    requires
        cfg.sdk is Some,
    ensures
        is_detection(r, detect(tree, priority()), filesystem_path@, cfg.sdk->0, tree),
{
    let sdk = match &cfg.sdk {
        Some(sdk) => sdk,
        None => {
            assert(false);
            return Err(crate::error::Error::SDKNotDetected);
        },
    };
    proof {
        reveal_with_fuel(detect, 4);
        assert(priority().drop_first() =~= seq![Kind::Gradle, Kind::Maven]);
        assert(priority().drop_first().drop_first() =~= seq![Kind::Maven]);
        assert(priority().drop_first().drop_first().drop_first() =~= Seq::<Kind>::empty());
    }
    let SourceTree { go_mod, gradlew, pom_xml, cmd } = tree;
    let (detector, _) = Detector::start(filesystem_path, sdk);

    let detector = match detector.advance(Answer::Marker(copy_probe(&go_mod))) {
        Step::Done(found) => return found,
        Step::Ask(detector, Question::Targets { .. }) => {
            return match detector.advance(Answer::Targets(cmd)) {
                Step::Done(found) => found,
                Step::Ask(_, _) => {
                    assert(false);
                    Err(crate::error::Error::SDKNotDetected)
                },
            };
        },
        Step::Ask(detector, Question::Marker { .. }) => detector,
    };

    let detector = match detector.advance(Answer::Marker(copy_probe(&gradlew))) {
        Step::Done(found) => return found,
        Step::Ask(detector, _) => detector,
    };

    match detector.advance(Answer::Marker(copy_probe(&pom_xml))) {
        Step::Done(found) => found,
        Step::Ask(_, _) => {
            assert(false);
            Err(crate::error::Error::SDKNotDetected)
        },
    }
}

/// A source tree that holds the marker of one SDK and of no other is a
/// project of that SDK.
pub proof fn lemma_only_marker_wins(tree: SourceTree, kind: Kind)
    requires
        probe_of(tree, kind) is File,
        forall|other: Kind| other != kind ==> probe_of(tree, other) is Absent,
    ensures
        detect(tree, priority()) == Detection::Found(kind),
{
    reveal_with_fuel(detect, 4);
    assert(probe_of(tree, Kind::Golang) is Absent || kind == Kind::Golang);
    assert(probe_of(tree, Kind::Gradle) is Absent || kind == Kind::Gradle);
    assert(probe_of(tree, Kind::Maven) is Absent || kind == Kind::Maven);
    assert(priority().drop_first() =~= seq![Kind::Gradle, Kind::Maven]);
    assert(priority().drop_first().drop_first() =~= seq![Kind::Maven]);
}

/// A source tree without the marker of any SDK is not detected.
pub proof fn lemma_no_marker_is_not_detected(tree: SourceTree)
    requires
        forall|kind: Kind| !(probe_of(tree, kind) is File) && !(probe_of(tree, kind) is Failed),
    ensures
        detect(tree, priority()) == Detection::NotDetected,
{
    reveal_with_fuel(detect, 4);
    assert(!(probe_of(tree, Kind::Golang) is File) && !(probe_of(tree, Kind::Golang) is Failed));
    assert(!(probe_of(tree, Kind::Gradle) is File) && !(probe_of(tree, Kind::Gradle) is Failed));
    assert(!(probe_of(tree, Kind::Maven) is File) && !(probe_of(tree, Kind::Maven) is Failed));
    assert(priority().drop_first() =~= seq![Kind::Gradle, Kind::Maven]);
    assert(priority().drop_first().drop_first() =~= seq![Kind::Maven]);
    assert(priority().drop_first().drop_first().drop_first() =~= Seq::<Kind>::empty());
}

/// The first SDK whose marker is found wins, whatever is found for those
/// after it.
pub proof fn lemma_first_match_wins(a: SourceTree, b: SourceTree, order: Seq<Kind>, k: int)
    requires
        0 <= k < order.len(),
        probe_of(a, order[k]) is File,
        forall|i: int| 0 <= i <= k ==> probe_of(a, #[trigger] order[i]) == probe_of(b, order[i]),
        forall|i: int| 0 <= i < k ==> !(probe_of(a, #[trigger] order[i]) is File)
            && !(probe_of(a, order[i]) is Failed),
    ensures
        detect(a, order) == Detection::Found(order[k]),
        detect(b, order) == Detection::Found(order[k]),
    decreases k,
{
    if k > 0 {
        let rest = order.drop_first();
        assert(!(probe_of(a, order[0]) is File) && !(probe_of(a, order[0]) is Failed));
        assert(probe_of(a, order[0]) == probe_of(b, order[0]));
        assert forall|i: int| 0 <= i <= k - 1 implies probe_of(a, #[trigger] rest[i]) == probe_of(
            b,
            rest[i],
        ) by {
            assert(rest[i] == order[i + 1]);
        }
        assert forall|i: int| 0 <= i < k - 1 implies !(probe_of(a, #[trigger] rest[i]) is File)
            && !(probe_of(a, rest[i]) is Failed) by {
            assert(rest[i] == order[i + 1]);
        }
        assert(rest[k - 1] == order[k]);
        lemma_first_match_wins(a, b, rest, k - 1);
    } else {
        assert(probe_of(a, order[0]) == probe_of(b, order[0]));
    }
}

impl DetectBuildTargetErrorView {
    /// The message shown to the operator.
    pub open spec fn message(self) -> Seq<char> {
        match self {
            DetectBuildTargetErrorView::FilesystemError(err) => "filesystem error: "@ + err,
            DetectBuildTargetErrorView::FileError(err, path) => "can't find "@ + path + ": "@
                + err + " "@,
            DetectBuildTargetErrorView::EmptyFilename => "target name is empty"@,
        }
    }
}

impl DetectBuildTargetError {
    /// The message shown to the operator.
    pub fn to_string(&self) -> (r: String)
        ensures
            r@ == self@.message(),
    {
        match self {
            DetectBuildTargetError::FilesystemError(err) => crate::text::join(
                "filesystem error: ",
                err.as_str(),
            ),
            DetectBuildTargetError::FileError(err, path) => {
                let mut out = "can't find ".to_owned();
                out.append(path.as_str());
                out.append(": ");
                out.append(err.as_str());
                out.append(" ");
                out
            },
            DetectBuildTargetError::EmptyFilename => "target name is empty".to_owned(),
        }
    }
}

impl ErrorView {
    /// The message shown to the operator.
    pub open spec fn message(self) -> Seq<char> {
        match self {
            ErrorView::DetectBuildTargetError(err) => "detect build target: "@ + err.message(),
        }
    }
}

impl Error {
    /// The message shown to the operator.
    pub fn to_string(&self) -> (r: String)
        ensures
            r@ == self@.message(),
    {
        match self {
            Error::DetectBuildTargetError(err) => crate::text::join(
                "detect build target: ",
                err.to_string().as_str(),
            ),
        }
    }
}

} // verus!
