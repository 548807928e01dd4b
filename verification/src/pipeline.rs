//! The pipeline: which stages a command runs, in which order, and what a
//! failure does to the rest. The pipeline decides; its caller acts. Each
//! step hands the caller one action, and takes what came of it.

use crate::docker::name::Name;
use crate::docker::Operation;
use crate::error::{Error, ErrorView};
use crate::process::{Invocation, InvocationView, Outcome};
use crate::sdk::{DockerFileBuilder, SDK};
use vstd::prelude::*;

verus! {

/// The stages of the pipeline, in their order.
#[derive(Debug, Clone, Copy, PartialEq, Eq, Structural)]
pub enum Stage {
    Dockerfile,
    Build,
    Release,
    Deploy,
}

impl Stage {
    /// The place of the stage in the order of stages.
    pub open spec fn rank(self) -> nat {
        match self {
            Stage::Dockerfile => 0,
            Stage::Build => 1,
            Stage::Release => 2,
            Stage::Deploy => 3,
        }
    }

    /// The place of the stage in the order of stages.
    pub fn position(&self) -> (r: u8)
        ensures
            r == self.rank(),
    {
        match self {
            Stage::Dockerfile => 0,
            Stage::Build => 1,
            Stage::Release => 2,
            Stage::Deploy => 3,
        }
    }
}

/// What the operator asks for.
#[derive(Debug, Clone)]
pub enum Command {
    /// Write the Dockerfile of the project.
    Dockerfile,
    /// Build the image of the project.
    Build,
    /// Push the image to the registry.
    Release,
    /// Deploy the image to a cluster.
    Deploy { cluster: String },
}

impl Command {
    /// The stage that the command asks for.
    pub open spec fn stage(&self) -> Stage {
        match self {
            Command::Dockerfile => Stage::Dockerfile,
            Command::Build => Stage::Build,
            Command::Release => Stage::Release,
            Command::Deploy { .. } => Stage::Deploy,
        }
    }

    /// The cluster that the command deploys to; empty where it does not
    /// deploy.
    pub open spec fn cluster(&self) -> Seq<char> {
        match self {
            Command::Deploy { cluster } => cluster@,
            _ => Seq::empty(),
        }
    }
}

/// Whether a run of `requested` runs `stage`. A run includes every stage
/// up to the one that was asked for. The one exception: with an image that
/// the operator supplied, a release or a deploy runs nothing before itself.
pub open spec fn runs(requested: Stage, overridden: bool, stage: Stage) -> bool {
    stage == requested || (stage.rank() < requested.rank() && (!overridden || requested.rank()
        <= Stage::Build.rank()))
}

/// Whether a run of `requested` runs `stage`.
pub fn includes(requested: Stage, overridden: bool, stage: Stage) -> (r: bool)
    ensures
        r == runs(requested, overridden, stage),
{
    stage.position() == requested.position() || (stage.position() < requested.position() && (
    !overridden || requested.position() <= 1))
}

/// The name of the image of a run: the one that the operator supplied,
/// as it is, or else the one that the release target gives to the parts.
pub open spec fn image_reference_of(name: Name, supplied: Option<Seq<char>>) -> Seq<char> {
    match supplied {
        Some(image) => image,
        None => crate::docker::name::image_name(name.typ(), name.config()),
    }
}

/// The name of the image of a run.
pub fn image_reference(name: &Name, supplied: &Option<String>) -> (r: String)
    requires
        supplied is None ==> name.config().nameable(),
    ensures
        r@ == image_reference_of(*name, crate::text::optional(*supplied)),
{
    match supplied {
        Some(image) => image.clone(),
        None => name.to_string(),
    }
}

/// What the version control says of the source tree.
#[derive(Debug, Clone)]
pub struct GitMetadata {
    pub short_sha: String,
    pub owner: String,
    pub name: String,
}

/// A `GitMetadata` in the terms of contracts.
pub struct GitMetadataView {
    pub short_sha: Seq<char>,
    pub owner: Seq<char>,
    pub name: Seq<char>,
}

impl View for GitMetadata {
    type V = GitMetadataView;

    open spec fn view(&self) -> GitMetadataView {
        GitMetadataView { short_sha: self.short_sha@, owner: self.owner@, name: self.name@ }
    }
}

/// What a run is given before its first stage, and keeps to the end.
#[derive(Debug, Clone)]
pub struct Plan {
    /// The stage that was asked for.
    pub stage: Stage,
    /// The cluster that is deployed to; empty where nothing is deployed.
    pub cluster: String,
    /// Whether the operator supplied the name of the image.
    pub overridden: bool,
    /// The name of the image.
    pub image: String,
    /// The registry that the image is released to.
    pub registry: String,
    /// The path of the deployment manifest.
    pub manifest: String,
    /// The SDK of the source tree.
    pub sdk: SDK,
}

/// The name of the image of a run that releases under `typ`: the one that
/// the operator supplied, as it is, or else the one that the release
/// target gives to registry, team, application and tag.
pub open spec fn planned_image(
    typ: crate::config::runtime::ReleaseType,
    registry: Seq<char>,
    team: Seq<char>,
    app: Seq<char>,
    tag: Seq<char>,
    supplied: Option<Seq<char>>,
) -> Seq<char> {
    match supplied {
        Some(image) => image,
        None => match typ {
            crate::config::runtime::ReleaseType::GAR => crate::docker::name::gar_name(
                registry,
                team,
                app,
                tag,
            ),
            crate::config::runtime::ReleaseType::GHCR => crate::docker::name::ghcr_name(
                registry,
                app,
                tag,
            ),
        },
    }
}

impl Plan {
    /// What a run of `command` is given: the SDK of the source tree, the
    /// path of the deployment manifest, the registry of the release target,
    /// and the name of the image. Where the operator supplied a name, it is
    /// taken as it is; else the image is named after the release target,
    /// with `tag` as its tag.
    pub fn new(
        command: Command,
        supplied: Option<String>,
        cfg: &crate::config::runtime::Config,
        tag: &str,
        manifest: String,
        sdk: SDK,
    ) -> (r: Plan)
        requires
            supplied is None ==> cfg.app@.len() > 0 && tag@.len() > 0,
        ensures
            r.stage == command.stage(),
            r.cluster@ == command.cluster(),
            r.overridden == supplied is Some,
            r.image@ == planned_image(
                cfg.release.typ,
                cfg.release.params.registry@,
                cfg.team@,
                cfg.app@,
                tag@,
                crate::text::optional(supplied),
            ),
            r.registry@ == cfg.release.params.registry@,
            r.manifest == manifest,
            r.sdk == sdk,
    {
        let name = cfg.release.docker_name_builder(
            crate::docker::name::Config {
                registry: cfg.release.params.registry.clone(),
                team: cfg.team.clone(),
                app: cfg.app.clone(),
                tag: tag.to_owned(),
            },
        );
        let image = image_reference(&name, &supplied);
        let overridden = supplied.is_some();
        let (stage, cluster) = match command {
            Command::Dockerfile => (Stage::Dockerfile, String::new()),
            Command::Build => (Stage::Build, String::new()),
            Command::Release => (Stage::Release, String::new()),
            Command::Deploy { cluster } => (Stage::Deploy, cluster),
        };
        Plan {
            stage,
            cluster,
            overridden,
            image,
            registry: cfg.release.params.registry.clone(),
            manifest,
            sdk,
        }
    }
}

impl Plan {
    /// Whether an image can be named: the operator supplied a name, or
    /// neither the application nor the tag is empty.
    pub open spec fn nameable(supplied: Option<String>, app: Seq<char>, tag: Seq<char>) -> bool {
        supplied is Some || (app.len() > 0 && tag.len() > 0)
    }

    /// What a run of `command` is given, as `new` says, where an image can
    /// be named; else the configuration is incomplete.
    pub fn checked(
        command: Command,
        supplied: Option<String>,
        cfg: &crate::config::runtime::Config,
        tag: &str,
        manifest: String,
        sdk: SDK,
    ) -> (r: Result<Plan, Error>)
        ensures
            r is Ok <==> Self::nameable(supplied, cfg.app@, tag@),
            r matches Err(err) ==> err@ == ErrorView::ConfigIncomplete,
            r matches Ok(plan) ==> {
                &&& plan.stage == command.stage()
                &&& plan.cluster@ == command.cluster()
                &&& plan.overridden == supplied is Some
                &&& plan.image@ == planned_image(
                    cfg.release.typ,
                    cfg.release.params.registry@,
                    cfg.team@,
                    cfg.app@,
                    tag@,
                    crate::text::optional(supplied),
                )
                &&& plan.registry@ == cfg.release.params.registry@
                &&& plan.manifest == manifest
                &&& plan.sdk == sdk
            },
    {
        if supplied.is_none() && (cfg.app.as_str().unicode_len() == 0 || tag.unicode_len() == 0) {
            return Err(Error::ConfigIncomplete);
        }
        Ok(Plan::new(command, supplied, cfg, tag, manifest, sdk))
    }
}

/// What the pipeline waits for.
#[derive(Debug, Clone, Copy, PartialEq, Eq, Structural)]
pub enum Phase {
    Printing,
    GatheringGit,
    Building,
    AcquiringToken,
    LoggingIn,
    Pushing,
    LoggingOut,
    ReadingEnvironment,
    Deploying,
    Finished,
}

impl Phase {
    /// The stage that the phase belongs to; none for the end of a run. The
    /// Dockerfile of a build is written as the build begins.
    pub open spec fn stage(self) -> Option<Stage> {
        match self {
            Phase::Printing => Some(Stage::Dockerfile),
            Phase::Building => Some(Stage::Build),
            Phase::AcquiringToken | Phase::LoggingIn | Phase::Pushing | Phase::LoggingOut => Some(
                Stage::Release,
            ),
            Phase::GatheringGit | Phase::ReadingEnvironment | Phase::Deploying => Some(
                Stage::Deploy,
            ),
            Phase::Finished => None,
        }
    }

    /// How far a run has come when it waits in this phase. A deploy asks
    /// the version control before anything else.
    pub open spec fn progress(self) -> nat {
        match self {
            Phase::GatheringGit => 0,
            Phase::Printing => 1,
            Phase::Building => 2,
            Phase::AcquiringToken => 3,
            Phase::LoggingIn => 4,
            Phase::Pushing => 5,
            Phase::LoggingOut => 6,
            Phase::ReadingEnvironment => 7,
            Phase::Deploying => 8,
            Phase::Finished => 9,
        }
    }
}

/// What came of an action.
#[derive(Debug)]
pub enum Event {
    /// The Dockerfile was printed.
    Printed,
    /// What the version control says, or why it says nothing.
    Git(Result<GitMetadata, String>),
    /// The outcome of a command.
    Process(Outcome),
    /// The registry token, or why there is none.
    Token(Result<String, crate::auth::Failure>),
    /// The API key and the address of the deploy server, as far as the
    /// environment holds them.
    Environment { apikey: Option<String>, deploy_server: Option<String> },
}

/// What the pipeline asks its caller to do.
#[derive(Debug)]
pub enum Action {
    /// Print the Dockerfile, and say how the image would be named.
    Print { dockerfile: String, image: String },
    /// Ask the version control about the source tree.
    GatherGit { filesystem_path: String },
    /// Write the Dockerfile to a transient file, build the image `tag`
    /// from it with the source tree as context, and remove the file.
    Build { dockerfile: String, tag: String, filesystem_path: String },
    /// Obtain a registry token.
    AcquireToken,
    /// Run the command that logs in to the registry.
    Login(Invocation),
    /// Run the command that pushes the image.
    Push(Invocation),
    /// Run the command that logs out of the registry.
    Logout(Invocation),
    /// Read the API key and the address of the deploy server.
    ReadEnvironment,
    /// Run the command that deploys.
    Deploy(Invocation),
    /// Nothing is left to do: the run has ended, well or not.
    Done(Result<(), Error>),
}

/// An `Action` in the terms of contracts.
pub enum ActionView {
    Print { dockerfile: Seq<char>, image: Seq<char> },
    GatherGit { filesystem_path: Seq<char> },
    Build { dockerfile: Seq<char>, tag: Seq<char>, filesystem_path: Seq<char> },
    AcquireToken,
    Login(InvocationView),
    Push(InvocationView),
    Logout(InvocationView),
    ReadEnvironment,
    Deploy(InvocationView),
    Done(Result<(), ErrorView>),
}

impl View for Action {
    type V = ActionView;

    open spec fn view(&self) -> ActionView {
        match self {
            Action::Print { dockerfile, image } => ActionView::Print {
                dockerfile: dockerfile@,
                image: image@,
            },
            Action::GatherGit { filesystem_path } => ActionView::GatherGit {
                filesystem_path: filesystem_path@,
            },
            Action::Build { dockerfile, tag, filesystem_path } => ActionView::Build {
                dockerfile: dockerfile@,
                tag: tag@,
                filesystem_path: filesystem_path@,
            },
            Action::AcquireToken => ActionView::AcquireToken,
            Action::Login(invocation) => ActionView::Login(invocation@),
            Action::Push(invocation) => ActionView::Push(invocation@),
            Action::Logout(invocation) => ActionView::Logout(invocation@),
            Action::ReadEnvironment => ActionView::ReadEnvironment,
            Action::Deploy(invocation) => ActionView::Deploy(invocation@),
            Action::Done(Ok(_)) => ActionView::Done(Ok(())),
            Action::Done(Err(err)) => ActionView::Done(Err(err@)),
        }
    }
}

/// A run of the pipeline between two steps.
#[derive(Debug)]
pub struct Pipeline {
    /// What the run was given.
    pub plan: Plan,
    /// What the run waits for.
    pub phase: Phase,
    /// What the version control said, once it has.
    pub git: Option<GitMetadata>,
    /// Why the push failed, kept while the logout runs.
    pub failure: Option<crate::docker::Error>,
}

/// What a step comes to, in the terms of contracts: what the pipeline
/// waits for next, what it remembers, and what it asks for.
pub struct Reaction {
    pub phase: Phase,
    pub git: Option<GitMetadataView>,
    pub failure: Option<crate::docker::ErrorView>,
    pub action: ActionView,
}

/// What the version control said, in the terms of contracts.
pub open spec fn git_view(git: Option<GitMetadata>) -> Option<GitMetadataView> {
    match git {
        Some(git) => Some(git@),
        None => None,
    }
}

/// Why the push failed, in the terms of contracts.
pub open spec fn failure_view(failure: Option<crate::docker::Error>) -> Option<
    crate::docker::ErrorView,
> {
    match failure {
        Some(failure) => Some(failure@),
        None => None,
    }
}

/// The variable that tells the manifest the name of the image.
pub open spec fn image_variable(image: Seq<char>) -> Seq<char> {
    "image="@ + image
}

/// What the deploy client is given: the API key and the server of the
/// environment; the cluster of the command; owner, name and commit of the
/// repository; the manifest as the one resource, and the image as the one
/// variable.
pub open spec fn deploy_request(
    plan: Plan,
    git: GitMetadataView,
    apikey: Seq<char>,
    deploy_server: Seq<char>,
) -> crate::deploy::ConfigView {
    crate::deploy::ConfigView {
        apikey,
        cluster: plan.cluster@,
        deploy_server,
        owner: git.owner,
        git_ref: git.short_sha,
        repository: git.name,
        resource: seq![plan.manifest@],
        var: seq![image_variable(plan.image@)],
        vars: Seq::empty(),
        wait: true,
    }
}

impl Pipeline {
    /// The run waits in a phase of a stage that it runs, remembers what
    /// the version control said from the moment it has said it, and keeps a
    /// failed push only while the logout runs.
    pub open spec fn well_formed(&self) -> bool {
        &&& self.phase.stage() matches Some(stage) ==> runs(
            self.plan.stage,
            self.plan.overridden,
            stage,
        )
        &&& self.plan.stage is Deploy && !(self.phase is GatheringGit) && !(self.phase
            is Finished) ==> self.git is Some
        &&& self.failure is Some ==> self.phase is LoggingOut
    }

    /// Whether `event` is what the pipeline waits for.
    pub open spec fn accepts(&self, event: Event) -> bool {
        match self.phase {
            Phase::Printing => event is Printed,
            Phase::GatheringGit => event is Git,
            Phase::AcquiringToken => event is Token,
            Phase::ReadingEnvironment => event is Environment,
            Phase::Building | Phase::LoggingIn | Phase::Pushing | Phase::LoggingOut
            | Phase::Deploying => event is Process,
            Phase::Finished => false,
        }
    }

    /// Whether `event` is what the pipeline waits for.
    pub fn is_accepted(&self, event: &Event) -> (r: bool)
        ensures
            r == self.accepts(*event),
    {
        match self.phase {
            Phase::Printing => match event {
                Event::Printed => true,
                _ => false,
            },
            Phase::GatheringGit => match event {
                Event::Git(_) => true,
                _ => false,
            },
            Phase::AcquiringToken => match event {
                Event::Token(_) => true,
                _ => false,
            },
            Phase::ReadingEnvironment => match event {
                Event::Environment { .. } => true,
                _ => false,
            },
            Phase::Building | Phase::LoggingIn | Phase::Pushing | Phase::LoggingOut
            | Phase::Deploying => match event {
                Event::Process(_) => true,
                _ => false,
            },
            Phase::Finished => false,
        }
    }

    /// The end of a run.
    pub open spec fn ended(result: Result<(), ErrorView>) -> Reaction {
        Reaction {
            phase: Phase::Finished,
            git: None,
            failure: None,
            action: ActionView::Done(result),
        }
    }

    /// What the pipeline does when it turns to `phase`, one of the phases
    /// that a stage begins with, or the end. Where the Dockerfile cannot be
    /// written, the run ends there.
    pub open spec fn turning_to(
        plan: Plan,
        git: Option<GitMetadataView>,
        phase: Phase,
    ) -> Reaction {
        match phase {
            Phase::Printing => match plan.sdk.script() {
                Ok(dockerfile) => Reaction {
                    phase,
                    git,
                    failure: None,
                    action: ActionView::Print { dockerfile, image: plan.image@ },
                },
                Err(err) => Self::ended(Err(ErrorView::SDKError(err))),
            },
            Phase::Building => match crate::docker::build_script_of(plan.sdk) {
                Ok(dockerfile) => Reaction {
                    phase,
                    git,
                    failure: None,
                    action: ActionView::Build {
                        dockerfile,
                        tag: plan.image@,
                        filesystem_path: plan.sdk.root(),
                    },
                },
                Err(err) => Self::ended(Err(ErrorView::Docker(err))),
            },
            Phase::GatheringGit => Reaction {
                phase,
                git,
                failure: None,
                action: ActionView::GatherGit { filesystem_path: plan.sdk.root() },
            },
            Phase::AcquiringToken => Reaction {
                phase,
                git,
                failure: None,
                action: ActionView::AcquireToken,
            },
            Phase::ReadingEnvironment => Reaction {
                phase,
                git,
                failure: None,
                action: ActionView::ReadEnvironment,
            },
            _ => Self::ended(Ok(())),
        }
    }

    /// The phase that a run begins with.
    pub open spec fn first_phase(plan: Plan) -> Phase {
        match plan.stage {
            Stage::Dockerfile => Phase::Printing,
            Stage::Build => Phase::Building,
            Stage::Release => if plan.overridden {
                Phase::AcquiringToken
            } else {
                Phase::Building
            },
            Stage::Deploy => Phase::GatheringGit,
        }
    }

    /// The phase that follows a build that went well.
    pub open spec fn after_build(plan: Plan) -> Phase {
        if plan.stage is Build {
            Phase::Finished
        } else {
            Phase::AcquiringToken
        }
    }

    /// The phase that follows a release that went well.
    pub open spec fn after_release(plan: Plan) -> Phase {
        if plan.stage is Deploy {
            Phase::ReadingEnvironment
        } else {
            Phase::Finished
        }
    }

    /// The phase that follows the answer of the version control.
    pub open spec fn after_git(plan: Plan) -> Phase {
        if plan.overridden {
            Phase::ReadingEnvironment
        } else {
            Phase::Building
        }
    }

    /// What the pipeline does with `event`.
    ///
    /// A failure ends the run with that failure, and nothing more is asked
    /// for. The one exception is a failed push: the logout is still asked
    /// for, and when it has run, the run ends with the failure of the push,
    /// however the logout went. The deploy client is asked for only with an
    /// API key and the address of a deploy server.
    pub open spec fn reaction(&self, event: Event) -> Reaction {
        let plan = self.plan;
        let git = git_view(self.git);
        match (self.phase, event) {
            (Phase::Printing, Event::Printed) => Self::ended(Ok(())),
            (Phase::GatheringGit, Event::Git(Ok(metadata))) => Self::turning_to(
                plan,
                Some(metadata@),
                Self::after_git(plan),
            ),
            (Phase::GatheringGit, Event::Git(Err(err))) => Self::ended(
                Err(ErrorView::FilesystemError(err@)),
            ),
            (Phase::Building, Event::Process(outcome)) => match crate::docker::verdict(
                Operation::Build,
                outcome,
            ) {
                Ok(_) => Self::turning_to(plan, git, Self::after_build(plan)),
                Err(err) => Self::ended(Err(ErrorView::Docker(err))),
            },
            (Phase::AcquiringToken, Event::Token(Ok(token))) => Reaction {
                phase: Phase::LoggingIn,
                git,
                failure: None,
                action: ActionView::Login(crate::docker::login_invocation(plan.registry@, token@)),
            },
            (Phase::AcquiringToken, Event::Token(Err(err))) => Self::ended(
                Err(ErrorView::Google(err@)),
            ),
            (Phase::LoggingIn, Event::Process(outcome)) => match crate::docker::verdict(
                Operation::Login,
                outcome,
            ) {
                Ok(_) => Reaction {
                    phase: Phase::Pushing,
                    git,
                    failure: None,
                    action: ActionView::Push(crate::docker::push_invocation(plan.image@)),
                },
                Err(err) => Self::ended(Err(ErrorView::Docker(err))),
            },
            (Phase::Pushing, Event::Process(outcome)) => Reaction {
                phase: Phase::LoggingOut,
                git,
                failure: match crate::docker::verdict(Operation::Push, outcome) {
                    Ok(_) => None,
                    Err(err) => Some(err),
                },
                action: ActionView::Logout(crate::docker::logout_invocation(plan.registry@)),
            },
            (Phase::LoggingOut, Event::Process(outcome)) => match failure_view(self.failure) {
                Some(err) => Self::ended(Err(ErrorView::Docker(err))),
                None => match crate::docker::verdict(Operation::Logout, outcome) {
                    Ok(_) => Self::turning_to(plan, git, Self::after_release(plan)),
                    Err(err) => Self::ended(Err(ErrorView::Docker(err))),
                },
            },
            (
                Phase::ReadingEnvironment,
                Event::Environment { apikey: Some(apikey), deploy_server: Some(deploy_server) },
            ) => Reaction {
                phase: Phase::Deploying,
                git,
                failure: None,
                action: ActionView::Deploy(
                    crate::deploy::invocation(
                        deploy_request(plan, git->0, apikey@, deploy_server@),
                    ),
                ),
            },
            (Phase::ReadingEnvironment, Event::Environment { .. }) => Self::ended(
                Err(ErrorView::ConfigIncomplete),
            ),
            (Phase::Deploying, Event::Process(outcome)) => match crate::deploy::verdict(outcome) {
                Ok(_) => Self::ended(Ok(())),
                Err(err) => Self::ended(Err(ErrorView::Deploy(err))),
            },
            _ => Self::ended(Ok(())),
        }
    }

    /// Whether the pipeline `next` and the action `action` are what
    /// `reaction` says.
    pub open spec fn is_reaction(
        plan: Plan,
        next: Pipeline,
        action: Action,
        reaction: Reaction,
    ) -> bool {
        &&& next.plan == plan
        &&& next.phase == reaction.phase
        &&& git_view(next.git) == reaction.git
        &&& failure_view(next.failure) == reaction.failure
        &&& action@ == reaction.action
    }

    /// Ends the run.
    fn end(plan: Plan, result: Result<(), Error>) -> (r: (Pipeline, Action))
        ensures
            Self::is_reaction(
                plan,
                r.0,
                r.1,
                Self::ended(
                    match result {
                        Ok(_) => Ok(()),
                        Err(err) => Err(err@),
                    },
                ),
            ),
            r.0.well_formed(),
    {
        (
            Pipeline { plan, phase: Phase::Finished, git: None, failure: None },
            Action::Done(result),
        )
    }

    /// Turns to `phase`, one of the phases that a stage begins with, or
    /// the end.
    fn turn_to(plan: Plan, git: Option<GitMetadata>, phase: Phase) -> (r: (Pipeline, Action))
        requires
            phase.stage() matches Some(stage) ==> runs(plan.stage, plan.overridden, stage),
            plan.stage is Deploy && !(phase is GatheringGit) ==> git is Some,
        ensures
            Self::is_reaction(plan, r.0, r.1, Self::turning_to(plan, git_view(git), phase)),
            r.0.well_formed(),
    {
        match phase {
            Phase::Printing => match plan.sdk.dockerfile() {
                Ok(dockerfile) => {
                    let action = Action::Print { dockerfile, image: plan.image.clone() };
                    (Pipeline { plan, phase, git, failure: None }, action)
                },
                Err(err) => Self::end(plan, Err(Error::SDKError(err))),
            },
            Phase::Building => match crate::docker::build_script(&plan.sdk) {
                Ok(dockerfile) => {
                    let action = Action::Build {
                        dockerfile,
                        tag: plan.image.clone(),
                        filesystem_path: plan.sdk.filesystem_path(),
                    };
                    (Pipeline { plan, phase, git, failure: None }, action)
                },
                Err(err) => Self::end(plan, Err(Error::Docker(err))),
            },
            Phase::GatheringGit => {
                let action = Action::GatherGit { filesystem_path: plan.sdk.filesystem_path() };
                (Pipeline { plan, phase, git, failure: None }, action)
            },
            Phase::AcquiringToken => (
                Pipeline { plan, phase, git, failure: None },
                Action::AcquireToken,
            ),
            Phase::ReadingEnvironment => (
                Pipeline { plan, phase, git, failure: None },
                Action::ReadEnvironment,
            ),
            _ => Self::end(plan, Ok(())),
        }
    }

    /// Begins a run: says what is to be done first.
    pub fn start(plan: Plan) -> (r: (Pipeline, Action))
        ensures
            Self::is_reaction(
                plan,
                r.0,
                r.1,
                Self::turning_to(plan, None, Self::first_phase(plan)),
            ),
            r.0.well_formed(),
    {
        let phase = match plan.stage {
            Stage::Dockerfile => Phase::Printing,
            Stage::Build => Phase::Building,
            Stage::Release => if plan.overridden {
                Phase::AcquiringToken
            } else {
                Phase::Building
            },
            Stage::Deploy => Phase::GatheringGit,
        };
        Self::turn_to(plan, None, phase)
    }

    /// Takes what came of the last action, and says what is to be done
    /// next.
    pub fn step(self, event: Event) -> (r: (Pipeline, Action))
        requires
            self.well_formed(),
            self.accepts(event),
        ensures
            Self::is_reaction(self.plan, r.0, r.1, self.reaction(event)),
            r.0.well_formed(),
    {
        let Pipeline { plan, phase, git, failure } = self;
        match (phase, event) {
            (Phase::Printing, Event::Printed) => Self::end(plan, Ok(())),
            (Phase::GatheringGit, Event::Git(Ok(metadata))) => {
                let next = if plan.overridden {
                    Phase::ReadingEnvironment
                } else {
                    Phase::Building
                };
                Self::turn_to(plan, Some(metadata), next)
            },
            (Phase::GatheringGit, Event::Git(Err(err))) => Self::end(
                plan,
                Err(Error::FilesystemError(err)),
            ),
            (Phase::Building, Event::Process(outcome)) => match crate::docker::build(&outcome) {
                Ok(_) => {
                    let next = match plan.stage {
                        Stage::Build => Phase::Finished,
                        _ => Phase::AcquiringToken,
                    };
                    Self::turn_to(plan, git, next)
                },
                Err(err) => Self::end(plan, Err(Error::Docker(err))),
            },
            (Phase::AcquiringToken, Event::Token(Ok(token))) => {
                let action = Action::Login(
                    crate::docker::login_command(plan.registry.as_str(), token.as_str()),
                );
                (Pipeline { plan, phase: Phase::LoggingIn, git, failure: None }, action)
            },
            (Phase::AcquiringToken, Event::Token(Err(err))) => Self::end(
                plan,
                Err(Error::Google(err)),
            ),
            (Phase::LoggingIn, Event::Process(outcome)) => match crate::docker::login(&outcome) {
                Ok(_) => {
                    let action = Action::Push(crate::docker::push_command(plan.image.as_str()));
                    (Pipeline { plan, phase: Phase::Pushing, git, failure: None }, action)
                },
                Err(err) => Self::end(plan, Err(Error::Docker(err))),
            },
            (Phase::Pushing, Event::Process(outcome)) => {
                let failure = match crate::docker::push(&outcome) {
                    Ok(_) => None,
                    Err(err) => Some(err),
                };
                let action = Action::Logout(
                    crate::docker::logout_command(plan.registry.as_str()),
                );
                (Pipeline { plan, phase: Phase::LoggingOut, git, failure }, action)
            },
            (Phase::LoggingOut, Event::Process(outcome)) => match failure {
                Some(err) => Self::end(plan, Err(Error::Docker(err))),
                None => match crate::docker::logout(&outcome) {
                    Ok(_) => {
                        let next = match plan.stage {
                            Stage::Deploy => Phase::ReadingEnvironment,
                            _ => Phase::Finished,
                        };
                        Self::turn_to(plan, git, next)
                    },
                    Err(err) => Self::end(plan, Err(Error::Docker(err))),
                },
            },
            (Phase::ReadingEnvironment, Event::Environment { apikey, deploy_server }) => {
                match crate::deploy::Config::try_new_from_env(apikey, deploy_server) {
                    None => Self::end(plan, Err(Error::ConfigIncomplete)),
                    Some(cfg) => {
                        let metadata = match &git {
                            Some(metadata) => metadata,
                            None => {
                                assert(false);
                                return Self::end(plan, Err(Error::ConfigIncomplete));
                            },
                        };
                        let request = Self::deploy_config(cfg, &plan, metadata);
                        let action = Action::Deploy(crate::deploy::deploy_command(&request));
                        (Pipeline { plan, phase: Phase::Deploying, git, failure: None }, action)
                    },
                }
            },
            (Phase::Deploying, Event::Process(outcome)) => match crate::deploy::deploy(
                &outcome,
            ) {
                Ok(_) => Self::end(plan, Ok(())),
                Err(err) => Self::end(plan, Err(Error::Deploy(err))),
            },
            _ => {
                assert(false);
                Self::end(plan, Ok(()))
            },
        }
    }

    /// Completes the configuration of the environment with what the run
    /// knows: the cluster, the repository and its commit, the manifest and
    /// the image.
    pub fn deploy_config(cfg: crate::deploy::Config, plan: &Plan, git: &GitMetadata) -> (r:
        crate::deploy::Config)
        ensures
            r@ == (crate::deploy::ConfigView {
                cluster: plan.cluster@,
                owner: git.owner@,
                git_ref: git.short_sha@,
                repository: git.name@,
                resource: seq![plan.manifest@],
                var: seq![image_variable(plan.image@)],
                ..cfg@
            }),
    {
        let mut cfg = cfg;
        cfg.cluster = plan.cluster.clone();
        cfg.owner = git.owner.clone();
        cfg.git_ref = git.short_sha.clone();
        cfg.repository = git.name.clone();
        let mut resource: Vec<String> = Vec::new();
        resource.push(plan.manifest.clone());
        cfg.resource = resource;
        let mut variable = "image=".to_owned();
        variable.append(plan.image.as_str());
        let mut var: Vec<String> = Vec::new();
        var.push(variable);
        cfg.var = var;
        assert(cfg@.resource =~= seq![plan.manifest@]);
        assert(cfg@.var =~= seq![image_variable(plan.image@)]);
        cfg
    }
}

/// Every step brings a run forward: no phase is waited in twice, and a run
/// ends after at most nine steps.
pub proof fn lemma_steps_advance(pipeline: Pipeline, event: Event)
    requires
        pipeline.well_formed(),
        pipeline.accepts(event),
    ensures
        pipeline.reaction(event).phase.progress() > pipeline.phase.progress(),
{
}

/// A run asks only for what belongs to a stage that it runs: with an image
/// that the operator supplied, a release or a deploy never prints or
/// builds, and a deploy never touches the registry.
pub proof fn lemma_steps_stay_on_course(pipeline: Pipeline, event: Event)
    requires
        pipeline.well_formed(),
        pipeline.accepts(event),
    ensures
        pipeline.reaction(event).phase.stage() matches Some(stage) ==> runs(
            pipeline.plan.stage,
            pipeline.plan.overridden,
            stage,
        ),
        pipeline.reaction(event).action is Print ==> pipeline.plan.stage is Dockerfile,
        pipeline.reaction(event).action is Build ==> !pipeline.plan.overridden
            || pipeline.plan.stage is Build,
        pipeline.reaction(event).action is Login || pipeline.reaction(event).action is Push
            || pipeline.reaction(event).action is Logout ==> pipeline.plan.stage is Release
            || (pipeline.plan.stage is Deploy && !pipeline.plan.overridden),
        pipeline.reaction(event).action is Deploy ==> pipeline.plan.stage is Deploy,
{
}

/// A build is always given the Dockerfile of the SDK and the name of the
/// image: the Dockerfile is written before anything is built.
pub proof fn lemma_build_writes_the_dockerfile(pipeline: Pipeline, event: Event)
    requires
        pipeline.well_formed(),
        pipeline.accepts(event),
    ensures
        pipeline.reaction(event).action matches ActionView::Build {
            dockerfile,
            tag,
            filesystem_path,
        } ==> pipeline.plan.sdk.script() == Ok::<Seq<char>, crate::sdk::ErrorView>(dockerfile)
            && tag == pipeline.plan.image@ && filesystem_path == pipeline.plan.sdk.root(),
{
}

/// After a push that failed, the logout is asked for; and when the logout
/// has run, the run ends with the failure of the push, however the logout
/// went. Nothing is asked for after that, so the logout runs once.
pub proof fn lemma_failed_push_logs_out_once(
    pushing: Pipeline,
    push: Outcome,
    logging_out: Pipeline,
    logout: Outcome,
)
    requires
        pushing.well_formed(),
        pushing.phase is Pushing,
        crate::docker::verdict(Operation::Push, push) is Err,
        logging_out.plan == pushing.plan,
        logging_out.phase == pushing.reaction(Event::Process(push)).phase,
        failure_view(logging_out.failure) == pushing.reaction(Event::Process(push)).failure,
    ensures
        pushing.reaction(Event::Process(push)).action == ActionView::Logout(
            crate::docker::logout_invocation(pushing.plan.registry@),
        ),
        logging_out.phase is LoggingOut,
        logging_out.reaction(Event::Process(logout)) == Pipeline::ended(
            Err(ErrorView::Docker(crate::docker::verdict(Operation::Push, push)->Err_0)),
        ),
        logging_out.reaction(Event::Process(logout)).phase is Finished,
{
}

/// The logout is asked for after every push, and only then.
pub proof fn lemma_logout_follows_push(pipeline: Pipeline, event: Event)
    requires
        pipeline.well_formed(),
        pipeline.accepts(event),
    ensures
        pipeline.reaction(event).action is Logout <==> pipeline.phase is Pushing,
{
}

/// The deploy client is asked for only when the environment holds both the
/// API key and the address of the deploy server; with either missing, the
/// run ends there as incomplete.
pub proof fn lemma_incomplete_deploy_is_not_attempted(pipeline: Pipeline, event: Event)
    requires
        pipeline.well_formed(),
        pipeline.accepts(event),
    ensures
        pipeline.reaction(event).action is Deploy ==> pipeline.phase is ReadingEnvironment && (
        event matches Event::Environment { apikey: Some(_), deploy_server: Some(_) }),
        pipeline.phase is ReadingEnvironment && (event matches Event::Environment {
            apikey,
            deploy_server,
        } && (apikey is None || deploy_server is None)) ==> pipeline.reaction(event)
            == Pipeline::ended(Err(ErrorView::ConfigIncomplete)),
{
}

/// A failure ends the run: once an action has failed, nothing more is
/// asked for, except the logout after a failed push.
pub proof fn lemma_failure_aborts(pipeline: Pipeline, outcome: Outcome)
    requires
        pipeline.well_formed(),
        pipeline.accepts(Event::Process(outcome)),
        !(outcome matches Outcome::Exited(status) && status.succeeded()),
        !(pipeline.phase is Pushing),
    ensures
        pipeline.reaction(Event::Process(outcome)).phase is Finished,
        pipeline.reaction(Event::Process(outcome)).action matches ActionView::Done(Err(_)),
{
}

/// Whether `next` is what `event` turns `pipeline` into.
pub open spec fn follows(pipeline: Pipeline, event: Event, next: Pipeline) -> bool {
    &&& next.plan == pipeline.plan
    &&& next.phase == pipeline.reaction(event).phase
    &&& git_view(next.git) == pipeline.reaction(event).git
    &&& failure_view(next.failure) == pipeline.reaction(event).failure
}

/// Whether the pipelines are the states of one run, with `events` between
/// them: each event is what the pipeline before it waits for, and turns it
/// into the pipeline after it.
pub open spec fn is_run(states: Seq<Pipeline>, events: Seq<Event>) -> bool {
    &&& states.len() == events.len() + 1
    &&& forall|k: int|
        0 <= k < events.len() ==> (#[trigger] states[k]).well_formed() && states[k].accepts(
            events[k],
        ) && follows(states[k], events[k], states[k + 1])
}

/// The action that the run asks for after its `k`th event.
pub open spec fn action_at(states: Seq<Pipeline>, events: Seq<Event>, k: int) -> ActionView {
    states[k].reaction(events[k]).action
}

/// In a run, every state is further on than the states before it.
pub proof fn lemma_run_advances(states: Seq<Pipeline>, events: Seq<Event>, i: int, j: int)
    requires
        is_run(states, events),
        0 <= i < j <= events.len(),
    ensures
        states[i].phase.progress() < states[j].phase.progress(),
    decreases j - i,
{
    assert(states[j - 1].well_formed());
    lemma_steps_advance(states[j - 1], events[j - 1]);
    if i < j - 1 {
        lemma_run_advances(states, events, i, j - 1);
    }
}

/// A run ends after at most nine events.
pub proof fn lemma_run_ends(states: Seq<Pipeline>, events: Seq<Event>)
    requires
        is_run(states, events),
    ensures
        events.len() <= 9,
{
    if events.len() > 0 {
        lemma_run_advances(states, events, 0, events.len() as int);
    }
}

/// A run asks for the logout at most once.
pub proof fn lemma_run_logs_out_at_most_once(
    states: Seq<Pipeline>,
    events: Seq<Event>,
    i: int,
    j: int,
)
    requires
        is_run(states, events),
        0 <= i < j < events.len(),
    ensures
        !(action_at(states, events, i) is Logout && action_at(states, events, j) is Logout),
{
    assert(states[i].well_formed());
    assert(states[j].well_formed());
    lemma_logout_follows_push(states[i], events[i]);
    lemma_logout_follows_push(states[j], events[j]);
    lemma_run_advances(states, events, i, j);
}

/// A run in which the push fails asks for the logout right after the
/// push, and ends with the failure of the push as soon as the logout has
/// run, however it went.
pub proof fn lemma_run_with_failed_push(states: Seq<Pipeline>, events: Seq<Event>, i: int)
    requires
        is_run(states, events),
        0 <= i < events.len(),
        states[i].phase is Pushing,
        events[i] matches Event::Process(push) && crate::docker::verdict(Operation::Push, push)
            is Err,
    ensures
        action_at(states, events, i) is Logout,
        events.len() <= i + 2,
        i + 1 < events.len() ==> action_at(states, events, i + 1) == ActionView::Done(
            Err(
                ErrorView::Docker(
                    crate::docker::verdict(Operation::Push, events[i]->Process_0)->Err_0,
                ),
            ),
        ),
{
    assert(states[i].well_formed());
    if i + 1 < events.len() {
        assert(states[i + 1].well_formed());
        assert(states[i + 1].phase is LoggingOut);
        assert(events[i + 1] is Process);
        lemma_failed_push_logs_out_once(
            states[i],
            events[i]->Process_0,
            states[i + 1],
            events[i + 1]->Process_0,
        );
        if i + 2 < events.len() {
            assert(states[i + 2].well_formed());
            assert(states[i + 2].phase is Finished);
            assert(states[i + 2].accepts(events[i + 2]));
        }
    }
}

/// A run never asks for the deploy client unless the environment held both
/// the API key and the address of the deploy server.
pub proof fn lemma_run_deploys_with_complete_configuration(
    states: Seq<Pipeline>,
    events: Seq<Event>,
    k: int,
)
    requires
        is_run(states, events),
        0 <= k < events.len(),
        action_at(states, events, k) is Deploy,
    ensures
        events[k] matches Event::Environment { apikey: Some(_), deploy_server: Some(_) },
{
    assert(states[k].well_formed());
    lemma_incomplete_deploy_is_not_attempted(states[k], events[k]);
}

} // verus!
