//! The container engine: image names, image tags, the commands it is given
//! and what becomes of their outcomes.

use crate::process::{ExitStatus, Invocation, InvocationView, Outcome};
use crate::sdk::{DockerFileBuilder, SDK};
use vstd::prelude::*;

pub mod name;
pub mod tag;

verus! {

/// The program that is run for every operation of the container engine.
pub const PROGRAM: &'static str = "docker";

/// The user that a registry token is presented under.
pub const TOKEN_USERNAME: &'static str = "oauth2accesstoken";

/// Why an operation of the container engine failed.
#[derive(Debug, Clone)]
pub enum Error {
    /// The build ended with a failure.
    Build(ExitStatus),
    /// The Dockerfile could not be written.
    Generate(crate::sdk::Error),
    /// The login ended with a failure.
    Login(ExitStatus),
    /// The logout ended with a failure.
    Logout(ExitStatus),
    /// The push ended with a failure.
    Push(ExitStatus),
    /// The engine could not be run; the text says why.
    IOError(String),
}

/// An `Error` in the terms of contracts.
pub enum ErrorView {
    Build(ExitStatus),
    Generate(crate::sdk::ErrorView),
    Login(ExitStatus),
    Logout(ExitStatus),
    Push(ExitStatus),
    IOError(Seq<char>),
}

impl View for Error {
    type V = ErrorView;

    open spec fn view(&self) -> ErrorView {
        match self {
            Error::Build(status) => ErrorView::Build(*status),
            Error::Generate(err) => ErrorView::Generate(err@),
            Error::Login(status) => ErrorView::Login(*status),
            Error::Logout(status) => ErrorView::Logout(*status),
            Error::Push(status) => ErrorView::Push(*status),
            Error::IOError(err) => ErrorView::IOError(err@),
        }
    }
}

/// The operations of the container engine that the pipeline uses.
#[derive(Debug, Clone, Copy, PartialEq, Eq, Structural)]
pub enum Operation {
    Build,
    Login,
    Logout,
    Push,
}

/// The failure of an operation that ended with `status`.
pub open spec fn failure(operation: Operation, status: ExitStatus) -> ErrorView {
    match operation {
        Operation::Build => ErrorView::Build(status),
        Operation::Login => ErrorView::Login(status),
        Operation::Logout => ErrorView::Logout(status),
        Operation::Push => ErrorView::Push(status),
    }
}

/// What the outcome of an operation means: success where the engine ended
/// with exit code zero, else the failure with its exit status, or the
/// reason why the engine could not be run.
pub open spec fn verdict(operation: Operation, outcome: Outcome) -> Result<(), ErrorView> {
    match outcome {
        Outcome::Exited(status) => if status.succeeded() {
            Ok(())
        } else {
            Err(failure(operation, status))
        },
        Outcome::Failed(err) => Err(ErrorView::IOError(err@)),
    }
}

/// Whether `r` is the verdict `want`, up to the characters of its strings.
pub open spec fn is_verdict(r: Result<(), Error>, want: Result<(), ErrorView>) -> bool {
    match r {
        Ok(_) => want is Ok,
        Err(err) => want == Err::<(), ErrorView>(err@),
    }
}

/// Judges the outcome of an operation of the container engine.
pub fn judge(operation: Operation, outcome: &Outcome) -> (r: Result<(), Error>)
    ensures
        is_verdict(r, verdict(operation, *outcome)),
{
    match outcome {
        Outcome::Exited(status) => {
            if status.success() {
                Ok(())
            } else {
                match operation {
                    Operation::Build => Err(Error::Build(*status)),
                    Operation::Login => Err(Error::Login(*status)),
                    Operation::Logout => Err(Error::Logout(*status)),
                    Operation::Push => Err(Error::Push(*status)),
                }
            }
        },
        Outcome::Failed(err) => Err(Error::IOError(err.clone())),
    }
}

/// The Dockerfile that a build is run with, or why there is none.
pub open spec fn build_script_of(sdk: SDK) -> Result<Seq<char>, ErrorView> {
    match sdk.script() {
        Ok(script) => Ok(script),
        Err(err) => Err(ErrorView::Generate(err)),
    }
}

/// Writes the Dockerfile that the build of `docker_file_builder` is run
/// with.
pub fn build_script(docker_file_builder: &SDK) -> (r: Result<String, Error>)
    ensures
        match r {
            Ok(script) => build_script_of(*docker_file_builder) == Ok::<Seq<char>, ErrorView>(
                script@,
            ),
            Err(err) => build_script_of(*docker_file_builder) == Err::<Seq<char>, ErrorView>(
                err@,
            ),
        },
{
    match docker_file_builder.dockerfile() {
        Ok(script) => Ok(script),
        Err(err) => Err(Error::Generate(err)),
    }
}

/// `docker build --file <dockerfile> --tag <tag> <context>`
pub open spec fn build_invocation(
    dockerfile: Seq<char>,
    tag: Seq<char>,
    context: Seq<char>,
) -> InvocationView {
    InvocationView {
        program: PROGRAM@,
        arguments: seq!["build"@, "--file"@, dockerfile, "--tag"@, tag, context],
        stdin: None,
    }
}

/// `docker login <registry> --username oauth2accesstoken --password-stdin`,
/// with the token on standard input.
pub open spec fn login_invocation(registry: Seq<char>, token: Seq<char>) -> InvocationView {
    InvocationView {
        program: PROGRAM@,
        arguments: seq!["login"@, registry, "--username"@, TOKEN_USERNAME@, "--password-stdin"@],
        stdin: Some(token),
    }
}

/// `docker logout <registry>`
pub open spec fn logout_invocation(registry: Seq<char>) -> InvocationView {
    InvocationView { program: PROGRAM@, arguments: seq!["logout"@, registry], stdin: None }
}

/// `docker push <image>`
pub open spec fn push_invocation(image_name: Seq<char>) -> InvocationView {
    InvocationView { program: PROGRAM@, arguments: seq!["push"@, image_name], stdin: None }
}

/// The command that builds the image `tag` from the Dockerfile at
/// `dockerfile_path`, with the source tree at `filesystem_path` as context.
pub fn build_command(dockerfile_path: &str, tag: &str, filesystem_path: &str) -> (r: Invocation)
    ensures
        r@ == build_invocation(dockerfile_path@, tag@, filesystem_path@),
{
    let mut arguments: Vec<String> = Vec::new();
    arguments.push("build".to_owned());
    arguments.push("--file".to_owned());
    arguments.push(dockerfile_path.to_owned());
    arguments.push("--tag".to_owned());
    arguments.push(tag.to_owned());
    arguments.push(filesystem_path.to_owned());
    let r = Invocation { program: PROGRAM.to_owned(), arguments, stdin: None };
    assert(r@.arguments =~= build_invocation(dockerfile_path@, tag@, filesystem_path@).arguments);
    r
}

/// The command that logs in to `registry` with `token`.
pub fn login_command(registry: &str, token: &str) -> (r: Invocation)
    ensures
        r@ == login_invocation(registry@, token@),
{
    let mut arguments: Vec<String> = Vec::new();
    arguments.push("login".to_owned());
    arguments.push(registry.to_owned());
    arguments.push("--username".to_owned());
    arguments.push(TOKEN_USERNAME.to_owned());
    arguments.push("--password-stdin".to_owned());
    let r = Invocation { program: PROGRAM.to_owned(), arguments, stdin: Some(token.to_owned()) };
    assert(r@.arguments =~= login_invocation(registry@, token@).arguments);
    r
}

/// The command that logs out of `registry`.
pub fn logout_command(registry: &str) -> (r: Invocation)
    ensures
        r@ == logout_invocation(registry@),
{
    let mut arguments: Vec<String> = Vec::new();
    arguments.push("logout".to_owned());
    arguments.push(registry.to_owned());
    let r = Invocation { program: PROGRAM.to_owned(), arguments, stdin: None };
    assert(r@.arguments =~= logout_invocation(registry@).arguments);
    r
}

/// The command that pushes the image `image_name`.
pub fn push_command(image_name: &str) -> (r: Invocation)
    ensures
        r@ == push_invocation(image_name@),
{
    let mut arguments: Vec<String> = Vec::new();
    arguments.push("push".to_owned());
    arguments.push(image_name.to_owned());
    let r = Invocation { program: PROGRAM.to_owned(), arguments, stdin: None };
    assert(r@.arguments =~= push_invocation(image_name@).arguments);
    r
}

/// What became of a build, given the outcome of its command.
pub fn build(outcome: &Outcome) -> (r: Result<(), Error>)
    ensures
        is_verdict(r, verdict(Operation::Build, *outcome)),
{
    judge(Operation::Build, outcome)
}

/// What became of a login, given the outcome of its command.
pub fn login(outcome: &Outcome) -> (r: Result<(), Error>)
    ensures
        is_verdict(r, verdict(Operation::Login, *outcome)),
{
    judge(Operation::Login, outcome)
}

/// What became of a logout, given the outcome of its command.
pub fn logout(outcome: &Outcome) -> (r: Result<(), Error>)
    ensures
        is_verdict(r, verdict(Operation::Logout, *outcome)),
{
    judge(Operation::Logout, outcome)
}

/// What became of a push, given the outcome of its command.
pub fn push(outcome: &Outcome) -> (r: Result<(), Error>)
    ensures
        is_verdict(r, verdict(Operation::Push, *outcome)),
{
    judge(Operation::Push, outcome)
}

impl ErrorView {
    /// The message shown to the operator.
    pub open spec fn message(self) -> Seq<char> {
        match self {
            ErrorView::Build(status) => "docker build failed with exit code "@
                + status.description(),
            ErrorView::Generate(err) => "dockerfile generation failed: "@ + err.message(),
            ErrorView::Login(status) => "docker login failed with exit code "@
                + status.description(),
            ErrorView::Logout(status) => "docker logout failed with exit code "@
                + status.description(),
            ErrorView::Push(status) => "docker push failed with exit code "@
                + status.description(),
            ErrorView::IOError(err) => err,
        }
    }
}

impl Error {
    /// The message shown to the operator.
    pub fn to_string(&self) -> (r: String)
        ensures
            r@ == self@.message(),
    {
        match self {
            Error::Build(status) => crate::text::join(
                "docker build failed with exit code ",
                status.to_string().as_str(),
            ),
            Error::Generate(err) => crate::text::join(
                "dockerfile generation failed: ",
                err.to_string().as_str(),
            ),
            Error::Login(status) => crate::text::join(
                "docker login failed with exit code ",
                status.to_string().as_str(),
            ),
            Error::Logout(status) => crate::text::join(
                "docker logout failed with exit code ",
                status.to_string().as_str(),
            ),
            Error::Push(status) => crate::text::join(
                "docker push failed with exit code ",
                status.to_string().as_str(),
            ),
            Error::IOError(err) => err.clone(),
        }
    }
}

} // verus!
