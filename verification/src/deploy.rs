//! The deploy client: its configuration, the command it is given and what
//! becomes of the outcome.

use crate::process::{ExitStatus, Invocation, InvocationView, Outcome};
use crate::text::views;
use vstd::prelude::*;

verus! {

/// The program that deploys.
pub const PROGRAM: &'static str = "deploy";

/// What the deploy client is given. The fields are named as its options
/// are, except `git_ref`, which is its option `--ref`.
#[derive(Debug, Clone)]
pub struct Config {
    pub apikey: String,
    pub cluster: String,
    pub deploy_server: String,
    pub owner: String,
    pub git_ref: String,
    pub repository: String,
    pub resource: Vec<String>,
    pub var: Vec<String>,
    pub vars: String,
    pub wait: bool,
}

/// A `Config` in the terms of contracts.
pub struct ConfigView {
    pub apikey: Seq<char>,
    pub cluster: Seq<char>,
    pub deploy_server: Seq<char>,
    pub owner: Seq<char>,
    pub git_ref: Seq<char>,
    pub repository: Seq<char>,
    pub resource: Seq<Seq<char>>,
    pub var: Seq<Seq<char>>,
    pub vars: Seq<char>,
    pub wait: bool,
}

impl View for Config {
    type V = ConfigView;

    open spec fn view(&self) -> ConfigView {
        ConfigView {
            apikey: self.apikey@,
            cluster: self.cluster@,
            deploy_server: self.deploy_server@,
            owner: self.owner@,
            git_ref: self.git_ref@,
            repository: self.repository@,
            resource: views(self.resource@),
            var: views(self.var@),
            vars: self.vars@,
            wait: self.wait,
        }
    }
}

/// The configuration that the environment gives, in the terms of
/// contracts: the API key and the address of the deploy server, waiting
/// switched on, and everything else empty.
pub open spec fn from_environment(apikey: Seq<char>, deploy_server: Seq<char>) -> ConfigView {
    ConfigView {
        apikey,
        cluster: Seq::empty(),
        deploy_server,
        owner: Seq::empty(),
        git_ref: Seq::empty(),
        repository: Seq::empty(),
        resource: Seq::empty(),
        var: Seq::empty(),
        vars: Seq::empty(),
        wait: true,
    }
}

/// Why a deploy failed.
#[derive(Debug, Clone)]
pub enum Error {
    /// The deploy client ended with a failure.
    Deploy(ExitStatus),
    /// The deploy client could not be run; the text says why.
    IOError(String),
}

/// An `Error` in the terms of contracts.
pub enum ErrorView {
    Deploy(ExitStatus),
    IOError(Seq<char>),
}

impl View for Error {
    type V = ErrorView;

    open spec fn view(&self) -> ErrorView {
        match self {
            Error::Deploy(status) => ErrorView::Deploy(*status),
            Error::IOError(err) => ErrorView::IOError(err@),
        }
    }
}

impl Default for Config {
    /// A configuration in which every text and list is empty, and `wait`
    /// is off.
    fn default() -> (r: Config)
        ensures
            r@ == (ConfigView { wait: false, ..from_environment(Seq::empty(), Seq::empty()) }),
    {
        assert(views(Seq::<String>::empty()) =~= Seq::<Seq<char>>::empty());
        Config {
            apikey: String::new(),
            cluster: String::new(),
            deploy_server: String::new(),
            owner: String::new(),
            git_ref: String::new(),
            repository: String::new(),
            resource: Vec::new(),
            var: Vec::new(),
            vars: String::new(),
            wait: false,
        }
    }
}

impl Config {
    /// The configuration that the environment gives: the API key and the
    /// address of the deploy server, waiting switched on, and everything
    /// else empty. There is none unless both values are present.
    pub fn try_new_from_env(apikey: Option<String>, deploy_server: Option<String>) -> (r: Option<
        Config,
    >)
        ensures
            r is Some <==> apikey is Some && deploy_server is Some,
            r is Some ==> r->0@ == from_environment(apikey->0@, deploy_server->0@),
    {
        assert(views(Seq::<String>::empty()) =~= Seq::<Seq<char>>::empty());
        let apikey = match apikey {
            Some(apikey) => apikey,
            None => return None,
        };
        let deploy_server = match deploy_server {
            Some(deploy_server) => deploy_server,
            None => return None,
        };
        Some(
            Config {
                apikey,
                cluster: String::new(),
                deploy_server,
                owner: String::new(),
                git_ref: String::new(),
                repository: String::new(),
                resource: Vec::new(),
                var: Vec::new(),
                vars: String::new(),
                wait: true,
            },
        )
    }
}

/// Every value of `values`, each behind `option`.
pub open spec fn repeated(option: Seq<char>, values: Seq<Seq<char>>) -> Seq<Seq<char>>
    decreases values.len(),
{
    if values.len() == 0 {
        Seq::empty()
    } else {
        repeated(option, values.drop_last()).push(option).push(values.last())
    }
}

/// `true` or `false`.
pub open spec fn flag(value: bool) -> Seq<char> {
    if value {
        "true"@
    } else {
        "false"@
    }
}

/// The arguments of the deploy client: every resource and every variable,
/// then the other options in a fixed order.
pub open spec fn arguments(cfg: ConfigView) -> Seq<Seq<char>> {
    repeated("--resource"@, cfg.resource) + repeated("--var"@, cfg.var) + seq![
        "--apikey"@,
        cfg.apikey,
        "--cluster"@,
        cfg.cluster,
        "--deploy-server"@,
        cfg.deploy_server,
        "--owner"@,
        cfg.owner,
        "--ref"@,
        cfg.git_ref,
        "--repository"@,
        cfg.repository,
        "--vars"@,
        cfg.vars,
        "--wait"@,
        flag(cfg.wait),
    ]
}

/// The command of a deploy.
pub open spec fn invocation(cfg: ConfigView) -> InvocationView {
    InvocationView { program: PROGRAM@, arguments: arguments(cfg), stdin: None }
}

/// Appends every value of `values` to `arguments`, each behind `option`.
fn push_repeated(arguments: &mut Vec<String>, option: &str, values: &Vec<String>)
    ensures
        views(final(arguments)@) == views(old(arguments)@) + repeated(option@, views(values@)),
{
    let ghost start = views(arguments@);
    let mut k: usize = 0;
    assert(views(values@).take(0) =~= Seq::empty());
    assert(start + repeated(option@, Seq::empty()) =~= start);
    while k < values.len()
        invariant
            k <= values.len(),
            views(arguments@) == start + repeated(option@, views(values@).take(k as int)),
        decreases values.len() - k,
    {
        let ghost before = views(arguments@);
        arguments.push(option.to_owned());
        arguments.push(values[k].clone());
        proof {
            let upto = views(values@).take(k + 1);
            assert(upto.drop_last() =~= views(values@).take(k as int));
            assert(upto.last() == values@[k as int]@);
            assert(views(arguments@) =~= before.push(option@).push(values@[k as int]@));
            assert(views(arguments@) =~= start + repeated(option@, upto));
        }
        k += 1;
    }
    assert(views(values@).take(values.len() as int) =~= views(values@));
}

/// The command that deploys what `cfg` describes.
pub fn deploy_command(cfg: &Config) -> (r: Invocation)
    ensures
        r@ == invocation(cfg@),
{
    let mut arguments: Vec<String> = Vec::new();
    assert(views(arguments@) =~= Seq::empty());
    push_repeated(&mut arguments, "--resource", &cfg.resource);
    push_repeated(&mut arguments, "--var", &cfg.var);
    let ghost front = views(arguments@);
    assert(front =~= repeated("--resource"@, views(cfg.resource@)) + repeated(
        "--var"@,
        views(cfg.var@),
    ));
    arguments.push("--apikey".to_owned());
    arguments.push(cfg.apikey.clone());
    arguments.push("--cluster".to_owned());
    arguments.push(cfg.cluster.clone());
    arguments.push("--deploy-server".to_owned());
    arguments.push(cfg.deploy_server.clone());
    arguments.push("--owner".to_owned());
    arguments.push(cfg.owner.clone());
    arguments.push("--ref".to_owned());
    arguments.push(cfg.git_ref.clone());
    arguments.push("--repository".to_owned());
    arguments.push(cfg.repository.clone());
    arguments.push("--vars".to_owned());
    arguments.push(cfg.vars.clone());
    arguments.push("--wait".to_owned());
    if cfg.wait {
        arguments.push("true".to_owned());
    } else {
        arguments.push("false".to_owned());
    }
    assert(views(arguments@) =~= self::arguments(cfg@));
    Invocation { program: PROGRAM.to_owned(), arguments, stdin: None }
}

/// What the outcome of a deploy means: success where the client ended with
/// exit code zero, else the failure with its exit status, or the reason why
/// the client could not be run.
pub open spec fn verdict(outcome: Outcome) -> Result<(), ErrorView> {
    match outcome {
        Outcome::Exited(status) => if status.succeeded() {
            Ok(())
        } else {
            Err(ErrorView::Deploy(status))
        },
        Outcome::Failed(err) => Err(ErrorView::IOError(err@)),
    }
}

/// Whether `r` is the verdict `want`, up to the characters of its strings.
pub open spec fn is_verdict(r: Result<(), Error>, want: Result<(), ErrorView>) -> bool {
    match r {
        Ok(_) => want is Ok,
        Err(err) => want == Err::<(), ErrorView>(err@),
    }
}

/// What became of a deploy, given the outcome of its command.
pub fn deploy(outcome: &Outcome) -> (r: Result<(), Error>)
    ensures
        is_verdict(r, verdict(*outcome)),
{
    match outcome {
        Outcome::Exited(status) => {
            if status.success() {
                Ok(())
            } else {
                Err(Error::Deploy(*status))
            }
        },
        Outcome::Failed(err) => Err(Error::IOError(err.clone())),
    }
}

impl ErrorView {
    /// The message shown to the operator.
    pub open spec fn message(self) -> Seq<char> {
        match self {
            ErrorView::Deploy(status) => "deploy client exited with code "@ + status.description(),
            ErrorView::IOError(err) => err,
        }
    }
}

impl Error {
    /// The message shown to the operator.
    pub fn to_string(&self) -> (r: String)
        ensures
            r@ == self@.message(),
    {
        match self {
            Error::Deploy(status) => crate::text::join(
                "deploy client exited with code ",
                status.to_string().as_str(),
            ),
            Error::IOError(err) => err.clone(),
        }
    }
}

/// The server that deploys for a tenant.
#[derive(Debug, Clone)]
pub struct DeployServer {
    pub tenant: String,
}

impl DeployServer {
    /// The address of the server.
    pub fn to_string(&self) -> (r: String)
        ensures
            r@ == "https://deploy."@ + self.tenant@ + ".cloud.nais.io"@,
    {
        let mut out = "https://deploy.".to_owned();
        out.append(self.tenant.as_str());
        out.append(".cloud.nais.io");
        out
    }
}

} // verus!
