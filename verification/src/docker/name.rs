//! How image names are formatted for each release target.

use crate::config::runtime::ReleaseType;
use vstd::prelude::*;

verus! {

/// The parts of an image name.
#[derive(Debug, Clone)]
pub struct Config {
    pub registry: String,
    pub team: String,
    pub app: String,
    pub tag: String,
}

impl Config {
    /// An image name can be formed: neither the application nor the tag is
    /// empty.
    pub open spec fn nameable(&self) -> bool {
        self.app@.len() > 0 && self.tag@.len() > 0
    }

    /// Whether an image name can be formed from these parts.
    pub fn is_nameable(&self) -> (r: bool)
        ensures
            r == self.nameable(),
    {
        self.app.as_str().unicode_len() > 0 && self.tag.as_str().unicode_len() > 0
    }
}

/// `registry/team/app:tag`
pub open spec fn gar_name(
    registry: Seq<char>,
    team: Seq<char>,
    app: Seq<char>,
    tag: Seq<char>,
) -> Seq<char> {
    registry + seq!['/'] + team + seq!['/'] + app + seq![':'] + tag
}

/// `registry/app:tag`
pub open spec fn ghcr_name(registry: Seq<char>, app: Seq<char>, tag: Seq<char>) -> Seq<char> {
    registry + seq!['/'] + app + seq![':'] + tag
}

/// The image name that a release target gives to the parts.
pub open spec fn image_name(typ: ReleaseType, cfg: Config) -> Seq<char> {
    match typ {
        ReleaseType::GAR => gar_name(cfg.registry@, cfg.team@, cfg.app@, cfg.tag@),
        ReleaseType::GHCR => ghcr_name(cfg.registry@, cfg.app@, cfg.tag@),
    }
}

/// Names as Google Artifact Registry wants them.
#[derive(Debug, Clone)]
pub struct GoogleArtifactRegistry(pub Config);

/// Names as GitHub Container Registry wants them.
#[derive(Debug, Clone)]
pub struct GitHubContainerRegistry(pub Config);

impl GoogleArtifactRegistry {
    /// The image name: registry, team, application and tag.
    pub fn to_string(&self) -> (r: String)
        requires
            self.0.nameable(),
        ensures
            r@ == image_name(ReleaseType::GAR, self.0),
    {
        proof {
            reveal_strlit("/");
            reveal_strlit(":");
            assert("/"@ =~= seq!['/']);
            assert(":"@ =~= seq![':']);
        }
        let mut s = self.0.registry.clone();
        s.append("/");
        s.append(self.0.team.as_str());
        s.append("/");
        s.append(self.0.app.as_str());
        s.append(":");
        s.append(self.0.tag.as_str());
        s
    }
}

impl GitHubContainerRegistry {
    /// The image name: registry, application and tag. The team is left out.
    pub fn to_string(&self) -> (r: String)
        requires
            self.0.nameable(),
        ensures
            r@ == image_name(ReleaseType::GHCR, self.0),
    {
        proof {
            reveal_strlit("/");
            reveal_strlit(":");
            assert("/"@ =~= seq!['/']);
            assert(":"@ =~= seq![':']);
        }
        let mut s = self.0.registry.clone();
        s.append("/");
        s.append(self.0.app.as_str());
        s.append(":");
        s.append(self.0.tag.as_str());
        s
    }
}

/// An image name formatter: one of the two conventions, over its parts.
#[derive(Debug, Clone)]
pub enum Name {
    GoogleArtifactRegistry(GoogleArtifactRegistry),
    GitHubContainerRegistry(GitHubContainerRegistry),
}

impl Name {
    /// The formatter of a release target over the given parts.
    pub open spec fn of(typ: ReleaseType, config: Config) -> Name {
        match typ {
            ReleaseType::GAR => Name::GoogleArtifactRegistry(GoogleArtifactRegistry(config)),
            ReleaseType::GHCR => Name::GitHubContainerRegistry(GitHubContainerRegistry(config)),
        }
    }

    /// The release target whose convention this formatter follows.
    pub open spec fn typ(&self) -> ReleaseType {
        match self {
            Name::GoogleArtifactRegistry(_) => ReleaseType::GAR,
            Name::GitHubContainerRegistry(_) => ReleaseType::GHCR,
        }
    }

    /// The parts that this formatter works on.
    pub open spec fn config(&self) -> Config {
        match self {
            Name::GoogleArtifactRegistry(n) => n.0,
            Name::GitHubContainerRegistry(n) => n.0,
        }
    }

    /// The image name.
    pub fn to_string(&self) -> (r: String)
        requires
            self.config().nameable(),
        ensures
            r@ == image_name(self.typ(), self.config()),
    {
        match self {
            Name::GoogleArtifactRegistry(n) => n.to_string(),
            Name::GitHubContainerRegistry(n) => n.to_string(),
        }
    }
}

/// The name under GitHub Container Registry does not depend on the team.
pub proof fn lemma_ghcr_ignores_team(a: Config, b: Config)
    requires
        a.registry@ == b.registry@,
        a.app@ == b.app@,
        a.tag@ == b.tag@,
    ensures
        image_name(ReleaseType::GHCR, a) == image_name(ReleaseType::GHCR, b),
{
}

} // verus!
