use vstd::prelude::*;
use vstd::string::StringExecFns;

use crate::contracts::{GithubReleaseSourceConfig, VersionCandidate, VersionSourceKind};
use crate::errors::{VersionError, VersionResult};

verus! {

/// One entry of a release listing.
#[derive(Debug, Clone)]
pub struct GithubRelease {
    pub tag_name: String,
    pub name: Option<String>,
    pub body: Option<String>,
    pub published_at: Option<String>,
    pub prerelease: bool,
    pub draft: bool,
}

/// Finds the newest release of a source repository.
#[derive(Debug, Clone)]
pub struct GithubProvider {
    pub config: GithubReleaseSourceConfig,
}

/// Whether a release may be offered: never a draft, and a prerelease only when allowed.
pub open spec fn release_eligible(config: GithubReleaseSourceConfig, r: GithubRelease) -> bool {
    !r.draft && (!r.prerelease || config.include_prerelease)
}

/// `i` is the first eligible release of the listing.
pub open spec fn is_first_eligible(config: GithubReleaseSourceConfig, releases: Seq<GithubRelease>, i: int) -> bool {
    &&& 0 <= i < releases.len()
    &&& release_eligible(config, releases[i])
    &&& forall|j: int| 0 <= j < i ==> !release_eligible(config, #[trigger] releases[j])
}

/// The release-listing address for an owner and repository.
pub open spec fn releases_url(owner: Seq<char>, repo: Seq<char>) -> Seq<char> {
    "https://api.github.com/repos/"@ + owner + "/"@ + repo + "/releases"@
}

impl GithubProvider {
    pub fn new(config: GithubReleaseSourceConfig) -> (r: GithubProvider)
        ensures
            r.config == config,
    {
        GithubProvider { config }
    }

    /// The address of the release listing.
    pub fn build_api_url(&self) -> (r: String)
        ensures
            r@ == releases_url(self.config.owner@, self.config.repo@),
    {
        proof {
            reveal_strlit("https://api.github.com/repos/");
            reveal_strlit("/");
            reveal_strlit("/releases");
        }
        let mut s = String::from_str("https://api.github.com/repos/");
        s.append(self.config.owner.as_str());
        s.append("/");
        s.append(self.config.repo.as_str());
        s.append("/releases");
        s
    }

    /// The first eligible release, in listing order (the listing comes newest first).
    pub fn filter_releases(&self, releases: Vec<GithubRelease>) -> (r: Option<GithubRelease>)
        ensures
            r is None <==> forall|j: int| 0 <= j < releases@.len() ==> !release_eligible(self.config, #[trigger] releases@[j]),
            r is Some ==> exists|i: int| is_first_eligible(self.config, releases@, i) && releases@[i] == r->0,
    {
        let mut list = releases;
        let ghost orig = list@;
        let mut i: usize = 0;
        while i < list.len()
            invariant
                list@ == orig,
                orig == releases@,
                i <= list.len(),
                forall|j: int| 0 <= j < i ==> !release_eligible(self.config, #[trigger] orig[j]),
            decreases list.len() - i,
        {
            let eligible = !list[i].draft && (!list[i].prerelease || self.config.include_prerelease);
            if eligible {
                let r = list.remove(i);
                assert(is_first_eligible(self.config, orig, i as int) && orig[i as int] == r);
                return Some(r);
            }
            i = i + 1;
        }
        None
    }

    /// The candidate for the first eligible release; a parse failure when there is none.
    pub fn candidate_from_releases(&self, releases: Vec<GithubRelease>) -> (r: VersionResult<VersionCandidate>)
        ensures
            r is Err <==> forall|j: int| 0 <= j < releases@.len() ==> !release_eligible(self.config, #[trigger] releases@[j]),
            r is Err ==> r->Err_0 is Parse,
            r is Ok ==> exists|i: int| {
                &&& is_first_eligible(self.config, releases@, i)
                &&& r->Ok_0.source == VersionSourceKind::GithubRelease
                &&& r->Ok_0.version == releases@[i].tag_name
                &&& r->Ok_0.digest is None
                &&& r->Ok_0.release_notes == releases@[i].body
                &&& r->Ok_0.published_at == releases@[i].published_at
                &&& r->Ok_0.raw_reference is Some
                &&& r->Ok_0.raw_reference->0@ == "https://github.com/"@ + self.config.owner@ + "/"@
                    + self.config.repo@ + "/releases/tag/"@ + releases@[i].tag_name@
            },
    {
        match self.filter_releases(releases) {
            None => Err(VersionError::Parse(String::from_str("No matching releases found"))),
            Some(release) => {
                proof {
                    reveal_strlit("https://github.com/");
                    reveal_strlit("/");
                    reveal_strlit("/releases/tag/");
                }
                let mut raw = String::from_str("https://github.com/");
                raw.append(self.config.owner.as_str());
                raw.append("/");
                raw.append(self.config.repo.as_str());
                raw.append("/releases/tag/");
                raw.append(release.tag_name.as_str());
                Ok(VersionCandidate {
                    source: VersionSourceKind::GithubRelease,
                    version: release.tag_name,
                    digest: None,
                    release_notes: release.body,
                    published_at: release.published_at,
                    raw_reference: Some(raw),
                })
            },
        }
    }

    /// The authorization header value, when a token is configured.
    pub fn authorization(&self) -> (r: Option<String>)
        ensures
            r is Some <==> self.config.token is Some,
            r is Some ==> r->0@ == "Bearer "@ + self.config.token->0@,
    {
        match &self.config.token {
            None => None,
            Some(t) => {
                proof { reveal_strlit("Bearer "); }
                let mut s = String::from_str("Bearer ");
                s.append(t.as_str());
                Some(s)
            },
        }
    }
}

} // verus!
