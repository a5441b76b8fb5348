use vstd::prelude::*;
use vstd::string::StringExecFns;

use crate::clock::now_ns;
use crate::contracts::{
    CheckImageVersionRequest, CheckImageVersionResponse, SourceCheckResult, VersionCandidate,
    VersionSourceConfig, VersionSourceKind,
};
use crate::custom_api::CustomApiProvider;
use crate::docker_hub::DockerHubProvider;
use crate::errors::{code_of, code_text, user_message_of, VersionError, VersionErrorCode, VersionResult};
use crate::git_checker::GitCheckerProvider;
use crate::github::GithubProvider;
use crate::state::{cache_lookup, VersionRuntimeState, CHECK_CACHE_TTL_MS};
use crate::text::{decimal, decimal_text, same_text};

verus! {

/// The per-source time limit when the request sets none, in milliseconds.
pub const DEFAULT_SOURCE_TIMEOUT_MS: u64 = 8000;

/// The limit on a whole check when the request sets none, in milliseconds.
pub const DEFAULT_OVERALL_TIMEOUT_MS: u64 = 15000;

/// The per-source time limit of the local-repository source, in milliseconds.
pub const LOCAL_GIT_TIMEOUT_MS: u64 = 30000;

/// The canonical key of an image: repository, a colon, then tag.
pub open spec fn image_key_of(repository: Seq<char>, tag: Seq<char>) -> Seq<char> {
    repository + ":"@ + tag
}

pub fn build_image_key(repository: &str, tag: &str) -> (r: String)
    ensures
        r@ == image_key_of(repository@, tag@),
{
    proof { reveal_strlit(":"); }
    let mut s = String::from_str(repository);
    s.append(":");
    s.append(tag);
    s
}

/// The image key depends on the repository and tag alone: equal inputs give
/// equal keys, in every call.
pub proof fn lemma_image_key_deterministic(repo1: Seq<char>, tag1: Seq<char>, repo2: Seq<char>, tag2: Seq<char>)
    requires
        repo1 == repo2,
        tag1 == tag2,
    ensures
        image_key_of(repo1, tag1) == image_key_of(repo2, tag2),
{
}

/// What every source offers: which kind it is, and how long it may take.
pub trait VersionSourceProvider {
    fn source_kind(&self) -> VersionSourceKind;

    fn timeout_ms(&self) -> u64;
}

impl VersionSourceProvider for DockerHubProvider {
    fn source_kind(&self) -> VersionSourceKind {
        VersionSourceKind::DockerHub
    }

    fn timeout_ms(&self) -> u64 {
        DEFAULT_SOURCE_TIMEOUT_MS
    }
}

impl VersionSourceProvider for GithubProvider {
    fn source_kind(&self) -> VersionSourceKind {
        VersionSourceKind::GithubRelease
    }

    fn timeout_ms(&self) -> u64 {
        DEFAULT_SOURCE_TIMEOUT_MS
    }
}

impl VersionSourceProvider for GitCheckerProvider {
    fn source_kind(&self) -> VersionSourceKind {
        VersionSourceKind::LocalGit
    }

    fn timeout_ms(&self) -> u64 {
        LOCAL_GIT_TIMEOUT_MS
    }
}

impl VersionSourceProvider for CustomApiProvider {
    fn source_kind(&self) -> VersionSourceKind {
        VersionSourceKind::CustomApi
    }

    fn timeout_ms(&self) -> u64 {
        DEFAULT_SOURCE_TIMEOUT_MS
    }
}

/// One configured source, ready to be asked.
#[derive(Debug, Clone)]
pub enum SourceProvider {
    DockerHub(DockerHubProvider),
    GithubRelease(GithubProvider),
    LocalGit(GitCheckerProvider),
    CustomApi(CustomApiProvider),
}

impl SourceProvider {
    pub open spec fn kind(&self) -> VersionSourceKind {
        match self {
            SourceProvider::DockerHub(_) => VersionSourceKind::DockerHub,
            SourceProvider::GithubRelease(_) => VersionSourceKind::GithubRelease,
            SourceProvider::LocalGit(_) => VersionSourceKind::LocalGit,
            SourceProvider::CustomApi(_) => VersionSourceKind::CustomApi,
        }
    }

    /// The provider was made from `config`: same kind, same payload.
    pub open spec fn made_from(&self, config: VersionSourceConfig) -> bool {
        match (self, config) {
            (SourceProvider::DockerHub(p), VersionSourceConfig::DockerHub(c)) => p.config == c,
            (SourceProvider::GithubRelease(p), VersionSourceConfig::GithubRelease(c)) => p.config == c,
            (SourceProvider::LocalGit(p), VersionSourceConfig::LocalGit(c)) => p.config == c,
            (SourceProvider::CustomApi(p), VersionSourceConfig::CustomApi(c)) => p.config == c,
            _ => false,
        }
    }

    pub fn source_kind(&self) -> (r: VersionSourceKind)
        ensures
            r == self.kind(),
    {
        match self {
            SourceProvider::DockerHub(_) => VersionSourceKind::DockerHub,
            SourceProvider::GithubRelease(_) => VersionSourceKind::GithubRelease,
            SourceProvider::LocalGit(_) => VersionSourceKind::LocalGit,
            SourceProvider::CustomApi(_) => VersionSourceKind::CustomApi,
        }
    }

    /// The source's own time limit: longer for the local repository, whose
    /// queries run one after another.
    pub fn timeout_ms(&self) -> (r: u64)
        ensures
            r == if self.kind() == VersionSourceKind::LocalGit { LOCAL_GIT_TIMEOUT_MS } else { DEFAULT_SOURCE_TIMEOUT_MS },
    {
        match self {
            SourceProvider::LocalGit(_) => LOCAL_GIT_TIMEOUT_MS,
            _ => DEFAULT_SOURCE_TIMEOUT_MS,
        }
    }
}

/// The provider for one configured source.
pub fn create_provider(config: VersionSourceConfig) -> (r: SourceProvider)
    ensures
        r.made_from(config),
        r.kind() == config.kind(),
{
    match config {
        VersionSourceConfig::DockerHub(cfg) => SourceProvider::DockerHub(DockerHubProvider::new(cfg)),
        VersionSourceConfig::GithubRelease(cfg) => SourceProvider::GithubRelease(GithubProvider::new(cfg)),
        VersionSourceConfig::LocalGit(cfg) => SourceProvider::LocalGit(GitCheckerProvider::new(cfg)),
        VersionSourceConfig::CustomApi(cfg) => SourceProvider::CustomApi(CustomApiProvider::new(cfg)),
    }
}

/// How asking one source ended.
#[derive(Debug)]
pub enum FetchOutcome {
    /// The source answered within its limit, with a candidate or an error.
    Completed(VersionResult<VersionCandidate>),
    /// The source's own limit ran out first.
    TimedOut,
}

/// The text of a per-source time-out.
pub open spec fn source_timeout_text(timeout_ms: u64) -> Seq<char> {
    "Source check timeout after "@ + decimal(timeout_ms as nat) + "ms"@
}

/// The record of one source's answer: a candidate on success; otherwise the
/// error's code and message, or a time-out naming the limit. A failed source
/// is recorded, never raised.
pub fn source_check_result(source: VersionSourceKind, outcome: FetchOutcome, timeout_ms: u64,
    elapsed_ms: u128) -> (r: SourceCheckResult)
    ensures
        r.source == source,
        r.elapsed_ms == elapsed_ms,
        r.ok <==> outcome matches FetchOutcome::Completed(Ok(_)),
        r.latest is Some <==> r.ok,
        r.ok ==> r.error_code is None && r.error_message is None,
        r.ok ==> outcome == FetchOutcome::Completed(Ok(r.latest->0)),
        outcome matches FetchOutcome::Completed(Err(e)) ==> {
            &&& r.error_code is Some && r.error_code->0@ == code_text(code_of(e))
            &&& r.error_message is Some && r.error_message->0@ == user_message_of(e)
        },
        outcome is TimedOut ==> {
            &&& r.error_code is Some && r.error_code->0@ == code_text(VersionErrorCode::SourceTimeout)
            &&& r.error_message is Some && r.error_message->0@ == source_timeout_text(timeout_ms)
        },
{
    match outcome {
        FetchOutcome::Completed(Ok(candidate)) => SourceCheckResult {
            source,
            ok: true,
            error_code: None,
            error_message: None,
            latest: Some(candidate),
            elapsed_ms,
        },
        FetchOutcome::Completed(Err(err)) => SourceCheckResult {
            source,
            ok: false,
            error_code: Some(String::from_str(err.code().as_str())),
            error_message: Some(err.user_message()),
            latest: None,
            elapsed_ms,
        },
        FetchOutcome::TimedOut => {
            proof {
                reveal_strlit("Source check timeout after ");
                reveal_strlit("ms");
            }
            let mut m = String::from_str("Source check timeout after ");
            let n = decimal_text(timeout_ms);
            m.append(n.as_str());
            m.append("ms");
            SourceCheckResult {
                source,
                ok: false,
                error_code: Some(String::from_str(VersionErrorCode::SourceTimeout.as_str())),
                error_message: Some(m),
                latest: None,
                elapsed_ms,
            }
        },
    }
}

/// A successful answer from a source of kind `k`.
pub open spec fn ok_of_kind(r: SourceCheckResult, k: VersionSourceKind) -> bool {
    r.ok && r.source == k
}

/// The first successful answer of kind `k`, in list order.
pub open spec fn first_of_kind(results: Seq<SourceCheckResult>, k: VersionSourceKind) -> Option<SourceCheckResult>
    decreases results.len(),
{
    if results.len() == 0 {
        None
    } else if ok_of_kind(results[0], k) {
        Some(results[0])
    } else {
        first_of_kind(results.drop_first(), k)
    }
}

/// The candidate that the first successful answer of kind `k` carries.
pub open spec fn pick(results: Seq<SourceCheckResult>, k: VersionSourceKind) -> Option<VersionCandidate> {
    match first_of_kind(results, k) {
        Some(r) => r.latest,
        None => None,
    }
}

/// The recommended candidate: by fixed priority, local repository, then
/// source releases, then registry tags, then the custom API.
pub open spec fn recommended_of(results: Seq<SourceCheckResult>) -> Option<VersionCandidate> {
    if pick(results, VersionSourceKind::LocalGit) is Some {
        pick(results, VersionSourceKind::LocalGit)
    } else if pick(results, VersionSourceKind::GithubRelease) is Some {
        pick(results, VersionSourceKind::GithubRelease)
    } else if pick(results, VersionSourceKind::DockerHub) is Some {
        pick(results, VersionSourceKind::DockerHub)
    } else {
        pick(results, VersionSourceKind::CustomApi)
    }
}

fn pick_of_kind(results: &[SourceCheckResult], k: VersionSourceKind) -> (r: Option<VersionCandidate>)
    ensures
        r == pick(results@, k),
{
    let n = results.len();
    let mut i: usize = 0;
    assert(results@.subrange(0, n as int) =~= results@);
    while i < n
        invariant
            n == results@.len(),
            i <= n,
            first_of_kind(results@, k) == first_of_kind(results@.subrange(i as int, n as int), k),
        decreases n - i,
    {
        let ghost rest = results@.subrange(i as int, n as int);
        assert(rest.drop_first() =~= results@.subrange(i + 1, n as int));
        if results[i].ok && results[i].source == k {
            return match &results[i].latest {
                Some(c) => Some(c.duplicate()),
                None => None,
            };
        }
        i = i + 1;
    }
    None
}

/// The candidate to recommend among the answers, by fixed source priority.
pub fn select_recommended(results: &[SourceCheckResult]) -> (r: Option<VersionCandidate>)
    ensures
        r == recommended_of(results@),
{
    let local = pick_of_kind(results, VersionSourceKind::LocalGit);
    if local.is_some() {
        return local;
    }
    let release = pick_of_kind(results, VersionSourceKind::GithubRelease);
    if release.is_some() {
        return release;
    }
    let tags = pick_of_kind(results, VersionSourceKind::DockerHub);
    if tags.is_some() {
        return tags;
    }
    pick_of_kind(results, VersionSourceKind::CustomApi)
}

/// The first successful answer of a kind is one of the answers, and there is
/// one whenever any answer of that kind succeeded.
proof fn lemma_first_of_kind(results: Seq<SourceCheckResult>, k: VersionSourceKind)
    ensures
        first_of_kind(results, k) is Some <==> exists|i: int| 0 <= i < results.len() && ok_of_kind(#[trigger] results[i], k),
        first_of_kind(results, k) is Some ==> exists|i: int| 0 <= i < results.len() && ok_of_kind(results[i], k)
            && #[trigger] results[i] == first_of_kind(results, k)->0,
    decreases results.len(),
{
    if results.len() > 0 {
        let rest = results.drop_first();
        lemma_first_of_kind(rest, k);
        if first_of_kind(rest, k) is Some && !ok_of_kind(results[0], k) {
            let j = choose|j: int| 0 <= j < rest.len() && ok_of_kind(rest[j], k) && #[trigger] rest[j] == first_of_kind(rest, k)->0;
            assert(results[j + 1] == rest[j]);
        }
        if exists|i: int| 0 <= i < results.len() && ok_of_kind(#[trigger] results[i], k) {
            if !ok_of_kind(results[0], k) {
                let i = choose|i: int| 0 <= i < results.len() && ok_of_kind(#[trigger] results[i], k);
                assert(rest[i - 1] == results[i]);
            }
        }
    }
}

/// Whenever a local-repository source answered with candidate `c` (every
/// local-repository answer carrying `c`), `c` is recommended, whatever the
/// other sources answered and in whatever order the answers arrived.
pub proof fn lemma_local_repository_wins(results: Seq<SourceCheckResult>, c: VersionCandidate)
    requires
        exists|i: int| 0 <= i < results.len() && ok_of_kind(#[trigger] results[i], VersionSourceKind::LocalGit),
        forall|i: int| 0 <= i < results.len() && ok_of_kind(#[trigger] results[i], VersionSourceKind::LocalGit)
            ==> results[i].latest == Some(c),
    ensures
        recommended_of(results) == Some(c),
{
    lemma_first_of_kind(results, VersionSourceKind::LocalGit);
}

/// Whether the recommendation differs from the running tag (plain text comparison).
pub open spec fn update_available(recommended: Option<VersionCandidate>, current_tag: Seq<char>) -> bool {
    match recommended {
        Some(c) => c.version@ != current_tag,
        None => false,
    }
}

/// What a check does next: answer from the cache, or ask the sources.
#[derive(Debug, Clone)]
pub enum CheckPlan {
    Cached(CheckImageVersionResponse),
    Fetch(FetchPlan),
}

/// The sources to ask, concurrently, and the limits that apply.
#[derive(Debug, Clone)]
pub struct FetchPlan {
    pub image_key: String,
    pub current_tag: String,
    pub providers: Vec<SourceProvider>,
    pub source_timeout_ms: u64,
    pub overall_timeout_ms: u64,
}

/// The first half of a check, at clock reading `now_ns`: a fresh cached
/// response is returned at once, with no source asked; otherwise an empty
/// source list is refused, and each source gets a provider.
pub fn plan_check_at(request: CheckImageVersionRequest, state: &VersionRuntimeState, now_ns: u64)
    -> (r: VersionResult<CheckPlan>)
    ensures
        ({
            let key = image_key_of(request.image.repository@, request.image.tag@);
            let hit = cache_lookup(state.cache_view(), key);
            if hit is Some && !hit->0.expired_at(CHECK_CACHE_TTL_MS, now_ns) {
                r is Ok && r->Ok_0 is Cached && r->Ok_0->Cached_0.same_as(&hit->0.response)
            } else if request.sources@.len() == 0 {
                r is Err && r->Err_0 is InvalidInput
            } else {
                &&& r is Ok && r->Ok_0 is Fetch
                &&& r->Ok_0->Fetch_0.image_key@ == key
                &&& r->Ok_0->Fetch_0.current_tag == request.image.tag
                &&& r->Ok_0->Fetch_0.providers@.len() == request.sources@.len()
                &&& forall|i: int| 0 <= i < request.sources@.len()
                    ==> (#[trigger] r->Ok_0->Fetch_0.providers@[i]).made_from(request.sources@[i])
                &&& r->Ok_0->Fetch_0.source_timeout_ms == match request.timeout_ms {
                    Some(t) => t,
                    None => DEFAULT_SOURCE_TIMEOUT_MS,
                }
                &&& r->Ok_0->Fetch_0.overall_timeout_ms == match request.overall_timeout_ms {
                    Some(t) => t,
                    None => DEFAULT_OVERALL_TIMEOUT_MS,
                }
            }
        }),
{
    let image_key = build_image_key(request.image.repository.as_str(), request.image.tag.as_str());
    if let Some(cached) = state.get_cached_check_at(image_key.as_str(), CHECK_CACHE_TTL_MS, now_ns) {
        return Ok(CheckPlan::Cached(cached));
    }
    if request.sources.len() == 0 {
        return Err(VersionError::InvalidInput(String::from_str("At least one version source is required")));
    }
    let source_timeout_ms = match request.timeout_ms {
        Some(t) => t,
        None => DEFAULT_SOURCE_TIMEOUT_MS,
    };
    let overall_timeout_ms = match request.overall_timeout_ms {
        Some(t) => t,
        None => DEFAULT_OVERALL_TIMEOUT_MS,
    };
    let ghost sources = request.sources@;
    let mut rest = request.sources;
    let mut providers: Vec<SourceProvider> = Vec::new();
    while rest.len() > 0
        invariant
            rest.len() <= sources.len(),
            rest@ == sources.subrange(sources.len() - rest.len(), sources.len() as int),
            providers@.len() == sources.len() - rest.len(),
            forall|i: int| 0 <= i < providers@.len() ==> (#[trigger] providers@[i]).made_from(sources[i]),
        decreases rest.len(),
    {
        let ghost k = sources.len() - rest.len();
        let config = rest.remove(0);
        assert(config == sources[k]);
        assert(rest@ =~= sources.subrange(k + 1, sources.len() as int));
        providers.push(create_provider(config));
    }
    Ok(CheckPlan::Fetch(FetchPlan {
        image_key,
        current_tag: request.image.tag,
        providers,
        source_timeout_ms,
        overall_timeout_ms,
    }))
}

/// The first half of a check, at the current time.
pub fn plan_check(request: CheckImageVersionRequest, state: &VersionRuntimeState) -> (r: VersionResult<CheckPlan>)
    ensures
        request.sources@.len() > 0 ==> r is Ok,
        r is Err ==> r->Err_0 is InvalidInput,
        r is Ok && r->Ok_0 is Cached ==> ({
            let hit = cache_lookup(state.cache_view(), image_key_of(request.image.repository@, request.image.tag@));
            hit is Some && r->Ok_0->Cached_0.same_as(&hit->0.response)
        }),
        r is Ok && r->Ok_0 is Fetch ==> {
            &&& r->Ok_0->Fetch_0.image_key@ == image_key_of(request.image.repository@, request.image.tag@)
            &&& r->Ok_0->Fetch_0.providers@.len() == request.sources@.len()
            &&& forall|i: int| 0 <= i < request.sources@.len()
                ==> (#[trigger] r->Ok_0->Fetch_0.providers@[i]).made_from(request.sources@[i])
        },
{
    plan_check_at(request, state, now_ns())
}

/// The response for a set of answers, given that at least one succeeded.
pub fn build_response(image_key: String, current_tag: String, results: Vec<SourceCheckResult>,
    checked_at_ms: u64) -> (r: CheckImageVersionResponse)
    ensures
        r.image_key == image_key,
        r.current_version == Some(current_tag),
        r.recommended == recommended_of(results@),
        r.has_update == update_available(recommended_of(results@), current_tag@),
        r.results@ == results@,
        r.checked_at_ms == checked_at_ms,
{
    let recommended = select_recommended(results.as_slice());
    let has_update = match &recommended {
        Some(c) => !same_text(c.version.as_str(), current_tag.as_str()),
        None => false,
    };
    CheckImageVersionResponse {
        image_key,
        current_version: Some(current_tag),
        has_update,
        recommended,
        results,
        checked_at_ms,
    }
}

/// The second half of a check: `results` is `None` when the sources did not
/// all answer within the overall limit. A late batch fails the whole check;
/// so does a batch in which every source failed, and neither touches the
/// cache. Otherwise the response is built, filed in the cache at `now_ns`,
/// and returned.
pub fn finish_check_at(state: &mut VersionRuntimeState, image_key: String, current_tag: String,
    results: Option<Vec<SourceCheckResult>>, overall_timeout_ms: u64, checked_at_ms: u64, now_ns: u64)
    -> (r: VersionResult<CheckImageVersionResponse>)
    requires
        old(state).wf(),
    ensures
        final(state).wf(),
        final(state).locks_view() == old(state).locks_view(),
        results is None ==> r is Err && r->Err_0 is SourceTimeout,
        results is Some && (forall|i: int| 0 <= i < results->0@.len() ==> !(#[trigger] results->0@[i]).ok)
            ==> r is Err && r->Err_0 == VersionError::NoValidSourceResult,
        r is Err ==> final(state).cache_view() == old(state).cache_view(),
        results is Some && (exists|i: int| 0 <= i < results->0@.len() && (#[trigger] results->0@[i]).ok) ==> {
            &&& r is Ok
            &&& r->Ok_0.image_key == image_key
            &&& r->Ok_0.current_version == Some(current_tag)
            &&& r->Ok_0.recommended == recommended_of(results->0@)
            &&& r->Ok_0.has_update == update_available(recommended_of(results->0@), current_tag@)
            &&& r->Ok_0.results@ == results->0@
            &&& r->Ok_0.checked_at_ms == checked_at_ms
            &&& cache_lookup(final(state).cache_view(), image_key@) is Some
            &&& cache_lookup(final(state).cache_view(), image_key@)->0.response.same_as(&r->Ok_0)
            &&& cache_lookup(final(state).cache_view(), image_key@)->0.cached_at_ns == now_ns
            &&& forall|k: Seq<char>| k != image_key@ ==> #[trigger] cache_lookup(final(state).cache_view(), k)
                == cache_lookup(old(state).cache_view(), k)
        },
{
    let results = match results {
        None => {
            proof {
                reveal_strlit("Overall version check timeout after ");
                reveal_strlit("ms");
            }
            let mut m = String::from_str("Overall version check timeout after ");
            let n = decimal_text(overall_timeout_ms);
            m.append(n.as_str());
            m.append("ms");
            return Err(VersionError::SourceTimeout(m));
        },
        Some(v) => v,
    };
    let mut any_ok = false;
    let mut i: usize = 0;
    while i < results.len()
        invariant
            i <= results@.len(),
            any_ok <==> exists|j: int| 0 <= j < i && (#[trigger] results@[j]).ok,
        decreases results.len() - i,
    {
        if results[i].ok {
            any_ok = true;
        }
        i = i + 1;
    }
    if !any_ok {
        return Err(VersionError::NoValidSourceResult);
    }
    let response = build_response(image_key, current_tag, results, checked_at_ms);
    let copy = response.duplicate();
    let key = response.image_key.clone();
    state.cache_check_at(key, copy, now_ns);
    Ok(response)
}

/// The second half of a check, filing the response at the current time.
pub fn finish_check(state: &mut VersionRuntimeState, image_key: String, current_tag: String,
    results: Option<Vec<SourceCheckResult>>, overall_timeout_ms: u64) -> (r: VersionResult<CheckImageVersionResponse>)
    requires
        old(state).wf(),
    ensures
        final(state).wf(),
        final(state).locks_view() == old(state).locks_view(),
        r is Err ==> final(state).cache_view() == old(state).cache_view(),
        results is None ==> r is Err && r->Err_0 is SourceTimeout,
        results is Some && (forall|i: int| 0 <= i < results->0@.len() ==> !(#[trigger] results->0@[i]).ok)
            ==> r is Err && r->Err_0 == VersionError::NoValidSourceResult,
        results is Some && (exists|i: int| 0 <= i < results->0@.len() && (#[trigger] results->0@[i]).ok) ==> {
            &&& r is Ok
            &&& r->Ok_0.recommended == recommended_of(results->0@)
            &&& r->Ok_0.has_update == update_available(recommended_of(results->0@), current_tag@)
            &&& r->Ok_0.results@ == results->0@
        },
{
    let t = now_ns();
    finish_check_at(state, image_key, current_tag, results, overall_timeout_ms, t / 1_000_000, t)
}

} // verus!
