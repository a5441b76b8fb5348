use vstd::prelude::*;
use crate::text::copy_opt;

verus! {

/// Availability of the Windows package manager, as reported to the caller.
#[derive(Debug, Clone)]
pub struct WingetStatus {
    pub available: bool,
    pub version: Option<String>,
    pub error: Option<String>,
}

/// The image (and optionally the container and project) a check or an update is about.
#[derive(Debug, Clone)]
pub struct ImageSelection {
    pub image_id: Option<String>,
    pub repository: String,
    pub tag: String,
    pub container_name: Option<String>,
    pub project_path: Option<String>,
}

/// The closed set of places a newer version can be learned from.
#[derive(Debug, Clone, Copy, PartialEq, Eq, Structural)]
pub enum VersionSourceKind {
    DockerHub,
    GithubRelease,
    LocalGit,
    CustomApi,
}

#[derive(Debug, Clone)]
pub struct DockerHubSourceConfig {
    pub namespace: String,
    pub repository: String,
    pub include_prerelease: bool,
    pub tag_regex: Option<String>,
}

#[derive(Debug, Clone)]
pub struct GithubReleaseSourceConfig {
    pub owner: String,
    pub repo: String,
    pub include_prerelease: bool,
    pub token: Option<String>,
}

#[derive(Debug, Clone)]
pub struct LocalGitSourceConfig {
    pub repo_path: String,
    pub branch: String,
    pub version_file: Option<String>,
}

#[derive(Debug, Clone)]
pub struct CustomApiSourceConfig {
    pub endpoint: String,
    pub method: String,
    pub headers: Vec<HttpHeaderPair>,
    pub version_field: String,
    pub notes_field: Option<String>,
    pub published_at_field: Option<String>,
}

#[derive(Debug, Clone)]
pub struct HttpHeaderPair {
    pub key: String,
    pub value: String,
}

/// One configured version source: one payload per kind.
#[derive(Debug, Clone)]
pub enum VersionSourceConfig {
    DockerHub(DockerHubSourceConfig),
    GithubRelease(GithubReleaseSourceConfig),
    LocalGit(LocalGitSourceConfig),
    CustomApi(CustomApiSourceConfig),
}

impl VersionSourceConfig {
    pub open spec fn kind(&self) -> VersionSourceKind {
        match self {
            VersionSourceConfig::DockerHub(_) => VersionSourceKind::DockerHub,
            VersionSourceConfig::GithubRelease(_) => VersionSourceKind::GithubRelease,
            VersionSourceConfig::LocalGit(_) => VersionSourceKind::LocalGit,
            VersionSourceConfig::CustomApi(_) => VersionSourceKind::CustomApi,
        }
    }
}

#[derive(Debug, Clone)]
pub struct CheckImageVersionRequest {
    pub image: ImageSelection,
    pub sources: Vec<VersionSourceConfig>,
    pub timeout_ms: Option<u64>,
    pub overall_timeout_ms: Option<u64>,
}

/// A version found by one source.
#[derive(Debug, Clone)]
pub struct VersionCandidate {
    pub source: VersionSourceKind,
    pub version: String,
    pub digest: Option<String>,
    pub release_notes: Option<String>,
    pub published_at: Option<String>,
    pub raw_reference: Option<String>,
}

impl VersionCandidate {
    /// A field-by-field copy.
    pub fn duplicate(&self) -> (r: VersionCandidate)
        ensures
            r == *self,
    {
        VersionCandidate {
            source: self.source,
            version: self.version.clone(),
            digest: copy_opt(&self.digest),
            release_notes: copy_opt(&self.release_notes),
            published_at: copy_opt(&self.published_at),
            raw_reference: copy_opt(&self.raw_reference),
        }
    }
}

/// What one source answered during one check.
#[derive(Debug, Clone)]
pub struct SourceCheckResult {
    pub source: VersionSourceKind,
    pub ok: bool,
    pub error_code: Option<String>,
    pub error_message: Option<String>,
    pub latest: Option<VersionCandidate>,
    pub elapsed_ms: u128,
}

impl SourceCheckResult {
    /// A field-by-field copy.
    pub fn duplicate(&self) -> (r: SourceCheckResult)
        ensures
            r == *self,
    {
        let latest = match &self.latest {
            Some(c) => Some(c.duplicate()),
            None => None,
        };
        SourceCheckResult {
            source: self.source,
            ok: self.ok,
            error_code: copy_opt(&self.error_code),
            error_message: copy_opt(&self.error_message),
            latest,
            elapsed_ms: self.elapsed_ms,
        }
    }
}

/// A copy of each result, in order.
pub fn duplicate_results(v: &Vec<SourceCheckResult>) -> (r: Vec<SourceCheckResult>)
    ensures
        r@ == v@,
{
    let mut r: Vec<SourceCheckResult> = Vec::new();
    let mut i: usize = 0;
    while i < v.len()
        invariant
            i <= v.len(),
            r@ == v@.subrange(0, i as int),
        decreases v.len() - i,
    {
        r.push(v[i].duplicate());
        assert(r@ =~= v@.subrange(0, i + 1));
        i = i + 1;
    }
    assert(v@.subrange(0, v.len() as int) =~= v@);
    r
}

#[derive(Debug, Clone)]
pub struct CheckImageVersionResponse {
    pub image_key: String,
    pub current_version: Option<String>,
    pub has_update: bool,
    pub recommended: Option<VersionCandidate>,
    pub results: Vec<SourceCheckResult>,
    pub checked_at_ms: u64,
}

impl CheckImageVersionResponse {
    /// Equal field by field, the results element by element.
    pub open spec fn same_as(&self, o: &CheckImageVersionResponse) -> bool {
        &&& self.image_key == o.image_key
        &&& self.current_version == o.current_version
        &&& self.has_update == o.has_update
        &&& self.recommended == o.recommended
        &&& self.results@ == o.results@
        &&& self.checked_at_ms == o.checked_at_ms
    }

    /// A field-by-field copy.
    pub fn duplicate(&self) -> (r: CheckImageVersionResponse)
        ensures
            r.same_as(self),
    {
        let recommended = match &self.recommended {
            Some(c) => Some(c.duplicate()),
            None => None,
        };
        CheckImageVersionResponse {
            image_key: self.image_key.clone(),
            current_version: copy_opt(&self.current_version),
            has_update: self.has_update,
            recommended,
            results: duplicate_results(&self.results),
            checked_at_ms: self.checked_at_ms,
        }
    }
}

#[derive(Debug, Clone)]
pub struct UpdateWorkflowConfig {
    pub git_pull_path: String,
    pub git_branch: String,
    pub build_context: String,
    pub dockerfile: String,
    pub new_image_tag: String,
    pub run_args: Vec<String>,
    pub health_check_cmd: Option<Vec<String>>,
}

#[derive(Debug, Clone, Copy)]
pub struct UpdateTimeoutConfig {
    pub git_pull_ms: u64,
    pub docker_build_ms: u64,
    pub docker_stop_ms: u64,
    pub docker_run_ms: u64,
    pub health_check_ms: u64,
}

#[derive(Debug, Clone, Copy)]
pub struct RollbackPolicy {
    pub enabled: bool,
    pub keep_backup_minutes: u32,
}

#[derive(Debug, Clone)]
pub struct UpdateImageAndRestartRequest {
    pub operation_id: Option<String>,
    pub image: ImageSelection,
    pub source: VersionSourceKind,
    pub target_version: String,
    pub workflow: UpdateWorkflowConfig,
    pub timeouts: UpdateTimeoutConfig,
    pub rollback: RollbackPolicy,
}

/// The audit record of one attempted pipeline step.
#[derive(Debug, Clone)]
pub struct UpdateStepLog {
    pub step: String,
    pub command: Option<String>,
    pub ok: bool,
    pub skipped: bool,
    pub output: String,
    pub error: Option<String>,
    pub elapsed_ms: u128,
}

/// What a rollback did; the default value means no rollback was attempted.
#[derive(Debug, Clone)]
pub struct RollbackResult {
    pub attempted: bool,
    pub restored: bool,
    pub backup_container: Option<String>,
    pub error: Option<String>,
}

impl RollbackResult {
    pub open spec fn is_untouched(&self) -> bool {
        &&& !self.attempted
        &&& !self.restored
        &&& self.backup_container is None
        &&& self.error is None
    }
}

impl Default for RollbackResult {
    fn default() -> (r: RollbackResult)
        ensures
            r.is_untouched(),
    {
        RollbackResult { attempted: false, restored: false, backup_container: None, error: None }
    }
}

#[derive(Debug, Clone)]
pub struct UpdateImageAndRestartResponse {
    pub operation_id: String,
    pub image_key: String,
    pub success: bool,
    pub final_image_ref: Option<String>,
    pub step_logs: Vec<UpdateStepLog>,
    pub rollback: RollbackResult,
}

} // verus!
