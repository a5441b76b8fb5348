use vstd::prelude::*;
use vstd::string::StrSliceExecFns;
use vstd::string::StringExecFns;

use crate::command::{CommandOutcome, CommandSpec};
use crate::contracts::{LocalGitSourceConfig, VersionCandidate, VersionSourceKind};
use crate::errors::{VersionError, VersionResult};
use crate::text::{copy_opt, count_of, decimal, decimal_text, first_line, first_line_of, parse_count, trim_text, trimmed, views};

verus! {

/// The path that `std::path::Path::join` makes of `base` and `child`.
pub uninterp spec fn joined_path(base: Seq<char>, child: Seq<char>) -> Seq<char>;

/// Relies on std::path::Path::exists: whether something is at `path` now.
/// Nothing is promised: the answer depends on the disk.
#[verifier::external_body]
fn path_exists(path: &str) -> (r: bool) {
    std::path::Path::new(path).exists()
}

/// Relies on std::path::Path::join: `child` appended to `base` as a path component.
#[verifier::external_body]
fn join_path(base: &str, child: &str) -> (r: String)
    ensures
        r@ == joined_path(base@, child@),
{
    std::path::Path::new(base).join(child).to_string_lossy().into_owned()
}

/// Learns the version of a local clone from its remote-tracking branch.
#[derive(Debug, Clone)]
pub struct GitCheckerProvider {
    pub config: LocalGitSourceConfig,
}

/// How many characters of a commit hash make its short form.
pub const SHORT_HASH_LEN: usize = 8;

/// The version reported: the version file's content if there is one, else the
/// newest tag, else the short hash of the remote commit.
pub open spec fn reported_version(file_version: Option<Seq<char>>, latest_tag: Option<Seq<char>>,
    remote_commit: Seq<char>) -> Seq<char> {
    match file_version {
        Some(v) => v,
        None => match latest_tag {
            Some(t) => t,
            None => remote_commit.subrange(0, SHORT_HASH_LEN as int),
        },
    }
}

/// The release notes: the count of commits behind and the tip's subject when
/// behind, else the subject alone.
pub open spec fn notes_for(behind: nat, message: Option<Seq<char>>) -> Option<Seq<char>> {
    if behind > 0 {
        Some(decimal(behind) + " commits behind. Latest: "@ + match message {
            Some(m) => m,
            None => "(no message)"@,
        })
    } else {
        message
    }
}

/// The characters of an optional string.
pub open spec fn opt_view(o: Option<String>) -> Option<Seq<char>> {
    match o {
        Some(s) => Some(s@),
        None => None,
    }
}

/// `r` is the candidate made of what the repository queries answered: a
/// parse failure when the remote commit is shorter than a short hash.
pub open spec fn composed(r: VersionResult<VersionCandidate>, branch: Seq<char>, remote_commit: String,
    file_version: Option<Seq<char>>, latest_tag: Option<Seq<char>>, behind: nat, message: Option<Seq<char>>) -> bool {
    &&& (r is Err <==> remote_commit@.len() < SHORT_HASH_LEN)
    &&& (r is Err ==> r->Err_0 is Parse)
    &&& (r is Ok ==> {
        let c = r->Ok_0;
        &&& c.source == VersionSourceKind::LocalGit
        &&& c.version@ == reported_version(file_version, latest_tag, remote_commit@)
        &&& c.digest == Some(remote_commit)
        &&& (c.release_notes is Some <==> notes_for(behind, message) is Some)
        &&& (c.release_notes is Some ==> c.release_notes->0@ == notes_for(behind, message)->0)
        &&& c.published_at is None
        &&& c.raw_reference is Some
        &&& c.raw_reference->0@ == branch + "@"@ + remote_commit@.subrange(0, SHORT_HASH_LEN as int)
    })
}

impl GitCheckerProvider {
    pub fn new(config: LocalGitSourceConfig) -> (r: GitCheckerProvider)
        ensures
            r.config == config,
    {
        GitCheckerProvider { config }
    }

    /// The configured path must exist and hold a `.git` directory.
    pub fn validate_repo_path(&self) -> (r: VersionResult<()>)
        ensures
            r is Err ==> r->Err_0 is InvalidInput,
    {
        if !path_exists(self.config.repo_path.as_str()) {
            let mut m = String::from_str("Git repository path does not exist: ");
            m.append(self.config.repo_path.as_str());
            return Err(VersionError::InvalidInput(m));
        }
        let git_dir = join_path(self.config.repo_path.as_str(), ".git");
        if !path_exists(git_dir.as_str()) {
            let mut m = String::from_str("Not a Git repository: ");
            m.append(self.config.repo_path.as_str());
            return Err(VersionError::InvalidInput(m));
        }
        Ok(())
    }

    fn git(&self, args: Vec<String>) -> (r: CommandSpec)
        ensures
            r.program@ == "git"@,
            r.args@ == args@,
            r.current_dir == Some(self.config.repo_path),
            r.delay_ms == 0,
    {
        proof { reveal_strlit("git"); }
        CommandSpec {
            program: String::from_str("git"),
            args,
            current_dir: Some(self.config.repo_path.clone()),
            delay_ms: 0,
        }
    }

    /// Brings in the remote's branches and tags, pruning deleted branches.
    pub fn fetch_remote(&self) -> (r: CommandSpec)
        ensures
            r.program@ == "git"@,
            views(r.args@) == seq!["fetch"@, "--tags"@, "--prune"@, "origin"@],
            r.current_dir == Some(self.config.repo_path),
    {
        proof {
            reveal_strlit("fetch");
            reveal_strlit("--tags");
            reveal_strlit("--prune");
            reveal_strlit("origin");
        }
        let args = vec![
            String::from_str("fetch"),
            String::from_str("--tags"),
            String::from_str("--prune"),
            String::from_str("origin"),
        ];
        let r = self.git(args);
        assert(views(r.args@) =~= seq!["fetch"@, "--tags"@, "--prune"@, "origin"@]);
        r
    }

    /// Prints the local HEAD commit.
    pub fn get_current_commit(&self) -> (r: CommandSpec)
        ensures
            r.program@ == "git"@,
            views(r.args@) == seq!["rev-parse"@, "HEAD"@],
            r.current_dir == Some(self.config.repo_path),
    {
        proof {
            reveal_strlit("rev-parse");
            reveal_strlit("HEAD");
        }
        let args = vec![String::from_str("rev-parse"), String::from_str("HEAD")];
        let r = self.git(args);
        assert(views(r.args@) =~= seq!["rev-parse"@, "HEAD"@]);
        r
    }

    /// Prints the commit of the remote-tracking branch.
    pub fn get_remote_commit(&self) -> (r: CommandSpec)
        ensures
            r.program@ == "git"@,
            views(r.args@) == seq!["rev-parse"@, "origin/"@ + self.config.branch@],
            r.current_dir == Some(self.config.repo_path),
    {
        proof {
            reveal_strlit("rev-parse");
            reveal_strlit("origin/");
        }
        let mut branch = String::from_str("origin/");
        branch.append(self.config.branch.as_str());
        let args = vec![String::from_str("rev-parse"), branch];
        let r = self.git(args);
        assert(views(r.args@) =~= seq!["rev-parse"@, "origin/"@ + self.config.branch@]);
        r
    }

    /// Lists the tags, highest version first.
    pub fn get_latest_tag(&self) -> (r: CommandSpec)
        ensures
            r.program@ == "git"@,
            views(r.args@) == seq!["tag"@, "--sort=-v:refname"@],
            r.current_dir == Some(self.config.repo_path),
    {
        proof {
            reveal_strlit("tag");
            reveal_strlit("--sort=-v:refname");
        }
        let args = vec![String::from_str("tag"), String::from_str("--sort=-v:refname")];
        let r = self.git(args);
        assert(views(r.args@) =~= seq!["tag"@, "--sort=-v:refname"@]);
        r
    }

    /// Counts the commits in `remote` that `local` lacks.
    pub fn get_commits_behind(&self, local: &str, remote: &str) -> (r: CommandSpec)
        ensures
            r.program@ == "git"@,
            views(r.args@) == seq!["rev-list"@, "--count"@, local@ + ".."@ + remote@],
            r.current_dir == Some(self.config.repo_path),
    {
        proof {
            reveal_strlit("rev-list");
            reveal_strlit("--count");
            reveal_strlit("..");
        }
        let mut range = String::from_str(local);
        range.append("..");
        range.append(remote);
        let args = vec![String::from_str("rev-list"), String::from_str("--count"), range];
        let r = self.git(args);
        assert(views(r.args@) =~= seq!["rev-list"@, "--count"@, local@ + ".."@ + remote@]);
        r
    }

    /// Prints the subject line of `commit`.
    pub fn get_latest_commit_message(&self, commit: &str) -> (r: CommandSpec)
        ensures
            r.program@ == "git"@,
            views(r.args@) == seq!["log"@, "-1"@, "--pretty=format:%s"@, commit@],
            r.current_dir == Some(self.config.repo_path),
    {
        proof {
            reveal_strlit("log");
            reveal_strlit("-1");
            reveal_strlit("--pretty=format:%s");
        }
        let args = vec![
            String::from_str("log"),
            String::from_str("-1"),
            String::from_str("--pretty=format:%s"),
            String::from_str(commit),
        ];
        let r = self.git(args);
        assert(views(r.args@) =~= seq!["log"@, "-1"@, "--pretty=format:%s"@, commit@]);
        r
    }

    /// What a git command printed, trimmed; an I/O failure when it could not
    /// start, a step failure carrying its error output when it failed.
    pub fn git_output(command: &CommandSpec, outcome: &CommandOutcome) -> (r: VersionResult<String>)
        ensures
            r is Ok <==> outcome.succeeded(),
            r is Ok ==> r->Ok_0@ == trimmed(outcome->stdout@),
            outcome is NotStarted ==> r is Err && r->Err_0 is Io,
            outcome is Finished && !outcome.succeeded() ==> r is Err && r->Err_0 is StepFailed,
    {
        match outcome {
            CommandOutcome::NotStarted { error } => Err(VersionError::Io(error.clone())),
            CommandOutcome::Finished { success, stdout, stderr, .. } => {
                if *success {
                    Ok(trim_text(stdout.as_str()))
                } else {
                    let mut step = String::from_str("git ");
                    let words = crate::text::join_with_spaces(&command.args);
                    step.append(words.as_str());
                    Err(VersionError::StepFailed { step, message: stderr.clone() })
                }
            },
        }
    }

    /// The newest tag: the first line of the sorted tag listing.
    pub fn latest_tag_from_output(output: &str) -> (r: Option<String>)
        ensures
            r is None <==> first_line_of(output@) is None,
            r is Some ==> first_line_of(output@) == Some(r->0@),
    {
        first_line(output)
    }

    /// The number of commits behind, read from the count command's output.
    pub fn commits_behind_from_output(output: &str) -> (r: VersionResult<usize>)
        ensures
            r is Ok <==> count_of(output@) is Some,
            r is Ok ==> r->Ok_0 as nat == count_of(output@)->0,
            r is Err ==> r->Err_0 is Parse,
    {
        match parse_count(output) {
            Some(n) => Ok(n),
            None => {
                let mut m = String::from_str("Failed to parse commit count: ");
                m.append(output);
                Err(VersionError::Parse(m))
            },
        }
    }

    /// The version written in a version file: its content, trimmed.
    pub fn version_from_file(content: &str) -> (r: String)
        ensures
            r@ == trimmed(content@),
    {
        trim_text(content)
    }

    /// The candidate made of what the repository queries answered. The remote
    /// commit must be at least as long as a short hash.
    pub fn compose_candidate(&self, remote_commit: String, file_version: Option<String>,
        latest_tag: Option<String>, commits_behind: usize, latest_message: Option<String>)
        -> (r: VersionResult<VersionCandidate>)
        ensures
            composed(r, self.config.branch@, remote_commit, opt_view(file_version), opt_view(latest_tag),
                commits_behind as nat, opt_view(latest_message)),
    {
        let n = remote_commit.as_str().unicode_len();
        if n < SHORT_HASH_LEN {
            let mut m = String::from_str("Commit hash too short: ");
            m.append(remote_commit.as_str());
            return Err(VersionError::Parse(m));
        }
        let short = String::from_str(remote_commit.as_str().substring_char(0, SHORT_HASH_LEN));
        let version = match file_version {
            Some(v) => v,
            None => match latest_tag {
                Some(t) => t,
                None => short.clone(),
            },
        };
        let release_notes = if commits_behind > 0 {
            proof {
                reveal_strlit(" commits behind. Latest: ");
                reveal_strlit("(no message)");
            }
            let mut s = decimal_text(commits_behind as u64);
            s.append(" commits behind. Latest: ");
            match &latest_message {
                Some(m) => s.append(m.as_str()),
                None => s.append("(no message)"),
            }
            Some(s)
        } else {
            latest_message
        };
        proof { reveal_strlit("@"); }
        let mut raw = String::from_str(self.config.branch.as_str());
        raw.append("@");
        raw.append(short.as_str());
        Ok(VersionCandidate {
            source: VersionSourceKind::LocalGit,
            version,
            digest: Some(remote_commit),
            release_notes,
            published_at: None,
            raw_reference: Some(raw),
        })
    }
}

/// The query a local-repository check runs next.
#[derive(Debug, Clone, Copy, PartialEq, Eq, Structural)]
pub enum GitProbeStep {
    FetchRemote,
    CurrentCommit,
    RemoteCommit,
    LatestTag,
    CommitsBehind,
    LatestMessage,
    Finished,
}

/// Runs the queries of a local-repository check one after another: fetch the
/// remote, read both commits, find the newest tag unless a version file gave
/// the version, count the commits behind, read the tip's subject. The caller
/// runs each command that `next_command` hands out and passes its outcome to
/// `execute`; any failing query ends the check, except the subject, which
/// is optional.
#[derive(Debug)]
pub struct GitProbe {
    pub provider: GitCheckerProvider,
    pub step: GitProbeStep,
    pub file_version: Option<String>,
    pub local_commit: String,
    pub remote_commit: String,
    pub latest_tag: Option<String>,
    pub commits_behind: usize,
    pub result: Option<VersionResult<VersionCandidate>>,
}

impl GitProbe {
    pub open spec fn wf(&self) -> bool {
        self.step == GitProbeStep::Finished <==> self.result is Some
    }

    /// The arguments of the query each step runs (with `git`, in the
    /// repository); none once the check has finished.
    pub open spec fn step_args(&self) -> Option<Seq<Seq<char>>> {
        match self.step {
            GitProbeStep::FetchRemote => Some(seq!["fetch"@, "--tags"@, "--prune"@, "origin"@]),
            GitProbeStep::CurrentCommit => Some(seq!["rev-parse"@, "HEAD"@]),
            GitProbeStep::RemoteCommit => Some(seq!["rev-parse"@, "origin/"@ + self.provider.config.branch@]),
            GitProbeStep::LatestTag => Some(seq!["tag"@, "--sort=-v:refname"@]),
            GitProbeStep::CommitsBehind => Some(seq!["rev-list"@, "--count"@,
                self.local_commit@ + ".."@ + self.remote_commit@]),
            GitProbeStep::LatestMessage => Some(seq!["log"@, "-1"@, "--pretty=format:%s"@, self.remote_commit@]),
            GitProbeStep::Finished => None,
        }
    }

    /// The step after the current one when its query succeeded.
    pub open spec fn step_after(&self) -> GitProbeStep {
        match self.step {
            GitProbeStep::FetchRemote => GitProbeStep::CurrentCommit,
            GitProbeStep::CurrentCommit => GitProbeStep::RemoteCommit,
            GitProbeStep::RemoteCommit => if self.file_version is Some {
                GitProbeStep::CommitsBehind
            } else {
                GitProbeStep::LatestTag
            },
            GitProbeStep::LatestTag => GitProbeStep::CommitsBehind,
            GitProbeStep::CommitsBehind => GitProbeStep::LatestMessage,
            _ => GitProbeStep::Finished,
        }
    }

    /// `file_version` is what the configured version file holds, when it exists.
    pub fn new(provider: GitCheckerProvider, file_version: Option<String>) -> (r: GitProbe)
        ensures
            r.wf(),
            r.step == GitProbeStep::FetchRemote,
            r.provider == provider,
            r.file_version is Some <==> file_version is Some,
            r.file_version is Some ==> r.file_version->0@ == trimmed(file_version->0@),
    {
        let file_version = match file_version {
            Some(content) => Some(GitCheckerProvider::version_from_file(content.as_str())),
            None => None,
        };
        GitProbe {
            provider,
            step: GitProbeStep::FetchRemote,
            file_version,
            local_commit: String::new(),
            remote_commit: String::new(),
            latest_tag: None,
            commits_behind: 0,
            result: None,
        }
    }

    /// The path of the configured version file, if one is configured.
    pub fn version_file_path(provider: &GitCheckerProvider) -> (r: Option<String>)
        ensures
            r is Some <==> provider.config.version_file is Some,
            r is Some ==> r->0@ == joined_path(provider.config.repo_path@, provider.config.version_file->0@),
    {
        match &provider.config.version_file {
            Some(f) => Some(join_path(provider.config.repo_path.as_str(), f.as_str())),
            None => None,
        }
    }

    /// The query to run now; none once the check has finished.
    pub fn next_command(&self) -> (r: Option<CommandSpec>)
        ensures
            r is None <==> self.step == GitProbeStep::Finished,
            match self.step_args() {
                None => r is None,
                Some(a) => {
                    &&& r is Some
                    &&& r->0.program@ == "git"@
                    &&& views(r->0.args@) == a
                    &&& r->0.current_dir == Some(self.provider.config.repo_path)
                },
            },
    {
        match self.step {
            GitProbeStep::FetchRemote => Some(self.provider.fetch_remote()),
            GitProbeStep::CurrentCommit => Some(self.provider.get_current_commit()),
            GitProbeStep::RemoteCommit => Some(self.provider.get_remote_commit()),
            GitProbeStep::LatestTag => Some(self.provider.get_latest_tag()),
            GitProbeStep::CommitsBehind => Some(
                self.provider.get_commits_behind(self.local_commit.as_str(), self.remote_commit.as_str())),
            GitProbeStep::LatestMessage => Some(self.provider.get_latest_commit_message(self.remote_commit.as_str())),
            GitProbeStep::Finished => None,
        }
    }

    /// Takes the outcome of the query last handed out and moves on.
    pub fn execute(&mut self, outcome: CommandOutcome)
        requires
            old(self).wf(),
        ensures
            final(self).wf(),
            old(self).step == GitProbeStep::Finished ==> final(self).result == old(self).result,
            old(self).step != GitProbeStep::Finished && old(self).step != GitProbeStep::LatestMessage
                && !outcome.succeeded() ==> final(self).step == GitProbeStep::Finished && final(self).result->0 is Err,
            old(self).step != GitProbeStep::Finished && old(self).step != GitProbeStep::CommitsBehind
                && outcome.succeeded() ==> final(self).step == old(self).step_after(),
            old(self).step == GitProbeStep::LatestMessage ==> final(self).step == GitProbeStep::Finished,
            old(self).step == GitProbeStep::CommitsBehind && outcome.succeeded() ==> (
                final(self).step == GitProbeStep::LatestMessage <==> count_of(trimmed(outcome->stdout@)) is Some),
            final(self).provider == old(self).provider,
            final(self).file_version == old(self).file_version,
            final(self).local_commit@ == if old(self).step == GitProbeStep::CurrentCommit && outcome.succeeded() {
                trimmed(outcome->stdout@)
            } else {
                old(self).local_commit@
            },
            final(self).remote_commit@ == if old(self).step == GitProbeStep::RemoteCommit && outcome.succeeded() {
                trimmed(outcome->stdout@)
            } else {
                old(self).remote_commit@
            },
            opt_view(final(self).latest_tag) == if old(self).step == GitProbeStep::LatestTag && outcome.succeeded() {
                first_line_of(trimmed(outcome->stdout@))
            } else {
                opt_view(old(self).latest_tag)
            },
            final(self).commits_behind as nat == if old(self).step == GitProbeStep::CommitsBehind && outcome.succeeded()
                && count_of(trimmed(outcome->stdout@)) is Some {
                count_of(trimmed(outcome->stdout@))->0
            } else {
                old(self).commits_behind as nat
            },
            old(self).step == GitProbeStep::LatestMessage ==> final(self).result is Some && composed(
                final(self).result->0, old(self).provider.config.branch@, old(self).remote_commit,
                opt_view(old(self).file_version), opt_view(old(self).latest_tag), old(self).commits_behind as nat,
                if outcome.succeeded() { Some(trimmed(outcome->stdout@)) } else { None }),
    {
        if self.step == GitProbeStep::Finished {
            return;
        }
        let command = match self.next_command() {
            Some(c) => c,
            None => return,
        };
        let output = GitCheckerProvider::git_output(&command, &outcome);
        if self.step == GitProbeStep::LatestMessage {
            let message = match output {
                Ok(m) => Some(m),
                Err(_) => None,
            };
            let remote = self.remote_commit.clone();
            let file_version = copy_opt(&self.file_version);
            let latest_tag = copy_opt(&self.latest_tag);
            self.result = Some(self.provider.compose_candidate(remote, file_version, latest_tag, self.commits_behind, message));
            self.step = GitProbeStep::Finished;
            return;
        }
        let text = match output {
            Err(e) => {
                self.result = Some(Err(e));
                self.step = GitProbeStep::Finished;
                return;
            },
            Ok(t) => t,
        };
        match self.step {
            GitProbeStep::FetchRemote => {
                self.step = GitProbeStep::CurrentCommit;
            },
            GitProbeStep::CurrentCommit => {
                self.local_commit = text;
                self.step = GitProbeStep::RemoteCommit;
            },
            GitProbeStep::RemoteCommit => {
                self.remote_commit = text;
                self.step = if self.file_version.is_some() { GitProbeStep::CommitsBehind } else { GitProbeStep::LatestTag };
            },
            GitProbeStep::LatestTag => {
                self.latest_tag = GitCheckerProvider::latest_tag_from_output(text.as_str());
                self.step = GitProbeStep::CommitsBehind;
            },
            _ => {
                match GitCheckerProvider::commits_behind_from_output(text.as_str()) {
                    Ok(n) => {
                        self.commits_behind = n;
                        self.step = GitProbeStep::LatestMessage;
                    },
                    Err(e) => {
                        self.result = Some(Err(e));
                        self.step = GitProbeStep::Finished;
                    },
                }
            },
        }
    }

    /// The candidate, or the failure that ended the check; a check stopped
    /// before its end reports that as a failure.
    pub fn finish(self) -> (r: VersionResult<VersionCandidate>)
        ensures
            self.result is Some ==> r == self.result->0,
            self.result is None ==> r is Err,
    {
        match self.result {
            Some(r) => r,
            None => Err(VersionError::Parse(String::from_str("Repository check did not finish"))),
        }
    }
}

} // verus!
