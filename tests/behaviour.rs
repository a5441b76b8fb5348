use dev_env_probe::checker::{
    finish_check_at, plan_check_at, select_recommended, source_check_result, CheckPlan,
    FetchOutcome,
};
use dev_env_probe::command::{CommandOutcome, CommandSpec};
use dev_env_probe::contracts::{
    CheckImageVersionRequest, CheckImageVersionResponse, CustomApiSourceConfig,
    DockerHubSourceConfig, HttpHeaderPair, ImageSelection, LocalGitSourceConfig,
    RollbackResult, SourceCheckResult, UpdateTimeoutConfig, UpdateWorkflowConfig,
    VersionCandidate, VersionSourceConfig, VersionSourceKind,
};
use dev_env_probe::custom_api::{header_key_is_safe, CustomApiProvider, HttpMethod};
use dev_env_probe::docker_hub::{DockerHubProvider, DockerHubTag};
use dev_env_probe::errors::{VersionError, VersionErrorCode};
use dev_env_probe::git_checker::{GitCheckerProvider, GitProbe};
use dev_env_probe::health_check::{HealthChecker, HealthVerdict};
use dev_env_probe::rollback::RollbackManager;
use dev_env_probe::state::VersionRuntimeState;
use dev_env_probe::text::{decimal_text, first_line, parse_count};
use dev_env_probe::types::{ContainerBackup, UpdateStep};
use dev_env_probe::updater::{build_update_response, extract_container_name, UpdateOrchestrator, UpdatePhase};

const SECOND_NS: u64 = 1_000_000_000;

fn candidate(source: VersionSourceKind, version: &str) -> VersionCandidate {
    VersionCandidate {
        source,
        version: version.to_string(),
        digest: None,
        release_notes: None,
        published_at: None,
        raw_reference: None,
    }
}

fn ok_result(source: VersionSourceKind, version: &str) -> SourceCheckResult {
    SourceCheckResult {
        source,
        ok: true,
        error_code: None,
        error_message: None,
        latest: Some(candidate(source, version)),
        elapsed_ms: 5,
    }
}

fn failed_result(source: VersionSourceKind) -> SourceCheckResult {
    SourceCheckResult {
        source,
        ok: false,
        error_code: Some("VERSION_SOURCE_UNAVAILABLE".to_string()),
        error_message: Some("down".to_string()),
        latest: None,
        elapsed_ms: 5,
    }
}

fn response(key: &str) -> CheckImageVersionResponse {
    CheckImageVersionResponse {
        image_key: key.to_string(),
        current_version: Some("1.0.0".to_string()),
        has_update: true,
        recommended: Some(candidate(VersionSourceKind::DockerHub, "1.1.0")),
        results: vec![ok_result(VersionSourceKind::DockerHub, "1.1.0")],
        checked_at_ms: 42,
    }
}

fn finished(success: bool, stdout: &str) -> CommandOutcome {
    CommandOutcome::Finished {
        success,
        stdout: stdout.to_string(),
        stderr: String::new(),
        elapsed_ms: 10,
    }
}

fn workflow() -> UpdateWorkflowConfig {
    UpdateWorkflowConfig {
        git_pull_path: "/srv/app".to_string(),
        git_branch: "main".to_string(),
        build_context: ".".to_string(),
        dockerfile: "Dockerfile".to_string(),
        new_image_tag: "app:2".to_string(),
        run_args: vec!["-d".to_string(), "--name".to_string(), "web".to_string()],
        health_check_cmd: None,
    }
}

fn timeouts() -> UpdateTimeoutConfig {
    UpdateTimeoutConfig {
        git_pull_ms: 1000,
        docker_build_ms: 1000,
        docker_stop_ms: 1000,
        docker_run_ms: 1000,
        health_check_ms: 5000,
    }
}

fn request(sources: Vec<VersionSourceConfig>) -> CheckImageVersionRequest {
    CheckImageVersionRequest {
        image: ImageSelection {
            image_id: None,
            repository: "nginx".to_string(),
            tag: "1.0.0".to_string(),
            container_name: None,
            project_path: None,
        },
        sources,
        timeout_ms: None,
        overall_timeout_ms: Some(2000),
    }
}

fn hub_source() -> VersionSourceConfig {
    VersionSourceConfig::DockerHub(DockerHubSourceConfig {
        namespace: "library".to_string(),
        repository: "nginx".to_string(),
        include_prerelease: false,
        tag_regex: None,
    })
}

#[test]
fn image_key_is_repeatable() {
    let a = dev_env_probe::checker::build_image_key("library/redis", "7.0");
    let b = dev_env_probe::checker::build_image_key("library/redis", "7.0");
    assert_eq!(a, b);
    assert_eq!(a, "library/redis:7.0");
}

#[test]
fn cached_response_lives_for_thirty_seconds() {
    let mut state = VersionRuntimeState::new();
    let t = 1_000 * SECOND_NS;
    state.cache_check_at("nginx:latest".to_string(), response("nginx:latest"), t);
    let hit = state.get_cached_check_at("nginx:latest", 30_000, t + 29 * SECOND_NS);
    let hit = hit.expect("fresh entry");
    assert_eq!(hit.checked_at_ms, 42);
    assert_eq!(hit.recommended.unwrap().version, "1.1.0");
    assert!(state.get_cached_check_at("nginx:latest", 30_000, t + 31 * SECOND_NS).is_none());
    assert!(state.get_cached_check_at("redis:7", 30_000, t).is_none());
}

#[test]
fn cache_overwrite_keeps_latest() {
    let mut state = VersionRuntimeState::new();
    state.cache_check_at("k".to_string(), response("k"), 10);
    let mut second = response("k");
    second.checked_at_ms = 99;
    state.cache_check_at("k".to_string(), second, 20);
    assert_eq!(state.get_cached_check_at("k", 30_000, 30).unwrap().checked_at_ms, 99);
    state.cleanup_cache_at(0, 40);
    assert!(state.get_cached_check_at("k", 30_000, 40).is_none());
}

#[test]
fn lock_conflicts_until_released() {
    let mut state = VersionRuntimeState::new();
    let t = 5 * SECOND_NS;
    assert!(state.try_lock_update_at("nginx:latest".to_string(), "op1".to_string(), t).is_ok());
    let err = state.try_lock_update_at("nginx:latest".to_string(), "op2".to_string(), t + SECOND_NS).unwrap_err();
    assert_eq!(err.code(), VersionErrorCode::UpdateConflict);
    assert!(err.to_string().contains("op1"));
    assert!(state.try_lock_update_at("redis:7".to_string(), "op2".to_string(), t).is_ok());
    state.unlock_update("nginx:latest");
    assert!(state.try_lock_update_at("nginx:latest".to_string(), "op3".to_string(), t + 2 * SECOND_NS).is_ok());
}

#[test]
fn stale_lock_is_reclaimed() {
    let mut state = VersionRuntimeState::new();
    assert!(state.try_lock_update_at("k".to_string(), "op1".to_string(), 0).is_ok());
    assert!(state.try_lock_update_at("k".to_string(), "op2".to_string(), 900 * SECOND_NS).is_err());
    assert!(state.try_lock_update_at("k".to_string(), "op3".to_string(), 901 * SECOND_NS).is_ok());
}

#[test]
fn local_repository_wins_in_either_order() {
    let hub = ok_result(VersionSourceKind::DockerHub, "1.0.0");
    let local = ok_result(VersionSourceKind::LocalGit, "1.1.0");
    let first = select_recommended(&[hub.clone(), local.clone()]).unwrap();
    let second = select_recommended(&[local, hub]).unwrap();
    assert_eq!(first.version, "1.1.0");
    assert_eq!(second.version, "1.1.0");
    assert_eq!(second.source, VersionSourceKind::LocalGit);
}

#[test]
fn priority_skips_failed_sources() {
    let results = vec![
        failed_result(VersionSourceKind::LocalGit),
        ok_result(VersionSourceKind::CustomApi, "3.0"),
        ok_result(VersionSourceKind::GithubRelease, "2.0"),
    ];
    assert_eq!(select_recommended(&results).unwrap().version, "2.0");
    assert!(select_recommended(&[failed_result(VersionSourceKind::DockerHub)]).is_none());
}

#[test]
fn all_sources_failing_is_no_valid_result() {
    let mut state = VersionRuntimeState::new();
    let results = vec![failed_result(VersionSourceKind::DockerHub), failed_result(VersionSourceKind::CustomApi)];
    let r = finish_check_at(&mut state, "nginx:1.0.0".to_string(), "1.0.0".to_string(), Some(results), 2000, 1, 1);
    assert!(matches!(r, Err(VersionError::NoValidSourceResult)));
    assert!(state.get_cached_check_at("nginx:1.0.0", 30_000, 1).is_none());
}

#[test]
fn late_batch_is_overall_timeout() {
    let mut state = VersionRuntimeState::new();
    let r = finish_check_at(&mut state, "k".to_string(), "1".to_string(), None, 2000, 1, 1);
    let err = r.unwrap_err();
    assert_eq!(err.code(), VersionErrorCode::SourceTimeout);
    assert_eq!(err.to_string(), "Source timeout: Overall version check timeout after 2000ms");
}

#[test]
fn partial_failure_is_cached_and_compared() {
    let mut state = VersionRuntimeState::new();
    let results = vec![failed_result(VersionSourceKind::CustomApi), ok_result(VersionSourceKind::DockerHub, "1.1.0")];
    let r = finish_check_at(&mut state, "nginx:1.0.0".to_string(), "1.0.0".to_string(), Some(results), 2000, 7, 100).unwrap();
    assert!(r.has_update);
    assert_eq!(r.results.len(), 2);
    assert_eq!(r.current_version.as_deref(), Some("1.0.0"));
    let cached = state.get_cached_check_at("nginx:1.0.0", 30_000, 100).unwrap();
    assert_eq!(cached.checked_at_ms, 7);

    let same = vec![ok_result(VersionSourceKind::DockerHub, "1.0.0")];
    let r = finish_check_at(&mut state, "nginx:1.0.0".to_string(), "1.0.0".to_string(), Some(same), 2000, 8, 200).unwrap();
    assert!(!r.has_update);
}

#[test]
fn plan_uses_cache_then_validates() {
    let mut state = VersionRuntimeState::new();
    let empty = plan_check_at(request(vec![]), &state, 0);
    assert!(matches!(empty, Err(VersionError::InvalidInput(_))));

    match plan_check_at(request(vec![hub_source()]), &state, 0).unwrap() {
        CheckPlan::Fetch(plan) => {
            assert_eq!(plan.image_key, "nginx:1.0.0");
            assert_eq!(plan.providers.len(), 1);
            assert_eq!(plan.source_timeout_ms, 8000);
            assert_eq!(plan.overall_timeout_ms, 2000);
            assert_eq!(plan.providers[0].timeout_ms(), 8000);
        }
        CheckPlan::Cached(_) => panic!("nothing is cached yet"),
    }

    state.cache_check_at("nginx:1.0.0".to_string(), response("nginx:1.0.0"), 0);
    assert!(matches!(plan_check_at(request(vec![]), &state, SECOND_NS), Ok(CheckPlan::Cached(_))));
}

#[test]
fn source_results_record_errors() {
    let ok = source_check_result(VersionSourceKind::GithubRelease,
        FetchOutcome::Completed(Ok(candidate(VersionSourceKind::GithubRelease, "v2"))), 8000, 12);
    assert!(ok.ok);
    assert_eq!(ok.latest.unwrap().version, "v2");

    let timed_out = source_check_result(VersionSourceKind::DockerHub, FetchOutcome::TimedOut, 8000, 8001);
    assert!(!timed_out.ok);
    assert_eq!(timed_out.error_code.as_deref(), Some("VERSION_SOURCE_TIMEOUT"));
    assert_eq!(timed_out.error_message.as_deref(), Some("Source check timeout after 8000ms"));

    let failed = source_check_result(VersionSourceKind::CustomApi,
        FetchOutcome::Completed(Err(VersionError::Parse("bad".to_string()))), 8000, 3);
    assert_eq!(failed.error_code.as_deref(), Some("VERSION_SOURCE_UNAVAILABLE"));
    assert_eq!(failed.error_message.as_deref(), Some("版本源不可用，请检查网络连接: Parse error: bad"));
}

#[test]
fn error_codes_and_messages() {
    assert_eq!(VersionErrorCode::InvalidInput.as_str(), "VERSION_INVALID_INPUT");
    assert_eq!(VersionErrorCode::RollbackFailed.as_str(), "VERSION_ROLLBACK_FAILED");
    assert_eq!(VersionErrorCode::UpdateConflict.user_message(), "该镜像正在更新中，请稍后重试");
    let e = VersionError::StepFailed { step: "git_pull".to_string(), message: "boom".to_string() };
    assert_eq!(e.code(), VersionErrorCode::StepFailed);
    assert_eq!(e.to_string(), "Step failed: git_pull - boom");
    assert_eq!(e.user_message(), "更新步骤执行失败: Step failed: git_pull - boom");
    assert_eq!(VersionError::Http("x".to_string()).code(), VersionErrorCode::SourceUnavailable);
    assert_eq!(VersionError::NoValidSourceResult.to_string(), "No valid source result");
}

#[test]
fn registry_filter_keeps_matches_only() {
    let provider = DockerHubProvider::new(DockerHubSourceConfig {
        namespace: "library".to_string(),
        repository: "nginx".to_string(),
        include_prerelease: false,
        tag_regex: Some(r"^\d+$".to_string()),
    });
    let tags = vec![DockerHubTag {
        name: "latest".to_string(),
        last_updated: "2024".to_string(),
        digest: None,
    }];
    assert!(provider.filter_and_sort_tags(tags).is_none());
    assert!(provider.tag_passes_filter("12"));
    assert!(!provider.tag_passes_filter("12a"));

    let tags = vec![
        DockerHubTag { name: "1".to_string(), last_updated: "2024-02".to_string(), digest: Some("sha256:a".to_string()) },
        DockerHubTag { name: "2".to_string(), last_updated: "2024-03".to_string(), digest: None },
        DockerHubTag { name: "3".to_string(), last_updated: "2024-03".to_string(), digest: None },
    ];
    let c = provider.candidate_from_tags(tags).unwrap();
    assert_eq!(c.version, "2");
    assert_eq!(c.published_at.as_deref(), Some("2024-03"));
    assert_eq!(c.raw_reference.as_deref(), Some("library/nginx:2"));
    assert!(matches!(provider.candidate_from_tags(vec![]), Err(VersionError::Parse(_))));
}

#[test]
fn custom_api_request_checks() {
    let mut config = CustomApiSourceConfig {
        endpoint: "http://example.com/v".to_string(),
        method: "post".to_string(),
        headers: vec![HttpHeaderPair { key: "X-Api_Key1".to_string(), value: "v".to_string() }],
        version_field: "version".to_string(),
        notes_field: None,
        published_at_field: None,
    };
    assert_eq!(CustomApiProvider::new(config.clone()).validate_request().unwrap(), HttpMethod::Post);
    config.method = "DELETE".to_string();
    assert!(matches!(CustomApiProvider::new(config.clone()).validate_method(), Err(VersionError::InvalidInput(_))));
    config.method = "get".to_string();
    config.headers.push(HttpHeaderPair { key: "bad key".to_string(), value: "v".to_string() });
    assert!(matches!(CustomApiProvider::new(config.clone()).validate_request(), Err(VersionError::InvalidInput(_))));
    assert!(header_key_is_safe("Accept-Language"));
    assert!(!header_key_is_safe("a:b"));

    let provider = CustomApiProvider::new(config);
    let c = provider.candidate_from_fields(Some("1.0.0".to_string()), Some("notes".to_string()), None).unwrap();
    assert_eq!(c.raw_reference.as_deref(), Some("http://example.com/v"));
    let e = provider.candidate_from_fields(None, None, None).unwrap_err();
    assert_eq!(e.to_string(), "Parse error: Version field 'version' not found in response");
}

#[test]
fn git_provider_pieces() {
    let provider = GitCheckerProvider::new(LocalGitSourceConfig {
        repo_path: "/".to_string(),
        branch: "main".to_string(),
        version_file: None,
    });
    assert!(matches!(provider.validate_repo_path(), Err(VersionError::InvalidInput(_))));
    assert_eq!(provider.get_remote_commit().args, vec!["rev-parse".to_string(), "origin/main".to_string()]);
    assert_eq!(provider.get_commits_behind("a", "b").args[2], "a..b");
    assert_eq!(GitCheckerProvider::commits_behind_from_output("12").unwrap(), 12);
    assert!(GitCheckerProvider::commits_behind_from_output("x1").is_err());
    assert_eq!(GitCheckerProvider::latest_tag_from_output("v2.0\nv1.0").unwrap(), "v2.0");
    assert_eq!(GitCheckerProvider::version_from_file("  3.1.4\n"), "3.1.4");

    let spec = provider.get_current_commit();
    let out = GitCheckerProvider::git_output(&spec, &finished(true, " abc \n")).unwrap();
    assert_eq!(out, "abc");
    let err = GitCheckerProvider::git_output(&spec, &finished(false, "")).unwrap_err();
    assert_eq!(err.to_string(), "Step failed: git rev-parse HEAD - ");

    let remote = "0123456789abcdef".to_string();
    let c = provider.compose_candidate(remote.clone(), None, None, 3, Some("fix".to_string())).unwrap();
    assert_eq!(c.version, "01234567");
    assert_eq!(c.release_notes.as_deref(), Some("3 commits behind. Latest: fix"));
    assert_eq!(c.raw_reference.as_deref(), Some("main@01234567"));
    let c = provider.compose_candidate(remote.clone(), Some("9.9".to_string()), Some("v1".to_string()), 0, None).unwrap();
    assert_eq!(c.version, "9.9");
    assert!(c.release_notes.is_none());
    let c = provider.compose_candidate(remote, None, Some("v1".to_string()), 1, None).unwrap();
    assert_eq!(c.version, "v1");
    assert_eq!(c.release_notes.as_deref(), Some("1 commits behind. Latest: (no message)"));
    assert!(provider.compose_candidate("abc".to_string(), None, None, 0, None).is_err());
}

#[test]
fn text_helpers() {
    assert_eq!(decimal_text(0), "0");
    assert_eq!(decimal_text(30000), "30000");
    assert_eq!(parse_count("+7"), Some(7));
    assert_eq!(parse_count(""), None);
    assert_eq!(parse_count("99999999999999999999999"), None);
    assert_eq!(first_line("a\r\nb").as_deref(), Some("a"));
    assert_eq!(first_line(""), None);
    let spec = CommandSpec {
        program: "docker".to_string(),
        args: vec!["rm".to_string(), "-f".to_string(), "x".to_string()],
        current_dir: None,
        delay_ms: 0,
    };
    assert_eq!(spec.display(), "docker rm -f x");
}

#[test]
fn health_becomes_healthy_on_third_look() {
    let mut h = HealthChecker::new("web".to_string(), 30);
    assert_eq!(h.inspect_command().delay_ms, 0);
    assert!(matches!(h.observe(&finished(true, "created\n")), HealthVerdict::Pending));
    assert_eq!(h.inspect_command().delay_ms, 1000);
    assert!(matches!(h.observe(&finished(true, "created\n")), HealthVerdict::Pending));
    assert!(matches!(h.observe(&finished(true, "running\n")), HealthVerdict::Healthy));
    assert_eq!(h.polls, 3);
}

#[test]
fn health_gives_up_after_the_wait() {
    let mut h = HealthChecker::new("web".to_string(), 3);
    let mut looks = 0;
    loop {
        looks += 1;
        match h.observe(&finished(true, "created")) {
            HealthVerdict::Pending => continue,
            HealthVerdict::Healthy => panic!("never running"),
            HealthVerdict::Failed(e) => {
                assert_eq!(e.code(), VersionErrorCode::StepFailed);
                break;
            }
        }
    }
    assert_eq!(looks, 3);
    assert!(h.waited_ms > 3000);
    let mut gone = HealthChecker::new("web".to_string(), 3);
    assert!(matches!(gone.observe(&finished(false, "")), HealthVerdict::Failed(VersionError::StepFailed { .. })));
}

#[test]
fn rollback_manager_commands() {
    let m = RollbackManager::new("web".to_string(), "op-1");
    assert_eq!(m.backup_container_name, "web-backup-op-1");
    assert_eq!(m.restore_command().display(), "docker rename web-backup-op-1 web");
    assert_eq!(m.cleanup_command().display(), "docker rm -f web-backup-op-1");
    let r = m.start_result(&finished(true, ""));
    assert!(r.attempted && r.restored && r.error.is_none());
    let r = m.restore_failed(&finished(false, ""));
    assert!(r.attempted && !r.restored);
    let b = ContainerBackup::new("web".to_string(), "op-1", "app:1".to_string());
    assert_eq!(b.backup_name, "web-backup-op-1");
    assert_eq!(UpdateStep::HealthCheck.as_str(), "health_check");
}

#[test]
fn container_name_follows_flag() {
    assert_eq!(extract_container_name(&vec!["-d".to_string(), "--name".to_string(), "web".to_string()]), "web");
    assert_eq!(extract_container_name(&vec!["--name=web".to_string()]), "");
    assert_eq!(extract_container_name(&vec!["-d".to_string(), "--name".to_string()]), "");
}

fn drive(o: &mut UpdateOrchestrator, outcomes: Vec<CommandOutcome>) -> Vec<CommandSpec> {
    let mut issued = Vec::new();
    for outcome in outcomes {
        let cmd = o.next_command().expect("pipeline still running");
        issued.push(cmd);
        o.execute(outcome);
    }
    issued
}

#[test]
fn failed_run_rolls_back_and_restores() {
    let mut o = UpdateOrchestrator::new(workflow(), timeouts(), "op-7".to_string());
    let issued = drive(&mut o, vec![
        finished(true, ""),  // pull
        finished(true, ""),  // build
        finished(true, ""),  // inspect: container exists
        finished(true, ""),  // rename to backup
        finished(false, ""), // run fails
        finished(true, ""),  // remove failed container
        finished(true, ""),  // rename back
        finished(true, ""),  // start
    ]);
    assert!(o.next_command().is_none());
    assert_eq!(issued[7].display(), "docker start web");
    let (logs, rollback) = o.finish().unwrap();
    assert!(rollback.attempted);
    assert!(rollback.restored);
    let steps: Vec<&str> = logs.iter().map(|l| l.step.as_str()).collect();
    assert_eq!(steps, vec!["git_pull", "docker_build", "backup_container", "docker_run"]);
    let response = build_update_response("op-7".to_string(), "app", "1", "app:2".to_string(), logs, rollback);
    assert!(!response.success);
    assert!(response.final_image_ref.is_none());
    assert_eq!(response.image_key, "app:1");
}

#[test]
fn skipped_backup_never_starts_anything() {
    let mut o = UpdateOrchestrator::new(workflow(), timeouts(), "op-8".to_string());
    let issued = drive(&mut o, vec![
        finished(true, ""),  // pull
        finished(true, ""),  // build
        finished(false, ""), // inspect: no container
        finished(false, ""), // run fails
        finished(true, ""),  // remove failed container
        finished(false, ""), // no backup to rename back
    ]);
    assert_eq!(o.phase, UpdatePhase::Done);
    assert!(issued.iter().all(|c| c.args[0] != "start"));
    assert_eq!(issued[5].display(), "docker rename web-backup-op-8 web");
    let (logs, rollback) = o.finish().unwrap();
    assert!(rollback.attempted);
    assert!(!rollback.restored);
    assert_eq!(rollback.backup_container.as_deref(), Some("web-backup-op-8"));
    assert_eq!(rollback.error.as_deref(), Some("Failed to restore backup container: \n"));
    assert!(logs[2].skipped && logs[2].ok && logs[2].error.is_none());
}

#[test]
fn successful_update_cleans_up() {
    let mut o = UpdateOrchestrator::new(workflow(), timeouts(), "op-9".to_string());
    let issued = drive(&mut o, vec![
        finished(true, ""),
        finished(true, ""),
        finished(true, ""),
        finished(true, ""),
        finished(true, "cid"),
        finished(true, "running"),
        finished(true, ""),
    ]);
    assert_eq!(issued[4].display(), "docker run -d --name web app:2");
    assert_eq!(issued[6].display(), "docker rm -f web-backup-op-9");
    let (logs, rollback) = o.finish().unwrap();
    assert_eq!(logs.len(), 5);
    assert!(!rollback.attempted);
    let response = build_update_response("op-9".to_string(), "app", "1", "app:2".to_string(), logs, RollbackResult::default());
    assert!(response.success);
    assert_eq!(response.final_image_ref.as_deref(), Some("app:2"));
}

#[test]
fn early_failures_leave_rollback_untouched() {
    let cases = vec![
        vec![finished(false, "")],
        vec![finished(true, ""), finished(false, "")],
        vec![finished(true, ""), finished(true, ""), finished(true, ""), finished(false, "")],
    ];
    for (n, outcomes) in cases.into_iter().enumerate() {
        let mut o = UpdateOrchestrator::new(workflow(), timeouts(), "op-2".to_string());
        drive(&mut o, outcomes);
        assert!(o.next_command().is_none());
        let (logs, rollback) = o.finish().unwrap();
        assert_eq!(logs.len(), n + 1);
        assert!(!rollback.attempted && rollback.backup_container.is_none() && rollback.error.is_none());
        assert!(!logs.last().unwrap().ok);
    }
}

#[test]
fn pull_that_cannot_start_aborts() {
    let mut o = UpdateOrchestrator::new(workflow(), timeouts(), "op-1".to_string());
    o.execute(CommandOutcome::NotStarted { error: "no git".to_string() });
    assert!(o.next_command().is_none());
    let e = o.finish().unwrap_err();
    assert_eq!(e.to_string(), "Step failed: git_pull - Failed to execute git pull: no git");
}

#[test]
fn git_probe_runs_queries_in_order() {
    let provider = GitCheckerProvider::new(LocalGitSourceConfig {
        repo_path: "/srv/app".to_string(),
        branch: "main".to_string(),
        version_file: None,
    });
    let mut probe = GitProbe::new(provider.clone(), None);
    let answers = ["", "1111111111", "2222222222", "v3.0\nv2.0", "4", "Add feature"];
    let mut seen = Vec::new();
    for answer in answers {
        let cmd = probe.next_command().expect("more queries");
        seen.push(cmd.args[0].clone());
        probe.execute(finished(true, answer));
    }
    assert!(probe.next_command().is_none());
    assert_eq!(seen, vec!["fetch", "rev-parse", "rev-parse", "tag", "rev-list", "log"]);
    let c = probe.finish().unwrap();
    assert_eq!(c.version, "v3.0");
    assert_eq!(c.digest.as_deref(), Some("2222222222"));
    assert_eq!(c.release_notes.as_deref(), Some("4 commits behind. Latest: Add feature"));

    let mut with_file = GitProbe::new(provider.clone(), Some(" 7.7.7\n".to_string()));
    for answer in ["", "aaaaaaaaaa", "bbbbbbbbbb", "0"] {
        assert_ne!(with_file.next_command().unwrap().args[0], "tag");
        with_file.execute(finished(true, answer));
    }
    with_file.execute(finished(false, ""));
    let c = with_file.finish().unwrap();
    assert_eq!(c.version, "7.7.7");
    assert!(c.release_notes.is_none());

    let mut failing = GitProbe::new(provider, None);
    failing.execute(finished(false, ""));
    assert!(failing.next_command().is_none());
    assert!(matches!(failing.finish(), Err(VersionError::StepFailed { .. })));
}
