use dev_env_probe::checker::{build_image_key, select_recommended};
use dev_env_probe::contracts::{
    CheckImageVersionResponse, CustomApiSourceConfig, DockerHubSourceConfig,
    GithubReleaseSourceConfig, LocalGitSourceConfig, SourceCheckResult, VersionCandidate,
    VersionSourceKind,
};
use dev_env_probe::custom_api::CustomApiProvider;
use dev_env_probe::docker_hub::{DockerHubProvider, DockerHubTag};
use dev_env_probe::git_checker::GitCheckerProvider;
use dev_env_probe::github::{GithubProvider, GithubRelease};
use dev_env_probe::state::VersionRuntimeState;

#[test]
fn test_build_image_key() {
    assert_eq!(build_image_key("nginx", "latest"), "nginx:latest");
    assert_eq!(build_image_key("library/redis", "7.0"), "library/redis:7.0");
}

#[test]
fn test_select_recommended_priority() {
    let results = vec![
        SourceCheckResult {
            source: VersionSourceKind::DockerHub,
            ok: true,
            error_code: None,
            error_message: None,
            latest: Some(VersionCandidate {
                source: VersionSourceKind::DockerHub,
                version: "1.0.0".to_string(),
                digest: None,
                release_notes: None,
                published_at: None,
                raw_reference: None,
            }),
            elapsed_ms: 100,
        },
        SourceCheckResult {
            source: VersionSourceKind::LocalGit,
            ok: true,
            error_code: None,
            error_message: None,
            latest: Some(VersionCandidate {
                source: VersionSourceKind::LocalGit,
                version: "1.1.0".to_string(),
                digest: None,
                release_notes: None,
                published_at: None,
                raw_reference: None,
            }),
            elapsed_ms: 200,
        },
    ];

    let recommended = select_recommended(&results);
    assert!(recommended.is_some());
    assert_eq!(recommended.unwrap().source, VersionSourceKind::LocalGit);
}

#[test]
fn test_validate_url() {
    let config = CustomApiSourceConfig {
        endpoint: "https://api.example.com/version".to_string(),
        method: "GET".to_string(),
        headers: vec![],
        version_field: "version".to_string(),
        notes_field: None,
        published_at_field: None,
    };

    let provider = CustomApiProvider::new(config);
    assert!(provider.validate_url().is_ok());
}

#[test]
fn test_validate_invalid_url() {
    let config = CustomApiSourceConfig {
        endpoint: "ftp://invalid.com".to_string(),
        method: "GET".to_string(),
        headers: vec![],
        version_field: "version".to_string(),
        notes_field: None,
        published_at_field: None,
    };

    let provider = CustomApiProvider::new(config);
    assert!(provider.validate_url().is_err());
}

#[test]
fn docker_hub_test_build_api_url() {
    let config = DockerHubSourceConfig {
        namespace: "library".to_string(),
        repository: "nginx".to_string(),
        include_prerelease: false,
        tag_regex: None,
    };

    let provider = DockerHubProvider::new(config);
    assert_eq!(
        provider.build_api_url(),
        "https://hub.docker.com/v2/repositories/library/nginx/tags"
    );
}

#[test]
fn test_filter_tags_with_regex() {
    let config = DockerHubSourceConfig {
        namespace: "library".to_string(),
        repository: "nginx".to_string(),
        include_prerelease: false,
        tag_regex: Some(r"^\d+\.\d+\.\d+$".to_string()),
    };

    let provider = DockerHubProvider::new(config);

    let tags = vec![
        DockerHubTag {
            name: "1.21.0".to_string(),
            last_updated: "2023-01-01T00:00:00Z".to_string(),
            digest: None,
        },
        DockerHubTag {
            name: "latest".to_string(),
            last_updated: "2023-01-02T00:00:00Z".to_string(),
            digest: None,
        },
        DockerHubTag {
            name: "1.22.0".to_string(),
            last_updated: "2023-01-03T00:00:00Z".to_string(),
            digest: None,
        },
    ];

    let latest = provider.filter_and_sort_tags(tags);
    assert!(latest.is_some());
    assert_eq!(latest.unwrap().name, "1.22.0");
}

#[test]
fn test_validate_invalid_path() {
    let config = LocalGitSourceConfig {
        repo_path: "/nonexistent/path".to_string(),
        branch: "main".to_string(),
        version_file: None,
    };

    let provider = GitCheckerProvider::new(config);
    assert!(provider.validate_repo_path().is_err());
}

#[test]
fn github_test_build_api_url() {
    let config = GithubReleaseSourceConfig {
        owner: "nginx".to_string(),
        repo: "nginx".to_string(),
        include_prerelease: false,
        token: None,
    };

    let provider = GithubProvider::new(config);
    assert_eq!(
        provider.build_api_url(),
        "https://api.github.com/repos/nginx/nginx/releases"
    );
}

#[test]
fn test_filter_releases() {
    let config = GithubReleaseSourceConfig {
        owner: "test".to_string(),
        repo: "test".to_string(),
        include_prerelease: false,
        token: None,
    };

    let provider = GithubProvider::new(config);

    let releases = vec![
        GithubRelease {
            tag_name: "v1.0.0".to_string(),
            name: Some("Release 1.0.0".to_string()),
            body: None,
            published_at: Some("2023-01-01T00:00:00Z".to_string()),
            prerelease: false,
            draft: false,
        },
        GithubRelease {
            tag_name: "v1.1.0-beta".to_string(),
            name: Some("Beta 1.1.0".to_string()),
            body: None,
            published_at: Some("2023-01-02T00:00:00Z".to_string()),
            prerelease: true,
            draft: false,
        },
        GithubRelease {
            tag_name: "v1.2.0".to_string(),
            name: Some("Draft".to_string()),
            body: None,
            published_at: None,
            prerelease: false,
            draft: true,
        },
    ];

    let latest = provider.filter_releases(releases);
    assert!(latest.is_some());
    assert_eq!(latest.unwrap().tag_name, "v1.0.0");
}

#[test]
fn test_lock_acquire_and_release() {
    let mut state = VersionRuntimeState::new();
    let image_key = "nginx:latest".to_string();
    let op_id = "op-123".to_string();

    // Should acquire lock successfully
    assert!(state.try_lock_update(image_key.clone(), op_id.clone()).is_ok());

    // Should fail to acquire lock again
    assert!(state.try_lock_update(image_key.clone(), "op-456".to_string()).is_err());

    // Release lock
    state.unlock_update(&image_key);

    // Should acquire lock successfully again
    assert!(state.try_lock_update(image_key.clone(), "op-789".to_string()).is_ok());
}

#[test]
fn test_cache_expiration() {
    let mut state = VersionRuntimeState::new();
    let image_key = "nginx:latest".to_string();

    let response = CheckImageVersionResponse {
        image_key: image_key.clone(),
        current_version: Some("1.0.0".to_string()),
        has_update: false,
        recommended: None,
        results: vec![],
        checked_at_ms: 0,
    };

    // Cache the response
    state.cache_check(image_key.clone(), response.clone());

    // Should get cached result with a 60-second lifetime
    assert!(state.get_cached_check(&image_key, 60_000).is_some());

    // Should not get cached result with a zero lifetime
    assert!(state.get_cached_check(&image_key, 0).is_none());
}
