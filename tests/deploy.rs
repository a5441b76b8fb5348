use dev_env_probe::deploy_utils::{
    format_command_output, prefer_error_output, ProcessCapture,
    build_docker_args, build_docker_args_named, build_run_image_pull_args, is_safe_docker_image_ref,
    is_safe_git_ref, is_safe_identifier, normalize_remote_name, split_non_empty_lines,
};

#[test]
fn safe_identifier_validation_should_work() {
    assert!(is_safe_identifier("redis-dev_01"));
    assert!(is_safe_identifier("container.name-1"));
    assert!(!is_safe_identifier(""));
    assert!(!is_safe_identifier("../../etc/passwd"));
    assert!(!is_safe_identifier("redis dev"));
}

#[test]
fn build_docker_args_should_validate_target() {
    let run = build_docker_args("run", Some("sha256abc123")).expect("run args should build");
    let logs = build_docker_args("logs", Some("redis-dev")).expect("logs args should build");
    let rm = build_docker_args("rm", Some("redis-dev")).expect("rm args should build");
    let rmi = build_docker_args("rmi", Some("sha256abc123")).expect("rmi args should build");

    assert_eq!(run[0], "run");
    assert_eq!(run[1], "-d");
    assert_eq!(run[2], "--name");
    assert_eq!(logs[0], "logs");
    assert_eq!(rm[0], "rm");
    assert_eq!(rmi[0], "rmi");

    assert!(build_docker_args("logs", Some("redis dev")).is_err());
    assert!(build_docker_args("rmi", Some("nginx:latest")).is_err());
    assert!(build_docker_args("start", None).is_err());
}

#[test]
fn git_ref_validation_should_reject_invalid_values() {
    assert!(is_safe_git_ref("main"));
    assert!(is_safe_git_ref("feature/docker-flow"));
    assert!(!is_safe_git_ref(""));
    assert!(!is_safe_git_ref("main && rm"));
}

#[test]
fn image_ref_and_pull_args() {
    assert!(is_safe_docker_image_ref("ghcr.io/org/app@sha256:abc"));
    assert!(!is_safe_docker_image_ref(&"a".repeat(257)));
    assert!(is_safe_git_ref(&"a".repeat(128)));
    assert!(!is_safe_git_ref(&"a".repeat(129)));
    let pull = build_run_image_pull_args("looplj/axonhub:latest").unwrap();
    assert_eq!(pull, vec!["pull".to_string(), "looplj/axonhub:latest".to_string()]);
    assert!(build_run_image_pull_args("looplj/axonhub latest").is_err());
}

#[test]
fn docker_action_table() {
    assert_eq!(build_docker_args("version", None).unwrap(), vec!["--version".to_string()]);
    assert_eq!(build_docker_args("system_df", None).unwrap(), vec!["system".to_string(), "df".to_string()]);
    assert!(build_docker_args("prune", None).is_err());
    let run = build_docker_args_named("run", Some("nginx"), "dep-run-7").unwrap();
    assert_eq!(run, vec!["run", "-d", "--name", "dep-run-7", "nginx"]);
    let logs = build_docker_args_named("logs", Some("web"), "x").unwrap();
    assert_eq!(logs, vec!["logs", "--tail", "200", "web"]);
    assert!(build_docker_args("run", Some("x")).unwrap()[3].starts_with("dep-run-"));
}

#[test]
fn remote_names_and_lines() {
    assert_eq!(normalize_remote_name("  upstream "), "upstream");
    assert_eq!(normalize_remote_name("   "), "origin");
    assert_eq!(normalize_remote_name("\u{3000}up\u{a0}\t"), "up");
    assert_eq!(normalize_remote_name("\u{200b}x"), "\u{200b}x".trim());
    assert_eq!(split_non_empty_lines(" main \n\n  dev\r\n"), vec!["main".to_string(), "dev".to_string()]);
    assert!(split_non_empty_lines("").is_empty());
}

#[test]
fn command_transcripts() {
    let capture = ProcessCapture { stdout: " ok \n".to_string(), stderr: String::new(), exit_code: 0 };
    let args = vec!["compose".to_string(), "up".to_string()];
    assert_eq!(format_command_output("docker", &args, &capture), "$ docker compose up\nexit=0\n\nok");
    let failed = ProcessCapture { stdout: String::new(), stderr: " boom ".to_string(), exit_code: -1000 };
    assert_eq!(format_command_output("git", &vec![], &failed), "$ git \nexit=-1000\n\n[stderr]\nboom");
    assert_eq!(prefer_error_output(&failed), "boom");
    assert_eq!(prefer_error_output(&capture), "ok");
    let silent = ProcessCapture { stdout: " ".to_string(), stderr: "\n".to_string(), exit_code: 1 };
    assert_eq!(prefer_error_output(&silent), "无输出");
}
