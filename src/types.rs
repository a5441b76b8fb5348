use vstd::prelude::*;
use vstd::string::StringExecFns;

use crate::clock::current_timestamp_ms;
use crate::rollback::backup_name_of;

verus! {

/// The stages of a version check.
#[derive(Debug, Clone, Copy, PartialEq, Eq, Structural)]
pub enum VersionCheckStep {
    FetchRemote,
    ParseVersion,
    CompareVersion,
}

/// The stages of an update.
#[derive(Debug, Clone, Copy, PartialEq, Eq, Structural)]
pub enum UpdateStep {
    GitPull,
    DockerBuild,
    DockerStop,
    DockerRename,
    DockerRun,
    HealthCheck,
    Rollback,
}

/// The name each update stage goes by in logs.
pub open spec fn update_step_name(s: UpdateStep) -> Seq<char> {
    match s {
        UpdateStep::GitPull => "git_pull"@,
        UpdateStep::DockerBuild => "docker_build"@,
        UpdateStep::DockerStop => "docker_stop"@,
        UpdateStep::DockerRename => "docker_rename"@,
        UpdateStep::DockerRun => "docker_run"@,
        UpdateStep::HealthCheck => "health_check"@,
        UpdateStep::Rollback => "rollback"@,
    }
}

impl UpdateStep {
    pub fn as_str(&self) -> (r: &'static str)
        ensures
            r@ == update_step_name(*self),
    {
        match self {
            UpdateStep::GitPull => {
                proof { reveal_strlit("git_pull"); }
                "git_pull"
            },
            UpdateStep::DockerBuild => {
                proof { reveal_strlit("docker_build"); }
                "docker_build"
            },
            UpdateStep::DockerStop => {
                proof { reveal_strlit("docker_stop"); }
                "docker_stop"
            },
            UpdateStep::DockerRename => {
                proof { reveal_strlit("docker_rename"); }
                "docker_rename"
            },
            UpdateStep::DockerRun => {
                proof { reveal_strlit("docker_run"); }
                "docker_run"
            },
            UpdateStep::HealthCheck => {
                proof { reveal_strlit("health_check"); }
                "health_check"
            },
            UpdateStep::Rollback => {
                proof { reveal_strlit("rollback"); }
                "rollback"
            },
        }
    }
}

/// A record of a container moved aside for an update.
#[derive(Debug, Clone)]
pub struct ContainerBackup {
    pub original_name: String,
    pub backup_name: String,
    pub image_ref: String,
    pub created_at_ms: u64,
}

impl ContainerBackup {
    pub fn new(original_name: String, operation_id: &str, image_ref: String) -> (r: ContainerBackup)
        ensures
            r.original_name == original_name,
            r.backup_name@ == backup_name_of(original_name@, operation_id@),
            r.image_ref == image_ref,
    {
        proof { reveal_strlit("-backup-"); }
        let mut backup_name = String::from_str(original_name.as_str());
        backup_name.append("-backup-");
        backup_name.append(operation_id);
        ContainerBackup { original_name, backup_name, image_ref, created_at_ms: current_timestamp_ms() }
    }
}

} // verus!
