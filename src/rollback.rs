use vstd::prelude::*;
use vstd::string::StringExecFns;

use crate::command::{CommandOutcome, CommandSpec};
use crate::contracts::RollbackResult;
use crate::text::views;

verus! {

/// The name a container is moved to while its replacement is tried.
pub open spec fn backup_name_of(container: Seq<char>, operation_id: Seq<char>) -> Seq<char> {
    container + "-backup-"@ + operation_id
}

/// The error reported when the backup could not be renamed back.
pub open spec fn restore_failure_text(o: CommandOutcome) -> Seq<char> {
    match o {
        CommandOutcome::NotStarted { error } => "Failed to execute docker rename: "@ + error@,
        CommandOutcome::Finished { .. } => "Failed to restore backup container: "@ + o.combined(),
    }
}

/// The error reported when the restored container could not be started.
pub open spec fn start_failure_text(o: CommandOutcome) -> Seq<char> {
    match o {
        CommandOutcome::NotStarted { error } => "Failed to execute docker start: "@ + error@,
        CommandOutcome::Finished { .. } => "Failed to start restored container: "@ + o.combined(),
    }
}

/// Keeps the running container out of the way during an update, and puts it
/// back if the replacement fails.
#[derive(Debug, Clone)]
pub struct RollbackManager {
    pub container_name: String,
    pub backup_container_name: String,
}

fn docker(args: Vec<String>) -> (r: CommandSpec)
    ensures
        r.program@ == "docker"@,
        r.args == args,
        r.current_dir is None,
        r.delay_ms == 0,
{
    proof { reveal_strlit("docker"); }
    CommandSpec { program: String::from_str("docker"), args, current_dir: None, delay_ms: 0 }
}

impl RollbackManager {
    pub fn new(container_name: String, operation_id: &str) -> (r: RollbackManager)
        ensures
            r.container_name == container_name,
            r.backup_container_name@ == backup_name_of(container_name@, operation_id@),
    {
        proof { reveal_strlit("-backup-"); }
        let mut backup = String::from_str(container_name.as_str());
        backup.append("-backup-");
        backup.append(operation_id);
        RollbackManager { container_name, backup_container_name: backup }
    }

    /// `docker inspect <container>`: whether there is a container to protect.
    pub fn inspect_command(&self) -> (r: CommandSpec)
        ensures
            r.program@ == "docker"@,
            views(r.args@) == seq!["inspect"@, self.container_name@],
            r.current_dir is None && r.delay_ms == 0,
    {
        proof { reveal_strlit("inspect"); }
        let r = docker(vec![String::from_str("inspect"), self.container_name.clone()]);
        assert(views(r.args@) =~= seq!["inspect"@, self.container_name@]);
        r
    }

    /// `docker rename <container> <backup>`: the backup itself.
    pub fn backup_command(&self) -> (r: CommandSpec)
        ensures
            r.program@ == "docker"@,
            views(r.args@) == seq!["rename"@, self.container_name@, self.backup_container_name@],
            r.current_dir is None && r.delay_ms == 0,
    {
        proof { reveal_strlit("rename"); }
        let r = docker(vec![String::from_str("rename"), self.container_name.clone(), self.backup_container_name.clone()]);
        assert(views(r.args@) =~= seq!["rename"@, self.container_name@, self.backup_container_name@]);
        r
    }

    /// `docker rm -f <container>`: removes the failed replacement.
    pub fn remove_failed_command(&self) -> (r: CommandSpec)
        ensures
            r.program@ == "docker"@,
            views(r.args@) == seq!["rm"@, "-f"@, self.container_name@],
            r.current_dir is None && r.delay_ms == 0,
    {
        proof {
            reveal_strlit("rm");
            reveal_strlit("-f");
        }
        let r = docker(vec![String::from_str("rm"), String::from_str("-f"), self.container_name.clone()]);
        assert(views(r.args@) =~= seq!["rm"@, "-f"@, self.container_name@]);
        r
    }

    /// `docker rename <backup> <container>`: gives the backup its name back.
    pub fn restore_command(&self) -> (r: CommandSpec)
        ensures
            r.program@ == "docker"@,
            views(r.args@) == seq!["rename"@, self.backup_container_name@, self.container_name@],
            r.current_dir is None && r.delay_ms == 0,
    {
        proof { reveal_strlit("rename"); }
        let r = docker(vec![String::from_str("rename"), self.backup_container_name.clone(), self.container_name.clone()]);
        assert(views(r.args@) =~= seq!["rename"@, self.backup_container_name@, self.container_name@]);
        r
    }

    /// `docker start <container>`: starts the restored container.
    pub fn start_command(&self) -> (r: CommandSpec)
        ensures
            r.program@ == "docker"@,
            views(r.args@) == seq!["start"@, self.container_name@],
            r.current_dir is None && r.delay_ms == 0,
    {
        proof { reveal_strlit("start"); }
        let r = docker(vec![String::from_str("start"), self.container_name.clone()]);
        assert(views(r.args@) =~= seq!["start"@, self.container_name@]);
        r
    }

    /// `docker rm -f <backup>`: drops the backup once the update succeeded.
    pub fn cleanup_command(&self) -> (r: CommandSpec)
        ensures
            r.program@ == "docker"@,
            views(r.args@) == seq!["rm"@, "-f"@, self.backup_container_name@],
            r.current_dir is None && r.delay_ms == 0,
    {
        proof {
            reveal_strlit("rm");
            reveal_strlit("-f");
        }
        let r = docker(vec![String::from_str("rm"), String::from_str("-f"), self.backup_container_name.clone()]);
        assert(views(r.args@) =~= seq!["rm"@, "-f"@, self.backup_container_name@]);
        r
    }

    /// The result when giving the backup its name back did not work.
    pub fn restore_failed(&self, outcome: &CommandOutcome) -> (r: RollbackResult)
        ensures
            r.attempted,
            !r.restored,
            r.backup_container == Some(self.backup_container_name),
            r.error is Some && r.error->0@ == restore_failure_text(*outcome),
    {
        proof {
            reveal_strlit("Failed to execute docker rename: ");
            reveal_strlit("Failed to restore backup container: ");
        }
        let error = match outcome {
            CommandOutcome::NotStarted { error } => {
                let mut m = String::from_str("Failed to execute docker rename: ");
                m.append(error.as_str());
                m
            },
            CommandOutcome::Finished { .. } => {
                let mut m = String::from_str("Failed to restore backup container: ");
                let out = outcome.combined_output();
                m.append(out.as_str());
                m
            },
        };
        RollbackResult {
            attempted: true,
            restored: false,
            backup_container: Some(self.backup_container_name.clone()),
            error: Some(error),
        }
    }

    /// The result once the restored container was asked to start.
    pub fn start_result(&self, outcome: &CommandOutcome) -> (r: RollbackResult)
        ensures
            r.attempted,
            r.restored == outcome.succeeded(),
            r.backup_container == Some(self.backup_container_name),
            r.error is None <==> outcome.succeeded(),
            r.error is Some ==> r.error->0@ == start_failure_text(*outcome),
    {
        proof {
            reveal_strlit("Failed to execute docker start: ");
            reveal_strlit("Failed to start restored container: ");
        }
        let error = match outcome {
            CommandOutcome::NotStarted { error } => {
                let mut m = String::from_str("Failed to execute docker start: ");
                m.append(error.as_str());
                Some(m)
            },
            CommandOutcome::Finished { success, .. } => {
                if *success {
                    None
                } else {
                    let mut m = String::from_str("Failed to start restored container: ");
                    let out = outcome.combined_output();
                    m.append(out.as_str());
                    Some(m)
                }
            },
        };
        RollbackResult {
            attempted: true,
            restored: error.is_none(),
            backup_container: Some(self.backup_container_name.clone()),
            error,
        }
    }
}

} // verus!
