use vstd::prelude::*;
use vstd::string::StringExecFns;

use crate::checker::build_image_key;
use crate::command::{CommandOutcome, CommandSpec};
use crate::contracts::{
    RollbackResult, UpdateImageAndRestartResponse, UpdateStepLog, UpdateTimeoutConfig,
    UpdateWorkflowConfig,
};
use crate::errors::{VersionError, VersionResult};
use crate::health_check::{HealthChecker, HealthVerdict};
use crate::rollback::{restore_failure_text, start_failure_text, RollbackManager};
use crate::text::{decimal_text, same_text, views};

verus! {

/// Where an update stands.
#[derive(Debug, Clone, Copy, PartialEq, Eq, Structural)]
pub enum UpdatePhase {
    GitPull,
    DockerBuild,
    InspectTarget,
    BackupTarget,
    DockerRun,
    HealthCheck,
    CleanupBackup,
    RollbackRemove,
    RollbackRestore,
    RollbackStart,
    /// The pipeline has ended; the logs and the rollback result are final.
    Done,
    /// A step could not even be started before any container was touched.
    Aborted,
}

/// What became of the running container before its replacement started.
#[derive(Debug, Clone, Copy, PartialEq, Eq, Structural)]
pub enum BackupState {
    Unknown,
    Skipped,
    Taken,
}

/// The value following the first `--name` flag that has one, else empty.
pub open spec fn name_after_flag(args: Seq<Seq<char>>) -> Seq<char>
    decreases args.len(),
{
    if args.len() < 2 {
        Seq::empty()
    } else if args[0] == "--name"@ {
        args[1]
    } else {
        name_after_flag(args.drop_first())
    }
}

/// The container name given among run arguments as `--name <value>`; empty when there is none.
pub fn extract_container_name(run_args: &Vec<String>) -> (r: String)
    ensures
        r@ == name_after_flag(views(run_args@)),
{
    proof { reveal_strlit("--name"); }
    let n = run_args.len();
    let mut i: usize = 0;
    assert(views(run_args@).subrange(0, n as int) =~= views(run_args@));
    while i < n
        invariant
            n == run_args@.len(),
            i <= n,
            name_after_flag(views(run_args@)) == name_after_flag(views(run_args@).subrange(i as int, n as int)),
        decreases n - i,
    {
        let ghost rest = views(run_args@).subrange(i as int, n as int);
        assert(rest.drop_first() =~= views(run_args@).subrange(i + 1, n as int));
        if same_text(run_args[i].as_str(), "--name") && i + 1 < n {
            return run_args[i + 1].clone();
        }
        i = i + 1;
    }
    String::new()
}

/// The log of one step whose command ran or could not start.
fn step_log(step: &str, command: &CommandSpec, outcome: &CommandOutcome) -> (r: UpdateStepLog)
    ensures
        r.step@ == step@,
        r.ok == outcome.succeeded(),
        !r.skipped,
        r.error is None <==> r.ok,
        r.elapsed_ms == outcome.elapsed(),
{
    let text = command.display();
    match outcome {
        CommandOutcome::NotStarted { error } => {
            let mut m = String::from_str("Failed to start command: ");
            m.append(error.as_str());
            UpdateStepLog {
                step: String::from_str(step),
                command: Some(text),
                ok: false,
                skipped: false,
                output: String::new(),
                error: Some(m),
                elapsed_ms: 0,
            }
        },
        CommandOutcome::Finished { success, elapsed_ms, .. } => {
            let output = outcome.combined_output();
            let error = if *success { None } else { Some(outcome.combined_output()) };
            UpdateStepLog {
                step: String::from_str(step),
                command: Some(text),
                ok: *success,
                skipped: false,
                output,
                error,
                elapsed_ms: *elapsed_ms,
            }
        },
    }
}

/// Runs an in-place update as a sequence of commands: pull the source, build
/// the image, move the running container aside, start the replacement, watch
/// it become healthy, then drop the backup, or put the old container back.
///
/// The caller asks `next_command` for the command to run, runs it, and hands
/// the outcome to `execute`, until `next_command` returns `None`.
#[derive(Debug)]
pub struct UpdateOrchestrator {
    pub workflow: UpdateWorkflowConfig,
    pub timeouts: UpdateTimeoutConfig,
    pub operation_id: String,
    pub container_name: String,
    pub rollback_mgr: RollbackManager,
    pub health: HealthChecker,
    pub phase: UpdatePhase,
    pub backup: BackupState,
    pub logs: Vec<UpdateStepLog>,
    pub rollback: RollbackResult,
    pub failure: Option<VersionError>,
}

/// `git -C <path> pull --ff-only origin <branch>`, without the program.
pub open spec fn pull_args(w: UpdateWorkflowConfig) -> Seq<Seq<char>> {
    seq!["-C"@, w.git_pull_path@, "pull"@, "--ff-only"@, "origin"@, w.git_branch@]
}

/// `docker build -t <tag> -f <dockerfile> <context>`, without the program.
pub open spec fn build_args(w: UpdateWorkflowConfig) -> Seq<Seq<char>> {
    seq!["build"@, "-t"@, w.new_image_tag@, "-f"@, w.dockerfile@, w.build_context@]
}

/// `docker run <run arguments...> <tag>`, without the program.
pub open spec fn run_args_of(w: UpdateWorkflowConfig) -> Seq<Seq<char>> {
    seq!["run"@] + views(w.run_args@) + seq![w.new_image_tag@]
}

/// A phase before any rollback could have begun.
pub open spec fn before_rollback(p: UpdatePhase) -> bool {
    p == UpdatePhase::GitPull || p == UpdatePhase::DockerBuild || p == UpdatePhase::InspectTarget
        || p == UpdatePhase::BackupTarget || p == UpdatePhase::DockerRun || p == UpdatePhase::HealthCheck
        || p == UpdatePhase::CleanupBackup || p == UpdatePhase::Aborted
}

/// The rollback result once a rollback has begun.
pub open spec fn marked_attempted(r: RollbackResult) -> RollbackResult {
    RollbackResult { attempted: true, restored: r.restored, backup_container: r.backup_container, error: r.error }
}

/// A phase of the rollback sequence.
pub open spec fn rolling_back(p: UpdatePhase) -> bool {
    p == UpdatePhase::RollbackRemove || p == UpdatePhase::RollbackRestore || p == UpdatePhase::RollbackStart
}

impl UpdateOrchestrator {
    pub open spec fn wf(&self) -> bool {
        &&& self.health.container_name == self.container_name
        &&& self.rollback_mgr.container_name == self.container_name
        &&& (rolling_back(self.phase) ==> self.rollback.attempted && !self.rollback.restored)
        &&& (before_rollback(self.phase) ==> self.rollback.is_untouched())
        &&& (self.rollback.restored ==> self.phase == UpdatePhase::Done)
        &&& (self.phase == UpdatePhase::Aborted <==> self.failure is Some)
    }

    /// The command each phase hands out, as (program, arguments, pause before
    /// it); none once the pipeline has ended. Every command runs in the
    /// caller's own directory.
    pub open spec fn phase_command(&self) -> Option<(Seq<char>, Seq<Seq<char>>, u64)> {
        let m = self.rollback_mgr;
        match self.phase {
            UpdatePhase::GitPull => Some(("git"@, pull_args(self.workflow), 0)),
            UpdatePhase::DockerBuild => Some(("docker"@, build_args(self.workflow), 0)),
            UpdatePhase::InspectTarget => Some(("docker"@, seq!["inspect"@, m.container_name@], 0)),
            UpdatePhase::BackupTarget => Some(("docker"@, seq!["rename"@, m.container_name@, m.backup_container_name@], 0)),
            UpdatePhase::DockerRun => Some(("docker"@, run_args_of(self.workflow), 0)),
            UpdatePhase::HealthCheck => Some(("docker"@, seq!["inspect"@, "--format"@, "{{.State.Status}}"@,
                self.health.container_name@], if self.health.polls == 0 { 0 } else { self.health.check_interval_ms })),
            UpdatePhase::CleanupBackup => Some(("docker"@, seq!["rm"@, "-f"@, m.backup_container_name@], 0)),
            UpdatePhase::RollbackRemove => Some(("docker"@, seq!["rm"@, "-f"@, m.container_name@], 0)),
            UpdatePhase::RollbackRestore => Some(("docker"@, seq!["rename"@, m.backup_container_name@, m.container_name@], 0)),
            UpdatePhase::RollbackStart => Some(("docker"@, seq!["start"@, m.container_name@], 0)),
            UpdatePhase::Done => None,
            UpdatePhase::Aborted => None,
        }
    }

    pub open spec fn finished(&self) -> bool {
        self.phase == UpdatePhase::Done || self.phase == UpdatePhase::Aborted
    }

    /// The phase that follows the current one, given how its command went.
    pub open spec fn next_phase(&self, o: CommandOutcome) -> UpdatePhase {
        match self.phase {
            UpdatePhase::GitPull => if o is NotStarted {
                UpdatePhase::Aborted
            } else if o.succeeded() {
                UpdatePhase::DockerBuild
            } else {
                UpdatePhase::Done
            },
            UpdatePhase::DockerBuild => if o is NotStarted {
                UpdatePhase::Aborted
            } else if o.succeeded() {
                UpdatePhase::InspectTarget
            } else {
                UpdatePhase::Done
            },
            UpdatePhase::InspectTarget => if o is NotStarted {
                UpdatePhase::Done
            } else if o.succeeded() {
                UpdatePhase::BackupTarget
            } else {
                UpdatePhase::DockerRun
            },
            UpdatePhase::BackupTarget => if o is NotStarted {
                UpdatePhase::Aborted
            } else if o.succeeded() {
                UpdatePhase::DockerRun
            } else {
                UpdatePhase::Done
            },
            UpdatePhase::DockerRun => if o.succeeded() {
                UpdatePhase::HealthCheck
            } else {
                UpdatePhase::RollbackRemove
            },
            UpdatePhase::HealthCheck => if HealthChecker::saw_running(o) {
                UpdatePhase::CleanupBackup
            } else if !o.succeeded() || self.health.out_of_time(self.health.waited_after(o)) {
                UpdatePhase::RollbackRemove
            } else {
                UpdatePhase::HealthCheck
            },
            UpdatePhase::CleanupBackup => UpdatePhase::Done,
            UpdatePhase::RollbackRemove => UpdatePhase::RollbackRestore,
            UpdatePhase::RollbackRestore => if o.succeeded() {
                UpdatePhase::RollbackStart
            } else {
                UpdatePhase::Done
            },
            UpdatePhase::RollbackStart => UpdatePhase::Done,
            UpdatePhase::Done => UpdatePhase::Done,
            UpdatePhase::Aborted => UpdatePhase::Aborted,
        }
    }

    /// The log entry the current step adds, as (step, ok, skipped); none when it adds none.
    pub open spec fn step_entry(&self, o: CommandOutcome) -> Option<(Seq<char>, bool, bool)> {
        match self.phase {
            UpdatePhase::GitPull => if o is NotStarted { None } else { Some(("git_pull"@, o.succeeded(), false)) },
            UpdatePhase::DockerBuild => if o is NotStarted { None } else { Some(("docker_build"@, o.succeeded(), false)) },
            UpdatePhase::InspectTarget => if o is NotStarted {
                Some(("backup_container"@, false, false))
            } else if o.succeeded() {
                None
            } else {
                Some(("backup_container"@, true, true))
            },
            UpdatePhase::BackupTarget => if o is NotStarted { None } else { Some(("backup_container"@, o.succeeded(), false)) },
            UpdatePhase::DockerRun => Some(("docker_run"@, o.succeeded(), false)),
            UpdatePhase::HealthCheck => if HealthChecker::saw_running(o) {
                Some(("health_check"@, true, false))
            } else if self.next_phase(o) == UpdatePhase::RollbackRemove {
                Some(("health_check"@, false, false))
            } else {
                None
            },
            _ => None,
        }
    }

    pub fn new(workflow: UpdateWorkflowConfig, timeouts: UpdateTimeoutConfig, operation_id: String) -> (r: UpdateOrchestrator)
        ensures
            r.wf(),
            r.phase == UpdatePhase::GitPull,
            r.backup == BackupState::Unknown,
            r.logs@.len() == 0,
            r.rollback.is_untouched(),
            r.container_name@ == name_after_flag(views(workflow.run_args@)),
            r.health.max_wait_seconds == timeouts.health_check_ms / 1000,
    {
        let container_name = extract_container_name(&workflow.run_args);
        let rollback_mgr = RollbackManager::new(container_name.clone(), operation_id.as_str());
        let health = HealthChecker::new(container_name.clone(), timeouts.health_check_ms / 1000);
        UpdateOrchestrator {
            workflow,
            timeouts,
            operation_id,
            container_name,
            rollback_mgr,
            health,
            phase: UpdatePhase::GitPull,
            backup: BackupState::Unknown,
            logs: Vec::new(),
            rollback: RollbackResult::default(),
            failure: None,
        }
    }

    fn pull_command(&self) -> (r: CommandSpec)
        ensures
            r.program@ == "git"@,
            views(r.args@) == pull_args(self.workflow),
            r.current_dir is None && r.delay_ms == 0,
    {
        proof {
            reveal_strlit("git");
            reveal_strlit("-C");
            reveal_strlit("pull");
            reveal_strlit("--ff-only");
            reveal_strlit("origin");
        }
        let args = vec![
            String::from_str("-C"),
            self.workflow.git_pull_path.clone(),
            String::from_str("pull"),
            String::from_str("--ff-only"),
            String::from_str("origin"),
            self.workflow.git_branch.clone(),
        ];
        assert(views(args@) =~= pull_args(self.workflow));
        CommandSpec { program: String::from_str("git"), args, current_dir: None, delay_ms: 0 }
    }

    fn build_command(&self) -> (r: CommandSpec)
        ensures
            r.program@ == "docker"@,
            views(r.args@) == build_args(self.workflow),
            r.current_dir is None && r.delay_ms == 0,
    {
        proof {
            reveal_strlit("docker");
            reveal_strlit("build");
            reveal_strlit("-t");
            reveal_strlit("-f");
        }
        let args = vec![
            String::from_str("build"),
            String::from_str("-t"),
            self.workflow.new_image_tag.clone(),
            String::from_str("-f"),
            self.workflow.dockerfile.clone(),
            self.workflow.build_context.clone(),
        ];
        assert(views(args@) =~= build_args(self.workflow));
        CommandSpec { program: String::from_str("docker"), args, current_dir: None, delay_ms: 0 }
    }

    fn run_command(&self) -> (r: CommandSpec)
        ensures
            r.program@ == "docker"@,
            views(r.args@) == run_args_of(self.workflow),
            r.current_dir is None && r.delay_ms == 0,
    {
        proof {
            reveal_strlit("docker");
            reveal_strlit("run");
        }
        let mut args: Vec<String> = Vec::new();
        args.push(String::from_str("run"));
        let mut i: usize = 0;
        while i < self.workflow.run_args.len()
            invariant
                i <= self.workflow.run_args@.len(),
                args@.len() == i + 1,
                args@[0]@ == "run"@,
                forall|k: int| 0 <= k < i ==> (#[trigger] args@[k + 1])@ == self.workflow.run_args@[k]@,
            decreases self.workflow.run_args.len() - i,
        {
            let a = self.workflow.run_args[i].clone();
            args.push(a);
            i = i + 1;
        }
        args.push(self.workflow.new_image_tag.clone());
        assert(views(args@) =~= run_args_of(self.workflow)) by {
            let n = self.workflow.run_args@.len();
            assert forall|k: int| 0 <= k < args@.len() implies views(args@)[k] == run_args_of(self.workflow)[k] by {
                if 0 < k && k <= n {
                    assert(args@[(k - 1) + 1]@ == self.workflow.run_args@[k - 1]@);
                }
            }
        }
        CommandSpec { program: String::from_str("docker"), args, current_dir: None, delay_ms: 0 }
    }

    /// The command the current phase runs; none once the pipeline has ended.
    /// A start command is only ever handed out while restoring a backup.
    pub fn next_command(&self) -> (r: Option<CommandSpec>)
        ensures
            r is None <==> self.finished(),
            match self.phase_command() {
                None => r is None,
                Some(c) => {
                    &&& r is Some
                    &&& r->0.program@ == c.0
                    &&& views(r->0.args@) == c.1
                    &&& r->0.current_dir is None
                    &&& r->0.delay_ms == c.2
                },
            },
            r is Some && r->0.args@.len() > 0 && r->0.args@[0]@ == "start"@
                ==> self.phase == UpdatePhase::RollbackStart,
    {
        proof {
            reveal_strlit("start");
            reveal_strlit("-C");
            reveal_strlit("build");
            reveal_strlit("run");
            reveal_strlit("inspect");
            reveal_strlit("rename");
            reveal_strlit("rm");
            assert("start"@[0] == 's' && "start"@[1] == 't');
            assert("-C"@[0] == '-' && "build"@[0] == 'b' && "run"@[0] == 'r' && "inspect"@[0] == 'i');
            assert("rename"@[0] == 'r' && "rm"@[0] == 'r');
        }
        let r = match self.phase {
            UpdatePhase::GitPull => Some(self.pull_command()),
            UpdatePhase::DockerBuild => Some(self.build_command()),
            UpdatePhase::InspectTarget => Some(self.rollback_mgr.inspect_command()),
            UpdatePhase::BackupTarget => Some(self.rollback_mgr.backup_command()),
            UpdatePhase::DockerRun => Some(self.run_command()),
            UpdatePhase::HealthCheck => Some(self.health.inspect_command()),
            UpdatePhase::CleanupBackup => Some(self.rollback_mgr.cleanup_command()),
            UpdatePhase::RollbackRemove => Some(self.rollback_mgr.remove_failed_command()),
            UpdatePhase::RollbackRestore => Some(self.rollback_mgr.restore_command()),
            UpdatePhase::RollbackStart => Some(self.rollback_mgr.start_command()),
            UpdatePhase::Done => None,
            UpdatePhase::Aborted => None,
        };
        proof {
            if r is Some {
                let c = r->0;
                assert(c.args@.len() > 0 ==> views(c.args@)[0] == c.args@[0]@);
            }
        }
        r
    }

    pub fn is_finished(&self) -> (r: bool)
        ensures
            r == self.finished(),
    {
        self.phase == UpdatePhase::Done || self.phase == UpdatePhase::Aborted
    }

    fn enter_rollback(&mut self)
        requires
            old(self).wf(),
            !old(self).rollback.restored,
            !old(self).finished(),
        ensures
            final(self).phase == UpdatePhase::RollbackRemove,
            final(self).rollback == marked_attempted(old(self).rollback),
            final(self).logs == old(self).logs,
            final(self).workflow == old(self).workflow,
            final(self).backup == old(self).backup,
            final(self).failure == old(self).failure,
            final(self).health == old(self).health,
            final(self).container_name == old(self).container_name,
            final(self).rollback_mgr == old(self).rollback_mgr,
    {
        self.rollback.attempted = true;
        self.phase = UpdatePhase::RollbackRemove;
    }

    /// Takes the outcome of the command that `next_command` handed out and
    /// moves the pipeline on by one step, logging the step when it is one
    /// the audit trail records. Logged entries are never changed or removed.
    pub fn execute(&mut self, outcome: CommandOutcome)
        requires
            old(self).wf(),
        ensures
            final(self).wf(),
            final(self).phase == old(self).next_phase(outcome),
            match old(self).step_entry(outcome) {
                None => final(self).logs@ == old(self).logs@,
                Some(e) => {
                    &&& final(self).logs@.len() == old(self).logs@.len() + 1
                    &&& final(self).logs@.subrange(0, old(self).logs@.len() as int) == old(self).logs@
                    &&& final(self).logs@.last().step@ == e.0
                    &&& final(self).logs@.last().ok == e.1
                    &&& final(self).logs@.last().skipped == e.2
                    &&& (final(self).logs@.last().error is None <==> e.1)
                },
            },
            old(self).rollback.attempted ==> final(self).rollback.attempted,
            old(self).phase == UpdatePhase::DockerRun && !outcome.succeeded() ==> final(self).rollback.attempted,
            final(self).rollback.restored == (old(self).rollback.restored
                || (old(self).phase == UpdatePhase::RollbackStart && outcome.succeeded())),
            !(old(self).phase == UpdatePhase::RollbackRestore && !outcome.succeeded())
                && old(self).phase != UpdatePhase::RollbackStart ==> final(self).rollback == if before_rollback(old(self).phase)
                && old(self).next_phase(outcome) == UpdatePhase::RollbackRemove {
                marked_attempted(old(self).rollback)
            } else {
                old(self).rollback
            },
            old(self).phase == UpdatePhase::RollbackRestore && !outcome.succeeded() ==> {
                &&& final(self).rollback.attempted && !final(self).rollback.restored
                &&& final(self).rollback.backup_container == Some(old(self).rollback_mgr.backup_container_name)
                &&& final(self).rollback.error is Some
                &&& final(self).rollback.error->0@ == restore_failure_text(outcome)
            },
            old(self).phase == UpdatePhase::RollbackStart ==> {
                &&& final(self).rollback.attempted
                &&& final(self).rollback.restored == outcome.succeeded()
                &&& final(self).rollback.backup_container == Some(old(self).rollback_mgr.backup_container_name)
                &&& (final(self).rollback.error is None <==> outcome.succeeded())
                &&& (final(self).rollback.error is Some ==> final(self).rollback.error->0@ == start_failure_text(outcome))
            },
            final(self).rollback_mgr == old(self).rollback_mgr,
            final(self).workflow == old(self).workflow,
            final(self).backup == if old(self).phase == UpdatePhase::InspectTarget && outcome is Finished && !outcome.succeeded() {
                BackupState::Skipped
            } else if old(self).phase == UpdatePhase::BackupTarget && outcome.succeeded() {
                BackupState::Taken
            } else {
                old(self).backup
            },
            final(self).phase == UpdatePhase::Aborted && old(self).phase != UpdatePhase::Aborted
                ==> final(self).failure->0 is StepFailed,
    {
        proof {
            reveal_strlit("git_pull");
            reveal_strlit("docker_build");
            reveal_strlit("backup_container");
            reveal_strlit("docker_run");
            reveal_strlit("health_check");
        }
        match self.phase {
            UpdatePhase::GitPull => {
                if let CommandOutcome::NotStarted { error } = &outcome {
                    let mut m = String::from_str("Failed to execute git pull: ");
                    m.append(error.as_str());
                    self.failure = Some(VersionError::StepFailed { step: String::from_str("git_pull"), message: m });
                    self.phase = UpdatePhase::Aborted;
                    return;
                }
                let command = self.pull_command();
                let log = step_log("git_pull", &command, &outcome);
                self.logs.push(log);
                self.phase = if outcome.is_success() { UpdatePhase::DockerBuild } else { UpdatePhase::Done };
            },
            UpdatePhase::DockerBuild => {
                if let CommandOutcome::NotStarted { error } = &outcome {
                    let mut m = String::from_str("Failed to execute docker build: ");
                    m.append(error.as_str());
                    self.failure = Some(VersionError::StepFailed { step: String::from_str("docker_build"), message: m });
                    self.phase = UpdatePhase::Aborted;
                    return;
                }
                let command = self.build_command();
                let log = step_log("docker_build", &command, &outcome);
                self.logs.push(log);
                self.phase = if outcome.is_success() { UpdatePhase::InspectTarget } else { UpdatePhase::Done };
            },
            UpdatePhase::InspectTarget => {
                let command = self.rollback_mgr.inspect_command();
                match &outcome {
                    CommandOutcome::NotStarted { error } => {
                        let mut m = String::from_str("Failed to check container: ");
                        m.append(error.as_str());
                        self.logs.push(UpdateStepLog {
                            step: String::from_str("backup_container"),
                            command: Some(command.display()),
                            ok: false,
                            skipped: false,
                            output: String::new(),
                            error: Some(m),
                            elapsed_ms: 0,
                        });
                        self.phase = UpdatePhase::Done;
                    },
                    CommandOutcome::Finished { success, elapsed_ms, .. } => {
                        if *success {
                            self.phase = UpdatePhase::BackupTarget;
                        } else {
                            self.logs.push(UpdateStepLog {
                                step: String::from_str("backup_container"),
                                command: Some(command.display()),
                                ok: true,
                                skipped: true,
                                output: String::from_str("Container does not exist, skipping backup"),
                                error: None,
                                elapsed_ms: *elapsed_ms,
                            });
                            self.backup = BackupState::Skipped;
                            self.phase = UpdatePhase::DockerRun;
                        }
                    },
                }
            },
            UpdatePhase::BackupTarget => {
                if let CommandOutcome::NotStarted { error } = &outcome {
                    let mut m = String::from_str("Failed to backup container: ");
                    m.append(error.as_str());
                    self.failure = Some(VersionError::StepFailed { step: String::from_str("backup_container"), message: m });
                    self.phase = UpdatePhase::Aborted;
                    return;
                }
                let command = self.rollback_mgr.backup_command();
                let log = step_log("backup_container", &command, &outcome);
                self.logs.push(log);
                if outcome.is_success() {
                    self.backup = BackupState::Taken;
                    self.phase = UpdatePhase::DockerRun;
                } else {
                    self.phase = UpdatePhase::Done;
                }
            },
            UpdatePhase::DockerRun => {
                let command = self.run_command();
                let log = step_log("docker_run", &command, &outcome);
                self.logs.push(log);
                if outcome.is_success() {
                    self.phase = UpdatePhase::HealthCheck;
                } else {
                    self.enter_rollback();
                }
            },
            UpdatePhase::HealthCheck => {
                let command = self.health.inspect_command();
                let verdict = self.health.observe(&outcome);
                match verdict {
                    HealthVerdict::Healthy => {
                        self.logs.push(UpdateStepLog {
                            step: String::from_str("health_check"),
                            command: Some(command.display()),
                            ok: true,
                            skipped: false,
                            output: String::from_str("Container is healthy"),
                            error: None,
                            elapsed_ms: 0,
                        });
                        self.phase = UpdatePhase::CleanupBackup;
                    },
                    HealthVerdict::Pending => {},
                    HealthVerdict::Failed(_) => {
                        let seconds = self.timeouts.health_check_ms / 1000;
                        let mut m = String::from_str("Health check failed after ");
                        let n = decimal_text(seconds);
                        m.append(n.as_str());
                        m.append(" seconds");
                        self.logs.push(UpdateStepLog {
                            step: String::from_str("health_check"),
                            command: Some(command.display()),
                            ok: false,
                            skipped: false,
                            output: String::new(),
                            error: Some(m),
                            elapsed_ms: self.timeouts.health_check_ms as u128,
                        });
                        self.enter_rollback();
                    },
                }
            },
            UpdatePhase::CleanupBackup => {
                self.phase = UpdatePhase::Done;
            },
            UpdatePhase::RollbackRemove => {
                self.phase = UpdatePhase::RollbackRestore;
            },
            UpdatePhase::RollbackRestore => {
                if outcome.is_success() {
                    self.phase = UpdatePhase::RollbackStart;
                } else {
                    self.rollback = self.rollback_mgr.restore_failed(&outcome);
                    self.phase = UpdatePhase::Done;
                }
            },
            UpdatePhase::RollbackStart => {
                self.rollback = self.rollback_mgr.start_result(&outcome);
                self.phase = UpdatePhase::Done;
            },
            UpdatePhase::Done => {},
            UpdatePhase::Aborted => {},
        }
    }

    /// What the pipeline produced: the audit trail and the rollback result,
    /// or the failure that stopped it before any container was touched.
    pub fn finish(self) -> (r: VersionResult<(Vec<UpdateStepLog>, RollbackResult)>)
        ensures
            self.failure is Some ==> r == Err::<(Vec<UpdateStepLog>, RollbackResult), VersionError>(self.failure->0),
            self.failure is None ==> r is Ok && r->Ok_0.0 == self.logs && r->Ok_0.1 == self.rollback,
    {
        match self.failure {
            Some(e) => Err(e),
            None => Ok((self.logs, self.rollback)),
        }
    }
}

/// Every step of the trail went through or was skipped.
pub open spec fn all_steps_ok(logs: Seq<UpdateStepLog>) -> bool {
    forall|i: int| 0 <= i < logs.len() ==> (#[trigger] logs[i]).ok || logs[i].skipped
}

/// Whether every step of the trail went through or was skipped.
pub fn logs_all_ok(logs: &Vec<UpdateStepLog>) -> (r: bool)
    ensures
        r == all_steps_ok(logs@),
{
    let mut i: usize = 0;
    while i < logs.len()
        invariant
            i <= logs@.len(),
            forall|j: int| 0 <= j < i ==> (#[trigger] logs@[j]).ok || logs@[j].skipped,
        decreases logs.len() - i,
    {
        if !(logs[i].ok || logs[i].skipped) {
            return false;
        }
        i = i + 1;
    }
    true
}

/// The answer to an update request, from what the pipeline produced: it
/// succeeded exactly when every logged step went through or was skipped, and
/// only then names the new image.
pub fn build_update_response(operation_id: String, repository: &str, tag: &str, new_image_tag: String,
    logs: Vec<UpdateStepLog>, rollback: RollbackResult) -> (r: UpdateImageAndRestartResponse)
    ensures
        r.operation_id == operation_id,
        r.image_key@ == crate::checker::image_key_of(repository@, tag@),
        r.success == all_steps_ok(logs@),
        r.final_image_ref == if all_steps_ok(logs@) { Some(new_image_tag) } else { None },
        r.step_logs == logs,
        r.rollback == rollback,
{
    let success = logs_all_ok(&logs);
    UpdateImageAndRestartResponse {
        operation_id,
        image_key: build_image_key(repository, tag),
        success,
        final_image_ref: if success { Some(new_image_tag) } else { None },
        step_logs: logs,
        rollback,
    }
}

/// A backup that cannot be renamed back ends the rollback: nothing is
/// restored and no start command follows. This is how a rollback after a
/// skipped backup ends, since there is no backup container to rename.
pub proof fn lemma_failed_restore_never_starts(s: UpdateOrchestrator, o: CommandOutcome)
    requires
        s.wf(),
        s.phase == UpdatePhase::RollbackRestore,
        !o.succeeded(),
    ensures
        s.next_phase(o) == UpdatePhase::Done,
        s.next_phase(o) != UpdatePhase::RollbackStart,
        !s.rollback.restored,
{
}

/// A replacement that fails to start always sends the pipeline into rollback.
pub proof fn lemma_failed_run_rolls_back(s: UpdateOrchestrator, o: CommandOutcome)
    requires
        s.wf(),
        s.phase == UpdatePhase::DockerRun,
        !o.succeeded(),
    ensures
        s.next_phase(o) == UpdatePhase::RollbackRemove,
        rolling_back(s.next_phase(o)),
{
}

} // verus!
