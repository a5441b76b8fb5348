use vstd::prelude::*;
use vstd::string::StringExecFns;

use crate::command::{CommandOutcome, CommandSpec};
use crate::errors::VersionError;
use crate::text::{same_text, trim_text, trimmed, views};

verus! {

/// The pause between two looks at the container, in milliseconds.
pub const CHECK_INTERVAL_MS: u64 = 1000;

/// Watches a freshly started container until it runs or the wait runs out.
///
/// The caller runs `inspect_command`, hands the outcome to `observe`, and
/// repeats while the verdict is `Pending`; each repeated command asks it to
/// pause first.
#[derive(Debug, Clone)]
pub struct HealthChecker {
    pub container_name: String,
    pub max_wait_seconds: u64,
    pub check_interval_ms: u64,
    pub waited_ms: u64,
    pub polls: u64,
}

/// The judgement on one look at the container.
#[derive(Debug)]
pub enum HealthVerdict {
    Healthy,
    Pending,
    Failed(VersionError),
}

/// A health-check step failure.
pub open spec fn is_health_failure(e: VersionError) -> bool {
    match e {
        VersionError::StepFailed { step, .. } => step@ == "health_check"@,
        _ => false,
    }
}

/// `a + b`, or the largest value when that does not fit.
pub open spec fn capped_sum(a: u64, b: int) -> u64 {
    if a + b > u64::MAX { u64::MAX } else { (a + b) as u64 }
}

impl HealthChecker {
    /// The container was seen running.
    pub open spec fn saw_running(outcome: CommandOutcome) -> bool {
        outcome.succeeded() && trimmed(outcome->stdout@) == "running"@
    }

    /// The time counted after a look that did not see the container running.
    pub open spec fn waited_after(&self, outcome: CommandOutcome) -> u64 {
        capped_sum(self.waited_ms, outcome.elapsed() as int + self.check_interval_ms as int)
    }

    /// The wait is over once more than the allowed seconds have been counted.
    pub open spec fn out_of_time(&self, waited: u64) -> bool {
        waited as int > self.max_wait_seconds as int * 1000
    }

    pub fn new(container_name: String, max_wait_seconds: u64) -> (r: HealthChecker)
        ensures
            r.container_name == container_name,
            r.max_wait_seconds == max_wait_seconds,
            r.check_interval_ms == CHECK_INTERVAL_MS,
            r.waited_ms == 0,
            r.polls == 0,
    {
        HealthChecker {
            container_name,
            max_wait_seconds,
            check_interval_ms: CHECK_INTERVAL_MS,
            waited_ms: 0,
            polls: 0,
        }
    }

    /// `docker inspect --format {{.State.Status}} <container>`, after the
    /// pause between looks unless this is the first look.
    pub fn inspect_command(&self) -> (r: CommandSpec)
        ensures
            r.program@ == "docker"@,
            views(r.args@) == seq!["inspect"@, "--format"@, "{{.State.Status}}"@, self.container_name@],
            r.current_dir is None,
            r.delay_ms == if self.polls == 0 { 0 } else { self.check_interval_ms },
    {
        proof {
            reveal_strlit("docker");
            reveal_strlit("inspect");
            reveal_strlit("--format");
            reveal_strlit("{{.State.Status}}");
        }
        let args = vec![
            String::from_str("inspect"),
            String::from_str("--format"),
            String::from_str("{{.State.Status}}"),
            self.container_name.clone(),
        ];
        assert(views(args@) =~= seq!["inspect"@, "--format"@, "{{.State.Status}}"@, self.container_name@]);
        CommandSpec {
            program: String::from_str("docker"),
            args,
            current_dir: None,
            delay_ms: if self.polls == 0 { 0 } else { self.check_interval_ms },
        }
    }

    /// Judges one look: healthy on the first sight of a running container; a
    /// failure when the inspection could not run or found no container, or
    /// when the allowed wait has passed without the container running;
    /// otherwise look again.
    pub fn observe(&mut self, outcome: &CommandOutcome) -> (r: HealthVerdict)
        ensures
            final(self).container_name == old(self).container_name,
            final(self).max_wait_seconds == old(self).max_wait_seconds,
            final(self).check_interval_ms == old(self).check_interval_ms,
            final(self).polls == capped_sum(old(self).polls, 1),
            r is Healthy <==> HealthChecker::saw_running(*outcome),
            r is Healthy ==> final(self).waited_ms == old(self).waited_ms,
            !outcome.succeeded() ==> r is Failed,
            r is Failed ==> is_health_failure(r->Failed_0),
            outcome.succeeded() && !HealthChecker::saw_running(*outcome) ==> {
                &&& final(self).waited_ms == old(self).waited_after(*outcome)
                &&& (r is Failed <==> old(self).out_of_time(final(self).waited_ms))
                &&& (r is Failed ==> r->Failed_0 is StepFailed)
            },
    {
        proof { reveal_strlit("health_check"); }
        self.polls = if self.polls == u64::MAX { u64::MAX } else { self.polls + 1 };
        match outcome {
            CommandOutcome::NotStarted { error } => {
                let mut m = String::from_str("Failed to inspect container: ");
                m.append(error.as_str());
                HealthVerdict::Failed(VersionError::StepFailed { step: String::from_str("health_check"), message: m })
            },
            CommandOutcome::Finished { success, stdout, elapsed_ms, .. } => {
                if !*success {
                    let mut m = String::from_str("Container ");
                    m.append(self.container_name.as_str());
                    m.append(" not found");
                    return HealthVerdict::Failed(VersionError::StepFailed { step: String::from_str("health_check"), message: m });
                }
                let status = trim_text(stdout.as_str());
                proof { reveal_strlit("running"); }
                if same_text(status.as_str(), "running") {
                    return HealthVerdict::Healthy;
                }
                let spent: u128 = if *elapsed_ms > u64::MAX as u128 { u64::MAX as u128 } else { *elapsed_ms };
                let step = spent + self.check_interval_ms as u128;
                let total = self.waited_ms as u128 + step;
                self.waited_ms = if total > u64::MAX as u128 { u64::MAX } else { total as u64 };
                if self.waited_ms as u128 > self.max_wait_seconds as u128 * 1000 {
                    let mut m = String::from_str("Container ");
                    m.append(self.container_name.as_str());
                    m.append(" did not become healthy within the allowed wait");
                    HealthVerdict::Failed(VersionError::StepFailed { step: String::from_str("health_check"), message: m })
                } else {
                    HealthVerdict::Pending
                }
            },
        }
    }
}

/// Every look that does not find the container running counts at least one
/// pause interval against the wait (or saturates the count): once `looks + 1`
/// intervals exceed the allowed wait, such a look is judged out of time.
pub proof fn lemma_wait_advances(h: HealthChecker, o: CommandOutcome, looks: nat)
    requires
        h.check_interval_ms > 0,
        h.waited_ms as int >= looks * h.check_interval_ms,
    ensures
        h.waited_after(o) as int >= (looks + 1) * h.check_interval_ms || h.waited_after(o) == u64::MAX,
        (looks + 1) * h.check_interval_ms > h.max_wait_seconds as int * 1000
            ==> h.out_of_time(h.waited_after(o)) || h.waited_after(o) == u64::MAX,
{
    assert((looks + 1) * h.check_interval_ms == looks * h.check_interval_ms + h.check_interval_ms) by (nonlinear_arith);
}

/// A fresh checker that sees `created`, `created`, then `running` judges the
/// container healthy on the third look, as long as the first two looks (each
/// counted as its own duration plus one pause) fit in the allowed wait.
pub proof fn lemma_healthy_on_third_look(h: HealthChecker, o1: CommandOutcome, o2: CommandOutcome, o3: CommandOutcome)
    requires
        h.waited_ms == 0,
        o1.succeeded() && !HealthChecker::saw_running(o1),
        o2.succeeded() && !HealthChecker::saw_running(o2),
        HealthChecker::saw_running(o3),
        o1.elapsed() + o2.elapsed() + 2 * h.check_interval_ms <= h.max_wait_seconds * 1000,
    ensures
        !h.out_of_time(h.waited_after(o1)),
        ({
            let h1 = HealthChecker { waited_ms: h.waited_after(o1), ..h };
            !h1.out_of_time(h1.waited_after(o2))
        }),
{
}

/// A look that fails for want of time comes at most one look after the
/// allowed wait: the wait counted then exceeds the allowance by no more than
/// that look's duration and one pause.
pub proof fn lemma_failure_soon_after_wait(h: HealthChecker, o: CommandOutcome)
    requires
        !h.out_of_time(h.waited_ms),
    ensures
        h.waited_after(o) as int <= h.max_wait_seconds as int * 1000 + o.elapsed() as int + h.check_interval_ms as int,
{
}

} // verus!
