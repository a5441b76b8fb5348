use vstd::prelude::*;
use vstd::string::StringExecFns;

use crate::text::{join_with_spaces, join_words, views};

verus! {

/// An external command for the caller to run: wait `delay_ms`, then start
/// `program` with `args` in `current_dir` (or the caller's own directory).
#[derive(Debug, Clone)]
pub struct CommandSpec {
    pub program: String,
    pub args: Vec<String>,
    pub current_dir: Option<String>,
    pub delay_ms: u64,
}

/// What running a command gave.
#[derive(Debug, Clone)]
pub enum CommandOutcome {
    /// The command could not be started at all.
    NotStarted { error: String },
    /// The command ran to completion.
    Finished { success: bool, stdout: String, stderr: String, elapsed_ms: u128 },
}

impl CommandOutcome {
    /// The command ran and exited successfully.
    pub open spec fn succeeded(&self) -> bool {
        match self {
            CommandOutcome::NotStarted { .. } => false,
            CommandOutcome::Finished { success, .. } => *success,
        }
    }

    pub open spec fn elapsed(&self) -> u128 {
        match self {
            CommandOutcome::NotStarted { .. } => 0,
            CommandOutcome::Finished { elapsed_ms, .. } => *elapsed_ms,
        }
    }

    /// Standard output, a line feed, then standard error; empty when nothing ran.
    pub open spec fn combined(&self) -> Seq<char> {
        match self {
            CommandOutcome::NotStarted { .. } => Seq::empty(),
            CommandOutcome::Finished { stdout, stderr, .. } => stdout@ + "\n"@ + stderr@,
        }
    }

    pub fn is_success(&self) -> (r: bool)
        ensures
            r == self.succeeded(),
    {
        match self {
            CommandOutcome::NotStarted { .. } => false,
            CommandOutcome::Finished { success, .. } => *success,
        }
    }

    pub fn elapsed_ms(&self) -> (r: u128)
        ensures
            r == self.elapsed(),
    {
        match self {
            CommandOutcome::NotStarted { .. } => 0,
            CommandOutcome::Finished { elapsed_ms, .. } => *elapsed_ms,
        }
    }

    /// Standard output and standard error joined by a line feed.
    pub fn combined_output(&self) -> (r: String)
        ensures
            r@ == self.combined(),
    {
        match self {
            CommandOutcome::NotStarted { .. } => String::new(),
            CommandOutcome::Finished { stdout, stderr, .. } => {
                proof { reveal_strlit("\n"); }
                let mut s = String::from_str(stdout.as_str());
                s.append("\n");
                s.append(stderr.as_str());
                s
            },
        }
    }
}

/// The program and its arguments as one line of text.
pub open spec fn command_text(program: Seq<char>, args: Seq<String>) -> Seq<char> {
    join_words(seq![program] + views(args))
}

impl CommandSpec {
    /// The command as it would be typed.
    pub fn display(&self) -> (r: String)
        ensures
            r@ == command_text(self.program@, self.args@),
    {
        let mut words: Vec<String> = Vec::new();
        words.push(self.program.clone());
        let mut i: usize = 0;
        while i < self.args.len()
            invariant
                i <= self.args@.len(),
                words@.len() == i + 1,
                words@[0]@ == self.program@,
                forall|k: int| 0 <= k < i ==> (#[trigger] words@[k + 1])@ == self.args@[k]@,
            decreases self.args.len() - i,
        {
            let a = self.args[i].clone();
            words.push(a);
            i = i + 1;
        }
        assert(views(words@) =~= seq![self.program@] + views(self.args@)) by {
            assert forall|k: int| 0 <= k < words@.len() implies views(words@)[k] == (seq![self.program@] + views(self.args@))[k] by {
                if k > 0 {
                    assert(words@[(k - 1) + 1]@ == self.args@[k - 1]@);
                }
            }
        }
        join_with_spaces(&words)
    }
}

} // verus!
