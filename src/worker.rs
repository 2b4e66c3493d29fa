//! The worker lifecycle: Created, then Running, then Completed with an exit
//! code or Faulted; a handle runs its script at most once.

use vstd::prelude::*;

verus! {

/// How the entry module is executed.
#[derive(Clone, Copy, Debug, PartialEq, Eq, Structural)]
pub enum ExecutionMode {
    /// A module run from a file or from standard input.
    Run,
    /// An inline code string.
    Eval,
}

/// Where a worker stands in its lifecycle.
#[derive(Clone, Copy, Debug, PartialEq, Eq, Structural)]
pub enum WorkerState {
    Created,
    Running,
    Completed(i32),
    Faulted,
}

/// Why a lifecycle step was refused.
#[derive(Clone, Copy, Debug, PartialEq, Eq, Structural)]
pub enum WorkerError {
    /// `run` on a handle that has already been started.
    AlreadyStarted,
    /// A result reported for a worker that is not running.
    NotRunning,
}

/// The lifecycle record of the one worker of an invocation.
pub struct WorkerHandle {
    mode: ExecutionMode,
    state: WorkerState,
}

impl WorkerHandle {
    pub closed spec fn mode_of(&self) -> ExecutionMode {
        self.mode
    }

    pub closed spec fn state_of(&self) -> WorkerState {
        self.state
    }

    /// Whether the worker has finished, normally or not.
    pub open spec fn is_terminal(&self) -> bool {
        self.state_of() is Completed || self.state_of() is Faulted
    }

    /// A freshly created worker.
    pub fn create(mode: ExecutionMode) -> (w: WorkerHandle)
        ensures
            w.mode_of() == mode,
            w.state_of() == WorkerState::Created,
    {
        WorkerHandle { mode, state: WorkerState::Created }
    }

    pub fn mode(&self) -> (m: ExecutionMode)
        ensures
            m == self.mode_of(),
    {
        self.mode
    }

    pub fn state(&self) -> (s: WorkerState)
        ensures
            s == self.state_of(),
    {
        self.state
    }

    /// Starts the script: allowed from Created only. A handle that is
    /// running, completed or faulted is refused and left as it was, so the
    /// same script never executes twice.
    pub fn run(&mut self) -> (r: Result<(), WorkerError>)
        ensures
            final(self).mode_of() == old(self).mode_of(),
            old(self).state_of() == WorkerState::Created ==> r is Ok && final(self).state_of()
                == WorkerState::Running,
            old(self).state_of() != WorkerState::Created ==> r == Err::<(), WorkerError>(
                WorkerError::AlreadyStarted,
            ) && final(self).state_of() == old(self).state_of(),
    {
        match self.state {
            WorkerState::Created => {
                self.state = WorkerState::Running;
                Ok(())
            },
            _ => Err(WorkerError::AlreadyStarted),
        }
    }

    /// Records how the running script ended: `Some` exit code, or `None` for
    /// a fault. Refused, with no change, unless the worker is running.
    pub fn finish(&mut self, exit_code: Option<i32>) -> (r: Result<(), WorkerError>)
        ensures
            final(self).mode_of() == old(self).mode_of(),
            old(self).state_of() == WorkerState::Running ==> r is Ok && final(self).state_of()
                == match exit_code {
                Some(c) => WorkerState::Completed(c),
                None => WorkerState::Faulted,
            },
            old(self).state_of() != WorkerState::Running ==> r == Err::<(), WorkerError>(
                WorkerError::NotRunning,
            ) && final(self).state_of() == old(self).state_of(),
    {
        match self.state {
            WorkerState::Running => {
                self.state = match exit_code {
                    Some(c) => WorkerState::Completed(c),
                    None => WorkerState::Faulted,
                };
                Ok(())
            },
            _ => Err(WorkerError::NotRunning),
        }
    }
}

/// The source stored for inline code: with `print`, the code wrapped so that
/// its value is printed; otherwise the code itself.
pub open spec fn eval_source_of(code: Seq<char>, print: bool) -> Seq<char> {
    if print {
        seq!['c', 'o', 'n', 's', 'o', 'l', 'e', '.', 'l', 'o', 'g', '('] + code + seq![')']
    } else {
        code
    }
}

/// Builds the source registered for an inline-code invocation.
pub fn eval_source(code: &str, print: bool) -> (r: String)
    ensures
        r@ == eval_source_of(code@, print),
{
    if print {
        proof {
            reveal_strlit("console.log(");
            reveal_strlit(")");
        }
        let mut s = String::new();
        s.append("console.log(");
        s.append(code);
        s.append(")");
        s
    } else {
        let mut s = String::new();
        s.append(code);
        s
    }
}

} // verus!
