//! A sandbox: a command run by an init process, below an intermediate process
//! that owns the user namespace, below a monitor in the caller's process.
use crate::config::Config;
use crate::process::{argv_valid, command_argv};
use crate::status::{
    outcome_exit_code, reported_status, ExitStatus, WaitOutcome, EXIT_INTERNAL_FAILURE,
};
use vstd::prelude::*;

verus! {

/// A sandbox for one command.
pub struct Sandbox {
    config: Config,
}

impl View for Sandbox {
    type V = Config;

    closed spec fn view(&self) -> Config {
        self.config
    }
}

impl Sandbox {
    /// The sandbox for a configuration.
    pub fn new(config: Config) -> (sandbox: Sandbox)
        ensures
            sandbox@ == config,
    {
        Sandbox { config }
    }

    /// The configuration.
    pub fn config(&self) -> (config: &Config)
        ensures
            *config == self@,
    {
        &self.config
    }

    /// The argument vector with which the init process executes the command,
    /// or `None` when an argument holds a NUL byte.
    pub fn argv(&self) -> (argv: Option<Vec<Vec<u8>>>)
        ensures
            argv is Some <==> argv_valid(self@.program@, self@.args@),
            argv matches Some(argv) ==> {
                &&& argv@.len() == self@.args@.len() + 1
                &&& argv@[0]@ == self@.program@
                &&& forall|i: int|
                    0 <= i < self@.args@.len() ==> #[trigger] argv@[i + 1]@ == self@.args@[i]@
            },
    {
        command_argv(&self.config.program, &self.config.args)
    }

    /// The exit code with which the intermediate process ends after waiting for
    /// the init process: its exit code, 128 plus its signal, or the internal
    /// failure code.
    pub fn waitstatus_to_exitcode(outcome: WaitOutcome) -> (code: i32)
        ensures
            code == outcome_exit_code(outcome),
    {
        match outcome {
            WaitOutcome::Exited(code) => code as i32,
            WaitOutcome::Signaled(signal, _) => 128 + signal as i32,
            WaitOutcome::Other => EXIT_INTERNAL_FAILURE,
        }
    }

    /// The status with which the sandbox reports the intermediate process.
    pub fn waitstatus_to_exitstatus(outcome: WaitOutcome) -> (status: ExitStatus)
        ensures
            status@ == reported_status(outcome),
    {
        match outcome {
            WaitOutcome::Exited(code) => ExitStatus::from_raw(((code as i32) & 0xff) << 8),
            WaitOutcome::Signaled(signal, _) => ExitStatus::from_raw(signal as i32),
            WaitOutcome::Other => ExitStatus::from_raw((EXIT_INTERNAL_FAILURE & 0xff) << 8),
        }
    }

    /// The exit code with which the intermediate process ends: the code
    /// derived from how init ended when init was waited for, and else (the
    /// user namespace could not be set up, init could not be forked, or the
    /// wait failed) the internal failure code.
    pub fn intermediate_exit_code(init: Option<WaitOutcome>) -> (code: i32)
        ensures
            code == match init {
                Some(outcome) => outcome_exit_code(outcome),
                None => EXIT_INTERNAL_FAILURE as int,
            },
    {
        match init {
            Some(outcome) => Self::waitstatus_to_exitcode(outcome),
            None => EXIT_INTERNAL_FAILURE,
        }
    }
}

} // verus!
