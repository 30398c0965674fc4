//! The Linux runner: the worker is the same executable, and UDisks2 authorizes it.

use vstd::prelude::*;

use crate::pipeline;
use crate::pipeline::launch;
use crate::pipeline::launch::{validate_executable, LaunchFacts};
use crate::pipeline::runner;
use crate::pipeline::runner::{LaunchAction, WorkerProcessRun};
use crate::pipeline::{WorkerLaunch, WorkerRunnerError, WorkerRunnerErrorView};
use crate::text;
use crate::text::copy_text;
use crate::worker::Platform;

verus! {

/// Environment variable by which the isolated worker is opted in.
pub const RAW_DEVICE_OPT_IN: &'static str = "SNAPDOG_INSTALLER_ALLOW_UDISKS_WRITE";

/// The value of [`RAW_DEVICE_OPT_IN`] that opts in.
pub const RAW_DEVICE_OPT_IN_VALUE: &'static str = "YES-I-UNDERSTAND";

/// Flag for an open that follows no final link.
pub const O_NOFOLLOW: i32 = 0o400_000;

/// Re-enters this executable as an unprivileged worker. `UDisks2` performs scoped authorization.
#[derive(Clone, Debug)]
pub struct LinuxWorkerRunner {
    pub executable: String,
    /// A second path that is validated like the executable, where one was given.
    pub authorization_helper: Option<String>,
}

/// Why the running executable cannot be the worker. `executable` is its path, and `looked` what a
/// look at it came to.
pub open spec fn current_fault(
    executable: Result<String, String>,
    looked: Result<LaunchFacts, String>,
) -> Option<WorkerRunnerErrorView> {
    match executable {
        Err(cause) => Some(WorkerRunnerErrorView::Io(cause@)),
        Ok(path) => launch::executable_fault(path@, looked),
    }
}

impl LinuxWorkerRunner {
    /// Use the currently running executable for worker re-entry.
    pub fn current(
        executable: Result<String, String>,
        looked: &Result<LaunchFacts, String>,
    ) -> (result: Result<LinuxWorkerRunner, WorkerRunnerError>)
        ensures
            pipeline::is_verdict(result, current_fault(executable, *looked)),
            result matches Ok(runner) ==> executable == Ok::<String, String>(runner.executable)
                && runner.authorization_helper is None,
    {
        let executable = match executable {
            Err(cause) => {
                return Err(WorkerRunnerError::Io(cause));
            },
            Ok(path) => path,
        };
        match validate_executable(executable.as_str(), looked) {
            Err(error) => Err(error),
            Ok(()) => Ok(LinuxWorkerRunner { executable, authorization_helper: None }),
        }
    }

    /// Use an explicit executable path. The second argument is retained for API compatibility.
    ///
    /// This constructor is intended for packaged-launch plumbing and integration tests. Both paths
    /// are still validated before every launch.
    pub fn with_paths(executable: String, authorization_helper: String) -> (runner:
        LinuxWorkerRunner)
        ensures
            runner.executable == executable,
            runner.authorization_helper == Some(authorization_helper),
    {
        LinuxWorkerRunner { executable, authorization_helper: Some(authorization_helper) }
    }

    /// Begin to run a worker.
    pub fn run(&self, launch: WorkerLaunch) -> (result: (WorkerProcessRun, LaunchAction))
        ensures
            (result.0@, result.1@) == runner::launch_start(
                Platform::Linux,
                self.executable@,
                text::optional_text(self.authorization_helper),
                launch@,
            ),
            result.0@.well_formed(),
    {
        WorkerProcessRun::start(
            Platform::Linux,
            self.executable.clone(),
            copy_text(&self.authorization_helper),
            launch,
        )
    }
}

} // verus!
