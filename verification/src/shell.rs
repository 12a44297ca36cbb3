//! Startup orchestration of the application shell, and the trivial greeting
//! command.
//!
//! The shell launches the supervisor on its own thread, blocks the main
//! thread for [`STARTUP_DELAY_MS`] milliseconds so the server has time to
//! bind its port, and only then builds and runs the native application. The
//! order is the point: there is no readiness signal from the supervisor, the
//! fixed delay is the only synchronization.

use vstd::prelude::*;
use vstd::string::StringExecFns;

verus! {

/// Milliseconds the main thread blocks between launching the supervisor and
/// building the native application.
pub const STARTUP_DELAY_MS: u64 = 2000;

/// One step of the shell's startup sequence.
#[derive(Clone, Copy, Debug, PartialEq, Eq, Structural)]
pub enum StartupStep {
    /// Start the supervisor on a dedicated background thread.
    LaunchSupervisor,
    /// Block the main thread for `ms` milliseconds.
    Wait { ms: u64 },
    /// Build the native application, register the commands and the bridge
    /// setup, and enter its run loop until the application exits.
    RunApp,
}

/// The startup sequence: launch the supervisor, wait out the fixed delay,
/// then hand the main thread to the native application's run loop. The plan
/// never depends on how the supervisor fares: the application starts even
/// when every spawn attempt has failed.
pub fn startup_plan() -> (v: Vec<StartupStep>)
    ensures
        v@ =~= seq![
            StartupStep::LaunchSupervisor,
            (StartupStep::Wait { ms: STARTUP_DELAY_MS }),
            StartupStep::RunApp,
        ],
{
    let mut v: Vec<StartupStep> = Vec::new();
    v.push(StartupStep::LaunchSupervisor);
    v.push(StartupStep::Wait { ms: STARTUP_DELAY_MS });
    v.push(StartupStep::RunApp);
    v
}

/// The greeting command.
pub fn greet(name: &str) -> (r: String)
    ensures
        r@ == "Hello, "@ + name@ + "! You've been greeted from Rust!"@,
{
    let mut s = "Hello, ".to_owned();
    s.append(name);
    s.append("! You've been greeted from Rust!");
    s
}

} // verus!
