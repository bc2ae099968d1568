//! Launching a sidecar: the request that names the bundled binary and
//! carries its arguments, and the decision taken on the spawn's outcome.
//! The host performs the spawn itself; on success it starts one relay for
//! the new child's output, on failure it writes exactly one diagnostic line
//! and neither a child process nor a relay exists.

use vstd::prelude::*;

verus! {

/// A request to start one bundled binary: its logical name, as the packaging
/// manifest knows it, and the argument list handed to the child, in order.
#[derive(Debug, PartialEq, Eq)]
pub struct LaunchRequest {
    /// The logical name that resolves to the bundled binary.
    pub name: String,
    /// The arguments passed to the child at launch, in order.
    pub args: Vec<String>,
}

impl LaunchRequest {
    /// Build a request that carries exactly the supplied name and argument
    /// sequence: nothing is added, dropped or reordered.
    pub fn new(name: String, args: Vec<String>) -> (request: LaunchRequest)
        ensures
            request.name == name,
            request.args == args,
    {
        LaunchRequest { name, args }
    }
}

/// The request the host's invocable command issues: start the bundled
/// `yana-back` binary with the application data directory as its one
/// argument.
pub fn yana_back_request(app_data_dir: String) -> (request: LaunchRequest)
    ensures
        request.name@ == "yana-back"@,
        request.args@.len() == 1,
        request.args@[0] == app_data_dir,
{
    let mut args: Vec<String> = Vec::new();
    args.push(app_data_dir);
    LaunchRequest::new(String::from_str("yana-back"), args)
}

/// The diagnostic line written when the sidecar could not be started.
pub open spec fn spawn_failure_line() -> Seq<char> {
    "Failed to run Yana Back"@
}

/// What the launcher does once the spawn's outcome is known.
#[derive(Debug, PartialEq, Eq)]
pub enum LaunchStep {
    /// The child is running: start one relay on its output channel and
    /// return; the relay runs on its own.
    StartRelay,
    /// The child could not be started: write this one line to the error
    /// sink and do nothing further — no retry, no relay.
    Diagnostic(String),
}

/// Decide what follows the spawn: a success starts exactly one relay, a
/// failure yields exactly one diagnostic line and no relay.
pub fn on_spawn_result(spawn_ok: bool) -> (step: LaunchStep)
    ensures
        spawn_ok ==> step is StartRelay,
        !spawn_ok ==> (step matches LaunchStep::Diagnostic(line) && line@ == spawn_failure_line()),
{
    if spawn_ok {
        LaunchStep::StartRelay
    } else {
        LaunchStep::Diagnostic(String::from_str("Failed to run Yana Back"))
    }
}

} // verus!
