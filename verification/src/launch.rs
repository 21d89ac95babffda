//! What is launched: the runtime's command name, the fixed arguments, and
//! the plan that the host hands to the operating system.

use crate::paths::{
    exe_bytes, path_bytes, resolve_backend_root, spec_resolve, PathResolutionError,
};
use std::path::PathBuf;
use vstd::prelude::*;
use vstd::string::StringExecFns;

verus! {

/// The kind of platform the shell is built for.
#[derive(Clone, Copy, Debug, PartialEq, Eq, Structural)]
pub enum Platform {
    Windows,
    /// Every platform that is not Windows.
    Other,
}

/// The name under which each platform has the runtime that serves the
/// backend.
pub open spec fn spec_runtime_command(platform: Platform) -> Seq<char> {
    match platform {
        Platform::Windows => "python"@,
        Platform::Other => "python3"@,
    }
}

/// The command that starts the runtime on `platform`.
pub fn runtime_command(platform: Platform) -> (name: &'static str)
    ensures
        name@ == spec_runtime_command(platform),
{
    match platform {
        Platform::Windows => "python",
        Platform::Other => "python3",
    }
}

/// The two kinds of platform never share a command name.
pub proof fn lemma_runtime_commands_differ()
    ensures
        spec_runtime_command(Platform::Windows) != spec_runtime_command(Platform::Other),
{
    reveal_strlit("python");
    reveal_strlit("python3");
    assert("python"@.len() != "python3"@.len());
}

/// The application object that the runtime loads.
pub open spec fn spec_backend_module() -> Seq<char> {
    "app.main:app"@
}

/// The loopback address the backend binds to.
pub open spec fn spec_bind_host() -> Seq<char> {
    "127.0.0.1"@
}

/// The port the backend binds to.
pub open spec fn spec_bind_port() -> Seq<char> {
    "8001"@
}

/// The only level at which the backend logs.
pub open spec fn spec_log_level() -> Seq<char> {
    "error"@
}

/// The arguments of every launch, in order: serve the backend module with
/// the module-serving tool, on the fixed host and port, logging errors only.
pub open spec fn spec_launch_arguments() -> Seq<Seq<char>> {
    seq![
        "-m"@,
        "uvicorn"@,
        spec_backend_module(),
        "--host"@,
        spec_bind_host(),
        "--port"@,
        spec_bind_port(),
        "--log-level"@,
        spec_log_level(),
    ]
}

/// The texts of a sequence of strings, in order.
pub open spec fn texts(v: Seq<String>) -> Seq<Seq<char>> {
    Seq::new(v.len(), |i: int| v[i]@)
}

/// The arguments handed to the runtime. They are the same for every launch.
pub fn launch_arguments() -> (args: Vec<String>)
    ensures
        texts(args@) == spec_launch_arguments(),
{
    let mut args: Vec<String> = Vec::new();
    args.push("-m".to_owned());
    args.push("uvicorn".to_owned());
    args.push("app.main:app".to_owned());
    args.push("--host".to_owned());
    args.push("127.0.0.1".to_owned());
    args.push("--port".to_owned());
    args.push("8001".to_owned());
    args.push("--log-level".to_owned());
    args.push("error".to_owned());
    assert(texts(args@) =~= spec_launch_arguments());
    args
}

/// Everything the host needs to create the backend process.
#[derive(Debug, PartialEq, Eq)]
pub struct LaunchPlan {
    /// The command to run.
    pub program: String,
    /// Its arguments, in order.
    pub args: Vec<String>,
    /// The directory the process starts in.
    pub working_dir: PathBuf,
}

impl LaunchPlan {
    /// The plan is the one for `platform` with the backend in `root`.
    pub open spec fn is_for(self, platform: Platform, root: Seq<u8>) -> bool {
        &&& self.program@ == spec_runtime_command(platform)
        &&& texts(self.args@) == spec_launch_arguments()
        &&& path_bytes(self.working_dir) == root
    }

    /// The plan that launches the backend in `working_dir` on `platform`.
    pub fn new(working_dir: PathBuf, platform: Platform) -> (plan: LaunchPlan)
        ensures
            plan.is_for(platform, path_bytes(working_dir)),
            plan.working_dir == working_dir,
    {
        LaunchPlan {
            program: runtime_command(platform).to_owned(),
            args: launch_arguments(),
            working_dir,
        }
    }
}

/// Why no backend process came to be.
#[derive(Clone, Debug, PartialEq, Eq)]
pub enum SpawnError {
    /// The backend's working directory could not be found.
    PathResolution(PathResolutionError),
    /// The operating system did not create the process; the text is its
    /// reason.
    LaunchFailed(String),
}

impl SpawnError {
    /// What the operator is told about the error.
    pub open spec fn spec_message(self) -> Seq<char> {
        match self {
            SpawnError::PathResolution(e) => e.spec_message(),
            SpawnError::LaunchFailed(reason) => "❌ Failed to start backend: "@ + reason@,
        }
    }

    /// The error as a line for the operator.
    pub fn message(&self) -> (text: String)
        ensures
            text@ == self.spec_message(),
    {
        match self {
            SpawnError::PathResolution(e) => e.message(),
            SpawnError::LaunchFailed(reason) => "❌ Failed to start backend: ".to_owned().concat(
                reason.as_str(),
            ),
        }
    }
}

/// Prepares the start of the backend for a shell whose executable is at
/// `exe_path`: the working directory is resolved, the platform's runtime
/// command is chosen and the fixed arguments are laid out. The host creates
/// the process that the plan describes and does not wait for it to exit.
///
/// A plan is owed for every executable path that has a containing directory.
/// Otherwise the resolver's error comes back as `SpawnError::PathResolution`,
/// and nothing is to be launched.
pub fn start_backend(exe_path: &Result<PathBuf, String>, platform: Platform) -> (plan: Result<
    LaunchPlan,
    SpawnError,
>)
    ensures
        match spec_resolve(exe_bytes(*exe_path)) {
            Ok(root) => plan matches Ok(p) && p.is_for(platform, root),
            Err(e) => plan == Err::<LaunchPlan, SpawnError>(SpawnError::PathResolution(e)),
        },
{
    match resolve_backend_root(exe_path) {
        Ok(working_dir) => Ok(LaunchPlan::new(working_dir, platform)),
        Err(e) => Err(SpawnError::PathResolution(e)),
    }
}

} // verus!
