//! Launching and identifying the supervised backend process.
//!
//! The backend is an external web server reached over a fixed local port.
//! Everything the shell decides about it is computed here: the
//! platform-dependent interpreter name, the fixed command-line arguments
//! that bind the server to `127.0.0.1:8000`, the warm-up delay, and the
//! translation of a spawn attempt's outcome into the shell's own types.
//! The spawn itself, and the kill signal on quit, are operating-system
//! calls performed by the surrounding runtime.

use vstd::prelude::*;

verus! {

/// The TCP port on `127.0.0.1` that the backend binds.
pub const BACKEND_PORT: u16 = 8000;

/// Seconds the launcher waits after spawning the backend before the UI
/// becomes interactive, so the server has time to bind its port.
pub const WARMUP_DELAY_SECS: u64 = 2;

/// The platform the shell runs on; only the interpreter name depends on it.
#[derive(Clone, Copy, PartialEq, Eq, Structural, Debug)]
pub enum Platform {
    Windows,
    Other,
}

/// Identifier of a spawned backend process: the platform process id.  The
/// runtime keeps the matching child-process object and delivers the kill
/// signal when the shell asks for it.
#[derive(Clone, Copy, PartialEq, Eq, Structural, Debug)]
pub struct ProcessHandle {
    pub pid: u32,
}

/// Why the backend could not be spawned (missing interpreter, missing
/// dependency, wrong working directory).  Fatal: the shell exits.
#[derive(Clone, Debug)]
pub struct StartError {
    pub message: String,
}

/// The interpreter binary that launches the backend on `platform`.
pub fn interpreter_for(platform: Platform) -> (r: &'static str)
    ensures
        platform == Platform::Windows ==> r@ == "python"@,
        platform != Platform::Windows ==> r@ == "python3"@,
{
    match platform {
        Platform::Windows => "python",
        Platform::Other => "python3",
    }
}

/// The fixed arguments handed to the interpreter: run the backend module
/// under uvicorn, bound to `127.0.0.1:8000`.
pub open spec fn spec_backend_args() -> Seq<Seq<char>> {
    seq![
        "-m"@,
        "uvicorn"@,
        "api_server.server:app"@,
        "--host"@,
        "127.0.0.1"@,
        "--port"@,
        "8000"@,
    ]
}

/// The fixed argument list for the backend command line.
pub fn backend_args() -> (r: Vec<&'static str>)
    ensures
        r@.len() == spec_backend_args().len(),
        forall|i: int| 0 <= i < r@.len() ==> #[trigger] r@[i]@ == spec_backend_args()[i],
{
    let mut v: Vec<&'static str> = Vec::new();
    v.push("-m");
    v.push("uvicorn");
    v.push("api_server.server:app");
    v.push("--host");
    v.push("127.0.0.1");
    v.push("--port");
    v.push("8000");
    proof {
        assert(v@ =~= seq![
            "-m",
            "uvicorn",
            "api_server.server:app",
            "--host",
            "127.0.0.1",
            "--port",
            "8000",
        ]);
    }
    v
}

/// Everything the runtime needs to start the backend: the command line and
/// the warm-up delay to observe before the UI becomes interactive.
pub struct LaunchPlan {
    pub interpreter: &'static str,
    pub args: Vec<&'static str>,
    pub warmup_secs: u64,
}

/// The complete launch decision for `platform`.
pub fn launch_plan(platform: Platform) -> (r: LaunchPlan)
    ensures
        platform == Platform::Windows ==> r.interpreter@ == "python"@,
        platform != Platform::Windows ==> r.interpreter@ == "python3"@,
        r.args@.len() == spec_backend_args().len(),
        forall|i: int| 0 <= i < r.args@.len() ==> #[trigger] r.args@[i]@ == spec_backend_args()[i],
        r.warmup_secs == WARMUP_DELAY_SECS,
{
    LaunchPlan {
        interpreter: interpreter_for(platform),
        args: backend_args(),
        warmup_secs: WARMUP_DELAY_SECS,
    }
}

/// Turns the outcome of the runtime's spawn attempt into the shell's own
/// types: the process id of a spawned backend becomes the supervised
/// handle, a spawn failure becomes the fatal start error.
pub fn finish_start(spawned: Result<u32, String>) -> (r: Result<ProcessHandle, StartError>)
    ensures
        spawned matches Ok(pid) ==> r matches Ok(h) && h.pid == pid,
        spawned matches Err(m) ==> r matches Err(e) && e.message@ == m@,
{
    match spawned {
        Ok(pid) => Ok(ProcessHandle { pid }),
        Err(message) => Err(StartError { message }),
    }
}

} // verus!
