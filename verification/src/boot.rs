//! The bootstrapper's decision after the spawn attempt.
//!
//! Startup order is fixed: the backend is started first; only on success
//! is the application state constructed, the tray built and the handlers
//! registered; only then does the UI event loop begin.  On a spawn
//! failure the shell prints remediation guidance and exits with status 1
//! before any window is shown.

use vstd::prelude::*;
use crate::process::{ProcessHandle, StartError};
use crate::state::AppState;

verus! {

/// What the shell does once the spawn attempt has finished: carry on
/// with a state that tracks the backend, or abort with an exit status.
pub enum BootPlan {
    /// Construct the tray, register the handlers, enter the event loop.
    Proceed { state: AppState },
    /// Exit with this status before any UI is created.
    Abort { exit_code: i32 },
}

/// Decides the course of the application from the start attempt's
/// outcome: a spawned backend is tracked in a fresh state; a spawn
/// failure aborts with exit status 1, constructing no state at all.
pub fn plan_boot(started: Result<ProcessHandle, StartError>) -> (r: BootPlan)
    ensures
        started matches Ok(h) ==> r matches BootPlan::Proceed { state } && state.supervised()
            == Some(h),
        started is Err ==> (r matches BootPlan::Abort { exit_code } && exit_code == 1),
{
    match started {
        Ok(h) => BootPlan::Proceed { state: AppState::new(Some(h)) },
        Err(_) => BootPlan::Abort { exit_code: 1 },
    }
}

/// The remediation guidance printed when the backend cannot be spawned:
/// check the interpreter, the installed dependencies and the working
/// directory.
pub fn remediation_lines() -> (r: Vec<&'static str>)
    ensures
        r@.len() == 3,
        r@[0]@ == "1. 已安装 Python 3.8+"@,
        r@[1]@ == "2. 已安装依赖: pip install -r api_server/requirements.txt"@,
        r@[2]@ == "3. 在项目根目录运行此程序"@,
{
    let mut v: Vec<&'static str> = Vec::new();
    v.push("1. 已安装 Python 3.8+");
    v.push("2. 已安装依赖: pip install -r api_server/requirements.txt");
    v.push("3. 在项目根目录运行此程序");
    v
}

} // verus!
