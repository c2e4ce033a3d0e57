use promethea::process::{
    backend_args, finish_start, interpreter_for, launch_plan, Platform, ProcessHandle,
    BACKEND_PORT, WARMUP_DELAY_SECS,
};
use promethea::boot::{plan_boot, remediation_lines, BootPlan};
use promethea::process::StartError;

#[test]
fn interpreter_is_platform_selected() {
    assert_eq!(interpreter_for(Platform::Windows), "python");
    assert_eq!(interpreter_for(Platform::Other), "python3");
}

#[test]
fn backend_args_are_fixed() {
    let args = backend_args();
    assert_eq!(
        args,
        vec![
            "-m",
            "uvicorn",
            "api_server.server:app",
            "--host",
            "127.0.0.1",
            "--port",
            "8000",
        ]
    );
}

#[test]
fn backend_constants() {
    assert_eq!(BACKEND_PORT, 8000u16);
    assert_eq!(WARMUP_DELAY_SECS, 2u64);
}

#[test]
fn launch_plan_bundles_command_and_delay() {
    let plan = launch_plan(Platform::Other);
    assert_eq!(plan.interpreter, "python3");
    assert_eq!(plan.args.len(), 7);
    assert_eq!(plan.args[1], "uvicorn");
    assert_eq!(plan.warmup_secs, 2u64);
    let win = launch_plan(Platform::Windows);
    assert_eq!(win.interpreter, "python");
}

#[test]
fn successful_spawn_yields_handle() {
    let r = finish_start(Ok(4242));
    match r {
        Ok(h) => assert_eq!(h.pid, 4242u32),
        Err(_) => panic!("spawn outcome was success"),
    }
}

#[test]
fn failed_spawn_yields_start_error() {
    let r = finish_start(Err(String::from("No such file or directory")));
    match r {
        Ok(_) => panic!("spawn outcome was failure"),
        Err(e) => assert_eq!(e.message, "No such file or directory"),
    }
}

#[test]
fn boot_proceeds_with_tracked_backend() {
    let plan = plan_boot(Ok(ProcessHandle { pid: 31415 }));
    match plan {
        BootPlan::Proceed { state } => assert!(state.has_backend()),
        BootPlan::Abort { .. } => panic!("boot aborted on a spawned backend"),
    }
}

#[test]
fn boot_aborts_with_status_one_on_failed_spawn() {
    let plan = plan_boot(Err(StartError { message: String::from("interpreter missing") }));
    match plan {
        BootPlan::Proceed { .. } => panic!("boot proceeded on a failed spawn"),
        BootPlan::Abort { exit_code } => assert_eq!(exit_code, 1),
    }
}

#[test]
fn remediation_names_the_three_checks() {
    let lines = remediation_lines();
    assert_eq!(lines.len(), 3);
    assert_eq!(lines[0], "1. 已安装 Python 3.8+");
    assert_eq!(lines[1], "2. 已安装依赖: pip install -r api_server/requirements.txt");
    assert_eq!(lines[2], "3. 在项目根目录运行此程序");
}
