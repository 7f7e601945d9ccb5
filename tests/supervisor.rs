use backend_supervisor::error::BackendError;
use backend_supervisor::launch::{launch_plan, launcher, port_decimal, HostOs, LaunchPlan};
use backend_supervisor::manager::{BackendManager, ChildProcess};
use backend_supervisor::status::BackendStatus;
use std::cell::RefCell;

fn spawn_ok(pid: u32) -> impl FnOnce(LaunchPlan) -> Result<ChildProcess<u32>, String> {
    move |_plan| Ok(ChildProcess { handle: pid, pid })
}

fn spawn_err(text: &str) -> impl FnOnce(LaunchPlan) -> Result<ChildProcess<u32>, String> {
    let text = text.to_string();
    move |_plan| Err(text)
}

fn kill_ok(c: ChildProcess<u32>) -> (ChildProcess<u32>, Result<(), String>) {
    (c, Ok(()))
}

fn wait_ok(_c: ChildProcess<u32>) -> Result<(), String> {
    Ok(())
}

fn idle(port: u16) -> BackendStatus {
    BackendStatus { running: false, pid: None, port }
}

#[test]
fn new_supervisor_is_idle() {
    let m: BackendManager<u32> = BackendManager::new(8000);
    assert_eq!(m.status(), idle(8000));
}

#[test]
fn concrete_session_on_port_8000() {
    let mut m: BackendManager<u32> = BackendManager::new(8000);
    let first = m.start("/tmp/app", HostOs::Other, spawn_ok(4242));
    assert_eq!(first, Ok(BackendStatus { running: true, pid: Some(4242), port: 8000 }));
    let again = m.start("/tmp/app", HostOs::Other, spawn_ok(5000));
    assert_eq!(again, Err(BackendError::AlreadyRunning));
    assert_eq!(again.unwrap_err().message(), "Backend is already running");
    assert_eq!(m.stop(kill_ok, wait_ok), Ok(()));
    assert_eq!(m.status(), idle(8000));
    let last = m.stop(kill_ok, wait_ok);
    assert_eq!(last, Err(BackendError::NotRunning));
    assert_eq!(last.unwrap_err().message(), "Backend is not running");
}

#[test]
fn second_start_keeps_first_child() {
    let mut m: BackendManager<u32> = BackendManager::new(9000);
    assert!(m.start("/srv/backend", HostOs::Windows, spawn_ok(17)).is_ok());
    let called = RefCell::new(false);
    let r = m.start("/srv/backend", HostOs::Windows, |_p: LaunchPlan| {
        *called.borrow_mut() = true;
        Ok(ChildProcess { handle: 99, pid: 99 })
    });
    assert_eq!(r, Err(BackendError::AlreadyRunning));
    assert!(!*called.borrow());
    assert_eq!(m.status(), BackendStatus { running: true, pid: Some(17), port: 9000 });
}

#[test]
fn stop_when_idle_is_refused() {
    let mut m: BackendManager<u32> = BackendManager::new(1234);
    let called = RefCell::new(false);
    let r = m.stop(
        |c: ChildProcess<u32>| {
            *called.borrow_mut() = true;
            (c, Ok(()))
        },
        |_c: ChildProcess<u32>| {
            *called.borrow_mut() = true;
            Ok(())
        },
    );
    assert_eq!(r, Err(BackendError::NotRunning));
    assert!(!*called.borrow());
    assert_eq!(m.status(), idle(1234));
}

#[test]
fn stop_kills_then_waits_on_child() {
    let mut m: BackendManager<u32> = BackendManager::new(8080);
    m.start("/opt/app", HostOs::Other, spawn_ok(321)).unwrap();
    let calls = RefCell::new(Vec::new());
    let r = m.stop(
        |c: ChildProcess<u32>| {
            calls.borrow_mut().push(("kill", c.handle, c.pid));
            (c, Ok(()))
        },
        |c: ChildProcess<u32>| {
            calls.borrow_mut().push(("wait", c.handle, c.pid));
            Ok(())
        },
    );
    assert_eq!(r, Ok(()));
    assert_eq!(*calls.borrow(), vec![("kill", 321, 321), ("wait", 321, 321)]);
    let s = m.status();
    assert!(!s.running);
    assert_eq!(s.pid, None);
    assert_eq!(s.port, 8080);
}

#[test]
fn round_trip_returns_to_initial_snapshot() {
    for port in [0u16, 1, 80, 8000, 65535] {
        let mut m: BackendManager<u32> = BackendManager::new(port);
        let initial = m.status();
        assert_eq!(initial, idle(port));
        let started = m.start("/tmp/app", HostOs::Other, spawn_ok(7)).unwrap();
        assert_eq!(started, m.status());
        assert_eq!(started, BackendStatus { running: true, pid: Some(7), port });
        m.stop(kill_ok, wait_ok).unwrap();
        assert_eq!(m.status(), initial);
    }
}

#[test]
fn spawn_failure_leaves_supervisor_idle() {
    let mut m: BackendManager<u32> = BackendManager::new(8000);
    let text = "No such file or directory (os error 2)";
    let r = m.start("/does/not/exist", HostOs::Other, spawn_err(text));
    assert_eq!(r, Err(BackendError::SpawnFailure(text.to_string())));
    assert_eq!(
        r.unwrap_err().message(),
        "Failed to start backend: No such file or directory (os error 2)"
    );
    assert_eq!(m.status(), idle(8000));
    let again = m.start("/tmp/app", HostOs::Other, spawn_ok(55));
    assert_eq!(again, Ok(BackendStatus { running: true, pid: Some(55), port: 8000 }));
}

#[test]
fn start_hands_the_launch_plan_to_spawn() {
    let mut m: BackendManager<u32> = BackendManager::new(8000);
    let seen = RefCell::new(None);
    m.start("/tmp/app", HostOs::Other, |p: LaunchPlan| {
        *seen.borrow_mut() = Some(p);
        Ok(ChildProcess { handle: 1, pid: 1 })
    })
    .unwrap();
    let plan = seen.borrow_mut().take().unwrap();
    assert_eq!(plan.program, "python3");
    assert_eq!(plan.script, "main.py");
    assert_eq!(plan.working_dir, "/tmp/app");
    assert_eq!(plan.port_var, "PORT");
    assert_eq!(plan.port_value, "8000");
    assert!(plan.discard_stdout);
    assert!(plan.discard_stderr);
}

#[test]
fn failed_kill_is_ignored_and_wait_still_runs() {
    let mut m: BackendManager<u32> = BackendManager::new(8000);
    m.start("/tmp/app", HostOs::Other, spawn_ok(61)).unwrap();
    let waited = RefCell::new(false);
    let r = m.stop(
        |c: ChildProcess<u32>| (c, Err("No such process (os error 3)".to_string())),
        |c: ChildProcess<u32>| {
            assert_eq!(c.pid, 61);
            *waited.borrow_mut() = true;
            Ok(())
        },
    );
    assert_eq!(r, Ok(()));
    assert!(*waited.borrow());
    assert_eq!(m.status(), idle(8000));
}

#[test]
fn failed_wait_is_reported_and_child_given_up() {
    let mut m: BackendManager<u32> = BackendManager::new(8000);
    m.start("/tmp/app", HostOs::Other, spawn_ok(62)).unwrap();
    let r = m.stop(kill_ok, |_c: ChildProcess<u32>| Err("Interrupted system call".to_string()));
    assert_eq!(r, Err(BackendError::WaitFailure("Interrupted system call".to_string())));
    assert_eq!(
        r.unwrap_err().message(),
        "Failed to stop backend: Interrupted system call"
    );
    assert_eq!(m.status(), idle(8000));
    let again = m.start("/tmp/app", HostOs::Other, spawn_ok(63));
    assert_eq!(again, Ok(BackendStatus { running: true, pid: Some(63), port: 8000 }));
}

#[test]
fn launcher_depends_on_host() {
    assert_eq!(launcher(HostOs::Windows), "python");
    assert_eq!(launcher(HostOs::Other), "python3");
    let p = launch_plan("C:\\backend", HostOs::Windows, 3000);
    assert_eq!(p.program, "python");
    assert_eq!(p.working_dir, "C:\\backend");
    assert_eq!(p.port_value, "3000");
}

#[test]
fn port_decimal_notation() {
    assert_eq!(port_decimal(0), "0");
    assert_eq!(port_decimal(9), "9");
    assert_eq!(port_decimal(10), "10");
    assert_eq!(port_decimal(8000), "8000");
    assert_eq!(port_decimal(65535), "65535");
}

#[test]
fn snapshot_pid_present_exactly_while_running() {
    let mut m: BackendManager<u32> = BackendManager::new(5);
    let s = m.status();
    assert_eq!(s.running, s.pid.is_some());
    m.start("/a", HostOs::Other, spawn_ok(8)).unwrap();
    let s = m.status();
    assert_eq!(s.running, s.pid.is_some());
    assert!(s.running);
}
