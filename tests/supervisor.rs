use sidecar::message::{LaunchError, Message, SidecarError};
use sidecar::supervisor::{restart_outcome, stop_outcome, SidecarManager, StartStep, StopStep};
use sidecar::treekill::{tree_kill_command, OsFamily};

fn launch_args(step: StartStep) -> Vec<String> {
    match step {
        StartStep::Launch(args) => args,
        StartStep::Done(m) => panic!("expected a launch, got {:?}", m),
    }
}

#[test]
fn lifecycle_start_start_stop_stop() {
    let port: u16 = 43117;
    let mut m: SidecarManager<u32> = SidecarManager::new(port);
    assert!(!m.is_running());
    assert_eq!(m.port(), port);

    let args = launch_args(m.start());
    assert_eq!(args, vec!["--port".to_string(), "43117".to_string()]);
    let r = m.launched(Ok(901));
    assert_eq!(r, Ok(Message::Started(port)));
    assert_eq!(r.unwrap().text(), "API server started on port 43117");
    assert!(m.is_running());
    assert_eq!(m.port(), port);

    match m.start() {
        StartStep::Done(msg) => {
            assert_eq!(msg, Message::AlreadyRunning);
            assert_eq!(msg.text(), "API server is already running");
        }
        StartStep::Launch(_) => panic!("a second worker was asked for"),
    }
    assert!(m.is_running());

    match m.stop() {
        StopStep::Terminate(pid) => assert_eq!(pid, 901),
        StopStep::Done(msg) => panic!("nothing to terminate: {:?}", msg),
    }
    assert!(!m.is_running());
    let r = stop_outcome(Ok(()));
    assert_eq!(r, Ok(Message::Stopped));
    assert_eq!(r.unwrap().text(), "API server stopped");

    match m.stop() {
        StopStep::Done(msg) => {
            assert_eq!(msg, Message::NotRunning);
            assert_eq!(msg.text(), "API server is not running");
        }
        StopStep::Terminate(_) => panic!("second stop asked for a termination"),
    }
}

#[test]
fn launch_failure_leaves_stopped() {
    let mut m: SidecarManager<u32> = SidecarManager::new(20001);
    let _ = launch_args(m.start());
    let e = LaunchError::Unresolved("no binary named api".to_string());
    let r = m.launched(Err(e.clone()));
    assert_eq!(r, Err(SidecarError::Launch(e)));
    assert_eq!(
        r.unwrap_err().text(),
        "Failed to create sidecar command: no binary named api"
    );
    assert!(!m.is_running());
    assert_eq!(m.port(), 20001);
    match m.stop() {
        StopStep::Done(msg) => assert_eq!(msg, Message::NotRunning),
        StopStep::Terminate(_) => panic!("stopped supervisor asked for a termination"),
    }
    let args = launch_args(m.start());
    assert_eq!(args[1], "20001");
    let r = m.launched(Err(LaunchError::Spawn("permission denied".to_string())));
    assert_eq!(r.unwrap_err().text(), "Failed to spawn API server: permission denied");
}

#[test]
fn starts_while_running_keep_the_handle() {
    let mut m: SidecarManager<u32> = SidecarManager::new(15000);
    let _ = launch_args(m.start());
    let _ = m.launched(Ok(77));
    for _ in 0..5 {
        assert!(matches!(m.start(), StartStep::Done(Message::AlreadyRunning)));
    }
    match m.stop() {
        StopStep::Terminate(pid) => assert_eq!(pid, 77),
        StopStep::Done(_) => panic!("handle lost"),
    }
}

#[test]
fn stop_hands_out_the_handle_for_tree_termination() {
    let mut m: SidecarManager<u32> = SidecarManager::new(24999);
    let _ = launch_args(m.start());
    let _ = m.launched(Ok(4242));
    let pid = match m.stop() {
        StopStep::Terminate(pid) => pid,
        StopStep::Done(_) => panic!("nothing to terminate"),
    };
    let unix = tree_kill_command(pid, OsFamily::Unix);
    assert_eq!(unix.program, "pkill");
    assert_eq!(unix.args, vec!["-P".to_string(), "4242".to_string()]);
    let win = tree_kill_command(pid, OsFamily::Windows);
    assert_eq!(win.program, "taskkill");
    assert_eq!(win.args, vec!["/F", "/T", "/PID", "4242"]);
    assert!(!m.is_running());
}

#[test]
fn stop_failure_is_reported_and_state_stays_stopped() {
    let mut m: SidecarManager<u32> = SidecarManager::new(16000);
    let _ = launch_args(m.start());
    let _ = m.launched(Ok(1));
    assert!(matches!(m.stop(), StopStep::Terminate(1)));
    let r = stop_outcome(Err("no such process".to_string()));
    assert_eq!(r, Err(SidecarError::Stop("no such process".to_string())));
    assert_eq!(r.unwrap_err().text(), "Failed to stop API server: no such process");
    assert!(!m.is_running());
    assert!(matches!(m.stop(), StopStep::Done(Message::NotRunning)));
}

#[test]
fn restart_stops_then_reports_unsupported() {
    let mut m: SidecarManager<u32> = SidecarManager::new(18080);
    let _ = launch_args(m.start());
    let _ = m.launched(Ok(9));
    assert!(matches!(m.restart(), StopStep::Terminate(9)));
    assert!(!m.is_running());
    assert_eq!(m.port(), 18080);
    let r = restart_outcome(stop_outcome(Ok(())));
    assert_eq!(r, Err(SidecarError::RestartUnsupported));
    assert_eq!(
        r.unwrap_err().text(),
        "Restart requires app handle - use Tauri commands"
    );
    let failed = restart_outcome(stop_outcome(Err("denied".to_string())));
    assert_eq!(failed, Err(SidecarError::Stop("denied".to_string())));
    assert!(matches!(m.restart(), StopStep::Done(Message::NotRunning)));
    assert_eq!(restart_outcome(Ok(Message::NotRunning)), Err(SidecarError::RestartUnsupported));
    assert_eq!(m.port(), 18080);
}

#[test]
fn port_survives_every_operation() {
    let mut m: SidecarManager<u32> = SidecarManager::new(65535);
    let _ = m.start();
    let _ = m.launched(Ok(3));
    let _ = m.stop();
    assert_eq!(m.port(), 65535);
    let _ = m.restart();
    assert_eq!(m.port(), 65535);
    let args = launch_args(m.start());
    assert_eq!(args[1], "65535");
}
