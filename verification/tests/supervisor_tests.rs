use backend_supervisor::paths::{resolve_paths, Platform};
use backend_supervisor::supervisor::{StartError, Supervisor, SupervisorPhase};

#[test]
fn missing_interpreter_grants_no_spawn() {
    // The interpreter path does not exist on disk: start fails with the
    // pre-flight error and no process is ever created.
    let paths = resolve_paths("/home/user/project", Platform::Posix);
    let mut sup = Supervisor::new();
    let r = sup.request_start(paths, false);
    assert!(matches!(r, Err(StartError::InterpreterMissing)));
    assert_eq!(sup.phase, SupervisorPhase::NotStarted);
    // Shutdown after the failed start has nothing to kill.
    assert!(!sup.request_stop());
}

#[test]
fn stop_without_start_is_harmless() {
    // Stop when no process was ever started: it completes and requests no
    // kill.
    let mut sup = Supervisor::new();
    let kill = sup.request_stop();
    assert!(!kill);
    assert_eq!(sup.phase, SupervisorPhase::Stopped);
    // A second shutdown signal is just as harmless.
    assert!(!sup.request_stop());
}

#[test]
fn successful_start_hands_out_the_resolved_command() {
    let paths = resolve_paths("/home/user/project", Platform::Posix);
    let mut sup = Supervisor::new();
    let cmd = sup.request_start(paths, true).expect("spawn should be granted");
    assert_eq!(cmd.program, "/home/user/project/.venv/bin/python");
    assert_eq!(cmd.arg, "/home/user/project/backend/main.py");
    assert_eq!(cmd.working_dir, "/home/user/project/backend");
    assert_eq!(sup.phase, SupervisorPhase::Spawning);
    sup.confirm_started();
    assert_eq!(sup.phase, SupervisorPhase::Running);
    // Shutdown while the backend runs asks for exactly one kill.
    assert!(sup.request_stop());
    assert!(!sup.request_stop());
}

#[test]
fn refused_spawn_ends_the_supervisor() {
    let paths = resolve_paths("/srv/app", Platform::Posix);
    let mut sup = Supervisor::new();
    let cmd = sup.request_start(paths, true);
    assert!(cmd.is_ok());
    let e = sup.note_spawn_failed(String::from("permission denied"));
    match e {
        StartError::SpawnFailed(m) => assert_eq!(m, "permission denied"),
        _ => panic!("expected a spawn failure"),
    }
    assert_eq!(sup.phase, SupervisorPhase::Stopped);
    // Nothing is running, so shutdown has nothing to kill.
    assert!(!sup.request_stop());
}
