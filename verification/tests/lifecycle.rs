use winky::lifecycle::{LifecycleOrchestrator, OpAction, OpEvent};
use winky::ops::{LifecycleError, ProvisionError, ScriptKind, Verb};
use winky::status::Phase;

/// Drives a start sequence that is already past provisioning: pre-stop,
/// start script, health probes.  `script_ok` is the start script's exit,
/// `probe_results` the successive health observations.
fn drive_start(
    orch: &mut LifecycleOrchestrator,
    script_ok: bool,
    probe_results: &[bool],
) -> OpAction {
    // Pre-stop: the installation exists, the stop script runs, the first
    // down-probe confirms the server is not running.
    let (a, _) = orch.step(OpEvent::RepoDirExists(true));
    assert!(matches!(a, OpAction::RunScript(ScriptKind::Stop)));
    let (a, _) = orch.step(OpEvent::ScriptExited(true));
    assert!(matches!(a, OpAction::Probe));
    let (a, notes) = orch.step(OpEvent::ProbeChecked(false));
    assert!(matches!(a, OpAction::RunScript(ScriptKind::Start)));
    assert_eq!(notes.len(), 1);
    assert_eq!(notes[0].phase, Phase::Starting);
    let (mut a, _) = orch.step(OpEvent::ScriptExited(script_ok));
    assert!(matches!(a, OpAction::Probe));
    for healthy in probe_results {
        let (next, _) = orch.step(OpEvent::ProbeChecked(*healthy));
        a = next;
        match a {
            OpAction::Probe | OpAction::ProbeAfter(_) => continue,
            _ => break,
        }
    }
    a
}

#[test]
fn fresh_install_reaches_running() {
    let mut orch = LifecycleOrchestrator::new();
    let s = orch.get_status();
    assert!(!s.installed);
    assert!(!s.running);
    assert_eq!(s.phase, Phase::NotInstalled);
    assert_eq!(s.message, "Local server is not installed.");

    let first = orch.begin(Verb::Install).unwrap();
    assert!(matches!(first, OpAction::CheckRepoDir));
    // No installation yet: create the root, fetch, mark the scripts.
    let (a, notes) = orch.step(OpEvent::RepoDirExists(false));
    assert!(matches!(a, OpAction::CreateInstallRoot));
    assert!(notes.is_empty());
    let (a, notes) = orch.step(OpEvent::CreateFinished(Ok(())));
    assert!(matches!(a, OpAction::RunFetch));
    assert_eq!(notes.len(), 1);
    assert_eq!(notes[0].phase, Phase::Installing);
    assert_eq!(notes[0].message, "Cloning repository...");
    assert!(!notes[0].installed);
    let (a, _) = orch.step(OpEvent::FetchExited(true));
    assert!(matches!(a, OpAction::MarkScriptsExecutable));
    let (a, notes) = orch.step(OpEvent::ScriptsMarked);
    assert!(matches!(a, OpAction::CheckRepoDir));
    assert_eq!(notes.len(), 1);
    assert!(notes[0].installed);
    assert_eq!(notes[0].message, "Repository ready.");

    // One failed probe (server still coming up), then healthy.
    let a = drive_start(&mut orch, true, &[false, true]);
    assert!(matches!(a, OpAction::Finished));
    let s = orch.get_status();
    assert!(s.installed);
    assert!(s.running);
    assert_eq!(s.phase, Phase::Running);
    assert_eq!(s.error, None);
    assert_eq!(s.message, "Server installed.");
    assert_eq!(s.last_action.as_deref(), Some("install"));
    assert!(s.last_success_at.is_some());
}

#[test]
fn stop_when_already_stopped_ends_idle() {
    let mut orch = LifecycleOrchestrator::new();
    orch.begin(Verb::Stop).unwrap();
    let (a, _) = orch.step(OpEvent::RepoDirExists(true));
    assert!(matches!(a, OpAction::RunScript(ScriptKind::Stop)));
    // The no-op stop script reports failure; that is tolerated.
    let (a, _) = orch.step(OpEvent::ScriptExited(false));
    assert!(matches!(a, OpAction::Probe));
    // The down-probe confirms the server is not running.
    let (a, notes) = orch.step(OpEvent::ProbeChecked(false));
    assert!(matches!(a, OpAction::Finished));
    assert_eq!(notes.len(), 1);
    let s = orch.get_status();
    assert!(!s.running);
    assert_eq!(s.phase, Phase::Idle);
    assert_eq!(s.error, None);
    assert_eq!(s.message, "Server is stopped.");
}

#[test]
fn restart_freshens_last_success() {
    let mut orch = LifecycleOrchestrator::new();
    // Bring the server up first.
    orch.begin(Verb::Start).unwrap();
    let (a, _) = orch.step(OpEvent::RepoDirExists(true));
    assert!(matches!(a, OpAction::CheckRepoDir));
    let a = drive_start(&mut orch, true, &[true]);
    assert!(matches!(a, OpAction::Finished));
    let before = orch.get_status();
    assert!(before.running);
    let before_success = before.last_success_at.unwrap();

    // Restart: the explicit pre-stop runs first, then the start sequence.
    orch.begin(Verb::Restart).unwrap();
    let (a, _) = orch.step(OpEvent::RepoDirExists(true));
    assert!(matches!(a, OpAction::RunScript(ScriptKind::Stop)));
    let (a, _) = orch.step(OpEvent::ScriptExited(true));
    assert!(matches!(a, OpAction::Probe));
    // The server is still up on the first down-probe, gone on the second.
    let (a, _) = orch.step(OpEvent::ProbeChecked(true));
    assert!(matches!(a, OpAction::ProbeAfter(2000)));
    let (a, _) = orch.step(OpEvent::ProbeChecked(false));
    assert!(matches!(a, OpAction::CheckRepoDir));
    let a = drive_start(&mut orch, true, &[true]);
    assert!(matches!(a, OpAction::Finished));
    let after = orch.get_status();
    assert!(after.running);
    assert_eq!(after.last_action.as_deref(), Some("restart"));
    assert_eq!(after.message, "Server restarted.");
    assert!(after.last_success_at.unwrap() > before_success);
    assert!(after.updated_at > before.updated_at);
}

#[test]
fn health_probe_overrides_failed_start_script() {
    let mut orch = LifecycleOrchestrator::new();
    orch.begin(Verb::Start).unwrap();
    let (a, _) = orch.step(OpEvent::RepoDirExists(true));
    assert!(matches!(a, OpAction::CheckRepoDir));
    // Script fails, but the probe then reports the server up.
    let a = drive_start(&mut orch, false, &[true]);
    assert!(matches!(a, OpAction::Finished));
    let s = orch.get_status();
    assert!(s.running);
    assert_eq!(s.phase, Phase::Running);
    assert_eq!(s.error, None);
    assert_eq!(s.message, "Server started.");
}

#[test]
fn probe_timeout_fails_with_script_error_first() {
    let mut orch = LifecycleOrchestrator::new();
    orch.begin(Verb::Start).unwrap();
    let (a, _) = orch.step(OpEvent::RepoDirExists(true));
    assert!(matches!(a, OpAction::CheckRepoDir));
    // Script fails and the server never comes up within the budget:
    // sixty-two failed probes exhaust the 120-second budget at 2-second
    // intervals.
    let probes = vec![false; 62];
    let a = drive_start(&mut orch, false, &probes);
    match a {
        OpAction::Failed(LifecycleError::ScriptFailed) => {},
        other => panic!("expected the script's error, got {:?}", other),
    }
    let s = orch.get_status();
    assert_eq!(s.phase, Phase::Error);
    assert!(!s.running);
    assert_eq!(s.error.as_deref(), Some("start script failed"));
}

#[test]
fn probe_timeout_without_script_error_reports_timeout() {
    let mut orch = LifecycleOrchestrator::new();
    orch.begin(Verb::Start).unwrap();
    let (a, _) = orch.step(OpEvent::RepoDirExists(true));
    assert!(matches!(a, OpAction::CheckRepoDir));
    let probes = vec![false; 62];
    let a = drive_start(&mut orch, true, &probes);
    match a {
        OpAction::Failed(LifecycleError::Timeout { expect_up }) => assert!(expect_up),
        other => panic!("expected a timeout, got {:?}", other),
    }
    let s = orch.get_status();
    assert_eq!(s.phase, Phase::Error);
    assert!(!s.running);
    assert_eq!(s.error.as_deref(), Some("Local server did not start in time"));
}

#[test]
fn second_operation_while_busy_is_refused() {
    let mut orch = LifecycleOrchestrator::new();
    orch.begin(Verb::Install).unwrap();
    let before = orch.get_status();
    match orch.begin(Verb::Stop) {
        Err(LifecycleError::Busy) => {},
        other => panic!("expected busy, got {:?}", other),
    }
    // The refused call changed nothing.
    let after = orch.get_status();
    assert_eq!(after.updated_at, before.updated_at);
    assert_eq!(after.phase, before.phase);
    // The first operation goes on undisturbed.
    let (a, _) = orch.step(OpEvent::RepoDirExists(true));
    assert!(matches!(a, OpAction::CheckRepoDir));
}

#[test]
fn existing_installation_is_not_refetched() {
    let mut orch = LifecycleOrchestrator::new();
    orch.begin(Verb::Install).unwrap();
    // The directory exists: the idempotent fast path publishes nothing and
    // requests no fetch.
    let (a, notes) = orch.step(OpEvent::RepoDirExists(true));
    assert!(matches!(a, OpAction::CheckRepoDir));
    assert!(notes.is_empty());
}

#[test]
fn forced_reinstall_removes_then_refetches() {
    let mut orch = LifecycleOrchestrator::new();
    orch.begin(Verb::Reinstall).unwrap();
    let (a, _) = orch.step(OpEvent::RepoDirExists(true));
    assert!(matches!(a, OpAction::RemoveRepoDir));
    let (a, _) = orch.step(OpEvent::RemoveFinished(Ok(())));
    assert!(matches!(a, OpAction::CheckRepoDir));
    let (a, _) = orch.step(OpEvent::RepoDirExists(false));
    assert!(matches!(a, OpAction::CreateInstallRoot));
    let (a, notes) = orch.step(OpEvent::CreateFinished(Ok(())));
    assert!(matches!(a, OpAction::RunFetch));
    assert_eq!(notes[0].message, "Cloning repository...");
}

#[test]
fn fetch_failure_surfaces_provision_error() {
    let mut orch = LifecycleOrchestrator::new();
    orch.begin(Verb::Install).unwrap();
    orch.step(OpEvent::RepoDirExists(false));
    orch.step(OpEvent::CreateFinished(Ok(())));
    let (a, notes) = orch.step(OpEvent::FetchExited(false));
    match a {
        OpAction::Failed(LifecycleError::Provision(ProvisionError::FetchFailed)) => {},
        other => panic!("expected a fetch failure, got {:?}", other),
    }
    let s = orch.get_status();
    assert_eq!(s.phase, Phase::Error);
    assert_eq!(s.error.as_deref(), Some("Fetching the repository failed."));
    assert_eq!(notes.last().unwrap().message, "Fetching the repository failed.");
}

#[test]
fn filesystem_error_surfaces_its_message() {
    let mut orch = LifecycleOrchestrator::new();
    orch.begin(Verb::Reinstall).unwrap();
    orch.step(OpEvent::RepoDirExists(true));
    let (a, _) = orch.step(OpEvent::RemoveFinished(Err("permission denied".to_string())));
    match a {
        OpAction::Failed(LifecycleError::Provision(ProvisionError::Io(m))) => {
            assert_eq!(m, "permission denied");
        },
        other => panic!("expected a filesystem failure, got {:?}", other),
    }
    let s = orch.get_status();
    assert_eq!(s.phase, Phase::Error);
    assert_eq!(s.error.as_deref(), Some("permission denied"));
}

#[test]
fn script_lines_are_relayed_while_starting() {
    let mut orch = LifecycleOrchestrator::new();
    orch.begin(Verb::Start).unwrap();
    orch.step(OpEvent::RepoDirExists(true));
    orch.step(OpEvent::RepoDirExists(true));
    orch.step(OpEvent::ScriptExited(true));
    orch.step(OpEvent::ProbeChecked(false));
    // Now in the starting phase, running the start script.
    assert!(orch.script_line("   ").is_none());
    let snap = orch.script_line("  loading model...  ").unwrap();
    assert_eq!(snap.log_line.as_deref(), Some("loading model..."));
    assert_eq!(snap.message, "loading model...");
    assert_eq!(snap.phase, Phase::Starting);
}

#[test]
fn script_lines_do_not_replace_message_outside_progress_phases() {
    let mut orch = LifecycleOrchestrator::new();
    let before = orch.get_status();
    let snap = orch.script_line("stray line").unwrap();
    assert_eq!(snap.log_line.as_deref(), Some("stray line"));
    assert_eq!(snap.message, before.message);
}
