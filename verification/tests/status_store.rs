use winky::status::{FastWhisperStatus, Phase, StatusStore, StatusUpdate};

#[test]
fn fresh_record_fields() {
    let s = FastWhisperStatus::new("hello");
    assert!(!s.installed);
    assert!(!s.running);
    assert_eq!(s.phase, Phase::NotInstalled);
    assert_eq!(s.message, "hello");
    assert_eq!(s.error, None);
    assert_eq!(s.last_action, None);
    assert_eq!(s.last_success_at, None);
    assert_eq!(s.log_line, None);
    assert_eq!(s.install_dir, None);
}

#[test]
fn snapshot_equals_original() {
    let s = FastWhisperStatus::new("copy me");
    let c = s.snapshot();
    assert_eq!(c.message, s.message);
    assert_eq!(c.phase, s.phase);
    assert_eq!(c.updated_at, s.updated_at);
}

#[test]
fn timestamps_strictly_increase() {
    let mut store = StatusStore::new(FastWhisperStatus::new("init"));
    let t0 = store.read().updated_at;
    let s1 = store.apply(StatusUpdate::LogLine { line: "one".to_string() });
    let s2 = store.apply(StatusUpdate::LogLine { line: "two".to_string() });
    assert!(s1.updated_at > t0);
    assert!(s2.updated_at > s1.updated_at);
}

#[test]
fn log_line_outside_progress_phases_keeps_message() {
    let mut store = StatusStore::new(FastWhisperStatus::new("init"));
    let snap = store.apply(StatusUpdate::LogLine { line: "noise".to_string() });
    assert_eq!(snap.log_line.as_deref(), Some("noise"));
    assert_eq!(snap.message, "init");
}

#[test]
fn begin_install_publishes_progress() {
    let mut store = StatusStore::new(FastWhisperStatus::new("init"));
    let snap = store.apply(StatusUpdate::BeginInstall);
    assert_eq!(snap.phase, Phase::Installing);
    assert_eq!(snap.message, "Cloning repository...");
    assert!(!snap.installed);
    // While installing, script output becomes the message.
    let snap = store.apply(StatusUpdate::LogLine { line: "cloning 42%".to_string() });
    assert_eq!(snap.message, "cloning 42%");
    assert_eq!(snap.log_line.as_deref(), Some("cloning 42%"));
}
