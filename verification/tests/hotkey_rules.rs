use winky::hotkeys::{plan_action_hotkeys, ActionHotkeyInput, HotkeyState, MicPlan};

fn req(id: &str, acc: &str) -> ActionHotkeyInput {
    ActionHotkeyInput { id: id.to_string(), accelerator: acc.to_string() }
}

#[test]
fn mic_plans() {
    let mut st = HotkeyState::new();
    assert!(st.mic.is_none());
    // Nothing registered, nothing requested: keep.
    assert!(matches!(st.plan_mic(None), MicPlan::Keep));
    assert!(matches!(st.plan_mic(Some("   ")), MicPlan::Keep));
    // A new accelerator replaces (and is trimmed).
    match st.plan_mic(Some(" Alt+Q ")) {
        MicPlan::Replace(a) => assert_eq!(a, "Alt+Q"),
        other => panic!("expected replace, got {:?}", other),
    }
    st.commit_mic("Alt+Q".to_string());
    // The same accelerator again is a no-op.
    assert!(matches!(st.plan_mic(Some("Alt+Q")), MicPlan::Keep));
    // A different one replaces.
    assert!(matches!(st.plan_mic(Some("Alt+W")), MicPlan::Replace(_)));
    // A blank request clears.
    assert!(matches!(st.plan_mic(None), MicPlan::Clear));
    st.clear_mic();
    assert!(st.mic.is_none());
}

#[test]
fn action_plan_dedups_and_trims() {
    let requests = vec![
        req("a", " Ctrl+1 "),
        req("b", ""),
        req("c", "Ctrl+2"),
        req("d", "Ctrl+1"),
        req("e", "   "),
    ];
    let (register, duplicates) = plan_action_hotkeys(&requests);
    let reg: Vec<(&str, &str)> =
        register.iter().map(|h| (h.id.as_str(), h.accelerator.as_str())).collect();
    assert_eq!(reg, vec![("a", "Ctrl+1"), ("c", "Ctrl+2")]);
    let dup: Vec<(&str, &str)> =
        duplicates.iter().map(|h| (h.id.as_str(), h.accelerator.as_str())).collect();
    assert_eq!(dup, vec![("d", "Ctrl+1")]);
}

#[test]
fn commit_and_take_actions() {
    let mut st = HotkeyState::new();
    st.commit_action(req("a", "Ctrl+1"));
    st.commit_action(req("b", "Ctrl+2"));
    assert_eq!(st.actions.len(), 2);
    let taken = st.take_actions();
    assert_eq!(taken.len(), 2);
    assert_eq!(taken[0].accelerator, "Ctrl+1");
    assert!(st.actions.is_empty());
}
