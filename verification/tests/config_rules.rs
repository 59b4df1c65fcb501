use winky::config::{
    default_false, default_llm_model, default_mic_anchor, default_mic_hotkey,
    default_notes_storage_mode, default_speech_model, default_true, llm_mode_default,
    should_auto_start_local_speech, speech_mode_default, AppConfig,
};

#[test]
fn defaults() {
    assert_eq!(speech_mode_default(), "api");
    assert_eq!(default_speech_model(), "gpt-4o-mini-transcribe");
    assert_eq!(llm_mode_default(), "api");
    assert_eq!(default_llm_model(), "o4-mini");
    assert!(default_true());
    assert!(!default_false());
    assert_eq!(default_mic_anchor(), "bottom-right");
    assert_eq!(default_mic_hotkey(), "Alt+Q");
    assert_eq!(default_notes_storage_mode(), "api");
}

#[test]
fn default_config() {
    let c = AppConfig::default();
    assert_eq!(c.speech.mode, "api");
    assert_eq!(c.speech.model, "gpt-4o-mini-transcribe");
    assert_eq!(c.llm.model, "o4-mini");
    assert_eq!(c.mic_hotkey, "Alt+Q");
    assert_eq!(c.mic_anchor, "bottom-right");
    assert!(!c.setup_completed);
    assert!(c.mic_auto_start_recording);
    assert!(!c.auto_start_local_speech_server);
    assert_eq!(c.notes_storage_mode, "api");
}

#[test]
fn normalize_fills_blank_fields() {
    let mut c = AppConfig::default();
    c.speech.mode = "  ".to_string();
    c.speech.model = "".to_string();
    c.llm.mode = "\t".to_string();
    c.mic_anchor = " ".to_string();
    c.api_keys.openai = "   ".to_string();
    c.notes_storage_mode = "".to_string();
    c.normalize();
    assert_eq!(c.speech.mode, "api");
    assert_eq!(c.speech.model, "gpt-4o-mini-transcribe");
    assert_eq!(c.llm.mode, "api");
    assert_eq!(c.mic_anchor, "bottom-right");
    assert_eq!(c.api_keys.openai, "");
    assert_eq!(c.notes_storage_mode, "api");
}

#[test]
fn normalize_keeps_set_fields() {
    let mut c = AppConfig::default();
    c.speech.mode = "local".to_string();
    c.llm.model = "somemodel".to_string();
    c.normalize();
    assert_eq!(c.speech.mode, "local");
    assert_eq!(c.llm.model, "somemodel");
}

#[test]
fn normalize_syncs_auth_spellings() {
    let mut c = AppConfig::default();
    c.auth.access_token = "abc".to_string();
    c.auth.refresh_token = "def".to_string();
    c.normalize();
    assert_eq!(c.auth.access, "abc");
    assert_eq!(c.auth.refresh.as_deref(), Some("def"));

    let mut c = AppConfig::default();
    c.auth.access = "abc".to_string();
    c.auth.refresh = Some("def".to_string());
    c.normalize();
    assert_eq!(c.auth.access_token, "abc");
    assert_eq!(c.auth.refresh_token, "def");
}

#[test]
fn auto_start_needs_all_three_conditions() {
    let mut c = AppConfig::default();
    assert!(!should_auto_start_local_speech(&c));
    c.auto_start_local_speech_server = true;
    c.setup_completed = true;
    c.speech.mode = "local".to_string();
    assert!(should_auto_start_local_speech(&c));
    c.speech.mode = "api".to_string();
    assert!(!should_auto_start_local_speech(&c));
    c.speech.mode = "local".to_string();
    c.setup_completed = false;
    assert!(!should_auto_start_local_speech(&c));
}
