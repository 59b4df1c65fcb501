use winky::history::{
    append_history, insert_history, resolve_audio_extension, ActionHistoryEntry,
    ActionHistoryInput,
};

fn input(name: &str) -> ActionHistoryInput {
    ActionHistoryInput {
        action_id: "a1".to_string(),
        action_name: name.to_string(),
        action_prompt: Some("p".to_string()),
        transcription: "t".to_string(),
        llm_response: None,
        result_text: "r".to_string(),
        audio_path: Some("x.webm".to_string()),
    }
}

#[test]
fn audio_extension_by_mime() {
    assert_eq!(resolve_audio_extension(Some("audio/wav")), "wav");
    assert_eq!(resolve_audio_extension(Some("Audio/WAV;codecs=1")), "wav");
    assert_eq!(resolve_audio_extension(Some("audio/ogg")), "ogg");
    assert_eq!(resolve_audio_extension(Some("audio/mp3")), "mp3");
    assert_eq!(resolve_audio_extension(Some("audio/FLAC")), "flac");
    assert_eq!(resolve_audio_extension(Some("audio/aac")), "aac");
    assert_eq!(resolve_audio_extension(Some("audio/webm")), "webm");
    // Unknown types and no type fall back to webm.
    assert_eq!(resolve_audio_extension(Some("audio/mpeg")), "webm");
    assert_eq!(resolve_audio_extension(None), "webm");
}

#[test]
fn insert_prepends_entry() {
    let mut entries: Vec<ActionHistoryEntry> = Vec::new();
    let e1 = insert_history(&mut entries, input("one"), "id1".to_string(), "t1".to_string());
    let e2 = insert_history(&mut entries, input("two"), "id2".to_string(), "t2".to_string());
    assert_eq!(e1.id, "id1");
    assert_eq!(e2.created_at, "t2");
    assert_eq!(entries.len(), 2);
    assert_eq!(entries[0].action_name, "two");
    assert_eq!(entries[1].action_name, "one");
}

#[test]
fn append_draws_fresh_id() {
    let mut entries: Vec<ActionHistoryEntry> = Vec::new();
    let e = append_history(&mut entries, input("spoken"));
    assert_eq!(e.id.len(), 36);
    assert_eq!(e.action_name, "spoken");
    assert_eq!(e.audio_path.as_deref(), Some("x.webm"));
    assert_eq!(entries.len(), 1);
}
