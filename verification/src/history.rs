//! Action history: the entry type, the audio file-extension rules, and
//! appending new entries.
//!
//! Reading and writing the history file is I/O and stays outside the
//! library; the functions here work on the list of entries itself.

use vstd::prelude::*;

use crate::text::ci_contains;

verus! {

/// One recorded action: what was said, what the model answered, and where
/// the audio went.
#[derive(Debug)]
pub struct ActionHistoryEntry {
    pub id: String,
    pub created_at: String,
    pub action_id: String,
    pub action_name: String,
    pub action_prompt: Option<String>,
    pub transcription: String,
    pub llm_response: Option<String>,
    pub result_text: String,
    pub audio_path: Option<String>,
}

/// Input for recording one action.
#[derive(Debug)]
pub struct ActionHistoryInput {
    pub action_id: String,
    pub action_name: String,
    pub action_prompt: Option<String>,
    pub transcription: String,
    pub llm_response: Option<String>,
    pub result_text: String,
    pub audio_path: Option<String>,
}

/// The audio file extension chosen for a MIME type: the first known codec
/// name found in it (case-insensitively), with `webm` as the fallback.
pub open spec fn audio_ext_spec(mime: Seq<char>) -> Seq<char> {
    if ci_contains(mime, "wav"@) {
        "wav"@
    } else if ci_contains(mime, "ogg"@) {
        "ogg"@
    } else if ci_contains(mime, "mp3"@) {
        "mp3"@
    } else if ci_contains(mime, "flac"@) {
        "flac"@
    } else if ci_contains(mime, "aac"@) {
        "aac"@
    } else if ci_contains(mime, "webm"@) {
        "webm"@
    } else {
        "webm"@
    }
}

/// Chooses the audio file extension for a recording's MIME type.
pub fn resolve_audio_extension(mime_type: Option<&str>) -> (r: String)
    ensures
        r@ == audio_ext_spec(
            match mime_type {
                Option::Some(m) => m@,
                Option::None => Seq::<char>::empty(),
            },
        ),
{
    let mime = match mime_type {
        Some(m) => m,
        None => "",
    };
    proof {
        if mime_type is None {
            reveal_strlit("");
            assert(mime@ =~= Seq::<char>::empty());
        }
    }
    if crate::text::contains_lower(mime, "wav") {
        String::from_str("wav")
    } else if crate::text::contains_lower(mime, "ogg") {
        String::from_str("ogg")
    } else if crate::text::contains_lower(mime, "mp3") {
        String::from_str("mp3")
    } else if crate::text::contains_lower(mime, "flac") {
        String::from_str("flac")
    } else if crate::text::contains_lower(mime, "aac") {
        String::from_str("aac")
    } else {
        String::from_str("webm")
    }
}

/// Prepends a freshly recorded entry with the given fresh id and
/// timestamp; newest entries come first.
pub fn insert_history(
    entries: &mut Vec<ActionHistoryEntry>,
    payload: ActionHistoryInput,
    id: String,
    now: String,
) -> (entry: ActionHistoryEntry)
    ensures
        final(entries)@ == seq![entry].add(old(entries)@),
        entry.id == id,
        entry.created_at == now,
        entry.action_id == payload.action_id,
        entry.action_name == payload.action_name,
        entry.action_prompt == payload.action_prompt,
        entry.transcription == payload.transcription,
        entry.llm_response == payload.llm_response,
        entry.result_text == payload.result_text,
        entry.audio_path == payload.audio_path,
{
    let entry = ActionHistoryEntry {
        id,
        created_at: now,
        action_id: payload.action_id,
        action_name: payload.action_name,
        action_prompt: payload.action_prompt,
        transcription: payload.transcription,
        llm_response: payload.llm_response,
        result_text: payload.result_text,
        audio_path: payload.audio_path,
    };
    let result = duplicate_entry(&entry);
    entries.insert(0, entry);
    proof {
        assert(final(entries)@ =~= seq![result].add(old(entries)@));
    }
    result
}

/// A copy of an entry whose value is known to equal the original.
fn duplicate_entry(e: &ActionHistoryEntry) -> (r: ActionHistoryEntry)
    ensures
        r == *e,
{
    ActionHistoryEntry {
        id: e.id.clone(),
        created_at: e.created_at.clone(),
        action_id: e.action_id.clone(),
        action_name: e.action_name.clone(),
        action_prompt: crate::status::clone_opt_string(&e.action_prompt),
        transcription: e.transcription.clone(),
        llm_response: crate::status::clone_opt_string(&e.llm_response),
        result_text: e.result_text.clone(),
        audio_path: crate::status::clone_opt_string(&e.audio_path),
    }
}

/// Records one action at the front of the history, with a fresh identifier
/// and the current time.
pub fn append_history(entries: &mut Vec<ActionHistoryEntry>, payload: ActionHistoryInput) -> (
    entry: ActionHistoryEntry)
    ensures
        final(entries)@ == seq![entry].add(old(entries)@),
        entry.action_id == payload.action_id,
        entry.action_name == payload.action_name,
        entry.action_prompt == payload.action_prompt,
        entry.transcription == payload.transcription,
        entry.llm_response == payload.llm_response,
        entry.result_text == payload.result_text,
        entry.audio_path == payload.audio_path,
{
    let id = crate::ids::new_uuid_string();
    let now = crate::clock::now_rfc3339();
    insert_history(entries, payload, id, now)
}

} // verus!
