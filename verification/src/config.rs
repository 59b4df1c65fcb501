//! Application configuration: the plain settings the verified logic reads,
//! their defaults, and normalization of freshly loaded values.
//!
//! Loading, merging and persisting the configuration file is I/O and stays
//! outside the library; this module owns the rules: which values count as
//! defaults, and how a loaded record is normalized (blank fields fall back
//! to their defaults, and the two spellings of the auth token fields are
//! kept in sync).

use vstd::prelude::*;

use crate::text::{is_blank, str_is_empty, trimmed};

verus! {

/// Authentication tokens, carrying both field spellings found in stored
/// configurations; [`AppConfig::normalize`] keeps the pairs in sync.
#[derive(Debug)]
pub struct AuthTokens {
    pub access: String,
    pub refresh: Option<String>,
    pub access_token: String,
    pub refresh_token: String,
}

/// Speech-to-text settings.
#[derive(Debug)]
pub struct SpeechConfig {
    pub mode: String,
    pub model: String,
}

/// Chat-completion settings.
#[derive(Debug)]
pub struct LlmConfig {
    pub mode: String,
    pub model: String,
}

/// Per-provider API keys.
#[derive(Debug)]
pub struct ApiKeys {
    pub openai: String,
    pub google: String,
}

/// The default speech mode.
pub fn speech_mode_default() -> (r: String)
    ensures
        r@ == "api"@,
{
    String::from_str("api")
}

/// The default speech-to-text model.
pub fn default_speech_model() -> (r: String)
    ensures
        r@ == "gpt-4o-mini-transcribe"@,
{
    String::from_str("gpt-4o-mini-transcribe")
}

/// The default chat-completion mode.
pub fn llm_mode_default() -> (r: String)
    ensures
        r@ == "api"@,
{
    String::from_str("api")
}

/// The default chat-completion model.
pub fn default_llm_model() -> (r: String)
    ensures
        r@ == "o4-mini"@,
{
    String::from_str("o4-mini")
}

/// The default of settings that are on unless switched off.
pub fn default_true() -> (r: bool)
    ensures
        r,
{
    true
}

/// The default of settings that are off unless switched on.
pub fn default_false() -> (r: bool)
    ensures
        !r,
{
    false
}

/// The default anchor corner of the microphone window.
pub fn default_mic_anchor() -> (r: String)
    ensures
        r@ == "bottom-right"@,
{
    String::from_str("bottom-right")
}

/// The default microphone hotkey.
pub fn default_mic_hotkey() -> (r: String)
    ensures
        r@ == "Alt+Q"@,
{
    String::from_str("Alt+Q")
}

/// The default storage mode for notes.
pub fn default_notes_storage_mode() -> (r: String)
    ensures
        r@ == "api"@,
{
    String::from_str("api")
}

impl Default for AuthTokens {
    /// Empty tokens.
    fn default() -> (r: AuthTokens)
        ensures
            r.access@.len() == 0,
            r.refresh is None,
            r.access_token@.len() == 0,
            r.refresh_token@.len() == 0,
    {
        AuthTokens {
            access: String::new(),
            refresh: None,
            access_token: String::new(),
            refresh_token: String::new(),
        }
    }
}

impl Default for SpeechConfig {
    fn default() -> (r: SpeechConfig)
        ensures
            r.mode@ == "api"@,
            r.model@ == "gpt-4o-mini-transcribe"@,
    {
        SpeechConfig { mode: speech_mode_default(), model: default_speech_model() }
    }
}

impl Default for LlmConfig {
    fn default() -> (r: LlmConfig)
        ensures
            r.mode@ == "api"@,
            r.model@ == "o4-mini"@,
    {
        LlmConfig { mode: llm_mode_default(), model: default_llm_model() }
    }
}

impl Default for ApiKeys {
    fn default() -> (r: ApiKeys)
        ensures
            r.openai@.len() == 0,
            r.google@.len() == 0,
    {
        ApiKeys { openai: String::new(), google: String::new() }
    }
}

/// The application settings the lifecycle and hotkey logic reads.
#[derive(Debug)]
pub struct AppConfig {
    pub auth: AuthTokens,
    pub setup_completed: bool,
    pub speech: SpeechConfig,
    pub llm: LlmConfig,
    pub api_keys: ApiKeys,
    pub mic_hotkey: String,
    pub mic_anchor: String,
    pub mic_auto_start_recording: bool,
    pub mic_hide_on_stop_recording: bool,
    pub mic_show_on_launch: bool,
    pub launch_on_system_startup: bool,
    pub auto_start_local_speech_server: bool,
    pub completion_sound_enabled: bool,
    pub show_avatar_video: bool,
    pub notes_storage_mode: String,
}

impl Default for AppConfig {
    fn default() -> (r: AppConfig)
        ensures
            r.auth.access@.len() == 0,
            r.auth.refresh is None,
            r.auth.access_token@.len() == 0,
            r.auth.refresh_token@.len() == 0,
            !r.setup_completed,
            r.speech.mode@ == "api"@,
            r.speech.model@ == "gpt-4o-mini-transcribe"@,
            r.llm.mode@ == "api"@,
            r.llm.model@ == "o4-mini"@,
            r.api_keys.openai@.len() == 0,
            r.api_keys.google@.len() == 0,
            r.mic_hotkey@ == "Alt+Q"@,
            r.mic_anchor@ == "bottom-right"@,
            r.mic_auto_start_recording,
            r.mic_hide_on_stop_recording,
            !r.mic_show_on_launch,
            !r.launch_on_system_startup,
            !r.auto_start_local_speech_server,
            r.completion_sound_enabled,
            r.show_avatar_video,
            r.notes_storage_mode@ == "api"@,
    {
        AppConfig {
            auth: AuthTokens::default(),
            setup_completed: false,
            speech: SpeechConfig::default(),
            llm: LlmConfig::default(),
            api_keys: ApiKeys::default(),
            mic_hotkey: default_mic_hotkey(),
            mic_anchor: default_mic_anchor(),
            mic_auto_start_recording: default_true(),
            mic_hide_on_stop_recording: default_true(),
            mic_show_on_launch: default_false(),
            launch_on_system_startup: false,
            auto_start_local_speech_server: false,
            completion_sound_enabled: default_true(),
            show_avatar_video: default_true(),
            notes_storage_mode: default_notes_storage_mode(),
        }
    }
}

/// `s`, or the default `d` if `s` is blank.
pub open spec fn or_default(s: Seq<char>, d: Seq<char>) -> Seq<char> {
    if trimmed(s).len() == 0 {
        d
    } else {
        s
    }
}

impl AppConfig {
    /// Normalizes a freshly loaded configuration: blank text fields fall
    /// back to their defaults, blank API keys become empty, and the two
    /// spellings of each auth token field are synchronized (each side fills
    /// the other when exactly one is set).
    #[verifier::rlimit(60)]
    pub fn normalize(&mut self)
        ensures
            final(self).speech.mode@ == or_default(old(self).speech.mode@, "api"@),
            final(self).speech.model@ == or_default(
                old(self).speech.model@,
                "gpt-4o-mini-transcribe"@,
            ),
            final(self).llm.mode@ == or_default(old(self).llm.mode@, "api"@),
            final(self).llm.model@ == or_default(old(self).llm.model@, "o4-mini"@),
            final(self).mic_anchor@ == or_default(old(self).mic_anchor@, "bottom-right"@),
            final(self).api_keys.openai@ == or_default(old(self).api_keys.openai@, Seq::empty()),
            final(self).api_keys.google@ == or_default(old(self).api_keys.google@, Seq::empty()),
            final(self).notes_storage_mode@ == or_default(old(self).notes_storage_mode@, "api"@),
            final(self).auth.access@ == if old(self).auth.access@.len() == 0 {
                old(self).auth.access_token@
            } else {
                old(self).auth.access@
            },
            final(self).auth.access_token@ == if old(self).auth.access_token@.len() == 0 {
                final(self).auth.access@
            } else {
                old(self).auth.access_token@
            },
            final(self).auth.refresh == if old(self).auth.refresh is None && old(
                self,
            ).auth.refresh_token@.len() > 0 {
                Option::Some(old(self).auth.refresh_token)
            } else {
                old(self).auth.refresh
            },
            old(self).auth.refresh_token@.len() == 0 ==> (match final(self).auth.refresh {
                Option::Some(rf) => final(self).auth.refresh_token@ == rf@,
                Option::None => final(self).auth.refresh_token@.len() == 0,
            }),
            old(self).auth.refresh_token@.len() > 0 ==> final(self).auth.refresh_token == old(
                self,
            ).auth.refresh_token,
            final(self).setup_completed == old(self).setup_completed,
            final(self).mic_hotkey == old(self).mic_hotkey,
            final(self).mic_auto_start_recording == old(self).mic_auto_start_recording,
            final(self).mic_hide_on_stop_recording == old(self).mic_hide_on_stop_recording,
            final(self).mic_show_on_launch == old(self).mic_show_on_launch,
            final(self).launch_on_system_startup == old(self).launch_on_system_startup,
            final(self).auto_start_local_speech_server == old(
                self,
            ).auto_start_local_speech_server,
            final(self).completion_sound_enabled == old(self).completion_sound_enabled,
            final(self).show_avatar_video == old(self).show_avatar_video,
    {
        if is_blank(self.speech.mode.as_str()) {
            self.speech.mode = speech_mode_default();
        }
        if is_blank(self.speech.model.as_str()) {
            self.speech.model = default_speech_model();
        }
        if is_blank(self.llm.mode.as_str()) {
            self.llm.mode = llm_mode_default();
        }
        if is_blank(self.llm.model.as_str()) {
            self.llm.model = default_llm_model();
        }
        if is_blank(self.mic_anchor.as_str()) {
            self.mic_anchor = default_mic_anchor();
        }
        if is_blank(self.api_keys.openai.as_str()) {
            self.api_keys.openai = String::new();
        }
        if is_blank(self.api_keys.google.as_str()) {
            self.api_keys.google = String::new();
        }
        if is_blank(self.notes_storage_mode.as_str()) {
            self.notes_storage_mode = default_notes_storage_mode();
        }
        if str_is_empty(&self.auth.access) && !str_is_empty(&self.auth.access_token) {
            self.auth.access = self.auth.access_token.clone();
        }
        if str_is_empty(&self.auth.access_token) && !str_is_empty(&self.auth.access) {
            self.auth.access_token = self.auth.access.clone();
        }
        if self.auth.refresh.is_none() && !str_is_empty(&self.auth.refresh_token) {
            self.auth.refresh = Some(self.auth.refresh_token.clone());
        }
        if str_is_empty(&self.auth.refresh_token) {
            if let Some(refresh) = &self.auth.refresh {
                self.auth.refresh_token = refresh.clone();
            }
        }
    }
}

/// Whether the local speech server should be started automatically at
/// launch: only when the user enabled it, setup is complete, and speech
/// runs in local mode.
pub fn should_auto_start_local_speech(config: &AppConfig) -> (r: bool)
    ensures
        r == (config.auto_start_local_speech_server && config.setup_completed
            && config.speech.mode@ == "local"@),
{
    let local = String::from_str("local");
    config.auto_start_local_speech_server && config.setup_completed && config.speech.mode.eq(
        &local,
    )
}

} // verus!
