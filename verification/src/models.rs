//! Domain models: releases, update-check results and the settings that the
//! services read and write.
use vstd::prelude::*;

verus! {

/// A JSON document held by the settings store. It is carried through the
/// library as is; nothing here looks inside it.
#[verifier::external_type_specification]
#[verifier::external_body]
pub struct ExJsonValue(serde_json::Value);

/// A published release of the application.
#[derive(Debug)]
pub struct ReleaseInfo {
    pub tag_name: String,
    /// The version number read from `tag_name`.
    pub version: String,
    pub name: String,
    pub body: String,
    pub html_url: String,
    pub prerelease: bool,
    pub published_at: String,
}

impl Clone for ReleaseInfo {
    fn clone(&self) -> (r: Self)
        ensures
            r == *self,
    {
        ReleaseInfo {
            tag_name: self.tag_name.clone(),
            version: self.version.clone(),
            name: self.name.clone(),
            body: self.body.clone(),
            html_url: self.html_url.clone(),
            prerelease: self.prerelease,
            published_at: self.published_at.clone(),
        }
    }
}

/// The answer to an update check.
#[derive(Debug)]
pub struct UpdateCheckResult {
    /// The latest release is newer than the running version.
    pub has_update: bool,
    /// The running version.
    pub current_version: String,
    /// The latest release, present exactly when it is newer.
    pub latest_release: Option<ReleaseInfo>,
}

/// The state of the update pop-up shown at start-up.
#[derive(Debug, Clone)]
pub struct StartupUpdatePopupSettings {
    /// The release whose pop-up the user dismissed.
    pub dismissed_release_token: Option<String>,
}

/// How the application looks for updates.
#[derive(Debug, Clone)]
pub struct UpdateSettings {
    pub startup_popup: StartupUpdatePopupSettings,
    /// Check for an update when the application starts.
    pub startup_check_enabled: bool,
    /// How long, in seconds, the answer of a manual check is reused; 0 turns
    /// the reuse off.
    pub manual_check_cache_ttl_secs: u32,
}

/// Outgoing requests through a proxy.
#[derive(Debug, Clone)]
pub struct RequestProxySettings {
    pub enabled: bool,
    pub url: String,
    /// Hosts that are reached without the proxy.
    pub bypass: Vec<String>,
}

/// Developer logging.
#[derive(Debug, Clone)]
pub struct DevLoggingSettings {
    /// Capture the console of the front end.
    pub frontend_console_capture: bool,
    /// How many LLM API exchanges are kept in the log.
    pub llm_api_keep: u32,
}

/// Whether `llm_api_keep` is an acceptable number of kept exchanges.
pub open spec fn valid_llm_api_keep(keep: u32) -> bool {
    keep > 0
}

impl DevLoggingSettings {
    /// A number of kept exchanges must be positive.
    pub fn is_valid_llm_api_keep(keep: u32) -> (r: bool)
        ensures
            r == valid_llm_api_keep(keep),
    {
        keep > 0
    }
}

/// A theme for the day and one for the night, switched automatically.
#[derive(Debug, Clone)]
pub struct DynamicThemeSettings {
    pub enabled: bool,
    pub day_theme: String,
    pub night_theme: String,
}

/// Prompt caching settings of one provider.
#[derive(Debug, Clone)]
pub struct ClaudeModelSettings {
    /// The lifetime asked for cached prompts.
    pub prompt_cache_ttl: String,
}

/// Settings per model family.
#[derive(Debug, Clone)]
pub struct ModelSettings {
    pub claude: ClaudeModelSettings,
}

/// The settings of the desktop shell itself.
#[derive(Debug, Clone)]
pub struct TauriTavernSettings {
    pub updates: UpdateSettings,
    pub perf_profile: String,
    pub panel_runtime_profile: String,
    pub embedded_runtime_profile: String,
    pub chat_history_mode: String,
    pub close_to_tray_on_close: bool,
    pub request_proxy: RequestProxySettings,
    pub allow_keys_exposure: bool,
    pub avatar_persona_original_images_enabled: bool,
    pub dev: DevLoggingSettings,
    pub dynamic_theme: DynamicThemeSettings,
    pub models: ModelSettings,
}

/// The user's SillyTavern settings, or one preset, as a JSON document.
#[derive(Debug)]
pub struct UserSettings {
    pub data: serde_json::Value,
}

/// A saved copy of the user's settings.
#[derive(Debug, Clone)]
pub struct SettingsSnapshot {
    /// When the copy was made, in milliseconds since the Unix epoch.
    pub date: i64,
    pub name: String,
    /// Its size in bytes.
    pub size: u64,
}

} // verus!
