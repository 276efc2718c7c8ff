//! The shapes in which settings travel to and from the front end, and their
//! conversions from and to the domain models.
use vstd::prelude::*;

use crate::models::{
    DevLoggingSettings, DynamicThemeSettings, ModelSettings, RequestProxySettings,
    SettingsSnapshot, StartupUpdatePopupSettings, TauriTavernSettings, UpdateSettings,
    UserSettings,
};

verus! {

#[derive(Debug)]
pub struct StartupUpdatePopupSettingsDto {
    pub dismissed_release_token: Option<String>,
}

/// The update settings; in a patch, an absent field is left as it is.
#[derive(Debug)]
pub struct TauriTavernUpdateSettingsDto {
    pub startup_popup: StartupUpdatePopupSettingsDto,
    pub startup_check_enabled: Option<bool>,
    pub manual_check_cache_ttl_secs: Option<u32>,
}

#[derive(Debug)]
pub struct RequestProxySettingsDto {
    pub enabled: bool,
    pub url: String,
    pub bypass: Vec<String>,
}

/// A patch of the developer logging settings.
#[derive(Debug)]
pub struct DevLoggingSettingsPatchDto {
    pub frontend_console_capture: Option<bool>,
    pub llm_api_keep: Option<u32>,
}

/// A patch of the dynamic theme settings.
#[derive(Debug)]
pub struct DynamicThemeSettingsPatchDto {
    pub enabled: Option<bool>,
    pub day_theme: Option<String>,
    pub night_theme: Option<String>,
}

/// A patch of the prompt caching settings of one provider.
#[derive(Debug)]
pub struct ClaudeModelSettingsPatchDto {
    pub prompt_cache_ttl: Option<String>,
}

/// A patch of the model settings.
#[derive(Debug)]
pub struct ModelSettingsPatchDto {
    pub claude: Option<ClaudeModelSettingsPatchDto>,
}

/// A patch of the shell settings: each present field replaces the setting.
#[derive(Debug)]
pub struct UpdateTauriTavernSettingsDto {
    pub updates: Option<TauriTavernUpdateSettingsDto>,
    pub perf_profile: Option<String>,
    pub panel_runtime_profile: Option<String>,
    pub embedded_runtime_profile: Option<String>,
    pub chat_history_mode: Option<String>,
    pub close_to_tray_on_close: Option<bool>,
    pub request_proxy: Option<RequestProxySettingsDto>,
    pub allow_keys_exposure: Option<bool>,
    pub avatar_persona_original_images_enabled: Option<bool>,
    pub dev: Option<DevLoggingSettingsPatchDto>,
    pub dynamic_theme: Option<DynamicThemeSettingsPatchDto>,
    pub models: Option<ModelSettingsPatchDto>,
}

/// The shell settings as shown to the front end.
#[derive(Debug)]
pub struct TauriTavernSettingsDto {
    pub updates: TauriTavernUpdateSettingsDto,
    pub perf_profile: String,
    pub panel_runtime_profile: String,
    pub embedded_runtime_profile: String,
    pub chat_history_mode: String,
    pub close_to_tray_on_close: bool,
    pub request_proxy: RequestProxySettingsDto,
    pub allow_keys_exposure: bool,
    pub avatar_persona_original_images_enabled: bool,
    pub dev: DevLoggingSettings,
    pub dynamic_theme: DynamicThemeSettings,
    pub models: ModelSettings,
}

/// The user's SillyTavern settings as the front end sends and receives them.
#[derive(Debug)]
pub struct UserSettingsDto {
    pub data: serde_json::Value,
}

/// A settings snapshot as shown to the front end.
#[derive(Debug)]
pub struct SettingsSnapshotDto {
    pub date: i64,
    pub name: String,
    pub size: u64,
}

/// Everything the front end needs at start-up: the user's settings as JSON
/// text, the presets of every kind, and which features are on.
#[derive(Debug)]
pub struct SillyTavernSettingsResponseDto {
    pub settings: String,
    pub koboldai_settings: Vec<String>,
    pub koboldai_setting_names: Vec<String>,
    pub world_names: Vec<String>,
    pub novelai_settings: Vec<String>,
    pub novelai_setting_names: Vec<String>,
    pub openai_settings: Vec<String>,
    pub openai_setting_names: Vec<String>,
    pub textgenerationwebui_presets: Vec<String>,
    pub textgenerationwebui_preset_names: Vec<String>,
    pub themes: Vec<serde_json::Value>,
    pub moving_ui_presets: Vec<serde_json::Value>,
    pub quick_reply_presets: Vec<serde_json::Value>,
    pub instruct: Vec<serde_json::Value>,
    pub context: Vec<serde_json::Value>,
    pub sysprompt: Vec<serde_json::Value>,
    pub reasoning: Vec<serde_json::Value>,
    pub enable_extensions: bool,
    pub enable_extensions_auto_update: bool,
    pub enable_accounts: bool,
}

// ---------------------------------------------------------------------------
// Conversions
// ---------------------------------------------------------------------------

pub open spec fn proxy_settings_of(d: RequestProxySettingsDto) -> RequestProxySettings {
    RequestProxySettings { enabled: d.enabled, url: d.url, bypass: d.bypass }
}

pub open spec fn proxy_dto_of(s: RequestProxySettings) -> RequestProxySettingsDto {
    RequestProxySettingsDto { enabled: s.enabled, url: s.url, bypass: s.bypass }
}

pub open spec fn update_settings_dto_of(u: UpdateSettings) -> TauriTavernUpdateSettingsDto {
    TauriTavernUpdateSettingsDto {
        startup_popup: StartupUpdatePopupSettingsDto {
            dismissed_release_token: u.startup_popup.dismissed_release_token,
        },
        startup_check_enabled: Some(u.startup_check_enabled),
        manual_check_cache_ttl_secs: Some(u.manual_check_cache_ttl_secs),
    }
}

pub open spec fn settings_dto_of(s: TauriTavernSettings) -> TauriTavernSettingsDto {
    TauriTavernSettingsDto {
        updates: update_settings_dto_of(s.updates),
        perf_profile: s.perf_profile,
        panel_runtime_profile: s.panel_runtime_profile,
        embedded_runtime_profile: s.embedded_runtime_profile,
        chat_history_mode: s.chat_history_mode,
        close_to_tray_on_close: s.close_to_tray_on_close,
        request_proxy: proxy_dto_of(s.request_proxy),
        allow_keys_exposure: s.allow_keys_exposure,
        avatar_persona_original_images_enabled: s.avatar_persona_original_images_enabled,
        dev: s.dev,
        dynamic_theme: s.dynamic_theme,
        models: s.models,
    }
}

pub open spec fn snapshot_dto_of(s: SettingsSnapshot) -> SettingsSnapshotDto {
    SettingsSnapshotDto { date: s.date, name: s.name, size: s.size }
}

impl From<RequestProxySettingsDto> for RequestProxySettings {
    fn from(d: RequestProxySettingsDto) -> (r: RequestProxySettings) {
        RequestProxySettings { enabled: d.enabled, url: d.url, bypass: d.bypass }
    }
}

impl vstd::std_specs::convert::FromSpecImpl<RequestProxySettingsDto> for RequestProxySettings {
    open spec fn obeys_from_spec() -> bool {
        true
    }

    open spec fn from_spec(d: RequestProxySettingsDto) -> RequestProxySettings {
        proxy_settings_of(d)
    }
}

impl From<TauriTavernSettings> for TauriTavernSettingsDto {
    fn from(s: TauriTavernSettings) -> (r: TauriTavernSettingsDto) {
        let TauriTavernSettings {
            updates,
            perf_profile,
            panel_runtime_profile,
            embedded_runtime_profile,
            chat_history_mode,
            close_to_tray_on_close,
            request_proxy,
            allow_keys_exposure,
            avatar_persona_original_images_enabled,
            dev,
            dynamic_theme,
            models,
        } = s;
        TauriTavernSettingsDto {
            updates: TauriTavernUpdateSettingsDto {
                startup_popup: StartupUpdatePopupSettingsDto {
                    dismissed_release_token: updates.startup_popup.dismissed_release_token,
                },
                startup_check_enabled: Some(updates.startup_check_enabled),
                manual_check_cache_ttl_secs: Some(updates.manual_check_cache_ttl_secs),
            },
            perf_profile,
            panel_runtime_profile,
            embedded_runtime_profile,
            chat_history_mode,
            close_to_tray_on_close,
            request_proxy: RequestProxySettingsDto {
                enabled: request_proxy.enabled,
                url: request_proxy.url,
                bypass: request_proxy.bypass,
            },
            allow_keys_exposure,
            avatar_persona_original_images_enabled,
            dev,
            dynamic_theme,
            models,
        }
    }
}

impl vstd::std_specs::convert::FromSpecImpl<TauriTavernSettings> for TauriTavernSettingsDto {
    open spec fn obeys_from_spec() -> bool {
        true
    }

    open spec fn from_spec(s: TauriTavernSettings) -> TauriTavernSettingsDto {
        settings_dto_of(s)
    }
}

impl From<UserSettingsDto> for UserSettings {
    fn from(d: UserSettingsDto) -> (r: UserSettings) {
        UserSettings { data: d.data }
    }
}

impl vstd::std_specs::convert::FromSpecImpl<UserSettingsDto> for UserSettings {
    open spec fn obeys_from_spec() -> bool {
        true
    }

    open spec fn from_spec(d: UserSettingsDto) -> UserSettings {
        UserSettings { data: d.data }
    }
}

impl From<UserSettings> for UserSettingsDto {
    fn from(s: UserSettings) -> (r: UserSettingsDto) {
        UserSettingsDto { data: s.data }
    }
}

impl vstd::std_specs::convert::FromSpecImpl<UserSettings> for UserSettingsDto {
    open spec fn obeys_from_spec() -> bool {
        true
    }

    open spec fn from_spec(s: UserSettings) -> UserSettingsDto {
        UserSettingsDto { data: s.data }
    }
}

impl From<SettingsSnapshot> for SettingsSnapshotDto {
    fn from(s: SettingsSnapshot) -> (r: SettingsSnapshotDto) {
        SettingsSnapshotDto { date: s.date, name: s.name, size: s.size }
    }
}

impl vstd::std_specs::convert::FromSpecImpl<SettingsSnapshot> for SettingsSnapshotDto {
    open spec fn obeys_from_spec() -> bool {
        true
    }

    open spec fn from_spec(s: SettingsSnapshot) -> SettingsSnapshotDto {
        snapshot_dto_of(s)
    }
}

// ---------------------------------------------------------------------------
// Laws
// ---------------------------------------------------------------------------

/// The settings as shown carry each setting in the field of the same name;
/// the update settings are all present.
pub proof fn lemma_settings_dto_fields(s: TauriTavernSettings)
    ensures
        settings_dto_of(s).updates.startup_popup.dismissed_release_token
            == s.updates.startup_popup.dismissed_release_token,
        settings_dto_of(s).updates.startup_check_enabled == Some(s.updates.startup_check_enabled),
        settings_dto_of(s).updates.manual_check_cache_ttl_secs == Some(
            s.updates.manual_check_cache_ttl_secs,
        ),
        settings_dto_of(s).perf_profile == s.perf_profile,
        settings_dto_of(s).panel_runtime_profile == s.panel_runtime_profile,
        settings_dto_of(s).embedded_runtime_profile == s.embedded_runtime_profile,
        settings_dto_of(s).chat_history_mode == s.chat_history_mode,
        settings_dto_of(s).close_to_tray_on_close == s.close_to_tray_on_close,
        settings_dto_of(s).request_proxy.enabled == s.request_proxy.enabled,
        settings_dto_of(s).request_proxy.url == s.request_proxy.url,
        settings_dto_of(s).request_proxy.bypass == s.request_proxy.bypass,
        settings_dto_of(s).allow_keys_exposure == s.allow_keys_exposure,
        settings_dto_of(s).avatar_persona_original_images_enabled
            == s.avatar_persona_original_images_enabled,
        settings_dto_of(s).dev == s.dev,
        settings_dto_of(s).dynamic_theme == s.dynamic_theme,
        settings_dto_of(s).models == s.models,
{
}

/// A proxy setting sent by the front end is kept field by field.
pub proof fn lemma_proxy_fields(d: RequestProxySettingsDto)
    ensures
        proxy_settings_of(d).enabled == d.enabled,
        proxy_settings_of(d).url == d.url,
        proxy_settings_of(d).bypass == d.bypass,
        proxy_dto_of(proxy_settings_of(d)) == d,
{
}

/// A snapshot as shown carries its date, name and size unchanged.
pub proof fn lemma_snapshot_dto_fields(s: SettingsSnapshot)
    ensures
        snapshot_dto_of(s).date == s.date,
        snapshot_dto_of(s).name == s.name,
        snapshot_dto_of(s).size == s.size,
{
}

} // verus!
