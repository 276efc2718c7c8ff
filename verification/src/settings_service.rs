//! The settings service: patching the shell settings, and assembling what
//! the front end loads at start-up.
use vstd::prelude::*;
use vstd::string::StringExecFns;

use crate::errors::ApplicationError;
use crate::models::{
    ClaudeModelSettings, DevLoggingSettings, DynamicThemeSettings, ModelSettings,
    RequestProxySettings, SettingsSnapshot, StartupUpdatePopupSettings, TauriTavernSettings,
    UpdateSettings, UserSettings, valid_llm_api_keep,
};
use crate::settings_dto::{
    DevLoggingSettingsPatchDto, DynamicThemeSettingsPatchDto, ModelSettingsPatchDto,
    RequestProxySettingsDto, SettingsSnapshotDto, SillyTavernSettingsResponseDto,
    TauriTavernUpdateSettingsDto, UpdateTauriTavernSettingsDto, proxy_settings_of,
    snapshot_dto_of,
};
use crate::text::{blank, is_blank};

verus! {

/// Serves and stores the user's settings through a settings repository.
pub struct SettingsService<R> {
    settings_repository: R,
}

impl<R> SettingsService<R> {
    pub closed spec fn spec_settings_repository(&self) -> R {
        self.settings_repository
    }

    pub fn new(settings_repository: R) -> (s: Self)
        ensures
            s.spec_settings_repository() == settings_repository,
    {
        SettingsService { settings_repository }
    }

    /// The repository the service reads and writes.
    pub fn settings_repository(&self) -> (r: &R)
        ensures
            *r == self.spec_settings_repository(),
    {
        &self.settings_repository
    }
}

// ---------------------------------------------------------------------------
// Patching the shell settings
// ---------------------------------------------------------------------------

/// `patch` where it is present, else `current`.
pub open spec fn or_keep<T>(current: T, patch: Option<T>) -> T {
    match patch {
        Some(v) => v,
        None => current,
    }
}

/// The update settings after a patch. A present patch always replaces the
/// dismissed release token, even with nothing.
pub open spec fn patched_updates(u: UpdateSettings, p: Option<TauriTavernUpdateSettingsDto>) -> UpdateSettings {
    match p {
        Some(p) => UpdateSettings {
            startup_popup: StartupUpdatePopupSettings {
                dismissed_release_token: p.startup_popup.dismissed_release_token,
            },
            startup_check_enabled: or_keep(u.startup_check_enabled, p.startup_check_enabled),
            manual_check_cache_ttl_secs: or_keep(
                u.manual_check_cache_ttl_secs,
                p.manual_check_cache_ttl_secs,
            ),
        },
        None => u,
    }
}

pub open spec fn patched_request_proxy(
    current: RequestProxySettings,
    p: Option<RequestProxySettingsDto>,
) -> RequestProxySettings {
    match p {
        Some(d) => proxy_settings_of(d),
        None => current,
    }
}

pub open spec fn patched_dev(current: DevLoggingSettings, p: Option<DevLoggingSettingsPatchDto>) -> DevLoggingSettings {
    match p {
        Some(d) => DevLoggingSettings {
            frontend_console_capture: or_keep(
                current.frontend_console_capture,
                d.frontend_console_capture,
            ),
            llm_api_keep: or_keep(current.llm_api_keep, d.llm_api_keep),
        },
        None => current,
    }
}

pub open spec fn patched_dynamic_theme(
    current: DynamicThemeSettings,
    p: Option<DynamicThemeSettingsPatchDto>,
) -> DynamicThemeSettings {
    match p {
        Some(d) => DynamicThemeSettings {
            enabled: or_keep(current.enabled, d.enabled),
            day_theme: or_keep(current.day_theme, d.day_theme),
            night_theme: or_keep(current.night_theme, d.night_theme),
        },
        None => current,
    }
}

pub open spec fn patched_models(current: ModelSettings, p: Option<ModelSettingsPatchDto>) -> ModelSettings {
    match p {
        Some(m) => match m.claude {
            Some(c) => ModelSettings {
                claude: ClaudeModelSettings {
                    prompt_cache_ttl: or_keep(current.claude.prompt_cache_ttl, c.prompt_cache_ttl),
                },
            },
            None => current,
        },
        None => current,
    }
}

/// The settings after `dto` is applied to `s`.
pub open spec fn patched_settings(s: TauriTavernSettings, dto: UpdateTauriTavernSettingsDto) -> TauriTavernSettings {
    TauriTavernSettings {
        updates: patched_updates(s.updates, dto.updates),
        perf_profile: or_keep(s.perf_profile, dto.perf_profile),
        panel_runtime_profile: or_keep(s.panel_runtime_profile, dto.panel_runtime_profile),
        embedded_runtime_profile: or_keep(s.embedded_runtime_profile, dto.embedded_runtime_profile),
        chat_history_mode: or_keep(s.chat_history_mode, dto.chat_history_mode),
        close_to_tray_on_close: or_keep(s.close_to_tray_on_close, dto.close_to_tray_on_close),
        request_proxy: patched_request_proxy(s.request_proxy, dto.request_proxy),
        allow_keys_exposure: or_keep(s.allow_keys_exposure, dto.allow_keys_exposure),
        avatar_persona_original_images_enabled: or_keep(
            s.avatar_persona_original_images_enabled,
            dto.avatar_persona_original_images_enabled,
        ),
        dev: patched_dev(s.dev, dto.dev),
        dynamic_theme: patched_dynamic_theme(s.dynamic_theme, dto.dynamic_theme),
        models: patched_models(s.models, dto.models),
    }
}

/// The patch sets a number of kept LLM API exchanges that is not valid.
pub open spec fn rejects_llm_api_keep(dto: UpdateTauriTavernSettingsDto) -> bool {
    match dto.dev {
        Some(d) => match d.llm_api_keep {
            Some(k) => !valid_llm_api_keep(k),
            None => false,
        },
        None => false,
    }
}

/// The validation message for a patch that is refused, if it is refused.
/// The dynamic theme is checked only where the patch touches it; it must
/// then name a day theme and a night theme if it is on.
pub open spec fn patch_rejection(s: TauriTavernSettings, dto: UpdateTauriTavernSettingsDto) -> Option<Seq<char>> {
    let theme = patched_dynamic_theme(s.dynamic_theme, dto.dynamic_theme);
    if rejects_llm_api_keep(dto) {
        Some("LLM API keep must be a positive number"@)
    } else if dto.dynamic_theme is Some && theme.enabled && is_blank(theme.day_theme@) {
        Some("Dynamic theme day theme is required"@)
    } else if dto.dynamic_theme is Some && theme.enabled && is_blank(theme.night_theme@) {
        Some("Dynamic theme night theme is required"@)
    } else {
        None
    }
}

/// Whether `r` is the validation error with message `m`.
pub open spec fn is_validation_error_with(r: ApplicationError, m: Seq<char>) -> bool {
    match r {
        ApplicationError::ValidationError(message) => message@ == m,
        _ => false,
    }
}

fn validation_error(message: &str) -> (r: ApplicationError)
    ensures
        is_validation_error_with(r, message@),
{
    ApplicationError::ValidationError(message.to_owned())
}

fn patch_updates(u: UpdateSettings, p: Option<TauriTavernUpdateSettingsDto>) -> (r: UpdateSettings)
    ensures
        r == patched_updates(u, p),
{
    match p {
        Some(p) => {
            let mut u = u;
            u.startup_popup.dismissed_release_token = p.startup_popup.dismissed_release_token;
            if let Some(startup_check_enabled) = p.startup_check_enabled {
                u.startup_check_enabled = startup_check_enabled;
            }
            if let Some(manual_check_cache_ttl_secs) = p.manual_check_cache_ttl_secs {
                u.manual_check_cache_ttl_secs = manual_check_cache_ttl_secs;
            }
            u
        },
        None => u,
    }
}

fn keep_or_replace<T>(current: T, patch: Option<T>) -> (r: T)
    ensures
        r == or_keep(current, patch),
{
    match patch {
        Some(v) => v,
        None => current,
    }
}

fn patch_request_proxy(current: RequestProxySettings, p: Option<RequestProxySettingsDto>) -> (r:
    RequestProxySettings)
    ensures
        r == patched_request_proxy(current, p),
{
    match p {
        Some(d) => d.into(),
        None => current,
    }
}

fn patch_dev(current: DevLoggingSettings, p: Option<DevLoggingSettingsPatchDto>) -> (r: Result<
    DevLoggingSettings,
    ApplicationError,
>)
    ensures
        match p {
            Some(d) if d.llm_api_keep matches Some(k) && !valid_llm_api_keep(k) => r matches Err(
                e,
            ) && is_validation_error_with(e, "LLM API keep must be a positive number"@),
            _ => r == Ok::<DevLoggingSettings, ApplicationError>(patched_dev(current, p)),
        },
{
    match p {
        Some(dev) => {
            let mut d = current;
            if let Some(frontend_console_capture) = dev.frontend_console_capture {
                d.frontend_console_capture = frontend_console_capture;
            }
            if let Some(llm_api_keep) = dev.llm_api_keep {
                if !DevLoggingSettings::is_valid_llm_api_keep(llm_api_keep) {
                    return Err(validation_error("LLM API keep must be a positive number"));
                }
                d.llm_api_keep = llm_api_keep;
            }
            Ok(d)
        },
        None => Ok(current),
    }
}

fn patch_dynamic_theme(current: DynamicThemeSettings, p: Option<DynamicThemeSettingsPatchDto>) -> (r:
    Result<DynamicThemeSettings, ApplicationError>)
    ensures
        ({
            let theme = patched_dynamic_theme(current, p);
            if p is Some && theme.enabled && is_blank(theme.day_theme@) {
                r matches Err(e) && is_validation_error_with(
                    e,
                    "Dynamic theme day theme is required"@,
                )
            } else if p is Some && theme.enabled && is_blank(theme.night_theme@) {
                r matches Err(e) && is_validation_error_with(
                    e,
                    "Dynamic theme night theme is required"@,
                )
            } else {
                r == Ok::<DynamicThemeSettings, ApplicationError>(theme)
            }
        }),
{
    match p {
        Some(patch) => {
            let mut t = current;
            if let Some(enabled) = patch.enabled {
                t.enabled = enabled;
            }
            if let Some(day_theme) = patch.day_theme {
                t.day_theme = day_theme;
            }
            if let Some(night_theme) = patch.night_theme {
                t.night_theme = night_theme;
            }
            if t.enabled {
                if blank(t.day_theme.as_str()) {
                    return Err(validation_error("Dynamic theme day theme is required"));
                }
                if blank(t.night_theme.as_str()) {
                    return Err(validation_error("Dynamic theme night theme is required"));
                }
            }
            Ok(t)
        },
        None => Ok(current),
    }
}

fn patch_models(current: ModelSettings, p: Option<ModelSettingsPatchDto>) -> (r: ModelSettings)
    ensures
        r == patched_models(current, p),
{
    match p {
        Some(models) => match models.claude {
            Some(claude) => match claude.prompt_cache_ttl {
                Some(prompt_cache_ttl) => ModelSettings {
                    claude: ClaudeModelSettings { prompt_cache_ttl },
                },
                None => current,
            },
            None => current,
        },
        None => current,
    }
}

/// Applies the patch `dto` to the settings `settings`: every field the patch
/// carries replaces the setting, and the rest is kept. A patch is refused,
/// with a validation error, where it sets a number of kept LLM API exchanges
/// that is not positive, or where it touches the dynamic theme and leaves it
/// on without a day theme or without a night theme.
pub fn apply_tauritavern_settings_update(
    settings: TauriTavernSettings,
    dto: UpdateTauriTavernSettingsDto,
) -> (r: Result<TauriTavernSettings, ApplicationError>)
    ensures
        match patch_rejection(settings, dto) {
            Some(m) => r matches Err(e) && is_validation_error_with(e, m),
            None => r == Ok::<TauriTavernSettings, ApplicationError>(
                patched_settings(settings, dto),
            ),
        },
{
    let ghost original = settings;
    let ghost patch = dto;
    let TauriTavernSettings {
        updates: s_updates,
        perf_profile: s_perf_profile,
        panel_runtime_profile: s_panel_runtime_profile,
        embedded_runtime_profile: s_embedded_runtime_profile,
        chat_history_mode: s_chat_history_mode,
        close_to_tray_on_close: s_close_to_tray_on_close,
        request_proxy: s_request_proxy,
        allow_keys_exposure: s_allow_keys_exposure,
        avatar_persona_original_images_enabled: s_avatar,
        dev: s_dev,
        dynamic_theme: s_dynamic_theme,
        models: s_models,
    } = settings;
    let UpdateTauriTavernSettingsDto {
        updates,
        perf_profile,
        panel_runtime_profile,
        embedded_runtime_profile,
        chat_history_mode,
        close_to_tray_on_close,
        request_proxy,
        allow_keys_exposure,
        avatar_persona_original_images_enabled,
        dev,
        dynamic_theme,
        models,
    } = dto;
    let new_updates = patch_updates(s_updates, updates);
    let new_perf_profile = keep_or_replace(s_perf_profile, perf_profile);
    let new_panel_runtime_profile = keep_or_replace(s_panel_runtime_profile, panel_runtime_profile);
    let new_embedded_runtime_profile = keep_or_replace(
        s_embedded_runtime_profile,
        embedded_runtime_profile,
    );
    let new_chat_history_mode = keep_or_replace(s_chat_history_mode, chat_history_mode);
    let new_close_to_tray_on_close = keep_or_replace(s_close_to_tray_on_close, close_to_tray_on_close);
    let new_request_proxy = patch_request_proxy(s_request_proxy, request_proxy);
    let new_allow_keys_exposure = keep_or_replace(s_allow_keys_exposure, allow_keys_exposure);
    let new_avatar = keep_or_replace(s_avatar, avatar_persona_original_images_enabled);
    let new_dev = match patch_dev(s_dev, dev) {
        Ok(d) => d,
        Err(e) => return Err(e),
    };
    let new_dynamic_theme = match patch_dynamic_theme(s_dynamic_theme, dynamic_theme) {
        Ok(t) => t,
        Err(e) => return Err(e),
    };
    let new_models = patch_models(s_models, models);
    Ok(
        TauriTavernSettings {
            updates: new_updates,
            perf_profile: new_perf_profile,
            panel_runtime_profile: new_panel_runtime_profile,
            embedded_runtime_profile: new_embedded_runtime_profile,
            chat_history_mode: new_chat_history_mode,
            close_to_tray_on_close: new_close_to_tray_on_close,
            request_proxy: new_request_proxy,
            allow_keys_exposure: new_allow_keys_exposure,
            avatar_persona_original_images_enabled: new_avatar,
            dev: new_dev,
            dynamic_theme: new_dynamic_theme,
            models: new_models,
        },
    )
}

/// The patch that changes nothing.
pub open spec fn is_empty_patch(dto: UpdateTauriTavernSettingsDto) -> bool {
    &&& dto.updates is None
    &&& dto.perf_profile is None
    &&& dto.panel_runtime_profile is None
    &&& dto.embedded_runtime_profile is None
    &&& dto.chat_history_mode is None
    &&& dto.close_to_tray_on_close is None
    &&& dto.request_proxy is None
    &&& dto.allow_keys_exposure is None
    &&& dto.avatar_persona_original_images_enabled is None
    &&& dto.dev is None
    &&& dto.dynamic_theme is None
    &&& dto.models is None
}

/// A patch that carries no field is accepted and leaves the settings as
/// they were.
pub proof fn lemma_empty_patch_is_identity(s: TauriTavernSettings, dto: UpdateTauriTavernSettingsDto)
    requires
        is_empty_patch(dto),
    ensures
        patch_rejection(s, dto) is None,
        patched_settings(s, dto) == s,
{
}

/// Applying a patch a second time changes nothing more, and is refused
/// exactly when the first application was.
pub proof fn lemma_patch_idempotent(s: TauriTavernSettings, dto: UpdateTauriTavernSettingsDto)
    ensures
        patched_settings(patched_settings(s, dto), dto) == patched_settings(s, dto),
        patch_rejection(patched_settings(s, dto), dto) == patch_rejection(s, dto),
{
}

/// Fields that a patch does not carry keep their values.
pub proof fn lemma_patch_keeps_absent_fields(s: TauriTavernSettings, dto: UpdateTauriTavernSettingsDto)
    ensures
        dto.updates is None ==> patched_settings(s, dto).updates == s.updates,
        dto.request_proxy is None ==> patched_settings(s, dto).request_proxy == s.request_proxy,
        dto.dev is None ==> patched_settings(s, dto).dev == s.dev,
        dto.dynamic_theme is None ==> patched_settings(s, dto).dynamic_theme == s.dynamic_theme,
        dto.models is None ==> patched_settings(s, dto).models == s.models,
{
}

/// Every field that a patch carries replaces the setting, field by field.
pub proof fn lemma_present_fields_replace(s: TauriTavernSettings, dto: UpdateTauriTavernSettingsDto)
    ensures
        dto.updates matches Some(p) ==> {
            let u = patched_settings(s, dto).updates;
            &&& u.startup_popup.dismissed_release_token
                == p.startup_popup.dismissed_release_token
            &&& (p.startup_check_enabled matches Some(b) ==> u.startup_check_enabled == b)
            &&& (p.startup_check_enabled is None ==> u.startup_check_enabled
                == s.updates.startup_check_enabled)
            &&& (p.manual_check_cache_ttl_secs matches Some(t) ==> u.manual_check_cache_ttl_secs
                == t)
            &&& (p.manual_check_cache_ttl_secs is None ==> u.manual_check_cache_ttl_secs
                == s.updates.manual_check_cache_ttl_secs)
        },
        dto.perf_profile matches Some(v) ==> patched_settings(s, dto).perf_profile == v,
        dto.panel_runtime_profile matches Some(v) ==> patched_settings(s, dto).panel_runtime_profile
            == v,
        dto.embedded_runtime_profile matches Some(v) ==> patched_settings(
            s,
            dto,
        ).embedded_runtime_profile == v,
        dto.chat_history_mode matches Some(v) ==> patched_settings(s, dto).chat_history_mode == v,
        dto.close_to_tray_on_close matches Some(v) ==> patched_settings(s, dto).close_to_tray_on_close
            == v,
        dto.request_proxy matches Some(d) ==> {
            let proxy = patched_settings(s, dto).request_proxy;
            proxy.enabled == d.enabled && proxy.url == d.url && proxy.bypass == d.bypass
        },
        dto.allow_keys_exposure matches Some(v) ==> patched_settings(s, dto).allow_keys_exposure
            == v,
        dto.avatar_persona_original_images_enabled matches Some(v) ==> patched_settings(
            s,
            dto,
        ).avatar_persona_original_images_enabled == v,
        dto.dev matches Some(d) ==> {
            let dev = patched_settings(s, dto).dev;
            &&& (d.frontend_console_capture matches Some(v) ==> dev.frontend_console_capture == v)
            &&& (d.frontend_console_capture is None ==> dev.frontend_console_capture
                == s.dev.frontend_console_capture)
            &&& (d.llm_api_keep matches Some(v) ==> dev.llm_api_keep == v)
            &&& (d.llm_api_keep is None ==> dev.llm_api_keep == s.dev.llm_api_keep)
        },
        dto.dynamic_theme matches Some(d) ==> {
            let theme = patched_settings(s, dto).dynamic_theme;
            &&& (d.enabled matches Some(v) ==> theme.enabled == v)
            &&& (d.enabled is None ==> theme.enabled == s.dynamic_theme.enabled)
            &&& (d.day_theme matches Some(v) ==> theme.day_theme == v)
            &&& (d.day_theme is None ==> theme.day_theme == s.dynamic_theme.day_theme)
            &&& (d.night_theme matches Some(v) ==> theme.night_theme == v)
            &&& (d.night_theme is None ==> theme.night_theme == s.dynamic_theme.night_theme)
        },
        dto.models matches Some(m) ==> (m.claude matches Some(c) ==> (c.prompt_cache_ttl matches Some(
            v,
        ) ==> patched_settings(s, dto).models.claude.prompt_cache_ttl == v)),
        dto.perf_profile is None ==> patched_settings(s, dto).perf_profile == s.perf_profile,
        dto.close_to_tray_on_close is None ==> patched_settings(s, dto).close_to_tray_on_close
            == s.close_to_tray_on_close,
        dto.allow_keys_exposure is None ==> patched_settings(s, dto).allow_keys_exposure
            == s.allow_keys_exposure,
        dto.panel_runtime_profile is None ==> patched_settings(s, dto).panel_runtime_profile
            == s.panel_runtime_profile,
        dto.embedded_runtime_profile is None ==> patched_settings(s, dto).embedded_runtime_profile
            == s.embedded_runtime_profile,
        dto.chat_history_mode is None ==> patched_settings(s, dto).chat_history_mode
            == s.chat_history_mode,
        dto.avatar_persona_original_images_enabled is None ==> patched_settings(
            s,
            dto,
        ).avatar_persona_original_images_enabled == s.avatar_persona_original_images_enabled,
        dto.request_proxy is None ==> patched_settings(s, dto).request_proxy == s.request_proxy,
        dto.dev is None ==> patched_settings(s, dto).dev == s.dev,
        dto.dynamic_theme is None ==> patched_settings(s, dto).dynamic_theme == s.dynamic_theme,
        dto.models is None ==> patched_settings(s, dto).models == s.models,
        dto.updates is None ==> patched_settings(s, dto).updates == s.updates,
{
}

/// A patch is refused exactly for a non-positive number of kept LLM API
/// exchanges, or for a patched dynamic theme that is on while its day or
/// night theme is blank; the number is checked first, then the day theme.
pub proof fn lemma_rejection_reasons(s: TauriTavernSettings, dto: UpdateTauriTavernSettingsDto)
    ensures
        (dto.dev matches Some(d) && d.llm_api_keep matches Some(k) && k == 0) ==> patch_rejection(
            s,
            dto,
        ) == Some("LLM API keep must be a positive number"@),
        dto.dynamic_theme is None && !(dto.dev matches Some(d) && d.llm_api_keep matches Some(k)
            && k == 0) ==> patch_rejection(s, dto) is None,
        patch_rejection(s, dto) is Some ==> ((dto.dev matches Some(d) && d.llm_api_keep matches Some(
            k,
        ) && k == 0) || (dto.dynamic_theme is Some && patched_settings(s, dto).dynamic_theme.enabled
            && (is_blank(patched_settings(s, dto).dynamic_theme.day_theme@) || is_blank(
            patched_settings(s, dto).dynamic_theme.night_theme@,
        )))),
{
}

// ---------------------------------------------------------------------------
// Snapshots
// ---------------------------------------------------------------------------

/// The snapshots as shown to the front end, in the same order.
pub fn snapshot_dtos(snapshots: Vec<SettingsSnapshot>) -> (r: Vec<SettingsSnapshotDto>)
    ensures
        r@ == snapshots@.map_values(|s: SettingsSnapshot| snapshot_dto_of(s)),
{
    let ghost source = snapshots@;
    let mut out: Vec<SettingsSnapshotDto> = Vec::new();
    for s in it: snapshots.into_iter()
        invariant
            it.seq() == source,
            out@ == it.seq().take(it.index() as int).map_values(
                |s: SettingsSnapshot| snapshot_dto_of(s),
            ),
    {
        proof {
            assert(it.seq().take(it.index() + 1) =~= it.seq().take(it.index() as int).push(s));
        }
        out.push(SettingsSnapshotDto::from(s));
        proof {
            assert(out@ =~= it.seq().take(it.index() + 1).map_values(
                |s: SettingsSnapshot| snapshot_dto_of(s),
            ));
        }
    }
    assert(source.take(source.len() as int) =~= source);
    out
}

// ---------------------------------------------------------------------------
// What the front end loads at start-up
// ---------------------------------------------------------------------------

/// The JSON document of each of `settings`, in the same order.
pub open spec fn documents_of(settings: Seq<UserSettings>) -> Seq<serde_json::Value> {
    settings.map_values(|u: UserSettings| u.data)
}

/// The JSON documents of a list of presets, in order.
pub fn preset_documents(presets: Vec<UserSettings>) -> (r: Vec<serde_json::Value>)
    ensures
        r@ == documents_of(presets@),
{
    let ghost source = presets@;
    let mut out: Vec<serde_json::Value> = Vec::new();
    for p in it: presets.into_iter()
        invariant
            it.seq() == source,
            out@ == documents_of(it.seq().take(it.index() as int)),
    {
        proof {
            assert(it.seq().take(it.index() + 1) =~= it.seq().take(it.index() as int).push(p));
            assert(documents_of(it.seq().take(it.index() as int).push(p)) =~= documents_of(
                it.seq().take(it.index() as int),
            ).push(p.data));
        }
        out.push(p.data);
    }
    assert(source.take(source.len() as int) =~= source);
    out
}

/// What the repository holds besides the user's settings: the settings and
/// setting names of each API, the world names, and the presets of each kind.
pub struct SillyTavernSettingsSources {
    pub koboldai: (Vec<String>, Vec<String>),
    pub novelai: (Vec<String>, Vec<String>),
    pub openai: (Vec<String>, Vec<String>),
    pub textgen: (Vec<String>, Vec<String>),
    pub world_names: Vec<String>,
    pub themes: Vec<UserSettings>,
    pub moving_ui_presets: Vec<UserSettings>,
    pub quick_reply_presets: Vec<UserSettings>,
    pub instruct_presets: Vec<UserSettings>,
    pub context_presets: Vec<UserSettings>,
    pub sysprompt_presets: Vec<UserSettings>,
    pub reasoning_presets: Vec<UserSettings>,
}

/// The start-up response built from the user's settings as JSON text
/// `settings_json` and from `sources`.
pub open spec fn response_matches(
    r: SillyTavernSettingsResponseDto,
    settings_json: String,
    sources: SillyTavernSettingsSources,
) -> bool {
    &&& r.settings == settings_json
    &&& r.koboldai_settings == sources.koboldai.0
    &&& r.koboldai_setting_names == sources.koboldai.1
    &&& r.world_names == sources.world_names
    &&& r.novelai_settings == sources.novelai.0
    &&& r.novelai_setting_names == sources.novelai.1
    &&& r.openai_settings == sources.openai.0
    &&& r.openai_setting_names == sources.openai.1
    &&& r.textgenerationwebui_presets == sources.textgen.0
    &&& r.textgenerationwebui_preset_names == sources.textgen.1
    &&& r.themes@ == documents_of(sources.themes@)
    &&& r.moving_ui_presets@ == documents_of(sources.moving_ui_presets@)
    &&& r.quick_reply_presets@ == documents_of(sources.quick_reply_presets@)
    &&& r.instruct@ == documents_of(sources.instruct_presets@)
    &&& r.context@ == documents_of(sources.context_presets@)
    &&& r.sysprompt@ == documents_of(sources.sysprompt_presets@)
    &&& r.reasoning@ == documents_of(sources.reasoning_presets@)
    &&& r.enable_extensions
    &&& r.enable_extensions_auto_update
    &&& !r.enable_accounts
}

/// Each field of the start-up response holds the repository list of the
/// same API and of the same kind (settings or names), and each preset list
/// holds the documents of the presets of its own kind, one for one and in
/// order.
pub proof fn lemma_response_fields_come_from_their_sources(
    r: SillyTavernSettingsResponseDto,
    settings_json: String,
    sources: SillyTavernSettingsSources,
)
    requires
        response_matches(r, settings_json, sources),
    ensures
        r.settings == settings_json,
        r.koboldai_settings == sources.koboldai.0,
        r.koboldai_setting_names == sources.koboldai.1,
        r.novelai_settings == sources.novelai.0,
        r.novelai_setting_names == sources.novelai.1,
        r.openai_settings == sources.openai.0,
        r.openai_setting_names == sources.openai.1,
        r.textgenerationwebui_presets == sources.textgen.0,
        r.textgenerationwebui_preset_names == sources.textgen.1,
        r.world_names == sources.world_names,
        r.themes@.len() == sources.themes@.len(),
        forall|i: int| 0 <= i < r.themes@.len() ==> r.themes@[i] == sources.themes@[i].data,
        r.moving_ui_presets@.len() == sources.moving_ui_presets@.len(),
        forall|i: int|
            0 <= i < r.moving_ui_presets@.len() ==> r.moving_ui_presets@[i]
                == sources.moving_ui_presets@[i].data,
        r.quick_reply_presets@.len() == sources.quick_reply_presets@.len(),
        forall|i: int|
            0 <= i < r.quick_reply_presets@.len() ==> r.quick_reply_presets@[i]
                == sources.quick_reply_presets@[i].data,
        r.instruct@.len() == sources.instruct_presets@.len(),
        forall|i: int|
            0 <= i < r.instruct@.len() ==> r.instruct@[i] == sources.instruct_presets@[i].data,
        r.context@.len() == sources.context_presets@.len(),
        forall|i: int|
            0 <= i < r.context@.len() ==> r.context@[i] == sources.context_presets@[i].data,
        r.sysprompt@.len() == sources.sysprompt_presets@.len(),
        forall|i: int|
            0 <= i < r.sysprompt@.len() ==> r.sysprompt@[i] == sources.sysprompt_presets@[i].data,
        r.reasoning@.len() == sources.reasoning_presets@.len(),
        forall|i: int|
            0 <= i < r.reasoning@.len() ==> r.reasoning@[i] == sources.reasoning_presets@[i].data,
        r.enable_extensions && r.enable_extensions_auto_update && !r.enable_accounts,
{
}

/// Assembles the start-up response: extensions and their automatic updates
/// are on, accounts are off.
pub fn sillytavern_settings_response(
    settings_json: String,
    sources: SillyTavernSettingsSources,
) -> (r: SillyTavernSettingsResponseDto)
    ensures
        response_matches(r, settings_json, sources),
{
    let SillyTavernSettingsSources {
        koboldai,
        novelai,
        openai,
        textgen,
        world_names,
        themes,
        moving_ui_presets,
        quick_reply_presets,
        instruct_presets,
        context_presets,
        sysprompt_presets,
        reasoning_presets,
    } = sources;
    let (koboldai_settings, koboldai_setting_names) = koboldai;
    let (novelai_settings, novelai_setting_names) = novelai;
    let (openai_settings, openai_setting_names) = openai;
    let (textgen_settings, textgen_setting_names) = textgen;
    SillyTavernSettingsResponseDto {
        settings: settings_json,
        koboldai_settings,
        koboldai_setting_names,
        world_names,
        novelai_settings,
        novelai_setting_names,
        openai_settings,
        openai_setting_names,
        textgenerationwebui_presets: textgen_settings,
        textgenerationwebui_preset_names: textgen_setting_names,
        themes: preset_documents(themes),
        moving_ui_presets: preset_documents(moving_ui_presets),
        quick_reply_presets: preset_documents(quick_reply_presets),
        instruct: preset_documents(instruct_presets),
        context: preset_documents(context_presets),
        sysprompt: preset_documents(sysprompt_presets),
        reasoning: preset_documents(reasoning_presets),
        enable_extensions: true,
        enable_extensions_auto_update: true,
        enable_accounts: false,
    }
}

/// Declares `serde_json::Error` so that its values can pass through.
#[verifier::external_type_specification]
#[verifier::external_body]
pub struct ExJsonError(serde_json::Error);

/// The JSON text that `serde_json::to_string` makes of a document, or
/// `None` where it fails; it depends on the document alone.
pub uninterp spec fn json_text(value: serde_json::Value) -> Option<Seq<char>>;

/// Calls `serde_json::to_string` on a JSON document. The contract claims
/// only that the outcome is a function of the document: success exactly
/// where `json_text` gives a text, and then that text.
#[verifier::external_body]
fn json_to_string(value: &serde_json::Value) -> (r: Result<String, serde_json::Error>)
    ensures
        r is Ok <==> json_text(*value) is Some,
        r matches Ok(s) ==> json_text(*value) == Some(s@),
{
    serde_json::to_string(value)
}

pub open spec fn starts_with(s: Seq<char>, prefix: Seq<char>) -> bool {
    prefix.len() <= s.len() && s.subrange(0, prefix.len() as int) == prefix
}

/// What becomes of the outcome of serialising the user's settings: the
/// JSON text as it came, or an internal error whose message is
/// `Failed to serialize settings: ` followed by the serialiser's message.
pub fn settings_json_from(result: Result<String, serde_json::Error>) -> (r: Result<String, ApplicationError>)
    ensures
        match result {
            Ok(text) => r == Ok::<String, ApplicationError>(text),
            Err(e) => r matches Err(ApplicationError::InternalError(m)) && exists|d: String|
                vstd::string::to_string_from_display_ensures::<serde_json::Error>(&e, d) && m@
                    == "Failed to serialize settings: "@ + d@,
        },
{
    match result {
        Ok(text) => Ok(text),
        Err(e) => {
            let mut message = "Failed to serialize settings: ".to_owned();
            let detail = e.to_string();
            message.append(detail.as_str());
            Err(ApplicationError::InternalError(message))
        },
    }
}

/// The user's settings as JSON text. A failure to serialise them becomes an
/// internal error whose message starts with `Failed to serialize settings: `.
pub fn serialize_settings_data(user_settings: &UserSettings) -> (r: Result<String, ApplicationError>)
    ensures
        match json_text(user_settings.data) {
            Some(t) => r matches Ok(s) && s@ == t,
            None => r matches Err(ApplicationError::InternalError(m)) && starts_with(
                m@,
                "Failed to serialize settings: "@,
            ),
        },
{
    let result = json_to_string(&user_settings.data);
    let r = settings_json_from(result);
    proof {
        if let Err(ApplicationError::InternalError(m)) = &r {
            reveal_strlit("Failed to serialize settings: ");
            let prefix = "Failed to serialize settings: "@;
            assert(m@.subrange(0, prefix.len() as int) =~= prefix);
        }
    }
    r
}

} // verus!
