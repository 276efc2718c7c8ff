use tauritavern::errors::{ApplicationError, DomainError};
use tauritavern::models::{
    ClaudeModelSettings, DevLoggingSettings, DynamicThemeSettings, ModelSettings,
    RequestProxySettings, SettingsSnapshot, StartupUpdatePopupSettings, TauriTavernSettings,
    UpdateSettings, UserSettings,
};
use tauritavern::settings_dto::{
    ClaudeModelSettingsPatchDto, DevLoggingSettingsPatchDto, DynamicThemeSettingsPatchDto,
    ModelSettingsPatchDto, RequestProxySettingsDto, StartupUpdatePopupSettingsDto,
    TauriTavernSettingsDto, TauriTavernUpdateSettingsDto, UpdateTauriTavernSettingsDto,
    UserSettingsDto,
};
use tauritavern::settings_service::{
    apply_tauritavern_settings_update, preset_documents, serialize_settings_data, settings_json_from,
    sillytavern_settings_response, snapshot_dtos, SettingsService, SillyTavernSettingsSources,
};
use serde_json::Value;

fn base_settings() -> TauriTavernSettings {
    TauriTavernSettings {
        updates: UpdateSettings {
            startup_popup: StartupUpdatePopupSettings {
                dismissed_release_token: Some("v1.0.0".to_string()),
            },
            startup_check_enabled: false,
            manual_check_cache_ttl_secs: 1800,
        },
        perf_profile: "auto".to_string(),
        panel_runtime_profile: "auto".to_string(),
        embedded_runtime_profile: "auto".to_string(),
        chat_history_mode: "windowed".to_string(),
        close_to_tray_on_close: false,
        request_proxy: RequestProxySettings {
            enabled: false,
            url: String::new(),
            bypass: Vec::new(),
        },
        allow_keys_exposure: false,
        avatar_persona_original_images_enabled: false,
        dev: DevLoggingSettings {
            frontend_console_capture: false,
            llm_api_keep: 10,
        },
        dynamic_theme: DynamicThemeSettings {
            enabled: false,
            day_theme: String::new(),
            night_theme: String::new(),
        },
        models: ModelSettings {
            claude: ClaudeModelSettings {
                prompt_cache_ttl: "5m".to_string(),
            },
        },
    }
}

fn empty_patch() -> UpdateTauriTavernSettingsDto {
    UpdateTauriTavernSettingsDto {
        updates: None,
        perf_profile: None,
        panel_runtime_profile: None,
        embedded_runtime_profile: None,
        chat_history_mode: None,
        close_to_tray_on_close: None,
        request_proxy: None,
        allow_keys_exposure: None,
        avatar_persona_original_images_enabled: None,
        dev: None,
        dynamic_theme: None,
        models: None,
    }
}

fn validation_message(r: Result<TauriTavernSettings, ApplicationError>) -> String {
    match r {
        Err(ApplicationError::ValidationError(m)) => m,
        other => panic!("expected a validation error, got {:?}", other),
    }
}

struct StubSettingsRepo {
    saved: std::sync::Mutex<Option<TauriTavernSettings>>,
}

impl StubSettingsRepo {
    fn save_tauritavern_settings(&self, settings: &TauriTavernSettings) {
        *self.saved.lock().unwrap() = Some(settings.clone());
    }

    fn load_tauritavern_settings(&self) -> TauriTavernSettings {
        self.saved
            .lock()
            .unwrap()
            .clone()
            .unwrap_or_else(base_settings)
    }
}

#[test]
fn patch_transparently_propagates_new_update_fields() {
    let service = SettingsService::new(StubSettingsRepo {
        saved: std::sync::Mutex::new(None),
    });

    let dto = UpdateTauriTavernSettingsDto {
        updates: Some(TauriTavernUpdateSettingsDto {
            startup_popup: StartupUpdatePopupSettingsDto {
                dismissed_release_token: None,
            },
            startup_check_enabled: Some(true),
            manual_check_cache_ttl_secs: Some(600),
        }),
        perf_profile: None,
        panel_runtime_profile: None,
        embedded_runtime_profile: None,
        chat_history_mode: None,
        close_to_tray_on_close: None,
        request_proxy: None,
        allow_keys_exposure: None,
        avatar_persona_original_images_enabled: None,
        dev: None,
        dynamic_theme: None,
        models: None,
    };

    let loaded = service.settings_repository().load_tauritavern_settings();
    let settings = apply_tauritavern_settings_update(loaded, dto).unwrap();
    service.settings_repository().save_tauritavern_settings(&settings);
    let out = TauriTavernSettingsDto::from(settings);

    assert_eq!(out.updates.startup_check_enabled, Some(true));
    assert_eq!(out.updates.manual_check_cache_ttl_secs, Some(600));

    let persisted = service.settings_repository().saved.lock().unwrap().clone().unwrap();
    assert!(persisted.updates.startup_check_enabled);
    assert_eq!(persisted.updates.manual_check_cache_ttl_secs, 600);
}

#[test]
fn update_patch_always_replaces_dismissed_token() {
    let dto = UpdateTauriTavernSettingsDto {
        updates: Some(TauriTavernUpdateSettingsDto {
            startup_popup: StartupUpdatePopupSettingsDto {
                dismissed_release_token: None,
            },
            startup_check_enabled: None,
            manual_check_cache_ttl_secs: None,
        }),
        ..empty_patch()
    };
    let s = apply_tauritavern_settings_update(base_settings(), dto).unwrap();
    assert_eq!(s.updates.startup_popup.dismissed_release_token, None);
    assert!(!s.updates.startup_check_enabled);
    assert_eq!(s.updates.manual_check_cache_ttl_secs, 1800);
}

#[test]
fn empty_patch_changes_nothing() {
    let s = apply_tauritavern_settings_update(base_settings(), empty_patch()).unwrap();
    assert_eq!(
        s.updates.startup_popup.dismissed_release_token.as_deref(),
        Some("v1.0.0")
    );
    assert_eq!(s.updates.manual_check_cache_ttl_secs, 1800);
    assert_eq!(s.perf_profile, "auto");
    assert_eq!(s.dev.llm_api_keep, 10);
    assert_eq!(s.models.claude.prompt_cache_ttl, "5m");
}

#[test]
fn scalar_fields_are_replaced() {
    let dto = UpdateTauriTavernSettingsDto {
        perf_profile: Some("low".to_string()),
        panel_runtime_profile: Some("compat".to_string()),
        embedded_runtime_profile: Some("off".to_string()),
        chat_history_mode: Some("full".to_string()),
        close_to_tray_on_close: Some(true),
        request_proxy: Some(RequestProxySettingsDto {
            enabled: true,
            url: "http://127.0.0.1:7890".to_string(),
            bypass: vec!["localhost".to_string()],
        }),
        allow_keys_exposure: Some(true),
        avatar_persona_original_images_enabled: Some(true),
        dev: Some(DevLoggingSettingsPatchDto {
            frontend_console_capture: Some(true),
            llm_api_keep: Some(3),
        }),
        models: Some(ModelSettingsPatchDto {
            claude: Some(ClaudeModelSettingsPatchDto {
                prompt_cache_ttl: Some("1h".to_string()),
            }),
        }),
        ..empty_patch()
    };
    let s = apply_tauritavern_settings_update(base_settings(), dto).unwrap();
    assert_eq!(s.perf_profile, "low");
    assert_eq!(s.panel_runtime_profile, "compat");
    assert_eq!(s.embedded_runtime_profile, "off");
    assert_eq!(s.chat_history_mode, "full");
    assert!(s.close_to_tray_on_close);
    assert!(s.request_proxy.enabled);
    assert_eq!(s.request_proxy.url, "http://127.0.0.1:7890");
    assert_eq!(s.request_proxy.bypass, vec!["localhost".to_string()]);
    assert!(s.allow_keys_exposure);
    assert!(s.avatar_persona_original_images_enabled);
    assert!(s.dev.frontend_console_capture);
    assert_eq!(s.dev.llm_api_keep, 3);
    assert_eq!(s.models.claude.prompt_cache_ttl, "1h");
}

#[test]
fn zero_llm_api_keep_is_refused() {
    let dto = UpdateTauriTavernSettingsDto {
        dev: Some(DevLoggingSettingsPatchDto {
            frontend_console_capture: Some(true),
            llm_api_keep: Some(0),
        }),
        ..empty_patch()
    };
    assert_eq!(
        validation_message(apply_tauritavern_settings_update(base_settings(), dto)),
        "LLM API keep must be a positive number"
    );
}

#[test]
fn enabled_dynamic_theme_needs_day_theme() {
    let dto = UpdateTauriTavernSettingsDto {
        dynamic_theme: Some(DynamicThemeSettingsPatchDto {
            enabled: Some(true),
            day_theme: Some(" \t".to_string()),
            night_theme: Some("Dark".to_string()),
        }),
        ..empty_patch()
    };
    assert_eq!(
        validation_message(apply_tauritavern_settings_update(base_settings(), dto)),
        "Dynamic theme day theme is required"
    );
}

#[test]
fn enabled_dynamic_theme_needs_night_theme() {
    let dto = UpdateTauriTavernSettingsDto {
        dynamic_theme: Some(DynamicThemeSettingsPatchDto {
            enabled: Some(true),
            day_theme: Some("Light".to_string()),
            night_theme: None,
        }),
        ..empty_patch()
    };
    assert_eq!(
        validation_message(apply_tauritavern_settings_update(base_settings(), dto)),
        "Dynamic theme night theme is required"
    );
}

#[test]
fn llm_api_keep_is_checked_before_the_theme() {
    let dto = UpdateTauriTavernSettingsDto {
        dev: Some(DevLoggingSettingsPatchDto {
            frontend_console_capture: None,
            llm_api_keep: Some(0),
        }),
        dynamic_theme: Some(DynamicThemeSettingsPatchDto {
            enabled: Some(true),
            day_theme: None,
            night_theme: None,
        }),
        ..empty_patch()
    };
    assert_eq!(
        validation_message(apply_tauritavern_settings_update(base_settings(), dto)),
        "LLM API keep must be a positive number"
    );
}

#[test]
fn dynamic_theme_is_checked_only_when_patched() {
    let mut settings = base_settings();
    settings.dynamic_theme.enabled = true;
    let s = apply_tauritavern_settings_update(settings, empty_patch()).unwrap();
    assert!(s.dynamic_theme.enabled);

    let dto = UpdateTauriTavernSettingsDto {
        dynamic_theme: Some(DynamicThemeSettingsPatchDto {
            enabled: Some(true),
            day_theme: Some("Light".to_string()),
            night_theme: Some("Dark".to_string()),
        }),
        ..empty_patch()
    };
    let s = apply_tauritavern_settings_update(base_settings(), dto).unwrap();
    assert_eq!(s.dynamic_theme.day_theme, "Light");
    assert_eq!(s.dynamic_theme.night_theme, "Dark");
}

#[test]
fn applying_a_patch_twice_is_applying_it_once() {
    let patch = || UpdateTauriTavernSettingsDto {
        perf_profile: Some("low".to_string()),
        updates: Some(TauriTavernUpdateSettingsDto {
            startup_popup: StartupUpdatePopupSettingsDto {
                dismissed_release_token: Some("v2".to_string()),
            },
            startup_check_enabled: Some(true),
            manual_check_cache_ttl_secs: None,
        }),
        ..empty_patch()
    };
    let once = apply_tauritavern_settings_update(base_settings(), patch()).unwrap();
    let twice = apply_tauritavern_settings_update(
        apply_tauritavern_settings_update(base_settings(), patch()).unwrap(),
        patch(),
    )
    .unwrap();
    assert_eq!(format!("{:?}", once), format!("{:?}", twice));
}

#[test]
fn settings_dto_reports_update_fields() {
    let dto = TauriTavernSettingsDto::from(base_settings());
    assert_eq!(dto.updates.startup_check_enabled, Some(false));
    assert_eq!(dto.updates.manual_check_cache_ttl_secs, Some(1800));
    assert_eq!(
        dto.updates.startup_popup.dismissed_release_token.as_deref(),
        Some("v1.0.0")
    );
    assert_eq!(dto.chat_history_mode, "windowed");
}

#[test]
fn snapshots_keep_their_order() {
    let dtos = snapshot_dtos(vec![
        SettingsSnapshot {
            date: 2,
            name: "b.json".to_string(),
            size: 20,
        },
        SettingsSnapshot {
            date: 1,
            name: "a.json".to_string(),
            size: 10,
        },
    ]);
    assert_eq!(dtos.len(), 2);
    assert_eq!(dtos[0].name, "b.json");
    assert_eq!(dtos[0].date, 2);
    assert_eq!(dtos[1].size, 10);
}

fn doc(n: i64) -> UserSettings {
    UserSettings {
        data: Value::from(n),
    }
}

#[test]
fn user_settings_round_trip_through_dto() {
    let dto = UserSettingsDto::from(doc(5));
    let back = UserSettings::from(dto);
    assert_eq!(back.data, Value::from(5));
}

#[test]
fn settings_are_serialised_as_json_text() {
    let mut map = serde_json::Map::new();
    map.insert("theme".to_string(), Value::String("Dark".to_string()));
    let text = serialize_settings_data(&UserSettings {
        data: Value::Object(map),
    })
    .unwrap();
    assert_eq!(text, "{\"theme\":\"Dark\"}");
    assert_eq!(serialize_settings_data(&doc(7)).unwrap(), "7");
}

#[test]
fn startup_response_carries_presets_in_order() {
    let sources = SillyTavernSettingsSources {
        koboldai: (vec!["k".to_string()], vec!["kn".to_string()]),
        novelai: (vec![], vec!["nn".to_string()]),
        openai: (vec!["o".to_string()], vec![]),
        textgen: (vec!["t".to_string()], vec!["tn".to_string()]),
        world_names: vec!["w".to_string()],
        themes: vec![doc(1), doc(2)],
        moving_ui_presets: vec![doc(3)],
        quick_reply_presets: vec![],
        instruct_presets: vec![doc(4)],
        context_presets: vec![doc(5)],
        sysprompt_presets: vec![doc(6)],
        reasoning_presets: vec![doc(7), doc(8)],
    };
    let r = sillytavern_settings_response("{}".to_string(), sources);
    assert_eq!(r.settings, "{}");
    assert_eq!(r.koboldai_settings, vec!["k".to_string()]);
    assert_eq!(r.koboldai_setting_names, vec!["kn".to_string()]);
    assert_eq!(r.novelai_setting_names, vec!["nn".to_string()]);
    assert_eq!(r.openai_settings, vec!["o".to_string()]);
    assert_eq!(r.textgenerationwebui_presets, vec!["t".to_string()]);
    assert_eq!(r.textgenerationwebui_preset_names, vec!["tn".to_string()]);
    assert_eq!(r.world_names, vec!["w".to_string()]);
    assert_eq!(r.themes, vec![Value::from(1), Value::from(2)]);
    assert_eq!(r.moving_ui_presets, vec![Value::from(3)]);
    assert!(r.quick_reply_presets.is_empty());
    assert_eq!(r.instruct, vec![Value::from(4)]);
    assert_eq!(r.context, vec![Value::from(5)]);
    assert_eq!(r.sysprompt, vec![Value::from(6)]);
    assert_eq!(r.reasoning, vec![Value::from(7), Value::from(8)]);
    assert!(r.enable_extensions);
    assert!(r.enable_extensions_auto_update);
    assert!(!r.enable_accounts);
}

#[test]
fn preset_documents_keep_order() {
    assert_eq!(
        preset_documents(vec![doc(9), doc(8), doc(7)]),
        vec![Value::from(9), Value::from(8), Value::from(7)]
    );
}

#[test]
fn domain_errors_become_application_errors() {
    assert!(matches!(
        ApplicationError::from(DomainError::RateLimited(403)),
        ApplicationError::RateLimited(403)
    ));
    match ApplicationError::from(DomainError::InternalError("x".to_string())) {
        ApplicationError::InternalError(m) => assert_eq!(m, "x"),
        other => panic!("unexpected {:?}", other),
    }
}

#[test]
fn serialisation_outcome_is_kept_or_reported() {
    assert_eq!(settings_json_from(Ok("[1]".to_string())).unwrap(), "[1]");
    let error = serde_json::from_str::<Value>("{").unwrap_err();
    let expected = format!("Failed to serialize settings: {}", error);
    match settings_json_from(Err(error)) {
        Err(ApplicationError::InternalError(m)) => assert_eq!(m, expected),
        other => panic!("unexpected {:?}", other),
    }
}
