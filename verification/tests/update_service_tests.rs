use tauritavern::errors::DomainError;
use tauritavern::models::{
    ClaudeModelSettings, DevLoggingSettings, DynamicThemeSettings, ModelSettings, ReleaseInfo,
    RequestProxySettings, StartupUpdatePopupSettings, TauriTavernSettings, UpdateCheckResult,
    UpdateSettings,
};
use tauritavern::update_service::{CheckStep, UpdateService, NANOS_PER_SEC};

/// The version the application under test runs.
const CURRENT_VERSION: &str = "0.1.0";

fn settings_with_ttl(ttl: u32) -> TauriTavernSettings {
    TauriTavernSettings {
        updates: UpdateSettings {
            startup_popup: StartupUpdatePopupSettings {
                dismissed_release_token: None,
            },
            startup_check_enabled: false,
            manual_check_cache_ttl_secs: ttl,
        },
        perf_profile: "auto".to_string(),
        panel_runtime_profile: "auto".to_string(),
        embedded_runtime_profile: "auto".to_string(),
        chat_history_mode: "windowed".to_string(),
        close_to_tray_on_close: false,
        request_proxy: RequestProxySettings {
            enabled: false,
            url: String::new(),
            bypass: Vec::new(),
        },
        allow_keys_exposure: false,
        avatar_persona_original_images_enabled: false,
        dev: DevLoggingSettings {
            frontend_console_capture: false,
            llm_api_keep: 10,
        },
        dynamic_theme: DynamicThemeSettings {
            enabled: false,
            day_theme: String::new(),
            night_theme: String::new(),
        },
        models: ModelSettings {
            claude: ClaudeModelSettings {
                prompt_cache_ttl: "5m".to_string(),
            },
        },
    }
}

fn stub_release() -> ReleaseInfo {
    ReleaseInfo {
        tag_name: "v9.9.9".to_string(),
        version: "9.9.9".to_string(),
        name: "stub".to_string(),
        body: String::new(),
        html_url: "https://example.com".to_string(),
        prerelease: false,
        published_at: "2026-01-01T00:00:00Z".to_string(),
    }
}

/// Runs one whole check: consults the cache, and fetches through `fetch`
/// where the cache does not answer.
fn check(
    service: &mut UpdateService,
    settings: &Result<TauriTavernSettings, DomainError>,
    now: u64,
    fetch: &mut dyn FnMut() -> Result<ReleaseInfo, DomainError>,
) -> Result<UpdateCheckResult, DomainError> {
    match service.begin_check(settings, now) {
        CheckStep::Answered(result) => Ok(result),
        CheckStep::FetchLatestRelease => {
            let fetched = fetch();
            service.complete_check(fetched, now)
        }
    }
}

fn counting_repo(calls: &mut usize) -> impl FnMut() -> Result<ReleaseInfo, DomainError> + '_ {
    move || {
        *calls += 1;
        Ok(stub_release())
    }
}

#[test]
fn cache_hits_within_ttl_window() {
    let mut calls = 0usize;
    let mut service = UpdateService::new(CURRENT_VERSION.to_string());
    let settings = Ok(settings_with_ttl(1800));
    let (r1, r2, r3) = {
        let mut repo = counting_repo(&mut calls);
        let r1 = check(&mut service, &settings, 0, &mut repo).unwrap();
        let r2 = check(&mut service, &settings, NANOS_PER_SEC, &mut repo).unwrap();
        let r3 = check(&mut service, &settings, 2 * NANOS_PER_SEC, &mut repo).unwrap();
        (r1, r2, r3)
    };

    assert!(r1.has_update, "first call should detect update");
    assert_eq!(r1.latest_release.as_ref().unwrap().version, "9.9.9");
    assert_eq!(r2.latest_release.as_ref().unwrap().version, "9.9.9");
    assert_eq!(r3.latest_release.as_ref().unwrap().version, "9.9.9");

    assert_eq!(
        calls, 1,
        "subsequent calls within TTL must hit cache, repo should be called exactly once"
    );
}

#[test]
fn cache_bypassed_when_ttl_zero() {
    let mut calls = 0usize;
    let mut service = UpdateService::new(CURRENT_VERSION.to_string());
    let settings = Ok(settings_with_ttl(0));
    {
        let mut repo = counting_repo(&mut calls);
        let _ = check(&mut service, &settings, 0, &mut repo).unwrap();
        let _ = check(&mut service, &settings, 0, &mut repo).unwrap();
        let _ = check(&mut service, &settings, 0, &mut repo).unwrap();
    }
    assert_eq!(calls, 3, "ttl=0 must skip cache and hit repo every call");
}

#[test]
fn cache_miss_after_repo_error_does_not_store() {
    let mut service = UpdateService::new(CURRENT_VERSION.to_string());
    let settings = Ok(settings_with_ttl(1800));
    let mut failing = || {
        Err(DomainError::InternalError(
            "simulated network failure".to_string(),
        ))
    };

    let result = check(&mut service, &settings, 0, &mut failing);
    assert!(result.is_err(), "first call should propagate repo error");
    assert!(service.cache.is_none());

    let result2 = check(&mut service, &settings, 0, &mut failing);
    assert!(result2.is_err());
}

// Further behaviour of the cache.

#[test]
fn cache_expires_after_ttl() {
    let mut calls = 0usize;
    let mut service = UpdateService::new("1.0.0".to_string());
    let settings = Ok(settings_with_ttl(30));
    {
        let mut repo = counting_repo(&mut calls);
        check(&mut service, &settings, 5, &mut repo).unwrap();
        // 29.999... seconds later the cache still answers.
        check(&mut service, &settings, 5 + 30 * NANOS_PER_SEC - 1, &mut repo).unwrap();
        assert_eq!(cached_at(&service), 5);
        // 30 whole seconds later it no longer does.
        check(&mut service, &settings, 5 + 30 * NANOS_PER_SEC, &mut repo).unwrap();
    }
    assert_eq!(calls, 2);
    assert_eq!(service.cache.as_ref().unwrap().at, 5 + 30 * NANOS_PER_SEC);
}

fn cached_at(service: &UpdateService) -> u64 {
    service.cache.as_ref().unwrap().at
}

#[test]
fn unreadable_settings_turn_the_cache_off() {
    let mut calls = 0usize;
    let mut service = UpdateService::new("1.0.0".to_string());
    let good = Ok(settings_with_ttl(1800));
    let bad = Err(DomainError::InternalError("disk".to_string()));
    assert_eq!(UpdateService::read_cache_ttl_secs(&bad), 0);
    assert_eq!(UpdateService::read_cache_ttl_secs(&good), 1800);
    {
        let mut repo = counting_repo(&mut calls);
        check(&mut service, &good, 0, &mut repo).unwrap();
        check(&mut service, &bad, 0, &mut repo).unwrap();
        check(&mut service, &good, 0, &mut repo).unwrap();
    }
    assert_eq!(calls, 2);
}

#[test]
fn clock_going_backwards_counts_as_no_time() {
    let mut service = UpdateService::new("1.0.0".to_string());
    service.store_cache(stub_release(), 100 * NANOS_PER_SEC);
    assert!(service.try_read_cache(1, 0).is_some());
    assert!(service.try_read_cache(0, 100 * NANOS_PER_SEC).is_none());
}

#[test]
fn result_lists_release_only_when_newer() {
    let service = UpdateService::new("9.9.9".to_string());
    let same = service.build_result(stub_release());
    assert!(!same.has_update);
    assert!(same.latest_release.is_none());
    assert_eq!(same.current_version, "9.9.9");

    let older = UpdateService::new("10.0".to_string()).build_result(stub_release());
    assert!(!older.has_update);
    assert!(older.latest_release.is_none());

    let newer = UpdateService::new("9.9.8".to_string()).build_result(stub_release());
    assert!(newer.has_update);
    assert_eq!(newer.latest_release.unwrap().tag_name, "v9.9.9");
}

#[test]
fn successful_fetch_replaces_the_cached_release() {
    let mut service = UpdateService::new("1.0.0".to_string());
    service.store_cache(stub_release(), 0);
    let mut newer = stub_release();
    newer.version = "10.0.0".to_string();
    let result = service.complete_check(Ok(newer), 7).unwrap();
    assert!(result.has_update);
    let cached = service.cache.as_ref().unwrap();
    assert_eq!(cached.at, 7);
    assert_eq!(cached.release.version, "10.0.0");
}
