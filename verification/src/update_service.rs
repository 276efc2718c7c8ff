//! Update checks with a short-lived cache of the latest release.
//!
//! A check reads the cache lifetime from the settings, answers from the
//! cache while the cached release is younger than that lifetime, and
//! otherwise asks the release repository; only a release that was fetched
//! successfully is cached. Times are read from a monotonic clock, in
//! nanoseconds since a fixed origin chosen by the caller.
use vstd::prelude::*;

use crate::errors::DomainError;
use crate::models::{ReleaseInfo, TauriTavernSettings, UpdateCheckResult};
use crate::version::{is_newer_version, newer_version};

verus! {

pub const NANOS_PER_SEC: u64 = 1_000_000_000;

/// A release kept from an earlier check, with the time it was fetched.
#[derive(Debug)]
pub struct CacheState {
    /// Clock reading, in nanoseconds, when the release was fetched.
    pub at: u64,
    pub release: ReleaseInfo,
}

/// The update checker: the running version and the cached release.
#[derive(Debug)]
pub struct UpdateService {
    /// The version of the running application.
    pub current_version: String,
    pub cache: Option<CacheState>,
}

/// What a check does once it has consulted the cache.
#[derive(Debug)]
pub enum CheckStep {
    /// The cache answered the check.
    Answered(UpdateCheckResult),
    /// The latest release must be fetched, then handed to
    /// `UpdateService::complete_check`.
    FetchLatestRelease,
}

/// Whole seconds from clock reading `at` to clock reading `now`
/// (`now.duration_since(at).as_secs()`; 0 when `now` is earlier).
pub open spec fn elapsed_secs(at: u64, now: u64) -> int {
    if now >= at {
        (now - at) / (NANOS_PER_SEC as int)
    } else {
        0
    }
}

/// The cache lifetime a check uses: the configured one, or 0 (no cache)
/// when the settings could not be read.
pub open spec fn ttl_of(settings: Result<TauriTavernSettings, DomainError>) -> u32 {
    match settings {
        Ok(s) => s.updates.manual_check_cache_ttl_secs,
        Err(_) => 0,
    }
}

/// The release the cache answers with at clock reading `now`, if any.
pub open spec fn cached_release(cache: Option<CacheState>, ttl_secs: u32, now: u64) -> Option<
    ReleaseInfo,
> {
    if ttl_secs == 0 {
        None
    } else {
        match cache {
            Some(state) => if elapsed_secs(state.at, now) < ttl_secs {
                Some(state.release)
            } else {
                None
            },
            None => None,
        }
    }
}

/// The result of a check whose latest release is `latest`, for a running
/// version `current`.
pub open spec fn update_result(current: String, latest: ReleaseInfo) -> UpdateCheckResult {
    let has_update = newer_version(current@, latest.version@);
    UpdateCheckResult {
        has_update,
        current_version: current,
        latest_release: if has_update {
            Some(latest)
        } else {
            None
        },
    }
}

/// What a check decides from the cache, for a cache lifetime `ttl_secs` at
/// clock reading `now`.
pub open spec fn check_step(service: UpdateService, ttl_secs: u32, now: u64) -> CheckStep {
    match cached_release(service.cache, ttl_secs, now) {
        Some(release) => CheckStep::Answered(update_result(service.current_version, release)),
        None => CheckStep::FetchLatestRelease,
    }
}

/// The service once `release`, fetched at clock reading `now`, is cached.
pub open spec fn with_cached(service: UpdateService, release: ReleaseInfo, now: u64) -> UpdateService {
    UpdateService { cache: Some(CacheState { at: now, release }), ..service }
}

impl UpdateService {
    /// A service for the running version `current_version`, with nothing
    /// cached.
    pub fn new(current_version: String) -> (s: Self)
        ensures
            s.current_version == current_version,
            s.cache is None,
    {
        UpdateService { current_version, cache: None }
    }

    /// The cache lifetime configured in `settings`, or 0 when the settings
    /// could not be read: a failure never leads to an answer from the cache.
    pub fn read_cache_ttl_secs(settings: &Result<TauriTavernSettings, DomainError>) -> (r: u32)
        ensures
            r == ttl_of(*settings),
    {
        match settings {
            Ok(s) => s.updates.manual_check_cache_ttl_secs,
            Err(_) => 0,
        }
    }

    /// The cached release, if the cache is on (`ttl_secs > 0`) and the
    /// release is younger than `ttl_secs` whole seconds at clock reading `now`.
    pub fn try_read_cache(&self, ttl_secs: u32, now: u64) -> (r: Option<ReleaseInfo>)
        ensures
            r == cached_release(self.cache, ttl_secs, now),
    {
        if ttl_secs == 0 {
            return None;
        }
        match &self.cache {
            Some(state) => {
                let elapsed = if now >= state.at {
                    (now - state.at) / NANOS_PER_SEC
                } else {
                    0
                };
                if elapsed < ttl_secs as u64 {
                    Some(state.release.clone())
                } else {
                    None
                }
            },
            None => None,
        }
    }

    /// Caches `release`, fetched at clock reading `now`, in place of what was
    /// cached before.
    pub fn store_cache(&mut self, release: ReleaseInfo, now: u64)
        ensures
            *final(self) == with_cached(*old(self), release, now),
    {
        self.cache = Some(CacheState { at: now, release });
    }

    /// The result of a check that found `latest_release`: an update exists
    /// exactly when its version is newer than the running one, and only then
    /// is the release included.
    pub fn build_result(&self, latest_release: ReleaseInfo) -> (r: UpdateCheckResult)
        ensures
            r == update_result(self.current_version, latest_release),
    {
        let has_update = is_newer_version(self.current_version.as_str(), latest_release.version.as_str());
        UpdateCheckResult {
            has_update,
            current_version: self.current_version.clone(),
            latest_release: if has_update {
                Some(latest_release)
            } else {
                None
            },
        }
    }

    /// First half of `check_for_update`: given the settings as loaded (or
    /// the error that loading gave) and the clock reading `now`, answers
    /// from the cache or asks for the latest release to be fetched.
    pub fn begin_check(&self, settings: &Result<TauriTavernSettings, DomainError>, now: u64) -> (r:
        CheckStep)
        ensures
            r == check_step(*self, ttl_of(*settings), now),
    {
        let ttl_secs = Self::read_cache_ttl_secs(settings);
        match self.try_read_cache(ttl_secs, now) {
            Some(release) => CheckStep::Answered(self.build_result(release)),
            None => CheckStep::FetchLatestRelease,
        }
    }

    /// Second half of `check_for_update`: given what the repository answered
    /// and the clock reading `now`, caches a fetched release and returns the
    /// result; an error is returned as it came and leaves the cache as it was.
    pub fn complete_check(&mut self, fetched: Result<ReleaseInfo, DomainError>, now: u64) -> (r:
        Result<UpdateCheckResult, DomainError>)
        ensures
            match fetched {
                Ok(release) => {
                    &&& r == Ok::<UpdateCheckResult, DomainError>(
                        update_result(old(self).current_version, release),
                    )
                    &&& *final(self) == with_cached(*old(self), release, now)
                },
                Err(e) => {
                    &&& r == Err::<UpdateCheckResult, DomainError>(e)
                    &&& *final(self) == *old(self)
                },
            },
    {
        match fetched {
            Ok(release) => {
                self.store_cache(release.clone(), now);
                Ok(self.build_result(release))
            },
            Err(err) => Err(err),
        }
    }
}

// ---------------------------------------------------------------------------
// Laws
// ---------------------------------------------------------------------------

/// A release that was fetched at `fetched_at` answers every check made while
/// it is younger than a non-zero cache lifetime, without a new fetch.
pub proof fn lemma_cache_answers_within_ttl(
    service: UpdateService,
    release: ReleaseInfo,
    fetched_at: u64,
    ttl_secs: u32,
    now: u64,
)
    requires
        ttl_secs > 0,
        elapsed_secs(fetched_at, now) < ttl_secs,
    ensures
        check_step(with_cached(service, release, fetched_at), ttl_secs, now)
            == CheckStep::Answered(update_result(service.current_version, release)),
{
}

/// With a cache lifetime of 0 every check fetches the latest release.
pub proof fn lemma_zero_ttl_always_fetches(service: UpdateService, now: u64)
    ensures
        check_step(service, 0, now) == CheckStep::FetchLatestRelease,
{
}

/// Settings that cannot be read turn the cache off.
pub proof fn lemma_unreadable_settings_fetch(service: UpdateService, e: DomainError, now: u64)
    ensures
        check_step(service, ttl_of(Err(e)), now) == CheckStep::FetchLatestRelease,
{
}

/// A cached release stops answering once it is as old as the cache lifetime.
pub proof fn lemma_cache_expires(
    service: UpdateService,
    release: ReleaseInfo,
    fetched_at: u64,
    ttl_secs: u32,
    now: u64,
)
    requires
        elapsed_secs(fetched_at, now) >= ttl_secs,
    ensures
        check_step(with_cached(service, release, fetched_at), ttl_secs, now)
            == CheckStep::FetchLatestRelease,
{
}

/// A check result lists the latest release exactly when it reports an
/// update, and a release of the running version itself is never an update.
pub proof fn lemma_result_lists_release_iff_update(current: String, latest: ReleaseInfo)
    ensures
        update_result(current, latest).latest_release is Some <==> update_result(
            current,
            latest,
        ).has_update,
        update_result(current, latest).current_version == current,
        current@ == latest.version@ ==> !update_result(current, latest).has_update,
{
    crate::version::lemma_newer_irreflexive(current@);
}

/// When a check reports an update it lists exactly the release that was
/// fetched, unchanged; when it reports none it lists nothing. An update is
/// reported exactly when the release's version is newer than the running one.
pub proof fn lemma_result_lists_fetched_release(current: String, latest: ReleaseInfo)
    ensures
        update_result(current, latest).has_update == newer_version(current@, latest.version@),
        update_result(current, latest).has_update ==> update_result(current, latest).latest_release
            == Some(latest),
        !update_result(current, latest).has_update ==> update_result(
            current,
            latest,
        ).latest_release == None::<ReleaseInfo>,
{
}

/// The age of a cached release counts whole seconds, rounding down, and a
/// clock reading earlier than the fetch counts as no time at all.
pub proof fn lemma_elapsed_whole_seconds(at: u64, now: u64)
    ensures
        now >= at ==> elapsed_secs(at, now) * 1_000_000_000 <= now - at < (elapsed_secs(at, now)
            + 1) * 1_000_000_000,
        now < at ==> elapsed_secs(at, now) == 0,
        elapsed_secs(at, now) >= 0,
{
}

} // verus!
