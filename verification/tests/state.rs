//! Token cache, console-URL cell, cookie records, the restart-forced
//! policy, profiler-state predicates and telemetry bootstrap values.

use felt_ipc::console::ConsoleUrlCell;
use felt_ipc::cookie_record::{
    same_site_from_code, CookieRecord, SameSitePolicy, SAMESITE_CODE_LAX, SAMESITE_CODE_NONE,
    SAMESITE_CODE_STRICT, SAMESITE_CODE_UNSET,
};
use felt_ipc::glean::{Config, InitOptions, Uploader};
use felt_ipc::profiler_state::{
    is_active, is_active_and_unpaused, current_thread_is_being_profiled_for_markers,
    PROFILER_ACTIVE, PROFILER_ETW_COLLECTION, PROFILER_PAUSED, PROFILER_PERFETTO_TRACING,
};
use felt_ipc::restart_forced::{FeltRestartForced, LoadDecision};
use felt_ipc::tokens::{TokenCache, TokenState, TOKEN_EXPIRY_SKEW};

#[test]
fn token_expiry_is_absolute_and_saturating() {
    let t = TokenState::with_relative_expiry("a".to_string(), "r".to_string(), 3600, 1_000);
    assert_eq!(t.expires_at, 4_600);
    let t = TokenState::with_relative_expiry("a".to_string(), "r".to_string(), i64::MAX, 10);
    assert_eq!(t.expires_at, i64::MAX);
}

// needs_refresh is true iff expiry + skew < now, with the skew fixed at 300
// seconds.
#[test]
fn needs_refresh_boundary() {
    assert_eq!(TOKEN_EXPIRY_SKEW, 300);
    let t = TokenState {
        access_token: "a".to_string(),
        refresh_token: "r".to_string(),
        expires_at: 100,
    };
    assert!(!t.needs_refresh(400)); // 100 + 300 == 400, not strictly before
    assert!(t.needs_refresh(401)); // 100 + 300 < 401
    let never = TokenState {
        access_token: "a".to_string(),
        refresh_token: "r".to_string(),
        expires_at: i64::MAX,
    };
    assert!(!never.needs_refresh(i64::MAX));
}

#[test]
fn expired_access_token_is_withheld() {
    let t = TokenState {
        access_token: "secret".to_string(),
        refresh_token: "r".to_string(),
        expires_at: 100,
    };
    assert_eq!(t.access_token_if_valid(399), "secret".to_string());
    assert_eq!(t.access_token_if_valid(401), String::new());
}

#[test]
fn cache_stores_and_reads_whole_triples() {
    let cache = TokenCache::new();
    let empty = cache.snapshot();
    assert_eq!(empty.access_token, String::new());
    assert_eq!(empty.refresh_token, String::new());
    assert_eq!(empty.expires_at, 0);

    cache.store(TokenState {
        access_token: "acc".to_string(),
        refresh_token: "ref".to_string(),
        expires_at: 77,
    });
    let read = cache.snapshot();
    assert_eq!(read.access_token, "acc".to_string());
    assert_eq!(read.refresh_token, "ref".to_string());
    assert_eq!(read.expires_at, 77);
    assert_eq!(cache.refresh_token(), "ref".to_string());
}

#[test]
fn cache_set_tokens_now_uses_the_clock() {
    let cache = TokenCache::new();
    // A token valid for an hour from now is not in need of refresh, and its
    // access token is handed out.
    cache.set_tokens_now("acc".to_string(), "ref".to_string(), 3_600);
    assert!(!cache.needs_refresh_now());
    assert_eq!(cache.access_token_if_valid_now(), "acc".to_string());
    // A token that expired two hours ago (beyond the skew) is withheld.
    cache.set_tokens_now("acc".to_string(), "ref".to_string(), -7_200);
    assert!(cache.needs_refresh_now());
    assert_eq!(cache.access_token_if_valid_now(), String::new());
}

// Two snapshots taken under simultaneously held read locks are one and the
// same complete triple: an overwrite is atomic.
#[test]
fn overlapping_readers_see_one_triple() {
    let cache = TokenCache::new();
    cache.store(TokenState {
        access_token: "acc".to_string(),
        refresh_token: "ref".to_string(),
        expires_at: 5,
    });
    let (a, b) = cache.paired_snapshots();
    assert_eq!(a, b);
    assert_eq!(a.access_token, "acc".to_string());
}

#[test]
fn console_url_first_write_wins() {
    let mut cell = ConsoleUrlCell::new_empty();
    assert_eq!(cell.console_url(), &None);
    assert!(cell.set_console_url("https://first.test".to_string()));
    assert_eq!(cell.console_url(), &Some("https://first.test".to_string()));
    // The second write is observably rejected and changes nothing.
    assert!(!cell.set_console_url("https://second.test".to_string()));
    assert_eq!(cell.console_url(), &Some("https://first.test".to_string()));
}

#[test]
fn same_site_codes_round_trip_known_policies() {
    assert_eq!(same_site_from_code(SAMESITE_CODE_STRICT), SameSitePolicy::Strict);
    assert_eq!(same_site_from_code(SAMESITE_CODE_LAX), SameSitePolicy::Lax);
    assert_eq!(same_site_from_code(SAMESITE_CODE_NONE), SameSitePolicy::Unrestricted);
    assert_eq!(same_site_from_code(SAMESITE_CODE_UNSET), SameSitePolicy::Unset);
    // An unknown code means the attribute was absent.
    assert_eq!(same_site_from_code(42), SameSitePolicy::Unset);
}

#[test]
fn cookie_record_host_fields() {
    let session_cookie = CookieRecord::from_host_fields(
        "sid".to_string(),
        "123".to_string(),
        ".example.test".to_string(),
        "/".to_string(),
        SAMESITE_CODE_LAX,
        true,
        true,
        None,
    );
    assert!(session_cookie.is_session());
    assert_eq!(session_cookie.host_expiry_ms(), 0);
    assert_eq!(session_cookie.host_same_site_code(), SAMESITE_CODE_LAX);

    let persistent = CookieRecord::from_host_fields(
        "sid".to_string(),
        "123".to_string(),
        ".example.test".to_string(),
        "/".to_string(),
        99,
        false,
        false,
        Some(1_700_000_000_000),
    );
    assert!(!persistent.is_session());
    assert_eq!(persistent.host_expiry_ms(), 1_700_000_000_000);
    assert_eq!(persistent.same_site, SameSitePolicy::Unset);
    // An absent attribute is handed to the store as cross-site.
    assert_eq!(persistent.host_same_site_code(), SAMESITE_CODE_NONE);
}

#[test]
fn restart_forced_rejects_web_loads_once_latched() {
    let mut policy = FeltRestartForced::new();
    assert_eq!(policy.should_load("https"), LoadDecision::Accept);

    policy.observe("unrelated-topic");
    assert_eq!(policy.should_load("https"), LoadDecision::Accept);

    policy.observe("felt-restart-forced");
    assert_eq!(policy.should_load("http"), LoadDecision::RejectRestartForced);
    assert_eq!(policy.should_load("https"), LoadDecision::RejectRestartForced);
    assert_eq!(policy.should_process("https"), LoadDecision::RejectRestartForced);
    // Non-web schemes stay usable, so the restart UI itself can load.
    assert_eq!(policy.is_restart_forced("chrome"), LoadDecision::Accept);
}

#[test]
fn profiler_state_predicates_read_the_flag_bits() {
    assert!(!is_active(0));
    assert!(is_active(PROFILER_ACTIVE));
    assert!(is_active_and_unpaused(PROFILER_ACTIVE));
    assert!(!is_active_and_unpaused(PROFILER_ACTIVE | PROFILER_PAUSED));
    assert!(!is_active_and_unpaused(PROFILER_PAUSED));

    assert!(current_thread_is_being_profiled_for_markers(PROFILER_ACTIVE, true));
    assert!(!current_thread_is_being_profiled_for_markers(PROFILER_ACTIVE, false));
    assert!(!current_thread_is_being_profiled_for_markers(
        PROFILER_ACTIVE | PROFILER_PAUSED,
        true
    ));
    // ETW collection and Perfetto tracing accept markers on their own.
    assert!(current_thread_is_being_profiled_for_markers(PROFILER_ETW_COLLECTION, false));
    assert!(current_thread_is_being_profiled_for_markers(PROFILER_PERFETTO_TRACING, false));
}

#[test]
fn glean_options_come_from_the_config() {
    let cfg = Config {
        data_dir: "/data/crashes".to_string(),
        locale: Some("de-DE".to_string()),
    };
    let opts = InitOptions::from_config(&cfg);
    assert_eq!(opts.data_dir, "/data/crashes".to_string());
    assert_eq!(opts.locale, Some("de-DE".to_string()));
}

#[test]
fn glean_init_computes_store_settings() {
    let opts = InitOptions {
        data_dir: "/data/crashes".to_string(),
        locale: None,
    };
    let settings = opts.init("firefox", Some("20260101000000".to_string()), "145.0");
    assert_eq!(settings.data_dir, "/data/crashes/glean".to_string());
    assert_eq!(settings.app_id, "firefox.crashreporter".to_string());
    assert_eq!(settings.app_build, "20260101000000".to_string());
    assert_eq!(settings.app_display_version, "145.0".to_string());
    assert_eq!(settings.locale, None);

    let opts = InitOptions {
        data_dir: "/d".to_string(),
        locale: None,
    };
    // Without a build id, the display version stands in.
    let settings = opts.init("firefox", None, "145.0");
    assert_eq!(settings.app_build, "145.0".to_string());

    let _uploader = Uploader::new();
}
