//! Token expiry with the 60-second skew, the refresh decision, the header
//! value, the rate-limit spacing and the backoff schedule.

use seatalk_tgs::config::{AppConfig, SeatalkConfig, TelegramConfig};
use seatalk_tgs::retry::download_backoff;
use seatalk_tgs::seatalk_api::auth::{needs_refresh, AccessToken, Auth};
use seatalk_tgs::seatalk_api::endpoint::Endpoint;
use seatalk_tgs::seatalk_api::limiter::RateLimiter;

fn token(expire: u64) -> AccessToken {
    AccessToken { app_access_token: "tok".to_string(), expire }
}

#[test]
fn expiry_is_now_plus_skew_against_expire() {
    let now: u64 = 1_000_000;
    assert!(token(now + 59).is_expired(now));
    assert!(token(now + 60).is_expired(now));
    assert!(!token(now + 61).is_expired(now));
}

#[test]
fn expiry_in_the_past_and_far_future() {
    let now: u64 = 1_000_000;
    assert!(token(0).is_expired(now));
    assert!(!token(u64::MAX).is_expired(now));
}

#[test]
fn refresh_needed_without_or_with_stale_token() {
    let now: u64 = 500_000;
    assert!(needs_refresh(&None, now));
    assert!(needs_refresh(&Some(token(now + 10)), now));
    assert!(!needs_refresh(&Some(token(now + 3600)), now));
}

#[test]
fn bearer_value_prefixes_the_token() {
    assert_eq!(token(0).bearer_value(), "Bearer tok");
}

#[test]
fn auth_builds_the_token_request() {
    let auth = Auth { app_id: "id-1".to_string(), app_secret: "sec-1".to_string() };
    let req = auth.token_request();
    let (_, body) = req.body().unwrap();
    let v: serde_json::Value = serde_json::from_str(&body).unwrap();
    assert_eq!(v["app_id"].as_str().unwrap(), "id-1");
    assert_eq!(v["app_secret"].as_str().unwrap(), "sec-1");
}

#[test]
fn rapid_calls_are_spaced_by_the_interval() {
    let mut lim = RateLimiter::new(2000);
    let now: u64 = 10_000;
    let mut grants = Vec::new();
    for _ in 0..5 {
        grants.push(lim.acquire(now));
    }
    for (k, t) in grants.iter().enumerate() {
        assert_eq!(*t, now + 2000 * k as u64);
    }
    assert!(grants[4] - grants[0] >= 4 * 2000);
}

#[test]
fn limiter_is_free_after_a_quiet_stretch() {
    let mut lim = RateLimiter::new(2000);
    let first = lim.acquire(1000);
    assert_eq!(first, 1000);
    let second = lim.acquire(10_000);
    assert_eq!(second, 10_000);
}

#[test]
fn backoff_doubles_and_caps() {
    let p = download_backoff();
    assert_eq!(p.delay_ms(0), 1000);
    assert_eq!(p.delay_ms(1), 2000);
    assert_eq!(p.delay_ms(2), 4000);
    assert_eq!(p.delay_ms(10), 60000);
    assert!(p.should_retry(0));
    assert!(p.should_retry(2));
    assert!(!p.should_retry(3));
}

#[test]
fn config_assembles_from_sections() {
    let cfg = AppConfig::new(
        TelegramConfig { api_token: "t".to_string() },
        SeatalkConfig {
            host: "h".to_string(),
            app_id: "i".to_string(),
            app_secret: "s".to_string(),
        },
    );
    assert_eq!(cfg.telegram.api_token, "t");
    assert_eq!(cfg.seatalk.host, "h");
    assert_eq!(cfg.seatalk.app_id, "i");
    assert_eq!(cfg.seatalk.app_secret, "s");
}
