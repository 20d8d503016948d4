//! Caller configuration observed from outside.

use proxy_fetcher::constants::{FREE_REQUEST_SIZE, PREMIUM_REQUEST_SIZE};
use proxy_fetcher::opts::{Opts, Tier};
use proxy_fetcher::types::{Countries, Level, Protocol};

#[test]
fn default_is_keyless_and_rate_limited() {
    let opts = Opts::default();
    assert!(!opts.is_premium());
    assert_eq!(opts.tier(), Tier::RateLimited);
    assert_eq!(opts.request_size(), FREE_REQUEST_SIZE);
    assert!(opts.api_key().is_none());
    assert!(opts.level().is_none());
    assert!(opts.protocol().is_none());
    assert!(opts.cookies().is_none());
    assert!(opts.countries().is_empty());
}

#[test]
fn api_key_lifts_to_unlimited() {
    let opts = Opts::builder().api_key("<key>".to_string()).build();
    assert!(opts.is_premium());
    assert_eq!(opts.tier(), Tier::Unlimited);
    assert_eq!(opts.request_size(), PREMIUM_REQUEST_SIZE);
    assert_eq!(opts.api_key().as_deref(), Some("<key>"));
}

#[test]
fn explicit_limit_overrides_tier_default() {
    let keyless = Opts::builder().limit(7).build();
    assert_eq!(keyless.request_size(), 7);
    assert_eq!(keyless.tier(), Tier::RateLimited);

    let premium = Opts::builder().api_key("<key>".to_string()).limit(5).build();
    assert_eq!(premium.request_size(), 5);
    assert_eq!(premium.tier(), Tier::Unlimited);
}

#[test]
fn builder_carries_filters_through() {
    let countries = Countries::allow().country("CA".to_string()).build();
    let opts = Opts::builder()
        .level(Level::Elite)
        .protocol(Protocol::Socks5)
        .cookies(true)
        .countries(countries.clone())
        .build();
    assert_eq!(opts.level(), Some(Level::Elite));
    assert_eq!(opts.protocol(), Some(Protocol::Socks5));
    assert_eq!(opts.cookies(), Some(true));
    assert_eq!(*opts.countries(), countries);
    assert!(!opts.is_premium());
    assert_eq!(opts.request_size(), FREE_REQUEST_SIZE);
}
