//! Caller configuration: tier, per-call request size, and the filter options
//! handed through to the request-building collaborator.

use vstd::prelude::*;
use crate::constants::{FREE_REQUEST_SIZE, PREMIUM_REQUEST_SIZE};
use crate::types::{Countries, Level, Protocol};

verus! {

/// A caller's class: rate-limited callers honour the shared minimum interval,
/// unlimited callers bypass the shared gate entirely.
#[derive(Clone, Copy, Debug, PartialEq, Eq, Structural)]
pub enum Tier {
    RateLimited,
    Unlimited,
}

/// Configuration of one fetching caller. An API key makes the caller
/// unlimited; the request size is fixed when the options are built and is
/// always at least one.
#[derive(Debug)]
pub struct Opts {
    api_key: Option<String>,
    countries: Countries,
    level: Option<Level>,
    protocol: Option<Protocol>,
    cookies: Option<bool>,
    request_size: u8,
}

impl Opts {
    #[verifier::type_invariant]
    spec fn wf(&self) -> bool {
        self.request_size >= 1
    }

    /// The configured API key, if any.
    pub closed spec fn spec_api_key(&self) -> Option<String> {
        self.api_key
    }

    /// Whether an API key is configured.
    pub open spec fn spec_has_key(&self) -> bool {
        self.spec_api_key() is Some
    }

    /// The caller class these options select.
    pub open spec fn spec_tier(&self) -> Tier {
        if self.spec_has_key() {
            Tier::Unlimited
        } else {
            Tier::RateLimited
        }
    }

    /// How many records one remote call yields under these options.
    pub closed spec fn spec_request_size(&self) -> u8 {
        self.request_size
    }

    pub closed spec fn spec_countries(&self) -> Countries {
        self.countries
    }

    pub closed spec fn spec_level(&self) -> Option<Level> {
        self.level
    }

    pub closed spec fn spec_protocol(&self) -> Option<Protocol> {
        self.protocol
    }

    pub closed spec fn spec_cookies(&self) -> Option<bool> {
        self.cookies
    }

    /// Starts collecting options.
    pub fn builder() -> (r: OptsBuilder)
        ensures
            r.spec_api_key() is None,
            r.spec_limit() is None,
            !r.spec_countries().spec_is_allow(),
            r.spec_countries().spec_list().len() == 0,
            r.spec_level() is None,
            r.spec_protocol() is None,
            r.spec_cookies() is None,
    {
        OptsBuilder {
            api_key: None,
            countries: Countries::default(),
            level: None,
            protocol: None,
            cookies: None,
            limit: None,
        }
    }

    /// True exactly when an API key is configured.
    pub fn is_premium(&self) -> (r: bool)
        ensures
            r == self.spec_has_key(),
    {
        self.api_key.is_some()
    }

    /// The caller class these options select.
    pub fn tier(&self) -> (t: Tier)
        ensures
            t == self.spec_tier(),
    {
        if self.api_key.is_some() {
            Tier::Unlimited
        } else {
            Tier::RateLimited
        }
    }

    /// Records per remote call; never zero.
    pub fn request_size(&self) -> (n: u8)
        ensures
            n == self.spec_request_size(),
            n >= 1,
    {
        proof {
            use_type_invariant(&*self);
        }
        self.request_size
    }

    /// The configured API key, if any.
    pub fn api_key(&self) -> (r: &Option<String>)
        ensures
            *r == self.spec_api_key(),
    {
        &self.api_key
    }

    /// The configured country filter.
    pub fn countries(&self) -> (r: &Countries)
        ensures
            *r == self.spec_countries(),
    {
        &self.countries
    }

    /// The requested anonymity level, if any.
    pub fn level(&self) -> (r: Option<Level>)
        ensures
            r == self.spec_level(),
    {
        self.level
    }

    /// The requested protocol, if any.
    pub fn protocol(&self) -> (r: Option<Protocol>)
        ensures
            r == self.spec_protocol(),
    {
        self.protocol
    }

    /// The requested cookie-support flag, if any.
    pub fn cookies(&self) -> (r: Option<bool>)
        ensures
            r == self.spec_cookies(),
    {
        self.cookies
    }
}

impl Default for Opts {
    /// A keyless caller: rate-limited, free request size, no filters.
    fn default() -> (r: Self)
        ensures
            r.spec_api_key() is None,
            r.spec_tier() == Tier::RateLimited,
            r.spec_request_size() == FREE_REQUEST_SIZE,
            !r.spec_countries().spec_is_allow(),
            r.spec_countries().spec_list().len() == 0,
            r.spec_level() is None,
            r.spec_protocol() is None,
            r.spec_cookies() is None,
    {
        Opts {
            api_key: None,
            countries: Countries::default(),
            level: None,
            protocol: None,
            cookies: None,
            request_size: FREE_REQUEST_SIZE,
        }
    }
}

/// Accumulates options before the request size is resolved.
#[derive(Debug)]
pub struct OptsBuilder {
    api_key: Option<String>,
    countries: Countries,
    level: Option<Level>,
    protocol: Option<Protocol>,
    cookies: Option<bool>,
    limit: Option<u8>,
}

impl OptsBuilder {
    #[verifier::type_invariant]
    spec fn wf(&self) -> bool {
        self.limit matches Some(n) ==> n >= 1
    }

    /// The API key collected so far, if any.
    pub closed spec fn spec_api_key(&self) -> Option<String> {
        self.api_key
    }

    pub open spec fn spec_has_key(&self) -> bool {
        self.spec_api_key() is Some
    }

    pub closed spec fn spec_limit(&self) -> Option<u8> {
        self.limit
    }

    pub closed spec fn spec_countries(&self) -> Countries {
        self.countries
    }

    pub closed spec fn spec_level(&self) -> Option<Level> {
        self.level
    }

    pub closed spec fn spec_protocol(&self) -> Option<Protocol> {
        self.protocol
    }

    pub closed spec fn spec_cookies(&self) -> Option<bool> {
        self.cookies
    }

    /// Configures the API key that lifts the caller to the unlimited tier.
    pub fn api_key(self, key: String) -> (r: Self)
        ensures
            r.spec_api_key() == Some(key),
            r.spec_limit() == self.spec_limit(),
            r.spec_countries() == self.spec_countries(),
            r.spec_level() == self.spec_level(),
            r.spec_protocol() == self.spec_protocol(),
            r.spec_cookies() == self.spec_cookies(),
    {
        proof {
            use_type_invariant(&self);
        }
        OptsBuilder { api_key: Some(key), ..self }
    }

    /// Configures the country filter.
    pub fn countries(self, countries: Countries) -> (r: Self)
        ensures
            r.spec_countries() == countries,
            r.spec_api_key() == self.spec_api_key(),
            r.spec_limit() == self.spec_limit(),
            r.spec_level() == self.spec_level(),
            r.spec_protocol() == self.spec_protocol(),
            r.spec_cookies() == self.spec_cookies(),
    {
        proof {
            use_type_invariant(&self);
        }
        OptsBuilder { countries, ..self }
    }

    /// Requests a minimum anonymity level.
    pub fn level(self, level: Level) -> (r: Self)
        ensures
            r.spec_level() == Some(level),
            r.spec_api_key() == self.spec_api_key(),
            r.spec_limit() == self.spec_limit(),
            r.spec_countries() == self.spec_countries(),
            r.spec_protocol() == self.spec_protocol(),
            r.spec_cookies() == self.spec_cookies(),
    {
        proof {
            use_type_invariant(&self);
        }
        OptsBuilder { level: Some(level), ..self }
    }

    /// Requests one wire protocol.
    pub fn protocol(self, protocol: Protocol) -> (r: Self)
        ensures
            r.spec_protocol() == Some(protocol),
            r.spec_api_key() == self.spec_api_key(),
            r.spec_limit() == self.spec_limit(),
            r.spec_countries() == self.spec_countries(),
            r.spec_level() == self.spec_level(),
            r.spec_cookies() == self.spec_cookies(),
    {
        proof {
            use_type_invariant(&self);
        }
        OptsBuilder { protocol: Some(protocol), ..self }
    }

    /// Requests cookie support.
    pub fn cookies(self, cookies: bool) -> (r: Self)
        ensures
            r.spec_cookies() == Some(cookies),
            r.spec_api_key() == self.spec_api_key(),
            r.spec_limit() == self.spec_limit(),
            r.spec_countries() == self.spec_countries(),
            r.spec_level() == self.spec_level(),
            r.spec_protocol() == self.spec_protocol(),
    {
        proof {
            use_type_invariant(&self);
        }
        OptsBuilder { cookies: Some(cookies), ..self }
    }

    /// Overrides how many records one remote call yields. A remote call
    /// always yields at least one record, so zero is not a meaningful size.
    pub fn limit(self, n: u8) -> (r: Self)
        requires
            n >= 1,
        ensures
            r.spec_limit() == Some(n),
            r.spec_api_key() == self.spec_api_key(),
            r.spec_countries() == self.spec_countries(),
            r.spec_level() == self.spec_level(),
            r.spec_protocol() == self.spec_protocol(),
            r.spec_cookies() == self.spec_cookies(),
    {
        proof {
            use_type_invariant(&self);
        }
        OptsBuilder { limit: Some(n), ..self }
    }

    /// Resolves the request size (an explicit limit, or the tier's default)
    /// and freezes the options.
    pub fn build(self) -> (r: Opts)
        ensures
            r.spec_api_key() == self.spec_api_key(),
            r.spec_request_size() == (match self.spec_limit() {
                Some(n) => n,
                None => if self.spec_has_key() {
                    PREMIUM_REQUEST_SIZE
                } else {
                    FREE_REQUEST_SIZE
                },
            }),
            r.spec_countries() == self.spec_countries(),
            r.spec_level() == self.spec_level(),
            r.spec_protocol() == self.spec_protocol(),
            r.spec_cookies() == self.spec_cookies(),
    {
        proof {
            use_type_invariant(&self);
        }
        let request_size = match self.limit {
            Some(n) => n,
            None => if self.api_key.is_some() {
                PREMIUM_REQUEST_SIZE
            } else {
                FREE_REQUEST_SIZE
            },
        };
        Opts {
            api_key: self.api_key,
            countries: self.countries,
            level: self.level,
            protocol: self.protocol,
            cookies: self.cookies,
            request_size,
        }
    }
}

} // verus!
