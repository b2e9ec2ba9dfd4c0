use vstd::prelude::*;

pub mod client;
pub mod crypto;
pub mod error;
pub mod scan;
pub mod sig;
pub mod store;
pub mod text;
pub mod web;

use crate::client::KeygenClient;
use crate::text::joined;

verus! {

/// Length in bytes of an Ed25519 verifying key.
pub const PUBLIC_KEY_LENGTH: usize = 32;

/// Length in bytes of an Ed25519 signature.
pub const SIGNATURE_LENGTH: usize = 64;

/// Cache lifetime, in minutes, until one is chosen.
pub const DEFAULT_CACHE_LIFETIME: i64 = 240;

/// Shortest cache lifetime that can be chosen, in minutes.
pub const MIN_CACHE_LIFETIME: i64 = 60;

/// Longest cache lifetime that can be chosen, in minutes.
pub const MAX_CACHE_LIFETIME: i64 = 1440;

/// Largest age of a live response, in minutes, that a new client accepts.
pub const DEFAULT_MAX_CLOCK_DRIFT: i64 = 5;

/// The API version that request paths start with.
pub const API_VERSION: &'static str = "v1";

/// The API's address for account-scoped clients.
pub const DEFAULT_API_URL: &'static str = "https://api.keygen.sh";

/// `v` kept within `lo..=hi`.
pub open spec fn clamped(v: i64, lo: i64, hi: i64) -> i64 {
    if v < lo {
        lo
    } else if v > hi {
        hi
    } else {
        v
    }
}

/// The configuration from which a client is built.
#[derive(Clone)]
pub struct Builder {
    pub custom_domain: Option<String>,
    pub api_url: Option<String>,
    pub account_id: Option<String>,
    pub verify_key: String,
    pub version_header: Option<String>,
    /// In minutes.
    pub cache_lifetime: i64,
}

impl Builder {
    /// A configuration scoped to an account on the default API address.
    pub fn new(account_id: String, verify_key: String) -> (r: Builder)
        ensures
            r.custom_domain is None,
            r.api_url matches Some(u) && u@ == DEFAULT_API_URL@,
            r.account_id matches Some(a) && a@ == account_id@,
            r.verify_key@ == verify_key@,
            r.version_header is None,
            r.cache_lifetime == DEFAULT_CACHE_LIFETIME,
    {
        Builder {
            custom_domain: None,
            api_url: Some(DEFAULT_API_URL.to_owned()),
            account_id: Some(account_id),
            verify_key,
            version_header: None,
            cache_lifetime: DEFAULT_CACHE_LIFETIME,
        }
    }

    /// A configuration for a custom domain, with no account scope.
    pub fn with_custom_domain(custom_domain: String, verify_key: String) -> (r: Builder)
        ensures
            r.custom_domain matches Some(d) && d@ == custom_domain@,
            r.api_url is None,
            r.account_id is None,
            r.verify_key@ == verify_key@,
            r.version_header is None,
            r.cache_lifetime == DEFAULT_CACHE_LIFETIME,
    {
        Builder {
            custom_domain: Some(custom_domain),
            account_id: None,
            api_url: None,
            verify_key,
            version_header: None,
            cache_lifetime: DEFAULT_CACHE_LIFETIME,
        }
    }

    /// Sets the API address; ignored for a custom domain.
    pub fn api_url(self, api_url: String) -> (r: Builder)
        ensures
            self.custom_domain is None ==> (r.api_url matches Some(u) && u@ == api_url@),
            self.custom_domain is Some ==> r.api_url == self.api_url,
            r.custom_domain == self.custom_domain,
            r.account_id == self.account_id,
            r.verify_key == self.verify_key,
            r.version_header == self.version_header,
            r.cache_lifetime == self.cache_lifetime,
    {
        let mut b = self;
        if b.custom_domain.is_none() {
            b.api_url = Some(api_url);
        }
        b
    }

    /// Sets the `Keygen-Version` header.
    pub fn version_header(self, version_header: String) -> (r: Builder)
        ensures
            r.version_header matches Some(v) && v@ == version_header@,
            r.custom_domain == self.custom_domain,
            r.api_url == self.api_url,
            r.account_id == self.account_id,
            r.verify_key == self.verify_key,
            r.cache_lifetime == self.cache_lifetime,
    {
        let mut b = self;
        b.version_header = Some(version_header);
        b
    }

    /// Sets the cache lifetime, in minutes, kept within 60 to 1440.
    pub fn cache_lifetime(self, cache_lifetime: i64) -> (r: Builder)
        ensures
            r.cache_lifetime == clamped(cache_lifetime, MIN_CACHE_LIFETIME, MAX_CACHE_LIFETIME),
            r.custom_domain == self.custom_domain,
            r.api_url == self.api_url,
            r.account_id == self.account_id,
            r.verify_key == self.verify_key,
            r.version_header == self.version_header,
    {
        let mut b = self;
        b.cache_lifetime = if cache_lifetime < MIN_CACHE_LIFETIME {
            MIN_CACHE_LIFETIME
        } else if cache_lifetime > MAX_CACHE_LIFETIME {
            MAX_CACHE_LIFETIME
        } else {
            cache_lifetime
        };
        b
    }

    /// The client this configuration describes. A custom domain is served over HTTPS
    /// with no account scope; otherwise the API address (or the default one) is scoped to
    /// the account.
    pub fn client(&self, user_agent: String) -> (r: KeygenClient)
        ensures
            r.verify_key@ == self.verify_key@,
            r.api_version@ == API_VERSION@,
            r.version_header == self.version_header,
            r.max_clock_drift == DEFAULT_MAX_CLOCK_DRIFT,
            r.cache_lifetime == self.cache_lifetime,
            r.user_agent@ == user_agent@,
            match self.custom_domain {
                Some(d) => r.account_id is None && r.api_url@ == "https://"@ + d@,
                None => r.account_id == self.account_id && match self.api_url {
                    Some(u) => r.api_url@ == u@,
                    None => r.api_url@ == DEFAULT_API_URL@,
                },
            },
    {
        let (account_id, api_url) = match &self.custom_domain {
            Some(d) => (None, joined("https://", d.as_str())),
            None => (
                self.account_id.clone(),
                match &self.api_url {
                    Some(u) => u.clone(),
                    None => DEFAULT_API_URL.to_owned(),
                },
            ),
        };
        KeygenClient {
            account_id,
            verify_key: self.verify_key.clone(),
            api_url,
            api_version: API_VERSION.to_owned(),
            version_header: self.version_header.clone(),
            max_clock_drift: DEFAULT_MAX_CLOCK_DRIFT,
            cache_lifetime: self.cache_lifetime,
            user_agent,
        }
    }
}

} // verus!
