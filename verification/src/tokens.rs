use vstd::prelude::*;

use crate::errors::EnergiaProError;
use crate::requests::{spec_validate_authenticate, AuthenticateRequest};
use crate::text::{is_wspace_char, spec_is_blank};

verus! {

/// How long a fresh token is cached, in seconds: 55 minutes, although
/// the vendor token lives 60, leaving a safety margin against clock
/// drift and in-flight expiry.
pub const TOKEN_TTL_SECS: u64 = 3300;

/// An API token, held with the instant at which the cache stops serving
/// it, in seconds of the caller's monotonic clock.
#[derive(Debug, Clone, PartialEq, Eq)]
pub struct Token {
    value: String,
    expires_at: u64,
}

impl Token {
    /// The token text.
    pub closed spec fn spec_value(self) -> Seq<char> {
        self.value@
    }

    /// The instant the token expires.
    pub closed spec fn spec_expires_at(self) -> u64 {
        self.expires_at
    }

    /// Create a token expiring one TTL after `now`.
    pub fn new(value: String, now: u64) -> (t: Token)
        requires
            now <= u64::MAX - TOKEN_TTL_SECS,
        ensures
            t.spec_value() == value@,
            t.spec_expires_at() == now + TOKEN_TTL_SECS,
    {
        Token { value, expires_at: now + TOKEN_TTL_SECS }
    }

    /// Check if the token is still valid at `now`.
    pub fn is_valid(&self, now: u64) -> (r: bool)
        ensures
            r == (now < self.spec_expires_at()),
    {
        now < self.expires_at
    }

    /// Return the token value if it is valid at `now`, otherwise `None`.
    pub fn valid_value(&self, now: u64) -> (r: Option<String>)
        ensures
            match r {
                Some(v) => now < self.spec_expires_at() && v@ == self.spec_value(),
                None => now >= self.spec_expires_at(),
            },
    {
        if self.is_valid(now) {
            Some(self.value.clone())
        } else {
            None
        }
    }
}

/// The cached-token state: at most one token. The shell guards a value
/// of this type with its locks; every transition is a method here.
#[derive(Debug, Clone, PartialEq, Eq)]
pub struct TokenCache {
    cached: Option<Token>,
}

/// True when the cache holds a token that is valid at `now`.
pub open spec fn cache_has_valid(c: TokenCache, now: u64) -> bool {
    c.spec_cached() matches Some(t) && now < t.spec_expires_at()
}

/// What a lookup decides: serve the cached value, or refresh.
#[derive(Debug, PartialEq, Eq)]
pub enum ObtainStep {
    /// A valid cached token; no authentication call happens.
    UseCached(String),
    /// No valid cached token; the caller must take the refresh lock.
    Refresh,
}

impl TokenCache {
    /// The cached token, if any.
    pub closed spec fn spec_cached(self) -> Option<Token> {
        self.cached
    }

    /// An empty cache.
    pub fn new() -> (c: TokenCache)
        ensures
            c.spec_cached() is None,
    {
        TokenCache { cached: None }
    }

    /// Obtain a valid token from the cache: the cached value exactly
    /// when it has not expired.
    pub fn obtain_from_cache(&self, now: u64) -> (r: Option<String>)
        ensures
            match r {
                Some(v) => cache_has_valid(*self, now) && v@
                    == self.spec_cached().unwrap().spec_value(),
                None => !cache_has_valid(*self, now),
            },
    {
        match &self.cached {
            Some(t) => t.valid_value(now),
            None => None,
        }
    }

    /// Decide one obtain step: a valid cached token is served as it is,
    /// with no authentication; otherwise the caller must refresh. This
    /// same decision re-runs under the refresh lock, so a token stored
    /// by a concurrent caller is found before authenticating again.
    pub fn obtain_step(&self, now: u64) -> (r: ObtainStep)
        ensures
            (r is UseCached) == cache_has_valid(*self, now),
            r matches ObtainStep::UseCached(v) ==> v@ == self.spec_cached().unwrap().spec_value(),
    {
        match self.obtain_from_cache(now) {
            Some(v) => ObtainStep::UseCached(v),
            None => ObtainStep::Refresh,
        }
    }

    /// Store a fresh token, replacing whatever was cached.
    pub fn store(&mut self, value: &str, now: u64)
        requires
            now <= u64::MAX - TOKEN_TTL_SECS,
        ensures
            final(self).spec_cached() matches Some(t) && t.spec_value() == value@
                && t.spec_expires_at() == now + TOKEN_TTL_SECS,
    {
        self.cached = Some(Token::new(value.to_owned(), now));
    }

    /// Discard the cached token. Idempotent; a token string another
    /// caller already holds is unaffected.
    pub fn clear(&mut self)
        ensures
            final(self).spec_cached() is None,
    {
        self.cached = None;
    }
}

/// Concurrent cache misses collapse into a single authentication: once
/// one caller has stored a fresh token at `t_store`, every caller that
/// re-checks the cache under the refresh lock before the token expires
/// finds it valid, is served from the cache, and does not authenticate
/// again.
pub proof fn lemma_refresh_collapses(c: TokenCache, value: Seq<char>, t_store: u64, now: u64)
    requires
        c.spec_cached() matches Some(t) && t.spec_value() == value && t.spec_expires_at()
            == t_store + TOKEN_TTL_SECS,
        t_store <= now < t_store + TOKEN_TTL_SECS,
    ensures
        cache_has_valid(c, now),
{
}

/// Relies on `bcrypt::hash`: a bcrypt hash string is 60 characters and
/// starts with `$`; the call fails only when the system's randomness
/// source does, and the error renders as text.
#[verifier::external_body]
fn bcrypt_hash_cost11(secret_key: &str) -> (r: Result<String, String>)
    ensures
        r matches Ok(h) ==> h@.len() == 60 && h@[0] == '$',
{
    bcrypt::hash(secret_key, 11).map_err(|e| e.to_string())
}

/// Hash the secret key with the fixed bcrypt cost, producing the
/// one-time secret for a single authentication attempt.
pub fn make_one_time_secret(secret_key: &str) -> (r: Result<String, EnergiaProError>)
    ensures
        match r {
            Ok(h) => h@.len() == 60 && h@[0] == '$',
            Err(e) => e is SecretKeyGeneration,
        },
{
    match bcrypt_hash_cost11(secret_key) {
        Ok(h) => Ok(h),
        Err(m) => Err(EnergiaProError::SecretKeyGeneration(m)),
    }
}

/// Build the authentication request for one attempt: the raw secret is
/// hashed and never leaves this function; the request carries the
/// username and the hash. A request built from a non-blank username
/// always passes validation, since a bcrypt hash is never blank.
pub fn prepare_authenticate(username: &str, secret_key: &str) -> (r: Result<
    AuthenticateRequest,
    EnergiaProError,
>)
    ensures
        match r {
            Ok(req) => {
                &&& req.spec_username() == username@
                &&& req.spec_secret().len() == 60 && req.spec_secret()[0] == '$'
                &&& (spec_validate_authenticate(req) is None) == !spec_is_blank(username@)
            },
            Err(e) => e is SecretKeyGeneration,
        },
{
    let one_time = match make_one_time_secret(secret_key) {
        Ok(h) => h,
        Err(e) => {
            return Err(e);
        },
    };
    let req = AuthenticateRequest::new(username, one_time.as_str());
    proof {
        assert(!is_wspace_char(req.spec_secret()[0]));
        assert(!spec_is_blank(req.spec_secret()));
    }
    Ok(req)
}

} // verus!
