use energiapro::{
    make_one_time_secret, prepare_authenticate, ObtainStep, Token, TokenCache, TOKEN_TTL_SECS,
};

#[test]
fn generates_bcrypt_one_time_secret_key() {
    let hash = make_one_time_secret("super-secret").unwrap();

    assert_ne!(hash, "super-secret");
    assert!(bcrypt::verify("super-secret", &hash).unwrap());
}

#[test]
fn prepared_request_carries_hash_not_secret() {
    let request = prepare_authenticate("username", "super-secret").unwrap();
    let form = request.form_data();

    assert_eq!(form[0].0, "username");
    assert_eq!(form[0].1, "username");
    assert_eq!(form[1].0, "secret_key");
    assert_ne!(form[1].1, "super-secret");
    assert_eq!(form[1].1.len(), 60);
    assert!(request.validate_request().is_ok());
}

#[test]
fn returns_cached_token_when_not_expired() {
    let mut cache = TokenCache::new();
    cache.store("cached-value", 1_000);

    assert_eq!(cache.obtain_from_cache(1_000 + 60), Some("cached-value".to_owned()));
}

#[test]
fn ignores_expired_cached_token() {
    let mut cache = TokenCache::new();
    cache.store("expired-value", 1_000);

    assert_eq!(cache.obtain_from_cache(1_000 + TOKEN_TTL_SECS), None);
}

#[test]
fn token_expires_one_ttl_after_creation() {
    let token = Token::new("value".to_owned(), 500);
    assert!(token.is_valid(500));
    assert!(token.is_valid(500 + TOKEN_TTL_SECS - 1));
    assert!(!token.is_valid(500 + TOKEN_TTL_SECS));
    assert_eq!(token.valid_value(600), Some("value".to_owned()));
    assert_eq!(token.valid_value(500 + TOKEN_TTL_SECS), None);
}

#[test]
fn obtain_step_refreshes_only_without_valid_token() {
    let mut cache = TokenCache::new();
    assert_eq!(cache.obtain_step(0), ObtainStep::Refresh);

    cache.store("fresh", 100);
    assert_eq!(cache.obtain_step(101), ObtainStep::UseCached("fresh".to_owned()));
    assert_eq!(cache.obtain_step(100 + TOKEN_TTL_SECS), ObtainStep::Refresh);
}

#[test]
fn concurrent_misses_collapse_after_first_store() {
    let mut cache = TokenCache::new();
    assert_eq!(cache.obtain_step(100), ObtainStep::Refresh);
    cache.store("first", 100);

    assert_eq!(cache.obtain_step(100), ObtainStep::UseCached("first".to_owned()));
    assert_eq!(cache.obtain_step(100 + TOKEN_TTL_SECS - 1), ObtainStep::UseCached("first".to_owned()));
}

#[test]
fn clear_discards_token_and_is_idempotent() {
    let mut cache = TokenCache::new();
    cache.store("value", 100);
    cache.clear();
    assert_eq!(cache.obtain_from_cache(100), None);
    cache.clear();
    assert_eq!(cache.obtain_from_cache(100), None);
}

#[test]
fn fresh_token_replaces_expired_one() {
    let mut cache = TokenCache::new();
    cache.store("old", 0);
    let now = TOKEN_TTL_SECS + 5;
    assert_eq!(cache.obtain_step(now), ObtainStep::Refresh);
    cache.store("new", now);
    assert_eq!(cache.obtain_from_cache(now + 1), Some("new".to_owned()));
}
