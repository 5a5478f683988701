use cognito_auth::jwks::{
    cache_is_current, find_jwk, next_jwk_action, refresh_cached_jwks, Jwk, JwkAction, JwkEvent,
    Jwks,
};

fn key(kid: &str, n: &str) -> Jwk {
    Jwk {
        alg: "RS256".to_string(),
        e: "AQAB".to_string(),
        kid: kid.to_string(),
        kty: "RSA".to_string(),
        n: n.to_string(),
        key_use: "sig".to_string(),
    }
}

fn set(keys: &[(&str, &str)]) -> Jwks {
    Jwks { keys: keys.iter().map(|(k, n)| key(k, n)).collect() }
}

fn kid(s: &str) -> String {
    s.to_string()
}

#[test]
fn find_jwk_takes_the_first_key_with_the_id() {
    let jwks = set(&[("a", "n1"), ("b", "n2"), ("b", "n3")]);
    let found = find_jwk(&jwks, &kid("b")).unwrap();
    assert_eq!(found.kid, "b");
    assert_eq!(found.n, "n2");
}

#[test]
fn find_jwk_misses_an_absent_id() {
    assert!(find_jwk(&set(&[("a", "n1")]), &kid("z")).is_none());
    assert!(find_jwk(&set(&[]), &kid("a")).is_none());
}

#[test]
fn cached_hit_is_served() {
    match next_jwk_action(&kid("a"), JwkEvent::Cached(Some(set(&[("a", "n1")])))) {
        JwkAction::Found(r) => {
            assert_eq!(r.jwk.n, "n1");
            assert_eq!(r.jwks.keys.len(), 1);
        }
        _ => panic!("expected a cache hit"),
    }
}

#[test]
fn cache_miss_reads_the_bucket() {
    assert!(matches!(
        next_jwk_action(&kid("b"), JwkEvent::Cached(Some(set(&[("a", "n1")])))),
        JwkAction::ReadStore
    ));
    assert!(matches!(next_jwk_action(&kid("b"), JwkEvent::Cached(None)), JwkAction::ReadStore));
}

#[test]
fn stored_hit_is_served() {
    match next_jwk_action(&kid("b"), JwkEvent::Stored(Some(set(&[("a", "n1"), ("b", "n2")])))) {
        JwkAction::Found(r) => assert_eq!(r.jwk.n, "n2"),
        _ => panic!("expected a bucket hit"),
    }
}

#[test]
fn bucket_miss_or_failure_fetches_remote() {
    assert!(matches!(
        next_jwk_action(&kid("c"), JwkEvent::Stored(Some(set(&[("a", "n1")])))),
        JwkAction::FetchRemote
    ));
    assert!(matches!(next_jwk_action(&kid("c"), JwkEvent::Stored(None)), JwkAction::FetchRemote));
}

#[test]
fn fetched_hit_is_stored_then_served() {
    match next_jwk_action(&kid("c"), JwkEvent::Fetched(set(&[("c", "n3")]))) {
        JwkAction::StoreAndReturn(r) => {
            assert_eq!(r.jwk.kid, "c");
            assert_eq!(r.jwks.keys[0].n, "n3");
        }
        _ => panic!("expected the fetched key"),
    }
}

#[test]
fn fetched_miss_has_no_such_key() {
    assert!(matches!(
        next_jwk_action(&kid("d"), JwkEvent::Fetched(set(&[("c", "n3")]))),
        JwkAction::NoSuchKey
    ));
}

#[test]
fn refresh_writes_a_new_key_set_once() {
    let mut cache: Option<Jwks> = None;
    assert!(!cache_is_current(&cache, &set(&[("a", "n1")])));
    assert!(refresh_cached_jwks(&mut cache, set(&[("a", "n1")])));
    assert!(cache_is_current(&cache, &set(&[("a", "n1")])));
    assert!(!refresh_cached_jwks(&mut cache, set(&[("a", "n1")])));
    assert!(refresh_cached_jwks(&mut cache, set(&[("a", "n2")])));
    assert_eq!(cache.as_ref().unwrap().keys[0].n, "n2");
    assert!(refresh_cached_jwks(&mut cache, set(&[("a", "n2"), ("b", "n3")])));
    assert_eq!(cache.as_ref().unwrap().keys.len(), 2);
}

#[test]
fn key_served_then_cached_is_served_from_cache() {
    let mut cache: Option<Jwks> = Some(set(&[("old", "n0")]));
    let served = match next_jwk_action(&kid("c"), JwkEvent::Fetched(set(&[("b", "n2"), ("c", "n3")]))) {
        JwkAction::StoreAndReturn(r) => r,
        _ => panic!("expected the fetched key"),
    };
    refresh_cached_jwks(&mut cache, served.jwks.duplicate());
    match next_jwk_action(&kid("c"), JwkEvent::Cached(cache)) {
        JwkAction::Found(r) => {
            assert!(r.jwk.same_as(&served.jwk));
            assert!(r.jwks.same_as(&served.jwks));
        }
        _ => panic!("expected a cache hit"),
    }
}

#[test]
fn key_sets_compare_by_contents() {
    let a = set(&[("a", "n1"), ("b", "n2")]);
    assert!(a.same_as(&a.duplicate()));
    assert!(!a.same_as(&set(&[("a", "n1")])));
    assert!(!a.same_as(&set(&[("a", "n1"), ("b", "nX")])));
    assert!(!key("a", "n").same_as(&Jwk { key_use: "enc".to_string(), ..key("a", "n") }));
}
