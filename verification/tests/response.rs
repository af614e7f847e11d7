use std::time::Duration;

use hitbox::policy::{CachePolicy, EntityPolicyConfig};
use hitbox::predicate::{Neutral, Not};
use hitbox::response::{response_cache_policy, result_cache_policy, CacheableResponse};
use hitbox::time::Timestamp;

#[test]
fn test_cacheable_result() {
    let now = Timestamp::now().unwrap();
    let response: Result<String, ()> = Ok("nope".to_owned());
    let policy = result_cache_policy(
        response,
        &Neutral::<String>::new(),
        &mut (),
        &EntityPolicyConfig::default(),
        now,
    );
    match &policy {
        CachePolicy::Cacheable(v) => assert_eq!(v.data(), "nope"),
        CachePolicy::NonCacheable(_) => panic!("a success value is cached"),
    }

    let response: Result<String, ()> = Err(());
    let policy = result_cache_policy(
        response,
        &Neutral::<String>::new(),
        &mut (),
        &EntityPolicyConfig::default(),
        now,
    );
    assert!(matches!(policy, CachePolicy::NonCacheable(Err(()))));
}

#[test]
fn accepted_response_gets_the_configured_deadlines() {
    let now = Timestamp::from_nanos(1_000_000_000_000);
    let config = EntityPolicyConfig {
        ttl: Some(Duration::from_secs(60)),
        stale_ttl: Some(Duration::from_secs(30)),
    };
    let policy = response_cache_policy(17u64, &Neutral::<u64>::new(), &mut (), &config, now);
    match policy {
        CachePolicy::Cacheable(v) => {
            assert_eq!(*v.data(), 17);
            assert_eq!(v.created(), now);
            assert_eq!(v.expire(), Some(Timestamp::from_nanos(1_060_000_000_000)));
            assert_eq!(v.stale(), Some(Timestamp::from_nanos(1_030_000_000_000)));
        },
        CachePolicy::NonCacheable(_) => panic!("the neutral predicate accepts"),
    }
}

#[test]
fn rejected_response_is_passed_through() {
    let now = Timestamp::from_nanos(0);
    let policy = response_cache_policy(
        "x".to_owned(),
        &Not::new(Neutral::<String>::new()),
        &mut (),
        &EntityPolicyConfig::default(),
        now,
    );
    assert!(matches!(policy, CachePolicy::NonCacheable(ref s) if s == "x"));
}

#[test]
fn plain_values_come_back_unchanged() {
    let v = vec![1u8, 2, 3];
    match v.clone().into_cached() {
        CachePolicy::Cacheable(c) => assert_eq!(Vec::<u8>::from_cached(c), v),
        CachePolicy::NonCacheable(_) => panic!("vectors are cacheable"),
    }
    let r: Result<u32, String> = Ok(4);
    match r.into_cached() {
        CachePolicy::Cacheable(c) => assert_eq!(Result::<u32, String>::from_cached(c), Ok(4)),
        CachePolicy::NonCacheable(_) => panic!("a success is cacheable"),
    }
    let e: Result<u32, String> = Err("bad".to_owned());
    assert!(matches!(e.into_cached(), CachePolicy::NonCacheable(Err(_))));
}
