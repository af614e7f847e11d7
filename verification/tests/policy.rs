use std::time::Duration;

use hitbox::policy::{
    ConcurrencyLimit, EnabledCacheConfig, EntityPolicyConfig, PolicyConfig, StalePolicy,
};

#[test]
fn builder_sets_each_field() {
    let limit = ConcurrencyLimit::new(3).unwrap();
    let config = PolicyConfig::builder()
        .ttl(Duration::from_secs(60))
        .stale(Duration::from_secs(30))
        .stale_policy(StalePolicy::Revalidate)
        .concurrency(limit)
        .build();
    match config {
        PolicyConfig::Enabled(c) => {
            assert_eq!(c.ttl, Some(Duration::from_secs(60)));
            assert_eq!(c.stale, Some(Duration::from_secs(30)));
            assert_eq!(c.policy.stale, StalePolicy::Revalidate);
            assert_eq!(c.concurrency.map(|l| l.get()), Some(3));
        },
        PolicyConfig::Disabled => panic!("the builder builds an enabled policy"),
    }
}

#[test]
fn defaults() {
    let c = EnabledCacheConfig::default();
    assert_eq!(c.ttl, Some(Duration::from_secs(5)));
    assert_eq!(c.stale, None);
    assert_eq!(c.policy.stale, StalePolicy::Return);
    assert!(c.concurrency.is_none());
    assert_eq!(PolicyConfig::default(), PolicyConfig::Enabled(EnabledCacheConfig::default()));
    assert_eq!(PolicyConfig::disabled(), PolicyConfig::Disabled);
    let e = EntityPolicyConfig::default();
    assert!(e.ttl.is_none() && e.stale_ttl.is_none());
    let empty = PolicyConfig::builder().build();
    assert!(matches!(empty, PolicyConfig::Enabled(ref c) if c.ttl.is_none() && c.stale.is_none()));
}

#[test]
fn concurrency_limit_is_never_zero() {
    assert!(ConcurrencyLimit::new(0).is_none());
    assert_eq!(ConcurrencyLimit::new(1).unwrap().get(), 1);
    assert_eq!(ConcurrencyLimit::new(255).unwrap().get(), 255);
}
