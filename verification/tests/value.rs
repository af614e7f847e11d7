use std::time::Duration;

use hitbox::policy::EntityPolicyConfig;
use hitbox::raw::raw_from_vec;
use hitbox::tag::{CacheTag, CacheTags};
use hitbox::time::Timestamp;
use hitbox::value::{CacheState, CacheValue};

fn t(secs: i128) -> Timestamp {
    Timestamp::from_nanos(secs * 1_000_000_000)
}

#[test]
fn state_follows_the_deadlines() {
    let v = CacheValue::with_created(1u8, t(0), Some(t(100)), Some(t(50)));
    assert!(matches!(v.clone().cache_state_at(t(10)), CacheState::Actual(_)));
    assert!(matches!(v.clone().cache_state_at(t(50)), CacheState::Stale(_)));
    assert!(matches!(v.clone().cache_state_at(t(99)), CacheState::Stale(_)));
    assert!(matches!(v.clone().cache_state_at(t(100)), CacheState::Expired(_)));
    assert!(matches!(v.cache_state_at(t(1000)), CacheState::Expired(_)));
}

#[test]
fn expiry_before_stale_skips_the_stale_state() {
    let v = CacheValue::with_created(1u8, t(0), Some(t(10)), Some(t(20)));
    for s in 0..30 {
        assert!(!matches!(v.clone().cache_state_at(t(s)), CacheState::Stale(_)));
    }
}

#[test]
fn value_without_deadlines_is_always_fresh() {
    let v = CacheValue::new(5u8, None, None).unwrap();
    assert!(matches!(v.cache_state(), Ok(CacheState::Actual(_))));
    let v = CacheValue::with_created(5u8, t(0), None, None);
    assert!(matches!(v.cache_state_at(t(1_000_000)), CacheState::Actual(_)));
}

#[test]
fn ttl_counts_whole_seconds_left() {
    let v = CacheValue::with_created(1u8, t(0), Some(t(100)), None);
    assert_eq!(v.ttl_at(t(40)), Some(Duration::from_secs(60)));
    let half = Timestamp::from_nanos(99_500_000_000);
    assert_eq!(v.ttl_at(half), None);
    assert_eq!(v.ttl_at(t(100)), None);
    assert_eq!(v.ttl_at(Timestamp::from_nanos(39_500_000_000)), Some(Duration::from_secs(60)));
    let w = CacheValue::with_created(1u8, t(0), None, None);
    assert_eq!(w.ttl_at(t(0)), None);
    assert_eq!(w.ttl(), Some(None));
}

#[test]
fn config_deadlines_are_added_to_the_creation_time() {
    let config = EntityPolicyConfig {
        ttl: Some(Duration::from_millis(1500)),
        stale_ttl: None,
    };
    let v = CacheValue::from_config_at("x", &config, t(10));
    assert_eq!(v.created(), t(10));
    assert_eq!(v.expire(), Some(Timestamp::from_nanos(11_500_000_000)));
    assert_eq!(v.stale(), None);
    let w = CacheValue::from_config("y", &config).unwrap();
    assert_eq!(
        w.expire().unwrap().nanos - w.created().nanos,
        1_500_000_000
    );
}

#[test]
fn tags_and_parts() {
    let v = CacheValue::with_created(3u8, t(1), Some(t(2)), Some(t(3)))
        .with_tags(CacheTags::request_only(vec![CacheTag::new("users")]));
    assert!(v.tags().is_some());
    assert!(!v.tags().unwrap().is_empty());
    let (meta, data) = v.into_parts();
    assert_eq!(data, 3);
    assert_eq!(meta.created, t(1));
    assert_eq!(meta.expire, Some(t(2)));
    assert_eq!(meta.stale, Some(t(3)));
}

#[test]
fn memory_size_counts_the_bytes() {
    let small = CacheValue::with_created(raw_from_vec(vec![]), t(0), None, None);
    let big = CacheValue::with_created(raw_from_vec(vec![0u8; 100]), t(0), None, None);
    assert_eq!(big.memory_size() - small.memory_size(), 100);
}

#[test]
fn timestamps_add_durations() {
    let a = t(5);
    let b = a.add_duration(&Duration::from_nanos(7));
    assert_eq!(b.nanos, 5_000_000_007);
    assert!(a.le(&b));
    assert!(!b.le(&a));
    assert_eq!(Timestamp::from_parts(-2, 500), Timestamp::from_nanos(-1_999_999_500));
}

#[test]
fn clock_offsets_and_second_parts() {
    assert_eq!(
        Timestamp::from_epoch_offset(Ok(Duration::from_millis(1500))),
        Some(Timestamp::from_nanos(1_500_000_000))
    );
    assert_eq!(
        Timestamp::from_epoch_offset(Err(Duration::from_secs(2))),
        Some(Timestamp::from_nanos(-2_000_000_000))
    );
    assert_eq!(Timestamp::from_epoch_offset(Ok(Duration::MAX)), None);
    assert_eq!(Timestamp::from_nanos(1_500_000_000).to_parts(), Some((1, 500_000_000)));
    assert_eq!(Timestamp::from_nanos(-1).to_parts(), Some((-1, 999_999_999)));
    assert_eq!(Timestamp::from_nanos(-2_000_000_000).to_parts(), Some((-2, 0)));
    assert_eq!(Timestamp::from_nanos(i128::MIN).to_parts(), None);
    assert!(Timestamp::now().is_some());
}
