use hitbox::cache::{Cache, CacheAccess, NoopConcurrencyManager};
use hitbox::extractor::StaticExtractor;
use hitbox::key::{CacheKey, KeyPart};
use hitbox::offload::{DisabledOffload, OffloadKey};
use hitbox::policy::{CachePolicy, PolicyConfig};
use hitbox::predicate::{Neutral, Not};
use hitbox::request::{request_cache_policy, tagged_request_cache_policy};
use hitbox::extractor::ExtractorExt;
use hitbox::fields::{CachedFieldClone, SkippedFieldDefault};
use hitbox::predicate::PredicateResult;
use hitbox::offload::Offload;

#[test]
fn offload_keys_report_their_kind() {
    assert_eq!(OffloadKey::keyed(CacheKey::from_str("id", "1"), "revalidate").kind(), "revalidate");
    assert_eq!(OffloadKey::explicit("job", 7).kind(), "job");
    assert_eq!(OffloadKey::auto("task").kind(), "task");
}

#[test]
fn accepted_request_is_keyed_by_its_extractor() {
    let ext = StaticExtractor::<u8>::new(vec![KeyPart::new("path", Some("/a"))]);
    match request_cache_policy(5u8, &Neutral::<u8>::new(), &ext, &mut ()) {
        CachePolicy::Cacheable(data) => {
            assert_eq!(data.request, 5);
            assert_eq!(data.key.to_string(), "path=/a");
        },
        CachePolicy::NonCacheable(_) => panic!("the neutral predicate accepts"),
    }
    match request_cache_policy(6u8, &Not::new(Neutral::<u8>::new()), &ext, &mut ()) {
        CachePolicy::NonCacheable(r) => assert_eq!(r, 6),
        CachePolicy::Cacheable(_) => panic!("a rejected request is not cached"),
    }
}

#[test]
fn cache_builder_keeps_its_parts() {
    let cache = Cache::builder()
        .backend(17u32)
        .policy(PolicyConfig::disabled())
        .concurrency_manager(NoopConcurrencyManager)
        .offload(DisabledOffload)
        .build();
    assert_eq!(**cache.backend(), 17);
    assert_eq!(**cache.policy(), PolicyConfig::Disabled);
}

#[test]
fn skipped_fields_come_back_as_defaults_and_cached_fields_are_cloned() {
    assert_eq!(<u32 as SkippedFieldDefault>::skipped_default(), 0);
    assert_eq!(<String as SkippedFieldDefault>::skipped_default(), "");
    assert_eq!("kept".to_owned().cached_clone(), "kept");
    assert_eq!(vec![1u8, 2].cached_clone(), vec![1u8, 2]);
}

#[test]
fn and_then_runs_the_next_check_only_on_cacheable_subjects() {
    let (r, calls) = PredicateResult::Cacheable(4u8).and_then(0u32, |s, n| {
        (PredicateResult::NonCacheable(s + 1), n + 1)
    });
    assert!(matches!(r, PredicateResult::NonCacheable(5)));
    assert_eq!(calls, 1);
    let (r, calls) = PredicateResult::NonCacheable(4u8).and_then(0u32, |s, n| {
        (PredicateResult::Cacheable(s), n + 1)
    });
    assert!(matches!(r, PredicateResult::NonCacheable(4)));
    assert_eq!(calls, 0);
}

#[test]
fn disabled_offload_drops_tasks() {
    let offload = DisabledOffload;
    let mut ran = false;
    offload.register(OffloadKey::explicit("test", 0), async {
        ran = true;
    });
    assert!(!ran);
}

#[test]
fn clones_and_handles_share_backend_and_policy() {
    let cache = Cache::builder()
        .backend(String::from("store"))
        .policy(PolicyConfig::default())
        .build();
    let copy = cache.clone();
    assert!(std::sync::Arc::ptr_eq(cache.backend(), copy.backend()));
    let handle = CacheAccess::backend(&cache);
    assert_eq!(*handle, "store");
    assert!(std::sync::Arc::ptr_eq(&handle, cache.backend()));
    assert_eq!(*CacheAccess::policy(&&cache), PolicyConfig::default());
    let shared = std::sync::Arc::new(cache);
    assert_eq!(*CacheAccess::backend(&shared), "store");
}

#[test]
fn accepted_request_gets_its_tags() {
    let ext = StaticExtractor::<u8>::new(vec![KeyPart::new("path", Some("/a"))]);
    let tags = StaticExtractor::<u8>::new(vec![KeyPart::new("users", None)]).as_tag();
    let (policy, t) = tagged_request_cache_policy(5u8, &Neutral::<u8>::new(), &ext, &tags, &mut ());
    assert!(matches!(policy, CachePolicy::Cacheable(ref d) if d.request == 5));
    assert_eq!(t.len(), 1);
    assert_eq!(t[0].as_str(), "users");
    let (policy, t) =
        tagged_request_cache_policy(6u8, &Not::new(Neutral::<u8>::new()), &ext, &tags, &mut ());
    assert!(matches!(policy, CachePolicy::NonCacheable(6)));
    assert!(t.is_empty());
}
