use hitbox::eval_context::ErasedValue;
use hitbox::status::{
    finalize_context, Context,
    BackendLabel, CacheContext, CacheStatus, CacheTiming, ForwardReason, ReadMode, ResponseSource,
};
use hitbox::time::Timestamp;
use std::mem::size_of;

#[test]
fn test_cache_status_default() {
    let status = CacheStatus::default();
    assert_eq!(status, CacheStatus::Forward(ForwardReason::Miss));
}

#[test]
fn test_cache_status_is_served_from_cache() {
    assert!(CacheStatus::Hit.is_served_from_cache());
    assert!(CacheStatus::Stale.is_served_from_cache());
    assert!(CacheStatus::Collapsed.is_served_from_cache());
    assert!(!CacheStatus::Forward(ForwardReason::Miss).is_served_from_cache());
    assert!(!CacheStatus::Forward(ForwardReason::Expired).is_served_from_cache());
    assert!(!CacheStatus::Forward(ForwardReason::Bypass).is_served_from_cache());
}

#[test]
fn test_context_sizes() {
    let cache_ctx_size = size_of::<CacheContext>();
    let s4_space = 4 * size_of::<usize>();

    println!("CacheContext size: {} bytes", cache_ctx_size);
    println!("  - CacheStatus: {} bytes", size_of::<CacheStatus>());
    println!("  - ForwardReason: {} bytes", size_of::<ForwardReason>());
    println!("  - CacheTiming: {} bytes", size_of::<CacheTiming>());
    println!("  - ResponseSource: {} bytes", size_of::<ResponseSource>());
    println!("S4 inline space: {} bytes", s4_space);
}

#[test]
fn status_names() {
    assert_eq!(CacheStatus::Hit.as_str(), "hit");
    assert_eq!(CacheStatus::Stale.as_str(), "stale");
    assert_eq!(CacheStatus::Collapsed.as_str(), "collapsed");
    assert_eq!(CacheStatus::Forward(ForwardReason::Miss).as_str(), "miss");
    assert_eq!(CacheStatus::Forward(ForwardReason::Expired).as_str(), "expired");
    assert_eq!(CacheStatus::Forward(ForwardReason::Bypass).as_str(), "bypass");
    assert_eq!(ForwardReason::default(), ForwardReason::Miss);
}

#[test]
fn response_source_names() {
    assert_eq!(ResponseSource::Upstream.as_str(), "upstream");
    assert_eq!(ResponseSource::Backend(BackendLabel::new("moka")).as_str(), "moka");
    assert_eq!(ResponseSource::default(), ResponseSource::Upstream);
}

#[test]
fn label_composition_joins_with_a_dot() {
    let outer = BackendLabel::new("composition");
    let inner = BackendLabel::new("moka");
    assert_eq!(outer.compose(&inner).as_str(), "composition.moka");
}

#[test]
fn default_context_is_a_direct_miss_from_upstream() {
    let ctx = CacheContext::default();
    assert_eq!(ctx.status, CacheStatus::Forward(ForwardReason::Miss));
    assert_eq!(ctx.read_mode, ReadMode::Direct);
    assert_eq!(ctx.source, ResponseSource::Upstream);
    assert!(ctx.timing.is_none());
    assert!(!ctx.stored);
}

#[test]
fn merge_takes_status_timing_and_prefixes_backend_source() {
    let mut outer = CacheContext::default();
    let mut inner = CacheContext::default();
    inner.status = CacheStatus::Hit;
    inner.source = ResponseSource::Backend(BackendLabel::new("moka"));
    inner.timing = Some(CacheTiming { created_at: Timestamp::from_nanos(5), expire: None });
    inner.stored = true;
    outer.merge_from(&inner, &BackendLabel::new("composition"));
    assert_eq!(outer.status, CacheStatus::Hit);
    assert_eq!(
        outer.source,
        ResponseSource::Backend(BackendLabel::new("composition.moka"))
    );
    assert_eq!(outer.timing, inner.timing);
    assert!(outer.stored);
}

#[test]
fn merge_of_a_default_context_changes_nothing() {
    let mut outer = CacheContext::default();
    outer.status = CacheStatus::Stale;
    outer.stored = true;
    let before = outer.clone();
    outer.merge_from(&CacheContext::default(), &BackendLabel::new("x"));
    assert_eq!(outer.status, before.status);
    assert_eq!(outer.source, before.source);
    assert_eq!(outer.stored, before.stored);
}

#[test]
fn merge_leaves_extensions_as_they_were() {
    let mut outer = CacheContext::default();
    outer.extensions = Some(ErasedValue::new(7u32));
    let mut inner = CacheContext::default();
    inner.status = CacheStatus::Hit;
    outer.merge_from(&inner, &BackendLabel::new("x"));
    assert_eq!(outer.status, CacheStatus::Hit);
    assert!(outer.extensions.is_some());
    assert!(outer.clone().extensions.is_none());
}

#[test]
fn context_trait_merge_and_finalize() {
    let mut outer = CacheContext::default();
    let mut inner = CacheContext::default();
    inner.status = CacheStatus::Stale;
    inner.source = ResponseSource::Backend(BackendLabel::new("redis"));
    inner.stored = true;
    Context::merge_from(&mut outer, &inner, &BackendLabel::new("layered"));
    assert_eq!(Context::status(&outer), CacheStatus::Stale);
    assert_eq!(
        *Context::source(&outer),
        ResponseSource::Backend(BackendLabel::new("layered.redis"))
    );
    assert!(Context::stored(&outer));
    let done = finalize_context(outer);
    assert_eq!(done.status, CacheStatus::Stale);
}

#[test]
fn labels_and_sources_keep_their_text_through_clone() {
    let label = BackendLabel::new("moka");
    assert_eq!(ResponseSource::Backend(label.clone()).as_str(), label.as_str());
    assert_eq!(ResponseSource::Upstream.clone().as_str(), "upstream");
}

#[test]
fn finalizing_a_context_keeps_everything() {
    let mut c = CacheContext::default();
    c.status = CacheStatus::Hit;
    c.read_mode = ReadMode::Refill;
    c.source = ResponseSource::Backend(BackendLabel::new("moka"));
    c.timing = Some(CacheTiming { created_at: Timestamp::from_nanos(1), expire: None });
    c.stored = true;
    c.extensions = Some(ErasedValue::new(1u8));
    let r = finalize_context(c);
    assert_eq!(r.status, CacheStatus::Hit);
    assert_eq!(r.read_mode, ReadMode::Refill);
    assert_eq!(r.source.as_str(), "moka");
    assert!(r.timing.is_some());
    assert!(r.stored);
    assert!(r.extensions.is_some());
}
