//! The cache decision for requests: predicates decide whether a request is
//! cacheable, and extractors derive the key of a cacheable one.

use crate::extractor::{Extractor, TagExtractor};
use crate::tag::{tags_view, CacheTag};
use crate::key::{content_size, CacheKey, KeyPartView};
use crate::policy::CachePolicy;
use crate::predicate::{Predicate, PredicateResult};
use vstd::prelude::*;

verus! {

/// A cacheable request together with its cache key.
pub struct CacheablePolicyData<T> {
    /// The cache key of the request.
    pub key: CacheKey,
    /// The request.
    pub request: T,
}

impl<T> CacheablePolicyData<T> {
    /// Pairs a key with its request.
    pub fn new(key: CacheKey, request: T) -> (r: Self)
        ensures
            r.key@ == key@,
            r.request == request,
    {
        CacheablePolicyData { key, request }
    }
}

/// Cache decision for a request: cacheable with its key, or passed through.
pub type RequestCachePolicy<T> = CachePolicy<CacheablePolicyData<T>, T>;

/// Whether the key of the subject that the predicates accept can be built:
/// the strings of its parts fit the size count of a key.
pub open spec fn key_fits<S, P: Predicate<Subject = S>, E: Extractor<Subject = S>>(
    predicates: P,
    extractors: E,
    subject: S,
    ctx: P::Context,
) -> bool {
    let (verdict, _) = predicates.spec_check(subject, ctx);
    verdict is Cacheable ==> content_size(
        Seq::empty(),
        extractors.spec_get(verdict.spec_subject()).1,
    ) <= usize::MAX
}

/// Decides whether a request is cacheable: the predicates check it; a
/// cacheable request is keyed by the extractors (empty prefix, version 0,
/// the extracted parts in order), any other is passed through as the
/// predicates handed it back.
pub fn request_cache_policy<S, P: Predicate<Subject = S>, E: Extractor<Subject = S>>(
    subject: S,
    predicates: &P,
    extractors: &E,
    ctx: &mut P::Context,
) -> (r: RequestCachePolicy<S>)
    requires
        key_fits(*predicates, *extractors, subject, *old(ctx)),
    ensures
        *final(ctx) == predicates.spec_check(subject, *old(ctx)).1,
        match predicates.spec_check(subject, *old(ctx)).0 {
            PredicateResult::Cacheable(s) => r matches CachePolicy::Cacheable(data) && data.request
                == extractors.spec_get(s).0 && data.key@.prefix == Seq::<char>::empty()
                && data.key@.version == 0 && data.key@.parts == extractors.spec_get(s).1,
            PredicateResult::NonCacheable(s) => r == CachePolicy::<CacheablePolicyData<S>, S>::NonCacheable(s),
        },
{
    match predicates.check(subject, ctx) {
        PredicateResult::Cacheable(s) => {
            let (request, key) = extractors.get(s).into_cache_key();
            CachePolicy::Cacheable(CacheablePolicyData::new(key, request))
        },
        PredicateResult::NonCacheable(s) => CachePolicy::NonCacheable(s),
    }
}

/// The cache decision for a request, with its tags: a request the
/// predicates accept is keyed by the extractors, and the tag extractor then
/// derives its tags from the request the extractors handed back; a rejected
/// request is passed on with no tags.
pub fn tagged_request_cache_policy<
    S,
    P: Predicate<Subject = S>,
    E: Extractor<Subject = S>,
    T: TagExtractor<Subject = S>,
>(
    subject: S,
    predicates: &P,
    extractors: &E,
    tag_extractor: &T,
    ctx: &mut P::Context,
) -> (r: (RequestCachePolicy<S>, Vec<CacheTag>))
    requires
        key_fits(*predicates, *extractors, subject, *old(ctx)),
    ensures
        *final(ctx) == predicates.spec_check(subject, *old(ctx)).1,
        match predicates.spec_check(subject, *old(ctx)).0 {
            PredicateResult::Cacheable(s) => {
                let (s1, parts) = extractors.spec_get(s);
                let (s2, tags) = tag_extractor.spec_extract_tags(s1);
                &&& r.0 matches CachePolicy::Cacheable(data) && data.request == s2
                    && data.key@.prefix == Seq::<char>::empty() && data.key@.version == 0
                    && data.key@.parts == parts
                &&& tags_view(r.1@) == tags
            },
            PredicateResult::NonCacheable(s) => r.0 == CachePolicy::<CacheablePolicyData<S>, S>::NonCacheable(s)
                && r.1@.len() == 0,
        },
{
    match predicates.check(subject, ctx) {
        PredicateResult::Cacheable(s) => {
            let (request, key) = extractors.get(s).into_cache_key();
            let (request, tags) = tag_extractor.extract_tags(request);
            (CachePolicy::Cacheable(CacheablePolicyData::new(key, request)), tags)
        },
        PredicateResult::NonCacheable(s) => (CachePolicy::NonCacheable(s), Vec::new()),
    }
}

} // verus!
