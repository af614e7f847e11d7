//! The configuration of a cached endpoint: which requests and responses are
//! cacheable, how keys and tags are derived, and the cache policy.

use crate::extractor::{Extractor, TagExtractor};
use crate::policy::PolicyConfig;
use crate::predicate::Predicate;
use std::sync::Arc;
use vstd::prelude::*;

verus! {

/// Everything the cache needs to know about one kind of request and
/// response. Implemented by the users of the library.
pub trait CacheConfig<Req, Res> {
    /// Decides whether a request is cacheable.
    type RequestPredicate: Predicate<Subject = Req>;
    /// Decides whether a response is cacheable.
    type ResponsePredicate: Predicate<Subject = Res>;
    /// Derives the cache key of a request.
    type Extractor: Extractor<Subject = Req>;
    /// Derives tags from a request.
    type RequestTagExtractor: TagExtractor<Subject = Req>;
    /// Derives tags from a response.
    type ResponseTagExtractor: TagExtractor<Subject = Res>;

    /// The request predicates of this configuration.
    spec fn spec_request_predicates(&self) -> Self::RequestPredicate;

    /// The response predicates of this configuration.
    spec fn spec_response_predicates(&self) -> Self::ResponsePredicate;

    /// The key extractors of this configuration.
    spec fn spec_extractors(&self) -> Self::Extractor;

    /// The request tag extractors of this configuration.
    spec fn spec_request_tag_extractors(&self) -> Self::RequestTagExtractor;

    /// The response tag extractors of this configuration.
    spec fn spec_response_tag_extractors(&self) -> Self::ResponseTagExtractor;

    /// The cache policy of this configuration.
    spec fn spec_policy(&self) -> PolicyConfig;

    /// The request predicates.
    fn request_predicates(&self) -> (r: Self::RequestPredicate)
        ensures
            r == self.spec_request_predicates(),
    ;

    /// The response predicates.
    fn response_predicates(&self) -> (r: Self::ResponsePredicate)
        ensures
            r == self.spec_response_predicates(),
    ;

    /// The key extractors.
    fn extractors(&self) -> (r: Self::Extractor)
        ensures
            r == self.spec_extractors(),
    ;

    /// The request tag extractors.
    fn request_tag_extractors(&self) -> (r: Self::RequestTagExtractor)
        ensures
            r == self.spec_request_tag_extractors(),
    ;

    /// The response tag extractors.
    fn response_tag_extractors(&self) -> (r: Self::ResponseTagExtractor)
        ensures
            r == self.spec_response_tag_extractors(),
    ;

    /// The cache policy.
    fn policy(&self) -> (r: Arc<PolicyConfig>)
        ensures
            *r == self.spec_policy(),
    ;
}

/// A list of configurations, one of which applies to a request.
pub trait CacheConfigs<Req, Res> {
    /// The configuration type.
    type Config: CacheConfig<Req, Res>;

    /// The configurations.
    fn configs(&self) -> &[Self::Config];
}

/// A shared configuration is the configuration it points to.
impl<T: CacheConfig<Req, Res>, Req, Res> CacheConfig<Req, Res> for Arc<T> {
    type RequestPredicate = T::RequestPredicate;
    type ResponsePredicate = T::ResponsePredicate;
    type Extractor = T::Extractor;
    type RequestTagExtractor = T::RequestTagExtractor;
    type ResponseTagExtractor = T::ResponseTagExtractor;

    open spec fn spec_request_predicates(&self) -> T::RequestPredicate {
        (**self).spec_request_predicates()
    }

    open spec fn spec_response_predicates(&self) -> T::ResponsePredicate {
        (**self).spec_response_predicates()
    }

    open spec fn spec_extractors(&self) -> T::Extractor {
        (**self).spec_extractors()
    }

    open spec fn spec_request_tag_extractors(&self) -> T::RequestTagExtractor {
        (**self).spec_request_tag_extractors()
    }

    open spec fn spec_response_tag_extractors(&self) -> T::ResponseTagExtractor {
        (**self).spec_response_tag_extractors()
    }

    open spec fn spec_policy(&self) -> PolicyConfig {
        (**self).spec_policy()
    }

    fn request_predicates(&self) -> Self::RequestPredicate {
        (**self).request_predicates()
    }

    fn response_predicates(&self) -> Self::ResponsePredicate {
        (**self).response_predicates()
    }

    fn extractors(&self) -> Self::Extractor {
        (**self).extractors()
    }

    fn request_tag_extractors(&self) -> Self::RequestTagExtractor {
        (**self).request_tag_extractors()
    }

    fn response_tag_extractors(&self) -> Self::ResponseTagExtractor {
        (**self).response_tag_extractors()
    }

    fn policy(&self) -> Arc<PolicyConfig> {
        (**self).policy()
    }
}

} // verus!
