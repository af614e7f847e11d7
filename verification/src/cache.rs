//! A pre-configured cache for cached functions, and its builder. The builder
//! tracks in its type whether a backend and a policy have been set, so that
//! only a builder with both can build a cache.

use crate::offload::DisabledOffload;
use crate::policy::PolicyConfig;
use std::sync::Arc;
use vstd::prelude::*;

verus! {

/// Marker: no backend configured.
pub struct NoBackend;

/// Marker: no policy configured.
pub struct NoPolicy;

/// Marker: no context requested in the response.
pub struct NoContext;

/// Marker: context requested in the response.
pub struct WithContext;

/// Marker: backend configured.
pub struct WithBackend<B>(pub Arc<B>);

/// Marker: policy configured.
pub struct WithPolicy(pub Arc<PolicyConfig>);

/// The concurrency setting that does not prevent concurrent upstream calls
/// (no dogpile prevention).
#[derive(Debug, Clone, Copy, Default)]
pub struct NoopConcurrencyManager;

/// A cache configuration: backend, policy, concurrency manager and offload
/// setting.
pub struct Cache<B, CM = NoopConcurrencyManager, O = DisabledOffload> {
    backend: Arc<B>,
    policy: Arc<PolicyConfig>,
    concurrency_manager: CM,
    offload: O,
}

impl<B, CM, O> Cache<B, CM, O> {
    /// The backend.
    pub closed spec fn spec_backend(self) -> B {
        *self.backend
    }

    /// The policy.
    pub closed spec fn spec_policy(self) -> PolicyConfig {
        *self.policy
    }

    /// The concurrency manager.
    pub closed spec fn spec_concurrency_manager(self) -> CM {
        self.concurrency_manager
    }

    /// The offload setting.
    pub closed spec fn spec_offload(self) -> O {
        self.offload
    }

    /// Get a reference to the backend.
    pub fn backend(&self) -> (r: &Arc<B>)
        ensures
            **r == self.spec_backend(),
    {
        &self.backend
    }

    /// Get a reference to the policy.
    pub fn policy(&self) -> (r: &Arc<PolicyConfig>)
        ensures
            **r == self.spec_policy(),
    {
        &self.policy
    }

    /// Get a reference to the concurrency manager.
    pub fn concurrency_manager(&self) -> (r: &CM)
        ensures
            *r == self.spec_concurrency_manager(),
    {
        &self.concurrency_manager
    }

    /// Get a reference to the offload setting.
    pub fn offload(&self) -> (r: &O)
        ensures
            *r == self.spec_offload(),
    {
        &self.offload
    }
}

/// Access to the parts of a cache configuration, by shared handles and
/// clones.
pub trait CacheAccess {
    /// The backend type.
    type Backend;
    /// The concurrency manager type.
    type ConcurrencyManager;
    /// The offload type.
    type Offload;

    /// The backend the handle points to.
    spec fn spec_backend(&self) -> Self::Backend;

    /// The policy the handle points to.
    spec fn spec_policy(&self) -> PolicyConfig;

    /// A shared handle to the backend.
    fn backend(&self) -> (r: Arc<Self::Backend>)
        ensures
            *r == self.spec_backend(),
    ;

    /// A shared handle to the policy.
    fn policy(&self) -> (r: Arc<PolicyConfig>)
        ensures
            *r == self.spec_policy(),
    ;

    /// Whether `cm` is a clone of the concurrency manager.
    spec fn spec_is_concurrency_manager(&self, cm: Self::ConcurrencyManager) -> bool;

    /// Whether `o` is a clone of the offload setting.
    spec fn spec_is_offload(&self, o: Self::Offload) -> bool;

    /// A clone of the concurrency manager.
    fn concurrency_manager(&self) -> (r: Self::ConcurrencyManager)
        ensures
            self.spec_is_concurrency_manager(r),
    ;

    /// A clone of the offload setting.
    fn offload(&self) -> (r: Self::Offload)
        ensures
            self.spec_is_offload(r),
    ;
}

impl<B, CM: Clone, O: Clone> CacheAccess for Cache<B, CM, O> {
    type Backend = B;
    type ConcurrencyManager = CM;
    type Offload = O;

    open spec fn spec_backend(&self) -> B {
        Cache::spec_backend(*self)
    }

    open spec fn spec_policy(&self) -> PolicyConfig {
        Cache::spec_policy(*self)
    }

    open spec fn spec_is_concurrency_manager(&self, cm: CM) -> bool {
        cloned(Cache::spec_concurrency_manager(*self), cm)
    }

    open spec fn spec_is_offload(&self, o: O) -> bool {
        cloned(Cache::spec_offload(*self), o)
    }

    fn backend(&self) -> (r: Arc<B>) {
        Arc::clone(&self.backend)
    }

    fn policy(&self) -> (r: Arc<PolicyConfig>) {
        Arc::clone(&self.policy)
    }

    fn concurrency_manager(&self) -> (r: CM) {
        self.concurrency_manager.clone()
    }

    fn offload(&self) -> (r: O) {
        self.offload.clone()
    }
}

impl<'a, T: CacheAccess> CacheAccess for &'a T {
    type Backend = T::Backend;
    type ConcurrencyManager = T::ConcurrencyManager;
    type Offload = T::Offload;

    open spec fn spec_backend(&self) -> T::Backend {
        (**self).spec_backend()
    }

    open spec fn spec_policy(&self) -> PolicyConfig {
        (**self).spec_policy()
    }

    open spec fn spec_is_concurrency_manager(&self, cm: T::ConcurrencyManager) -> bool {
        (**self).spec_is_concurrency_manager(cm)
    }

    open spec fn spec_is_offload(&self, o: T::Offload) -> bool {
        (**self).spec_is_offload(o)
    }

    fn backend(&self) -> (r: Arc<T::Backend>) {
        (**self).backend()
    }

    fn policy(&self) -> (r: Arc<PolicyConfig>) {
        (**self).policy()
    }

    fn concurrency_manager(&self) -> (r: T::ConcurrencyManager) {
        (**self).concurrency_manager()
    }

    fn offload(&self) -> (r: T::Offload) {
        (**self).offload()
    }
}

impl<T: CacheAccess> CacheAccess for Arc<T> {
    type Backend = T::Backend;
    type ConcurrencyManager = T::ConcurrencyManager;
    type Offload = T::Offload;

    open spec fn spec_backend(&self) -> T::Backend {
        (**self).spec_backend()
    }

    open spec fn spec_policy(&self) -> PolicyConfig {
        (**self).spec_policy()
    }

    open spec fn spec_is_concurrency_manager(&self, cm: T::ConcurrencyManager) -> bool {
        (**self).spec_is_concurrency_manager(cm)
    }

    open spec fn spec_is_offload(&self, o: T::Offload) -> bool {
        (**self).spec_is_offload(o)
    }

    fn backend(&self) -> (r: Arc<T::Backend>) {
        (**self).backend()
    }

    fn policy(&self) -> (r: Arc<PolicyConfig>) {
        (**self).policy()
    }

    fn concurrency_manager(&self) -> (r: T::ConcurrencyManager) {
        (**self).concurrency_manager()
    }

    fn offload(&self) -> (r: T::Offload) {
        (**self).offload()
    }
}

/// Clones share the backend and the policy.
impl<B, CM: Clone, O: Clone> Clone for Cache<B, CM, O> {
    fn clone(&self) -> (r: Self)
        ensures
            r.spec_backend() == self.spec_backend(),
            r.spec_policy() == self.spec_policy(),
    {
        Cache {
            backend: Arc::clone(&self.backend),
            policy: Arc::clone(&self.policy),
            concurrency_manager: self.concurrency_manager.clone(),
            offload: self.offload.clone(),
        }
    }
}

impl Cache<(), NoopConcurrencyManager, DisabledOffload> {
    /// Create a new cache builder: no backend, no policy, no dogpile
    /// prevention, no background tasks.
    pub fn builder() -> (r: CacheBuilder<
        NoBackend,
        NoPolicy,
        NoopConcurrencyManager,
        DisabledOffload,
    >) {
        CacheBuilder {
            backend: NoBackend,
            policy: NoPolicy,
            concurrency_manager: NoopConcurrencyManager,
            offload: DisabledOffload,
        }
    }
}

/// Builder for [`Cache`].
pub struct CacheBuilder<B, P, CM, O> {
    backend: B,
    policy: P,
    concurrency_manager: CM,
    offload: O,
}

impl<B, P, CM, O> CacheBuilder<B, P, CM, O> {
    /// The backend setting so far.
    pub closed spec fn spec_backend(self) -> B {
        self.backend
    }

    /// The policy setting so far.
    pub closed spec fn spec_policy(self) -> P {
        self.policy
    }

    /// The concurrency manager so far.
    pub closed spec fn spec_concurrency_manager(self) -> CM {
        self.concurrency_manager
    }

    /// The offload setting so far.
    pub closed spec fn spec_offload(self) -> O {
        self.offload
    }

    /// Set the concurrency manager for dogpile prevention.
    pub fn concurrency_manager<CM2>(self, cm: CM2) -> (r: CacheBuilder<B, P, CM2, O>)
        ensures
            r.spec_backend() == self.spec_backend(),
            r.spec_policy() == self.spec_policy(),
            r.spec_concurrency_manager() == cm,
            r.spec_offload() == self.spec_offload(),
    {
        CacheBuilder {
            backend: self.backend,
            policy: self.policy,
            concurrency_manager: cm,
            offload: self.offload,
        }
    }

    /// Set the offload setting for background task execution.
    pub fn offload<O2>(self, offload: O2) -> (r: CacheBuilder<B, P, CM, O2>)
        ensures
            r.spec_backend() == self.spec_backend(),
            r.spec_policy() == self.spec_policy(),
            r.spec_concurrency_manager() == self.spec_concurrency_manager(),
            r.spec_offload() == offload,
    {
        CacheBuilder {
            backend: self.backend,
            policy: self.policy,
            concurrency_manager: self.concurrency_manager,
            offload,
        }
    }
}

impl<P, CM, O> CacheBuilder<NoBackend, P, CM, O> {
    /// Set the cache backend.
    pub fn backend<B>(self, backend: B) -> (r: CacheBuilder<WithBackend<B>, P, CM, O>)
        ensures
            *r.spec_backend().0 == backend,
            r.spec_policy() == self.spec_policy(),
            r.spec_concurrency_manager() == self.spec_concurrency_manager(),
            r.spec_offload() == self.spec_offload(),
    {
        CacheBuilder {
            backend: WithBackend(Arc::new(backend)),
            policy: self.policy,
            concurrency_manager: self.concurrency_manager,
            offload: self.offload,
        }
    }
}

impl<B, CM, O> CacheBuilder<B, NoPolicy, CM, O> {
    /// Set the cache policy configuration.
    pub fn policy(self, policy: PolicyConfig) -> (r: CacheBuilder<B, WithPolicy, CM, O>)
        ensures
            r.spec_backend() == self.spec_backend(),
            *r.spec_policy().0 == policy,
            r.spec_concurrency_manager() == self.spec_concurrency_manager(),
            r.spec_offload() == self.spec_offload(),
    {
        CacheBuilder {
            backend: self.backend,
            policy: WithPolicy(Arc::new(policy)),
            concurrency_manager: self.concurrency_manager,
            offload: self.offload,
        }
    }
}

impl<B, CM, O> CacheBuilder<WithBackend<B>, WithPolicy, CM, O> {
    /// Build the cache; available only once both backend and policy are set.
    pub fn build(self) -> (r: Cache<B, CM, O>)
        ensures
            r.spec_backend() == *self.spec_backend().0,
            r.spec_policy() == *self.spec_policy().0,
            r.spec_concurrency_manager() == self.spec_concurrency_manager(),
            r.spec_offload() == self.spec_offload(),
    {
        Cache {
            backend: self.backend.0,
            policy: self.policy.0,
            concurrency_manager: self.concurrency_manager,
            offload: self.offload,
        }
    }
}

} // verus!
