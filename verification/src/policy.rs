//! Cache policy types: the outcome of a cache decision, entity TTLs, and the
//! per-endpoint policy configuration with its builder.

use crate::time::{duration_from_secs, duration_nanos};
use std::time::Duration;
use vstd::prelude::*;

verus! {

/// Result of a cache decision: the entity is either cacheable (in its cached
/// representation) or passed through unchanged.
#[derive(Debug)]
pub enum CachePolicy<C, N> {
    /// Entity should be cached.
    Cacheable(C),
    /// Entity should not be cached; pass through directly.
    NonCacheable(N),
}

/// Configuration for entity caching TTLs: time until the entry expires and
/// time until it becomes stale. `None` means no such deadline.
#[derive(Debug, Clone, PartialEq, Eq)]
pub struct EntityPolicyConfig {
    /// Time until cached entries expire and become invalid.
    pub ttl: Option<Duration>,
    /// Time until cached entries become stale (for background refresh).
    pub stale_ttl: Option<Duration>,
}

impl Default for EntityPolicyConfig {
    fn default() -> (r: Self)
        ensures
            r.ttl is None,
            r.stale_ttl is None,
    {
        EntityPolicyConfig { ttl: None, stale_ttl: None }
    }
}

/// Concurrency limit for dogpile prevention: a number from 1 to 255. A limit
/// of 1 means only one request at a time may fetch from upstream.
#[derive(Debug, Clone, Copy, PartialEq, Eq, Hash)]
pub struct ConcurrencyLimit {
    limit: u8,
}

impl ConcurrencyLimit {
    #[verifier::type_invariant]
    spec fn positive(self) -> bool {
        self.limit >= 1
    }

    /// The limit as a number.
    pub closed spec fn spec_get(self) -> u8 {
        self.limit
    }

    /// A limit of `n`, or `None` when `n` is zero.
    pub fn new(n: u8) -> (r: Option<ConcurrencyLimit>)
        ensures
            r is None <==> n == 0,
            r matches Some(l) ==> l.spec_get() == n,
    {
        if n == 0 {
            None
        } else {
            Some(ConcurrencyLimit { limit: n })
        }
    }

    /// The limit as a number, always at least 1.
    pub fn get(&self) -> (r: u8)
        ensures
            r == self.spec_get(),
            r >= 1,
    {
        proof {
            use_type_invariant(self);
        }
        self.limit
    }
}

/// Policy for handling stale cache entries.
#[derive(Debug, Clone, Copy, Eq, PartialEq, Structural)]
pub enum StalePolicy {
    /// Return stale data without any revalidation.
    Return,
    /// Treat stale as expired: wait for fresh data.
    Revalidate,
    /// Return stale data immediately and revalidate in the background.
    OffloadRevalidate,
}

impl Default for StalePolicy {
    fn default() -> (r: Self)
        ensures
            r == StalePolicy::Return,
    {
        StalePolicy::Return
    }
}

/// Cache behavior policy configuration.
#[derive(Debug, Clone, Copy, Eq, PartialEq, Structural)]
pub struct CacheBehaviorPolicy {
    /// How to handle stale cache entries.
    pub stale: StalePolicy,
}

impl Default for CacheBehaviorPolicy {
    fn default() -> (r: Self)
        ensures
            r.stale == StalePolicy::Return,
    {
        CacheBehaviorPolicy { stale: StalePolicy::Return }
    }
}

/// Enabled cache configuration: time-to-live, stale window, behavior and
/// concurrency limit.
#[derive(Debug, Clone, Eq, PartialEq)]
pub struct EnabledCacheConfig {
    /// Total time-to-live for the cache entry.
    pub ttl: Option<Duration>,
    /// Time after which the cache entry becomes stale.
    pub stale: Option<Duration>,
    /// Cache behavior policy.
    pub policy: CacheBehaviorPolicy,
    /// Concurrency limit for dogpile prevention.
    pub concurrency: Option<ConcurrencyLimit>,
}

impl Default for EnabledCacheConfig {
    /// Five seconds of time-to-live, no stale window, stale entries returned
    /// as they are, no concurrency limit.
    fn default() -> (r: Self)
        ensures
            r.ttl matches Some(d) && duration_nanos(d) == 5_000_000_000,
            r.stale is None,
            r.policy.stale == StalePolicy::Return,
            r.concurrency is None,
    {
        EnabledCacheConfig {
            ttl: Some(duration_from_secs(5)),
            stale: None,
            policy: CacheBehaviorPolicy { stale: StalePolicy::Return },
            concurrency: None,
        }
    }
}

/// Cache policy: enabled with settings, or disabled so that requests go
/// directly to upstream.
#[derive(Debug, Clone, Eq, PartialEq)]
pub enum PolicyConfig {
    /// Caching enabled with the specified configuration.
    Enabled(EnabledCacheConfig),
    /// Caching disabled: all requests go directly to upstream.
    Disabled,
}

impl Default for PolicyConfig {
    fn default() -> (r: Self)
        ensures
            r matches PolicyConfig::Enabled(c) && c.ttl matches Some(d) && duration_nanos(d)
                == 5_000_000_000 && c.stale is None && c.policy.stale == StalePolicy::Return
                && c.concurrency is None,
    {
        PolicyConfig::Enabled(EnabledCacheConfig::default())
    }
}

impl PolicyConfig {
    /// Create a new builder for an enabled cache configuration.
    pub fn builder() -> (b: PolicyConfigBuilder)
        ensures
            b.spec_ttl() is None,
            b.spec_stale() is None,
            b.spec_stale_policy() == StalePolicy::Return,
            b.spec_concurrency() is None,
    {
        PolicyConfigBuilder::new()
    }

    /// Create a disabled policy configuration.
    pub fn disabled() -> (r: Self)
        ensures
            r is Disabled,
    {
        PolicyConfig::Disabled
    }
}

/// Builder for [`PolicyConfig`].
#[derive(Debug, Clone)]
pub struct PolicyConfigBuilder {
    ttl: Option<Duration>,
    stale: Option<Duration>,
    stale_policy: StalePolicy,
    concurrency: Option<ConcurrencyLimit>,
}

impl PolicyConfigBuilder {
    /// The time-to-live set so far.
    pub closed spec fn spec_ttl(self) -> Option<Duration> {
        self.ttl
    }

    /// The stale window set so far.
    pub closed spec fn spec_stale(self) -> Option<Duration> {
        self.stale
    }

    /// The stale policy set so far.
    pub closed spec fn spec_stale_policy(self) -> StalePolicy {
        self.stale_policy
    }

    /// The concurrency limit set so far.
    pub closed spec fn spec_concurrency(self) -> Option<ConcurrencyLimit> {
        self.concurrency
    }

    /// Create a new builder with default values: no time-to-live, no stale
    /// window, stale entries returned, no concurrency limit.
    pub fn new() -> (b: Self)
        ensures
            b.spec_ttl() is None,
            b.spec_stale() is None,
            b.spec_stale_policy() == StalePolicy::Return,
            b.spec_concurrency() is None,
    {
        PolicyConfigBuilder {
            ttl: None,
            stale: None,
            stale_policy: StalePolicy::Return,
            concurrency: None,
        }
    }

    /// Set the total time-to-live for the cache entry.
    pub fn ttl(self, ttl: Duration) -> (b: Self)
        ensures
            b.spec_ttl() == Some(ttl),
            b.spec_stale() == self.spec_stale(),
            b.spec_stale_policy() == self.spec_stale_policy(),
            b.spec_concurrency() == self.spec_concurrency(),
    {
        PolicyConfigBuilder { ttl: Some(ttl), ..self }
    }

    /// Set the time after which the cache entry becomes stale.
    pub fn stale(self, stale: Duration) -> (b: Self)
        ensures
            b.spec_ttl() == self.spec_ttl(),
            b.spec_stale() == Some(stale),
            b.spec_stale_policy() == self.spec_stale_policy(),
            b.spec_concurrency() == self.spec_concurrency(),
    {
        PolicyConfigBuilder { stale: Some(stale), ..self }
    }

    /// Set the policy for handling stale cache entries.
    pub fn stale_policy(self, policy: StalePolicy) -> (b: Self)
        ensures
            b.spec_ttl() == self.spec_ttl(),
            b.spec_stale() == self.spec_stale(),
            b.spec_stale_policy() == policy,
            b.spec_concurrency() == self.spec_concurrency(),
    {
        PolicyConfigBuilder { stale_policy: policy, ..self }
    }

    /// Set the concurrency limit for dogpile prevention.
    pub fn concurrency(self, limit: ConcurrencyLimit) -> (b: Self)
        ensures
            b.spec_ttl() == self.spec_ttl(),
            b.spec_stale() == self.spec_stale(),
            b.spec_stale_policy() == self.spec_stale_policy(),
            b.spec_concurrency() == Some(limit),
    {
        PolicyConfigBuilder { concurrency: Some(limit), ..self }
    }

    /// The configuration a builder builds: caching enabled with exactly the
    /// settings made on the builder.
    pub open spec fn spec_build(self) -> PolicyConfig {
        PolicyConfig::Enabled(
            EnabledCacheConfig {
                ttl: self.spec_ttl(),
                stale: self.spec_stale(),
                policy: CacheBehaviorPolicy { stale: self.spec_stale_policy() },
                concurrency: self.spec_concurrency(),
            },
        )
    }

    /// Build the [`PolicyConfig`] with enabled caching.
    pub fn build(self) -> (r: PolicyConfig)
        ensures
            r == self.spec_build(),
            r matches PolicyConfig::Enabled(c) && c.ttl == self.spec_ttl() && c.stale
                == self.spec_stale() && c.policy.stale == self.spec_stale_policy() && c.concurrency
                == self.spec_concurrency(),
    {
        PolicyConfig::Enabled(
            EnabledCacheConfig {
                ttl: self.ttl,
                stale: self.stale,
                policy: CacheBehaviorPolicy { stale: self.stale_policy },
                concurrency: self.concurrency,
            },
        )
    }
}

/// Building keeps every setting as it was made: the built configuration is
/// enabled, with the builder's time-to-live, stale window, stale policy and
/// concurrency limit, each independently of the others.
pub proof fn lemma_build_keeps_settings(b: PolicyConfigBuilder)
    ensures
        b.spec_build() matches PolicyConfig::Enabled(c) && c.ttl == b.spec_ttl() && c.stale
            == b.spec_stale() && c.policy.stale == b.spec_stale_policy() && c.concurrency
            == b.spec_concurrency(),
{
}

/// Setting the stale window and then any stale policy builds a configuration
/// with that window and that policy: neither setting drops the other.
pub proof fn lemma_stale_window_survives_policy(
    b: PolicyConfigBuilder,
    with_stale: PolicyConfigBuilder,
    with_policy: PolicyConfigBuilder,
    stale: Duration,
    policy: StalePolicy,
)
    requires
        with_stale.spec_ttl() == b.spec_ttl(),
        with_stale.spec_stale() == Some(stale),
        with_stale.spec_stale_policy() == b.spec_stale_policy(),
        with_stale.spec_concurrency() == b.spec_concurrency(),
        with_policy.spec_ttl() == with_stale.spec_ttl(),
        with_policy.spec_stale() == with_stale.spec_stale(),
        with_policy.spec_stale_policy() == policy,
        with_policy.spec_concurrency() == with_stale.spec_concurrency(),
    ensures
        with_stale.spec_build() matches PolicyConfig::Enabled(c) && c.stale == Some(stale)
            && c.ttl == b.spec_ttl(),
        with_policy.spec_build() matches PolicyConfig::Enabled(c) && c.stale == Some(stale)
            && c.policy.stale == policy && c.ttl == b.spec_ttl(),
{
}

impl Default for PolicyConfigBuilder {
    fn default() -> (b: Self)
        ensures
            b.spec_ttl() is None,
            b.spec_stale() is None,
            b.spec_stale_policy() == StalePolicy::Return,
            b.spec_concurrency() is None,
    {
        PolicyConfigBuilder::new()
    }
}

} // verus!
