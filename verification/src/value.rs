//! Cached values with creation time, expiry and staleness deadlines.
//!
//! An entry is *stale* once its stale deadline has passed (usable, but due
//! for a background refresh) and *expired* once its expiry deadline has
//! passed (no longer usable).

use crate::policy::EntityPolicyConfig;
use crate::raw::{bytes_contents, raw_len, Raw};
use crate::tag::CacheTags;
use crate::time::{duration_from_secs, duration_nanos, Timestamp, NANOS_PER_SEC, RANGE_SECS};
use std::time::Duration;
use vstd::prelude::*;

verus! {

/// Freshness state of cached data.
#[derive(Debug, PartialEq, Eq)]
pub enum CacheState<Cached> {
    /// Data is stale but not expired (usable, should refresh in background).
    Stale(Cached),
    /// Data is fresh and valid.
    Actual(Cached),
    /// Data has expired (must refresh before use).
    Expired(Cached),
}

impl<C> CacheState<C> {
    /// The value carried, whatever the state.
    pub open spec fn spec_value(self) -> C {
        match self {
            CacheState::Stale(v) => v,
            CacheState::Actual(v) => v,
            CacheState::Expired(v) => v,
        }
    }

    /// How far the state has progressed: fresh, then stale, then expired.
    pub open spec fn rank(self) -> int {
        match self {
            CacheState::Actual(_) => 0,
            CacheState::Stale(_) => 1,
            CacheState::Expired(_) => 2,
        }
    }
}

/// Whether a deadline has been reached at `now`.
pub open spec fn reached(deadline: Option<Timestamp>, now: Timestamp) -> bool {
    match deadline {
        Some(d) => d.nanos <= now.nanos,
        None => false,
    }
}

/// The freshness rank of an entry with the given deadlines at `now`:
/// expired once the expiry is reached, else stale once the stale deadline is
/// reached, else fresh.
pub open spec fn freshness_rank(
    expire: Option<Timestamp>,
    stale: Option<Timestamp>,
    now: Timestamp,
) -> int {
    if reached(expire, now) {
        2
    } else if reached(stale, now) {
        1
    } else {
        0
    }
}

/// The whole seconds from `now` until `deadline`, when at least one whole
/// second remains.
pub open spec fn remaining_secs(deadline: Option<Timestamp>, now: Timestamp) -> Option<int> {
    match deadline {
        Some(d) => if d.nanos - now.nanos >= NANOS_PER_SEC {
            Some((d.nanos - now.nanos) / (NANOS_PER_SEC as int))
        } else {
            None
        },
        None => None,
    }
}

/// Cache expiration metadata without the data.
pub struct CacheMeta {
    /// When the cached data was created.
    pub created: Timestamp,
    /// When the cached data expires and becomes invalid.
    pub expire: Option<Timestamp>,
    /// When the cached data becomes stale and should be refreshed.
    pub stale: Option<Timestamp>,
    /// Tags attached to the cached entry, if any.
    pub tags: Option<CacheTags>,
}

impl CacheMeta {
    /// Creates new cache metadata with the given timestamps and tags.
    pub fn new(
        created: Timestamp,
        expire: Option<Timestamp>,
        stale: Option<Timestamp>,
        tags: Option<CacheTags>,
    ) -> (r: CacheMeta)
        ensures
            r.created == created,
            r.expire == expire,
            r.stale == stale,
            r.tags == tags,
    {
        CacheMeta { created, expire, stale, tags }
    }
}

/// A cached value with its creation time, optional expiry and staleness
/// deadlines, and the tags it was stored with.
#[derive(Debug, Clone)]
pub struct CacheValue<T> {
    data: T,
    created: Timestamp,
    expire: Option<Timestamp>,
    stale: Option<Timestamp>,
    tags: Option<CacheTags>,
}

impl<T> CacheValue<T> {
    /// The cached data.
    pub closed spec fn spec_data(self) -> T {
        self.data
    }

    /// When the entry was created.
    pub closed spec fn spec_created(self) -> Timestamp {
        self.created
    }

    /// When the data expires.
    pub closed spec fn spec_expire(self) -> Option<Timestamp> {
        self.expire
    }

    /// When the data becomes stale.
    pub closed spec fn spec_stale(self) -> Option<Timestamp> {
        self.stale
    }

    /// The tags of the entry.
    pub closed spec fn spec_tags(self) -> Option<CacheTags> {
        self.tags
    }

    /// Creates a cache value with an explicit creation timestamp and no tags.
    pub fn with_created(
        data: T,
        created: Timestamp,
        expire: Option<Timestamp>,
        stale: Option<Timestamp>,
    ) -> (r: Self)
        ensures
            r.spec_data() == data,
            r.spec_created() == created,
            r.spec_expire() == expire,
            r.spec_stale() == stale,
            r.spec_tags() is None,
    {
        CacheValue { data, created, expire, stale, tags: None }
    }

    /// Creates a new cache value created now, with the given deadlines and
    /// no tags.
    ///
    /// When the system clock cannot be read as a point in time (see
    /// [`Timestamp::now`]), the data is handed back in `Err`.
    pub fn new(data: T, expire: Option<Timestamp>, stale: Option<Timestamp>) -> (r: Result<Self, T>)
        ensures
            r matches Ok(v) ==> {
                &&& v.spec_data() == data
                &&& v.spec_created().in_range()
                &&& v.spec_expire() == expire
                &&& v.spec_stale() == stale
                &&& v.spec_tags() is None
            },
            r matches Err(d) ==> d == data,
    {
        match Timestamp::now() {
            Some(now) => Ok(CacheValue::with_created(data, now, expire, stale)),
            None => Err(data),
        }
    }

    /// The value with the deadlines that `config` gives when created at
    /// `now`: expiry `now + ttl` and staleness `now + stale_ttl`, each only
    /// where the configuration sets it.
    pub fn from_config_at(data: T, config: &EntityPolicyConfig, now: Timestamp) -> (r: Self)
        requires
            now.in_range(),
        ensures
            r.spec_data() == data,
            r.spec_created() == now,
            r.spec_expire() == (match config.ttl {
                Some(d) => Some(now.spec_add(d)),
                None => None,
            }),
            r.spec_stale() == (match config.stale_ttl {
                Some(d) => Some(now.spec_add(d)),
                None => None,
            }),
            r.spec_tags() is None,
    {
        let expire = match &config.ttl {
            Some(d) => Some(now.add_duration(d)),
            None => None,
        };
        let stale = match &config.stale_ttl {
            Some(d) => Some(now.add_duration(d)),
            None => None,
        };
        CacheValue::with_created(data, now, expire, stale)
    }

    /// Creates a new cache value created now, with deadlines derived from
    /// the configuration's durations. When the system clock cannot be read
    /// as a point in time, the data is handed back in `Err`.
    pub fn from_config(data: T, config: &EntityPolicyConfig) -> (r: Result<Self, T>)
        ensures
            r matches Ok(v) ==> {
                &&& v.spec_data() == data
                &&& v.spec_created().in_range()
                &&& v.spec_expire() == (match config.ttl {
                    Some(d) => Some(v.spec_created().spec_add(d)),
                    None => None,
                })
                &&& v.spec_stale() == (match config.stale_ttl {
                    Some(d) => Some(v.spec_created().spec_add(d)),
                    None => None,
                })
                &&& v.spec_tags() is None
            },
            r matches Err(d) ==> d == data,
    {
        match Timestamp::now() {
            Some(now) => Ok(CacheValue::from_config_at(data, config, now)),
            None => Err(data),
        }
    }

    /// Attaches tags to this cache value.
    pub fn with_tags(self, tags: CacheTags) -> (r: Self)
        ensures
            r.spec_data() == self.spec_data(),
            r.spec_created() == self.spec_created(),
            r.spec_expire() == self.spec_expire(),
            r.spec_stale() == self.spec_stale(),
            r.spec_tags() == Some(tags),
    {
        CacheValue { tags: Some(tags), ..self }
    }

    /// Sets the tags from an `Option<CacheTags>`.
    pub fn with_optional_tags(self, tags: Option<CacheTags>) -> (r: Self)
        ensures
            r.spec_data() == self.spec_data(),
            r.spec_created() == self.spec_created(),
            r.spec_expire() == self.spec_expire(),
            r.spec_stale() == self.spec_stale(),
            r.spec_tags() == tags,
    {
        CacheValue { tags, ..self }
    }

    /// Returns a reference to the value's tags, if any.
    pub fn tags(&self) -> (r: Option<&CacheTags>)
        ensures
            r is Some <==> self.spec_tags() is Some,
            r matches Some(t) ==> self.spec_tags() == Some(*t),
    {
        self.tags.as_ref()
    }

    /// Returns a reference to the cached data.
    pub fn data(&self) -> (r: &T)
        ensures
            *r == self.spec_data(),
    {
        &self.data
    }

    /// Returns when the entry was created.
    pub fn created(&self) -> (r: Timestamp)
        ensures
            r == self.spec_created(),
    {
        self.created
    }

    /// Returns when the data expires.
    pub fn expire(&self) -> (r: Option<Timestamp>)
        ensures
            r == self.spec_expire(),
    {
        self.expire
    }

    /// Returns when the data becomes stale.
    pub fn stale(&self) -> (r: Option<Timestamp>)
        ensures
            r == self.spec_stale(),
    {
        self.stale
    }

    /// Consumes the cache value and returns the inner data.
    pub fn into_inner(self) -> (r: T)
        ensures
            r == self.spec_data(),
    {
        self.data
    }

    /// Consumes the cache value and returns metadata and data separately.
    pub fn into_parts(self) -> (r: (CacheMeta, T))
        ensures
            r.0.created == self.spec_created(),
            r.0.expire == self.spec_expire(),
            r.0.stale == self.spec_stale(),
            r.0.tags == self.spec_tags(),
            r.1 == self.spec_data(),
    {
        (CacheMeta::new(self.created, self.expire, self.stale, self.tags), self.data)
    }

    /// The time-to-live left at `now`: the whole seconds until expiry, when
    /// at least one whole second is left.
    pub fn ttl_at(&self, now: Timestamp) -> (r: Option<Duration>)
        requires
            now.in_range(),
            self.spec_expire() matches Some(e) ==> e.in_range(),
        ensures
            r is Some <==> remaining_secs(self.spec_expire(), now) is Some,
            r matches Some(d) ==> duration_nanos(d) == remaining_secs(self.spec_expire(), now)->0
                * NANOS_PER_SEC,
    {
        match self.expire {
            Some(expire) => {
                let diff: i128 = expire.nanos - now.nanos;
                if diff >= NANOS_PER_SEC {
                    let secs = diff / NANOS_PER_SEC;
                    assert(secs <= u64::MAX) by (nonlinear_arith)
                        requires
                            secs == diff / NANOS_PER_SEC,
                            diff <= 2 * RANGE_SECS * NANOS_PER_SEC + 2 * NANOS_PER_SEC,
                            RANGE_SECS == 281_474_976_710_656,
                            NANOS_PER_SEC == 1_000_000_000,
                    ;
                    Some(duration_from_secs(secs as u64))
                } else {
                    None
                }
            },
            None => None,
        }
    }

    /// The time-to-live left now: the whole seconds until expiry, when at
    /// least one whole second is left. The answer depends on the clock;
    /// `None` when the clock cannot be read as a point in time.
    pub fn ttl(&self) -> (r: Option<Option<Duration>>)
        requires
            self.spec_expire() matches Some(e) ==> e.in_range(),
        ensures
            self.spec_expire() is None ==> (r is None || r == Some(None::<Duration>)),
            r matches Some(Some(d)) ==> exists|now: Timestamp|
                now.in_range() && #[trigger] remaining_secs(self.spec_expire(), now) is Some
                    && duration_nanos(d) == remaining_secs(self.spec_expire(), now)->0
                    * NANOS_PER_SEC,
    {
        match Timestamp::now() {
            Some(now) => {
                let r = self.ttl_at(now);
                assert(r is Some ==> remaining_secs(self.spec_expire(), now) is Some);
                Some(r)
            },
            None => None,
        }
    }

    /// The freshness state of the value at `now`: expired once its expiry is
    /// reached, else stale once its stale deadline is reached, else fresh.
    pub fn cache_state_at(self, now: Timestamp) -> (r: CacheState<Self>)
        ensures
            r.spec_value() == self,
            r.rank() == freshness_rank(self.spec_expire(), self.spec_stale(), now),
    {
        let expired = match self.expire {
            Some(expire) => expire.nanos <= now.nanos,
            None => false,
        };
        if expired {
            return CacheState::Expired(self);
        }
        let stale = match self.stale {
            Some(stale) => stale.nanos <= now.nanos,
            None => false,
        };
        if stale {
            CacheState::Stale(self)
        } else {
            CacheState::Actual(self)
        }
    }

    /// The freshness state of the value now. The state depends on the clock;
    /// whatever the time, the value is handed back unchanged, and a value
    /// without deadlines is always fresh. When the clock cannot be read as
    /// a point in time, the value is handed back in `Err`.
    pub fn cache_state(self) -> (r: Result<CacheState<Self>, Self>)
        ensures
            r matches Ok(st) ==> st.spec_value() == self,
            r matches Ok(st) ==> exists|now: Timestamp|
                now.in_range() && #[trigger] freshness_rank(
                    self.spec_expire(),
                    self.spec_stale(),
                    now,
                ) == st.rank(),
            self.spec_expire() is None && self.spec_stale() is None ==> (r matches Ok(st) ==> st is Actual),
            r matches Err(v) ==> v == self,
    {
        match Timestamp::now() {
            Some(now) => {
                let st = self.cache_state_at(now);
                assert(freshness_rank(self.spec_expire(), self.spec_stale(), now) == st.rank());
                Ok(st)
            },
            None => Err(self),
        }
    }
}

impl CacheValue<Raw> {
    /// The estimated memory a raw cache value occupies: the value record
    /// plus its bytes.
    pub open spec fn spec_memory_size(self) -> nat {
        vstd::layout::size_of::<CacheValue<Raw>>() + bytes_contents(self.spec_data()).len()
    }

    /// Returns the estimated memory usage of this cache value in bytes.
    pub fn memory_size(&self) -> (r: usize)
        requires
            self.spec_memory_size() <= usize::MAX,
        ensures
            r == self.spec_memory_size(),
    {
        let fixed = std::mem::size_of::<CacheValue<Raw>>();
        let content = raw_len(&self.data);
        fixed + content
    }
}

/// As time passes an entry only ages: its freshness state never goes back
/// from expired to stale or fresh, nor from stale to fresh.
pub proof fn lemma_freshness_monotone(
    expire: Option<Timestamp>,
    stale: Option<Timestamp>,
    earlier: Timestamp,
    later: Timestamp,
)
    requires
        earlier.nanos <= later.nanos,
    ensures
        freshness_rank(expire, stale, earlier) <= freshness_rank(expire, stale, later),
{
}

/// An entry whose expiry comes no later than its stale deadline is never
/// observed stale: it goes from fresh straight to expired.
pub proof fn lemma_expiry_first_skips_stale(
    expire: Timestamp,
    stale: Timestamp,
    now: Timestamp,
)
    requires
        expire.nanos <= stale.nanos,
    ensures
        freshness_rank(Some(expire), Some(stale), now) != 1,
{
}

} // verus!
