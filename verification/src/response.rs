//! The cache decision for responses: how a response becomes its cached
//! form and back, and whether a response is stored.

use crate::policy::{CachePolicy, EntityPolicyConfig};
use crate::predicate::{Predicate, PredicateResult};
use crate::time::Timestamp;
use crate::value::CacheValue;
use vstd::prelude::*;

verus! {

/// Types that can be cached: how a value becomes its cached representation
/// and how it is rebuilt from it.
///
/// `spec_into_cached` and `spec_from_cached` state what `into_cached` and
/// `from_cached` return; every implementation is held to them.
pub trait CacheableResponse: Sized {
    /// The representation stored in cache.
    type Cached;

    /// The cached representation of a value, or the value itself when it is
    /// not to be cached.
    spec fn spec_into_cached(self) -> CachePolicy<Self::Cached, Self>;

    /// The value rebuilt from its cached representation.
    spec fn spec_from_cached(cached: Self::Cached) -> Self;

    /// Convert this response to its cached representation.
    fn into_cached(self) -> (r: CachePolicy<Self::Cached, Self>)
        ensures
            r == self.spec_into_cached(),
    ;

    /// Reconstruct a response from cached data.
    fn from_cached(cached: Self::Cached) -> (r: Self)
        ensures
            r == Self::spec_from_cached(cached),
    ;
}

/// Whether a value comes back unchanged from the cache: when it has a cached
/// form, rebuilding from that form gives the value.
pub open spec fn round_trips<R: CacheableResponse>(r: R) -> bool {
    r.spec_into_cached() matches CachePolicy::Cacheable(c) ==> R::spec_from_cached(c) == r
}

impl CacheableResponse for u8 {
    type Cached = u8;

    open spec fn spec_into_cached(self) -> CachePolicy<u8, u8> {
        CachePolicy::Cacheable(self)
    }

    open spec fn spec_from_cached(cached: u8) -> u8 {
        cached
    }

    fn into_cached(self) -> (r: CachePolicy<u8, u8>) {
        CachePolicy::Cacheable(self)
    }

    fn from_cached(cached: u8) -> (r: u8) {
        cached
    }
}

impl CacheableResponse for u16 {
    type Cached = u16;

    open spec fn spec_into_cached(self) -> CachePolicy<u16, u16> {
        CachePolicy::Cacheable(self)
    }

    open spec fn spec_from_cached(cached: u16) -> u16 {
        cached
    }

    fn into_cached(self) -> (r: CachePolicy<u16, u16>) {
        CachePolicy::Cacheable(self)
    }

    fn from_cached(cached: u16) -> (r: u16) {
        cached
    }
}

impl CacheableResponse for u32 {
    type Cached = u32;

    open spec fn spec_into_cached(self) -> CachePolicy<u32, u32> {
        CachePolicy::Cacheable(self)
    }

    open spec fn spec_from_cached(cached: u32) -> u32 {
        cached
    }

    fn into_cached(self) -> (r: CachePolicy<u32, u32>) {
        CachePolicy::Cacheable(self)
    }

    fn from_cached(cached: u32) -> (r: u32) {
        cached
    }
}

impl CacheableResponse for u64 {
    type Cached = u64;

    open spec fn spec_into_cached(self) -> CachePolicy<u64, u64> {
        CachePolicy::Cacheable(self)
    }

    open spec fn spec_from_cached(cached: u64) -> u64 {
        cached
    }

    fn into_cached(self) -> (r: CachePolicy<u64, u64>) {
        CachePolicy::Cacheable(self)
    }

    fn from_cached(cached: u64) -> (r: u64) {
        cached
    }
}

impl CacheableResponse for u128 {
    type Cached = u128;

    open spec fn spec_into_cached(self) -> CachePolicy<u128, u128> {
        CachePolicy::Cacheable(self)
    }

    open spec fn spec_from_cached(cached: u128) -> u128 {
        cached
    }

    fn into_cached(self) -> (r: CachePolicy<u128, u128>) {
        CachePolicy::Cacheable(self)
    }

    fn from_cached(cached: u128) -> (r: u128) {
        cached
    }
}

impl CacheableResponse for usize {
    type Cached = usize;

    open spec fn spec_into_cached(self) -> CachePolicy<usize, usize> {
        CachePolicy::Cacheable(self)
    }

    open spec fn spec_from_cached(cached: usize) -> usize {
        cached
    }

    fn into_cached(self) -> (r: CachePolicy<usize, usize>) {
        CachePolicy::Cacheable(self)
    }

    fn from_cached(cached: usize) -> (r: usize) {
        cached
    }
}

impl CacheableResponse for i8 {
    type Cached = i8;

    open spec fn spec_into_cached(self) -> CachePolicy<i8, i8> {
        CachePolicy::Cacheable(self)
    }

    open spec fn spec_from_cached(cached: i8) -> i8 {
        cached
    }

    fn into_cached(self) -> (r: CachePolicy<i8, i8>) {
        CachePolicy::Cacheable(self)
    }

    fn from_cached(cached: i8) -> (r: i8) {
        cached
    }
}

impl CacheableResponse for i16 {
    type Cached = i16;

    open spec fn spec_into_cached(self) -> CachePolicy<i16, i16> {
        CachePolicy::Cacheable(self)
    }

    open spec fn spec_from_cached(cached: i16) -> i16 {
        cached
    }

    fn into_cached(self) -> (r: CachePolicy<i16, i16>) {
        CachePolicy::Cacheable(self)
    }

    fn from_cached(cached: i16) -> (r: i16) {
        cached
    }
}

impl CacheableResponse for i32 {
    type Cached = i32;

    open spec fn spec_into_cached(self) -> CachePolicy<i32, i32> {
        CachePolicy::Cacheable(self)
    }

    open spec fn spec_from_cached(cached: i32) -> i32 {
        cached
    }

    fn into_cached(self) -> (r: CachePolicy<i32, i32>) {
        CachePolicy::Cacheable(self)
    }

    fn from_cached(cached: i32) -> (r: i32) {
        cached
    }
}

impl CacheableResponse for i64 {
    type Cached = i64;

    open spec fn spec_into_cached(self) -> CachePolicy<i64, i64> {
        CachePolicy::Cacheable(self)
    }

    open spec fn spec_from_cached(cached: i64) -> i64 {
        cached
    }

    fn into_cached(self) -> (r: CachePolicy<i64, i64>) {
        CachePolicy::Cacheable(self)
    }

    fn from_cached(cached: i64) -> (r: i64) {
        cached
    }
}

impl CacheableResponse for i128 {
    type Cached = i128;

    open spec fn spec_into_cached(self) -> CachePolicy<i128, i128> {
        CachePolicy::Cacheable(self)
    }

    open spec fn spec_from_cached(cached: i128) -> i128 {
        cached
    }

    fn into_cached(self) -> (r: CachePolicy<i128, i128>) {
        CachePolicy::Cacheable(self)
    }

    fn from_cached(cached: i128) -> (r: i128) {
        cached
    }
}

impl CacheableResponse for isize {
    type Cached = isize;

    open spec fn spec_into_cached(self) -> CachePolicy<isize, isize> {
        CachePolicy::Cacheable(self)
    }

    open spec fn spec_from_cached(cached: isize) -> isize {
        cached
    }

    fn into_cached(self) -> (r: CachePolicy<isize, isize>) {
        CachePolicy::Cacheable(self)
    }

    fn from_cached(cached: isize) -> (r: isize) {
        cached
    }
}

impl CacheableResponse for bool {
    type Cached = bool;

    open spec fn spec_into_cached(self) -> CachePolicy<bool, bool> {
        CachePolicy::Cacheable(self)
    }

    open spec fn spec_from_cached(cached: bool) -> bool {
        cached
    }

    fn into_cached(self) -> (r: CachePolicy<bool, bool>) {
        CachePolicy::Cacheable(self)
    }

    fn from_cached(cached: bool) -> (r: bool) {
        cached
    }
}

impl CacheableResponse for char {
    type Cached = char;

    open spec fn spec_into_cached(self) -> CachePolicy<char, char> {
        CachePolicy::Cacheable(self)
    }

    open spec fn spec_from_cached(cached: char) -> char {
        cached
    }

    fn into_cached(self) -> (r: CachePolicy<char, char>) {
        CachePolicy::Cacheable(self)
    }

    fn from_cached(cached: char) -> (r: char) {
        cached
    }
}

impl CacheableResponse for String {
    type Cached = String;

    open spec fn spec_into_cached(self) -> CachePolicy<String, String> {
        CachePolicy::Cacheable(self)
    }

    open spec fn spec_from_cached(cached: String) -> String {
        cached
    }

    fn into_cached(self) -> (r: CachePolicy<String, String>) {
        CachePolicy::Cacheable(self)
    }

    fn from_cached(cached: String) -> (r: String) {
        cached
    }
}

impl<T> CacheableResponse for Vec<T> {
    type Cached = Vec<T>;

    open spec fn spec_into_cached(self) -> CachePolicy<Vec<T>, Vec<T>> {
        CachePolicy::Cacheable(self)
    }

    open spec fn spec_from_cached(cached: Vec<T>) -> Vec<T> {
        cached
    }

    fn into_cached(self) -> (r: CachePolicy<Vec<T>, Vec<T>>) {
        CachePolicy::Cacheable(self)
    }

    fn from_cached(cached: Vec<T>) -> (r: Vec<T>) {
        cached
    }
}

/// A result is cached through its success value; an error is never cached.
impl<T: CacheableResponse, E> CacheableResponse for Result<T, E> {
    type Cached = T::Cached;

    open spec fn spec_into_cached(self) -> CachePolicy<T::Cached, Result<T, E>> {
        match self {
            Ok(t) => match t.spec_into_cached() {
                CachePolicy::Cacheable(c) => CachePolicy::Cacheable(c),
                CachePolicy::NonCacheable(t2) => CachePolicy::NonCacheable(Ok(t2)),
            },
            Err(e) => CachePolicy::NonCacheable(Err(e)),
        }
    }

    open spec fn spec_from_cached(cached: T::Cached) -> Result<T, E> {
        Ok(T::spec_from_cached(cached))
    }

    fn into_cached(self) -> (r: CachePolicy<T::Cached, Result<T, E>>) {
        match self {
            Ok(t) => match t.into_cached() {
                CachePolicy::Cacheable(c) => CachePolicy::Cacheable(c),
                CachePolicy::NonCacheable(t2) => CachePolicy::NonCacheable(Ok(t2)),
            },
            Err(e) => CachePolicy::NonCacheable(Err(e)),
        }
    }

    fn from_cached(cached: T::Cached) -> (r: Result<T, E>) {
        Ok(T::from_cached(cached))
    }
}

/// Cache decision for a response: its cached form with deadlines, or the
/// response itself.
pub type ResponseCachePolicy<C> = CachePolicy<CacheValue<<C as CacheableResponse>::Cached>, C>;

/// Whether `v` is the entry that a response cached at `now` under `config`
/// gets: the cached data, created at `now`, expiring `ttl` later and going
/// stale `stale_ttl` later (each only where the configuration sets it).
pub open spec fn is_entry_at<C>(v: CacheValue<C>, data: C, config: EntityPolicyConfig, now: Timestamp) -> bool {
    &&& v.spec_data() == data
    &&& v.spec_created() == now
    &&& v.spec_expire() == (match config.ttl {
        Some(d) => Some(now.spec_add(d)),
        None => None,
    })
    &&& v.spec_stale() == (match config.stale_ttl {
        Some(d) => Some(now.spec_add(d)),
        None => None,
    })
    &&& v.spec_tags() is None
}

/// Decides whether a response is stored, at time `now`: the predicates check
/// it; a response they accept is stored in its cached form with the
/// deadlines of `config`, unless it has no cached form; any other response
/// is passed on as the predicates handed it back.
pub fn response_cache_policy<R: CacheableResponse, P: Predicate<Subject = R>>(
    response: R,
    predicates: &P,
    ctx: &mut P::Context,
    config: &EntityPolicyConfig,
    now: Timestamp,
) -> (r: ResponseCachePolicy<R>)
    requires
        now.in_range(),
    ensures
        *final(ctx) == predicates.spec_check(response, *old(ctx)).1,
        match predicates.spec_check(response, *old(ctx)).0 {
            PredicateResult::Cacheable(s) => match s.spec_into_cached() {
                CachePolicy::Cacheable(c) => r matches CachePolicy::Cacheable(v) && is_entry_at(
                    v,
                    c,
                    *config,
                    now,
                ),
                CachePolicy::NonCacheable(s2) => r == ResponseCachePolicy::<R>::NonCacheable(s2),
            },
            PredicateResult::NonCacheable(s) => r == ResponseCachePolicy::<R>::NonCacheable(s),
        },
{
    match predicates.check(response, ctx) {
        PredicateResult::Cacheable(s) => match s.into_cached() {
            CachePolicy::Cacheable(c) => CachePolicy::Cacheable(
                CacheValue::from_config_at(c, config, now),
            ),
            CachePolicy::NonCacheable(s2) => CachePolicy::NonCacheable(s2),
        },
        PredicateResult::NonCacheable(s) => CachePolicy::NonCacheable(s),
    }
}

/// Decides whether a result is stored, at time `now`: an error is passed on
/// without consulting the predicates; a success value is checked by the
/// predicates and, when accepted, stored in its cached form with the
/// deadlines of `config`; everything else is passed on as a success.
pub fn result_cache_policy<T: CacheableResponse, E, P: Predicate<Subject = T>>(
    result: Result<T, E>,
    predicates: &P,
    ctx: &mut P::Context,
    config: &EntityPolicyConfig,
    now: Timestamp,
) -> (r: ResponseCachePolicy<Result<T, E>>)
    requires
        now.in_range(),
    ensures
        match result {
            Err(e) => r == ResponseCachePolicy::<Result<T, E>>::NonCacheable(Err(e))
                && *final(ctx) == *old(ctx),
            Ok(t) => *final(ctx) == predicates.spec_check(t, *old(ctx)).1 && match predicates.spec_check(t, *old(ctx)).0 {
                PredicateResult::Cacheable(s) => match s.spec_into_cached() {
                    CachePolicy::Cacheable(c) => r matches CachePolicy::Cacheable(v) && is_entry_at(
                        v,
                        c,
                        *config,
                        now,
                    ),
                    CachePolicy::NonCacheable(s2) => r == ResponseCachePolicy::<Result<T, E>>::NonCacheable(Ok(s2)),
                },
                PredicateResult::NonCacheable(s) => r == ResponseCachePolicy::<Result<T, E>>::NonCacheable(Ok(s)),
            },
        },
{
    match result {
        Ok(t) => match predicates.check(t, ctx) {
            PredicateResult::Cacheable(s) => match s.into_cached() {
                CachePolicy::Cacheable(c) => CachePolicy::Cacheable(
                    CacheValue::from_config_at(c, config, now),
                ),
                CachePolicy::NonCacheable(s2) => CachePolicy::NonCacheable(Ok(s2)),
            },
            PredicateResult::NonCacheable(s) => CachePolicy::NonCacheable(Ok(s)),
        },
        Err(e) => CachePolicy::NonCacheable(Err(e)),
    }
}

/// Whether a value is always cached and comes back unchanged: its cached
/// form is there, and rebuilding from it gives the value.
pub open spec fn cached_and_back<R: CacheableResponse>(r: R) -> bool {
    r.spec_into_cached() matches CachePolicy::Cacheable(c) && R::spec_from_cached(c) == r
}

/// Scalars, strings and vectors are always cacheable, and as themselves:
/// each is its own cached form, and comes back from the cache unchanged.
pub proof fn lemma_scalars_cached_as_themselves<T>(
    a: u8,
    b: u16,
    c: u32,
    d: u64,
    e: u128,
    f: usize,
    g: i8,
    h: i16,
    i: i32,
    j: i64,
    k: i128,
    l: isize,
    m: bool,
    n: char,
    o: String,
    p: Vec<T>,
)
    ensures
        a.spec_into_cached() == CachePolicy::<u8, u8>::Cacheable(a) && cached_and_back(a),
        b.spec_into_cached() == CachePolicy::<u16, u16>::Cacheable(b) && cached_and_back(b),
        c.spec_into_cached() == CachePolicy::<u32, u32>::Cacheable(c) && cached_and_back(c),
        d.spec_into_cached() == CachePolicy::<u64, u64>::Cacheable(d) && cached_and_back(d),
        e.spec_into_cached() == CachePolicy::<u128, u128>::Cacheable(e) && cached_and_back(e),
        f.spec_into_cached() == CachePolicy::<usize, usize>::Cacheable(f) && cached_and_back(f),
        g.spec_into_cached() == CachePolicy::<i8, i8>::Cacheable(g) && cached_and_back(g),
        h.spec_into_cached() == CachePolicy::<i16, i16>::Cacheable(h) && cached_and_back(h),
        i.spec_into_cached() == CachePolicy::<i32, i32>::Cacheable(i) && cached_and_back(i),
        j.spec_into_cached() == CachePolicy::<i64, i64>::Cacheable(j) && cached_and_back(j),
        k.spec_into_cached() == CachePolicy::<i128, i128>::Cacheable(k) && cached_and_back(k),
        l.spec_into_cached() == CachePolicy::<isize, isize>::Cacheable(l) && cached_and_back(l),
        m.spec_into_cached() == CachePolicy::<bool, bool>::Cacheable(m) && cached_and_back(m),
        n.spec_into_cached() == CachePolicy::<char, char>::Cacheable(n) && cached_and_back(n),
        o.spec_into_cached() == CachePolicy::<String, String>::Cacheable(o) && cached_and_back(o),
        p.spec_into_cached() == CachePolicy::<Vec<T>, Vec<T>>::Cacheable(p) && cached_and_back(p),
{
}

/// A success value that is always cached and comes back unchanged is so
/// inside a result too.
pub proof fn lemma_ok_cached_and_back<T: CacheableResponse, E>(t: T)
    requires
        cached_and_back(t),
    ensures
        cached_and_back(Ok::<T, E>(t)),
{
}

/// A response accepted by the predicates whose type is always cached is
/// stored: the decision is the entry for its cached form at `now`.
pub proof fn lemma_accepted_scalar_is_stored<R: CacheableResponse>(
    accepted: R,
    decision: ResponseCachePolicy<R>,
    config: EntityPolicyConfig,
    now: Timestamp,
)
    requires
        cached_and_back(accepted),
        match accepted.spec_into_cached() {
            CachePolicy::Cacheable(c) => decision matches CachePolicy::Cacheable(v) && is_entry_at(
                v,
                c,
                config,
                now,
            ),
            CachePolicy::NonCacheable(s2) => decision == ResponseCachePolicy::<R>::NonCacheable(s2),
        },
    ensures
        decision matches CachePolicy::Cacheable(v) && R::spec_from_cached(v.spec_data()) == accepted
            && v.spec_created() == now,
{
}

/// Values of the plain types come back from the cache unchanged.
pub proof fn lemma_plain_values_round_trip(n: u64, s: String, v: Vec<u8>)
    ensures
        round_trips(n),
        round_trips(s),
        round_trips(v),
{
}

/// A success value that comes back unchanged from the cache does so inside
/// a result too, and an error is never cached.
pub proof fn lemma_result_round_trips<T: CacheableResponse, E>(r: Result<T, E>)
    requires
        r matches Ok(t) ==> round_trips(t),
    ensures
        round_trips(r),
        r is Err ==> r.spec_into_cached() is NonCacheable,
{
}

} // verus!
