//! What the cache did with a request, where the response came from, and the
//! per-operation context that carries both.

use crate::eval_context::ErasedValue;
use crate::time::Timestamp;
use vstd::prelude::*;

verus! {

/// Why a request was forwarded to upstream instead of served from cache.
#[derive(Debug, Clone, Copy, PartialEq, Eq, Structural)]
pub enum ForwardReason {
    /// No matching cache entry found.
    Miss,
    /// Cache entry was expired/stale and policy required a fresh response.
    Expired,
    /// Cache was intentionally bypassed (a predicate rejected the request).
    Bypass,
}

impl ForwardReason {
    /// The textual name of a reason.
    pub open spec fn spec_name(self) -> Seq<char> {
        match self {
            ForwardReason::Miss => "miss"@,
            ForwardReason::Expired => "expired"@,
            ForwardReason::Bypass => "bypass"@,
        }
    }

    /// Returns the reason as a string slice.
    pub fn as_str(&self) -> (r: &'static str)
        ensures
            r@ == self.spec_name(),
    {
        match self {
            ForwardReason::Miss => "miss",
            ForwardReason::Expired => "expired",
            ForwardReason::Bypass => "bypass",
        }
    }

    /// The default reason is a miss.
    pub fn default_reason() -> (r: ForwardReason)
        ensures
            r == ForwardReason::Miss,
    {
        ForwardReason::Miss
    }
}

impl Default for ForwardReason {
    fn default() -> (r: Self)
        ensures
            r == ForwardReason::Miss,
    {
        ForwardReason::Miss
    }
}

/// What the cache did with this request.
///
/// `Hit`, `Stale` and `Collapsed` mean the response was served from cache;
/// `Forward(reason)` means it was fetched from upstream.
#[derive(Debug, Clone, Copy, PartialEq, Eq, Structural)]
pub enum CacheStatus {
    /// Fresh cached data was found and returned.
    Hit,
    /// Cached data was served although past its freshness window.
    Stale,
    /// The request was coalesced with another in-flight request.
    Collapsed,
    /// Forwarded to upstream with a specific reason.
    Forward(ForwardReason),
}

impl CacheStatus {
    /// The textual name of a status: a forwarded status is named by its reason.
    pub open spec fn spec_name(self) -> Seq<char> {
        match self {
            CacheStatus::Hit => "hit"@,
            CacheStatus::Stale => "stale"@,
            CacheStatus::Collapsed => "collapsed"@,
            CacheStatus::Forward(reason) => reason.spec_name(),
        }
    }

    /// Whether a status means the response came from cache.
    pub open spec fn spec_served_from_cache(self) -> bool {
        !(self is Forward)
    }

    /// Returns the status as a string slice.
    pub fn as_str(&self) -> (r: &'static str)
        ensures
            r@ == self.spec_name(),
    {
        match self {
            CacheStatus::Hit => "hit",
            CacheStatus::Stale => "stale",
            CacheStatus::Collapsed => "collapsed",
            CacheStatus::Forward(reason) => reason.as_str(),
        }
    }

    /// Returns true if the response was served from cache (hit, stale, or collapsed).
    pub fn is_served_from_cache(&self) -> (r: bool)
        ensures
            r == self.spec_served_from_cache(),
            r <==> (*self == CacheStatus::Hit || *self == CacheStatus::Stale || *self
                == CacheStatus::Collapsed),
    {
        match self {
            CacheStatus::Forward(_) => false,
            _ => true,
        }
    }
}

impl Default for CacheStatus {
    fn default() -> (r: Self)
        ensures
            r == CacheStatus::Forward(ForwardReason::Miss),
    {
        CacheStatus::Forward(ForwardReason::Miss)
    }
}

/// The name of a cache backend, such as `"moka"` or `"feoxdb"`. Labels of
/// nested backends are composed with a dot: `"composition.moka"`.
#[derive(Debug, PartialEq, Eq, Hash)]
pub struct BackendLabel {
    label: String,
}

/// A copy of a label has the same text.
impl Clone for BackendLabel {
    fn clone(&self) -> (r: Self)
        ensures
            r@ == self@,
    {
        BackendLabel { label: self.label.clone() }
    }
}

impl View for BackendLabel {
    type V = Seq<char>;

    closed spec fn view(&self) -> Seq<char> {
        self.label@
    }
}

impl BackendLabel {
    /// A label with the given text.
    pub fn new(label: &str) -> (r: BackendLabel)
        ensures
            r@ == label@,
    {
        BackendLabel { label: label.to_owned() }
    }

    /// A label that takes ownership of the given text.
    pub fn from_string(label: String) -> (r: BackendLabel)
        ensures
            r@ == label@,
    {
        BackendLabel { label }
    }

    /// Returns the label as a string slice.
    pub fn as_str(&self) -> (r: &str)
        ensures
            r@ == self@,
    {
        self.label.as_str()
    }

    /// The text of `outer` composed with `inner`: `"outer.inner"`.
    pub open spec fn spec_compose(outer: Seq<char>, inner: Seq<char>) -> Seq<char> {
        outer + "."@ + inner
    }

    /// The label of an inner backend as seen through this one: `"self.inner"`.
    pub fn compose(&self, inner: &BackendLabel) -> (r: BackendLabel)
        ensures
            r@ == Self::spec_compose(self@, inner@),
    {
        let mut label = self.label.clone();
        label.append(".");
        label.append(inner.label.as_str());
        BackendLabel { label }
    }
}

/// Source of the response: upstream, or a cache backend with its label.
#[derive(Debug, PartialEq, Eq)]
pub enum ResponseSource {
    /// Response came from the upstream service.
    Upstream,
    /// Response came from the cache backend with the given label.
    Backend(BackendLabel),
}

/// A copy of a source names the same place.
impl Clone for ResponseSource {
    fn clone(&self) -> (r: Self)
        ensures
            r is Upstream <==> self is Upstream,
            r.spec_name() == self.spec_name(),
    {
        match self {
            ResponseSource::Upstream => ResponseSource::Upstream,
            ResponseSource::Backend(label) => ResponseSource::Backend(label.clone()),
        }
    }
}

impl ResponseSource {
    /// The textual name of a source: `"upstream"`, or the backend's label.
    pub open spec fn spec_name(self) -> Seq<char> {
        match self {
            ResponseSource::Upstream => "upstream"@,
            ResponseSource::Backend(label) => label@,
        }
    }

    /// Returns the source as a string slice.
    pub fn as_str(&self) -> (r: &str)
        ensures
            r@ == self.spec_name(),
    {
        match self {
            ResponseSource::Upstream => "upstream",
            ResponseSource::Backend(label) => label.as_str(),
        }
    }
}

impl Default for ResponseSource {
    fn default() -> (r: Self)
        ensures
            r is Upstream,
    {
        ResponseSource::Upstream
    }
}

/// Mode for cache read operations.
#[derive(Debug, Clone, Copy, PartialEq, Eq, Structural)]
pub enum ReadMode {
    /// Return the value without side effects.
    Direct,
    /// Write the value back to the layer it was read from.
    Refill,
}

impl Default for ReadMode {
    fn default() -> (r: Self)
        ensures
            r == ReadMode::Direct,
    {
        ReadMode::Direct
    }
}

/// When a cached entry was created, and when its freshness ends.
#[derive(Debug, Clone, Copy, PartialEq, Eq, Structural)]
pub struct CacheTiming {
    /// When the cache entry was originally stored.
    pub created_at: Timestamp,
    /// When the entry's freshness expires; may be in the past for stale responses.
    pub expire: Option<Timestamp>,
}

/// Context information about one cache operation.
#[derive(Debug)]
pub struct CacheContext {
    /// What the cache did with this request.
    pub status: CacheStatus,
    /// Read mode for this operation.
    pub read_mode: ReadMode,
    /// Source of the response.
    pub source: ResponseSource,
    /// Timing data of the entry served from cache, if any.
    pub timing: Option<CacheTiming>,
    /// Whether the response was stored in cache during this operation.
    pub stored: bool,
    /// Protocol-specific data, of a type each protocol chooses.
    pub extensions: Option<ErasedValue>,
}

/// A clone carries everything but the protocol-specific data, which is only
/// needed where the response is written.
impl Clone for CacheContext {
    fn clone(&self) -> (r: Self)
        ensures
            r.status == self.status,
            r.read_mode == self.read_mode,
            r.source.spec_name() == self.source.spec_name(),
            r.source is Upstream <==> self.source is Upstream,
            r.timing == self.timing,
            r.stored == self.stored,
            r.extensions is None,
    {
        let source = match &self.source {
            ResponseSource::Upstream => ResponseSource::Upstream,
            ResponseSource::Backend(label) => ResponseSource::Backend(BackendLabel::new(label.as_str())),
        };
        CacheContext {
            status: self.status,
            read_mode: self.read_mode,
            source,
            timing: self.timing,
            stored: self.stored,
            extensions: None,
        }
    }
}

impl Default for CacheContext {
    fn default() -> (r: Self)
        ensures
            r.status == CacheStatus::Forward(ForwardReason::Miss),
            r.read_mode == ReadMode::Direct,
            r.source is Upstream,
            r.timing is None,
            !r.stored,
            r.extensions is None,
    {
        CacheContext {
            status: CacheStatus::Forward(ForwardReason::Miss),
            read_mode: ReadMode::Direct,
            source: ResponseSource::Upstream,
            timing: None,
            stored: false,
            extensions: None,
        }
    }
}

/// Whether `after` is the result of merging `other`, the context of an inner
/// backend reached through the label `prefix`, into `before`:
/// - a `Hit` or `Stale` status of the inner context is taken over;
/// - an inner backend source becomes the composed label `prefix.inner`;
/// - inner timing, when present, is taken over;
/// - the stored flag is set when the inner operation stored the response;
/// - everything else is kept.
pub open spec fn is_merge(
    before: CacheContext,
    other: CacheContext,
    prefix: Seq<char>,
    after: CacheContext,
) -> bool {
    &&& after.status == (if other.status == CacheStatus::Hit || other.status
        == CacheStatus::Stale {
        other.status
    } else {
        before.status
    })
    &&& after.read_mode == before.read_mode
    &&& match other.source {
        ResponseSource::Backend(inner) => after.source matches ResponseSource::Backend(label)
            && label@ == BackendLabel::spec_compose(prefix, inner@),
        ResponseSource::Upstream => after.source == before.source,
    }
    &&& after.timing == (if other.timing is Some {
        other.timing
    } else {
        before.timing
    })
    &&& after.stored == (before.stored || other.stored)
    &&& after.extensions == before.extensions
}

/// Two contexts that agree on everything a reader can observe: status, read
/// mode, the name of the source, timing and the stored flag.
pub open spec fn same_context(a: CacheContext, b: CacheContext) -> bool {
    &&& a.status == b.status
    &&& a.read_mode == b.read_mode
    &&& (a.source is Upstream <==> b.source is Upstream)
    &&& a.source.spec_name() == b.source.spec_name()
    &&& a.timing == b.timing
    &&& a.stored == b.stored
}

impl CacheContext {
    /// Merges the context of an inner backend into this one. Used by
    /// composition backends; `prefix` is the label under which the inner
    /// backend is reached.
    pub fn merge_from(&mut self, other: &CacheContext, prefix: &BackendLabel)
        ensures
            is_merge(*old(self), *other, prefix@, *final(self)),
    {
        if other.status == CacheStatus::Hit || other.status == CacheStatus::Stale {
            self.status = other.status;
        }
        match &other.source {
            ResponseSource::Backend(inner_label) => {
                let composed = prefix.compose(inner_label);
                self.source = ResponseSource::Backend(composed);
            },
            ResponseSource::Upstream => {},
        }
        if other.timing.is_some() {
            self.timing = other.timing;
        }
        if other.stored {
            self.stored = true;
        }
    }
}

/// Merging an inner context that carries no news (forwarded status, upstream
/// source, no timing, nothing stored) leaves a context as it was.
pub proof fn lemma_merge_of_nothing_is_identity(
    before: CacheContext,
    other: CacheContext,
    prefix: Seq<char>,
    after: CacheContext,
)
    requires
        other.status is Forward,
        other.source is Upstream,
        other.timing is None,
        !other.stored,
        is_merge(before, other, prefix, after),
    ensures
        after == before,
{
}

/// Merging the same inner context twice gives what merging it once gives.
pub proof fn lemma_merge_idempotent(
    before: CacheContext,
    other: CacheContext,
    prefix: Seq<char>,
    once: CacheContext,
    twice: CacheContext,
)
    requires
        is_merge(before, other, prefix, once),
        is_merge(once, other, prefix, twice),
    ensures
        same_context(once, twice),
{
}

/// A merge never clears the stored flag and never turns a status served
/// from cache into a forwarded one.
pub proof fn lemma_merge_monotone(
    before: CacheContext,
    other: CacheContext,
    prefix: Seq<char>,
    after: CacheContext,
)
    requires
        is_merge(before, other, prefix, after),
    ensures
        before.stored ==> after.stored,
        before.status.spec_served_from_cache() ==> after.status.spec_served_from_cache(),
{
}

/// Writes what the cache did into a protocol's response, for instance as a
/// header. Implemented by the protocol integrations.
pub trait CacheStatusExt {
    /// Settings for writing the status, such as the header's name.
    type Config;

    /// Writes the status of `context` into `self`.
    fn cache_status(&mut self, context: &CacheContext, config: &Self::Config);
}

/// The context of one cache operation as a protocol keeps it. Status and
/// source are always kept; the other settings may be ignored by simple
/// contexts, whose default methods report nothing and keep nothing.
pub trait Context: Sized {
    /// What the cache did with this request.
    spec fn spec_status(&self) -> CacheStatus;

    /// Where the response came from.
    spec fn spec_source(&self) -> ResponseSource;

    /// The plain record this context becomes when the operation ends.
    spec fn spec_record(&self) -> CacheContext;

    /// What the cache did with this request.
    fn status(&self) -> (r: CacheStatus)
        ensures
            r == self.spec_status(),
    ;

    /// Records what the cache did with this request.
    fn set_status(&mut self, status: CacheStatus)
        ensures
            final(self).spec_status() == status,
            final(self).spec_source() == old(self).spec_source(),
    ;

    /// Where the response came from.
    fn source(&self) -> (r: &ResponseSource)
        ensures
            *r == self.spec_source(),
    ;

    /// Records where the response came from.
    fn set_source(&mut self, source: ResponseSource)
        ensures
            final(self).spec_source() == source,
            final(self).spec_status() == old(self).spec_status(),
    ;

    /// The read mode; direct unless the context keeps one.
    fn read_mode(&self) -> ReadMode {
        ReadMode::Direct
    }

    /// Records the read mode, when the context keeps one.
    fn set_read_mode(&mut self, mode: ReadMode)
        ensures
            final(self).spec_status() == old(self).spec_status(),
            final(self).spec_source() == old(self).spec_source(),
    {
    }

    /// The timing of an entry served from cache, when the context keeps it.
    fn timing(&self) -> Option<CacheTiming> {
        None
    }

    /// Records the timing, when the context keeps it.
    fn set_timing(&mut self, timing: Option<CacheTiming>)
        ensures
            final(self).spec_status() == old(self).spec_status(),
            final(self).spec_source() == old(self).spec_source(),
    {
    }

    /// Whether the response was stored, when the context keeps it.
    fn stored(&self) -> bool {
        false
    }

    /// Records whether the response was stored, when the context keeps it.
    fn set_stored(&mut self, stored: bool)
        ensures
            final(self).spec_status() == old(self).spec_status(),
            final(self).spec_source() == old(self).spec_source(),
    {
    }

    /// The context as a plain record.
    fn into_cache_context(self) -> (r: CacheContext)
        ensures
            r == self.spec_record(),
            r.status == self.spec_status(),
            r.source == self.spec_source(),
    ;

    /// Merges the context of an inner backend, reached through the label
    /// `prefix`, into this one: a `Hit` or `Stale` status is taken over, an
    /// inner backend source becomes `prefix.inner`, inner timing is taken
    /// over and a stored response is recorded.
    fn merge_from(&mut self, other: &CacheContext, prefix: &BackendLabel)
        ensures
            final(self).spec_status() == (if other.status == CacheStatus::Hit || other.status
                == CacheStatus::Stale {
                other.status
            } else {
                old(self).spec_status()
            }),
            match other.source {
                ResponseSource::Backend(inner) => final(self).spec_source() matches ResponseSource::Backend(label)
                    && label@ == BackendLabel::spec_compose(prefix@, inner@),
                ResponseSource::Upstream => final(self).spec_source() == old(self).spec_source(),
            },
    {
        if other.status == CacheStatus::Hit || other.status == CacheStatus::Stale {
            self.set_status(other.status);
        }
        match &other.source {
            ResponseSource::Backend(inner_label) => {
                let composed = prefix.compose(inner_label);
                self.set_source(ResponseSource::Backend(composed));
            },
            ResponseSource::Upstream => {},
        }
        match other.timing {
            Some(t) => {
                self.set_timing(Some(t));
            },
            None => {},
        }
        if other.stored {
            self.set_stored(true);
        }
    }
}

impl Context for CacheContext {
    open spec fn spec_status(&self) -> CacheStatus {
        self.status
    }

    open spec fn spec_source(&self) -> ResponseSource {
        self.source
    }

    open spec fn spec_record(&self) -> CacheContext {
        *self
    }

    fn status(&self) -> (r: CacheStatus) {
        self.status
    }

    fn set_status(&mut self, status: CacheStatus)
        ensures
            *final(self) == (CacheContext { status, ..*old(self) }),
    {
        self.status = status;
    }

    fn source(&self) -> (r: &ResponseSource) {
        &self.source
    }

    fn set_source(&mut self, source: ResponseSource)
        ensures
            *final(self) == (CacheContext { source, ..*old(self) }),
    {
        self.source = source;
    }

    fn read_mode(&self) -> (r: ReadMode)
        ensures
            r == self.read_mode,
    {
        self.read_mode
    }

    fn set_read_mode(&mut self, mode: ReadMode)
        ensures
            *final(self) == (CacheContext { read_mode: mode, ..*old(self) }),
    {
        self.read_mode = mode;
    }

    fn timing(&self) -> (r: Option<CacheTiming>)
        ensures
            r == self.timing,
    {
        self.timing
    }

    fn set_timing(&mut self, timing: Option<CacheTiming>)
        ensures
            *final(self) == (CacheContext { timing, ..*old(self) }),
    {
        self.timing = timing;
    }

    fn stored(&self) -> (r: bool)
        ensures
            r == self.stored,
    {
        self.stored
    }

    fn set_stored(&mut self, stored: bool)
        ensures
            *final(self) == (CacheContext { stored, ..*old(self) }),
    {
        self.stored = stored;
    }

    fn into_cache_context(self) -> (r: CacheContext)
        ensures
            r == self,
    {
        self
    }
}

/// The plain record of a finished operation's context.
pub fn finalize_context<C: Context>(ctx: C) -> (r: CacheContext)
    ensures
        r == ctx.spec_record(),
        r.status == ctx.spec_status(),
        r.source == ctx.spec_source(),
{
    ctx.into_cache_context()
}

} // verus!
