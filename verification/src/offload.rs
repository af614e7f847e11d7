//! Keys that identify tasks run in the background, and the offload setting
//! that runs none.

use crate::key::CacheKey;
use vstd::prelude::*;

verus! {

/// Key identifying an offloaded task.
#[derive(Debug, Clone)]
pub enum OffloadKey {
    /// Key derived from a cache key.
    Keyed {
        /// The cache key.
        key: CacheKey,
        /// Kind of the task (e.g., "revalidate", "cache_write").
        kind: String,
    },
    /// Key with an explicit id provided by the caller.
    Explicit {
        /// Kind of the task (e.g., "cleanup", "metrics").
        kind: String,
        /// Unique identifier within the kind.
        id: u64,
    },
    /// Key whose id the task manager assigns.
    Auto {
        /// Kind of the task (e.g., "race_loser", "background").
        kind: String,
    },
}

impl OffloadKey {
    /// The kind of a key, whatever its variant.
    pub open spec fn spec_kind(self) -> Seq<char> {
        match self {
            OffloadKey::Keyed { kind, .. } => kind@,
            OffloadKey::Explicit { kind, .. } => kind@,
            OffloadKey::Auto { kind } => kind@,
        }
    }

    /// Create a keyed offload key derived from a cache key.
    pub fn keyed(key: CacheKey, kind: &str) -> (r: OffloadKey)
        ensures
            r matches OffloadKey::Keyed { key: k, kind: kd } && k@ == key@ && kd@ == kind@,
    {
        OffloadKey::Keyed { key, kind: kind.to_owned() }
    }

    /// Create a key with an explicit id provided by the caller.
    pub fn explicit(kind: &str, id: u64) -> (r: OffloadKey)
        ensures
            r matches OffloadKey::Explicit { kind: kd, id: i } && kd@ == kind@ && i == id,
    {
        OffloadKey::Explicit { kind: kind.to_owned(), id }
    }

    /// Create a key whose id the manager assigns.
    pub fn auto(kind: &str) -> (r: OffloadKey)
        ensures
            r matches OffloadKey::Auto { kind: kd } && kd@ == kind@,
    {
        OffloadKey::Auto { kind: kind.to_owned() }
    }

    /// Returns the kind of this key; used for metrics labels and tracing.
    pub fn kind(&self) -> (r: &str)
        ensures
            r@ == self.spec_kind(),
    {
        match self {
            OffloadKey::Keyed { kind, .. } => kind.as_str(),
            OffloadKey::Explicit { kind, .. } => kind.as_str(),
            OffloadKey::Auto { kind } => kind.as_str(),
        }
    }
}

/// The offload setting that runs no background task: every task handed to
/// it is dropped without being run.
#[derive(Debug, Clone, Copy, PartialEq, Eq, Structural)]
pub struct DisabledOffload;

impl Default for DisabledOffload {
    fn default() -> (r: Self) {
        DisabledOffload
    }
}

/// Runs futures in the background, such as the revalidation of a stale
/// entry. Implemented by the users of the library for their runtime.
pub trait Offload<'a>: Send + Sync + Clone {
    /// Runs `future` in the background; `kind` names the kind of task.
    fn spawn<F: core::future::Future<Output = ()> + Send + 'a>(&self, kind: String, future: F);

    /// Runs `future` in the background under `key`: by default, spawns it
    /// under the key's kind.
    fn register<F: core::future::Future<Output = ()> + Send + 'a>(&self, key: OffloadKey, future: F) {
        let kind = key.kind().to_owned();
        self.spawn(kind, future)
    }
}

impl<'a> Offload<'a> for DisabledOffload {
    /// Drops the future without running it.
    fn spawn<F: core::future::Future<Output = ()> + Send + 'a>(&self, kind: String, future: F) {
    }
}

} // verus!
