//! How the fields of a derived cacheable response are stored and restored:
//! a cached field is cloned into the cache, a skipped field comes back as
//! its type's default value.

use vstd::prelude::*;

verus! {

/// A field that is left out of the cache and restored as a default value
/// on a cache hit.
pub trait SkippedFieldDefault: Sized {
    /// A default value for a skipped field.
    fn skipped_default() -> Self;
}

impl<T: Default> SkippedFieldDefault for T {
    /// The type's `Default::default()`.
    fn skipped_default() -> (r: T)
        ensures
            call_ensures(T::default, (), r),
    {
        T::default()
    }
}

/// A field that is stored in the cache by cloning it.
pub trait CachedFieldClone: Sized {
    /// A clone of the field for cache storage.
    fn cached_clone(&self) -> Self;
}

impl<T: Clone> CachedFieldClone for T {
    /// The type's `Clone::clone()` of the field.
    fn cached_clone(&self) -> (r: T)
        ensures
            call_ensures(T::clone, (self,), r),
    {
        self.clone()
    }
}

} // verus!
