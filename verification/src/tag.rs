//! Cache tags for group invalidation, and the tags stored with an entry.

use crate::key::{content_size, part_text, CacheKey, KeyPart, KeyPartView};
use vstd::prelude::*;

verus! {

/// A cache tag: a string that names a group of cache entries.
#[derive(Debug, Hash)]
pub struct CacheTag {
    tag: String,
}

impl View for CacheTag {
    type V = Seq<char>;

    closed spec fn view(&self) -> Seq<char> {
        self.tag@
    }
}

/// The views of a list of tags.
pub open spec fn tags_view(tags: Seq<CacheTag>) -> Seq<Seq<char>> {
    tags.map_values(|t: CacheTag| t@)
}

impl CacheTag {
    /// Creates a new cache tag.
    pub fn new(tag: &str) -> (r: CacheTag)
        ensures
            r@ == tag@,
    {
        CacheTag { tag: tag.to_owned() }
    }

    /// Creates a new cache tag that takes ownership of the given text.
    pub fn from_string(tag: String) -> (r: CacheTag)
        ensures
            r@ == tag@,
    {
        CacheTag { tag }
    }

    /// Returns the tag as a string slice.
    pub fn as_str(&self) -> (r: &str)
        ensures
            r@ == self@,
    {
        self.tag.as_str()
    }

    /// The key under which the invalidation time of this tag is stored: the
    /// given prefix, version 0, and the single part `tag=<tag>`.
    pub fn to_cache_key(&self, prefix: &str) -> (k: CacheKey)
        requires
            content_size(prefix@, seq![("tag"@, Some(self@))]) <= usize::MAX,
        ensures
            k@.prefix == prefix@,
            k@.version == 0,
            k@.parts == seq![("tag"@, Some(self@))],
    {
        let mut parts = Vec::new();
        parts.push(KeyPart::new("tag", Some(self.tag.as_str())));
        assert(crate::key::parts_view(parts@) =~= seq![("tag"@, Some(self@))]);
        CacheKey::new(prefix, 0, parts)
    }

    /// The tag of a key part: `key=value`, or `key` when it has no value.
    pub fn from_key_part(part: &KeyPart) -> (r: CacheTag)
        ensures
            r@ == part_text(part@),
    {
        CacheTag { tag: part.to_text() }
    }

    /// Whether two tags have the same text.
    pub fn same_as(&self, other: &CacheTag) -> (r: bool)
        ensures
            r == (self@ == other@),
    {
        self.tag == other.tag
    }
}

impl Clone for CacheTag {
    fn clone(&self) -> (r: Self)
        ensures
            r == *self,
    {
        CacheTag { tag: self.tag.clone() }
    }
}

impl PartialEq for CacheTag {
    fn eq(&self, other: &Self) -> (r: bool) {
        self.same_as(other)
    }
}

impl vstd::std_specs::cmp::PartialEqSpecImpl for CacheTag {
    open spec fn obeys_eq_spec() -> bool {
        true
    }

    open spec fn eq_spec(&self, other: &Self) -> bool {
        self@ == other@
    }
}

impl Eq for CacheTag {

}

/// Request and response tags stored with a cache entry. `None` on a side
/// means no tag extractor was configured for it; `Some` of an empty list
/// means the extractor ran and produced no tags.
#[derive(Debug, Clone)]
pub struct CacheTags {
    /// Tags derived from the request at write time.
    pub request: Option<Vec<CacheTag>>,
    /// Tags derived from the response at write time.
    pub response: Option<Vec<CacheTag>>,
}

/// Whether one side of the tags holds no tag: unconfigured or empty.
pub open spec fn side_empty(side: Option<Vec<CacheTag>>) -> bool {
    match side {
        Some(v) => v@.len() == 0,
        None => true,
    }
}

impl CacheTags {
    /// Creates empty tags (both sides `None`).
    pub fn empty() -> (r: CacheTags)
        ensures
            r.request is None,
            r.response is None,
    {
        CacheTags { request: None, response: None }
    }

    /// Creates `CacheTags` with both request and response tag lists.
    pub fn new(request: Vec<CacheTag>, response: Vec<CacheTag>) -> (r: CacheTags)
        ensures
            r.request == Some(request),
            r.response == Some(response),
    {
        CacheTags { request: Some(request), response: Some(response) }
    }

    /// Creates `CacheTags` with only request tags configured.
    pub fn request_only(request: Vec<CacheTag>) -> (r: CacheTags)
        ensures
            r.request == Some(request),
            r.response is None,
    {
        CacheTags { request: Some(request), response: None }
    }

    /// Creates `CacheTags` with only response tags configured.
    pub fn response_only(response: Vec<CacheTag>) -> (r: CacheTags)
        ensures
            r.request is None,
            r.response == Some(response),
    {
        CacheTags { request: None, response: Some(response) }
    }

    /// Returns true if neither side holds a tag (each is `None` or empty).
    pub fn is_empty(&self) -> (r: bool)
        ensures
            r == (side_empty(self.request) && side_empty(self.response)),
    {
        let request_empty = match &self.request {
            Some(v) => v.len() == 0,
            None => true,
        };
        let response_empty = match &self.response {
            Some(v) => v.len() == 0,
            None => true,
        };
        request_empty && response_empty
    }
}

impl Default for CacheTags {
    fn default() -> (r: Self)
        ensures
            r.request is None,
            r.response is None,
    {
        CacheTags::empty()
    }
}

/// The tags of a list of key parts: one tag per part, in order, each the
/// text of its part.
pub open spec fn tags_of_parts(parts: Seq<KeyPartView>) -> Seq<Seq<char>> {
    parts.map_values(|p: KeyPartView| part_text(p))
}

/// One tag per key part, in order: `key=value`, or `key` without a value.
pub fn tags_from_parts(parts: &[KeyPart]) -> (r: Vec<CacheTag>)
    ensures
        tags_view(r@) == tags_of_parts(crate::key::parts_view(parts@)),
{
    let ghost target = tags_of_parts(crate::key::parts_view(parts@));
    let mut tags: Vec<CacheTag> = Vec::new();
    let mut i: usize = 0;
    while i < parts.len()
        invariant
            i <= parts@.len(),
            target == tags_of_parts(crate::key::parts_view(parts@)),
            tags_view(tags@) =~= target.take(i as int),
        decreases parts.len() - i,
    {
        let tag = CacheTag::from_key_part(&parts[i]);
        let ghost before = tags@;
        tags.push(tag);
        assert(tags_view(tags@) =~= tags_view(before).push(tag@));
        assert(tags_view(tags@) =~= target.take(i + 1));
        i = i + 1;
    }
    assert(target.take(i as int) =~= target);
    tags
}

} // verus!
