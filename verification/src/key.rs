//! Cache keys: a namespace prefix, a version and a list of key parts.
//!
//! The textual form of a key is `{prefix}:v{version}:key1=value1&key2=value2`,
//! where the prefix is left out when empty and the version when zero.

use crate::decimal::{decimal, push_decimal};
use vstd::prelude::*;
use vstd::utf8::encode_utf8;

verus! {

/// The number of bytes of the UTF-8 encoding of a text.
pub open spec fn byte_len(s: Seq<char>) -> nat {
    encode_utf8(s).len()
}

/// Bytes of a string of `len` bytes that are kept outside the key's own
/// storage: strings of up to 23 bytes are kept inline.
pub open spec fn heap_size(len: nat) -> nat {
    if len > 23 {
        (len - 23) as nat
    } else {
        0
    }
}

/// The abstract value of a key part: its key and optional value.
pub type KeyPartView = (Seq<char>, Option<Seq<char>>);

/// A single component of a cache key: a key with an optional value.
#[derive(Debug, Hash)]
pub struct KeyPart {
    key: String,
    value: Option<String>,
}

impl View for KeyPart {
    type V = KeyPartView;

    closed spec fn view(&self) -> KeyPartView {
        (
            self.key@,
            match self.value {
                Some(v) => Some(v@),
                None => None,
            },
        )
    }
}

/// The textual form of a key part: `key=value`, or `key` without a value.
pub open spec fn part_text(p: KeyPartView) -> Seq<char> {
    match p.1 {
        Some(v) => p.0 + "="@ + v,
        None => p.0,
    }
}

/// Heap bytes that the strings of a key part occupy.
pub open spec fn part_heap_size(p: KeyPartView) -> nat {
    heap_size(byte_len(p.0)) + match p.1 {
        Some(v) => heap_size(byte_len(v)),
        None => 0,
    }
}

/// The text of the parts of a key, joined with `&`.
pub open spec fn parts_text(parts: Seq<KeyPartView>) -> Seq<char>
    decreases parts.len(),
{
    if parts.len() == 0 {
        Seq::empty()
    } else if parts.len() == 1 {
        part_text(parts[0])
    } else {
        parts_text(parts.drop_last()) + "&"@ + part_text(parts.last())
    }
}

/// Heap bytes that the strings of a list of key parts occupy.
pub open spec fn parts_heap_size(parts: Seq<KeyPartView>) -> nat
    decreases parts.len(),
{
    if parts.len() == 0 {
        0
    } else {
        parts_heap_size(parts.drop_last()) + part_heap_size(parts.last())
    }
}

/// The views of a vector of key parts.
pub open spec fn parts_view(parts: Seq<KeyPart>) -> Seq<KeyPartView> {
    parts.map_values(|p: KeyPart| p@)
}

impl KeyPart {
    /// Creates a new key part.
    pub fn new(key: &str, value: Option<&str>) -> (r: KeyPart)
        ensures
            r@.0 == key@,
            r@.1 == (match value {
                Some(v) => Some(v@),
                None => None::<Seq<char>>,
            }),
    {
        let value = match value {
            Some(v) => Some(v.to_owned()),
            None => None,
        };
        KeyPart { key: key.to_owned(), value }
    }

    /// Creates a new key part from owned strings.
    pub fn from_strings(key: String, value: Option<String>) -> (r: KeyPart)
        ensures
            r@.0 == key@,
            r@.1 == (match value {
                Some(v) => Some(v@),
                None => None::<Seq<char>>,
            }),
    {
        KeyPart { key, value }
    }

    /// Returns the key name.
    pub fn key(&self) -> (r: &str)
        ensures
            r@ == self@.0,
    {
        self.key.as_str()
    }

    /// Returns the optional value.
    pub fn value(&self) -> (r: Option<&str>)
        ensures
            r is Some <==> self@.1 is Some,
            r matches Some(v) ==> self@.1 == Some(v@),
    {
        match &self.value {
            Some(v) => Some(v.as_str()),
            None => None,
        }
    }

    /// Returns a new `KeyPart` with the key replaced, keeping the value.
    pub fn with_key(self, key: &str) -> (r: KeyPart)
        ensures
            r@ == (key@, self@.1),
    {
        KeyPart { key: key.to_owned(), value: self.value }
    }

    /// Returns a new `KeyPart` with the key prefixed by `prefix.`: the part
    /// `id=42` prefixed by `user` is `user.id=42`.
    pub fn prefixed(self, prefix: &str) -> (r: KeyPart)
        ensures
            r@ == (prefix@ + "."@ + self@.0, self@.1),
    {
        let mut key = prefix.to_owned();
        key.append(".");
        key.append(self.key.as_str());
        KeyPart { key, value: self.value }
    }

    /// The textual form `key=value`, or `key` without a value.
    pub fn to_text(&self) -> (r: String)
        ensures
            r@ == part_text(self@),
    {
        let mut out = self.key.clone();
        match &self.value {
            Some(v) => {
                out.append("=");
                out.append(v.as_str());
            },
            None => {},
        }
        out
    }

    /// Whether two key parts have the same key and value.
    pub fn same_as(&self, other: &KeyPart) -> (r: bool)
        ensures
            r == (self@ == other@),
    {
        if self.key != other.key {
            return false;
        }
        match (&self.value, &other.value) {
            (Some(a), Some(b)) => *a == *b,
            (None, None) => true,
            _ => false,
        }
    }

    /// Heap bytes that the strings of this part occupy.
    fn heap_size(&self) -> (r: usize)
        requires
            part_heap_size(self@) <= usize::MAX,
        ensures
            r == part_heap_size(self@),
    {
        let k = heap_bytes(self.key.as_str());
        let v = match &self.value {
            Some(v) => heap_bytes(v.as_str()),
            None => 0,
        };
        k + v
    }
}

impl Clone for KeyPart {
    fn clone(&self) -> (r: Self)
        ensures
            r == *self,
    {
        let value = match &self.value {
            Some(v) => Some(v.clone()),
            None => None,
        };
        KeyPart { key: self.key.clone(), value }
    }
}

impl PartialEq for KeyPart {
    fn eq(&self, other: &Self) -> (r: bool) {
        self.same_as(other)
    }
}

impl vstd::std_specs::cmp::PartialEqSpecImpl for KeyPart {
    open spec fn obeys_eq_spec() -> bool {
        true
    }

    open spec fn eq_spec(&self, other: &Self) -> bool {
        self@ == other@
    }
}

impl Eq for KeyPart {

}

/// Heap bytes of one string.
fn heap_bytes(s: &str) -> (r: usize)
    ensures
        r == heap_size(byte_len(s@)),
{
    let n = s.as_bytes().len();
    if n > 23 {
        n - 23
    } else {
        0
    }
}

/// The abstract value of a cache key.
pub struct CacheKeyView {
    pub prefix: Seq<char>,
    pub version: u32,
    pub parts: Seq<KeyPartView>,
}

/// Heap bytes that the strings of a key with this prefix and these parts
/// occupy: only strings longer than 23 bytes count.
pub open spec fn content_size(prefix: Seq<char>, parts: Seq<KeyPartView>) -> nat {
    heap_size(byte_len(prefix)) + parts_heap_size(parts)
}

/// A short ASCII text: at most 23 characters, each below 128.
pub open spec fn short_ascii(s: Seq<char>) -> bool {
    vstd::utf8::is_ascii_chars(s) && s.len() <= 23
}

/// A short ASCII text is kept inline: it adds nothing to a key's size.
pub proof fn lemma_short_ascii_inline(s: Seq<char>)
    requires
        short_ascii(s),
    ensures
        heap_size(byte_len(s)) == 0,
{
    vstd::utf8::is_ascii_chars_encode_utf8(s);
}

/// A key whose prefix, part keys and part values are all short ASCII texts
/// has no heap content, so it meets the size bound of [`CacheKey::new`].
pub proof fn lemma_short_ascii_key(prefix: Seq<char>, parts: Seq<KeyPartView>)
    requires
        short_ascii(prefix),
        forall|i: int|
            0 <= i < parts.len() ==> short_ascii(#[trigger] parts[i].0) && (parts[i].1 matches Some(
                v,
            ) ==> short_ascii(v)),
    ensures
        content_size(prefix, parts) == 0,
{
    lemma_short_ascii_inline(prefix);
    lemma_short_ascii_parts(parts);
}

/// The parts of [`lemma_short_ascii_key`] have no heap content.
proof fn lemma_short_ascii_parts(parts: Seq<KeyPartView>)
    requires
        forall|i: int|
            0 <= i < parts.len() ==> short_ascii(#[trigger] parts[i].0) && (parts[i].1 matches Some(
                v,
            ) ==> short_ascii(v)),
    ensures
        parts_heap_size(parts) == 0,
    decreases parts.len(),
{
    if parts.len() > 0 {
        let rest = parts.drop_last();
        assert forall|i: int| 0 <= i < rest.len() implies short_ascii(#[trigger] rest[i].0) && (
        rest[i].1 matches Some(v) ==> short_ascii(v)) by {
            assert(rest[i] == parts[i]);
        }
        lemma_short_ascii_parts(rest);
        let last = parts.last();
        assert(short_ascii(parts[parts.len() - 1].0));
        lemma_short_ascii_inline(last.0);
        if let Some(v) = last.1 {
            lemma_short_ascii_inline(v);
        }
    }
}

/// The textual form of a cache key:
/// `{prefix}:v{version}:key1=value1&key2=value2`, where the prefix (with its
/// colon) is left out when empty and the version (with its colon) when zero.
pub open spec fn key_text(k: CacheKeyView) -> Seq<char> {
    (if k.prefix.len() > 0 {
        k.prefix + ":"@
    } else {
        Seq::empty()
    }) + (if k.version > 0 {
        "v"@ + decimal(k.version as nat) + ":"@
    } else {
        Seq::empty()
    }) + parts_text(k.parts)
}

/// A cache key identifying a cached entry: a prefix for namespacing, a
/// version number for invalidation, and the key parts extracted from a
/// request.
#[derive(Debug, Hash)]
pub struct CacheKey {
    parts: Vec<KeyPart>,
    version: u32,
    prefix: String,
    content_size: usize,
}

impl View for CacheKey {
    type V = CacheKeyView;

    closed spec fn view(&self) -> CacheKeyView {
        CacheKeyView {
            prefix: self.prefix@,
            version: self.version,
            parts: parts_view(self.parts@),
        }
    }
}

/// The heap size of a prefix of the parts never exceeds that of all parts.
proof fn lemma_parts_heap_size_prefix(parts: Seq<KeyPartView>, i: int)
    requires
        0 <= i <= parts.len(),
    ensures
        parts_heap_size(parts.take(i)) <= parts_heap_size(parts),
    decreases parts.len() - i,
{
    if i < parts.len() {
        lemma_parts_heap_size_prefix(parts, i + 1);
        assert(parts.take(i + 1).drop_last() =~= parts.take(i));
    } else {
        assert(parts.take(i) =~= parts);
    }
}

/// The heap bytes of a prefix and a list of parts.
fn calculate_content_size(prefix: &str, parts: &Vec<KeyPart>) -> (r: usize)
    requires
        content_size(prefix@, parts_view(parts@)) <= usize::MAX,
    ensures
        r == content_size(prefix@, parts_view(parts@)),
{
    let ghost views = parts_view(parts@);
    let mut total: usize = heap_bytes(prefix);
    let mut i: usize = 0;
    while i < parts.len()
        invariant
            i <= parts.len(),
            views == parts_view(parts@),
            content_size(prefix@, views) <= usize::MAX,
            total == heap_size(byte_len(prefix@)) + parts_heap_size(views.take(i as int)),
        decreases parts.len() - i,
    {
        proof {
            assert(views.take(i + 1).drop_last() =~= views.take(i as int));
            lemma_parts_heap_size_prefix(views, i + 1);
        }
        let h = parts[i].heap_size();
        total = total + h;
        i = i + 1;
    }
    assert(views.take(i as int) =~= views);
    total
}

/// The text of the first `i + 1` parts is the text of the first `i` parts,
/// an ampersand unless `i` is zero, and the text of part `i`.
proof fn lemma_parts_text_step(parts: Seq<KeyPartView>, i: int)
    requires
        0 <= i < parts.len(),
    ensures
        parts_text(parts.take(i + 1)) == if i == 0 {
            part_text(parts[0])
        } else {
            parts_text(parts.take(i)) + "&"@ + part_text(parts[i])
        },
{
    assert(parts.take(i + 1).drop_last() =~= parts.take(i));
}

impl CacheKey {
    #[verifier::type_invariant]
    spec fn wf(self) -> bool {
        self.content_size == content_size(self.prefix@, parts_view(self.parts@))
    }

    /// Creates a new cache key with the given prefix, version and parts.
    pub fn new(prefix: &str, version: u32, parts: Vec<KeyPart>) -> (k: CacheKey)
        requires
            content_size(prefix@, parts_view(parts@)) <= usize::MAX,
        ensures
            k@.prefix == prefix@,
            k@.version == version,
            k@.parts == parts_view(parts@),
    {
        let content_size = calculate_content_size(prefix, &parts);
        CacheKey { parts, version, prefix: prefix.to_owned(), content_size }
    }

    /// Creates a simple cache key with a single key-value part, an empty
    /// prefix and version 0.
    pub fn from_str(key: &str, value: &str) -> (k: CacheKey)
        requires
            content_size(Seq::empty(), seq![(key@, Some(value@))]) <= usize::MAX,
        ensures
            k@.prefix == Seq::<char>::empty(),
            k@.version == 0,
            k@.parts == seq![(key@, Some(value@))],
    {
        let mut parts = Vec::new();
        parts.push(KeyPart::new(key, Some(value)));
        proof {
            reveal_strlit("");
            assert(parts_view(parts@) =~= seq![(key@, Some(value@))]);
        }
        CacheKey::new("", 0, parts)
    }

    /// Creates a cache key from a slice of key-value pairs, with an empty
    /// prefix and version 0.
    pub fn from_slice(pairs: &[(&str, Option<&str>)]) -> (k: CacheKey)
        requires
            content_size(Seq::empty(), pairs@.map_values(|p: (&str, Option<&str>)| pair_view(p)))
                <= usize::MAX,
        ensures
            k@.prefix == Seq::<char>::empty(),
            k@.version == 0,
            k@.parts == pairs@.map_values(|p: (&str, Option<&str>)| pair_view(p)),
    {
        let ghost target = pairs@.map_values(|p: (&str, Option<&str>)| pair_view(p));
        let mut parts: Vec<KeyPart> = Vec::new();
        let mut i: usize = 0;
        while i < pairs.len()
            invariant
                i <= pairs@.len(),
                target == pairs@.map_values(|p: (&str, Option<&str>)| pair_view(p)),
                parts_view(parts@) =~= target.take(i as int),
            decreases pairs.len() - i,
        {
            let (key, value) = pairs[i];
            let part = KeyPart::new(key, value);
            assert(part@ == pair_view(pairs@[i as int]));
            assert(target[i as int] == pair_view(pairs@[i as int]));
            let ghost before = parts@;
            parts.push(part);
            assert(parts@ == before.push(part));
            assert(parts_view(parts@) =~= parts_view(before).push(part@));
            assert(parts_view(parts@) =~= target.take(i + 1));
            i = i + 1;
        }
        assert(target.take(i as int) =~= target);
        proof {
            reveal_strlit("");
        }
        CacheKey::new("", 0, parts)
    }

    /// Returns the key parts.
    pub fn parts(&self) -> (r: &[KeyPart])
        ensures
            parts_view(r@) == self@.parts,
    {
        self.parts.as_slice()
    }

    /// Returns the cache key version number.
    pub fn version(&self) -> (r: u32)
        ensures
            r == self@.version,
    {
        self.version
    }

    /// Returns the cache key prefix.
    pub fn prefix(&self) -> (r: &str)
        ensures
            r@ == self@.prefix,
    {
        self.prefix.as_str()
    }

    /// The heap bytes of the key's strings that are longer than 23 bytes.
    pub fn content_size(&self) -> (r: usize)
        ensures
            r == content_size(self@.prefix, self@.parts),
    {
        proof {
            use_type_invariant(self);
        }
        self.content_size
    }

    /// The estimated memory a key occupies: two reference counts and the key
    /// record, one key-part record per part, and the heap bytes of long
    /// strings.
    pub open spec fn spec_memory_size(self) -> nat {
        2 * vstd::layout::size_of::<usize>() + vstd::layout::size_of::<CacheKey>()
            + self@.parts.len() * vstd::layout::size_of::<KeyPart>() + content_size(
            self@.prefix,
            self@.parts,
        )
    }

    /// Returns the estimated memory usage of this cache key in bytes.
    pub fn memory_size(&self) -> (r: usize)
        requires
            self.spec_memory_size() <= usize::MAX,
        ensures
            r == self.spec_memory_size(),
    {
        proof {
            use_type_invariant(self);
        }
        let word = std::mem::size_of::<usize>();
        let record = std::mem::size_of::<CacheKey>();
        let part = std::mem::size_of::<KeyPart>();
        let n = self.parts.len();
        assert(n * part <= self.spec_memory_size()) by (nonlinear_arith)
            requires
                n * part + 2 * word + record + self.content_size == self.spec_memory_size(),
                word >= 0,
                record >= 0,
        ;
        2 * word + record + n * part + self.content_size
    }

    /// The textual form of the key:
    /// `{prefix}:v{version}:key1=value1&key2=value2`.
    pub fn to_string(&self) -> (r: String)
        ensures
            r@ == key_text(self@),
    {
        let mut out = String::new();
        if self.prefix.as_str().unicode_len() > 0 {
            out.append(self.prefix.as_str());
            out.append(":");
        }
        if self.version > 0 {
            out.append("v");
            push_decimal(&mut out, self.version as u128);
            out.append(":");
        }
        let ghost head = out@;
        assert(head == (if self@.prefix.len() > 0 {
            self@.prefix + ":"@
        } else {
            Seq::empty()
        }) + (if self@.version > 0 {
            "v"@ + decimal(self@.version as nat) + ":"@
        } else {
            Seq::empty()
        }));
        let ghost views = self@.parts;
        let mut i: usize = 0;
        while i < self.parts.len()
            invariant
                i <= self.parts@.len(),
                views == parts_view(self.parts@),
                out@ == head + parts_text(views.take(i as int)),
            decreases self.parts.len() - i,
        {
            proof {
                lemma_parts_text_step(views, i as int);
            }
            if i > 0 {
                out.append("&");
            }
            let text = self.parts[i].to_text();
            out.append(text.as_str());
            assert(out@ =~= head + parts_text(views.take(i + 1)));
            i = i + 1;
        }
        assert(views.take(i as int) =~= views);
        out
    }

    /// Whether two keys have the same prefix, version and parts.
    pub fn same_as(&self, other: &CacheKey) -> (r: bool)
        ensures
            r == (self@ == other@),
    {
        if self.version != other.version || self.prefix != other.prefix || self.parts.len()
            != other.parts.len() {
            proof {
                if self@ == other@ {
                    assert(self.parts@.len() == self@.parts.len());
                }
            }
            return false;
        }
        let mut i: usize = 0;
        while i < self.parts.len()
            invariant
                i <= self.parts@.len(),
                self.parts@.len() == other.parts@.len(),
                forall|j: int| 0 <= j < i ==> #[trigger] self@.parts[j] == other@.parts[j],
            decreases self.parts.len() - i,
        {
            if !self.parts[i].same_as(&other.parts[i]) {
                assert(self@.parts[i as int] != other@.parts[i as int]);
                return false;
            }
            i = i + 1;
        }
        assert(self@.parts =~= other@.parts);
        true
    }
}

/// The abstract value of a pair handed to [`CacheKey::from_slice`].
pub open spec fn pair_view(p: (&str, Option<&str>)) -> KeyPartView {
    (
        p.0@,
        match p.1 {
            Some(v) => Some(v@),
            None => None,
        },
    )
}

impl Clone for CacheKey {
    fn clone(&self) -> (r: Self)
        ensures
            r@ == self@,
    {
        proof {
            use_type_invariant(self);
        }
        let parts = self.parts.clone();
        assert(parts_view(parts@) =~= parts_view(self.parts@));
        CacheKey {
            parts,
            version: self.version,
            prefix: self.prefix.clone(),
            content_size: self.content_size,
        }
    }
}

impl PartialEq for CacheKey {
    fn eq(&self, other: &Self) -> (r: bool) {
        self.same_as(other)
    }
}

impl vstd::std_specs::cmp::PartialEqSpecImpl for CacheKey {
    open spec fn obeys_eq_spec() -> bool {
        true
    }

    open spec fn eq_spec(&self, other: &Self) -> bool {
        self@ == other@
    }
}

impl Eq for CacheKey {

}

/// Builder for accumulating cache key parts during extraction: the subject
/// being processed and the parts gathered so far.
#[derive(Debug)]
pub struct KeyParts<T> {
    subject: T,
    parts: Vec<KeyPart>,
}

impl<T> KeyParts<T> {
    /// The subject carried along.
    pub closed spec fn spec_subject(self) -> T {
        self.subject
    }

    /// The parts gathered so far.
    pub closed spec fn spec_parts(self) -> Seq<KeyPartView> {
        parts_view(self.parts@)
    }

    /// Creates a new `KeyParts` wrapping the given subject, with no parts.
    pub fn new(subject: T) -> (r: Self)
        ensures
            r.spec_subject() == subject,
            r.spec_parts() == Seq::<KeyPartView>::empty(),
    {
        let r = KeyParts { subject, parts: Vec::new() };
        assert(r.spec_parts() =~= Seq::<KeyPartView>::empty());
        r
    }

    /// Adds a single key part.
    pub fn push(&mut self, part: KeyPart)
        ensures
            final(self).spec_subject() == old(self).spec_subject(),
            final(self).spec_parts() == old(self).spec_parts().push(part@),
    {
        self.parts.push(part);
        assert(self.spec_parts() =~= old(self).spec_parts().push(part@));
    }

    /// Moves all parts of `parts` to the end, leaving `parts` empty.
    pub fn append(&mut self, parts: &mut Vec<KeyPart>)
        ensures
            final(self).spec_subject() == old(self).spec_subject(),
            final(self).spec_parts() == old(self).spec_parts() + parts_view(old(parts)@),
            final(parts)@.len() == 0,
    {
        self.parts.append(parts);
        assert(self.spec_parts() =~= old(self).spec_parts() + parts_view(old(parts)@));
    }

    /// Consumes the builder and returns the subject and the parts.
    pub fn into_parts(self) -> (r: (T, Vec<KeyPart>))
        ensures
            r.0 == self.spec_subject(),
            parts_view(r.1@) == self.spec_parts(),
    {
        (self.subject, self.parts)
    }

    /// Consumes the builder and returns the subject with its cache key, whose
    /// prefix is empty and version 0.
    pub fn into_cache_key(self) -> (r: (T, CacheKey))
        requires
            content_size(Seq::empty(), self.spec_parts()) <= usize::MAX,
        ensures
            r.0 == self.spec_subject(),
            r.1@.prefix == Seq::<char>::empty(),
            r.1@.version == 0,
            r.1@.parts == self.spec_parts(),
    {
        proof {
            reveal_strlit("");
        }
        let key = CacheKey::new("", 0, self.parts);
        (self.subject, key)
    }
}

/// A run of pushes onto a fresh builder: in a run of builder states that
/// starts with no parts (as [`KeyParts::new`] leaves it) and where each later
/// state is the one before with the next part of `pushed` pushed (as
/// [`KeyParts::push`] leaves it), the last state carries the subject it
/// started with and exactly the parts of `pushed`, in push order. Its
/// [`KeyParts::into_cache_key`] is then that subject with a key of empty
/// prefix, version 0 and those parts.
pub proof fn lemma_push_run<T>(states: Seq<KeyParts<T>>, pushed: Seq<KeyPartView>)
    requires
        states.len() == pushed.len() + 1,
        states[0].spec_parts() == Seq::<KeyPartView>::empty(),
        forall|i: int|
            1 <= i < states.len() ==> (#[trigger] states[i]).spec_parts() == states[i
                - 1].spec_parts().push(pushed[i - 1]) && states[i].spec_subject() == states[i
                - 1].spec_subject(),
    ensures
        states.last().spec_parts() == pushed,
        states.last().spec_subject() == states[0].spec_subject(),
{
    lemma_push_run_prefix(states, pushed, pushed.len() as int);
    assert(pushed.take(pushed.len() as int) =~= pushed);
}

/// The first `k` pushes of [`lemma_push_run`] leave the first `k` parts.
proof fn lemma_push_run_prefix<T>(states: Seq<KeyParts<T>>, pushed: Seq<KeyPartView>, k: int)
    requires
        states.len() == pushed.len() + 1,
        states[0].spec_parts() == Seq::<KeyPartView>::empty(),
        forall|i: int|
            1 <= i < states.len() ==> (#[trigger] states[i]).spec_parts() == states[i
                - 1].spec_parts().push(pushed[i - 1]) && states[i].spec_subject() == states[i
                - 1].spec_subject(),
        0 <= k <= pushed.len(),
    ensures
        states[k].spec_parts() == pushed.take(k),
        states[k].spec_subject() == states[0].spec_subject(),
    decreases k,
{
    if k == 0 {
        assert(pushed.take(0) =~= Seq::<KeyPartView>::empty());
    } else {
        lemma_push_run_prefix(states, pushed, k - 1);
        assert(states[k].spec_parts() == states[k - 1].spec_parts().push(pushed[k - 1]));
        assert(pushed.take(k - 1).push(pushed[k - 1]) =~= pushed.take(k));
    }
}

} // verus!
