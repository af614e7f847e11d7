//! Extractors derive cache key parts from a subject; tag extractors derive
//! cache tags from it.

use crate::key::{parts_view, KeyPart, KeyPartView, KeyParts};
use crate::tag::{tags_from_parts, tags_of_parts, tags_view, CacheTag};
use vstd::prelude::*;

verus! {

/// Derives cache key parts from a subject, handing the subject back with the
/// parts gathered.
///
/// `spec_get` states what `get` returns; every implementation is held to it.
pub trait Extractor {
    /// The type of value the extractor reads.
    type Subject;

    /// The subject handed back and the key parts derived from `subject`.
    spec fn spec_get(&self, subject: Self::Subject) -> (Self::Subject, Seq<KeyPartView>);

    /// Derives the key parts of `subject`.
    fn get(&self, subject: Self::Subject) -> (r: KeyParts<Self::Subject>)
        ensures
            (r.spec_subject(), r.spec_parts()) == self.spec_get(subject),
    ;
}

/// A reference to an extractor extracts as the extractor does.
impl<'a, T: Extractor> Extractor for &'a T {
    type Subject = T::Subject;

    open spec fn spec_get(&self, subject: T::Subject) -> (T::Subject, Seq<KeyPartView>) {
        (**self).spec_get(subject)
    }

    fn get(&self, subject: T::Subject) -> (r: KeyParts<T::Subject>) {
        (**self).get(subject)
    }
}

/// A boxed extractor extracts as the extractor does.
impl<T: Extractor> Extractor for Box<T> {
    type Subject = T::Subject;

    open spec fn spec_get(&self, subject: T::Subject) -> (T::Subject, Seq<KeyPartView>) {
        (**self).spec_get(subject)
    }

    fn get(&self, subject: T::Subject) -> (r: KeyParts<T::Subject>) {
        (**self).get(subject)
    }
}

/// A shared extractor extracts as the extractor does.
impl<T: Extractor> Extractor for std::sync::Arc<T> {
    type Subject = T::Subject;

    open spec fn spec_get(&self, subject: T::Subject) -> (T::Subject, Seq<KeyPartView>) {
        (**self).spec_get(subject)
    }

    fn get(&self, subject: T::Subject) -> (r: KeyParts<T::Subject>) {
        (**self).get(subject)
    }
}

/// An extractor that emits a fixed list of key parts whatever the subject.
#[derive(Debug)]
pub struct StaticExtractor<S> {
    parts: Vec<KeyPart>,
    _phantom: core::marker::PhantomData<S>,
}

impl<S> StaticExtractor<S> {
    /// The parts emitted.
    pub closed spec fn spec_parts(self) -> Seq<KeyPartView> {
        parts_view(self.parts@)
    }

    /// An extractor that emits `parts`.
    pub fn new(parts: Vec<KeyPart>) -> (r: Self)
        ensures
            r.spec_parts() == parts_view(parts@),
    {
        StaticExtractor { parts, _phantom: core::marker::PhantomData }
    }
}

impl<S> Default for StaticExtractor<S> {
    fn default() -> (r: Self)
        ensures
            r.spec_parts() == Seq::<KeyPartView>::empty(),
    {
        let r = StaticExtractor::new(Vec::new());
        assert(r.spec_parts() =~= Seq::<KeyPartView>::empty());
        r
    }
}

impl<S> Extractor for StaticExtractor<S> {
    type Subject = S;

    open spec fn spec_get(&self, subject: S) -> (S, Seq<KeyPartView>) {
        (subject, self.spec_parts())
    }

    fn get(&self, subject: S) -> (r: KeyParts<S>) {
        let mut key_parts = KeyParts::new(subject);
        let mut i: usize = 0;
        while i < self.parts.len()
            invariant
                i <= self.parts@.len(),
                key_parts.spec_subject() == subject,
                key_parts.spec_parts() =~= parts_view(self.parts@).take(i as int),
            decreases self.parts.len() - i,
        {
            key_parts.push(self.parts[i].clone());
            assert(parts_view(self.parts@).take(i + 1) =~= parts_view(self.parts@).take(
                i as int,
            ).push(self.parts@[i as int]@));
            i = i + 1;
        }
        assert(parts_view(self.parts@).take(i as int) =~= parts_view(self.parts@));
        key_parts
    }
}

/// Derives cache tags from a subject, handing the subject back with the tags.
///
/// `spec_extract_tags` states what `extract_tags` returns; every
/// implementation is held to it.
pub trait TagExtractor {
    /// The type from which tags are extracted.
    type Subject;

    /// The subject handed back and the texts of the tags derived from it.
    spec fn spec_extract_tags(&self, subject: Self::Subject) -> (Self::Subject, Seq<Seq<char>>);

    /// Derives the tags of `subject`.
    fn extract_tags(&self, subject: Self::Subject) -> (r: (Self::Subject, Vec<CacheTag>))
        ensures
            (r.0, tags_view(r.1@)) == self.spec_extract_tags(subject),
    ;
}

/// A reference to a tag extractor extracts as the tag extractor does.
impl<'a, T: TagExtractor> TagExtractor for &'a T {
    type Subject = T::Subject;

    open spec fn spec_extract_tags(&self, subject: T::Subject) -> (T::Subject, Seq<Seq<char>>) {
        (**self).spec_extract_tags(subject)
    }

    fn extract_tags(&self, subject: T::Subject) -> (r: (T::Subject, Vec<CacheTag>)) {
        (**self).extract_tags(subject)
    }
}

/// A boxed tag extractor extracts as the tag extractor does.
impl<T: TagExtractor> TagExtractor for Box<T> {
    type Subject = T::Subject;

    open spec fn spec_extract_tags(&self, subject: T::Subject) -> (T::Subject, Seq<Seq<char>>) {
        (**self).spec_extract_tags(subject)
    }

    fn extract_tags(&self, subject: T::Subject) -> (r: (T::Subject, Vec<CacheTag>)) {
        (**self).extract_tags(subject)
    }
}

/// A shared tag extractor extracts as the tag extractor does.
impl<T: TagExtractor> TagExtractor for std::sync::Arc<T> {
    type Subject = T::Subject;

    open spec fn spec_extract_tags(&self, subject: T::Subject) -> (T::Subject, Seq<Seq<char>>) {
        (**self).spec_extract_tags(subject)
    }

    fn extract_tags(&self, subject: T::Subject) -> (r: (T::Subject, Vec<CacheTag>)) {
        (**self).extract_tags(subject)
    }
}

/// Adapter that uses an [`Extractor`] as a [`TagExtractor`]: each key part
/// the extractor produces becomes the tag `key=value` (or `key`).
pub struct TagAdapter<E> {
    extractor: E,
}

impl<E> TagAdapter<E> {
    /// The extractor adapted.
    pub closed spec fn spec_extractor(self) -> E {
        self.extractor
    }

    /// Wraps an extractor as a tag extractor.
    pub fn new(extractor: E) -> (r: Self)
        ensures
            r.spec_extractor() == extractor,
    {
        TagAdapter { extractor }
    }
}

impl<E: Extractor> TagExtractor for TagAdapter<E> {
    type Subject = E::Subject;

    open spec fn spec_extract_tags(&self, subject: E::Subject) -> (E::Subject, Seq<Seq<char>>) {
        let (s, parts) = self.spec_extractor().spec_get(subject);
        (s, tags_of_parts(parts))
    }

    fn extract_tags(&self, subject: E::Subject) -> (r: (E::Subject, Vec<CacheTag>)) {
        let key_parts = self.extractor.get(subject);
        let (subject, parts) = key_parts.into_parts();
        let tags = tags_from_parts(parts.as_slice());
        (subject, tags)
    }
}

/// Converts any [`Extractor`] into a [`TagExtractor`].
pub trait ExtractorExt: Extractor + Sized {
    /// Wraps this extractor as a [`TagExtractor`].
    fn as_tag(self) -> (r: TagAdapter<Self>)
        ensures
            r.spec_extractor() == self,
    {
        TagAdapter::new(self)
    }
}

impl<T: Extractor> ExtractorExt for T {

}

/// A tag extractor that produces no tags.
pub struct NeutralTagExtractor<S> {
    _phantom: core::marker::PhantomData<S>,
}

impl<S> NeutralTagExtractor<S> {
    /// The tag extractor that produces no tags.
    pub fn new() -> (r: Self) {
        NeutralTagExtractor { _phantom: core::marker::PhantomData }
    }
}

impl<S> Default for NeutralTagExtractor<S> {
    fn default() -> (r: Self) {
        NeutralTagExtractor::new()
    }
}

impl<S> TagExtractor for NeutralTagExtractor<S> {
    type Subject = S;

    open spec fn spec_extract_tags(&self, subject: S) -> (S, Seq<Seq<char>>) {
        (subject, Seq::empty())
    }

    fn extract_tags(&self, subject: S) -> (r: (S, Vec<CacheTag>)) {
        let tags: Vec<CacheTag> = Vec::new();
        assert(tags_view(tags@) =~= Seq::<Seq<char>>::empty());
        (subject, tags)
    }
}

/// Two tag extractors run in turn: the subject goes through the first, then
/// the second, and the tags of both are concatenated in order.
pub struct ChainTagExtractor<A, B> {
    first: A,
    second: B,
}

impl<A, B> ChainTagExtractor<A, B> {
    /// The tag extractor run first.
    pub closed spec fn spec_first(self) -> A {
        self.first
    }

    /// The tag extractor run second.
    pub closed spec fn spec_second(self) -> B {
        self.second
    }

    /// Chains two tag extractors.
    pub fn new(first: A, second: B) -> (r: Self)
        ensures
            r.spec_first() == first,
            r.spec_second() == second,
    {
        ChainTagExtractor { first, second }
    }
}

impl<A: TagExtractor, B: TagExtractor<Subject = A::Subject>> TagExtractor for ChainTagExtractor<
    A,
    B,
> {
    type Subject = A::Subject;

    open spec fn spec_extract_tags(&self, subject: A::Subject) -> (A::Subject, Seq<Seq<char>>) {
        let (s1, t1) = self.spec_first().spec_extract_tags(subject);
        let (s2, t2) = self.spec_second().spec_extract_tags(s1);
        (s2, t1 + t2)
    }

    fn extract_tags(&self, subject: A::Subject) -> (r: (A::Subject, Vec<CacheTag>)) {
        let (subject, mut tags) = self.first.extract_tags(subject);
        let (subject, mut more) = self.second.extract_tags(subject);
        let ghost first_tags = tags@;
        let ghost second_tags = more@;
        tags.append(&mut more);
        assert(tags_view(tags@) =~= tags_view(first_tags) + tags_view(second_tags));
        (subject, tags)
    }
}

/// What a list of tag extractors run in turn gives: each link, in order,
/// gets the subject the previous link handed back, and the tags of all
/// links are concatenated in order; no links give the subject and no tags.
pub open spec fn chain_fold<T: TagExtractor>(links: Seq<T>, subject: T::Subject) -> (
    T::Subject,
    Seq<Seq<char>>,
)
    decreases links.len(),
{
    if links.len() == 0 {
        (subject, Seq::empty())
    } else {
        let (s1, t1) = chain_fold(links.drop_last(), subject);
        let (s2, t2) = links.last().spec_extract_tags(s1);
        (s2, t1 + t2)
    }
}

/// Any number of tag extractors of one type, run in turn.
pub struct TagChain<T> {
    links: Vec<T>,
}

impl<T> TagChain<T> {
    /// The links, in order.
    pub closed spec fn spec_links(self) -> Seq<T> {
        self.links@
    }

    /// A chain of the given links.
    pub fn new(links: Vec<T>) -> (r: Self)
        ensures
            r.spec_links() == links@,
    {
        TagChain { links }
    }
}

impl<T: TagExtractor> TagExtractor for TagChain<T> {
    type Subject = T::Subject;

    open spec fn spec_extract_tags(&self, subject: T::Subject) -> (T::Subject, Seq<Seq<char>>) {
        chain_fold(self.spec_links(), subject)
    }

    fn extract_tags(&self, subject: T::Subject) -> (r: (T::Subject, Vec<CacheTag>)) {
        let mut current = subject;
        let mut tags: Vec<CacheTag> = Vec::new();
        let mut i: usize = 0;
        proof {
            assert(self.links@.take(0) =~= Seq::<T>::empty());
            assert(tags_view(tags@) =~= Seq::<Seq<char>>::empty());
        }
        while i < self.links.len()
            invariant
                i <= self.links@.len(),
                (current, tags_view(tags@)) == chain_fold(self.links@.take(i as int), subject),
            decreases self.links.len() - i,
        {
            let (next, mut more) = self.links[i].extract_tags(current);
            let ghost before = tags@;
            let ghost added = more@;
            tags.append(&mut more);
            proof {
                assert(self.links@.take(i + 1).drop_last() =~= self.links@.take(i as int));
                assert(self.links@.take(i + 1).last() == self.links@[i as int]);
                assert(tags_view(tags@) =~= tags_view(before) + tags_view(added));
            }
            current = next;
            i = i + 1;
        }
        assert(self.links@.take(i as int) =~= self.links@);
        (current, tags)
    }
}

/// A chain without links hands the subject back with no tags.
pub proof fn lemma_empty_chain<T: TagExtractor>(chain: TagChain<T>, subject: T::Subject)
    requires
        chain.spec_links().len() == 0,
    ensures
        chain.spec_extract_tags(subject) == (subject, Seq::<Seq<char>>::empty()),
{
}

/// A chain of two links extracts as the pair of those links chained.
pub proof fn lemma_two_links_chain_as_pair<T: TagExtractor>(
    chain: TagChain<T>,
    pair: ChainTagExtractor<T, T>,
    subject: T::Subject,
)
    requires
        chain.spec_links() == seq![pair.spec_first(), pair.spec_second()],
    ensures
        chain.spec_extract_tags(subject) == pair.spec_extract_tags(subject),
{
    let links = chain.spec_links();
    let one = seq![pair.spec_first()];
    assert(links.drop_last() =~= one);
    assert(links.last() == pair.spec_second());
    assert(one.drop_last() =~= Seq::<T>::empty());
    assert(one.last() == pair.spec_first());
    let (s1, t1) = pair.spec_first().spec_extract_tags(subject);
    assert(chain_fold(one.drop_last(), subject) == (subject, Seq::<Seq<char>>::empty()));
    assert(Seq::<Seq<char>>::empty() + t1 =~= t1);
    assert(chain_fold(one, subject) == (s1, t1));
}

/// Running links in turn, split anywhere: the links `a` followed by the links
/// `b` give what `a` gives, then what `b` gives on the subject `a` handed
/// back, with the tags of `b` after those of `a`.
proof fn lemma_chain_fold_split<T: TagExtractor>(a: Seq<T>, b: Seq<T>, subject: T::Subject)
    ensures
        chain_fold(a + b, subject) == ({
            let (s1, t1) = chain_fold(a, subject);
            let (s2, t2) = chain_fold(b, s1);
            (s2, t1 + t2)
        }),
    decreases b.len(),
{
    let (s1, t1) = chain_fold(a, subject);
    if b.len() == 0 {
        assert(a + b =~= a);
        assert(t1 + Seq::<Seq<char>>::empty() =~= t1);
    } else {
        let b0 = b.drop_last();
        lemma_chain_fold_split(a, b0, subject);
        assert((a + b).drop_last() =~= a + b0);
        assert((a + b).last() == b.last());
        let (s2, t2) = chain_fold(b0, s1);
        let (s3, t3) = b.last().spec_extract_tags(s2);
        assert(t1 + t2 + t3 =~= t1 + (t2 + t3));
    }
}

/// A chain split anywhere: the chain of the links of `first` followed by
/// those of `rest` gives what `first` gives, then what `rest` gives on the
/// subject `first` handed back, with the tags of `rest` after those of
/// `first`. So every link's tags are kept, in order, however many links
/// there are.
pub proof fn lemma_chain_split<T: TagExtractor>(
    whole: TagChain<T>,
    first: TagChain<T>,
    rest: TagChain<T>,
    subject: T::Subject,
)
    requires
        whole.spec_links() == first.spec_links() + rest.spec_links(),
    ensures
        whole.spec_extract_tags(subject) == ({
            let (s1, t1) = first.spec_extract_tags(subject);
            let (s2, t2) = rest.spec_extract_tags(s1);
            (s2, t1 + t2)
        }),
{
    lemma_chain_fold_split(first.spec_links(), rest.spec_links(), subject);
}

/// A chain of one link extracts as that link.
pub proof fn lemma_one_link_chain<T: TagExtractor>(chain: TagChain<T>, link: T, subject: T::Subject)
    requires
        chain.spec_links() == seq![link],
    ensures
        chain.spec_extract_tags(subject) == link.spec_extract_tags(subject),
{
    let links = chain.spec_links();
    assert(links.drop_last() =~= Seq::<T>::empty());
    assert(links.last() == link);
    assert(chain_fold(links.drop_last(), subject) == (subject, Seq::<Seq<char>>::empty()));
    let (s1, t1) = link.spec_extract_tags(subject);
    assert(Seq::<Seq<char>>::empty() + t1 =~= t1);
}

/// The tags of a chain are the tags of its links in order: their number is
/// the sum of what each link gives when run on the subject its predecessor
/// handed back; in particular appending a link appends exactly its tags.
pub proof fn lemma_chain_append_link<T: TagExtractor>(
    longer: TagChain<T>,
    shorter: TagChain<T>,
    link: T,
    subject: T::Subject,
)
    requires
        longer.spec_links() == shorter.spec_links().push(link),
    ensures
        longer.spec_extract_tags(subject) == ({
            let (s1, t1) = shorter.spec_extract_tags(subject);
            let (s2, t2) = link.spec_extract_tags(s1);
            (s2, t1 + t2)
        }),
{
    let one = seq![link];
    assert(shorter.spec_links().push(link) =~= shorter.spec_links() + one);
    lemma_chain_fold_split(shorter.spec_links(), one, subject);
    assert(one.drop_last() =~= Seq::<T>::empty());
    assert(one.last() == link);
    let (s1, t1) = shorter.spec_extract_tags(subject);
    let (s2, t2) = link.spec_extract_tags(s1);
    assert(chain_fold(one.drop_last(), s1) == (s1, Seq::<Seq<char>>::empty()));
    assert(Seq::<Seq<char>>::empty() + t2 =~= t2);
    assert(chain_fold(one, s1) == (s2, t2));
}

/// Chaining with the tag extractor that produces no tags changes nothing,
/// on either side.
pub proof fn lemma_chain_neutral_unit<T: TagExtractor>(
    t: T,
    left_unit: ChainTagExtractor<NeutralTagExtractor<T::Subject>, T>,
    right_unit: ChainTagExtractor<T, NeutralTagExtractor<T::Subject>>,
    subject: T::Subject,
)
    requires
        left_unit.spec_second() == t,
        right_unit.spec_first() == t,
    ensures
        left_unit.spec_extract_tags(subject) == t.spec_extract_tags(subject),
        right_unit.spec_extract_tags(subject) == t.spec_extract_tags(subject),
{
    let (s, tags) = t.spec_extract_tags(subject);
    assert(Seq::<Seq<char>>::empty() + tags =~= tags);
    assert(tags + Seq::<Seq<char>>::empty() =~= tags);
}

} // verus!
