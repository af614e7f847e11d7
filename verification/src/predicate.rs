//! Predicates decide whether a subject (a request or a response) is
//! cacheable. Each predicate hands the subject back, marked cacheable or not;
//! combinators join predicates with "not", "and" and "or".

use vstd::prelude::*;

verus! {

/// The outcome of a predicate: the subject, marked cacheable or not.
#[derive(Debug)]
pub enum PredicateResult<S> {
    /// The subject may be cached.
    Cacheable(S),
    /// The subject must not be cached.
    NonCacheable(S),
}

impl<S> PredicateResult<S> {
    /// The subject carried, whatever the verdict.
    pub open spec fn spec_subject(self) -> S {
        match self {
            PredicateResult::Cacheable(s) => s,
            PredicateResult::NonCacheable(s) => s,
        }
    }

    /// The same subject with the opposite verdict.
    pub open spec fn spec_flip(self) -> PredicateResult<S> {
        match self {
            PredicateResult::Cacheable(s) => PredicateResult::NonCacheable(s),
            PredicateResult::NonCacheable(s) => PredicateResult::Cacheable(s),
        }
    }

    /// The same subject with the opposite verdict.
    pub fn flip(self) -> (r: PredicateResult<S>)
        ensures
            r == self.spec_flip(),
    {
        match self {
            PredicateResult::Cacheable(s) => PredicateResult::NonCacheable(s),
            PredicateResult::NonCacheable(s) => PredicateResult::Cacheable(s),
        }
    }

    /// Whether the verdict is "cacheable".
    pub fn is_cacheable(&self) -> (r: bool)
        ensures
            r == (*self is Cacheable),
    {
        match self {
            PredicateResult::Cacheable(_) => true,
            PredicateResult::NonCacheable(_) => false,
        }
    }

    /// Consumes the result and returns the subject.
    pub fn into_subject(self) -> (r: S)
        ensures
            r == self.spec_subject(),
    {
        match self {
            PredicateResult::Cacheable(s) => s,
            PredicateResult::NonCacheable(s) => s,
        }
    }

    /// Chains a further check: a cacheable subject is handed to `f` with the
    /// context, and `f`'s verdict is the result; a non-cacheable result
    /// stays non-cacheable without calling `f`.
    pub fn and_then<Ctx, F: FnOnce(S, Ctx) -> (PredicateResult<S>, Ctx)>(
        self,
        ctx: Ctx,
        f: F,
    ) -> (r: (PredicateResult<S>, Ctx))
        requires
            self matches PredicateResult::Cacheable(s) ==> f.requires((s, ctx)),
        ensures
            self matches PredicateResult::Cacheable(s) ==> f.ensures((s, ctx), r),
            self matches PredicateResult::NonCacheable(s) ==> r == (
                PredicateResult::NonCacheable(s),
                ctx,
            ),
    {
        match self {
            PredicateResult::Cacheable(value) => f(value, ctx),
            PredicateResult::NonCacheable(value) => (PredicateResult::NonCacheable(value), ctx),
        }
    }
}

/// Why a predicate could not reach a verdict.
#[derive(Debug, Clone, PartialEq, Eq)]
pub enum PredicateError {
    /// Failed to collect or read the body of the subject.
    BodyCollection(String),
    /// Internal predicate evaluation error.
    Internal(String),
}

/// A predicate over subjects of one type, threading a context of its own.
///
/// `spec_check` states what `check` returns and how it leaves the context;
/// every implementation is held to it.
pub trait Predicate {
    /// The type of value the predicate inspects.
    type Subject;
    /// State shared between predicates while they are evaluated.
    type Context;

    /// The verdict and the context after checking `subject` with `ctx`.
    spec fn spec_check(&self, subject: Self::Subject, ctx: Self::Context) -> (
        PredicateResult<Self::Subject>,
        Self::Context,
    );

    /// Checks `subject`, handing it back with a verdict.
    fn check(&self, subject: Self::Subject, ctx: &mut Self::Context) -> (r: PredicateResult<
        Self::Subject,
    >)
        ensures
            (r, *final(ctx)) == self.spec_check(subject, *old(ctx)),
    ;
}

/// A reference to a predicate decides as the predicate does.
impl<'a, T: Predicate> Predicate for &'a T {
    type Subject = T::Subject;

    type Context = T::Context;

    open spec fn spec_check(&self, subject: T::Subject, ctx: T::Context) -> (
        PredicateResult<T::Subject>,
        T::Context,
    ) {
        (**self).spec_check(subject, ctx)
    }

    fn check(&self, subject: T::Subject, ctx: &mut T::Context) -> (r: PredicateResult<
        T::Subject,
    >) {
        (**self).check(subject, ctx)
    }
}

/// A boxed predicate decides as the predicate does.
impl<T: Predicate> Predicate for Box<T> {
    type Subject = T::Subject;

    type Context = T::Context;

    open spec fn spec_check(&self, subject: T::Subject, ctx: T::Context) -> (
        PredicateResult<T::Subject>,
        T::Context,
    ) {
        (**self).spec_check(subject, ctx)
    }

    fn check(&self, subject: T::Subject, ctx: &mut T::Context) -> (r: PredicateResult<
        T::Subject,
    >) {
        (**self).check(subject, ctx)
    }
}

/// A shared predicate decides as the predicate does.
impl<T: Predicate> Predicate for std::sync::Arc<T> {
    type Subject = T::Subject;

    type Context = T::Context;

    open spec fn spec_check(&self, subject: T::Subject, ctx: T::Context) -> (
        PredicateResult<T::Subject>,
        T::Context,
    ) {
        (**self).spec_check(subject, ctx)
    }

    fn check(&self, subject: T::Subject, ctx: &mut T::Context) -> (r: PredicateResult<
        T::Subject,
    >) {
        (**self).check(subject, ctx)
    }
}

/// A predicate that accepts every subject.
#[derive(Debug)]
pub struct Neutral<S> {
    _phantom: core::marker::PhantomData<S>,
}

impl<S> Neutral<S> {
    /// Creates the predicate that accepts everything.
    pub fn new() -> (r: Self) {
        Neutral { _phantom: core::marker::PhantomData }
    }
}

impl<S> Clone for Neutral<S> {
    fn clone(&self) -> (r: Self) {
        Neutral::new()
    }
}

impl<S> Copy for Neutral<S> {

}

impl<S> Default for Neutral<S> {
    fn default() -> (r: Self) {
        Neutral::new()
    }
}

impl<S> Predicate for Neutral<S> {
    type Subject = S;

    type Context = ();

    open spec fn spec_check(&self, subject: S, ctx: ()) -> (PredicateResult<S>, ()) {
        (PredicateResult::Cacheable(subject), ctx)
    }

    fn check(&self, subject: S, ctx: &mut ()) -> (r: PredicateResult<S>) {
        PredicateResult::Cacheable(subject)
    }
}

/// The negation of a predicate: cacheable exactly when the inner predicate
/// says not cacheable.
#[derive(Debug)]
pub struct Not<P> {
    predicate: P,
}

impl<P> Not<P> {
    /// The predicate negated.
    pub closed spec fn spec_inner(self) -> P {
        self.predicate
    }

    /// Negates a predicate.
    pub fn new(predicate: P) -> (r: Self)
        ensures
            r.spec_inner() == predicate,
    {
        Not { predicate }
    }

    /// The predicate negated.
    pub fn inner(&self) -> (r: &P)
        ensures
            *r == self.spec_inner(),
    {
        &self.predicate
    }
}

impl<P: Predicate> Predicate for Not<P> {
    type Subject = P::Subject;

    type Context = P::Context;

    open spec fn spec_check(&self, subject: P::Subject, ctx: P::Context) -> (
        PredicateResult<P::Subject>,
        P::Context,
    ) {
        let (r, c) = self.spec_inner().spec_check(subject, ctx);
        (r.spec_flip(), c)
    }

    fn check(&self, subject: P::Subject, ctx: &mut P::Context) -> (r: PredicateResult<
        P::Subject,
    >) {
        self.predicate.check(subject, ctx).flip()
    }
}

/// The conjunction of two predicates: the right one sees the subject only
/// when the left one found it cacheable.
#[derive(Debug)]
pub struct And<L, R> {
    left: L,
    right: R,
}

impl<L, R> And<L, R> {
    /// The predicate checked first.
    pub closed spec fn spec_left(self) -> L {
        self.left
    }

    /// The predicate checked second.
    pub closed spec fn spec_right(self) -> R {
        self.right
    }

    /// Joins two predicates with "and".
    pub fn new(left: L, right: R) -> (r: Self)
        ensures
            r.spec_left() == left,
            r.spec_right() == right,
    {
        And { left, right }
    }
}

impl<L: Predicate, R: Predicate<Subject = L::Subject, Context = L::Context>> Predicate for And<
    L,
    R,
> {
    type Subject = L::Subject;

    type Context = L::Context;

    open spec fn spec_check(&self, subject: L::Subject, ctx: L::Context) -> (
        PredicateResult<L::Subject>,
        L::Context,
    ) {
        let (r, c) = self.spec_left().spec_check(subject, ctx);
        match r {
            PredicateResult::Cacheable(s) => self.spec_right().spec_check(s, c),
            PredicateResult::NonCacheable(s) => (PredicateResult::NonCacheable(s), c),
        }
    }

    fn check(&self, subject: L::Subject, ctx: &mut L::Context) -> (r: PredicateResult<
        L::Subject,
    >) {
        match self.left.check(subject, ctx) {
            PredicateResult::Cacheable(s) => self.right.check(s, ctx),
            PredicateResult::NonCacheable(s) => PredicateResult::NonCacheable(s),
        }
    }
}

/// The disjunction of two predicates: the right one sees the subject only
/// when the left one found it not cacheable.
#[derive(Debug)]
pub struct Or<L, R> {
    left: L,
    right: R,
}

impl<L, R> Or<L, R> {
    /// The predicate checked first.
    pub closed spec fn spec_left(self) -> L {
        self.left
    }

    /// The predicate checked second.
    pub closed spec fn spec_right(self) -> R {
        self.right
    }

    /// Joins two predicates with "or".
    pub fn new(left: L, right: R) -> (r: Self)
        ensures
            r.spec_left() == left,
            r.spec_right() == right,
    {
        Or { left, right }
    }
}

impl<L: Predicate, R: Predicate<Subject = L::Subject, Context = L::Context>> Predicate for Or<
    L,
    R,
> {
    type Subject = L::Subject;

    type Context = L::Context;

    open spec fn spec_check(&self, subject: L::Subject, ctx: L::Context) -> (
        PredicateResult<L::Subject>,
        L::Context,
    ) {
        let (r, c) = self.spec_left().spec_check(subject, ctx);
        match r {
            PredicateResult::NonCacheable(s) => self.spec_right().spec_check(s, c),
            PredicateResult::Cacheable(s) => (PredicateResult::Cacheable(s), c),
        }
    }

    fn check(&self, subject: L::Subject, ctx: &mut L::Context) -> (r: PredicateResult<
        L::Subject,
    >) {
        match self.left.check(subject, ctx) {
            PredicateResult::NonCacheable(s) => self.right.check(s, ctx),
            PredicateResult::Cacheable(s) => PredicateResult::Cacheable(s),
        }
    }
}

/// Combinator methods for every predicate.
pub trait PredicateExt: Predicate + Sized {
    /// Joins `self` and `right` with "and".
    fn and<R: Predicate<Subject = Self::Subject, Context = Self::Context>>(self, right: R) -> (r:
        And<Self, R>)
        ensures
            r.spec_left() == self,
            r.spec_right() == right,
    {
        And::new(self, right)
    }

    /// Joins `self` and `right` with "or".
    fn or<R: Predicate<Subject = Self::Subject, Context = Self::Context>>(self, right: R) -> (r:
        Or<Self, R>)
        ensures
            r.spec_left() == self,
            r.spec_right() == right,
    {
        Or::new(self, right)
    }

    /// Negates `self`.
    fn not(self) -> (r: Not<Self>)
        ensures
            r.spec_inner() == self,
    {
        Not::new(self)
    }
}

impl<T: Predicate + Sized> PredicateExt for T {

}

/// Negating a predicate twice gives back the predicate: same verdict, same
/// subject, same context.
pub proof fn lemma_double_negation<P: Predicate>(
    p: P,
    not_not_p: Not<Not<P>>,
    subject: P::Subject,
    ctx: P::Context,
)
    requires
        not_not_p.spec_inner().spec_inner() == p,
    ensures
        not_not_p.spec_check(subject, ctx) == p.spec_check(subject, ctx),
{
    let (r, c) = p.spec_check(subject, ctx);
    assert(r.spec_flip().spec_flip() == r);
}

/// De Morgan: "not (p and q)" decides every subject as "(not p) or (not q)".
pub proof fn lemma_de_morgan_and<
    P: Predicate,
    Q: Predicate<Subject = P::Subject, Context = P::Context>,
>(
    p: P,
    q: Q,
    not_and: Not<And<P, Q>>,
    or_nots: Or<Not<P>, Not<Q>>,
    subject: P::Subject,
    ctx: P::Context,
)
    requires
        not_and.spec_inner().spec_left() == p,
        not_and.spec_inner().spec_right() == q,
        or_nots.spec_left().spec_inner() == p,
        or_nots.spec_right().spec_inner() == q,
    ensures
        not_and.spec_check(subject, ctx) == or_nots.spec_check(subject, ctx),
{
}

/// De Morgan: "not (p or q)" decides every subject as "(not p) and (not q)".
pub proof fn lemma_de_morgan_or<
    P: Predicate,
    Q: Predicate<Subject = P::Subject, Context = P::Context>,
>(
    p: P,
    q: Q,
    not_or: Not<Or<P, Q>>,
    and_nots: And<Not<P>, Not<Q>>,
    subject: P::Subject,
    ctx: P::Context,
)
    requires
        not_or.spec_inner().spec_left() == p,
        not_or.spec_inner().spec_right() == q,
        and_nots.spec_left().spec_inner() == p,
        and_nots.spec_right().spec_inner() == q,
    ensures
        not_or.spec_check(subject, ctx) == and_nots.spec_check(subject, ctx),
{
}

/// The predicate that accepts everything is a unit of "and" on either side.
pub proof fn lemma_neutral_and_unit<P: Predicate<Context = ()>>(
    p: P,
    left_unit: And<Neutral<P::Subject>, P>,
    right_unit: And<P, Neutral<P::Subject>>,
    subject: P::Subject,
    ctx: (),
)
    requires
        left_unit.spec_right() == p,
        right_unit.spec_left() == p,
    ensures
        left_unit.spec_check(subject, ctx) == p.spec_check(subject, ctx),
        right_unit.spec_check(subject, ctx) == p.spec_check(subject, ctx),
{
    let (r, c) = p.spec_check(subject, ctx);
    match r {
        PredicateResult::Cacheable(s) => {},
        PredicateResult::NonCacheable(s) => {},
    }
}

/// "or" with the predicate that accepts everything on the left accepts
/// every subject as it is, whatever the right side would say.
pub proof fn lemma_neutral_or_accepts<P: Predicate<Context = ()>>(
    either: Or<Neutral<P::Subject>, P>,
    subject: P::Subject,
    ctx: (),
)
    ensures
        either.spec_check(subject, ctx) == (PredicateResult::Cacheable(subject), ctx),
{
}

/// Whether a predicate hands back the subject it got, whatever the verdict.
pub open spec fn keeps_subject<P: Predicate>(p: P) -> bool {
    forall|s: P::Subject, c: P::Context| #[trigger] p.spec_check(s, c).0.spec_subject() == s
}

/// Combinators of predicates that hand back the subject they got do so too.
pub proof fn lemma_combinators_keep_subject<
    P: Predicate,
    Q: Predicate<Subject = P::Subject, Context = P::Context>,
>(p: P, q: Q, not_p: Not<P>, p_and_q: And<P, Q>, p_or_q: Or<P, Q>)
    requires
        keeps_subject(p),
        keeps_subject(q),
        not_p.spec_inner() == p,
        p_and_q.spec_left() == p,
        p_and_q.spec_right() == q,
        p_or_q.spec_left() == p,
        p_or_q.spec_right() == q,
    ensures
        keeps_subject(not_p),
        keeps_subject(p_and_q),
        keeps_subject(p_or_q),
{
    assert forall|s: P::Subject, c: P::Context| #[trigger]
        p_and_q.spec_check(s, c).0.spec_subject() == s by {
        let (r, c2) = p.spec_check(s, c);
        assert(r.spec_subject() == s);
        match r {
            PredicateResult::Cacheable(s2) => {
                assert(q.spec_check(s2, c2).0.spec_subject() == s2);
            },
            PredicateResult::NonCacheable(s2) => {},
        }
    }
    assert forall|s: P::Subject, c: P::Context| #[trigger]
        p_or_q.spec_check(s, c).0.spec_subject() == s by {
        let (r, c2) = p.spec_check(s, c);
        assert(r.spec_subject() == s);
        match r {
            PredicateResult::NonCacheable(s2) => {
                assert(q.spec_check(s2, c2).0.spec_subject() == s2);
            },
            PredicateResult::Cacheable(s2) => {},
        }
    }
    assert forall|s: P::Subject, c: P::Context| #[trigger]
        not_p.spec_check(s, c).0.spec_subject() == s by {
        let (r, c2) = p.spec_check(s, c);
        assert(r.spec_subject() == s);
        assert(r.spec_flip().spec_subject() == r.spec_subject());
    }
}

} // verus!
