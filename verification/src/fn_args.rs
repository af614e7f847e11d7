//! Function caching: arguments that do or do not take part in the cache
//! key, how a value contributes key parts, the extractor that keys a call by
//! its function path and arguments, and the upstream that runs the function.

use crate::decimal::{decimal, push_decimal, push_signed_decimal, signed_decimal};
use crate::extractor::Extractor;
use crate::key::{parts_view, KeyPart, KeyPartView, KeyParts};
use vstd::prelude::*;

verus! {

/// Types that contribute key parts to a cache key.
///
/// `spec_extract` states what `extract` returns; every implementation is
/// held to it.
pub trait KeyExtract {
    /// The key parts of this value.
    spec fn spec_extract(&self) -> Seq<KeyPartView>;

    /// Extract key parts from this value.
    fn extract(&self) -> (r: Vec<KeyPart>)
        ensures
            parts_view(r@) == self.spec_extract(),
    ;
}

/// A single part `name=value`.
fn single_part(name: &str, value: String) -> (r: Vec<KeyPart>)
    ensures
        parts_view(r@) == seq![(name@, Some(value@))],
{
    let mut parts = Vec::new();
    parts.push(KeyPart::from_strings(name.to_owned(), Some(value)));
    assert(parts_view(parts@) =~= seq![(name@, Some(value@))]);
    parts
}

impl KeyExtract for u8 {
    open spec fn spec_extract(&self) -> Seq<KeyPartView> {
        seq![("u8"@, Some(decimal(*self as nat)))]
    }

    fn extract(&self) -> (r: Vec<KeyPart>) {
        let mut text = String::new();
        push_decimal(&mut text, *self as u128);
        assert(text@ =~= decimal(*self as nat));
        single_part("u8", text)
    }
}

impl KeyExtract for u16 {
    open spec fn spec_extract(&self) -> Seq<KeyPartView> {
        seq![("u16"@, Some(decimal(*self as nat)))]
    }

    fn extract(&self) -> (r: Vec<KeyPart>) {
        let mut text = String::new();
        push_decimal(&mut text, *self as u128);
        assert(text@ =~= decimal(*self as nat));
        single_part("u16", text)
    }
}

impl KeyExtract for u32 {
    open spec fn spec_extract(&self) -> Seq<KeyPartView> {
        seq![("u32"@, Some(decimal(*self as nat)))]
    }

    fn extract(&self) -> (r: Vec<KeyPart>) {
        let mut text = String::new();
        push_decimal(&mut text, *self as u128);
        assert(text@ =~= decimal(*self as nat));
        single_part("u32", text)
    }
}

impl KeyExtract for u64 {
    open spec fn spec_extract(&self) -> Seq<KeyPartView> {
        seq![("u64"@, Some(decimal(*self as nat)))]
    }

    fn extract(&self) -> (r: Vec<KeyPart>) {
        let mut text = String::new();
        push_decimal(&mut text, *self as u128);
        assert(text@ =~= decimal(*self as nat));
        single_part("u64", text)
    }
}

impl KeyExtract for u128 {
    open spec fn spec_extract(&self) -> Seq<KeyPartView> {
        seq![("u128"@, Some(decimal(*self as nat)))]
    }

    fn extract(&self) -> (r: Vec<KeyPart>) {
        let mut text = String::new();
        push_decimal(&mut text, *self as u128);
        assert(text@ =~= decimal(*self as nat));
        single_part("u128", text)
    }
}

impl KeyExtract for usize {
    open spec fn spec_extract(&self) -> Seq<KeyPartView> {
        seq![("usize"@, Some(decimal(*self as nat)))]
    }

    fn extract(&self) -> (r: Vec<KeyPart>) {
        let mut text = String::new();
        push_decimal(&mut text, *self as u128);
        assert(text@ =~= decimal(*self as nat));
        single_part("usize", text)
    }
}

impl KeyExtract for i8 {
    open spec fn spec_extract(&self) -> Seq<KeyPartView> {
        seq![("i8"@, Some(signed_decimal(*self as int)))]
    }

    fn extract(&self) -> (r: Vec<KeyPart>) {
        let mut text = String::new();
        push_signed_decimal(&mut text, *self as i128);
        assert(text@ =~= signed_decimal(*self as int));
        single_part("i8", text)
    }
}

impl KeyExtract for i16 {
    open spec fn spec_extract(&self) -> Seq<KeyPartView> {
        seq![("i16"@, Some(signed_decimal(*self as int)))]
    }

    fn extract(&self) -> (r: Vec<KeyPart>) {
        let mut text = String::new();
        push_signed_decimal(&mut text, *self as i128);
        assert(text@ =~= signed_decimal(*self as int));
        single_part("i16", text)
    }
}

impl KeyExtract for i32 {
    open spec fn spec_extract(&self) -> Seq<KeyPartView> {
        seq![("i32"@, Some(signed_decimal(*self as int)))]
    }

    fn extract(&self) -> (r: Vec<KeyPart>) {
        let mut text = String::new();
        push_signed_decimal(&mut text, *self as i128);
        assert(text@ =~= signed_decimal(*self as int));
        single_part("i32", text)
    }
}

impl KeyExtract for i64 {
    open spec fn spec_extract(&self) -> Seq<KeyPartView> {
        seq![("i64"@, Some(signed_decimal(*self as int)))]
    }

    fn extract(&self) -> (r: Vec<KeyPart>) {
        let mut text = String::new();
        push_signed_decimal(&mut text, *self as i128);
        assert(text@ =~= signed_decimal(*self as int));
        single_part("i64", text)
    }
}

impl KeyExtract for i128 {
    open spec fn spec_extract(&self) -> Seq<KeyPartView> {
        seq![("i128"@, Some(signed_decimal(*self as int)))]
    }

    fn extract(&self) -> (r: Vec<KeyPart>) {
        let mut text = String::new();
        push_signed_decimal(&mut text, *self as i128);
        assert(text@ =~= signed_decimal(*self as int));
        single_part("i128", text)
    }
}

impl KeyExtract for isize {
    open spec fn spec_extract(&self) -> Seq<KeyPartView> {
        seq![("isize"@, Some(signed_decimal(*self as int)))]
    }

    fn extract(&self) -> (r: Vec<KeyPart>) {
        let mut text = String::new();
        push_signed_decimal(&mut text, *self as i128);
        assert(text@ =~= signed_decimal(*self as int));
        single_part("isize", text)
    }
}

impl KeyExtract for bool {
    open spec fn spec_extract(&self) -> Seq<KeyPartView> {
        seq![("bool"@, Some(if *self { "true"@ } else { "false"@ }))]
    }

    fn extract(&self) -> (r: Vec<KeyPart>) {
        let text = if *self {
            "true".to_owned()
        } else {
            "false".to_owned()
        };
        single_part("bool", text)
    }
}

impl KeyExtract for String {
    open spec fn spec_extract(&self) -> Seq<KeyPartView> {
        seq![("str"@, Some(self@))]
    }

    fn extract(&self) -> (r: Vec<KeyPart>) {
        single_part("str", self.clone())
    }
}

impl<'a> KeyExtract for &'a str {
    open spec fn spec_extract(&self) -> Seq<KeyPartView> {
        seq![("str"@, Some((*self)@))]
    }

    fn extract(&self) -> (r: Vec<KeyPart>) {
        single_part("str", (*self).to_owned())
    }
}

impl<T: KeyExtract> KeyExtract for Option<T> {
    open spec fn spec_extract(&self) -> Seq<KeyPartView> {
        match self {
            Some(v) => v.spec_extract(),
            None => seq![("none"@, None)],
        }
    }

    fn extract(&self) -> (r: Vec<KeyPart>) {
        match self {
            Some(v) => v.extract(),
            None => {
                let mut parts = Vec::new();
                parts.push(KeyPart::new("none", None));
                assert(parts_view(parts@) =~= seq![("none"@, None::<Seq<char>>)]);
                parts
            },
        }
    }
}

impl<'a, T: KeyExtract> KeyExtract for &'a T {
    open spec fn spec_extract(&self) -> Seq<KeyPartView> {
        (**self).spec_extract()
    }

    fn extract(&self) -> (r: Vec<KeyPart>) {
        (**self).extract()
    }
}

/// A function argument that takes part in the cache key, under the name of
/// its parameter.
#[derive(Clone, Debug)]
pub struct Arg<T> {
    name: &'static str,
    value: T,
}

impl<T> Arg<T> {
    /// The parameter name.
    pub closed spec fn spec_name(self) -> Seq<char> {
        self.name@
    }

    /// The argument's value.
    pub closed spec fn spec_value(self) -> T {
        self.value
    }

    /// Create a new named argument that will be included in the cache key.
    pub fn new(name: &'static str, value: T) -> (r: Self)
        ensures
            r.spec_name() == name@,
            r.spec_value() == value,
    {
        Arg { name, value }
    }

    /// Get a reference to the inner value.
    pub fn value(&self) -> (r: &T)
        ensures
            *r == self.spec_value(),
    {
        &self.value
    }

    /// Unwrap and return the inner value.
    pub fn into_value(self) -> (r: T)
        ensures
            r == self.spec_value(),
    {
        self.value
    }
}

/// The parts of a named argument: a single part of the value is renamed to
/// the parameter name; several parts each get the parameter name and a dot
/// in front of their key.
pub open spec fn named_parts(name: Seq<char>, inner: Seq<KeyPartView>) -> Seq<KeyPartView> {
    if inner.len() == 1 {
        seq![(name, inner[0].1)]
    } else {
        inner.map_values(|p: KeyPartView| (name + "."@ + p.0, p.1))
    }
}

impl<T: KeyExtract> KeyExtract for Arg<T> {
    open spec fn spec_extract(&self) -> Seq<KeyPartView> {
        named_parts(self.spec_name(), self.spec_value().spec_extract())
    }

    fn extract(&self) -> (r: Vec<KeyPart>) {
        let inner = self.value.extract();
        let ghost inner_view = parts_view(inner@);
        if inner.len() == 1 {
            let mut inner = inner;
            let first = inner.remove(0);
            let mut parts = Vec::new();
            parts.push(first.with_key(self.name));
            assert(parts_view(parts@) =~= named_parts(self.spec_name(), inner_view));
            parts
        } else {
            let mut parts: Vec<KeyPart> = Vec::new();
            let mut rest = inner;
            let ghost target = named_parts(self.spec_name(), inner_view);
            let mut i: usize = 0;
            let n = rest.len();
            while i < n
                invariant
                    n == inner_view.len(),
                    n != 1,
                    i <= n,
                    target == named_parts(self.spec_name(), inner_view),
                    parts_view(rest@) == inner_view.skip(i as int),
                    rest@.len() == n - i,
                    parts_view(parts@) =~= target.take(i as int),
                decreases n - i,
            {
                let ghost rest_before = rest@;
                assert(rest_before[0]@ == parts_view(rest_before)[0]);
                let part = rest.remove(0);
                assert(part@ == inner_view[i as int]);
                assert(rest@ == rest_before.remove(0));
                assert(parts_view(rest@) =~= parts_view(rest_before).skip(1));
                assert(inner_view.skip(i as int).skip(1) =~= inner_view.skip(i + 1));
                assert(parts_view(rest@) =~= inner_view.skip(i + 1));
                let ghost before = parts@;
                parts.push(part.prefixed(self.name));
                assert(parts_view(parts@) =~= parts_view(before).push(target[i as int]));
                assert(parts_view(parts@) =~= target.take(i + 1));
                i = i + 1;
            }
            assert(target.take(n as int) =~= target);
            parts
        }
    }
}

/// A function argument left out of the cache key.
#[derive(Clone, Debug)]
pub struct Skipped<T> {
    value: T,
}

impl<T> Skipped<T> {
    /// The argument's value.
    pub closed spec fn spec_value(self) -> T {
        self.value
    }

    /// Create a new skipped argument that will be excluded from the cache key.
    pub fn new(value: T) -> (r: Self)
        ensures
            r.spec_value() == value,
    {
        Skipped { value }
    }

    /// Get a reference to the inner value.
    pub fn value(&self) -> (r: &T)
        ensures
            *r == self.spec_value(),
    {
        &self.value
    }

    /// Unwrap and return the inner value.
    pub fn into_value(self) -> (r: T)
        ensures
            r == self.spec_value(),
    {
        self.value
    }
}

impl<T> KeyExtract for Skipped<T> {
    open spec fn spec_extract(&self) -> Seq<KeyPartView> {
        Seq::empty()
    }

    fn extract(&self) -> (r: Vec<KeyPart>) {
        let parts: Vec<KeyPart> = Vec::new();
        assert(parts_view(parts@) =~= Seq::<KeyPartView>::empty());
        parts
    }
}

/// The arguments of a call, as a tuple.
#[derive(Clone, Debug)]
pub struct Args<T>(pub T);

impl<T> Args<T> {
    /// Create a new Args wrapper.
    pub fn new(inner: T) -> (r: Self)
        ensures
            r.0 == inner,
    {
        Args(inner)
    }

    /// Unwrap and return the inner value.
    pub fn into_inner(self) -> (r: T)
        ensures
            r == self.0,
    {
        self.0
    }
}

/// Appends parts to a list, tracking the views.
fn append_parts(parts: &mut Vec<KeyPart>, more: Vec<KeyPart>)
    ensures
        parts_view(final(parts)@) == parts_view(old(parts)@) + parts_view(more@),
{
    let mut more = more;
    let ghost a = old(parts)@;
    let ghost b = more@;
    parts.append(&mut more);
    assert(parts_view(parts@) =~= parts_view(a) + parts_view(b));
}

impl KeyExtract for Args<()> {
    open spec fn spec_extract(&self) -> Seq<KeyPartView> {
        Seq::empty()
    }

    fn extract(&self) -> (r: Vec<KeyPart>) {
        let parts: Vec<KeyPart> = Vec::new();
        assert(parts_view(parts@) =~= Seq::<KeyPartView>::empty());
        parts
    }
}

impl<T0: KeyExtract> KeyExtract for Args<(T0,)> {
    open spec fn spec_extract(&self) -> Seq<KeyPartView> {
        self.0.0.spec_extract()
    }

    fn extract(&self) -> (r: Vec<KeyPart>) {
        let mut parts = self.0.0.extract();
        parts
    }
}

impl<T0: KeyExtract, T1: KeyExtract> KeyExtract for Args<(T0, T1)> {
    open spec fn spec_extract(&self) -> Seq<KeyPartView> {
        self.0.0.spec_extract() + self.0.1.spec_extract()
    }

    fn extract(&self) -> (r: Vec<KeyPart>) {
        let mut parts = self.0.0.extract();
        append_parts(&mut parts, self.0.1.extract());
        parts
    }
}

impl<T0: KeyExtract, T1: KeyExtract, T2: KeyExtract> KeyExtract for Args<(T0, T1, T2)> {
    open spec fn spec_extract(&self) -> Seq<KeyPartView> {
        self.0.0.spec_extract() + self.0.1.spec_extract() + self.0.2.spec_extract()
    }

    fn extract(&self) -> (r: Vec<KeyPart>) {
        let mut parts = self.0.0.extract();
        append_parts(&mut parts, self.0.1.extract());
        append_parts(&mut parts, self.0.2.extract());
        parts
    }
}

impl<T0: KeyExtract, T1: KeyExtract, T2: KeyExtract, T3: KeyExtract> KeyExtract for Args<(T0, T1, T2, T3)> {
    open spec fn spec_extract(&self) -> Seq<KeyPartView> {
        self.0.0.spec_extract() + self.0.1.spec_extract() + self.0.2.spec_extract() + self.0.3.spec_extract()
    }

    fn extract(&self) -> (r: Vec<KeyPart>) {
        let mut parts = self.0.0.extract();
        append_parts(&mut parts, self.0.1.extract());
        append_parts(&mut parts, self.0.2.extract());
        append_parts(&mut parts, self.0.3.extract());
        parts
    }
}

impl<T0: KeyExtract, T1: KeyExtract, T2: KeyExtract, T3: KeyExtract, T4: KeyExtract> KeyExtract for Args<(T0, T1, T2, T3, T4)> {
    open spec fn spec_extract(&self) -> Seq<KeyPartView> {
        self.0.0.spec_extract() + self.0.1.spec_extract() + self.0.2.spec_extract() + self.0.3.spec_extract() + self.0.4.spec_extract()
    }

    fn extract(&self) -> (r: Vec<KeyPart>) {
        let mut parts = self.0.0.extract();
        append_parts(&mut parts, self.0.1.extract());
        append_parts(&mut parts, self.0.2.extract());
        append_parts(&mut parts, self.0.3.extract());
        append_parts(&mut parts, self.0.4.extract());
        parts
    }
}

impl<T0: KeyExtract, T1: KeyExtract, T2: KeyExtract, T3: KeyExtract, T4: KeyExtract, T5: KeyExtract> KeyExtract for Args<(T0, T1, T2, T3, T4, T5)> {
    open spec fn spec_extract(&self) -> Seq<KeyPartView> {
        self.0.0.spec_extract() + self.0.1.spec_extract() + self.0.2.spec_extract() + self.0.3.spec_extract() + self.0.4.spec_extract() + self.0.5.spec_extract()
    }

    fn extract(&self) -> (r: Vec<KeyPart>) {
        let mut parts = self.0.0.extract();
        append_parts(&mut parts, self.0.1.extract());
        append_parts(&mut parts, self.0.2.extract());
        append_parts(&mut parts, self.0.3.extract());
        append_parts(&mut parts, self.0.4.extract());
        append_parts(&mut parts, self.0.5.extract());
        parts
    }
}

impl<T0: KeyExtract, T1: KeyExtract, T2: KeyExtract, T3: KeyExtract, T4: KeyExtract, T5: KeyExtract, T6: KeyExtract> KeyExtract for Args<(T0, T1, T2, T3, T4, T5, T6)> {
    open spec fn spec_extract(&self) -> Seq<KeyPartView> {
        self.0.0.spec_extract() + self.0.1.spec_extract() + self.0.2.spec_extract() + self.0.3.spec_extract() + self.0.4.spec_extract() + self.0.5.spec_extract() + self.0.6.spec_extract()
    }

    fn extract(&self) -> (r: Vec<KeyPart>) {
        let mut parts = self.0.0.extract();
        append_parts(&mut parts, self.0.1.extract());
        append_parts(&mut parts, self.0.2.extract());
        append_parts(&mut parts, self.0.3.extract());
        append_parts(&mut parts, self.0.4.extract());
        append_parts(&mut parts, self.0.5.extract());
        append_parts(&mut parts, self.0.6.extract());
        parts
    }
}

impl<T0: KeyExtract, T1: KeyExtract, T2: KeyExtract, T3: KeyExtract, T4: KeyExtract, T5: KeyExtract, T6: KeyExtract, T7: KeyExtract> KeyExtract for Args<(T0, T1, T2, T3, T4, T5, T6, T7)> {
    open spec fn spec_extract(&self) -> Seq<KeyPartView> {
        self.0.0.spec_extract() + self.0.1.spec_extract() + self.0.2.spec_extract() + self.0.3.spec_extract() + self.0.4.spec_extract() + self.0.5.spec_extract() + self.0.6.spec_extract() + self.0.7.spec_extract()
    }

    fn extract(&self) -> (r: Vec<KeyPart>) {
        let mut parts = self.0.0.extract();
        append_parts(&mut parts, self.0.1.extract());
        append_parts(&mut parts, self.0.2.extract());
        append_parts(&mut parts, self.0.3.extract());
        append_parts(&mut parts, self.0.4.extract());
        append_parts(&mut parts, self.0.5.extract());
        append_parts(&mut parts, self.0.6.extract());
        append_parts(&mut parts, self.0.7.extract());
        parts
    }
}

impl<T0: KeyExtract, T1: KeyExtract, T2: KeyExtract, T3: KeyExtract, T4: KeyExtract, T5: KeyExtract, T6: KeyExtract, T7: KeyExtract, T8: KeyExtract> KeyExtract for Args<(T0, T1, T2, T3, T4, T5, T6, T7, T8)> {
    open spec fn spec_extract(&self) -> Seq<KeyPartView> {
        self.0.0.spec_extract() + self.0.1.spec_extract() + self.0.2.spec_extract() + self.0.3.spec_extract() + self.0.4.spec_extract() + self.0.5.spec_extract() + self.0.6.spec_extract() + self.0.7.spec_extract() + self.0.8.spec_extract()
    }

    fn extract(&self) -> (r: Vec<KeyPart>) {
        let mut parts = self.0.0.extract();
        append_parts(&mut parts, self.0.1.extract());
        append_parts(&mut parts, self.0.2.extract());
        append_parts(&mut parts, self.0.3.extract());
        append_parts(&mut parts, self.0.4.extract());
        append_parts(&mut parts, self.0.5.extract());
        append_parts(&mut parts, self.0.6.extract());
        append_parts(&mut parts, self.0.7.extract());
        append_parts(&mut parts, self.0.8.extract());
        parts
    }
}

impl<T0: KeyExtract, T1: KeyExtract, T2: KeyExtract, T3: KeyExtract, T4: KeyExtract, T5: KeyExtract, T6: KeyExtract, T7: KeyExtract, T8: KeyExtract, T9: KeyExtract> KeyExtract for Args<(T0, T1, T2, T3, T4, T5, T6, T7, T8, T9)> {
    open spec fn spec_extract(&self) -> Seq<KeyPartView> {
        self.0.0.spec_extract() + self.0.1.spec_extract() + self.0.2.spec_extract() + self.0.3.spec_extract() + self.0.4.spec_extract() + self.0.5.spec_extract() + self.0.6.spec_extract() + self.0.7.spec_extract() + self.0.8.spec_extract() + self.0.9.spec_extract()
    }

    fn extract(&self) -> (r: Vec<KeyPart>) {
        let mut parts = self.0.0.extract();
        append_parts(&mut parts, self.0.1.extract());
        append_parts(&mut parts, self.0.2.extract());
        append_parts(&mut parts, self.0.3.extract());
        append_parts(&mut parts, self.0.4.extract());
        append_parts(&mut parts, self.0.5.extract());
        append_parts(&mut parts, self.0.6.extract());
        append_parts(&mut parts, self.0.7.extract());
        append_parts(&mut parts, self.0.8.extract());
        append_parts(&mut parts, self.0.9.extract());
        parts
    }
}

impl<T0: KeyExtract, T1: KeyExtract, T2: KeyExtract, T3: KeyExtract, T4: KeyExtract, T5: KeyExtract, T6: KeyExtract, T7: KeyExtract, T8: KeyExtract, T9: KeyExtract, T10: KeyExtract> KeyExtract for Args<(T0, T1, T2, T3, T4, T5, T6, T7, T8, T9, T10)> {
    open spec fn spec_extract(&self) -> Seq<KeyPartView> {
        self.0.0.spec_extract() + self.0.1.spec_extract() + self.0.2.spec_extract() + self.0.3.spec_extract() + self.0.4.spec_extract() + self.0.5.spec_extract() + self.0.6.spec_extract() + self.0.7.spec_extract() + self.0.8.spec_extract() + self.0.9.spec_extract() + self.0.10.spec_extract()
    }

    fn extract(&self) -> (r: Vec<KeyPart>) {
        let mut parts = self.0.0.extract();
        append_parts(&mut parts, self.0.1.extract());
        append_parts(&mut parts, self.0.2.extract());
        append_parts(&mut parts, self.0.3.extract());
        append_parts(&mut parts, self.0.4.extract());
        append_parts(&mut parts, self.0.5.extract());
        append_parts(&mut parts, self.0.6.extract());
        append_parts(&mut parts, self.0.7.extract());
        append_parts(&mut parts, self.0.8.extract());
        append_parts(&mut parts, self.0.9.extract());
        append_parts(&mut parts, self.0.10.extract());
        parts
    }
}

impl<T0: KeyExtract, T1: KeyExtract, T2: KeyExtract, T3: KeyExtract, T4: KeyExtract, T5: KeyExtract, T6: KeyExtract, T7: KeyExtract, T8: KeyExtract, T9: KeyExtract, T10: KeyExtract, T11: KeyExtract> KeyExtract for Args<(T0, T1, T2, T3, T4, T5, T6, T7, T8, T9, T10, T11)> {
    open spec fn spec_extract(&self) -> Seq<KeyPartView> {
        self.0.0.spec_extract() + self.0.1.spec_extract() + self.0.2.spec_extract() + self.0.3.spec_extract() + self.0.4.spec_extract() + self.0.5.spec_extract() + self.0.6.spec_extract() + self.0.7.spec_extract() + self.0.8.spec_extract() + self.0.9.spec_extract() + self.0.10.spec_extract() + self.0.11.spec_extract()
    }

    fn extract(&self) -> (r: Vec<KeyPart>) {
        let mut parts = self.0.0.extract();
        append_parts(&mut parts, self.0.1.extract());
        append_parts(&mut parts, self.0.2.extract());
        append_parts(&mut parts, self.0.3.extract());
        append_parts(&mut parts, self.0.4.extract());
        append_parts(&mut parts, self.0.5.extract());
        append_parts(&mut parts, self.0.6.extract());
        append_parts(&mut parts, self.0.7.extract());
        append_parts(&mut parts, self.0.8.extract());
        append_parts(&mut parts, self.0.9.extract());
        append_parts(&mut parts, self.0.10.extract());
        append_parts(&mut parts, self.0.11.extract());
        parts
    }
}

/// Keys a call by the path of the function and the parts of its arguments:
/// the first part is `fn=<path>`, then come the arguments' parts.
pub struct FnExtractor<T> {
    fn_path: &'static str,
    _marker: core::marker::PhantomData<T>,
}

impl<T> FnExtractor<T> {
    /// The function path.
    pub closed spec fn spec_fn_path(self) -> Seq<char> {
        self.fn_path@
    }

    /// Create a new function extractor with the given function path, which
    /// keeps keys of different functions apart.
    pub fn new(fn_path: &'static str) -> (r: Self)
        ensures
            r.spec_fn_path() == fn_path@,
    {
        FnExtractor { fn_path, _marker: core::marker::PhantomData }
    }
}

impl<T: KeyExtract> Extractor for FnExtractor<T> {
    type Subject = T;

    open spec fn spec_get(&self, subject: T) -> (T, Seq<KeyPartView>) {
        (subject, seq![("fn"@, Some(self.spec_fn_path()))] + subject.spec_extract())
    }

    fn get(&self, subject: T) -> (r: KeyParts<T>) {
        let extracted = subject.extract();
        let mut parts = KeyParts::new(subject);
        parts.push(KeyPart::new("fn", Some(self.fn_path)));
        let mut rest = extracted;
        parts.append(&mut rest);
        assert(parts.spec_parts() =~= seq![("fn"@, Some(self.spec_fn_path()))]
            + subject.spec_extract());
        parts
    }
}

/// Something that answers a request, such as a service or a function.
pub trait Upstream<Req> {
    /// The response type.
    type Response;
    /// The future that yields the response.
    type Future: core::future::Future<Output = Self::Response> + Send;

    /// Whether `call` may be made with this request.
    spec fn spec_accepts(&self, req: Req) -> bool;

    /// Sends the request.
    fn call(self, req: Req) -> Self::Future
        requires
            self.spec_accepts(req),
    ;
}

/// Adapts an async function to the [`Upstream`] trait.
pub struct FnUpstream<F> {
    func: F,
}

impl<F> FnUpstream<F> {
    /// The function wrapped.
    pub closed spec fn spec_func(self) -> F {
        self.func
    }

    /// Create a new function upstream wrapper.
    pub fn new(func: F) -> (r: Self)
        ensures
            r.spec_func() == func,
    {
        FnUpstream { func }
    }
}

impl<F: FnOnce(Req) -> Fut, Req, Fut: core::future::Future<Output = Res> + Send, Res> Upstream<
    Req,
> for FnUpstream<F> {
    type Response = Res;

    type Future = Fut;

    open spec fn spec_accepts(&self, req: Req) -> bool {
        self.spec_func().requires((req,))
    }

    fn call(self, req: Req) -> (r: Fut)
        ensures
            self.spec_func().ensures((req,), r),
    {
        let f = self.func;
        f(req)
    }
}

/// The key of a named argument whose value gives one part is the parameter
/// name; the value of that part is kept.
pub proof fn lemma_single_part_named(name: Seq<char>, inner: Seq<KeyPartView>)
    requires
        inner.len() == 1,
    ensures
        named_parts(name, inner) == seq![(name, inner[0].1)],
{
}

/// A named argument keeps what its value contributes: as many parts, in the
/// same order, with the same values; only the keys change, each becoming
/// the parameter name, or the name and a dot in front of the part's key when
/// the value gives several parts.
pub proof fn lemma_named_parts_keep_values<T: KeyExtract>(a: Arg<T>)
    ensures
        a.spec_extract().len() == a.spec_value().spec_extract().len(),
        forall|i: int|
            0 <= i < a.spec_extract().len() ==> (#[trigger] a.spec_extract()[i]).1
                == a.spec_value().spec_extract()[i].1 && a.spec_extract()[i].0.take(
                a.spec_name().len() as int,
            ) == a.spec_name() && (a.spec_value().spec_extract().len() != 1 ==> a.spec_extract()[i].0
                == a.spec_name() + "."@ + a.spec_value().spec_extract()[i].0),
{
    let name = a.spec_name();
    let inner = a.spec_value().spec_extract();
    if inner.len() == 1 {
        assert(name.take(name.len() as int) =~= name);
    } else {
        assert forall|i: int| 0 <= i < a.spec_extract().len() implies (
        #[trigger] a.spec_extract()[i]).0.take(name.len() as int) == name by {
            assert((name + "."@ + inner[i].0).take(name.len() as int) =~= name);
        }
    }
}

/// A skipped argument contributes nothing to the key: the arguments of a
/// call key it as they would without that argument.
pub proof fn lemma_skipped_contributes_nothing<T>(s: Skipped<T>)
    ensures
        s.spec_extract() == Seq::<KeyPartView>::empty(),
{
}

/// The key parts of a call's arguments are the parts of each argument, in
/// order: for the arguments `x0, .., xn-1`, the concatenation of the parts of
/// `x0` through those of `xn-1`. A call without arguments has no parts.
pub proof fn lemma_no_args_parts(a: Args<()>)
    ensures
        a.spec_extract() == Seq::<Seq<KeyPartView>>::empty().flatten(),
{
}

/// The key parts of 1 argument: the parts of each, in order (see
/// [`lemma_no_args_parts`]); the parts of the last argument come after those
/// of the arguments before it.
pub proof fn lemma_one_arg_parts<T0: KeyExtract>(a: Args<(T0,)>)
    ensures
        a.spec_extract() == seq![a.0.0.spec_extract()].flatten(),
{
    let parts = seq![a.0.0.spec_extract()];
    assert(parts.drop_last() =~= Seq::<Seq<KeyPartView>>::empty());
    assert(Seq::<KeyPartView>::empty() + a.0.0.spec_extract() =~= a.0.0.spec_extract());
    assert(parts.drop_last().flatten_alt() == Seq::<KeyPartView>::empty());
    assert(parts.last() == a.0.0.spec_extract());
    parts.lemma_flatten_and_flatten_alt_are_equivalent();
}

/// The key parts of 2 arguments: the parts of each, in order (see
/// [`lemma_no_args_parts`]); the parts of the last argument come after those
/// of the arguments before it.
pub proof fn lemma_two_args_parts<T0: KeyExtract, T1: KeyExtract>(a: Args<(T0, T1)>)
    ensures
        a.spec_extract() == seq![a.0.0.spec_extract(), a.0.1.spec_extract()].flatten(),
        a.spec_extract() == Args((a.0.0,)).spec_extract() + a.0.1.spec_extract(),
{
    let parts = seq![a.0.0.spec_extract(), a.0.1.spec_extract()];
    let before = Args((a.0.0,));
    lemma_one_arg_parts(before);
    let before_parts = seq![a.0.0.spec_extract()];
    assert(parts.drop_last() =~= before_parts);
    before_parts.lemma_flatten_and_flatten_alt_are_equivalent();
    assert(parts.last() == a.0.1.spec_extract());
    parts.lemma_flatten_and_flatten_alt_are_equivalent();
}

/// The key parts of 3 arguments: the parts of each, in order (see
/// [`lemma_no_args_parts`]); the parts of the last argument come after those
/// of the arguments before it.
pub proof fn lemma_three_args_parts<
    T0: KeyExtract,
    T1: KeyExtract,
    T2: KeyExtract,
>(a: Args<(T0, T1, T2)>)
    ensures
        a.spec_extract() == seq![
            a.0.0.spec_extract(),
            a.0.1.spec_extract(),
            a.0.2.spec_extract(),
        ].flatten(),
        a.spec_extract() == Args((a.0.0, a.0.1)).spec_extract() + a.0.2.spec_extract(),
{
    let parts = seq![a.0.0.spec_extract(), a.0.1.spec_extract(), a.0.2.spec_extract()];
    let before = Args((a.0.0, a.0.1));
    lemma_two_args_parts(before);
    let before_parts = seq![a.0.0.spec_extract(), a.0.1.spec_extract()];
    assert(parts.drop_last() =~= before_parts);
    before_parts.lemma_flatten_and_flatten_alt_are_equivalent();
    assert(parts.last() == a.0.2.spec_extract());
    parts.lemma_flatten_and_flatten_alt_are_equivalent();
}

/// The key parts of 4 arguments: the parts of each, in order (see
/// [`lemma_no_args_parts`]); the parts of the last argument come after those
/// of the arguments before it.
pub proof fn lemma_four_args_parts<
    T0: KeyExtract,
    T1: KeyExtract,
    T2: KeyExtract,
    T3: KeyExtract,
>(a: Args<(T0, T1, T2, T3)>)
    ensures
        a.spec_extract() == seq![
            a.0.0.spec_extract(),
            a.0.1.spec_extract(),
            a.0.2.spec_extract(),
            a.0.3.spec_extract(),
        ].flatten(),
        a.spec_extract() == Args((a.0.0, a.0.1, a.0.2)).spec_extract() + a.0.3.spec_extract(),
{
    let parts = seq![
        a.0.0.spec_extract(),
        a.0.1.spec_extract(),
        a.0.2.spec_extract(),
        a.0.3.spec_extract(),
    ];
    let before = Args((a.0.0, a.0.1, a.0.2));
    lemma_three_args_parts(before);
    let before_parts = seq![a.0.0.spec_extract(), a.0.1.spec_extract(), a.0.2.spec_extract()];
    assert(parts.drop_last() =~= before_parts);
    before_parts.lemma_flatten_and_flatten_alt_are_equivalent();
    assert(parts.last() == a.0.3.spec_extract());
    parts.lemma_flatten_and_flatten_alt_are_equivalent();
}

/// The key parts of 5 arguments: the parts of each, in order (see
/// [`lemma_no_args_parts`]); the parts of the last argument come after those
/// of the arguments before it.
pub proof fn lemma_five_args_parts<
    T0: KeyExtract,
    T1: KeyExtract,
    T2: KeyExtract,
    T3: KeyExtract,
    T4: KeyExtract,
>(a: Args<(T0, T1, T2, T3, T4)>)
    ensures
        a.spec_extract() == seq![
            a.0.0.spec_extract(),
            a.0.1.spec_extract(),
            a.0.2.spec_extract(),
            a.0.3.spec_extract(),
            a.0.4.spec_extract(),
        ].flatten(),
        a.spec_extract() == Args((a.0.0, a.0.1, a.0.2, a.0.3)).spec_extract() + a.0.4.spec_extract(),
{
    let parts = seq![
        a.0.0.spec_extract(),
        a.0.1.spec_extract(),
        a.0.2.spec_extract(),
        a.0.3.spec_extract(),
        a.0.4.spec_extract(),
    ];
    let before = Args((a.0.0, a.0.1, a.0.2, a.0.3));
    lemma_four_args_parts(before);
    let before_parts = seq![
        a.0.0.spec_extract(),
        a.0.1.spec_extract(),
        a.0.2.spec_extract(),
        a.0.3.spec_extract(),
    ];
    assert(parts.drop_last() =~= before_parts);
    before_parts.lemma_flatten_and_flatten_alt_are_equivalent();
    assert(parts.last() == a.0.4.spec_extract());
    parts.lemma_flatten_and_flatten_alt_are_equivalent();
}

/// The key parts of 6 arguments: the parts of each, in order (see
/// [`lemma_no_args_parts`]); the parts of the last argument come after those
/// of the arguments before it.
pub proof fn lemma_six_args_parts<
    T0: KeyExtract,
    T1: KeyExtract,
    T2: KeyExtract,
    T3: KeyExtract,
    T4: KeyExtract,
    T5: KeyExtract,
>(a: Args<(T0, T1, T2, T3, T4, T5)>)
    ensures
        a.spec_extract() == seq![
            a.0.0.spec_extract(),
            a.0.1.spec_extract(),
            a.0.2.spec_extract(),
            a.0.3.spec_extract(),
            a.0.4.spec_extract(),
            a.0.5.spec_extract(),
        ].flatten(),
        a.spec_extract() == Args((a.0.0, a.0.1, a.0.2, a.0.3, a.0.4)).spec_extract() + a.0.5.spec_extract(),
{
    let parts = seq![
        a.0.0.spec_extract(),
        a.0.1.spec_extract(),
        a.0.2.spec_extract(),
        a.0.3.spec_extract(),
        a.0.4.spec_extract(),
        a.0.5.spec_extract(),
    ];
    let before = Args((a.0.0, a.0.1, a.0.2, a.0.3, a.0.4));
    lemma_five_args_parts(before);
    let before_parts = seq![
        a.0.0.spec_extract(),
        a.0.1.spec_extract(),
        a.0.2.spec_extract(),
        a.0.3.spec_extract(),
        a.0.4.spec_extract(),
    ];
    assert(parts.drop_last() =~= before_parts);
    before_parts.lemma_flatten_and_flatten_alt_are_equivalent();
    assert(parts.last() == a.0.5.spec_extract());
    parts.lemma_flatten_and_flatten_alt_are_equivalent();
}

/// The key parts of 7 arguments: the parts of each, in order (see
/// [`lemma_no_args_parts`]); the parts of the last argument come after those
/// of the arguments before it.
pub proof fn lemma_seven_args_parts<
    T0: KeyExtract,
    T1: KeyExtract,
    T2: KeyExtract,
    T3: KeyExtract,
    T4: KeyExtract,
    T5: KeyExtract,
    T6: KeyExtract,
>(a: Args<(T0, T1, T2, T3, T4, T5, T6)>)
    ensures
        a.spec_extract() == seq![
            a.0.0.spec_extract(),
            a.0.1.spec_extract(),
            a.0.2.spec_extract(),
            a.0.3.spec_extract(),
            a.0.4.spec_extract(),
            a.0.5.spec_extract(),
            a.0.6.spec_extract(),
        ].flatten(),
        a.spec_extract() == Args((a.0.0, a.0.1, a.0.2, a.0.3, a.0.4, a.0.5)).spec_extract() + a.0.6.spec_extract(),
{
    let parts = seq![
        a.0.0.spec_extract(),
        a.0.1.spec_extract(),
        a.0.2.spec_extract(),
        a.0.3.spec_extract(),
        a.0.4.spec_extract(),
        a.0.5.spec_extract(),
        a.0.6.spec_extract(),
    ];
    let before = Args((a.0.0, a.0.1, a.0.2, a.0.3, a.0.4, a.0.5));
    lemma_six_args_parts(before);
    let before_parts = seq![
        a.0.0.spec_extract(),
        a.0.1.spec_extract(),
        a.0.2.spec_extract(),
        a.0.3.spec_extract(),
        a.0.4.spec_extract(),
        a.0.5.spec_extract(),
    ];
    assert(parts.drop_last() =~= before_parts);
    before_parts.lemma_flatten_and_flatten_alt_are_equivalent();
    assert(parts.last() == a.0.6.spec_extract());
    parts.lemma_flatten_and_flatten_alt_are_equivalent();
}

/// The key parts of 8 arguments: the parts of each, in order (see
/// [`lemma_no_args_parts`]); the parts of the last argument come after those
/// of the arguments before it.
pub proof fn lemma_eight_args_parts<
    T0: KeyExtract,
    T1: KeyExtract,
    T2: KeyExtract,
    T3: KeyExtract,
    T4: KeyExtract,
    T5: KeyExtract,
    T6: KeyExtract,
    T7: KeyExtract,
>(a: Args<(T0, T1, T2, T3, T4, T5, T6, T7)>)
    ensures
        a.spec_extract() == seq![
            a.0.0.spec_extract(),
            a.0.1.spec_extract(),
            a.0.2.spec_extract(),
            a.0.3.spec_extract(),
            a.0.4.spec_extract(),
            a.0.5.spec_extract(),
            a.0.6.spec_extract(),
            a.0.7.spec_extract(),
        ].flatten(),
        a.spec_extract() == Args((a.0.0, a.0.1, a.0.2, a.0.3, a.0.4, a.0.5, a.0.6)).spec_extract() + a.0.7.spec_extract(),
{
    let parts = seq![
        a.0.0.spec_extract(),
        a.0.1.spec_extract(),
        a.0.2.spec_extract(),
        a.0.3.spec_extract(),
        a.0.4.spec_extract(),
        a.0.5.spec_extract(),
        a.0.6.spec_extract(),
        a.0.7.spec_extract(),
    ];
    let before = Args((a.0.0, a.0.1, a.0.2, a.0.3, a.0.4, a.0.5, a.0.6));
    lemma_seven_args_parts(before);
    let before_parts = seq![
        a.0.0.spec_extract(),
        a.0.1.spec_extract(),
        a.0.2.spec_extract(),
        a.0.3.spec_extract(),
        a.0.4.spec_extract(),
        a.0.5.spec_extract(),
        a.0.6.spec_extract(),
    ];
    assert(parts.drop_last() =~= before_parts);
    before_parts.lemma_flatten_and_flatten_alt_are_equivalent();
    assert(parts.last() == a.0.7.spec_extract());
    parts.lemma_flatten_and_flatten_alt_are_equivalent();
}

/// The key parts of 9 arguments: the parts of each, in order (see
/// [`lemma_no_args_parts`]); the parts of the last argument come after those
/// of the arguments before it.
pub proof fn lemma_nine_args_parts<
    T0: KeyExtract,
    T1: KeyExtract,
    T2: KeyExtract,
    T3: KeyExtract,
    T4: KeyExtract,
    T5: KeyExtract,
    T6: KeyExtract,
    T7: KeyExtract,
    T8: KeyExtract,
>(a: Args<(T0, T1, T2, T3, T4, T5, T6, T7, T8)>)
    ensures
        a.spec_extract() == seq![
            a.0.0.spec_extract(),
            a.0.1.spec_extract(),
            a.0.2.spec_extract(),
            a.0.3.spec_extract(),
            a.0.4.spec_extract(),
            a.0.5.spec_extract(),
            a.0.6.spec_extract(),
            a.0.7.spec_extract(),
            a.0.8.spec_extract(),
        ].flatten(),
        a.spec_extract() == Args((a.0.0, a.0.1, a.0.2, a.0.3, a.0.4, a.0.5, a.0.6, a.0.7)).spec_extract() + a.0.8.spec_extract(),
{
    let parts = seq![
        a.0.0.spec_extract(),
        a.0.1.spec_extract(),
        a.0.2.spec_extract(),
        a.0.3.spec_extract(),
        a.0.4.spec_extract(),
        a.0.5.spec_extract(),
        a.0.6.spec_extract(),
        a.0.7.spec_extract(),
        a.0.8.spec_extract(),
    ];
    let before = Args((a.0.0, a.0.1, a.0.2, a.0.3, a.0.4, a.0.5, a.0.6, a.0.7));
    lemma_eight_args_parts(before);
    let before_parts = seq![
        a.0.0.spec_extract(),
        a.0.1.spec_extract(),
        a.0.2.spec_extract(),
        a.0.3.spec_extract(),
        a.0.4.spec_extract(),
        a.0.5.spec_extract(),
        a.0.6.spec_extract(),
        a.0.7.spec_extract(),
    ];
    assert(parts.drop_last() =~= before_parts);
    before_parts.lemma_flatten_and_flatten_alt_are_equivalent();
    assert(parts.last() == a.0.8.spec_extract());
    parts.lemma_flatten_and_flatten_alt_are_equivalent();
}

/// The key parts of 10 arguments: the parts of each, in order (see
/// [`lemma_no_args_parts`]); the parts of the last argument come after those
/// of the arguments before it.
pub proof fn lemma_ten_args_parts<
    T0: KeyExtract,
    T1: KeyExtract,
    T2: KeyExtract,
    T3: KeyExtract,
    T4: KeyExtract,
    T5: KeyExtract,
    T6: KeyExtract,
    T7: KeyExtract,
    T8: KeyExtract,
    T9: KeyExtract,
>(a: Args<(T0, T1, T2, T3, T4, T5, T6, T7, T8, T9)>)
    ensures
        a.spec_extract() == seq![
            a.0.0.spec_extract(),
            a.0.1.spec_extract(),
            a.0.2.spec_extract(),
            a.0.3.spec_extract(),
            a.0.4.spec_extract(),
            a.0.5.spec_extract(),
            a.0.6.spec_extract(),
            a.0.7.spec_extract(),
            a.0.8.spec_extract(),
            a.0.9.spec_extract(),
        ].flatten(),
        a.spec_extract() == Args((a.0.0, a.0.1, a.0.2, a.0.3, a.0.4, a.0.5, a.0.6, a.0.7, a.0.8)).spec_extract() + a.0.9.spec_extract(),
{
    let parts = seq![
        a.0.0.spec_extract(),
        a.0.1.spec_extract(),
        a.0.2.spec_extract(),
        a.0.3.spec_extract(),
        a.0.4.spec_extract(),
        a.0.5.spec_extract(),
        a.0.6.spec_extract(),
        a.0.7.spec_extract(),
        a.0.8.spec_extract(),
        a.0.9.spec_extract(),
    ];
    let before = Args((a.0.0, a.0.1, a.0.2, a.0.3, a.0.4, a.0.5, a.0.6, a.0.7, a.0.8));
    lemma_nine_args_parts(before);
    let before_parts = seq![
        a.0.0.spec_extract(),
        a.0.1.spec_extract(),
        a.0.2.spec_extract(),
        a.0.3.spec_extract(),
        a.0.4.spec_extract(),
        a.0.5.spec_extract(),
        a.0.6.spec_extract(),
        a.0.7.spec_extract(),
        a.0.8.spec_extract(),
    ];
    assert(parts.drop_last() =~= before_parts);
    before_parts.lemma_flatten_and_flatten_alt_are_equivalent();
    assert(parts.last() == a.0.9.spec_extract());
    parts.lemma_flatten_and_flatten_alt_are_equivalent();
}

/// The key parts of 11 arguments: the parts of each, in order (see
/// [`lemma_no_args_parts`]); the parts of the last argument come after those
/// of the arguments before it.
pub proof fn lemma_eleven_args_parts<
    T0: KeyExtract,
    T1: KeyExtract,
    T2: KeyExtract,
    T3: KeyExtract,
    T4: KeyExtract,
    T5: KeyExtract,
    T6: KeyExtract,
    T7: KeyExtract,
    T8: KeyExtract,
    T9: KeyExtract,
    T10: KeyExtract,
>(a: Args<(T0, T1, T2, T3, T4, T5, T6, T7, T8, T9, T10)>)
    ensures
        a.spec_extract() == seq![
            a.0.0.spec_extract(),
            a.0.1.spec_extract(),
            a.0.2.spec_extract(),
            a.0.3.spec_extract(),
            a.0.4.spec_extract(),
            a.0.5.spec_extract(),
            a.0.6.spec_extract(),
            a.0.7.spec_extract(),
            a.0.8.spec_extract(),
            a.0.9.spec_extract(),
            a.0.10.spec_extract(),
        ].flatten(),
        a.spec_extract() == Args((a.0.0, a.0.1, a.0.2, a.0.3, a.0.4, a.0.5, a.0.6, a.0.7, a.0.8, a.0.9)).spec_extract() + a.0.10.spec_extract(),
{
    let parts = seq![
        a.0.0.spec_extract(),
        a.0.1.spec_extract(),
        a.0.2.spec_extract(),
        a.0.3.spec_extract(),
        a.0.4.spec_extract(),
        a.0.5.spec_extract(),
        a.0.6.spec_extract(),
        a.0.7.spec_extract(),
        a.0.8.spec_extract(),
        a.0.9.spec_extract(),
        a.0.10.spec_extract(),
    ];
    let before = Args((a.0.0, a.0.1, a.0.2, a.0.3, a.0.4, a.0.5, a.0.6, a.0.7, a.0.8, a.0.9));
    lemma_ten_args_parts(before);
    let before_parts = seq![
        a.0.0.spec_extract(),
        a.0.1.spec_extract(),
        a.0.2.spec_extract(),
        a.0.3.spec_extract(),
        a.0.4.spec_extract(),
        a.0.5.spec_extract(),
        a.0.6.spec_extract(),
        a.0.7.spec_extract(),
        a.0.8.spec_extract(),
        a.0.9.spec_extract(),
    ];
    assert(parts.drop_last() =~= before_parts);
    before_parts.lemma_flatten_and_flatten_alt_are_equivalent();
    assert(parts.last() == a.0.10.spec_extract());
    parts.lemma_flatten_and_flatten_alt_are_equivalent();
}

/// The key parts of 12 arguments: the parts of each, in order (see
/// [`lemma_no_args_parts`]); the parts of the last argument come after those
/// of the arguments before it.
pub proof fn lemma_twelve_args_parts<
    T0: KeyExtract,
    T1: KeyExtract,
    T2: KeyExtract,
    T3: KeyExtract,
    T4: KeyExtract,
    T5: KeyExtract,
    T6: KeyExtract,
    T7: KeyExtract,
    T8: KeyExtract,
    T9: KeyExtract,
    T10: KeyExtract,
    T11: KeyExtract,
>(a: Args<(T0, T1, T2, T3, T4, T5, T6, T7, T8, T9, T10, T11)>)
    ensures
        a.spec_extract() == seq![
            a.0.0.spec_extract(),
            a.0.1.spec_extract(),
            a.0.2.spec_extract(),
            a.0.3.spec_extract(),
            a.0.4.spec_extract(),
            a.0.5.spec_extract(),
            a.0.6.spec_extract(),
            a.0.7.spec_extract(),
            a.0.8.spec_extract(),
            a.0.9.spec_extract(),
            a.0.10.spec_extract(),
            a.0.11.spec_extract(),
        ].flatten(),
        a.spec_extract() == Args((a.0.0, a.0.1, a.0.2, a.0.3, a.0.4, a.0.5, a.0.6, a.0.7, a.0.8, a.0.9, a.0.10)).spec_extract() + a.0.11.spec_extract(),
{
    let parts = seq![
        a.0.0.spec_extract(),
        a.0.1.spec_extract(),
        a.0.2.spec_extract(),
        a.0.3.spec_extract(),
        a.0.4.spec_extract(),
        a.0.5.spec_extract(),
        a.0.6.spec_extract(),
        a.0.7.spec_extract(),
        a.0.8.spec_extract(),
        a.0.9.spec_extract(),
        a.0.10.spec_extract(),
        a.0.11.spec_extract(),
    ];
    let before = Args((a.0.0, a.0.1, a.0.2, a.0.3, a.0.4, a.0.5, a.0.6, a.0.7, a.0.8, a.0.9, a.0.10));
    lemma_eleven_args_parts(before);
    let before_parts = seq![
        a.0.0.spec_extract(),
        a.0.1.spec_extract(),
        a.0.2.spec_extract(),
        a.0.3.spec_extract(),
        a.0.4.spec_extract(),
        a.0.5.spec_extract(),
        a.0.6.spec_extract(),
        a.0.7.spec_extract(),
        a.0.8.spec_extract(),
        a.0.9.spec_extract(),
        a.0.10.spec_extract(),
    ];
    assert(parts.drop_last() =~= before_parts);
    before_parts.lemma_flatten_and_flatten_alt_are_equivalent();
    assert(parts.last() == a.0.11.spec_extract());
    parts.lemma_flatten_and_flatten_alt_are_equivalent();
}

} // verus!
