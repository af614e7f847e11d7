//! The decisions behind the attribute and derive macros for cached
//! functions and key extraction, taken on plain values: which container
//! attributes are accepted, which parameters a skip list may name, how each
//! argument is wrapped, what the generated items are called, which key part
//! each struct field gives.

use crate::decimal::{decimal, push_decimal, spec_parse_u32, parse_u32};
use vstd::prelude::*;

verus! {

/// The name of the container attribute for the time-to-live.
pub const CACHE_TTL: &'static str = "cache_ttl";

/// The name of the container attribute for the stale time-to-live.
pub const CACHE_STALE_TTL: &'static str = "cache_stale_ttl";

/// The name of the container attribute for the key version.
pub const CACHE_VERSION: &'static str = "cache_version";

/// The value given to a container attribute.
#[derive(Debug, Clone)]
pub enum AttrValue {
    /// An integer literal, given by its decimal digits (without underscores
    /// or suffix).
    Int(String),
    /// Any other expression.
    Other,
}

/// One item of a `#[hitbox(...)]` container attribute: its path, written
/// without spaces, and its value when it is written `path = value`.
#[derive(Debug, Clone)]
pub struct ContainerAttr {
    pub path: String,
    pub value: Option<AttrValue>,
}

/// Why a container attribute was refused.
#[derive(Debug, Clone, PartialEq, Eq)]
pub enum ContainerError {
    /// The attribute's value is not an integer literal.
    NotU32 { attr: String },
    /// The integer literal does not fit in a `u32`.
    OutOfRange { attr: String },
    /// The attribute is not one of the known ones (or has no value).
    Unknown { path: String },
}

/// Container-level settings of a derived request type.
#[derive(Debug, Clone, PartialEq, Eq, Structural)]
pub struct Container {
    pub cache_ttl: Option<u32>,
    pub cache_stale_ttl: Option<u32>,
    pub cache_version: Option<u32>,
}

/// Which setting an attribute path names: 0 for the time-to-live, 1 for the
/// stale time-to-live, 2 for the version, 3 for none of them.
pub open spec fn attr_slot(path: Seq<char>) -> int {
    if path == CACHE_TTL@ {
        0
    } else if path == CACHE_STALE_TTL@ {
        1
    } else if path == CACHE_VERSION@ {
        2
    } else {
        3
    }
}

/// The number an attribute value gives, if it is an integer literal that
/// fits in a `u32`.
pub open spec fn attr_number(value: AttrValue) -> Option<u32> {
    match value {
        AttrValue::Int(digits) => spec_parse_u32(digits@),
        AttrValue::Other => None,
    }
}

/// The settings that container attributes give, read in order (a later
/// attribute overrides an earlier one), or the first refusal.
pub open spec fn spec_container(items: Seq<ContainerAttr>) -> Result<Container, ContainerError>
    decreases items.len(),
{
    if items.len() == 0 {
        Ok(Container { cache_ttl: None, cache_stale_ttl: None, cache_version: None })
    } else {
        match spec_container(items.drop_last()) {
            Err(e) => Err(e),
            Ok(c) => {
                let item = items.last();
                let slot = attr_slot(item.path@);
                if slot == 3 || item.value is None {
                    Err(ContainerError::Unknown { path: item.path })
                } else {
                    match item.value->0 {
                        AttrValue::Other => Err(ContainerError::NotU32 { attr: item.path }),
                        AttrValue::Int(digits) => match spec_parse_u32(digits@) {
                            None => Err(ContainerError::OutOfRange { attr: item.path }),
                            Some(n) => Ok(
                                if slot == 0 {
                                    Container { cache_ttl: Some(n), ..c }
                                } else if slot == 1 {
                                    Container { cache_stale_ttl: Some(n), ..c }
                                } else {
                                    Container { cache_version: Some(n), ..c }
                                },
                            ),
                        },
                    }
                }
            },
        }
    }
}

/// Whether two container results agree: the same settings, or the same kind
/// of refusal naming the same text.
pub open spec fn same_container_result(
    a: Result<Container, ContainerError>,
    b: Result<Container, ContainerError>,
) -> bool {
    match (a, b) {
        (Ok(x), Ok(y)) => x == y,
        (Err(ContainerError::NotU32 { attr: x }), Err(ContainerError::NotU32 { attr: y })) => x@
            == y@,
        (
            Err(ContainerError::OutOfRange { attr: x }),
            Err(ContainerError::OutOfRange { attr: y }),
        ) => x@ == y@,
        (Err(ContainerError::Unknown { path: x }), Err(ContainerError::Unknown { path: y })) => x@
            == y@,
        _ => false,
    }
}

impl Container {
    /// Reads the settings from the items of `#[hitbox(...)]` attributes, in
    /// order: `cache_ttl`, `cache_stale_ttl` and `cache_version`, each with
    /// an integer literal that fits in a `u32`; anything else is refused.
    pub fn from_attrs(items: &[ContainerAttr]) -> (r: Result<Container, ContainerError>)
        ensures
            same_container_result(r, spec_container(items@)),
    {
        let mut c = Container { cache_ttl: None, cache_stale_ttl: None, cache_version: None };
        let mut i: usize = 0;
        while i < items.len()
            invariant
                i <= items@.len(),
                spec_container(items@.take(i as int)) == Ok::<Container, ContainerError>(c),
            decreases items.len() - i,
        {
            assert(items@.take(i + 1).drop_last() =~= items@.take(i as int));
            let item = &items[i];
            let path = item.path.as_str();
            let slot: u8 = if text_eq(path, CACHE_TTL) {
                0
            } else if text_eq(path, CACHE_STALE_TTL) {
                1
            } else if text_eq(path, CACHE_VERSION) {
                2
            } else {
                3
            };
            assert(slot == attr_slot(item.path@));
            match &item.value {
                None => {
                    proof {
                        lemma_container_error_sticks(items@, i as int + 1);
                    }
                    return Err(ContainerError::Unknown { path: item.path.clone() });
                },
                Some(value) => {
                    if slot == 3 {
                        proof {
                            lemma_container_error_sticks(items@, i as int + 1);
                        }
                        return Err(ContainerError::Unknown { path: item.path.clone() });
                    }
                    match value {
                        AttrValue::Other => {
                            proof {
                                lemma_container_error_sticks(items@, i as int + 1);
                            }
                            return Err(ContainerError::NotU32 { attr: item.path.clone() });
                        },
                        AttrValue::Int(digits) => match parse_u32(digits.as_str()) {
                            None => {
                                proof {
                                    lemma_container_error_sticks(items@, i as int + 1);
                                }
                                return Err(ContainerError::OutOfRange { attr: item.path.clone() });
                            },
                            Some(n) => {
                                if slot == 0 {
                                    c.cache_ttl = Some(n);
                                } else if slot == 1 {
                                    c.cache_stale_ttl = Some(n);
                                } else {
                                    c.cache_version = Some(n);
                                }
                            },
                        },
                    }
                },
            }
            i = i + 1;
        }
        assert(items@.take(i as int) =~= items@);
        Ok(c)
    }
}

/// Once the attributes read so far are refused, reading more keeps the
/// refusal.
proof fn lemma_container_error_sticks(items: Seq<ContainerAttr>, i: int)
    requires
        0 <= i <= items.len(),
        spec_container(items.take(i)) is Err,
    ensures
        spec_container(items) == spec_container(items.take(i)),
    decreases items.len() - i,
{
    if i < items.len() {
        assert(items.take(i + 1).drop_last() =~= items.take(i));
        lemma_container_error_sticks(items, i + 1);
    } else {
        assert(items.take(i) =~= items);
    }
}

/// Whether two texts are equal.
pub fn text_eq(a: &str, b: &str) -> (r: bool)
    ensures
        r == (a@ == b@),
{
    a.to_owned() == b.to_owned()
}

/// The cache key prefix of a cached function: the custom prefix when one is
/// given, else the function's name.
pub fn fn_path(prefix: &Option<String>, name: &str) -> (r: String)
    ensures
        r@ == (match prefix {
            Some(p) => p@,
            None => name@,
        }),
{
    match prefix {
        Some(p) => p.clone(),
        None => name.to_owned(),
    }
}

/// The names joined with `", "`.
pub open spec fn joined(names: Seq<Seq<char>>) -> Seq<char>
    decreases names.len(),
{
    if names.len() == 0 {
        Seq::empty()
    } else if names.len() == 1 {
        names[0]
    } else {
        joined(names.drop_last()) + ", "@ + names.last()
    }
}

/// The views of a list of strings.
pub open spec fn names_view(names: Seq<String>) -> Seq<Seq<char>> {
    names.map_values(|s: String| s@)
}

/// A skip list that names a parameter the function does not have.
#[derive(Debug, Clone)]
pub struct UnknownSkip {
    /// The first name in the skip list that is not a parameter.
    pub unknown: String,
    /// The parameter names, joined with `", "`.
    pub available: String,
}

/// Checks that every name in the skip list is a parameter of the function;
/// otherwise reports the first name that is not, with the parameter names.
pub fn validate_skip_list(params: &Vec<String>, skip: &Vec<String>) -> (r: Result<(), UnknownSkip>)
    ensures
        r is Ok <==> (forall|j: int|
            0 <= j < skip@.len() ==> names_view(params@).contains(#[trigger] skip@[j]@)),
        r matches Err(e) ==> (exists|j: int|
            0 <= j < skip@.len() && e.unknown@ == skip@[j]@ && !names_view(params@).contains(
                skip@[j]@,
            ) && (forall|k: int| 0 <= k < j ==> names_view(params@).contains(#[trigger] skip@[k]@)))
            && e.available@ == joined(names_view(params@)),
{
    let mut j: usize = 0;
    while j < skip.len()
        invariant
            j <= skip@.len(),
            forall|k: int| 0 <= k < j ==> names_view(params@).contains(#[trigger] skip@[k]@),
        decreases skip.len() - j,
    {
        if !contains_name(params, skip[j].as_str()) {
            return Err(UnknownSkip { unknown: skip[j].clone(), available: join_names(params) });
        }
        j = j + 1;
    }
    Ok(())
}

/// Whether `name` is among `names`.
pub fn contains_name(names: &Vec<String>, name: &str) -> (r: bool)
    ensures
        r == names_view(names@).contains(name@),
{
    let mut i: usize = 0;
    while i < names.len()
        invariant
            i <= names@.len(),
            forall|k: int| 0 <= k < i ==> #[trigger] names@[k]@ != name@,
        decreases names.len() - i,
    {
        if text_eq(names[i].as_str(), name) {
            assert(names_view(names@)[i as int] == name@);
            return true;
        }
        i = i + 1;
    }
    assert(!names_view(names@).contains(name@)) by {
        if names_view(names@).contains(name@) {
            let k = choose|k: int| 0 <= k < names_view(names@).len() && names_view(names@)[k]
                == name@;
            assert(names@[k]@ == name@);
        }
    }
    false
}

/// The names joined with `", "`.
pub fn join_names(names: &Vec<String>) -> (r: String)
    ensures
        r@ == joined(names_view(names@)),
{
    let ghost views = names_view(names@);
    let mut out = String::new();
    let mut i: usize = 0;
    while i < names.len()
        invariant
            i <= names@.len(),
            views == names_view(names@),
            out@ == joined(views.take(i as int)),
        decreases names.len() - i,
    {
        assert(views.take(i + 1).drop_last() =~= views.take(i as int));
        if i > 0 {
            out.append(", ");
        }
        out.append(names[i].as_str());
        assert(out@ =~= joined(views.take(i + 1)));
        i = i + 1;
    }
    assert(views.take(i as int) =~= views);
    out
}

/// How an argument of a cached function enters the argument tuple.
#[derive(Debug, Clone)]
pub enum ArgWrapper {
    /// Wrapped in `Skipped`: left out of the cache key.
    Skipped,
    /// Wrapped in `Arg` under its parameter name: part of the cache key.
    Included(String),
}

/// Each parameter is wrapped as skipped when the skip list names it, and as
/// an included argument under its own name otherwise.
pub fn arg_wrappers(params: &Vec<String>, skip: &Vec<String>) -> (r: Vec<ArgWrapper>)
    ensures
        r@.len() == params@.len(),
        forall|i: int|
            0 <= i < params@.len() ==> (if names_view(skip@).contains(params@[i]@) {
                r@[i] is Skipped
            } else {
                r@[i] matches ArgWrapper::Included(n) && n@ == params@[i]@
            }),
{
    let mut out: Vec<ArgWrapper> = Vec::new();
    let mut i: usize = 0;
    while i < params.len()
        invariant
            i <= params@.len(),
            out@.len() == i,
            forall|k: int|
                0 <= k < i ==> (if names_view(skip@).contains(params@[k]@) {
                    out@[k] is Skipped
                } else {
                    out@[k] matches ArgWrapper::Included(n) && n@ == params@[k]@
                }),
        decreases params.len() - i,
    {
        if contains_name(skip, params[i].as_str()) {
            out.push(ArgWrapper::Skipped);
        } else {
            out.push(ArgWrapper::Included(params[i].clone()));
        }
        i = i + 1;
    }
    out
}

/// Which lifetime bounds the background tasks of a cached function.
#[derive(Debug, Clone, Copy, PartialEq, Eq, Structural)]
pub enum OffloadLifetime {
    /// `'static`: the function has no lifetime parameter.
    Static,
    /// The function's only lifetime parameter.
    Single,
    /// A synthetic lifetime bounded by all the function's lifetimes.
    Synthetic,
}

/// A function with two or more lifetime parameters needs a synthetic
/// lifetime that all of them outlive.
pub fn needs_synthetic_lifetime(lifetimes: usize) -> (r: bool)
    ensures
        r == (lifetimes >= 2),
{
    lifetimes >= 2
}

/// Whether the function has generic parameters of either kind.
pub fn has_generics(lifetimes: usize, type_params: usize) -> (r: bool)
    ensures
        r == (lifetimes > 0 || type_params > 0),
{
    lifetimes > 0 || type_params > 0
}

/// The lifetime that bounds background tasks: `'static` without lifetime
/// parameters, the one lifetime with one, a synthetic one with more.
pub fn offload_lifetime(lifetimes: usize) -> (r: OffloadLifetime)
    ensures
        lifetimes == 0 ==> r == OffloadLifetime::Static,
        lifetimes == 1 ==> r == OffloadLifetime::Single,
        lifetimes >= 2 ==> r == OffloadLifetime::Synthetic,
{
    if lifetimes == 0 {
        OffloadLifetime::Static
    } else if lifetimes == 1 {
        OffloadLifetime::Single
    } else {
        OffloadLifetime::Synthetic
    }
}

/// What `convert_case` makes of a text in `Case::Pascal`.
pub uninterp spec fn pascal_case(s: Seq<char>) -> Seq<char>;

/// Calls `convert_case::Casing::to_case(s, Case::Pascal)`: the text split
/// into words and written with each word capitalised and no separator.
#[verifier::external_body]
fn to_pascal_case(s: &str) -> (r: String)
    ensures
        r@ == pascal_case(s@),
{
    convert_case::Casing::to_case(&s, convert_case::Case::Pascal)
}

/// The names of the items generated for a cached function.
#[derive(Debug, Clone)]
pub struct GeneratedNames {
    pub impl_name: String,
    pub call_name: String,
    pub cached_call_name: String,
    pub execute_name: String,
    pub upstream_name: String,
    pub cache_future_name: String,
}

/// The names of the items generated for the function `name`, built from the
/// name itself and from its Pascal-case form `P`: `__{name}_impl`, `{P}Call`,
/// `{P}CallCached`, `__execute_cached_{name}`, `__{P}Upstream` and
/// `__{P}CacheFuture`.
pub open spec fn spec_names_from(name: Seq<char>, pascal: Seq<char>) -> (
    Seq<char>,
    Seq<char>,
    Seq<char>,
    Seq<char>,
    Seq<char>,
    Seq<char>,
) {
    (
        "__"@ + name + "_impl"@,
        pascal + "Call"@,
        pascal + "CallCached"@,
        "__execute_cached_"@ + name,
        "__"@ + pascal + "Upstream"@,
        "__"@ + pascal + "CacheFuture"@,
    )
}

/// The names of the generated items, given the function's name and its
/// Pascal-case form.
pub fn names_from(name: &str, pascal: &str) -> (r: GeneratedNames)
    ensures
        (r.impl_name@, r.call_name@, r.cached_call_name@, r.execute_name@, r.upstream_name@,
            r.cache_future_name@) == spec_names_from(name@, pascal@),
{
    let mut impl_name = "__".to_owned();
    impl_name.append(name);
    impl_name.append("_impl");
    let mut call_name = pascal.to_owned();
    call_name.append("Call");
    let mut cached_call_name = pascal.to_owned();
    cached_call_name.append("CallCached");
    let mut execute_name = "__execute_cached_".to_owned();
    execute_name.append(name);
    let mut upstream_name = "__".to_owned();
    upstream_name.append(pascal);
    upstream_name.append("Upstream");
    let mut cache_future_name = "__".to_owned();
    cache_future_name.append(pascal);
    cache_future_name.append("CacheFuture");
    GeneratedNames {
        impl_name,
        call_name,
        cached_call_name,
        execute_name,
        upstream_name,
        cache_future_name,
    }
}

/// The names of the items generated for the function `name`.
pub fn generated_names(name: &str) -> (r: GeneratedNames)
    ensures
        (r.impl_name@, r.call_name@, r.cached_call_name@, r.execute_name@, r.upstream_name@,
            r.cache_future_name@) == spec_names_from(name@, pascal_case(name@)),
{
    let pascal = to_pascal_case(name);
    names_from(name, pascal.as_str())
}

/// A struct field as the key-extraction derive sees it.
#[derive(Debug, Clone)]
pub struct FieldSpec {
    /// The field's name; `None` in a tuple struct.
    pub ident: Option<String>,
    /// The key name given with `#[key_extract(name = "...")]`.
    pub name: Option<String>,
    /// Whether the field is marked `#[key_extract(skip)]`.
    pub skip: bool,
}

/// The key name of a field: the name given in its attribute, else its own
/// name, else its position.
pub open spec fn spec_key_name(f: FieldSpec, index: nat) -> Seq<char> {
    match f.name {
        Some(n) => n@,
        None => match f.ident {
            Some(i) => i@,
            None => decimal(index),
        },
    }
}

/// The key name of a field at position `index`.
pub fn key_name(f: &FieldSpec, index: usize) -> (r: String)
    ensures
        r@ == spec_key_name(*f, index as nat),
{
    match &f.name {
        Some(n) => n.clone(),
        None => match &f.ident {
            Some(i) => i.clone(),
            None => {
                let mut s = String::new();
                push_decimal(&mut s, index as u128);
                assert(s@ =~= decimal(index as nat));
                s
            },
        },
    }
}

/// Which field a generated key part reads, and under what key.
#[derive(Debug, Clone)]
pub struct FieldKey {
    /// The field's position.
    pub index: usize,
    /// The key name of the part.
    pub key: String,
}

/// The fields that take part in the key, in order, each with its key name.
/// When none does, the key is the single part named after the struct (see
/// the key-extraction derive).
pub fn field_keys(fields: &Vec<FieldSpec>) -> (r: Vec<FieldKey>)
    ensures
        forall|k: int|
            0 <= k < r@.len() ==> {
                let i = #[trigger] r@[k].index as int;
                &&& 0 <= i < fields@.len()
                &&& !fields@[i].skip
                &&& r@[k].key@ == spec_key_name(fields@[i], i as nat)
            },
        forall|k1: int, k2: int|
            0 <= k1 < k2 < r@.len() ==> #[trigger] r@[k1].index < #[trigger] r@[k2].index,
        forall|i: int|
            0 <= i < fields@.len() && !fields@[i].skip ==> exists|k: int|
                0 <= k < r@.len() && #[trigger] r@[k].index == i,
{
    let mut out: Vec<FieldKey> = Vec::new();
    let mut i: usize = 0;
    while i < fields.len()
        invariant
            i <= fields@.len(),
            forall|k: int|
                0 <= k < out@.len() ==> {
                    let j = #[trigger] out@[k].index as int;
                    &&& 0 <= j < i
                    &&& !fields@[j].skip
                    &&& out@[k].key@ == spec_key_name(fields@[j], j as nat)
                },
            forall|k1: int, k2: int|
                0 <= k1 < k2 < out@.len() ==> #[trigger] out@[k1].index < #[trigger] out@[k2].index,
            forall|j: int|
                0 <= j < i && !fields@[j].skip ==> exists|k: int|
                    0 <= k < out@.len() && #[trigger] out@[k].index == j,
        decreases fields.len() - i,
    {
        if !fields[i].skip {
            let key = key_name(&fields[i], i);
            let ghost before = out@;
            out.push(FieldKey { index: i, key });
            assert(out@[out@.len() - 1].index == i);
            assert forall|j: int|
                0 <= j < i + 1 && !fields@[j].skip implies exists|k: int|
                    0 <= k < out@.len() && #[trigger] out@[k].index == j by {
                if j < i {
                    let k = choose|k: int| 0 <= k < before.len() && #[trigger] before[k].index == j;
                    assert(out@[k].index == j);
                } else {
                    assert(out@[out@.len() - 1].index == j);
                }
            }
        }
        i = i + 1;
    }
    out
}

/// What a derived key extraction emits: one part per field that is not
/// skipped, or, when every field is skipped (or there is none), the single
/// part named after the struct, without a value.
#[derive(Debug)]
pub enum KeyExtractPlan {
    /// One part per field that takes part in the key.
    Fields(Vec<FieldKey>),
    /// The single valueless part named after the struct.
    Whole(crate::key::KeyPart),
}

/// What the key-extraction derive emits for the struct `struct_name` with
/// these fields.
pub fn key_extract_plan(struct_name: &str, fields: &Vec<FieldSpec>) -> (r: KeyExtractPlan)
    ensures
        r is Whole <==> (forall|i: int| 0 <= i < fields@.len() ==> #[trigger] fields@[i].skip),
        r matches KeyExtractPlan::Whole(p) ==> p@ == (struct_name@, None::<Seq<char>>),
        r matches KeyExtractPlan::Fields(keys) ==> {
            &&& keys@.len() > 0
            &&& forall|k: int|
                0 <= k < keys@.len() ==> {
                    let i = #[trigger] keys@[k].index as int;
                    &&& 0 <= i < fields@.len()
                    &&& !fields@[i].skip
                    &&& keys@[k].key@ == spec_key_name(fields@[i], i as nat)
                }
            &&& forall|k1: int, k2: int|
                0 <= k1 < k2 < keys@.len() ==> #[trigger] keys@[k1].index < #[trigger] keys@[k2].index
            &&& forall|i: int|
                0 <= i < fields@.len() && !fields@[i].skip ==> exists|k: int|
                    0 <= k < keys@.len() && #[trigger] keys@[k].index == i
        },
{
    let keys = field_keys(fields);
    if keys.len() == 0 {
        proof {
            assert forall|i: int| 0 <= i < fields@.len() implies #[trigger] fields@[i].skip by {
                if !fields@[i].skip {
                    let k = choose|k: int| 0 <= k < keys@.len() && #[trigger] keys@[k].index == i;
                }
            }
        }
        KeyExtractPlan::Whole(crate::key::KeyPart::new(struct_name, None))
    } else {
        proof {
            let i = keys@[0].index as int;
            assert(!fields@[i].skip);
        }
        KeyExtractPlan::Fields(keys)
    }
}

/// Whether any field of a derived cacheable response is skipped.
pub fn has_skipped_fields(skips: &Vec<bool>) -> (r: bool)
    ensures
        r == (exists|i: int| 0 <= i < skips@.len() && skips@[i]),
{
    let mut i: usize = 0;
    while i < skips.len()
        invariant
            i <= skips@.len(),
            forall|k: int| 0 <= k < i ==> !skips@[k],
        decreases skips.len() - i,
    {
        if skips[i] {
            return true;
        }
        i = i + 1;
    }
    false
}

/// A parameter of a function marked for caching, as the signature shows it.
#[derive(Debug, Clone)]
pub enum ParamShape {
    /// `self`, `&self` or `&mut self`.
    Receiver,
    /// A parameter bound to a plain name.
    Named(String),
    /// A parameter bound by some other pattern, such as a tuple.
    Pattern,
}

/// Why a function cannot be cached.
#[derive(Debug, Clone)]
pub enum CachedFnError {
    /// The function is not `async`.
    NotAsync,
    /// The function is a method.
    SelfReceiver,
    /// A parameter is not bound to a plain name.
    NotIdentifier,
    /// The function returns nothing.
    NoReturnType,
    /// The skip list names a parameter the function does not have.
    UnknownSkip(UnknownSkip),
}

/// The parameter names of a signature, or the first shape that has none:
/// `Err(true)` for a receiver, `Err(false)` for a pattern.
pub open spec fn shape_names(shapes: Seq<ParamShape>) -> Result<Seq<Seq<char>>, bool>
    decreases shapes.len(),
{
    if shapes.len() == 0 {
        Ok(Seq::empty())
    } else {
        match shape_names(shapes.drop_last()) {
            Err(e) => Err(e),
            Ok(names) => match shapes.last() {
                ParamShape::Named(n) => Ok(names.push(n@)),
                ParamShape::Receiver => Err(true),
                ParamShape::Pattern => Err(false),
            },
        }
    }
}

/// What the cached-function macro generates for one function.
#[derive(Debug, Clone)]
pub struct CachedFnPlan {
    /// The names of the generated items.
    pub names: GeneratedNames,
    /// The parameter names, in order.
    pub params: Vec<String>,
    /// How each parameter enters the argument tuple.
    pub wrappers: Vec<ArgWrapper>,
    /// The lifetime that bounds background tasks.
    pub offload: OffloadLifetime,
    /// Whether the function has lifetime or type parameters.
    pub generic: bool,
}

/// Whether every name of `skip` is among `names`.
pub open spec fn all_named(names: Seq<Seq<char>>, skip: Seq<String>) -> bool {
    forall|j: int| 0 <= j < skip.len() ==> names.contains(#[trigger] skip[j]@)
}

/// Whether `e` reports the first name of `skip` that is not among `names`,
/// with the names joined by `", "`.
pub open spec fn is_unknown_skip(e: UnknownSkip, names: Seq<Seq<char>>, skip: Seq<String>) -> bool {
    &&& exists|j: int|
        0 <= j < skip.len() && e.unknown@ == skip[j]@ && !names.contains(skip[j]@) && (forall|k: int|
            0 <= k < j ==> names.contains(#[trigger] skip[k]@))
    &&& e.available@ == joined(names)
}

/// Checks the signature of a function marked for caching and plans what is
/// generated for it. The function must be `async`; then its parameters are
/// checked in order (a receiver or a pattern is refused); then the return
/// type; then the skip list, which may name parameters only.
pub fn plan_cached_fn(
    name: &str,
    is_async: bool,
    shapes: &Vec<ParamShape>,
    has_return_type: bool,
    lifetimes: usize,
    type_params: usize,
    skip: &Vec<String>,
) -> (r: Result<CachedFnPlan, CachedFnError>)
    ensures
        !is_async ==> r matches Err(CachedFnError::NotAsync),
        is_async && shape_names(shapes@) == Err::<Seq<Seq<char>>, bool>(true) ==> r matches Err(
            CachedFnError::SelfReceiver,
        ),
        is_async && shape_names(shapes@) == Err::<Seq<Seq<char>>, bool>(false) ==> r matches Err(
            CachedFnError::NotIdentifier,
        ),
        is_async && shape_names(shapes@) is Ok && !has_return_type ==> r matches Err(
            CachedFnError::NoReturnType,
        ),
        is_async && shape_names(shapes@) is Ok && has_return_type && !all_named(
            shape_names(shapes@)->Ok_0,
            skip@,
        ) ==> (r matches Err(CachedFnError::UnknownSkip(e)) && is_unknown_skip(
            e,
            shape_names(shapes@)->Ok_0,
            skip@,
        )),
        r is Ok <==> (is_async && shape_names(shapes@) is Ok && has_return_type && all_named(
            shape_names(shapes@)->Ok_0,
            skip@,
        )),
        r matches Ok(plan) ==> {
            &&& shape_names(shapes@) == Ok::<Seq<Seq<char>>, bool>(names_view(plan.params@))
            &&& (plan.names.impl_name@, plan.names.call_name@, plan.names.cached_call_name@,
                plan.names.execute_name@, plan.names.upstream_name@,
                plan.names.cache_future_name@) == spec_names_from(name@, pascal_case(name@))
            &&& plan.wrappers@.len() == plan.params@.len()
            &&& forall|i: int|
                0 <= i < plan.params@.len() ==> (if names_view(skip@).contains(plan.params@[i]@) {
                    plan.wrappers@[i] is Skipped
                } else {
                    plan.wrappers@[i] matches ArgWrapper::Included(n) && n@ == plan.params@[i]@
                })
            &&& (lifetimes == 0 ==> plan.offload == OffloadLifetime::Static)
            &&& (lifetimes == 1 ==> plan.offload == OffloadLifetime::Single)
            &&& (lifetimes >= 2 ==> plan.offload == OffloadLifetime::Synthetic)
            &&& plan.generic == (lifetimes > 0 || type_params > 0)
        },
{
    if !is_async {
        return Err(CachedFnError::NotAsync);
    }
    let mut params: Vec<String> = Vec::new();
    let mut i: usize = 0;
    proof {
        assert(shapes@.take(0) =~= Seq::<ParamShape>::empty());
        assert(names_view(params@) =~= Seq::<Seq<char>>::empty());
    }
    while i < shapes.len()
        invariant
            is_async,
            i <= shapes@.len(),
            shape_names(shapes@.take(i as int)) == Ok::<Seq<Seq<char>>, bool>(
                names_view(params@),
            ),
        decreases shapes.len() - i,
    {
        proof {
            lemma_shape_names_prefix(shapes@, i as int + 1);
            assert(shapes@.take(i + 1).drop_last() =~= shapes@.take(i as int));
        }
        match &shapes[i] {
            ParamShape::Named(n) => {
                let ghost before = params@;
                params.push(n.clone());
                assert(names_view(params@) =~= names_view(before).push(n@));
            },
            ParamShape::Receiver => {
                return Err(CachedFnError::SelfReceiver);
            },
            ParamShape::Pattern => {
                return Err(CachedFnError::NotIdentifier);
            },
        }
        i = i + 1;
    }
    assert(shapes@.take(i as int) =~= shapes@);
    if !has_return_type {
        return Err(CachedFnError::NoReturnType);
    }
    match validate_skip_list(&params, skip) {
        Err(e) => Err(CachedFnError::UnknownSkip(e)),
        Ok(()) => {
            let wrappers = arg_wrappers(&params, skip);
            Ok(
                CachedFnPlan {
                    names: generated_names(name),
                    params,
                    wrappers,
                    offload: offload_lifetime(lifetimes),
                    generic: has_generics(lifetimes, type_params),
                },
            )
        },
    }
}

/// Once a prefix of the parameters has no name, no longer prefix has one.
proof fn lemma_shape_names_prefix(shapes: Seq<ParamShape>, i: int)
    requires
        0 <= i <= shapes.len(),
    ensures
        shape_names(shapes.take(i)) is Err ==> shape_names(shapes) == shape_names(shapes.take(i)),
    decreases shapes.len() - i,
{
    if i < shapes.len() {
        lemma_shape_names_prefix(shapes, i + 1);
        assert(shapes.take(i + 1).drop_last() =~= shapes.take(i));
    } else {
        assert(shapes.take(i) =~= shapes);
    }
}

/// An entry of the skip list in `skip(..)`.
#[derive(Debug, Clone)]
pub enum SkipItem {
    /// A plain name.
    Name(String),
    /// Anything else.
    Other,
}

/// The value in `name = value`.
#[derive(Debug, Clone)]
pub enum AttrLit {
    /// A string literal.
    Str(String),
    /// Any other expression.
    Other,
}

/// An argument of the cached-function attribute.
#[derive(Debug, Clone)]
pub enum AttrArg {
    /// `name = value`.
    NameValue { name: String, value: AttrLit },
    /// `name(items)`.
    List { name: String, items: Vec<SkipItem> },
    /// A bare `name`.
    Word { name: String },
    /// A literal in place of an argument.
    Literal,
}

/// What is wrong with an attribute argument.
#[derive(Debug, Clone, Copy, PartialEq, Eq, Structural)]
pub enum AttrErrorKind {
    /// The name is neither `prefix` nor `skip`.
    UnknownField,
    /// The field was given before.
    DuplicateField,
    /// The field is given in a form it does not take.
    UnexpectedFormat,
    /// A skip entry is not a plain name.
    NotIdentifier,
    /// A literal stands in place of an argument.
    UnexpectedLiteral,
}

/// An attribute argument that could not be read, with the field it names
/// (empty for a literal).
#[derive(Debug, Clone)]
pub struct CachedAttrError {
    pub kind: AttrErrorKind,
    pub field: String,
}

/// The settings of the cached-function attribute: `prefix = "..."` and
/// `skip(a, b, ..)`, each at most once.
#[derive(Debug, Clone)]
pub struct CachedAttrs {
    /// The cache key prefix, when given.
    pub prefix: Option<String>,
    /// The parameters left out of the key.
    pub skip: Vec<String>,
}

/// The names of a skip list, or `None` when an entry is not a plain name.
pub open spec fn skip_names(items: Seq<SkipItem>) -> Option<Seq<Seq<char>>>
    decreases items.len(),
{
    if items.len() == 0 {
        Some(Seq::empty())
    } else {
        match skip_names(items.drop_last()) {
            None => None,
            Some(ns) => match items.last() {
                SkipItem::Name(n) => Some(ns.push(n@)),
                SkipItem::Other => None,
            },
        }
    }
}

/// The prefix and the skip list read from `args` so far, or the first
/// argument that cannot be read.
pub open spec fn spec_cached_attrs(args: Seq<AttrArg>) -> Result<
    (Option<Seq<char>>, Option<Seq<Seq<char>>>),
    (AttrErrorKind, Seq<char>),
>
    decreases args.len(),
{
    if args.len() == 0 {
        Ok((None, None))
    } else {
        match spec_cached_attrs(args.drop_last()) {
            Err(e) => Err(e),
            Ok((p, sk)) => match args.last() {
                AttrArg::Literal => Err((AttrErrorKind::UnexpectedLiteral, Seq::empty())),
                AttrArg::NameValue { name, value } => if name@ == "prefix"@ {
                    if p is Some {
                        Err((AttrErrorKind::DuplicateField, name@))
                    } else {
                        match value {
                            AttrLit::Str(v) => Ok((Some(v@), sk)),
                            AttrLit::Other => Err((AttrErrorKind::UnexpectedFormat, name@)),
                        }
                    }
                } else if name@ == "skip"@ {
                    if sk is Some {
                        Err((AttrErrorKind::DuplicateField, name@))
                    } else {
                        Err((AttrErrorKind::UnexpectedFormat, name@))
                    }
                } else {
                    Err((AttrErrorKind::UnknownField, name@))
                },
                AttrArg::List { name, items } => if name@ == "prefix"@ {
                    if p is Some {
                        Err((AttrErrorKind::DuplicateField, name@))
                    } else {
                        Err((AttrErrorKind::UnexpectedFormat, name@))
                    }
                } else if name@ == "skip"@ {
                    if sk is Some {
                        Err((AttrErrorKind::DuplicateField, name@))
                    } else {
                        match skip_names(items@) {
                            None => Err((AttrErrorKind::NotIdentifier, name@)),
                            Some(ns) => Ok((p, Some(ns))),
                        }
                    }
                } else {
                    Err((AttrErrorKind::UnknownField, name@))
                },
                AttrArg::Word { name } => if name@ == "prefix"@ {
                    if p is Some {
                        Err((AttrErrorKind::DuplicateField, name@))
                    } else {
                        Err((AttrErrorKind::UnexpectedFormat, name@))
                    }
                } else if name@ == "skip"@ {
                    if sk is Some {
                        Err((AttrErrorKind::DuplicateField, name@))
                    } else {
                        Err((AttrErrorKind::UnexpectedFormat, name@))
                    }
                } else {
                    Err((AttrErrorKind::UnknownField, name@))
                },
            },
        }
    }
}

/// The view of an optional string.
pub open spec fn opt_view(s: Option<String>) -> Option<Seq<char>> {
    match s {
        Some(v) => Some(v@),
        None => None,
    }
}

/// The names of a skip list, or `None` when an entry is not a plain name.
fn read_skip_list(items: &Vec<SkipItem>) -> (r: Option<Vec<String>>)
    ensures
        match skip_names(items@) {
            None => r is None,
            Some(ns) => r matches Some(v) && names_view(v@) == ns,
        },
{
    let mut out: Vec<String> = Vec::new();
    let mut i: usize = 0;
    proof {
        assert(items@.take(0) =~= Seq::<SkipItem>::empty());
        assert(names_view(out@) =~= Seq::<Seq<char>>::empty());
    }
    while i < items.len()
        invariant
            i <= items@.len(),
            skip_names(items@.take(i as int)) == Some(names_view(out@)),
        decreases items.len() - i,
    {
        proof {
            assert(items@.take(i + 1).drop_last() =~= items@.take(i as int));
            lemma_skip_names_prefix(items@, i + 1);
        }
        match &items[i] {
            SkipItem::Name(n) => {
                let ghost before = out@;
                out.push(n.clone());
                assert(names_view(out@) =~= names_view(before).push(n@));
            },
            SkipItem::Other => {
                return None;
            },
        }
        i = i + 1;
    }
    assert(items@.take(i as int) =~= items@);
    Some(out)
}

/// Once a prefix of a skip list has an entry that is not a name, the whole
/// list has.
proof fn lemma_skip_names_prefix(items: Seq<SkipItem>, i: int)
    requires
        0 <= i <= items.len(),
    ensures
        skip_names(items.take(i)) is None ==> skip_names(items) is None,
    decreases items.len() - i,
{
    if i < items.len() {
        lemma_skip_names_prefix(items, i + 1);
        assert(items.take(i + 1).drop_last() =~= items.take(i));
    } else {
        assert(items.take(i) =~= items);
    }
}

/// Once the arguments read so far have failed, all of them fail the same way.
proof fn lemma_cached_attrs_prefix(args: Seq<AttrArg>, i: int)
    requires
        0 <= i <= args.len(),
    ensures
        spec_cached_attrs(args.take(i)) is Err ==> spec_cached_attrs(args) == spec_cached_attrs(
            args.take(i),
        ),
    decreases args.len() - i,
{
    if i < args.len() {
        lemma_cached_attrs_prefix(args, i + 1);
        assert(args.take(i + 1).drop_last() =~= args.take(i));
    } else {
        assert(args.take(i) =~= args);
    }
}

/// Reads the arguments of the cached-function attribute: `prefix = "..."`
/// and `skip(a, b, ..)`, each at most once, in any order. The first
/// argument that cannot be read is reported.
pub fn parse_cached_attrs(args: &Vec<AttrArg>) -> (r: Result<CachedAttrs, CachedAttrError>)
    ensures
        match spec_cached_attrs(args@) {
            Ok((p, sk)) => r matches Ok(a) && opt_view(a.prefix) == p && names_view(a.skip@) == (
            match sk {
                Some(ns) => ns,
                None => Seq::<Seq<char>>::empty(),
            }),
            Err((kind, field)) => r matches Err(e) && e.kind == kind && e.field@ == field,
        },
{
    let mut prefix: Option<String> = None;
    let mut skip: Option<Vec<String>> = None;
    let mut i: usize = 0;
    proof {
        assert(args@.take(0) =~= Seq::<AttrArg>::empty());
    }
    while i < args.len()
        invariant
            i <= args@.len(),
            spec_cached_attrs(args@.take(i as int)) == Ok::<
                (Option<Seq<char>>, Option<Seq<Seq<char>>>),
                (AttrErrorKind, Seq<char>),
            >(
                (
                    opt_view(prefix),
                    match skip {
                        Some(v) => Some(names_view(v@)),
                        None => None,
                    },
                ),
            ),
        decreases args.len() - i,
    {
        proof {
            assert(args@.take(i + 1).drop_last() =~= args@.take(i as int));
            lemma_cached_attrs_prefix(args@, i + 1);
            reveal_strlit("prefix");
            reveal_strlit("skip");
        }
        match &args[i] {
            AttrArg::Literal => {
                proof {
                    reveal_strlit("");
                }
                return Err(
                    CachedAttrError { kind: AttrErrorKind::UnexpectedLiteral, field: "".to_owned() },
                );
            },
            AttrArg::NameValue { name, value } => {
                if text_eq(name.as_str(), "prefix") {
                    if prefix.is_some() {
                        return Err(
                            CachedAttrError {
                                kind: AttrErrorKind::DuplicateField,
                                field: name.clone(),
                            },
                        );
                    }
                    match value {
                        AttrLit::Str(v) => {
                            prefix = Some(v.clone());
                        },
                        AttrLit::Other => {
                            return Err(
                                CachedAttrError {
                                    kind: AttrErrorKind::UnexpectedFormat,
                                    field: name.clone(),
                                },
                            );
                        },
                    }
                } else if text_eq(name.as_str(), "skip") {
                    let kind = if skip.is_some() {
                        AttrErrorKind::DuplicateField
                    } else {
                        AttrErrorKind::UnexpectedFormat
                    };
                    return Err(CachedAttrError { kind, field: name.clone() });
                } else {
                    return Err(
                        CachedAttrError { kind: AttrErrorKind::UnknownField, field: name.clone() },
                    );
                }
            },
            AttrArg::List { name, items } => {
                if text_eq(name.as_str(), "prefix") {
                    let kind = if prefix.is_some() {
                        AttrErrorKind::DuplicateField
                    } else {
                        AttrErrorKind::UnexpectedFormat
                    };
                    return Err(CachedAttrError { kind, field: name.clone() });
                } else if text_eq(name.as_str(), "skip") {
                    if skip.is_some() {
                        return Err(
                            CachedAttrError {
                                kind: AttrErrorKind::DuplicateField,
                                field: name.clone(),
                            },
                        );
                    }
                    match read_skip_list(items) {
                        Some(v) => {
                            skip = Some(v);
                        },
                        None => {
                            return Err(
                                CachedAttrError {
                                    kind: AttrErrorKind::NotIdentifier,
                                    field: name.clone(),
                                },
                            );
                        },
                    }
                } else {
                    return Err(
                        CachedAttrError { kind: AttrErrorKind::UnknownField, field: name.clone() },
                    );
                }
            },
            AttrArg::Word { name } => {
                if text_eq(name.as_str(), "prefix") {
                    let kind = if prefix.is_some() {
                        AttrErrorKind::DuplicateField
                    } else {
                        AttrErrorKind::UnexpectedFormat
                    };
                    return Err(CachedAttrError { kind, field: name.clone() });
                } else if text_eq(name.as_str(), "skip") {
                    let kind = if skip.is_some() {
                        AttrErrorKind::DuplicateField
                    } else {
                        AttrErrorKind::UnexpectedFormat
                    };
                    return Err(CachedAttrError { kind, field: name.clone() });
                } else {
                    return Err(
                        CachedAttrError { kind: AttrErrorKind::UnknownField, field: name.clone() },
                    );
                }
            },
        }
        i = i + 1;
    }
    assert(args@.take(i as int) =~= args@);
    let skip_list = match skip {
        Some(v) => v,
        None => {
            let v: Vec<String> = Vec::new();
            assert(names_view(v@) =~= Seq::<Seq<char>>::empty());
            v
        },
    };
    Ok(CachedAttrs { prefix, skip: skip_list })
}

/// Why a function cannot be cached: its attribute, or its signature.
#[derive(Debug, Clone)]
pub enum CachedError {
    /// An attribute argument could not be read.
    Attr(CachedAttrError),
    /// The signature or the skip list is refused.
    Fn(CachedFnError),
}

/// Whether `e` reports the first name of `skip` that is not among `names`,
/// with the names joined by `", "`.
pub open spec fn is_unknown_skip_name(
    e: UnknownSkip,
    names: Seq<Seq<char>>,
    skip: Seq<Seq<char>>,
) -> bool {
    &&& exists|j: int|
        0 <= j < skip.len() && e.unknown@ == skip[j] && !names.contains(skip[j]) && (forall|k: int|
            0 <= k < j ==> names.contains(#[trigger] skip[k]))
    &&& e.available@ == joined(names)
}

/// The skip list read from the attribute arguments, empty when none is given.
pub open spec fn attr_skip(args: Seq<AttrArg>) -> Seq<Seq<char>> {
    match spec_cached_attrs(args) {
        Ok((_, Some(ns))) => ns,
        _ => Seq::empty(),
    }
}

/// Reads the attribute of a function marked for caching and plans the
/// function: the attribute first, then the signature as
/// [`plan_cached_fn`] checks it, with the skip list the attribute gives.
/// The plan is made exactly when the attribute reads, the function is
/// `async`, every parameter is a plain name, it returns a value and every
/// skipped name is a parameter.
pub fn plan_cached(
    args: &Vec<AttrArg>,
    name: &str,
    is_async: bool,
    shapes: &Vec<ParamShape>,
    has_return_type: bool,
    lifetimes: usize,
    type_params: usize,
) -> (r: Result<(CachedAttrs, CachedFnPlan), CachedError>)
    ensures
        spec_cached_attrs(args@) matches Err((kind, field)) ==> (r matches Err(
            CachedError::Attr(e),
        ) && e.kind == kind && e.field@ == field),
        spec_cached_attrs(args@) is Ok && !is_async ==> r matches Err(
            CachedError::Fn(CachedFnError::NotAsync),
        ),
        spec_cached_attrs(args@) is Ok && is_async && shape_names(shapes@) == Err::<
            Seq<Seq<char>>,
            bool,
        >(true) ==> r matches Err(CachedError::Fn(CachedFnError::SelfReceiver)),
        spec_cached_attrs(args@) is Ok && is_async && shape_names(shapes@) == Err::<
            Seq<Seq<char>>,
            bool,
        >(false) ==> r matches Err(CachedError::Fn(CachedFnError::NotIdentifier)),
        spec_cached_attrs(args@) is Ok && is_async && shape_names(shapes@) is Ok
            && !has_return_type ==> r matches Err(CachedError::Fn(CachedFnError::NoReturnType)),
        spec_cached_attrs(args@) is Ok && is_async && shape_names(shapes@) is Ok && has_return_type
            && !(forall|j: int|
            0 <= j < attr_skip(args@).len() ==> shape_names(shapes@)->Ok_0.contains(
                #[trigger] attr_skip(args@)[j],
            )) ==> (r matches Err(CachedError::Fn(CachedFnError::UnknownSkip(e))) && is_unknown_skip_name(
            e,
            shape_names(shapes@)->Ok_0,
            attr_skip(args@),
        )),
        r is Ok <==> {
            &&& spec_cached_attrs(args@) is Ok
            &&& is_async
            &&& shape_names(shapes@) is Ok
            &&& has_return_type
            &&& forall|j: int|
                0 <= j < attr_skip(args@).len() ==> shape_names(shapes@)->Ok_0.contains(
                    #[trigger] attr_skip(args@)[j],
                )
        },
        r matches Ok((a, plan)) ==> {
            &&& spec_cached_attrs(args@) matches Ok((p, _)) && opt_view(a.prefix) == p
            &&& names_view(a.skip@) == attr_skip(args@)
            &&& shape_names(shapes@) == Ok::<Seq<Seq<char>>, bool>(names_view(plan.params@))
            &&& (plan.names.impl_name@, plan.names.call_name@, plan.names.cached_call_name@,
                plan.names.execute_name@, plan.names.upstream_name@,
                plan.names.cache_future_name@) == spec_names_from(name@, pascal_case(name@))
        },
{
    let attrs = match parse_cached_attrs(args) {
        Ok(a) => a,
        Err(e) => {
            return Err(CachedError::Attr(e));
        },
    };
    let ghost skip_view = names_view(attrs.skip@);
    assert(skip_view == attr_skip(args@));
    match plan_cached_fn(name, is_async, shapes, has_return_type, lifetimes, type_params, &attrs.skip) {
        Ok(plan) => {
            proof {
                assert forall|j: int| 0 <= j < attr_skip(args@).len() implies shape_names(
                    shapes@,
                )->Ok_0.contains(#[trigger] attr_skip(args@)[j]) by {
                    assert(attr_skip(args@)[j] == attrs.skip@[j]@);
                }
            }
            Ok((attrs, plan))
        },
        Err(e) => {
            proof {
                if is_async && shape_names(shapes@) is Ok && has_return_type {
                    assert(!all_named(shape_names(shapes@)->Ok_0, attrs.skip@));
                    let j = choose|j: int|
                        0 <= j < attrs.skip@.len() && !shape_names(shapes@)->Ok_0.contains(
                            #[trigger] attrs.skip@[j]@,
                        );
                    assert(attr_skip(args@)[j] == attrs.skip@[j]@);
                    if e is UnknownSkip {
                        let u = e->UnknownSkip_0;
                        let names = shape_names(shapes@)->Ok_0;
                        assert(is_unknown_skip(u, names, attrs.skip@));
                        let j2 = choose|j2: int|
                            0 <= j2 < attrs.skip@.len() && u.unknown@ == attrs.skip@[j2]@
                                && !names.contains(attrs.skip@[j2]@) && (forall|k: int|
                                0 <= k < j2 ==> names.contains(#[trigger] attrs.skip@[k]@));
                        assert(attr_skip(args@)[j2] == attrs.skip@[j2]@);
                        assert forall|k: int| 0 <= k < j2 implies names.contains(
                            #[trigger] attr_skip(args@)[k],
                        ) by {
                            assert(attr_skip(args@)[k] == attrs.skip@[k]@);
                        }
                        assert(is_unknown_skip_name(u, names, attr_skip(args@)));
                    }
                }
            }
            Err(CachedError::Fn(e))
        },
    }
}

} // verus!
