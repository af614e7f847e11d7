//! A type-keyed store that predicates and extractors share while they
//! evaluate one request or response, so that an expensive value (a parsed
//! body, say) is computed once.
//!
//! Values are keyed by their type: a store holds at most one value of each
//! type. The store keeps its entries as a list of (type key, value) pairs
//! with no key twice; values are held type-erased. A list, not a hash map:
//! vstd specifies a map's operations only for keys whose hashing and
//! equality it knows, and `TypeId`'s it does not.

use std::any::{Any, TypeId};
use vstd::prelude::*;

verus! {

#[verifier::external_type_specification]
#[verifier::external_body]
pub struct ExTypeId(std::any::TypeId);

/// A value of some type, with its type erased (a `Box<dyn Any + Send +
/// Sync>`). Verus cannot describe a trait object of `Any`, so the box is
/// held in this opaque record.
#[verifier::external_body]
#[derive(Debug)]
pub struct ErasedValue {
    boxed: Box<dyn Any + Send + Sync>,
}

impl ErasedValue {
    /// Holds `value` with its type erased.
    pub fn new<T: Send + Sync + 'static>(value: T) -> ErasedValue {
        erase(value)
    }
}

/// Calls `TypeId::of::<T>()`. Verus has no way to speak of a type as a
/// value, so nothing is stated of the key it returns.
#[verifier::external_body]
fn type_key<T: ?Sized + 'static>() -> TypeId {
    TypeId::of::<T>()
}

/// Compares two type keys with `TypeId`'s `==`, which compares the keys'
/// contents.
#[verifier::external_body]
fn same_type_key(a: &TypeId, b: &TypeId) -> (r: bool)
    ensures
        r == (*a == *b),
{
    *a == *b
}

/// Calls `Box::new` and erases the type of the box.
#[verifier::external_body]
fn erase<T: Send + Sync + 'static>(value: T) -> ErasedValue {
    ErasedValue { boxed: Box::new(value) }
}

/// Calls `<dyn Any>::downcast_ref::<T>`: `Some` when the erased value is a
/// `T`. Nothing is stated, since no contract can name the type `T`.
#[verifier::external_body]
fn downcast_ref<T: 'static>(value: &ErasedValue) -> Option<&T> {
    value.boxed.downcast_ref::<T>()
}

/// Calls `Box::<dyn Any>::downcast::<T>` and unboxes the result: `Some`
/// when the erased value is a `T`. Nothing is stated, since no contract can
/// name the type `T`.
#[verifier::external_body]
fn downcast<T: 'static>(value: ErasedValue) -> Option<T> {
    match value.boxed.downcast::<T>() {
        Ok(b) => Some(*b),
        Err(_) => None,
    }
}

/// A type-keyed store of values shared during one evaluation.
pub struct EvalContext {
    entries: Vec<(TypeId, ErasedValue)>,
}

impl EvalContext {
    /// The type keys present, in insertion order.
    pub closed spec fn spec_keys(self) -> Seq<TypeId> {
        self.entries@.map_values(|e: (TypeId, ErasedValue)| e.0)
    }

    #[verifier::type_invariant]
    spec fn keys_unique(self) -> bool {
        self.spec_keys().no_duplicates()
    }

    /// The set of type keys present.
    pub open spec fn spec_key_set(self) -> Set<TypeId> {
        self.spec_keys().to_set()
    }

    /// The value held under `key`, if any.
    pub closed spec fn spec_get(self, key: TypeId) -> Option<ErasedValue> {
        if self.spec_keys().contains(key) {
            Some(self.entries@[self.spec_keys().index_of(key)].1)
        } else {
            None
        }
    }

    /// Creates an empty evaluation context.
    pub fn new() -> (r: EvalContext)
        ensures
            r.spec_keys() == Seq::<TypeId>::empty(),
            forall|k: TypeId| #[trigger] r.spec_get(k) is None,
    {
        let r = EvalContext { entries: Vec::new() };
        assert(r.spec_keys() =~= Seq::<TypeId>::empty());
        r
    }

    /// The number of values held.
    pub fn len(&self) -> (r: usize)
        ensures
            r == self.spec_keys().len(),
    {
        self.entries.len()
    }

    /// The position of the entry with key `key`, if any.
    pub fn position_of(&self, key: &TypeId) -> (r: Option<usize>)
        ensures
            r is None <==> !self.spec_keys().contains(*key),
            r matches Some(i) ==> i < self.spec_keys().len() && self.spec_keys()[i as int]
                == *key,
    {
        let mut i: usize = 0;
        while i < self.entries.len()
            invariant
                i <= self.entries@.len(),
                forall|j: int| 0 <= j < i ==> #[trigger] self.spec_keys()[j] != *key,
            decreases self.entries.len() - i,
        {
            if same_type_key(&self.entries[i].0, key) {
                assert(self.spec_keys()[i as int] == *key);
                return Some(i);
            }
            i = i + 1;
        }
        None
    }

    /// Whether a value with key `key` is held.
    pub fn contains_key(&self, key: &TypeId) -> (r: bool)
        ensures
            r == self.spec_keys().contains(*key),
    {
        self.position_of(key).is_some()
    }

    /// Puts `value` under `key`: replaces the value held under `key` in
    /// place, or appends a new entry at the end.
    pub fn insert_keyed(&mut self, key: TypeId, value: ErasedValue)
        ensures
            old(self).spec_keys().contains(key) ==> final(self).spec_keys() == old(
                self,
            ).spec_keys(),
            !old(self).spec_keys().contains(key) ==> final(self).spec_keys() == old(
                self,
            ).spec_keys().push(key),
            final(self).spec_get(key) == Some(value),
            forall|k: TypeId| k != key ==> #[trigger] final(self).spec_get(k) == old(self).spec_get(k),
    {
        proof {
            use_type_invariant(&*self);
        }
        let ghost old_entries = self.entries@;
        match self.position_of(&key) {
            Some(i) => {
                let ghost before = self.spec_keys();
                let mut entries = Vec::new();
                std::mem::swap(&mut entries, &mut self.entries);
                entries.set(i, (key, value));
                assert(entries@.map_values(|e: (TypeId, ErasedValue)| e.0) =~= before);
                self.entries = entries;
                proof {
                    lemma_index_of_unique(before, i as int);
                    assert forall|k: TypeId| k != key implies #[trigger] self.spec_get(k) == old(
                        self,
                    ).spec_get(k) by {
                        if before.contains(k) {
                            let j = before.index_of(k);
                            assert(0 <= j < before.len() && before[j] == k);
                            assert(j != i);
                        }
                    }
                }
            },
            None => {
                let ghost before = self.spec_keys();
                let mut entries = Vec::new();
                std::mem::swap(&mut entries, &mut self.entries);
                entries.push((key, value));
                assert(entries@.map_values(|e: (TypeId, ErasedValue)| e.0) =~= before.push(key));
                proof {
                    assert forall|a: int, b: int|
                        0 <= a < b < before.push(key).len() implies before.push(key)[a]
                        != before.push(key)[b] by {
                        if b == before.len() {
                            assert(before[a] == before.push(key)[a]);
                        }
                    }
                }
                self.entries = entries;
                proof {
                    let after = before.push(key);
                    assert(after[before.len() as int] == key);
                    lemma_index_of_unique(after, before.len() as int);
                    assert forall|k: TypeId| k != key implies #[trigger] self.spec_get(k) == old(
                        self,
                    ).spec_get(k) by {
                        if before.contains(k) {
                            let j = before.index_of(k);
                            assert(0 <= j < before.len() && before[j] == k);
                            assert(after[j] == k);
                            lemma_index_of_unique(after, j);
                            assert(after.contains(k));
                        } else {
                            if after.contains(k) {
                                let j = choose|j: int| 0 <= j < after.len() && after[j] == k;
                                assert(j != before.len());
                                assert(before[j] == k);
                            }
                        }
                    }
                }
            },
        }
    }

    /// Takes the value held under `key` out of the store, if any; the other
    /// entries keep their order.
    pub fn remove_keyed(&mut self, key: &TypeId) -> (r: Option<ErasedValue>)
        ensures
            r is Some <==> old(self).spec_keys().contains(*key),
            final(self).spec_key_set() == old(self).spec_key_set().remove(*key),
            !old(self).spec_keys().contains(*key) ==> final(self).spec_keys() == old(
                self,
            ).spec_keys(),
            r == old(self).spec_get(*key),
            final(self).spec_get(*key) is None,
            forall|k: TypeId| k != *key ==> #[trigger] final(self).spec_get(k) == old(self).spec_get(k),
    {
        proof {
            use_type_invariant(&*self);
        }
        let ghost before = self.spec_keys();
        let ghost old_entries = self.entries@;
        match self.position_of(key) {
            Some(i) => {
                let mut entries = Vec::new();
                std::mem::swap(&mut entries, &mut self.entries);
                let (_, value) = entries.remove(i);
                let ghost after = entries@.map_values(|e: (TypeId, ErasedValue)| e.0);
                assert(after =~= before.remove(i as int));
                proof {
                    lemma_remove_unique(before, i as int, *key);
                    lemma_index_of_unique(before, i as int);
                }
                self.entries = entries;
                proof {
                    assert(!after.to_set().contains(*key));
                    assert(!after.contains(*key)) by {
                        if after.contains(*key) {
                            let j = choose|j: int| 0 <= j < after.len() && after[j] == *key;
                            assert(after.to_set().contains(*key));
                        }
                    }
                    assert forall|k: TypeId| k != *key implies #[trigger] self.spec_get(k) == old(
                        self,
                    ).spec_get(k) by {
                        if before.contains(k) {
                            let j = before.index_of(k);
                            assert(0 <= j < before.len() && before[j] == k);
                            assert(j != i);
                            let j2 = if j < i { j } else { j - 1 };
                            assert(after[j2] == k);
                            assert(entries@[j2] == old_entries[j]);
                            lemma_index_of_unique(after, j2);
                        } else {
                            if after.contains(k) {
                                let j = choose|j: int| 0 <= j < after.len() && after[j] == k;
                                let j2 = if j < i { j } else { j + 1 };
                                assert(before[j2] == k);
                            }
                        }
                    }
                }
                Some(value)
            },
            None => {
                assert(before.to_set() =~= before.to_set().remove(*key));
                None
            },
        }
    }

    /// The value held under `key`, if any.
    pub fn get_keyed(&self, key: &TypeId) -> (r: Option<&ErasedValue>)
        ensures
            r is Some <==> self.spec_keys().contains(*key),
            r matches Some(v) ==> self.spec_get(*key) == Some(*v),
            r is None ==> self.spec_get(*key) is None,
    {
        proof {
            use_type_invariant(self);
        }
        match self.position_of(key) {
            Some(i) => {
                proof {
                    lemma_index_of_unique(self.spec_keys(), i as int);
                }
                Some(&self.entries[i].1)
            },
            None => None,
        }
    }

    /// Inserts a value into the context. If a value of this type already
    /// exists, it is replaced; otherwise the value's type is added.
    pub fn insert<T: Send + Sync + 'static>(&mut self, val: T)
        ensures
            exists|k: TypeId|
                {
                    &&& old(self).spec_keys().contains(k) ==> final(self).spec_keys() == old(
                        self,
                    ).spec_keys()
                    &&& !old(self).spec_keys().contains(k) ==> final(self).spec_keys() == old(
                        self,
                    ).spec_keys().push(k)
                    &&& #[trigger] final(self).spec_get(k) is Some
                    &&& forall|k2: TypeId|
                        k2 != k ==> #[trigger] final(self).spec_get(k2) == old(self).spec_get(k2)
                },
    {
        let key = type_key::<T>();
        self.insert_keyed(key, erase(val));
        assert(self.spec_get(key) is Some);
    }

    /// Returns a reference to the value of type `T`, if present.
    pub fn get<T: Send + Sync + 'static>(&self) -> (r: Option<&T>)
        ensures
            r is Some ==> self.spec_keys().len() > 0,
            r is Some ==> exists|k: TypeId| #[trigger] self.spec_get(k) is Some,
    {
        let key = type_key::<T>();
        match self.get_keyed(&key) {
            Some(value) => {
                assert(self.spec_get(key) is Some);
                downcast_ref::<T>(value)
            },
            None => None,
        }
    }

    /// Returns a reference to the value of type `T`, inserting the value
    /// computed by `f` when none is present. `f` is called only when no
    /// value of the type is held.
    pub fn get_or_insert_with<T: Send + Sync + 'static, F: FnOnce() -> T>(&mut self, f: F) -> (r:
        Option<&T>)
        requires
            f.requires(()),
        ensures
            exists|k: TypeId|
                {
                    &&& old(self).spec_keys().contains(k) ==> final(self).spec_keys() == old(
                        self,
                    ).spec_keys()
                    &&& !old(self).spec_keys().contains(k) ==> final(self).spec_keys() == old(
                        self,
                    ).spec_keys().push(k)
                    &&& #[trigger] final(self).spec_get(k) is Some
                    &&& old(self).spec_get(k) is Some ==> final(self).spec_get(k) == old(
                        self,
                    ).spec_get(k)
                    &&& forall|k2: TypeId|
                        k2 != k ==> #[trigger] final(self).spec_get(k2) == old(self).spec_get(k2)
                },
    {
        let key = type_key::<T>();
        if !self.contains_key(&key) {
            let value = f();
            self.insert_keyed(key, erase(value));
        }
        assert(self.spec_get(key) is Some);
        match self.get_keyed(&key) {
            Some(value) => downcast_ref::<T>(value),
            None => None,
        }
    }

    /// Returns `true` if the context holds a value of type `T`.
    pub fn contains<T: Send + Sync + 'static>(&self) -> (r: bool)
        ensures
            r ==> self.spec_keys().len() > 0,
            exists|k: TypeId| r == self.spec_keys().contains(k) && r == (#[trigger] self.spec_get(k) is Some),
    {
        let key = type_key::<T>();
        let r = self.contains_key(&key);
        proof {
            if r {
                let i = self.spec_keys().index_of(key);
            }
        }
        assert(r == (self.spec_get(key) is Some));
        r
    }

    /// Removes the value of type `T`, returning it if present.
    pub fn remove<T: Send + Sync + 'static>(&mut self) -> (r: Option<T>)
        ensures
            exists|k: TypeId|
                {
                    &&& final(self).spec_key_set() == old(self).spec_key_set().remove(k)
                    &&& r is Some ==> old(self).spec_keys().contains(k)
                    &&& #[trigger] final(self).spec_get(k) is None
                    &&& forall|k2: TypeId|
                        k2 != k ==> #[trigger] final(self).spec_get(k2) == old(self).spec_get(k2)
                },
    {
        let key = type_key::<T>();
        let removed = self.remove_keyed(&key);
        assert(self.spec_get(key) is None);
        match removed {
            Some(value) => downcast::<T>(value),
            None => None,
        }
    }
}

impl Default for EvalContext {
    fn default() -> (r: Self)
        ensures
            r.spec_keys() == Seq::<TypeId>::empty(),
            forall|k: TypeId| #[trigger] r.spec_get(k) is None,
    {
        EvalContext::new()
    }
}

/// In a list without repeated keys, the position of a key is the one place
/// that holds it.
proof fn lemma_index_of_unique(s: Seq<TypeId>, i: int)
    requires
        s.no_duplicates(),
        0 <= i < s.len(),
    ensures
        s.contains(s[i]),
        s.index_of(s[i]) == i,
{
    assert(s[i] == s[i]);
    let j = s.index_of(s[i]);
    assert(0 <= j < s.len() && s[j] == s[i]);
}

/// Removing position `i`, which holds `key`, from a list without repeated
/// keys removes exactly `key` and leaves no key repeated.
proof fn lemma_remove_unique(s: Seq<TypeId>, i: int, key: TypeId)
    requires
        s.no_duplicates(),
        0 <= i < s.len(),
        s[i] == key,
    ensures
        s.remove(i).no_duplicates(),
        s.remove(i).to_set() == s.to_set().remove(key),
{
    let r = s.remove(i);
    assert forall|a: int, b: int| 0 <= a < b < r.len() implies r[a] != r[b] by {
        let a2 = if a < i { a } else { a + 1 };
        let b2 = if b < i { b } else { b + 1 };
        assert(r[a] == s[a2]);
        assert(r[b] == s[b2]);
    }
    assert forall|x: TypeId| r.to_set().contains(x) <==> s.to_set().remove(key).contains(x) by {
        if r.to_set().contains(x) {
            let j = choose|j: int| 0 <= j < r.len() && r[j] == x;
            let j2 = if j < i { j } else { j + 1 };
            assert(s[j2] == x);
            assert(s.contains(x));
            assert(x != key);
        }
        if s.to_set().remove(key).contains(x) {
            let j = choose|j: int| 0 <= j < s.len() && s[j] == x;
            assert(j != i);
            let j2 = if j < i { j } else { j - 1 };
            assert(r[j2] == x);
            assert(r.contains(x));
        }
    }
    assert(r.to_set() =~= s.to_set().remove(key));
}

} // verus!
