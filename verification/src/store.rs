//! The per-request extension store: a map from a type-identity key to at
//! most one value per key.
//!
//! A stored value is erased behind [`DynValue`], a shared handle to a value
//! of an arbitrary `'static` type. The store itself is verified logic over
//! a vector of `(key, value)` entries, where the last entry for a key is
//! the one in force; its view is the map from keys to erased values. The
//! type-identity layer — producing the key for a type, erasing a value and
//! narrowing it back — is the trusted boundary around `core::any`.

use core::any::TypeId;
use std::sync::Arc;
use vstd::prelude::*;

verus! {

/// `core::any::TypeId`, the key of the extension store: an opaque
/// identifier of a `'static` type.
#[verifier::external_type_specification]
#[verifier::external_body]
pub struct ExTypeId(TypeId);

/// Relies on `core::any::TypeId`'s `PartialEq`: two type identifiers
/// compare equal exactly when they identify the same type, which is what
/// equality of the opaque key values stands for.
pub assume_specification[ <TypeId as PartialEq>::eq ](a: &TypeId, b: &TypeId) -> (r: bool)
    ensures
        r == (*a == *b),
;

/// An erased stored value: a shared handle to one value of some `'static`
/// type. The handle is opaque; equal handle values refer to the same
/// stored value.
///
/// The wrapped trait object cannot be declared to the verifier, so the
/// whole struct is the trusted unit, with [`DynValue::dup`], [`erase`] and
/// [`unerase`] as its only operations.
#[verifier::external_body]
pub struct DynValue {
    inner: Arc<dyn core::any::Any + Send + Sync>,
}

impl DynValue {
    /// Relies on `Arc::clone`: the duplicate is a handle to the very same
    /// stored value.
    #[verifier::external_body]
    pub(crate) fn dup(&self) -> (r: DynValue)
        ensures
            r == *self,
    {
        DynValue { inner: Arc::clone(&self.inner) }
    }
}

/// Relies on `core::any::TypeId::of`: the returned key identifies the type
/// `T`. Nothing is assumed of the key value itself; in particular, two
/// calls on the same type are not known to the verifier to agree.
#[verifier::external_body]
pub(crate) fn type_key<T: Send + Sync + 'static>() -> TypeId {
    TypeId::of::<T>()
}

/// Relies on `Arc::new` with an unsizing coercion: the handle holds the
/// given value, of type `T`.
#[verifier::external_body]
pub(crate) fn erase<T: Send + Sync + 'static>(value: T) -> DynValue {
    DynValue { inner: Arc::new(value) }
}

/// Relies on `<dyn Any>::downcast_ref`: the result is the held value when
/// it is of type `T`, and absent when it is of another type.
#[verifier::external_body]
pub(crate) fn unerase<T: Send + Sync + 'static>(value: &DynValue) -> Option<&T> {
    value.inner.downcast_ref::<T>()
}

/// One slot of the store: an erased value under its key.
struct Entry {
    key: TypeId,
    value: DynValue,
}

/// The contents of a sequence of entries, read as a map: a later entry for
/// a key overrides an earlier one.
spec fn map_of(s: Seq<Entry>) -> Map<TypeId, DynValue>
    decreases s.len(),
{
    if s.len() == 0 {
        Map::empty()
    } else {
        map_of(s.drop_last()).insert(s.last().key, s.last().value)
    }
}

/// The last entry for a key gives the map's value for that key.
proof fn lemma_map_of_last(s: Seq<Entry>, i: int)
    requires
        0 <= i < s.len(),
        forall|j: int| i < j < s.len() ==> s[j].key != s[i].key,
    ensures
        map_of(s).contains_key(s[i].key),
        map_of(s)[s[i].key] == s[i].value,
    decreases s.len(),
{
    if i == s.len() - 1 {
        assert(s[i] == s.last());
    } else {
        lemma_map_of_last(s.drop_last(), i);
        assert(s.drop_last()[i] == s[i]);
        assert(s.last().key != s[i].key);
    }
}

/// A key under no entry is absent from the map.
proof fn lemma_map_of_absent(s: Seq<Entry>, key: TypeId)
    requires
        forall|i: int| 0 <= i < s.len() ==> s[i].key != key,
    ensures
        !map_of(s).contains_key(key),
    decreases s.len(),
{
    if s.len() > 0 {
        lemma_map_of_absent(s.drop_last(), key);
    }
}

/// Replacing the last entry for a key replaces that key's value in the
/// map.
proof fn lemma_map_of_update(s: Seq<Entry>, i: int, e: Entry)
    requires
        0 <= i < s.len(),
        e.key == s[i].key,
        forall|j: int| i < j < s.len() ==> s[j].key != s[i].key,
    ensures
        map_of(s.update(i, e)) == map_of(s).insert(e.key, e.value),
    decreases s.len(),
{
    let t = s.update(i, e);
    if i == s.len() - 1 {
        assert(t.drop_last() =~= s.drop_last());
        assert(t.last() == e);
        assert(map_of(t) =~= map_of(s).insert(e.key, e.value));
    } else {
        assert(t.drop_last() =~= s.drop_last().update(i, e));
        assert(s.drop_last()[i] == s[i]);
        lemma_map_of_update(s.drop_last(), i, e);
        assert(t.last() == s.last());
        assert(s.last().key != e.key);
        assert(map_of(t) =~= map_of(s).insert(e.key, e.value));
    }
}

/// Appending an entry inserts its key into the map.
proof fn lemma_map_of_push(s: Seq<Entry>, e: Entry)
    ensures
        map_of(s.push(e)) == map_of(s).insert(e.key, e.value),
{
    assert(s.push(e).drop_last() =~= s);
    assert(s.push(e).last() == e);
}

/// The per-request extension store: at most one erased value per key.
///
/// Its view is the map from keys to erased values. Insertion always
/// succeeds and overwrites silently; lookup of an absent key is a normal
/// outcome, not an error.
pub struct Extensions {
    entries: Vec<Entry>,
}

impl Extensions {
    /// An empty store.
    pub fn new() -> (r: Extensions)
        ensures
            r@ == Map::<TypeId, DynValue>::empty(),
    {
        Extensions { entries: Vec::new() }
    }

    /// Store `value` under `key`, silently overwriting any entry that was
    /// there. Insertion has no failure mode.
    pub fn insert_dyn(&mut self, key: TypeId, value: DynValue)
        ensures
            final(self)@ == old(self)@.insert(key, value),
    {
        let n = self.entries.len();
        let mut i: usize = n;
        while i > 0
            invariant
                *self == *old(self),
                n == self.entries@.len(),
                i <= n,
                forall|j: int| i <= j < n ==> self.entries@[j].key != key,
            decreases i,
        {
            i -= 1;
            if self.entries[i].key == key {
                proof {
                    lemma_map_of_update(self.entries@, i as int, Entry { key, value });
                }
                self.entries[i] = Entry { key, value };
                return;
            }
        }
        proof {
            lemma_map_of_push(self.entries@, Entry { key, value });
        }
        self.entries.push(Entry { key, value });
    }

    /// The value stored under `key`, or the absence signal when the key has
    /// no entry. Lookup never fails; absence is a normal outcome.
    pub fn get_dyn(&self, key: &TypeId) -> (r: Option<&DynValue>)
        ensures
            match r {
                Some(v) => self@.contains_key(*key) && *v == self@[*key],
                None => !self@.contains_key(*key),
            },
    {
        let n = self.entries.len();
        let mut i: usize = n;
        while i > 0
            invariant
                n == self.entries@.len(),
                i <= n,
                forall|j: int| i <= j < n ==> self.entries@[j].key != *key,
            decreases i,
        {
            i -= 1;
            if self.entries[i].key == *key {
                proof {
                    lemma_map_of_last(self.entries@, i as int);
                }
                return Some(&self.entries[i].value);
            }
        }
        proof {
            lemma_map_of_absent(self.entries@, *key);
        }
        None
    }

    /// Store `value` under the identity of its type `T`, overwriting any
    /// prior entry of that exact type.
    ///
    /// The key and the erased handle come from the trusted type-identity
    /// layer, so all the verifier knows is that exactly one entry was
    /// written; which key names the type `T` is settled at run time by
    /// `core::any`.
    pub fn insert<T: Send + Sync + 'static>(&mut self, value: T)
        ensures
            exists|k: TypeId, d: DynValue| final(self)@ == old(self)@.insert(k, d),
    {
        let key = type_key::<T>();
        let erased = erase(value);
        self.insert_dyn(key, erased);
    }

    /// The stored value of type `T`, or the absence signal when no value
    /// of that type was inserted. Absence is a normal outcome for handlers
    /// that query optimistically; the lookup never fails or panics.
    pub fn get<T: Send + Sync + 'static>(&self) -> (r: Option<&T>)
        ensures
            self@ == Map::<TypeId, DynValue>::empty() ==> r is None,
    {
        let key = type_key::<T>();
        match self.get_dyn(&key) {
            Some(value) => unerase::<T>(value),
            None => None,
        }
    }
}

/// Last write wins: a second insertion under a key replaces the first, and
/// the store is otherwise unchanged.
pub proof fn lemma_store_last_write_wins(
    m: Map<TypeId, DynValue>,
    key: TypeId,
    first: DynValue,
    second: DynValue,
)
    ensures
        m.insert(key, first).insert(key, second) == m.insert(key, second),
        m.insert(key, first).insert(key, second)[key] == second,
{
    assert(m.insert(key, first).insert(key, second) =~= m.insert(key, second));
}

/// Isolation across keys: an insertion under one key leaves every other
/// key's presence and value exactly as they were.
pub proof fn lemma_store_isolation(
    m: Map<TypeId, DynValue>,
    key: TypeId,
    value: DynValue,
    other: TypeId,
)
    requires
        other != key,
    ensures
        m.insert(key, value).contains_key(other) == m.contains_key(other),
        m.contains_key(other) ==> m.insert(key, value)[other] == m[other],
{
}

impl View for Extensions {
    type V = Map<TypeId, DynValue>;

    closed spec fn view(&self) -> Map<TypeId, DynValue> {
        map_of(self.entries@)
    }
}

} // verus!
