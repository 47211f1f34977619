//! A type-indexed heterogeneous container.
//!
//! A [`TypeSet`] holds at most one value of each distinct type, addressed by
//! that type rather than by a programmer-chosen key. It serves as a
//! lightweight registry or context object: arbitrary typed extensions can be
//! attached to a request, session, or plugin context without a predefined
//! schema.
//!
//! The container's state is modelled as a `Map<u64, ErasedValue>` from type
//! identity to type-erased value box, and every operation carries a contract
//! over that model. The identity of a type and the content of a box live
//! behind the small trusted boundary in `erased`; everything the container
//! does with its slots — lookup, insertion, replacement, removal, merging,
//! and the entry state machine in [`entry`] — is verified.

use vstd::prelude::*;
use std::collections::BTreeMap;

mod erased;
pub mod entry;

pub use erased::ErasedValue;

use erased::type_key;

verus! {

broadcast use vstd::laws_cmp::group_laws_cmp, vstd::std_specs::btree::group_btree_axioms;

/// An ordered mapping from type identity to type-erased value, holding at
/// most one value per type.
///
/// The view of a container is a `Map<u64, ErasedValue>` keyed by type
/// identity; that a type can have at most one slot is structural in this
/// model. The iteration order of the backing tree follows the identity
/// ordering, an artifact of the keying scheme that no operation exposes.
pub struct TypeSet {
    table: BTreeMap<u64, ErasedValue>,
}

impl View for TypeSet {
    type V = Map<u64, ErasedValue>;

    closed spec fn view(&self) -> Map<u64, ErasedValue> {
        self.table@
    }
}

impl TypeSet {
    /// The state of a container is always a finite map.
    pub proof fn lemma_view_finite(&self)
        ensures
            self@.dom().finite(),
    {
    }

    /// Returns an empty container.
    pub fn new() -> (s: TypeSet)
        ensures
            s@ == Map::<u64, ErasedValue>::empty(),
            s@.len() == 0,
    {
        TypeSet { table: BTreeMap::new() }
    }

    /// The number of occupied slots.
    pub fn len(&self) -> (n: usize)
        ensures
            n == self@.len(),
    {
        self.table.len()
    }

    /// Whether no slot is occupied.
    pub fn is_empty(&self) -> (r: bool)
        ensures
            r == (self@.len() == 0),
    {
        self.table.is_empty()
    }

    /// Stores `value` under `key`, returning the value previously stored
    /// there, if any.
    pub(crate) fn slot_insert(&mut self, key: u64, value: ErasedValue) -> (prev: Option<
        ErasedValue,
    >)
        ensures
            final(self)@ == old(self)@.insert(key, value),
            prev is Some <==> old(self)@.contains_key(key),
            prev is Some ==> prev->0 == old(self)@[key],
    {
        self.table.insert(key, value)
    }

    /// Removes the value stored under `key`, if any.
    pub(crate) fn slot_remove(&mut self, key: u64) -> (prev: Option<ErasedValue>)
        ensures
            final(self)@ == old(self)@.remove(key),
            prev is Some <==> old(self)@.contains_key(key),
            prev is Some ==> prev->0 == old(self)@[key],
    {
        self.table.remove(&key)
    }

    /// Whether a value is stored under `key`.
    pub(crate) fn slot_contains(&self, key: u64) -> (r: bool)
        ensures
            r == self@.contains_key(key),
    {
        self.table.contains_key(&key)
    }

    /// Borrows the value stored under `key`, if any.
    pub(crate) fn slot_get(&self, key: u64) -> (r: Option<&ErasedValue>)
        ensures
            r is Some <==> self@.contains_key(key),
            r is Some ==> *r->0 == self@[key],
    {
        self.table.get(&key)
    }

    /// Mutably borrows the value stored under `key`, if any. Whatever the
    /// caller writes through the result, the container afterwards differs at
    /// most in the slot under `key`.
    pub(crate) fn slot_get_mut<'s>(&'s mut self, key: u64) -> (r: Option<&'s mut ErasedValue>)
        ensures
            match r {
                Some(v) => old(self)@.contains_key(key) && *v == old(self)@[key] && final(self)@
                    == old(self)@.insert(key, *final(v)),
                None => !old(self)@.contains_key(key) && final(self)@ == old(self)@,
            },
    {
        erased::map_get_mut(&mut self.table, key)
    }

    /// Stores `value` under the identity of `T` and returns the previous
    /// value of type `T`, if one existed (replacement semantics).
    ///
    /// The slot touched is the one keyed by `T`'s identity, which lives
    /// behind the trusted boundary; the contract therefore names it
    /// existentially. A previous value exists exactly when that slot was
    /// occupied, so the container grows by one slot when `None` is returned
    /// and keeps its size when the old value is handed back.
    pub fn insert<T: Send + Sync + 'static>(&mut self, value: T) -> (prev: Option<T>)
        ensures
            exists|k: u64, ev: ErasedValue|
                #![auto]
                final(self)@ == old(self)@.insert(k, ev) && ((prev is Some) <==> old(
                    self,
                )@.contains_key(k)),
            prev is Some ==> final(self)@.len() == old(self)@.len(),
            prev is None ==> final(self)@.len() == old(self)@.len() + 1,
    {
        let key = type_key::<T>();
        let previous = self.slot_insert(key, ErasedValue::new(value));
        match previous {
            Some(ev) => Some(ev.downcast::<T>()),
            None => None,
        }
    }

    /// Whether a value of type `T` is stored.
    ///
    /// Which slot answers for `T` is decided behind the trusted identity
    /// boundary, so the contract cannot name the key it tests; the entry API
    /// carries the key-exact contracts.
    pub fn contains<T: Send + Sync + 'static>(&self) -> (r: bool)
        ensures
            r ==> self@.len() >= 1,
    {
        let key = type_key::<T>();
        self.slot_contains(key)
    }

    /// Borrows the stored value of type `T`, if any. No side effects; what
    /// the reference points at lives behind the type-erasure boundary, so the
    /// contract can say no more than that an empty container yields nothing.
    pub fn get<T: Send + Sync + 'static>(&self) -> (r: Option<&T>)
        ensures
            self@.len() == 0 ==> r is None,
    {
        let key = type_key::<T>();
        match self.slot_get(key) {
            Some(ev) => Some(ev.downcast_ref::<T>()),
            None => None,
        }
    }

    /// Mutably borrows the stored value of type `T`, if any. The key set is
    /// unchanged: whatever the caller writes through the result, the
    /// container afterwards differs at most in the one slot borrowed.
    pub fn get_mut<T: Send + Sync + 'static>(&mut self) -> (r: Option<&mut T>)
        ensures
            r is None ==> final(self)@ == old(self)@,
            r is Some ==> exists|k: u64, ev: ErasedValue|
                #![auto]
                old(self)@.contains_key(k) && final(self)@ == old(self)@.insert(k, ev),
            final(self)@.dom() == old(self)@.dom(),
            old(self)@.len() == 0 ==> r is None,
    {
        let key = type_key::<T>();
        match self.slot_get_mut(key) {
            Some(ev) => Some(ev.downcast_mut::<T>()),
            None => None,
        }
    }

    /// Removes and returns the stored value of type `T`, if any. The
    /// container shrinks by one slot exactly when a value is returned;
    /// removing an absent type is a no-op.
    pub fn remove<T: Send + Sync + 'static>(&mut self) -> (prev: Option<T>)
        ensures
            exists|k: u64|
                #![auto]
                final(self)@ == old(self)@.remove(k) && ((prev is Some) <==> old(
                    self,
                )@.contains_key(k)),
            prev is Some ==> final(self)@.len() + 1 == old(self)@.len(),
            prev is None ==> final(self)@ == old(self)@,
    {
        let key = type_key::<T>();
        let previous = self.slot_remove(key);
        proof {
            if !old(self)@.contains_key(key) {
                assert(old(self)@.remove(key) =~= old(self)@);
            }
        }
        match previous {
            Some(ev) => Some(ev.downcast::<T>()),
            None => None,
        }
    }

    /// Stores `value` under the identity of `T` and returns the container,
    /// for fluent construction chains.
    pub fn with<T: Send + Sync + 'static>(self, value: T) -> (s: TypeSet)
        ensures
            exists|k: u64, ev: ErasedValue| #![auto] s@ == self@.insert(k, ev),
            self@.len() <= s@.len() <= self@.len() + 1,
    {
        let mut this = self;
        let _ = this.insert(value);
        this
    }

    /// Consumes `other`, inserting every slot from it into `self`. On a
    /// collision the incoming value wins and the previous value is
    /// discarded; slots present only in `self` are untouched. `other` is
    /// consumed whole, so nothing of it remains afterwards.
    pub fn merge(&mut self, other: TypeSet)
        ensures
            final(self)@ == old(self)@.union_prefer_right(other@),
    {
        let mut rest = other;
        loop
            invariant
                self@.union_prefer_right(rest@) == old(self)@.union_prefer_right(other@),
                rest@.dom().finite(),
            ensures
                self@ == old(self)@.union_prefer_right(other@),
            decreases rest@.len(),
        {
            let ghost before_self = self@;
            let ghost before_rest = rest@;
            match erased::map_pop_first(&mut rest.table) {
                Some((key, value)) => {
                    let _ = self.slot_insert(key, value);
                    proof {
                        assert(before_self.insert(key, value).union_prefer_right(
                            before_rest.remove(key),
                        ) =~= before_self.union_prefer_right(before_rest));
                    }
                },
                None => {
                    proof {
                        assert(self@.union_prefer_right(rest@) =~= self@);
                    }
                    break ;
                },
            }
        }
    }

    /// Returns the stored value of type `T`, inserting `default` first when
    /// the slot is vacant. The container afterwards differs from before in at
    /// most that one slot, so it grows by at most one.
    pub fn get_or_insert<T: Send + Sync + 'static>(&mut self, default: T) -> (r: &mut T)
        ensures
            exists|k: u64, ev: ErasedValue|
                #![auto]
                final(self)@ == old(self)@.insert(k, ev) && final(self)@.dom() == old(
                    self,
                )@.dom().insert(k),
            old(self)@.len() <= final(self)@.len() <= old(self)@.len() + 1,
    {
        self.entry::<T>().or_insert(default)
    }

    /// Returns the stored value of type `T`, inserting what `default` returns
    /// first when the slot is vacant; `default` runs only in that case.
    ///
    /// Whether the slot is vacant is decided by the type identity behind the
    /// trusted boundary, so this contract, unlike the one on the entry's own
    /// `or_insert_with`, must allow `default` to be called outright.
    pub fn get_or_insert_with<T: Send + Sync + 'static, F: FnOnce() -> T>(
        &mut self,
        default: F,
    ) -> (r: &mut T)
        requires
            call_requires(default, ()),
        ensures
            exists|k: u64, ev: ErasedValue|
                #![auto]
                final(self)@ == old(self)@.insert(k, ev) && final(self)@.dom() == old(
                    self,
                )@.dom().insert(k),
            old(self)@.len() <= final(self)@.len() <= old(self)@.len() + 1,
            final(self)@.len() == old(self)@.len() + 1 ==> exists|v: T|
                #![auto]
                call_ensures(default, (), v),
    {
        self.entry::<T>().or_insert_with(default)
    }

    /// Returns the stored value of type `T`, inserting `T`'s default value
    /// first when the slot is vacant; the default is constructed only in
    /// that case.
    pub fn get_or_insert_default<T: Default + Send + Sync + 'static>(&mut self) -> (r: &mut T)
        ensures
            exists|k: u64, ev: ErasedValue|
                #![auto]
                final(self)@ == old(self)@.insert(k, ev) && final(self)@.dom() == old(
                    self,
                )@.dom().insert(k),
            old(self)@.len() <= final(self)@.len() <= old(self)@.len() + 1,
    {
        self.entry::<T>().or_default()
    }
}

/// Uniqueness law: one slot per identity, never more. However many times a
/// value is stored for one identity, the state holds a single slot for it: a
/// later store adds no key and no slot, it only replaces the stored value.
pub proof fn lemma_uniqueness(
    state: Map<u64, ErasedValue>,
    key: u64,
    first: ErasedValue,
    second: ErasedValue,
)
    requires
        state.dom().finite(),
    ensures
        state.insert(key, first).insert(key, second) == state.insert(key, second),
        state.insert(key, first).len() == state.insert(key, second).len(),
        state.insert(key, first).contains_key(key),
{
    assert(state.insert(key, first).insert(key, second) =~= state.insert(key, second));
}

/// Round-trip law: storing a value under an identity and then removing that
/// identity leaves the container exactly as removing the identity from the
/// original state would; afterwards the identity is absent. Removal of a
/// present identity shrinks the state by one slot; removal of an absent
/// identity is the identity function on states.
pub proof fn lemma_remove_round_trip(state: Map<u64, ErasedValue>, key: u64, value: ErasedValue)
    requires
        state.dom().finite(),
    ensures
        state.insert(key, value).remove(key) == state.remove(key),
        !state.insert(key, value).remove(key).contains_key(key),
        state.insert(key, value).len() == state.remove(key).len() + 1,
        state.contains_key(key) ==> state.remove(key).len() == state.len() - 1,
        !state.contains_key(key) ==> state.remove(key) == state,
{
    assert(state.insert(key, value).remove(key) =~= state.remove(key));
    if !state.contains_key(key) {
        assert(state.remove(key) =~= state);
    }
}

/// Merge bias law: in the merged state of `a` and `b`, an identity present
/// only in `a` keeps `a`'s value, an identity present in `b` gets `b`'s
/// value whether or not `a` had one, and an identity absent from both stays
/// absent. This is the state [`TypeSet::merge`] ensures.
pub proof fn lemma_merge_bias(a: Map<u64, ErasedValue>, b: Map<u64, ErasedValue>, key: u64)
    ensures
        a.contains_key(key) && !b.contains_key(key) ==> a.union_prefer_right(b)[key] == a[key],
        b.contains_key(key) ==> a.union_prefer_right(b)[key] == b[key],
        a.union_prefer_right(b).contains_key(key) <==> a.contains_key(key) || b.contains_key(key),
{
}

} // verus!
