//! A view into a single type's slot in the [`TypeSet`], which may be either
//! vacant or occupied.
//!
//! An entry is obtained from [`TypeSet::entry`] — the only way to obtain one,
//! so every view carries the container's key-to-type discipline — and borrows
//! the container exclusively for its lifetime: the container cannot be read
//! or changed through any other handle until the entry is consumed or
//! dropped. The contracts below relate the container's state when the borrow
//! ends, written `*final(...)`, to its state when the entry was used.

use vstd::prelude::*;
use core::marker::PhantomData;

use crate::TypeSet;
use crate::erased::ErasedValue;
use crate::erased::type_key;

verus! {

/// A view into the slot for one type, in one of two states: [`VacantEntry`]
/// when no value of the type is stored, [`OccupiedEntry`] when one is.
pub enum Entry<'a, T> {
    /// A view into the location a `T` would be stored in the container.
    Vacant(VacantEntry<'a, T>),
    /// A view into the location a `T` is currently stored in the container.
    Occupied(OccupiedEntry<'a, T>),
}

/// Exclusive access to a slot known to be empty.
pub struct VacantEntry<'a, T> {
    pub(crate) host: &'a mut TypeSet,
    pub(crate) key: u64,
    pub(crate) marker: PhantomData<T>,
}

/// Exclusive access to a slot known to hold a value.
pub struct OccupiedEntry<'a, T> {
    pub(crate) host: &'a mut TypeSet,
    pub(crate) key: u64,
    pub(crate) marker: PhantomData<T>,
}

impl<'a, T> VacantEntry<'a, T> {
    /// The identity of the type the view was obtained for.
    pub closed spec fn key_of(self) -> u64 {
        self.key
    }

    /// The exclusive borrow of the container held by the view.
    pub closed spec fn host_of(self) -> &'a mut TypeSet {
        self.host
    }

    /// The container's state as the view sees it.
    pub closed spec fn now(self) -> Map<u64, ErasedValue> {
        (*self.host)@
    }

    /// A vacant view is truthful: its slot is empty.
    pub closed spec fn wf(&self) -> bool {
        !(*self.host)@.contains_key(self.key)
    }
}

impl<'a, T> OccupiedEntry<'a, T> {
    /// The identity of the type the view was obtained for.
    pub closed spec fn key_of(self) -> u64 {
        self.key
    }

    /// The exclusive borrow of the container held by the view.
    pub closed spec fn host_of(self) -> &'a mut TypeSet {
        self.host
    }

    /// The container's state as the view sees it.
    pub closed spec fn now(self) -> Map<u64, ErasedValue> {
        (*self.host)@
    }

    /// An occupied view is truthful: its slot holds a value.
    pub closed spec fn wf(&self) -> bool {
        (*self.host)@.contains_key(self.key)
    }
}

impl<'a, T> Entry<'a, T> {
    /// The view is truthful about its slot's state.
    pub open spec fn wf(&self) -> bool {
        match self {
            Entry::Vacant(vacant) => vacant.wf(),
            Entry::Occupied(occupied) => occupied.wf(),
        }
    }

    /// The identity of the type the view was obtained for.
    pub open spec fn key_of(self) -> u64 {
        match self {
            Entry::Vacant(vacant) => vacant.key_of(),
            Entry::Occupied(occupied) => occupied.key_of(),
        }
    }

    /// The exclusive borrow of the container held by the view.
    pub open spec fn host_of(self) -> &'a mut TypeSet {
        match self {
            Entry::Vacant(vacant) => vacant.host_of(),
            Entry::Occupied(occupied) => occupied.host_of(),
        }
    }

    /// The container's state as the view sees it.
    pub open spec fn now(self) -> Map<u64, ErasedValue> {
        (*self.host_of())@
    }
}

impl TypeSet {
    /// Returns a view into the slot for `T`, vacant or occupied according to
    /// the container's current state. The view borrows the container
    /// exclusively until it is consumed or dropped; its state is truthful,
    /// and what it does to the container is what happens to `self`.
    pub fn entry<T: Send + Sync + 'static>(&mut self) -> (e: Entry<'_, T>)
        ensures
            e.wf(),
            e.now() == old(self)@,
            *final(e.host_of()) == *final(self),
            e is Occupied <==> old(self)@.contains_key(e.key_of()),
    {
        let key = type_key::<T>();
        if self.slot_contains(key) {
            Entry::Occupied(OccupiedEntry { host: self, key, marker: PhantomData })
        } else {
            Entry::Vacant(VacantEntry { host: self, key, marker: PhantomData })
        }
    }
}

impl<'a, T: Send + Sync + 'static> VacantEntry<'a, T> {
    /// Sets the value of this known-empty slot to `value` and returns a
    /// mutable reference to it; a slot known vacant cannot fail to accept an
    /// insert. The container ends with exactly one slot more, under this
    /// entry's key.
    pub fn insert(self, value: T) -> (r: &'a mut T)
        requires
            self.wf(),
        ensures
            (*final(self.host_of()))@.dom() == self.now().dom().insert(self.key_of()),
            exists|ev: ErasedValue| #![auto] (*final(self.host_of()))@ == self.now().insert(
                self.key_of(),
                ev,
            ),
    {
        let VacantEntry { host, key, marker: _ } = self;
        let boxed = ErasedValue::new(value);
        let _ = host.slot_insert(key, boxed);
        let slot = host.slot_get_mut(key).unwrap();
        proof {
            assert((*old(self.host))@.insert(key, boxed).insert(key, *final(slot)) =~= (*old(
                self.host,
            ))@.insert(key, *final(slot)));
        }
        slot.downcast_mut::<T>()
    }
}

impl<'a, T: Send + Sync + 'static> OccupiedEntry<'a, T> {
    /// Borrows the value in this known-occupied slot.
    ///
    /// What the reference points at lives behind the type-erasure boundary,
    /// so nothing further can be stated of it here; the slot itself is not
    /// changed by a shared borrow.
    pub fn get(&self) -> &T
        requires
            self.wf(),
    {
        let slot = self.host.slot_get(self.key);
        slot.unwrap().downcast_ref::<T>()
    }

    /// Mutably borrows the value in this known-occupied slot. The view stays
    /// truthful and keeps its key, and the container keeps its key set:
    /// whatever is written through the reference stays inside this slot.
    pub fn get_mut(&mut self) -> (r: &mut T)
        requires
            old(self).wf(),
        ensures
            final(self).key_of() == old(self).key_of(),
            final(self).wf(),
            final(self).now().dom() == old(self).now().dom(),
            exists|ev: ErasedValue| #![auto] final(self).now() == old(self).now().insert(
                old(self).key_of(),
                ev,
            ),
    {
        let slot = self.host.slot_get_mut(self.key);
        let inner = slot.unwrap();
        proof {
            // seeds the postcondition's witness: `final(self)` cannot be read
            // here while `inner` still borrows the slot
            let witness = old(self).now().insert(old(self).key_of(), *final(inner));
            assert(witness == old(self).now().insert(old(self).key_of(), *final(inner)));
        }
        inner.downcast_mut::<T>()
    }

    /// Replaces the value in this known-occupied slot with `value`, returning
    /// the previous value; the view keeps its key and the container keeps
    /// its key set.
    pub fn insert(&mut self, value: T) -> (prev: T)
        requires
            old(self).wf(),
        ensures
            final(self).key_of() == old(self).key_of(),
            final(self).wf(),
            final(self).now().dom() == old(self).now().dom(),
            exists|ev: ErasedValue| #![auto] final(self).now() == old(self).now().insert(
                old(self).key_of(),
                ev,
            ),
    {
        let boxed = ErasedValue::new(value);
        let previous = self.host.slot_insert(self.key, boxed);
        proof {
            assert(final(self).now() == old(self).now().insert(old(self).key_of(), boxed));
        }
        previous.unwrap().downcast::<T>()
    }

    /// Takes the value out of this known-occupied slot, consuming the view;
    /// the slot is empty afterwards and the container has shrunk by exactly
    /// this one slot.
    pub fn remove(self) -> (r: T)
        requires
            self.wf(),
        ensures
            (*final(self.host_of()))@ == self.now().remove(self.key_of()),
    {
        let OccupiedEntry { host, key, marker: _ } = self;
        let previous = host.slot_remove(key);
        previous.unwrap().downcast::<T>()
    }

    /// Converts the view into a mutable reference to the value, whose
    /// lifetime is that of the exclusive borrow itself. The container keeps
    /// its key set: whatever is written through the reference stays inside
    /// this slot.
    pub fn into_mut(self) -> (r: &'a mut T)
        requires
            self.wf(),
        ensures
            (*final(self.host_of()))@.dom() == self.now().dom(),
            exists|ev: ErasedValue| #![auto] (*final(self.host_of()))@ == self.now().insert(
                self.key_of(),
                ev,
            ),
    {
        let OccupiedEntry { host, key, marker: _ } = self;
        let slot = host.slot_get_mut(key);
        proof {
            assert((*old(self.host))@.dom().insert(key) =~= (*old(self.host))@.dom());
        }
        let inner = slot.unwrap();
        proof {
            assert((*final(self.host_of()))@ == self.now().insert(self.key_of(), *final(inner)));
        }
        inner.downcast_mut::<T>()
    }
}

impl<'a, T: Send + Sync + 'static> Entry<'a, T> {
    /// Ensures a value is in the slot by inserting `default` if the entry was
    /// vacant, and returns a mutable reference to the value, either
    /// just-inserted or previously stored and unchanged.
    ///
    /// Prefer [`Entry::or_insert_with`] if constructing a `T` is expensive.
    pub fn or_insert(self, default: T) -> (r: &'a mut T)
        requires
            self.wf(),
        ensures
            (*final(self.host_of()))@.dom() == self.now().dom().insert(self.key_of()),
            exists|ev: ErasedValue| #![auto] (*final(self.host_of()))@ == self.now().insert(
                self.key_of(),
                ev,
            ),
    {
        match self {
            Entry::Vacant(vacant) => vacant.insert(default),
            Entry::Occupied(occupied) => {
                proof {
                    assert(self.now().dom().insert(self.key_of()) =~= self.now().dom());
                }
                occupied.into_mut()
            },
        }
    }

    /// Ensures a value is in the slot by inserting what `default` returns if
    /// the entry was vacant, and returns a mutable reference to the value.
    ///
    /// `default` is invoked exactly in the vacant case: the contract demands
    /// that it may be called at all only then, so a body calling it on an
    /// occupied entry would not verify, and on a vacant entry it promises a
    /// call's outcome. Prefer this to [`Entry::or_insert`] if constructing a
    /// `T` is expensive.
    pub fn or_insert_with<F: FnOnce() -> T>(self, default: F) -> (r: &'a mut T)
        requires
            self.wf(),
            self is Vacant ==> call_requires(default, ()),
        ensures
            (*final(self.host_of()))@.dom() == self.now().dom().insert(self.key_of()),
            exists|ev: ErasedValue| #![auto] (*final(self.host_of()))@ == self.now().insert(
                self.key_of(),
                ev,
            ),
            self is Vacant ==> exists|v: T| #![auto] call_ensures(default, (), v),
    {
        match self {
            Entry::Vacant(vacant) => {
                let value = default();
                vacant.insert(value)
            },
            Entry::Occupied(occupied) => {
                proof {
                    assert(self.now().dom().insert(self.key_of()) =~= self.now().dom());
                }
                occupied.into_mut()
            },
        }
    }

    /// Applies `f` to the stored value in place if the entry is occupied, and
    /// returns an entry over the same slot in the same state; on a vacant
    /// entry neither `f` nor any insertion happens and the container is left
    /// unchanged.
    #[must_use]
    pub fn and_modify<F: FnOnce(&mut T)>(self, f: F) -> (r: Entry<'a, T>)
        requires
            self.wf(),
            self is Occupied ==> forall|t: &mut T| call_requires(f, (t,)),
        ensures
            r.wf(),
            r is Occupied <==> self is Occupied,
            r.key_of() == self.key_of(),
            *final(r.host_of()) == *final(self.host_of()),
            r.now().dom() == self.now().dom(),
            self is Vacant ==> r.now() == self.now(),
            self is Occupied ==> exists|ev: ErasedValue|
                #![auto]
                r.now() == self.now().insert(self.key_of(), ev),
            self is Occupied ==> exists|t: &mut T| #![auto] call_ensures(f, (t,), ()),
    {
        match self {
            Entry::Vacant(vacant) => Entry::Vacant(vacant),
            Entry::Occupied(occupied) => {
                let OccupiedEntry { host, key, marker } = occupied;
                let slot = host.slot_get_mut(key);
                f(slot.unwrap().downcast_mut::<T>());
                proof {
                    assert(self.now().dom().insert(key) =~= self.now().dom());
                }
                Entry::Occupied(OccupiedEntry { host, key, marker })
            },
        }
    }

    /// Removes and returns the value if the entry is occupied; in either case
    /// the slot for this entry's key is empty afterwards.
    #[must_use]
    pub fn take(self) -> (r: Option<T>)
        requires
            self.wf(),
        ensures
            (*final(self.host_of()))@ == self.now().remove(self.key_of()),
            r is Some <==> self is Occupied,
            r is Some <==> self.now().contains_key(self.key_of()),
    {
        match self {
            Entry::Occupied(occupied) => Some(occupied.remove()),
            Entry::Vacant(vacant) => {
                proof {
                    assert((*vacant.host)@.remove(vacant.key) =~= (*vacant.host)@);
                }
                None
            },
        }
    }

    /// Returns the occupied view of this entry. Asking this of a vacant
    /// entry is a programming error, a fatal abort rather than a recoverable
    /// case, so the contract excludes that state outright.
    #[must_use]
    pub fn unwrap_occupied(self) -> (r: OccupiedEntry<'a, T>)
        requires
            self is Occupied,
        ensures
            r == self->Occupied_0,
    {
        match self {
            Entry::Occupied(occupied) => occupied,
            Entry::Vacant(_) => vstd::pervasive::unreached(),
        }
    }

    /// Returns the vacant view of this entry. Asking this of an occupied
    /// entry is a programming error, a fatal abort rather than a recoverable
    /// case, so the contract excludes that state outright.
    #[must_use]
    pub fn unwrap_vacant(self) -> (r: VacantEntry<'a, T>)
        requires
            self is Vacant,
        ensures
            r == self->Vacant_0,
    {
        match self {
            Entry::Vacant(vacant) => vacant,
            Entry::Occupied(_) => vstd::pervasive::unreached(),
        }
    }

    /// Returns a mutable reference to the stored value if the entry is
    /// occupied. Does not insert; a vacant entry leaves the container
    /// untouched.
    #[must_use]
    pub fn into_mut(self) -> (r: Option<&'a mut T>)
        requires
            self.wf(),
        ensures
            (*final(self.host_of()))@.dom() == self.now().dom(),
            r is Some <==> self is Occupied,
            self is Vacant ==> (*final(self.host_of()))@ == self.now(),
            self is Occupied ==> exists|ev: ErasedValue|
                #![auto]
                (*final(self.host_of()))@ == self.now().insert(self.key_of(), ev),
    {
        match self {
            Entry::Occupied(occupied) => {
                proof {
                    assert(self.now().dom().insert(self.key_of()) =~= self.now().dom());
                }
                Some(occupied.into_mut())
            },
            Entry::Vacant(_) => None,
        }
    }

    /// Narrows to the occupied view, or `None` if the entry is vacant.
    #[must_use]
    pub fn into_occupied(self) -> (r: Option<OccupiedEntry<'a, T>>)
        ensures
            r is Some <==> self is Occupied,
            self is Occupied ==> r->Some_0 == self->Occupied_0,
            self is Vacant ==> (*final(self.host_of()))@ == self.now(),
    {
        match self {
            Entry::Occupied(occupied) => Some(occupied),
            Entry::Vacant(_) => None,
        }
    }

    /// Narrows to the vacant view, or `None` if the entry is occupied.
    #[must_use]
    pub fn into_vacant(self) -> (r: Option<VacantEntry<'a, T>>)
        ensures
            r is Some <==> self is Vacant,
            self is Vacant ==> r->Some_0 == self->Vacant_0,
            self is Occupied ==> (*final(self.host_of()))@ == self.now(),
    {
        match self {
            Entry::Vacant(vacant) => Some(vacant),
            Entry::Occupied(_) => None,
        }
    }

    /// Whether this entry is vacant; a lightweight probe that does not
    /// consume the entry.
    #[must_use]
    pub fn is_empty(&self) -> (r: bool)
        ensures
            r == (self is Vacant),
    {
        matches!(self, Entry::Vacant(_))
    }

    /// Stores `value` in this entry's slot. If the entry was occupied, the
    /// previously stored value is returned; either way the slot holds the new
    /// value afterwards.
    pub fn insert(self, value: T) -> (prev: Option<T>)
        requires
            self.wf(),
        ensures
            (*final(self.host_of()))@.dom() == self.now().dom().insert(self.key_of()),
            exists|ev: ErasedValue| #![auto] (*final(self.host_of()))@ == self.now().insert(
                self.key_of(),
                ev,
            ),
            prev is Some <==> self is Occupied,
            prev is Some <==> self.now().contains_key(self.key_of()),
    {
        match self {
            Entry::Vacant(vacant) => {
                let VacantEntry { host, key, marker: _ } = vacant;
                let _ = host.slot_insert(key, ErasedValue::new(value));
                None
            },
            Entry::Occupied(occupied) => {
                let OccupiedEntry { host, key, marker: _ } = occupied;
                let previous = host.slot_insert(key, ErasedValue::new(value));
                proof {
                    assert(self.now().dom().insert(key) =~= self.now().dom());
                }
                Some(previous.unwrap().downcast::<T>())
            },
        }
    }
}

impl<'a, T: Default + Send + Sync + 'static> Entry<'a, T> {
    /// Ensures a value is in the slot by inserting `T`'s default value if the
    /// entry was vacant, and returns a mutable reference to the value.
    ///
    /// Equivalent to `or_insert_with` with the default constructor; like
    /// there, the constructor runs exactly in the vacant case.
    pub fn or_default(self) -> (r: &'a mut T)
        requires
            self.wf(),
        ensures
            (*final(self.host_of()))@.dom() == self.now().dom().insert(self.key_of()),
            exists|ev: ErasedValue| #![auto] (*final(self.host_of()))@ == self.now().insert(
                self.key_of(),
                ev,
            ),
            self is Vacant ==> exists|v: T| #![auto] call_ensures(T::default, (), v),
    {
        self.or_insert_with(T::default)
    }
}

} // verus!
