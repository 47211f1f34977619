//! The trusted boundary of the container: type identities, the type-erased
//! value box, and the two map operations that vstd leaves unspecified.
//!
//! Everything behind `#[verifier::external_body]` here is believed, not
//! proved. Each item's doc comment names the library function relied on.

use vstd::prelude::*;
use core::any::Any;
use core::any::TypeId;
use core::hash::Hash;
use core::hash::Hasher;
use std::collections::BTreeMap;
use std::collections::hash_map::DefaultHasher;

verus! {

/// An owning, type-erased box holding exactly one value of some concrete
/// type. The box remembers, at runtime, which concrete type it holds and can
/// recover the value for that type and no other.
///
/// To the verifier this type is opaque: a stored value is an abstract value,
/// and nothing of the boxed content is visible to specifications. The
/// container's verified logic moves these boxes between slots; only the
/// trusted functions below look inside one.
#[verifier::external_body]
pub struct ErasedValue {
    boxed: Box<dyn Any + Send + Sync>,
}

/// The 64-bit key under which the container stores values of type `T`.
///
/// Relies on `core::any::TypeId::of`: within one process it returns the same
/// identity whenever it is called for the same type, and distinct types have
/// distinct identities. The identity is folded to 64 bits with
/// `std::collections::hash_map::DefaultHasher`, whose `new` constructor is
/// documented to produce identically behaving hashers, so the folding is a
/// fixed function of the type.
///
/// This folding is the crate's one trusted wager: two distinct types are
/// taken to fold to distinct keys. `TypeId` already stakes soundness on its
/// own full-width hash not colliding; keying by 64 bits of it widens that
/// exposure, though a collision stays astronomically unlikely for any
/// realistic number of distinct stored types. A wider key would take
/// assembling one from several hashes, arithmetic that has no place in a
/// trusted body, so the narrowing is accepted and recorded here. A collision
/// would make the container treat the two types as one identity: recovering a
/// value then ends in the diagnosed abort below.
#[verifier::external_body]
pub(crate) fn type_key<T: Send + Sync + 'static>() -> u64 {
    let mut hasher = DefaultHasher::new();
    TypeId::of::<T>().hash(&mut hasher);
    hasher.finish()
}

impl ErasedValue {
    /// Erases `value` into a box.
    ///
    /// Relies on `Box::new` and the coercion to `dyn Any`: the box holds the
    /// given value and nothing else, tagged with its concrete type.
    #[verifier::external_body]
    pub(crate) fn new<T: Send + Sync + 'static>(value: T) -> ErasedValue {
        ErasedValue { boxed: Box::new(value) }
    }

    /// Recovers the stored value, consuming the box.
    ///
    /// Relies on `Box::<dyn Any>::downcast`: it succeeds exactly when the box
    /// holds a value of the requested type. The container stores every box
    /// under the key derived from its own type, so a mismatch here is an
    /// internal invariant violation; per the failure model it is a fatal
    /// abort with a diagnostic, not a recoverable error.
    #[verifier::external_body]
    pub(crate) fn downcast<T: Send + Sync + 'static>(self) -> T {
        *self.boxed.downcast::<T>().ok().expect("typeset: the slot does not hold the requested type")
    }

    /// Borrows the stored value.
    ///
    /// Relies on `core::any::Any::downcast_ref`, with the same invariant and
    /// failure model as `downcast`.
    #[verifier::external_body]
    pub(crate) fn downcast_ref<T: Send + Sync + 'static>(&self) -> &T {
        self.boxed.downcast_ref::<T>().expect("typeset: the slot does not hold the requested type")
    }

    /// Mutably borrows the stored value.
    ///
    /// Relies on `core::any::Any::downcast_mut`, with the same invariant and
    /// failure model as `downcast`. The verifier learns nothing of what the
    /// caller writes through the returned reference, so a slot handed out this
    /// way holds an arbitrary erased value afterwards; contracts over the
    /// container say exactly that.
    #[verifier::external_body]
    pub(crate) fn downcast_mut<T: Send + Sync + 'static>(&mut self) -> &mut T {
        self.boxed.downcast_mut::<T>().expect("typeset: the slot does not hold the requested type")
    }
}

/// Mutable access to the value stored under `key`, if any.
///
/// Relies on `BTreeMap::get_mut`, which vstd does not specify: it returns a
/// reference to the value under `key` when one is present and `None`
/// otherwise, and the only entry the caller can reach through the result is
/// the one under `key`; every other entry, and the key set, stay as they were.
#[verifier::external_body]
pub(crate) fn map_get_mut<'a>(map: &'a mut BTreeMap<u64, ErasedValue>, key: u64) -> (r: Option<
    &'a mut ErasedValue,
>)
    ensures
        match r {
            Some(v) => old(map)@.contains_key(key) && *v == old(map)@[key] && final(map)@ == old(
                map,
            )@.insert(key, *final(v)),
            None => !old(map)@.contains_key(key) && final(map)@ == old(map)@,
        },
{
    map.get_mut(&key)
}

/// Removes and returns some entry of the map, or `None` when it is empty.
///
/// Relies on `BTreeMap::pop_first`, which vstd does not specify: it removes
/// and returns the entry with the least key when the map is non-empty, and
/// returns `None` exactly when the map is empty.
#[verifier::external_body]
pub(crate) fn map_pop_first(map: &mut BTreeMap<u64, ErasedValue>) -> (r: Option<
    (u64, ErasedValue),
>)
    ensures
        match r {
            Some(kv) => old(map)@.contains_key(kv.0) && kv.1 == old(map)@[kv.0] && final(map)@
                == old(map)@.remove(kv.0),
            None => old(map)@.len() == 0 && final(map)@ == old(map)@,
        },
{
    map.pop_first()
}

} // verus!
