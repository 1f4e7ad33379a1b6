//! Fields that a type held in earlier data versions and no longer holds.
use vstd::prelude::*;

use crate::error::SavefileError;
use crate::packed::{Layout, Packed};
use crate::serializer::{Deserializer, Serializer};
use crate::traits::{Deserialize, Model, Roundtrip, Serialize};

verus! {

/// Stands in for a field of type `T` that only older data versions hold.
///
/// Reading such a version reads the old value and drops it; nothing of it is
/// kept, and it cannot be written.
#[derive(Debug, PartialEq)]
pub struct Removed<T> {
    phantom: core::marker::PhantomData<T>,
}

impl<T> Removed<T> {
    /// The placeholder value.
    pub fn new() -> (r: Removed<T>) {
        Removed { phantom: core::marker::PhantomData }
    }
}

impl<T> Model for Removed<T> {
    /// Nothing is kept.
    type M = ();

    open spec fn model(&self) -> () {
        ()
    }
}

impl<T: Serialize> Serialize for Removed<T> {
    /// A removed field is never written.
    open spec fn valid(version: u32, m: ()) -> bool {
        false
    }

    open spec fn encode(version: u32, m: ()) -> Seq<u8> {
        Seq::empty()
    }

    fn serialize(&self, serializer: &mut Serializer) -> (r: Result<(), SavefileError>) {
        Err(SavefileError::WrongVersion)
    }
}

impl<T: Deserialize> Deserialize for Removed<T> {
    /// The old value is read as a `T`, and dropped.
    open spec fn decode(version: u32, s: Seq<u8>) -> Option<((), nat)> {
        match T::decode(version, s) {
            Some((_, n)) => Some(((), n)),
            None => None,
        }
    }

    fn deserialize(deserializer: &mut Deserializer) -> (r: Result<Removed<T>, SavefileError>) {
        match T::deserialize(deserializer) {
            Ok(_) => Ok(Removed::new()),
            Err(e) => Err(e),
        }
    }
}

impl<T: Roundtrip> Roundtrip for Removed<T> {
    open spec fn read_back(version: u32, m: ()) -> () {
        ()
    }

    proof fn lemma_roundtrip(version: u32, m: (), rest: Seq<u8>) {
    }
}

/// Makes the value that stands in for a removed field when it is written for
/// an older reader.
pub trait ValueConstructor<T: Model> {
    /// The model of the value made.
    spec fn value_model() -> <T as Model>::M;

    /// Makes the value.
    fn make_value() -> (r: T)
        ensures
            r.model() == Self::value_model(),
    ;
}

/// Makes the zero of a number type.
#[derive(Debug, PartialEq)]
pub struct DefaultValueConstructor<T> {
    phantom: core::marker::PhantomData<T>,
}

impl ValueConstructor<u32> for DefaultValueConstructor<u32> {
    open spec fn value_model() -> u32 {
        0
    }

    fn make_value() -> (r: u32) {
        0
    }
}

impl ValueConstructor<u64> for DefaultValueConstructor<u64> {
    open spec fn value_model() -> u64 {
        0
    }

    fn make_value() -> (r: u64) {
        0
    }
}

/// Stands in for a field of type `T` that an interface no longer has, but that
/// an older version of it still expects: the field is written as the value `C`
/// makes, and read and dropped.
#[derive(Debug, PartialEq)]
pub struct AbiRemoved<T, C = DefaultValueConstructor<T>> {
    phantom: core::marker::PhantomData<(T, C)>,
}

impl<T, C> AbiRemoved<T, C> {
    /// The placeholder value.
    pub fn new() -> (r: AbiRemoved<T, C>) {
        AbiRemoved { phantom: core::marker::PhantomData }
    }
}

impl<T, C> Model for AbiRemoved<T, C> {
    /// Nothing is kept.
    type M = ();

    open spec fn model(&self) -> () {
        ()
    }
}

impl<T: Serialize, C: ValueConstructor<T>> Serialize for AbiRemoved<T, C> {
    open spec fn valid(version: u32, m: ()) -> bool {
        T::valid(version, C::value_model())
    }

    /// The value `C` makes.
    open spec fn encode(version: u32, m: ()) -> Seq<u8> {
        T::encode(version, C::value_model())
    }

    fn serialize(&self, serializer: &mut Serializer) -> (r: Result<(), SavefileError>) {
        let value = C::make_value();
        value.serialize(serializer)
    }
}

impl<T: Deserialize, C> Deserialize for AbiRemoved<T, C> {
    /// The old value is read as a `T`, and dropped.
    open spec fn decode(version: u32, s: Seq<u8>) -> Option<((), nat)> {
        match T::decode(version, s) {
            Some((_, n)) => Some(((), n)),
            None => None,
        }
    }

    fn deserialize(deserializer: &mut Deserializer) -> (r: Result<AbiRemoved<T, C>, SavefileError>) {
        match T::deserialize(deserializer) {
            Ok(_) => Ok(AbiRemoved::new()),
            Err(e) => Err(e),
        }
    }
}

impl<T: Roundtrip, C: ValueConstructor<T>> Roundtrip for AbiRemoved<T, C> {
    open spec fn read_back(version: u32, m: ()) -> () {
        ()
    }

    proof fn lemma_roundtrip(version: u32, m: (), rest: Seq<u8>) {
        T::lemma_roundtrip(version, C::value_model(), rest);
    }
}

impl<T> Packed for Removed<T> {
    /// What is saved is not what is in memory.
    open spec fn packed_layout(version: u32) -> Layout {
        None
    }

    fn layout(version: u32) -> (r: Option<(u64, u64)>) {
        None
    }
}

} // verus!
