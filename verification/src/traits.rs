//! The traits that tie a type to its byte encoding.
use vstd::prelude::*;

use crate::error::SavefileError;
use crate::serializer::{Deserializer, Serializer};

verus! {

/// A mathematical description of a value, in which the encodings are stated.
pub trait Model {
    /// The type of the description.
    type M;

    /// The description of this value.
    spec fn model(&self) -> Self::M;
}

/// A type whose values can be written as bytes.
///
/// What is written may depend on the data version: parts of a type can be
/// added or removed in later versions of a program.
pub trait Serialize: Model {
    /// Whether a value with description `m` can be written for data version `version`.
    spec fn valid(version: u32, m: Self::M) -> bool;

    /// The bytes that represent a value with description `m` in data version `version`.
    spec fn encode(version: u32, m: Self::M) -> Seq<u8>;

    /// Appends the encoding of this value, for the serializer's data version.
    fn serialize(&self, serializer: &mut Serializer) -> (r: Result<(), SavefileError>)
        ensures
            final(serializer).file_version == old(serializer).file_version,
            Self::valid(old(serializer).file_version, self.model()) ==> r is Ok
                && final(serializer).writer@ == old(serializer).writer@ + Self::encode(
                old(serializer).file_version,
                self.model(),
            ),
            !Self::valid(old(serializer).file_version, self.model()) ==> r is Err,
    ;
}

/// A type whose values can be read back from bytes.
pub trait Deserialize: Model + Sized {
    /// What the front of `s` decodes to in data version `version`, and how many
    /// bytes that takes; `None` where the front of `s` is not an encoding of any value.
    spec fn decode(version: u32, s: Seq<u8>) -> Option<(Self::M, nat)>;

    /// Reads one value from the front of the unread input.
    fn deserialize(deserializer: &mut Deserializer) -> (r: Result<Self, SavefileError>)
        requires
            old(deserializer).wf(),
        ensures
            final(deserializer).wf(),
            final(deserializer).reader@ == old(deserializer).reader@,
            final(deserializer).file_version == old(deserializer).file_version,
            match Self::decode(old(deserializer).file_version, old(deserializer).rest()) {
                Some((m, n)) => (r matches Ok(v) && v.model() == m && old(deserializer).advanced(
                    &*final(deserializer),
                    n,
                )),
                None => r is Err,
            },
    ;
}

/// A type for which reading back what was written gives the value that was written,
/// except for the parts the data version does not store.
pub trait Roundtrip: Serialize + Deserialize {
    /// What reading back a value written in data version `version` gives: the value,
    /// with the parts that the version does not store set to their defaults.
    spec fn read_back(version: u32, m: <Self as Model>::M) -> <Self as Model>::M;

    /// Decoding the encoding of a writable value, followed by any bytes, gives the
    /// value as read back, and consumes exactly its encoding.
    proof fn lemma_roundtrip(version: u32, m: <Self as Model>::M, rest: Seq<u8>)
        requires
            Self::valid(version, m),
        ensures
            Self::decode(version, Self::encode(version, m) + rest) == Some(
                (Self::read_back(version, m), Self::encode(version, m).len()),
            ),
    ;
}

} // verus!
