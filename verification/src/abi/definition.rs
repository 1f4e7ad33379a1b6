//! Descriptions of interfaces whose methods can be called across a library boundary.
use vstd::prelude::*;

use crate::error::SavefileError;
use crate::le::{le_bytes, le_value, lemma_le_roundtrip, pow256};
use crate::serializer::{Deserializer, Serializer};
use crate::traits::{Deserialize, Model, Roundtrip, Serialize};
use crate::schema::Schema;

verus! {

/// How a method receives its object: by shared reference, by exclusive reference, or pinned.
#[derive(Debug, PartialEq, Clone, Copy)]
pub enum ReceiverType {
    Shared,
    Mut,
    PinMut,
}

/// The model of a [`ReceiverType`]: the same variant, with the models of its fields.
pub enum ReceiverTypeModel {
    Shared,
    Mut,
    PinMut,
}

impl Model for ReceiverType {
    type M = ReceiverTypeModel;

    open spec fn model(&self) -> ReceiverTypeModel {
        match self {
            ReceiverType::Shared => ReceiverTypeModel::Shared,
            ReceiverType::Mut => ReceiverTypeModel::Mut,
            ReceiverType::PinMut => ReceiverTypeModel::PinMut,
        }
    }
}

impl Serialize for ReceiverType {
    open spec fn valid(version: u32, m: ReceiverTypeModel) -> bool {
        match m {
            ReceiverTypeModel::Shared => true,
            ReceiverTypeModel::Mut => true,
            ReceiverTypeModel::PinMut => true,
        }
    }

    /// The position of the variant in the declaration, as 1 byte(s), then the fields of the variant.
    open spec fn encode(version: u32, m: ReceiverTypeModel) -> Seq<u8> {
        match m {
            ReceiverTypeModel::Shared => le_bytes(0, 1),
            ReceiverTypeModel::Mut => le_bytes(1, 1),
            ReceiverTypeModel::PinMut => le_bytes(2, 1),
        }
    }

    fn serialize(&self, serializer: &mut Serializer) -> (r: Result<(), SavefileError>) {
        let ghost version = serializer.file_version;
        let ghost start0 = serializer.writer@;
        match self {
            ReceiverType::Shared => {
                serializer.write_u8(0);
            },
            ReceiverType::Mut => {
                serializer.write_u8(1);
            },
            ReceiverType::PinMut => {
                serializer.write_u8(2);
            },
        }
        assert(serializer.writer@ =~= old(serializer).writer@ + Self::encode(
            old(serializer).file_version,
            self.model(),
        ));
        Ok(())
    }
}

impl Deserialize for ReceiverType {
    /// Unknown variant numbers are refused.
    open spec fn decode(version: u32, s: Seq<u8>) -> Option<(ReceiverTypeModel, nat)> {
        if s.len() < 1 {
            None
        } else if le_value(s.take(1)) == 0 {
            Some((ReceiverTypeModel::Shared, 1))
        } else if le_value(s.take(1)) == 1 {
            Some((ReceiverTypeModel::Mut, 1))
        } else if le_value(s.take(1)) == 2 {
            Some((ReceiverTypeModel::PinMut, 1))
        } else {
            None
        }
    }

    fn deserialize(deserializer: &mut Deserializer) -> (r: Result<ReceiverType, SavefileError>) {
        let ghost s0 = deserializer.rest();
        let tag = match deserializer.read_uint(1) {
            Ok(t) => t,
            Err(e) => {
                return Err(e);
            },
        };
        assert(deserializer.rest() =~= s0.skip(1));
        if tag == 0 {
            Ok(ReceiverType::Shared)
        } else if tag == 1 {
            Ok(ReceiverType::Mut)
        } else if tag == 2 {
            Ok(ReceiverType::PinMut)
        } else {
            Err(SavefileError::BadDiscriminant)
        }
    }
}

impl Roundtrip for ReceiverType {
    open spec fn read_back(version: u32, m: ReceiverTypeModel) -> ReceiverTypeModel {
        match m {
            ReceiverTypeModel::Shared => ReceiverTypeModel::Shared,
            ReceiverTypeModel::Mut => ReceiverTypeModel::Mut,
            ReceiverTypeModel::PinMut => ReceiverTypeModel::PinMut,
        }
    }

    proof fn lemma_roundtrip(version: u32, m: ReceiverTypeModel, rest: Seq<u8>) {
        reveal_with_fuel(pow256, 2);
        let all = Self::encode(version, m) + rest;
        match m {
            ReceiverTypeModel::Shared => {
                lemma_le_roundtrip(0, 1);
                assert(all.take(1) =~= le_bytes(0, 1));
            },
            ReceiverTypeModel::Mut => {
                lemma_le_roundtrip(1, 1);
                assert(all.take(1) =~= le_bytes(1, 1));
            },
            ReceiverTypeModel::PinMut => {
                lemma_le_roundtrip(2, 1);
                assert(all.take(1) =~= le_bytes(2, 1));
            },
        }
    }
}

/// One argument of a method: the schema of its type.
#[derive(Debug, PartialEq, Clone)]
pub struct AbiMethodArgument {
    pub schema: Schema,
}

impl Model for AbiMethodArgument {
    /// The models of the fields, in order.
    type M = <Schema as Model>::M;

    open spec fn model(&self) -> <Schema as Model>::M {
        self.schema.model()
    }
}

impl Serialize for AbiMethodArgument {
    open spec fn valid(version: u32, m: <Schema as Model>::M) -> bool {
        <Schema as Serialize>::valid(version, m)
    }

    /// The fields, one after the other.
    open spec fn encode(version: u32, m: <Schema as Model>::M) -> Seq<u8> {
        <Schema as Serialize>::encode(version, m)
    }

    fn serialize(&self, serializer: &mut Serializer) -> (r: Result<(), SavefileError>) {
        match self.schema.serialize(serializer) {
            Ok(()) => {},
            Err(e) => {
                return Err(e);
            },
        }
        assert(serializer.writer@ =~= old(serializer).writer@ + Self::encode(
            old(serializer).file_version,
            self.model(),
        ));
        Ok(())
    }
}

impl Deserialize for AbiMethodArgument {
    open spec fn decode(version: u32, s: Seq<u8>) -> Option<(<Schema as Model>::M, nat)> {
        <Schema as Deserialize>::decode(version, s)
    }

    fn deserialize(deserializer: &mut Deserializer) -> (r: Result<AbiMethodArgument, SavefileError>) {
        match <Schema as Deserialize>::deserialize(deserializer) {
            Ok(v0) => Ok(AbiMethodArgument { schema: v0 }),
            Err(e) => Err(e),
        }
    }
}

impl Roundtrip for AbiMethodArgument {
    open spec fn read_back(version: u32, m: <Schema as Model>::M) -> <Schema as Model>::M {
        <Schema as Roundtrip>::read_back(version, m)
    }

    proof fn lemma_roundtrip(version: u32, m: <Schema as Model>::M, rest: Seq<u8>) {
        <Schema as Roundtrip>::lemma_roundtrip(version, m, rest);
    }
}

/// The signature of a method: its return type, receiver and arguments.
#[derive(Debug, PartialEq, Clone)]
pub struct AbiMethodInfo {
    pub return_value: Schema,
    pub receiver: ReceiverType,
    pub arguments: Vec<AbiMethodArgument>,
    pub async_trait_heuristic: bool,
}

impl Model for AbiMethodInfo {
    /// The models of the fields, in order.
    type M = <(Schema, ReceiverType, (Vec<AbiMethodArgument>, bool)) as Model>::M;

    open spec fn model(&self) -> <(Schema, ReceiverType, (Vec<AbiMethodArgument>, bool)) as Model>::M {
        (self.return_value.model(), self.receiver.model(), (self.arguments.model(), self.async_trait_heuristic.model()))
    }
}

impl Serialize for AbiMethodInfo {
    open spec fn valid(version: u32, m: <(Schema, ReceiverType, (Vec<AbiMethodArgument>, bool)) as Model>::M) -> bool {
        <(Schema, ReceiverType, (Vec<AbiMethodArgument>, bool)) as Serialize>::valid(version, m)
    }

    /// The fields, one after the other.
    open spec fn encode(version: u32, m: <(Schema, ReceiverType, (Vec<AbiMethodArgument>, bool)) as Model>::M) -> Seq<u8> {
        <(Schema, ReceiverType, (Vec<AbiMethodArgument>, bool)) as Serialize>::encode(version, m)
    }

    fn serialize(&self, serializer: &mut Serializer) -> (r: Result<(), SavefileError>) {
        match self.return_value.serialize(serializer) {
            Ok(()) => {},
            Err(e) => {
                return Err(e);
            },
        }
        match self.receiver.serialize(serializer) {
            Ok(()) => {},
            Err(e) => {
                return Err(e);
            },
        }
        match self.arguments.serialize(serializer) {
            Ok(()) => {},
            Err(e) => {
                return Err(e);
            },
        }
        match self.async_trait_heuristic.serialize(serializer) {
            Ok(()) => {},
            Err(e) => {
                return Err(e);
            },
        }
        assert(serializer.writer@ =~= old(serializer).writer@ + Self::encode(
            old(serializer).file_version,
            self.model(),
        ));
        Ok(())
    }
}

impl Deserialize for AbiMethodInfo {
    open spec fn decode(version: u32, s: Seq<u8>) -> Option<(<(Schema, ReceiverType, (Vec<AbiMethodArgument>, bool)) as Model>::M, nat)> {
        <(Schema, ReceiverType, (Vec<AbiMethodArgument>, bool)) as Deserialize>::decode(version, s)
    }

    fn deserialize(deserializer: &mut Deserializer) -> (r: Result<AbiMethodInfo, SavefileError>) {
        match <(Schema, ReceiverType, (Vec<AbiMethodArgument>, bool)) as Deserialize>::deserialize(deserializer) {
            Ok((v0, v1, (v2, v3))) => Ok(AbiMethodInfo { return_value: v0, receiver: v1, arguments: v2, async_trait_heuristic: v3 }),
            Err(e) => Err(e),
        }
    }
}

impl Roundtrip for AbiMethodInfo {
    open spec fn read_back(version: u32, m: <(Schema, ReceiverType, (Vec<AbiMethodArgument>, bool)) as Model>::M) -> <(Schema, ReceiverType, (Vec<AbiMethodArgument>, bool)) as Model>::M {
        <(Schema, ReceiverType, (Vec<AbiMethodArgument>, bool)) as Roundtrip>::read_back(version, m)
    }

    proof fn lemma_roundtrip(version: u32, m: <(Schema, ReceiverType, (Vec<AbiMethodArgument>, bool)) as Model>::M, rest: Seq<u8>) {
        <(Schema, ReceiverType, (Vec<AbiMethodArgument>, bool)) as Roundtrip>::lemma_roundtrip(version, m, rest);
    }
}

/// A method of an interface: its name and signature.
#[derive(Debug, PartialEq, Clone)]
pub struct AbiMethod {
    pub name: String,
    pub info: AbiMethodInfo,
}

impl Model for AbiMethod {
    /// The models of the fields, in order.
    type M = <(String, AbiMethodInfo) as Model>::M;

    open spec fn model(&self) -> <(String, AbiMethodInfo) as Model>::M {
        (self.name.model(), self.info.model())
    }
}

impl Serialize for AbiMethod {
    open spec fn valid(version: u32, m: <(String, AbiMethodInfo) as Model>::M) -> bool {
        <(String, AbiMethodInfo) as Serialize>::valid(version, m)
    }

    /// The fields, one after the other.
    open spec fn encode(version: u32, m: <(String, AbiMethodInfo) as Model>::M) -> Seq<u8> {
        <(String, AbiMethodInfo) as Serialize>::encode(version, m)
    }

    fn serialize(&self, serializer: &mut Serializer) -> (r: Result<(), SavefileError>) {
        match self.name.serialize(serializer) {
            Ok(()) => {},
            Err(e) => {
                return Err(e);
            },
        }
        match self.info.serialize(serializer) {
            Ok(()) => {},
            Err(e) => {
                return Err(e);
            },
        }
        assert(serializer.writer@ =~= old(serializer).writer@ + Self::encode(
            old(serializer).file_version,
            self.model(),
        ));
        Ok(())
    }
}

impl Deserialize for AbiMethod {
    open spec fn decode(version: u32, s: Seq<u8>) -> Option<(<(String, AbiMethodInfo) as Model>::M, nat)> {
        <(String, AbiMethodInfo) as Deserialize>::decode(version, s)
    }

    fn deserialize(deserializer: &mut Deserializer) -> (r: Result<AbiMethod, SavefileError>) {
        match <(String, AbiMethodInfo) as Deserialize>::deserialize(deserializer) {
            Ok((v0, v1)) => Ok(AbiMethod { name: v0, info: v1 }),
            Err(e) => Err(e),
        }
    }
}

impl Roundtrip for AbiMethod {
    open spec fn read_back(version: u32, m: <(String, AbiMethodInfo) as Model>::M) -> <(String, AbiMethodInfo) as Model>::M {
        <(String, AbiMethodInfo) as Roundtrip>::read_back(version, m)
    }

    proof fn lemma_roundtrip(version: u32, m: <(String, AbiMethodInfo) as Model>::M, rest: Seq<u8>) {
        <(String, AbiMethodInfo) as Roundtrip>::lemma_roundtrip(version, m, rest);
    }
}

/// An interface: its name and its methods, in declaration order.
#[derive(Debug, PartialEq, Clone)]
pub struct AbiTraitDefinition {
    pub name: String,
    pub methods: Vec<AbiMethod>,
}

impl Model for AbiTraitDefinition {
    /// The models of the fields, in order.
    type M = <(String, Vec<AbiMethod>) as Model>::M;

    open spec fn model(&self) -> <(String, Vec<AbiMethod>) as Model>::M {
        (self.name.model(), self.methods.model())
    }
}

impl Serialize for AbiTraitDefinition {
    open spec fn valid(version: u32, m: <(String, Vec<AbiMethod>) as Model>::M) -> bool {
        <(String, Vec<AbiMethod>) as Serialize>::valid(version, m)
    }

    /// The fields, one after the other.
    open spec fn encode(version: u32, m: <(String, Vec<AbiMethod>) as Model>::M) -> Seq<u8> {
        <(String, Vec<AbiMethod>) as Serialize>::encode(version, m)
    }

    fn serialize(&self, serializer: &mut Serializer) -> (r: Result<(), SavefileError>) {
        match self.name.serialize(serializer) {
            Ok(()) => {},
            Err(e) => {
                return Err(e);
            },
        }
        match self.methods.serialize(serializer) {
            Ok(()) => {},
            Err(e) => {
                return Err(e);
            },
        }
        assert(serializer.writer@ =~= old(serializer).writer@ + Self::encode(
            old(serializer).file_version,
            self.model(),
        ));
        Ok(())
    }
}

impl Deserialize for AbiTraitDefinition {
    open spec fn decode(version: u32, s: Seq<u8>) -> Option<(<(String, Vec<AbiMethod>) as Model>::M, nat)> {
        <(String, Vec<AbiMethod>) as Deserialize>::decode(version, s)
    }

    fn deserialize(deserializer: &mut Deserializer) -> (r: Result<AbiTraitDefinition, SavefileError>) {
        match <(String, Vec<AbiMethod>) as Deserialize>::deserialize(deserializer) {
            Ok((v0, v1)) => Ok(AbiTraitDefinition { name: v0, methods: v1 }),
            Err(e) => Err(e),
        }
    }
}

impl Roundtrip for AbiTraitDefinition {
    open spec fn read_back(version: u32, m: <(String, Vec<AbiMethod>) as Model>::M) -> <(String, Vec<AbiMethod>) as Model>::M {
        <(String, Vec<AbiMethod>) as Roundtrip>::read_back(version, m)
    }

    proof fn lemma_roundtrip(version: u32, m: <(String, Vec<AbiMethod>) as Model>::M, rest: Seq<u8>) {
        <(String, Vec<AbiMethod>) as Roundtrip>::lemma_roundtrip(version, m, rest);
    }
}

} // verus!
