//! Generic records and enums.
use vstd::prelude::*;

use crate::error::SavefileError;
use crate::le::{le_bytes, le_value, lemma_le_roundtrip, pow256};
use crate::packed::{close_record, combine_variant, enum_layout, number_layout, place_field, record_layout, Layout, Packed};
use crate::schema::nodes::{SchemaNode, SchemaNodeModel};
use crate::schema::with_schema::{push_enum, push_field, push_struct, push_variant, WithSchema};
use crate::serializer::{Deserializer, Serializer};
use crate::traits::{Deserialize, Model, Roundtrip, Serialize};

verus! {

/// A record around one value of any type.
#[derive(Debug, PartialEq)]
pub struct ExampleGeneric<T> {
    pub x: T,
}

impl<T: Model> Model for ExampleGeneric<T> {
    /// The models of the fields, in order.
    type M = <T as Model>::M;

    open spec fn model(&self) -> <T as Model>::M {
        self.x.model()
    }
}

impl<T: Serialize> Serialize for ExampleGeneric<T> {
    open spec fn valid(version: u32, m: <T as Model>::M) -> bool {
        <T as Serialize>::valid(version, m)
    }

    /// The fields, one after the other.
    open spec fn encode(version: u32, m: <T as Model>::M) -> Seq<u8> {
        <T as Serialize>::encode(version, m)
    }

    fn serialize(&self, serializer: &mut Serializer) -> (r: Result<(), SavefileError>) {
        match self.x.serialize(serializer) {
            Ok(()) => {},
            Err(e) => {
                return Err(e);
            },
        }
        assert(serializer.writer@ =~= old(serializer).writer@ + Self::encode(
            old(serializer).file_version,
            self.model(),
        ));
        Ok(())
    }
}

impl<T: Deserialize> Deserialize for ExampleGeneric<T> {
    open spec fn decode(version: u32, s: Seq<u8>) -> Option<(<T as Model>::M, nat)> {
        <T as Deserialize>::decode(version, s)
    }

    fn deserialize(deserializer: &mut Deserializer) -> (r: Result<ExampleGeneric<T>, SavefileError>) {
        match <T as Deserialize>::deserialize(deserializer) {
            Ok(v0) => Ok(ExampleGeneric { x: v0 }),
            Err(e) => Err(e),
        }
    }
}

impl<T: Roundtrip> Roundtrip for ExampleGeneric<T> {
    open spec fn read_back(version: u32, m: <T as Model>::M) -> <T as Model>::M {
        <T as Roundtrip>::read_back(version, m)
    }

    proof fn lemma_roundtrip(version: u32, m: <T as Model>::M, rest: Seq<u8>) {
        <T as Roundtrip>::lemma_roundtrip(version, m, rest);
    }
}

impl<T: WithSchema> WithSchema for ExampleGeneric<T> {
    open spec fn schema_nodes(version: u32) -> Seq<SchemaNodeModel> {
        seq![SchemaNodeModel::Struct(("ExampleGeneric"@, 1usize))]
            + seq![SchemaNodeModel::Field(("x"@, false))] + <T as WithSchema>::schema_nodes(version)
    }

    fn schema(version: u32, nodes: &mut Vec<SchemaNode>) {
        let count: usize = 1;
        push_struct(nodes, "ExampleGeneric", count);
        push_field(nodes, "x", false);
        <T as WithSchema>::schema(version, nodes);
        assert(nodes.model() =~= old(nodes).model() + Self::schema_nodes(version));
    }
}

/// A second record around one value of any type.
#[derive(Debug, PartialEq)]
pub struct ExampleGeneric2<T> {
    pub x: T,
}

impl<T: Model> Model for ExampleGeneric2<T> {
    /// The models of the fields, in order.
    type M = <T as Model>::M;

    open spec fn model(&self) -> <T as Model>::M {
        self.x.model()
    }
}

impl<T: Serialize> Serialize for ExampleGeneric2<T> {
    open spec fn valid(version: u32, m: <T as Model>::M) -> bool {
        <T as Serialize>::valid(version, m)
    }

    /// The fields, one after the other.
    open spec fn encode(version: u32, m: <T as Model>::M) -> Seq<u8> {
        <T as Serialize>::encode(version, m)
    }

    fn serialize(&self, serializer: &mut Serializer) -> (r: Result<(), SavefileError>) {
        match self.x.serialize(serializer) {
            Ok(()) => {},
            Err(e) => {
                return Err(e);
            },
        }
        assert(serializer.writer@ =~= old(serializer).writer@ + Self::encode(
            old(serializer).file_version,
            self.model(),
        ));
        Ok(())
    }
}

impl<T: Deserialize> Deserialize for ExampleGeneric2<T> {
    open spec fn decode(version: u32, s: Seq<u8>) -> Option<(<T as Model>::M, nat)> {
        <T as Deserialize>::decode(version, s)
    }

    fn deserialize(deserializer: &mut Deserializer) -> (r: Result<ExampleGeneric2<T>, SavefileError>) {
        match <T as Deserialize>::deserialize(deserializer) {
            Ok(v0) => Ok(ExampleGeneric2 { x: v0 }),
            Err(e) => Err(e),
        }
    }
}

impl<T: Roundtrip> Roundtrip for ExampleGeneric2<T> {
    open spec fn read_back(version: u32, m: <T as Model>::M) -> <T as Model>::M {
        <T as Roundtrip>::read_back(version, m)
    }

    proof fn lemma_roundtrip(version: u32, m: <T as Model>::M, rest: Seq<u8>) {
        <T as Roundtrip>::lemma_roundtrip(version, m, rest);
    }
}

impl<T: WithSchema> WithSchema for ExampleGeneric2<T> {
    open spec fn schema_nodes(version: u32) -> Seq<SchemaNodeModel> {
        seq![SchemaNodeModel::Struct(("ExampleGeneric2"@, 1usize))]
            + seq![SchemaNodeModel::Field(("x"@, false))] + <T as WithSchema>::schema_nodes(version)
    }

    fn schema(version: u32, nodes: &mut Vec<SchemaNode>) {
        let count: usize = 1;
        push_struct(nodes, "ExampleGeneric2", count);
        push_field(nodes, "x", false);
        <T as WithSchema>::schema(version, nodes);
        assert(nodes.model() =~= old(nodes).model() + Self::schema_nodes(version));
    }
}

/// A third record around one value of any type.
#[derive(Debug, PartialEq)]
pub struct ExampleGeneric3<T> {
    pub x: T,
}

impl<T: Model> Model for ExampleGeneric3<T> {
    /// The models of the fields, in order.
    type M = <T as Model>::M;

    open spec fn model(&self) -> <T as Model>::M {
        self.x.model()
    }
}

impl<T: Serialize> Serialize for ExampleGeneric3<T> {
    open spec fn valid(version: u32, m: <T as Model>::M) -> bool {
        <T as Serialize>::valid(version, m)
    }

    /// The fields, one after the other.
    open spec fn encode(version: u32, m: <T as Model>::M) -> Seq<u8> {
        <T as Serialize>::encode(version, m)
    }

    fn serialize(&self, serializer: &mut Serializer) -> (r: Result<(), SavefileError>) {
        match self.x.serialize(serializer) {
            Ok(()) => {},
            Err(e) => {
                return Err(e);
            },
        }
        assert(serializer.writer@ =~= old(serializer).writer@ + Self::encode(
            old(serializer).file_version,
            self.model(),
        ));
        Ok(())
    }
}

impl<T: Deserialize> Deserialize for ExampleGeneric3<T> {
    open spec fn decode(version: u32, s: Seq<u8>) -> Option<(<T as Model>::M, nat)> {
        <T as Deserialize>::decode(version, s)
    }

    fn deserialize(deserializer: &mut Deserializer) -> (r: Result<ExampleGeneric3<T>, SavefileError>) {
        match <T as Deserialize>::deserialize(deserializer) {
            Ok(v0) => Ok(ExampleGeneric3 { x: v0 }),
            Err(e) => Err(e),
        }
    }
}

impl<T: Roundtrip> Roundtrip for ExampleGeneric3<T> {
    open spec fn read_back(version: u32, m: <T as Model>::M) -> <T as Model>::M {
        <T as Roundtrip>::read_back(version, m)
    }

    proof fn lemma_roundtrip(version: u32, m: <T as Model>::M, rest: Seq<u8>) {
        <T as Roundtrip>::lemma_roundtrip(version, m, rest);
    }
}

impl<T: WithSchema> WithSchema for ExampleGeneric3<T> {
    open spec fn schema_nodes(version: u32) -> Seq<SchemaNodeModel> {
        seq![SchemaNodeModel::Struct(("ExampleGeneric3"@, 1usize))]
            + seq![SchemaNodeModel::Field(("x"@, false))] + <T as WithSchema>::schema_nodes(version)
    }

    fn schema(version: u32, nodes: &mut Vec<SchemaNode>) {
        let count: usize = 1;
        push_struct(nodes, "ExampleGeneric3", count);
        push_field(nodes, "x", false);
        <T as WithSchema>::schema(version, nodes);
        assert(nodes.model() =~= old(nodes).model() + Self::schema_nodes(version));
    }
}

/// A record that only names a type, and holds no value of it.
#[derive(Debug, PartialEq)]
pub struct ExampleGeneric4<T> {
    pub phantom: core::marker::PhantomData<T>,
}

impl<T: Model> Model for ExampleGeneric4<T> {
    /// The models of the fields, in order.
    type M = <core::marker::PhantomData<T> as Model>::M;

    open spec fn model(&self) -> <core::marker::PhantomData<T> as Model>::M {
        self.phantom.model()
    }
}

impl<T: Serialize> Serialize for ExampleGeneric4<T> {
    open spec fn valid(version: u32, m: <core::marker::PhantomData<T> as Model>::M) -> bool {
        <core::marker::PhantomData<T> as Serialize>::valid(version, m)
    }

    /// The fields, one after the other.
    open spec fn encode(version: u32, m: <core::marker::PhantomData<T> as Model>::M) -> Seq<u8> {
        <core::marker::PhantomData<T> as Serialize>::encode(version, m)
    }

    fn serialize(&self, serializer: &mut Serializer) -> (r: Result<(), SavefileError>) {
        match self.phantom.serialize(serializer) {
            Ok(()) => {},
            Err(e) => {
                return Err(e);
            },
        }
        assert(serializer.writer@ =~= old(serializer).writer@ + Self::encode(
            old(serializer).file_version,
            self.model(),
        ));
        Ok(())
    }
}

impl<T: Deserialize> Deserialize for ExampleGeneric4<T> {
    open spec fn decode(version: u32, s: Seq<u8>) -> Option<(<core::marker::PhantomData<T> as Model>::M, nat)> {
        <core::marker::PhantomData<T> as Deserialize>::decode(version, s)
    }

    fn deserialize(deserializer: &mut Deserializer) -> (r: Result<ExampleGeneric4<T>, SavefileError>) {
        match <core::marker::PhantomData<T> as Deserialize>::deserialize(deserializer) {
            Ok(v0) => Ok(ExampleGeneric4 { phantom: v0 }),
            Err(e) => Err(e),
        }
    }
}

impl<T: Roundtrip> Roundtrip for ExampleGeneric4<T> {
    open spec fn read_back(version: u32, m: <core::marker::PhantomData<T> as Model>::M) -> <core::marker::PhantomData<T> as Model>::M {
        <core::marker::PhantomData<T> as Roundtrip>::read_back(version, m)
    }

    proof fn lemma_roundtrip(version: u32, m: <core::marker::PhantomData<T> as Model>::M, rest: Seq<u8>) {
        <core::marker::PhantomData<T> as Roundtrip>::lemma_roundtrip(version, m, rest);
    }
}

impl<T: WithSchema> WithSchema for ExampleGeneric4<T> {
    open spec fn schema_nodes(version: u32) -> Seq<SchemaNodeModel> {
        seq![SchemaNodeModel::Struct(("ExampleGeneric4"@, 1usize))]
            + seq![SchemaNodeModel::Field(("phantom"@, false))] + <core::marker::PhantomData<T> as WithSchema>::schema_nodes(version)
    }

    fn schema(version: u32, nodes: &mut Vec<SchemaNode>) {
        let count: usize = 1;
        push_struct(nodes, "ExampleGeneric4", count);
        push_field(nodes, "phantom", false);
        <core::marker::PhantomData<T> as WithSchema>::schema(version, nodes);
        assert(nodes.model() =~= old(nodes).model() + Self::schema_nodes(version));
    }
}

/// An enum that may hold a value of any type.
#[derive(Debug, PartialEq)]
pub enum ExampleGenericEnum<T> {
    Value1,
    Value2(T),
}

/// The model of a [`ExampleGenericEnum`]: the same variant, with the models of its fields.
pub enum ExampleGenericEnumModel<T: Model> {
    Value1,
    Value2(<T as Model>::M),
}

impl<T: Model> Model for ExampleGenericEnum<T> {
    type M = ExampleGenericEnumModel<T>;

    open spec fn model(&self) -> ExampleGenericEnumModel<T> {
        match self {
            ExampleGenericEnum::Value1 => ExampleGenericEnumModel::Value1,
            ExampleGenericEnum::Value2(f0) => ExampleGenericEnumModel::Value2(f0.model()),
        }
    }
}

impl<T: Serialize> Serialize for ExampleGenericEnum<T> {
    open spec fn valid(version: u32, m: ExampleGenericEnumModel<T>) -> bool {
        match m {
            ExampleGenericEnumModel::Value1 => true,
            ExampleGenericEnumModel::Value2(t) => <T as Serialize>::valid(version, t),
        }
    }

    /// The position of the variant in the declaration, as 1 byte(s), then the fields of the variant.
    open spec fn encode(version: u32, m: ExampleGenericEnumModel<T>) -> Seq<u8> {
        match m {
            ExampleGenericEnumModel::Value1 => le_bytes(0, 1),
            ExampleGenericEnumModel::Value2(t) => le_bytes(1, 1) + <T as Serialize>::encode(version, t),
        }
    }

    fn serialize(&self, serializer: &mut Serializer) -> (r: Result<(), SavefileError>) {
        let ghost version = serializer.file_version;
        let ghost start0 = serializer.writer@;
        match self {
            ExampleGenericEnum::Value1 => {
                serializer.write_u8(0);
            },
            ExampleGenericEnum::Value2(f0) => {
                serializer.write_u8(1);
                match f0.serialize(serializer) {
                    Ok(()) => {},
                    Err(e) => {
                        return Err(e);
                    },
                }
            },
        }
        assert(serializer.writer@ =~= old(serializer).writer@ + Self::encode(
            old(serializer).file_version,
            self.model(),
        ));
        Ok(())
    }
}

impl<T: Deserialize> Deserialize for ExampleGenericEnum<T> {
    /// Unknown variant numbers are refused.
    open spec fn decode(version: u32, s: Seq<u8>) -> Option<(ExampleGenericEnumModel<T>, nat)> {
        if s.len() < 1 {
            None
        } else if le_value(s.take(1)) == 0 {
            Some((ExampleGenericEnumModel::Value1, 1))
        } else if le_value(s.take(1)) == 1 {
            match <T as Deserialize>::decode(version, s.skip(1)) {
                Some((t, n)) => Some((ExampleGenericEnumModel::Value2(t), n + 1)),
                None => None,
            }
        } else {
            None
        }
    }

    fn deserialize(deserializer: &mut Deserializer) -> (r: Result<ExampleGenericEnum<T>, SavefileError>) {
        let ghost s0 = deserializer.rest();
        let tag = match deserializer.read_uint(1) {
            Ok(t) => t,
            Err(e) => {
                return Err(e);
            },
        };
        assert(deserializer.rest() =~= s0.skip(1));
        if tag == 0 {
            Ok(ExampleGenericEnum::Value1)
        } else if tag == 1 {
            match <T as Deserialize>::deserialize(deserializer) {
                Ok(v0) => Ok(ExampleGenericEnum::Value2(v0)),
                Err(e) => Err(e),
            }
        } else {
            Err(SavefileError::BadDiscriminant)
        }
    }
}

impl<T: Roundtrip> Roundtrip for ExampleGenericEnum<T> {
    open spec fn read_back(version: u32, m: ExampleGenericEnumModel<T>) -> ExampleGenericEnumModel<T> {
        match m {
            ExampleGenericEnumModel::Value1 => ExampleGenericEnumModel::Value1,
            ExampleGenericEnumModel::Value2(t) => ExampleGenericEnumModel::Value2(<T as Roundtrip>::read_back(version, t)),
        }
    }

    proof fn lemma_roundtrip(version: u32, m: ExampleGenericEnumModel<T>, rest: Seq<u8>) {
        reveal_with_fuel(pow256, 2);
        let all = Self::encode(version, m) + rest;
        match m {
            ExampleGenericEnumModel::Value1 => {
                lemma_le_roundtrip(0, 1);
                assert(all.take(1) =~= le_bytes(0, 1));
            },
            ExampleGenericEnumModel::Value2(t) => {
                lemma_le_roundtrip(1, 1);
                assert(all.take(1) =~= le_bytes(1, 1));
                assert(all.skip(1) =~= <T as Serialize>::encode(version, t) + rest);
                <T as Roundtrip>::lemma_roundtrip(version, t, rest);
            },
        }
    }
}

impl<T: WithSchema> WithSchema for ExampleGenericEnum<T> {
    open spec fn schema_nodes(version: u32) -> Seq<SchemaNodeModel> {
        seq![SchemaNodeModel::Enum(("ExampleGenericEnum"@, 1u8, 2usize))]
            + seq![SchemaNodeModel::Variant(("Value1"@, 0usize))]
            + seq![SchemaNodeModel::Variant(("Value2"@, 1usize))] + seq![SchemaNodeModel::Field(("0"@, false))] + <T as WithSchema>::schema_nodes(version)
    }

    fn schema(version: u32, nodes: &mut Vec<SchemaNode>) {
        let count: usize = 2;
        push_enum(nodes, "ExampleGenericEnum", 1, count);
        let c0: usize = 0;
        push_variant(nodes, "Value1", c0);
        let c1: usize = 1;
        push_variant(nodes, "Value2", c1);
        push_field(nodes, "0", false);
        <T as WithSchema>::schema(version, nodes);
        assert(nodes.model() =~= old(nodes).model() + Self::schema_nodes(version));
    }
}

/// An enum whose two variants both hold a value of any type.
#[derive(Debug, PartialEq)]
pub enum ExampleGenericEnum2<T1> {
    Value1(T1),
    Value2(T1),
}

/// The model of a [`ExampleGenericEnum2`]: the same variant, with the models of its fields.
pub enum ExampleGenericEnum2Model<T1: Model> {
    Value1(<T1 as Model>::M),
    Value2(<T1 as Model>::M),
}

impl<T1: Model> Model for ExampleGenericEnum2<T1> {
    type M = ExampleGenericEnum2Model<T1>;

    open spec fn model(&self) -> ExampleGenericEnum2Model<T1> {
        match self {
            ExampleGenericEnum2::Value1(f0) => ExampleGenericEnum2Model::Value1(f0.model()),
            ExampleGenericEnum2::Value2(f0) => ExampleGenericEnum2Model::Value2(f0.model()),
        }
    }
}

impl<T1: Serialize> Serialize for ExampleGenericEnum2<T1> {
    open spec fn valid(version: u32, m: ExampleGenericEnum2Model<T1>) -> bool {
        match m {
            ExampleGenericEnum2Model::Value1(t) => <T1 as Serialize>::valid(version, t),
            ExampleGenericEnum2Model::Value2(t) => <T1 as Serialize>::valid(version, t),
        }
    }

    /// The position of the variant in the declaration, as 1 byte(s), then the fields of the variant.
    open spec fn encode(version: u32, m: ExampleGenericEnum2Model<T1>) -> Seq<u8> {
        match m {
            ExampleGenericEnum2Model::Value1(t) => le_bytes(0, 1) + <T1 as Serialize>::encode(version, t),
            ExampleGenericEnum2Model::Value2(t) => le_bytes(1, 1) + <T1 as Serialize>::encode(version, t),
        }
    }

    fn serialize(&self, serializer: &mut Serializer) -> (r: Result<(), SavefileError>) {
        let ghost version = serializer.file_version;
        let ghost start0 = serializer.writer@;
        match self {
            ExampleGenericEnum2::Value1(f0) => {
                serializer.write_u8(0);
                match f0.serialize(serializer) {
                    Ok(()) => {},
                    Err(e) => {
                        return Err(e);
                    },
                }
            },
            ExampleGenericEnum2::Value2(f0) => {
                serializer.write_u8(1);
                match f0.serialize(serializer) {
                    Ok(()) => {},
                    Err(e) => {
                        return Err(e);
                    },
                }
            },
        }
        assert(serializer.writer@ =~= old(serializer).writer@ + Self::encode(
            old(serializer).file_version,
            self.model(),
        ));
        Ok(())
    }
}

impl<T1: Deserialize> Deserialize for ExampleGenericEnum2<T1> {
    /// Unknown variant numbers are refused.
    open spec fn decode(version: u32, s: Seq<u8>) -> Option<(ExampleGenericEnum2Model<T1>, nat)> {
        if s.len() < 1 {
            None
        } else if le_value(s.take(1)) == 0 {
            match <T1 as Deserialize>::decode(version, s.skip(1)) {
                Some((t, n)) => Some((ExampleGenericEnum2Model::Value1(t), n + 1)),
                None => None,
            }
        } else if le_value(s.take(1)) == 1 {
            match <T1 as Deserialize>::decode(version, s.skip(1)) {
                Some((t, n)) => Some((ExampleGenericEnum2Model::Value2(t), n + 1)),
                None => None,
            }
        } else {
            None
        }
    }

    fn deserialize(deserializer: &mut Deserializer) -> (r: Result<ExampleGenericEnum2<T1>, SavefileError>) {
        let ghost s0 = deserializer.rest();
        let tag = match deserializer.read_uint(1) {
            Ok(t) => t,
            Err(e) => {
                return Err(e);
            },
        };
        assert(deserializer.rest() =~= s0.skip(1));
        if tag == 0 {
            match <T1 as Deserialize>::deserialize(deserializer) {
                Ok(v0) => Ok(ExampleGenericEnum2::Value1(v0)),
                Err(e) => Err(e),
            }
        } else if tag == 1 {
            match <T1 as Deserialize>::deserialize(deserializer) {
                Ok(v0) => Ok(ExampleGenericEnum2::Value2(v0)),
                Err(e) => Err(e),
            }
        } else {
            Err(SavefileError::BadDiscriminant)
        }
    }
}

impl<T1: Roundtrip> Roundtrip for ExampleGenericEnum2<T1> {
    open spec fn read_back(version: u32, m: ExampleGenericEnum2Model<T1>) -> ExampleGenericEnum2Model<T1> {
        match m {
            ExampleGenericEnum2Model::Value1(t) => ExampleGenericEnum2Model::Value1(<T1 as Roundtrip>::read_back(version, t)),
            ExampleGenericEnum2Model::Value2(t) => ExampleGenericEnum2Model::Value2(<T1 as Roundtrip>::read_back(version, t)),
        }
    }

    proof fn lemma_roundtrip(version: u32, m: ExampleGenericEnum2Model<T1>, rest: Seq<u8>) {
        reveal_with_fuel(pow256, 2);
        let all = Self::encode(version, m) + rest;
        match m {
            ExampleGenericEnum2Model::Value1(t) => {
                lemma_le_roundtrip(0, 1);
                assert(all.take(1) =~= le_bytes(0, 1));
                assert(all.skip(1) =~= <T1 as Serialize>::encode(version, t) + rest);
                <T1 as Roundtrip>::lemma_roundtrip(version, t, rest);
            },
            ExampleGenericEnum2Model::Value2(t) => {
                lemma_le_roundtrip(1, 1);
                assert(all.take(1) =~= le_bytes(1, 1));
                assert(all.skip(1) =~= <T1 as Serialize>::encode(version, t) + rest);
                <T1 as Roundtrip>::lemma_roundtrip(version, t, rest);
            },
        }
    }
}

impl<T1: WithSchema> WithSchema for ExampleGenericEnum2<T1> {
    open spec fn schema_nodes(version: u32) -> Seq<SchemaNodeModel> {
        seq![SchemaNodeModel::Enum(("ExampleGenericEnum2"@, 1u8, 2usize))]
            + seq![SchemaNodeModel::Variant(("Value1"@, 1usize))] + seq![SchemaNodeModel::Field(("0"@, false))] + <T1 as WithSchema>::schema_nodes(version)
            + seq![SchemaNodeModel::Variant(("Value2"@, 1usize))] + seq![SchemaNodeModel::Field(("0"@, false))] + <T1 as WithSchema>::schema_nodes(version)
    }

    fn schema(version: u32, nodes: &mut Vec<SchemaNode>) {
        let count: usize = 2;
        push_enum(nodes, "ExampleGenericEnum2", 1, count);
        let c0: usize = 1;
        push_variant(nodes, "Value1", c0);
        push_field(nodes, "0", false);
        <T1 as WithSchema>::schema(version, nodes);
        let c1: usize = 1;
        push_variant(nodes, "Value2", c1);
        push_field(nodes, "0", false);
        <T1 as WithSchema>::schema(version, nodes);
        assert(nodes.model() =~= old(nodes).model() + Self::schema_nodes(version));
    }
}

impl<T1: Packed> Packed for ExampleGenericEnum2<T1> {
    /// Each variant laid out as its discriminant followed by its fields.
    open spec fn packed_layout(version: u32) -> Layout {
        enum_layout(seq![record_layout(seq![number_layout(1), <T1 as Packed>::packed_layout(version)], (0, 1)), record_layout(seq![number_layout(1), <T1 as Packed>::packed_layout(version)], (0, 1))])
    }

    fn layout(version: u32) -> (r: Option<(u64, u64)>) {
        let a0 = Some((0u64, 1u64));
        let a0 = place_field(a0, Some((1u64, 1u64)));
        let a0 = place_field(a0, <T1 as Packed>::layout(version));
        let a0 = close_record(a0);
        proof {
            let s0 = seq![number_layout(1), <T1 as Packed>::packed_layout(version)];
            assert(s0.drop_first() =~= seq![<T1 as Packed>::packed_layout(version)]);
            assert(s0.drop_first().drop_first() =~= Seq::<Layout>::empty());
            reveal_with_fuel(record_layout, 3);
        }
        let a1 = Some((0u64, 1u64));
        let a1 = place_field(a1, Some((1u64, 1u64)));
        let a1 = place_field(a1, <T1 as Packed>::layout(version));
        let a1 = close_record(a1);
        proof {
            let s1 = seq![number_layout(1), <T1 as Packed>::packed_layout(version)];
            assert(s1.drop_first() =~= seq![<T1 as Packed>::packed_layout(version)]);
            assert(s1.drop_first().drop_first() =~= Seq::<Layout>::empty());
            reveal_with_fuel(record_layout, 3);
        }
        let acc = Some((0u64, 1u64));
        let acc = combine_variant(a1, acc);
        let acc = combine_variant(a0, acc);
        proof {
            let vs = seq![record_layout(seq![number_layout(1), <T1 as Packed>::packed_layout(version)], (0, 1)), record_layout(seq![number_layout(1), <T1 as Packed>::packed_layout(version)], (0, 1))];
            assert(vs.drop_first() =~= seq![record_layout(seq![number_layout(1), <T1 as Packed>::packed_layout(version)], (0, 1))]);
            assert(vs.drop_first().drop_first() =~= Seq::<Layout>::empty());
            reveal_with_fuel(enum_layout, 3);
        }
        acc
    }
}

} // verus!
