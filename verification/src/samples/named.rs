//! Records and enums whose fields have names worth looking at.
use vstd::prelude::*;

use crate::error::SavefileError;
use crate::le::{le_bytes, le_value, lemma_le_roundtrip, pow256};
use crate::packed::{close_record, combine_variant, enum_layout, number_layout, place_field, record_layout, Layout, Packed};
use crate::schema::nodes::{SchemaNode, SchemaNodeModel};
use crate::schema::with_schema::{push_enum, push_field, push_struct, push_variant, WithSchema};
use crate::serializer::{Deserializer, Serializer};
use crate::traits::{Deserialize, Model, Roundtrip, Serialize};

verus! {

/// A tuple record of two numbers.
#[derive(Debug, PartialEq)]
pub struct OtherStruct(pub u32, pub u16);

impl Model for OtherStruct {
    /// The models of the fields, in order.
    type M = <(u32, u16) as Model>::M;

    open spec fn model(&self) -> <(u32, u16) as Model>::M {
        (self.0.model(), self.1.model())
    }
}

impl Serialize for OtherStruct {
    open spec fn valid(version: u32, m: <(u32, u16) as Model>::M) -> bool {
        <(u32, u16) as Serialize>::valid(version, m)
    }

    /// The fields, one after the other.
    open spec fn encode(version: u32, m: <(u32, u16) as Model>::M) -> Seq<u8> {
        <(u32, u16) as Serialize>::encode(version, m)
    }

    fn serialize(&self, serializer: &mut Serializer) -> (r: Result<(), SavefileError>) {
        match self.0.serialize(serializer) {
            Ok(()) => {},
            Err(e) => {
                return Err(e);
            },
        }
        match self.1.serialize(serializer) {
            Ok(()) => {},
            Err(e) => {
                return Err(e);
            },
        }
        assert(serializer.writer@ =~= old(serializer).writer@ + Self::encode(
            old(serializer).file_version,
            self.model(),
        ));
        Ok(())
    }
}

impl Deserialize for OtherStruct {
    open spec fn decode(version: u32, s: Seq<u8>) -> Option<(<(u32, u16) as Model>::M, nat)> {
        <(u32, u16) as Deserialize>::decode(version, s)
    }

    fn deserialize(deserializer: &mut Deserializer) -> (r: Result<OtherStruct, SavefileError>) {
        match <(u32, u16) as Deserialize>::deserialize(deserializer) {
            Ok((v0, v1)) => Ok(OtherStruct(v0, v1)),
            Err(e) => Err(e),
        }
    }
}

impl Roundtrip for OtherStruct {
    open spec fn read_back(version: u32, m: <(u32, u16) as Model>::M) -> <(u32, u16) as Model>::M {
        <(u32, u16) as Roundtrip>::read_back(version, m)
    }

    proof fn lemma_roundtrip(version: u32, m: <(u32, u16) as Model>::M, rest: Seq<u8>) {
        <(u32, u16) as Roundtrip>::lemma_roundtrip(version, m, rest);
    }
}

impl WithSchema for OtherStruct {
    open spec fn schema_nodes(version: u32) -> Seq<SchemaNodeModel> {
        seq![SchemaNodeModel::Struct(("OtherStruct"@, 2usize))]
            + seq![SchemaNodeModel::Field(("0"@, false))] + <u32 as WithSchema>::schema_nodes(version)
            + seq![SchemaNodeModel::Field(("1"@, false))] + <u16 as WithSchema>::schema_nodes(version)
    }

    fn schema(version: u32, nodes: &mut Vec<SchemaNode>) {
        let count: usize = 2;
        push_struct(nodes, "OtherStruct", count);
        push_field(nodes, "0", false);
        <u32 as WithSchema>::schema(version, nodes);
        push_field(nodes, "1", false);
        <u16 as WithSchema>::schema(version, nodes);
        assert(nodes.model() =~= old(nodes).model() + Self::schema_nodes(version));
    }
}

/// A record with no fields, written with braces.
#[derive(Debug, PartialEq)]
pub struct SillyStruct {
}

impl Model for SillyStruct {
    /// The models of the fields, in order.
    type M = <() as Model>::M;

    open spec fn model(&self) -> <() as Model>::M {
        ()
    }
}

impl Serialize for SillyStruct {
    open spec fn valid(version: u32, m: <() as Model>::M) -> bool {
        <() as Serialize>::valid(version, m)
    }

    /// Nothing: the type holds no data.
    open spec fn encode(version: u32, m: <() as Model>::M) -> Seq<u8> {
        <() as Serialize>::encode(version, m)
    }

    fn serialize(&self, serializer: &mut Serializer) -> (r: Result<(), SavefileError>) {
        assert(serializer.writer@ =~= old(serializer).writer@ + Self::encode(
            old(serializer).file_version,
            self.model(),
        ));
        Ok(())
    }
}

impl Deserialize for SillyStruct {
    open spec fn decode(version: u32, s: Seq<u8>) -> Option<(<() as Model>::M, nat)> {
        <() as Deserialize>::decode(version, s)
    }

    fn deserialize(deserializer: &mut Deserializer) -> (r: Result<SillyStruct, SavefileError>) {
        Ok(SillyStruct {  })
    }
}

impl Roundtrip for SillyStruct {
    open spec fn read_back(version: u32, m: <() as Model>::M) -> <() as Model>::M {
        <() as Roundtrip>::read_back(version, m)
    }

    proof fn lemma_roundtrip(version: u32, m: <() as Model>::M, rest: Seq<u8>) {
        <() as Roundtrip>::lemma_roundtrip(version, m, rest);
    }
}

impl WithSchema for SillyStruct {
    open spec fn schema_nodes(version: u32) -> Seq<SchemaNodeModel> {
        seq![SchemaNodeModel::Struct(("SillyStruct"@, 0usize))]
    }

    fn schema(version: u32, nodes: &mut Vec<SchemaNode>) {
        let count: usize = 0;
        push_struct(nodes, "SillyStruct", count);
        assert(nodes.model() =~= old(nodes).model() + Self::schema_nodes(version));
    }
}

/// An enum with a tuple variant, a record variant and a unit variant.
#[derive(Debug, PartialEq)]
pub enum SimpleEnum {
    VariantA(u32, u16, u8),
    VariantB { x: i32, y: i8 },
    VariantC,
}

/// The model of a [`SimpleEnum`]: the same variant, with the models of its fields.
pub enum SimpleEnumModel {
    VariantA(<(u32, u16, u8) as Model>::M),
    VariantB(<(i32, i8) as Model>::M),
    VariantC,
}

impl Model for SimpleEnum {
    type M = SimpleEnumModel;

    open spec fn model(&self) -> SimpleEnumModel {
        match self {
            SimpleEnum::VariantA(f0, f1, f2) => SimpleEnumModel::VariantA((f0.model(), f1.model(), f2.model())),
            SimpleEnum::VariantB { x: f0, y: f1 } => SimpleEnumModel::VariantB((f0.model(), f1.model())),
            SimpleEnum::VariantC => SimpleEnumModel::VariantC,
        }
    }
}

impl Serialize for SimpleEnum {
    open spec fn valid(version: u32, m: SimpleEnumModel) -> bool {
        match m {
            SimpleEnumModel::VariantA(t) => <(u32, u16, u8) as Serialize>::valid(version, t),
            SimpleEnumModel::VariantB(t) => <(i32, i8) as Serialize>::valid(version, t),
            SimpleEnumModel::VariantC => true,
        }
    }

    /// The position of the variant in the declaration, as 1 byte(s), then the fields of the variant.
    open spec fn encode(version: u32, m: SimpleEnumModel) -> Seq<u8> {
        match m {
            SimpleEnumModel::VariantA(t) => le_bytes(0, 1) + <(u32, u16, u8) as Serialize>::encode(version, t),
            SimpleEnumModel::VariantB(t) => le_bytes(1, 1) + <(i32, i8) as Serialize>::encode(version, t),
            SimpleEnumModel::VariantC => le_bytes(2, 1),
        }
    }

    fn serialize(&self, serializer: &mut Serializer) -> (r: Result<(), SavefileError>) {
        let ghost version = serializer.file_version;
        let ghost start0 = serializer.writer@;
        match self {
            SimpleEnum::VariantA(f0, f1, f2) => {
                serializer.write_u8(0);
                match f0.serialize(serializer) {
                    Ok(()) => {},
                    Err(e) => {
                        return Err(e);
                    },
                }
                match f1.serialize(serializer) {
                    Ok(()) => {},
                    Err(e) => {
                        return Err(e);
                    },
                }
                match f2.serialize(serializer) {
                    Ok(()) => {},
                    Err(e) => {
                        return Err(e);
                    },
                }
            },
            SimpleEnum::VariantB { x: f0, y: f1 } => {
                serializer.write_u8(1);
                match f0.serialize(serializer) {
                    Ok(()) => {},
                    Err(e) => {
                        return Err(e);
                    },
                }
                match f1.serialize(serializer) {
                    Ok(()) => {},
                    Err(e) => {
                        return Err(e);
                    },
                }
            },
            SimpleEnum::VariantC => {
                serializer.write_u8(2);
            },
        }
        assert(serializer.writer@ =~= old(serializer).writer@ + Self::encode(
            old(serializer).file_version,
            self.model(),
        ));
        Ok(())
    }
}

impl Deserialize for SimpleEnum {
    /// Unknown variant numbers are refused.
    open spec fn decode(version: u32, s: Seq<u8>) -> Option<(SimpleEnumModel, nat)> {
        if s.len() < 1 {
            None
        } else if le_value(s.take(1)) == 0 {
            match <(u32, u16, u8) as Deserialize>::decode(version, s.skip(1)) {
                Some((t, n)) => Some((SimpleEnumModel::VariantA(t), n + 1)),
                None => None,
            }
        } else if le_value(s.take(1)) == 1 {
            match <(i32, i8) as Deserialize>::decode(version, s.skip(1)) {
                Some((t, n)) => Some((SimpleEnumModel::VariantB(t), n + 1)),
                None => None,
            }
        } else if le_value(s.take(1)) == 2 {
            Some((SimpleEnumModel::VariantC, 1))
        } else {
            None
        }
    }

    fn deserialize(deserializer: &mut Deserializer) -> (r: Result<SimpleEnum, SavefileError>) {
        let ghost s0 = deserializer.rest();
        let tag = match deserializer.read_uint(1) {
            Ok(t) => t,
            Err(e) => {
                return Err(e);
            },
        };
        assert(deserializer.rest() =~= s0.skip(1));
        if tag == 0 {
            match <(u32, u16, u8) as Deserialize>::deserialize(deserializer) {
                Ok((v0, v1, v2)) => Ok(SimpleEnum::VariantA(v0, v1, v2)),
                Err(e) => Err(e),
            }
        } else if tag == 1 {
            match <(i32, i8) as Deserialize>::deserialize(deserializer) {
                Ok((v0, v1)) => Ok(SimpleEnum::VariantB { x: v0, y: v1 }),
                Err(e) => Err(e),
            }
        } else if tag == 2 {
            Ok(SimpleEnum::VariantC)
        } else {
            Err(SavefileError::BadDiscriminant)
        }
    }
}

impl Roundtrip for SimpleEnum {
    open spec fn read_back(version: u32, m: SimpleEnumModel) -> SimpleEnumModel {
        match m {
            SimpleEnumModel::VariantA(t) => SimpleEnumModel::VariantA(<(u32, u16, u8) as Roundtrip>::read_back(version, t)),
            SimpleEnumModel::VariantB(t) => SimpleEnumModel::VariantB(<(i32, i8) as Roundtrip>::read_back(version, t)),
            SimpleEnumModel::VariantC => SimpleEnumModel::VariantC,
        }
    }

    proof fn lemma_roundtrip(version: u32, m: SimpleEnumModel, rest: Seq<u8>) {
        reveal_with_fuel(pow256, 2);
        let all = Self::encode(version, m) + rest;
        match m {
            SimpleEnumModel::VariantA(t) => {
                lemma_le_roundtrip(0, 1);
                assert(all.take(1) =~= le_bytes(0, 1));
                assert(all.skip(1) =~= <(u32, u16, u8) as Serialize>::encode(version, t) + rest);
                <(u32, u16, u8) as Roundtrip>::lemma_roundtrip(version, t, rest);
            },
            SimpleEnumModel::VariantB(t) => {
                lemma_le_roundtrip(1, 1);
                assert(all.take(1) =~= le_bytes(1, 1));
                assert(all.skip(1) =~= <(i32, i8) as Serialize>::encode(version, t) + rest);
                <(i32, i8) as Roundtrip>::lemma_roundtrip(version, t, rest);
            },
            SimpleEnumModel::VariantC => {
                lemma_le_roundtrip(2, 1);
                assert(all.take(1) =~= le_bytes(2, 1));
            },
        }
    }
}

impl WithSchema for SimpleEnum {
    open spec fn schema_nodes(version: u32) -> Seq<SchemaNodeModel> {
        seq![SchemaNodeModel::Enum(("SimpleEnum"@, 1u8, 3usize))]
            + seq![SchemaNodeModel::Variant(("VariantA"@, 3usize))] + seq![SchemaNodeModel::Field(("0"@, false))] + <u32 as WithSchema>::schema_nodes(version) + seq![SchemaNodeModel::Field(("1"@, false))] + <u16 as WithSchema>::schema_nodes(version) + seq![SchemaNodeModel::Field(("2"@, false))] + <u8 as WithSchema>::schema_nodes(version)
            + seq![SchemaNodeModel::Variant(("VariantB"@, 2usize))] + seq![SchemaNodeModel::Field(("x"@, false))] + <i32 as WithSchema>::schema_nodes(version) + seq![SchemaNodeModel::Field(("y"@, false))] + <i8 as WithSchema>::schema_nodes(version)
            + seq![SchemaNodeModel::Variant(("VariantC"@, 0usize))]
    }

    fn schema(version: u32, nodes: &mut Vec<SchemaNode>) {
        let count: usize = 3;
        push_enum(nodes, "SimpleEnum", 1, count);
        let c0: usize = 3;
        push_variant(nodes, "VariantA", c0);
        push_field(nodes, "0", false);
        <u32 as WithSchema>::schema(version, nodes);
        push_field(nodes, "1", false);
        <u16 as WithSchema>::schema(version, nodes);
        push_field(nodes, "2", false);
        <u8 as WithSchema>::schema(version, nodes);
        let c1: usize = 2;
        push_variant(nodes, "VariantB", c1);
        push_field(nodes, "x", false);
        <i32 as WithSchema>::schema(version, nodes);
        push_field(nodes, "y", false);
        <i8 as WithSchema>::schema(version, nodes);
        let c2: usize = 0;
        push_variant(nodes, "VariantC", c2);
        assert(nodes.model() =~= old(nodes).model() + Self::schema_nodes(version));
    }
}

/// A record of one number.
#[derive(Debug, PartialEq)]
pub struct SimpleStruct {
    pub item1: u32,
}

impl Model for SimpleStruct {
    /// The models of the fields, in order.
    type M = <u32 as Model>::M;

    open spec fn model(&self) -> <u32 as Model>::M {
        self.item1.model()
    }
}

impl Serialize for SimpleStruct {
    open spec fn valid(version: u32, m: <u32 as Model>::M) -> bool {
        <u32 as Serialize>::valid(version, m)
    }

    /// The fields, one after the other.
    open spec fn encode(version: u32, m: <u32 as Model>::M) -> Seq<u8> {
        <u32 as Serialize>::encode(version, m)
    }

    fn serialize(&self, serializer: &mut Serializer) -> (r: Result<(), SavefileError>) {
        match self.item1.serialize(serializer) {
            Ok(()) => {},
            Err(e) => {
                return Err(e);
            },
        }
        assert(serializer.writer@ =~= old(serializer).writer@ + Self::encode(
            old(serializer).file_version,
            self.model(),
        ));
        Ok(())
    }
}

impl Deserialize for SimpleStruct {
    open spec fn decode(version: u32, s: Seq<u8>) -> Option<(<u32 as Model>::M, nat)> {
        <u32 as Deserialize>::decode(version, s)
    }

    fn deserialize(deserializer: &mut Deserializer) -> (r: Result<SimpleStruct, SavefileError>) {
        match <u32 as Deserialize>::deserialize(deserializer) {
            Ok(v0) => Ok(SimpleStruct { item1: v0 }),
            Err(e) => Err(e),
        }
    }
}

impl Roundtrip for SimpleStruct {
    open spec fn read_back(version: u32, m: <u32 as Model>::M) -> <u32 as Model>::M {
        <u32 as Roundtrip>::read_back(version, m)
    }

    proof fn lemma_roundtrip(version: u32, m: <u32 as Model>::M, rest: Seq<u8>) {
        <u32 as Roundtrip>::lemma_roundtrip(version, m, rest);
    }
}

impl WithSchema for SimpleStruct {
    open spec fn schema_nodes(version: u32) -> Seq<SchemaNodeModel> {
        seq![SchemaNodeModel::Struct(("SimpleStruct"@, 1usize))]
            + seq![SchemaNodeModel::Field(("item1"@, false))] + <u32 as WithSchema>::schema_nodes(version)
    }

    fn schema(version: u32, nodes: &mut Vec<SchemaNode>) {
        let count: usize = 1;
        push_struct(nodes, "SimpleStruct", count);
        push_field(nodes, "item1", false);
        <u32 as WithSchema>::schema(version, nodes);
        assert(nodes.model() =~= old(nodes).model() + Self::schema_nodes(version));
    }
}

/// A record of two records and a number.
#[derive(Debug, PartialEq)]
pub struct ComplexStruct {
    pub simple1: SimpleStruct,
    pub simple2: SimpleStruct,
    pub an_int: u32,
}

impl Model for ComplexStruct {
    /// The models of the fields, in order.
    type M = <(SimpleStruct, SimpleStruct, u32) as Model>::M;

    open spec fn model(&self) -> <(SimpleStruct, SimpleStruct, u32) as Model>::M {
        (self.simple1.model(), self.simple2.model(), self.an_int.model())
    }
}

impl Serialize for ComplexStruct {
    open spec fn valid(version: u32, m: <(SimpleStruct, SimpleStruct, u32) as Model>::M) -> bool {
        <(SimpleStruct, SimpleStruct, u32) as Serialize>::valid(version, m)
    }

    /// The fields, one after the other.
    open spec fn encode(version: u32, m: <(SimpleStruct, SimpleStruct, u32) as Model>::M) -> Seq<u8> {
        <(SimpleStruct, SimpleStruct, u32) as Serialize>::encode(version, m)
    }

    fn serialize(&self, serializer: &mut Serializer) -> (r: Result<(), SavefileError>) {
        match self.simple1.serialize(serializer) {
            Ok(()) => {},
            Err(e) => {
                return Err(e);
            },
        }
        match self.simple2.serialize(serializer) {
            Ok(()) => {},
            Err(e) => {
                return Err(e);
            },
        }
        match self.an_int.serialize(serializer) {
            Ok(()) => {},
            Err(e) => {
                return Err(e);
            },
        }
        assert(serializer.writer@ =~= old(serializer).writer@ + Self::encode(
            old(serializer).file_version,
            self.model(),
        ));
        Ok(())
    }
}

impl Deserialize for ComplexStruct {
    open spec fn decode(version: u32, s: Seq<u8>) -> Option<(<(SimpleStruct, SimpleStruct, u32) as Model>::M, nat)> {
        <(SimpleStruct, SimpleStruct, u32) as Deserialize>::decode(version, s)
    }

    fn deserialize(deserializer: &mut Deserializer) -> (r: Result<ComplexStruct, SavefileError>) {
        match <(SimpleStruct, SimpleStruct, u32) as Deserialize>::deserialize(deserializer) {
            Ok((v0, v1, v2)) => Ok(ComplexStruct { simple1: v0, simple2: v1, an_int: v2 }),
            Err(e) => Err(e),
        }
    }
}

impl Roundtrip for ComplexStruct {
    open spec fn read_back(version: u32, m: <(SimpleStruct, SimpleStruct, u32) as Model>::M) -> <(SimpleStruct, SimpleStruct, u32) as Model>::M {
        <(SimpleStruct, SimpleStruct, u32) as Roundtrip>::read_back(version, m)
    }

    proof fn lemma_roundtrip(version: u32, m: <(SimpleStruct, SimpleStruct, u32) as Model>::M, rest: Seq<u8>) {
        <(SimpleStruct, SimpleStruct, u32) as Roundtrip>::lemma_roundtrip(version, m, rest);
    }
}

impl WithSchema for ComplexStruct {
    open spec fn schema_nodes(version: u32) -> Seq<SchemaNodeModel> {
        seq![SchemaNodeModel::Struct(("ComplexStruct"@, 3usize))]
            + seq![SchemaNodeModel::Field(("simple1"@, false))] + <SimpleStruct as WithSchema>::schema_nodes(version)
            + seq![SchemaNodeModel::Field(("simple2"@, false))] + <SimpleStruct as WithSchema>::schema_nodes(version)
            + seq![SchemaNodeModel::Field(("an_int"@, false))] + <u32 as WithSchema>::schema_nodes(version)
    }

    fn schema(version: u32, nodes: &mut Vec<SchemaNode>) {
        let count: usize = 3;
        push_struct(nodes, "ComplexStruct", count);
        push_field(nodes, "simple1", false);
        <SimpleStruct as WithSchema>::schema(version, nodes);
        push_field(nodes, "simple2", false);
        <SimpleStruct as WithSchema>::schema(version, nodes);
        push_field(nodes, "an_int", false);
        <u32 as WithSchema>::schema(version, nodes);
        assert(nodes.model() =~= old(nodes).model() + Self::schema_nodes(version));
    }
}

/// A record whose first field names it.
#[derive(Debug, PartialEq)]
pub struct StructWithName {
    pub name: String,
    pub value: String,
}

impl Model for StructWithName {
    /// The models of the fields, in order.
    type M = <(String, String) as Model>::M;

    open spec fn model(&self) -> <(String, String) as Model>::M {
        (self.name.model(), self.value.model())
    }
}

impl Serialize for StructWithName {
    open spec fn valid(version: u32, m: <(String, String) as Model>::M) -> bool {
        <(String, String) as Serialize>::valid(version, m)
    }

    /// The fields, one after the other.
    open spec fn encode(version: u32, m: <(String, String) as Model>::M) -> Seq<u8> {
        <(String, String) as Serialize>::encode(version, m)
    }

    fn serialize(&self, serializer: &mut Serializer) -> (r: Result<(), SavefileError>) {
        match self.name.serialize(serializer) {
            Ok(()) => {},
            Err(e) => {
                return Err(e);
            },
        }
        match self.value.serialize(serializer) {
            Ok(()) => {},
            Err(e) => {
                return Err(e);
            },
        }
        assert(serializer.writer@ =~= old(serializer).writer@ + Self::encode(
            old(serializer).file_version,
            self.model(),
        ));
        Ok(())
    }
}

impl Deserialize for StructWithName {
    open spec fn decode(version: u32, s: Seq<u8>) -> Option<(<(String, String) as Model>::M, nat)> {
        <(String, String) as Deserialize>::decode(version, s)
    }

    fn deserialize(deserializer: &mut Deserializer) -> (r: Result<StructWithName, SavefileError>) {
        match <(String, String) as Deserialize>::deserialize(deserializer) {
            Ok((v0, v1)) => Ok(StructWithName { name: v0, value: v1 }),
            Err(e) => Err(e),
        }
    }
}

impl Roundtrip for StructWithName {
    open spec fn read_back(version: u32, m: <(String, String) as Model>::M) -> <(String, String) as Model>::M {
        <(String, String) as Roundtrip>::read_back(version, m)
    }

    proof fn lemma_roundtrip(version: u32, m: <(String, String) as Model>::M, rest: Seq<u8>) {
        <(String, String) as Roundtrip>::lemma_roundtrip(version, m, rest);
    }
}

impl WithSchema for StructWithName {
    open spec fn schema_nodes(version: u32) -> Seq<SchemaNodeModel> {
        seq![SchemaNodeModel::Struct(("StructWithName"@, 2usize))]
            + seq![SchemaNodeModel::Field(("name"@, false))] + <String as WithSchema>::schema_nodes(version)
            + seq![SchemaNodeModel::Field(("value"@, false))] + <String as WithSchema>::schema_nodes(version)
    }

    fn schema(version: u32, nodes: &mut Vec<SchemaNode>) {
        let count: usize = 2;
        push_struct(nodes, "StructWithName", count);
        push_field(nodes, "name", false);
        <String as WithSchema>::schema(version, nodes);
        push_field(nodes, "value", false);
        <String as WithSchema>::schema(version, nodes);
        assert(nodes.model() =~= old(nodes).model() + Self::schema_nodes(version));
    }
}

/// An enum whose variants are named by their first field.
#[derive(Debug, PartialEq)]
pub enum EnumWithName {
    Variant1(String),
    Variant2 { name: String, value: String },
    Variant3,
}

/// The model of a [`EnumWithName`]: the same variant, with the models of its fields.
pub enum EnumWithNameModel {
    Variant1(<String as Model>::M),
    Variant2(<(String, String) as Model>::M),
    Variant3,
}

impl Model for EnumWithName {
    type M = EnumWithNameModel;

    open spec fn model(&self) -> EnumWithNameModel {
        match self {
            EnumWithName::Variant1(f0) => EnumWithNameModel::Variant1(f0.model()),
            EnumWithName::Variant2 { name: f0, value: f1 } => EnumWithNameModel::Variant2((f0.model(), f1.model())),
            EnumWithName::Variant3 => EnumWithNameModel::Variant3,
        }
    }
}

impl Serialize for EnumWithName {
    open spec fn valid(version: u32, m: EnumWithNameModel) -> bool {
        match m {
            EnumWithNameModel::Variant1(t) => <String as Serialize>::valid(version, t),
            EnumWithNameModel::Variant2(t) => <(String, String) as Serialize>::valid(version, t),
            EnumWithNameModel::Variant3 => true,
        }
    }

    /// The position of the variant in the declaration, as 1 byte(s), then the fields of the variant.
    open spec fn encode(version: u32, m: EnumWithNameModel) -> Seq<u8> {
        match m {
            EnumWithNameModel::Variant1(t) => le_bytes(0, 1) + <String as Serialize>::encode(version, t),
            EnumWithNameModel::Variant2(t) => le_bytes(1, 1) + <(String, String) as Serialize>::encode(version, t),
            EnumWithNameModel::Variant3 => le_bytes(2, 1),
        }
    }

    fn serialize(&self, serializer: &mut Serializer) -> (r: Result<(), SavefileError>) {
        let ghost version = serializer.file_version;
        let ghost start0 = serializer.writer@;
        match self {
            EnumWithName::Variant1(f0) => {
                serializer.write_u8(0);
                match f0.serialize(serializer) {
                    Ok(()) => {},
                    Err(e) => {
                        return Err(e);
                    },
                }
            },
            EnumWithName::Variant2 { name: f0, value: f1 } => {
                serializer.write_u8(1);
                match f0.serialize(serializer) {
                    Ok(()) => {},
                    Err(e) => {
                        return Err(e);
                    },
                }
                match f1.serialize(serializer) {
                    Ok(()) => {},
                    Err(e) => {
                        return Err(e);
                    },
                }
            },
            EnumWithName::Variant3 => {
                serializer.write_u8(2);
            },
        }
        assert(serializer.writer@ =~= old(serializer).writer@ + Self::encode(
            old(serializer).file_version,
            self.model(),
        ));
        Ok(())
    }
}

impl Deserialize for EnumWithName {
    /// Unknown variant numbers are refused.
    open spec fn decode(version: u32, s: Seq<u8>) -> Option<(EnumWithNameModel, nat)> {
        if s.len() < 1 {
            None
        } else if le_value(s.take(1)) == 0 {
            match <String as Deserialize>::decode(version, s.skip(1)) {
                Some((t, n)) => Some((EnumWithNameModel::Variant1(t), n + 1)),
                None => None,
            }
        } else if le_value(s.take(1)) == 1 {
            match <(String, String) as Deserialize>::decode(version, s.skip(1)) {
                Some((t, n)) => Some((EnumWithNameModel::Variant2(t), n + 1)),
                None => None,
            }
        } else if le_value(s.take(1)) == 2 {
            Some((EnumWithNameModel::Variant3, 1))
        } else {
            None
        }
    }

    fn deserialize(deserializer: &mut Deserializer) -> (r: Result<EnumWithName, SavefileError>) {
        let ghost s0 = deserializer.rest();
        let tag = match deserializer.read_uint(1) {
            Ok(t) => t,
            Err(e) => {
                return Err(e);
            },
        };
        assert(deserializer.rest() =~= s0.skip(1));
        if tag == 0 {
            match <String as Deserialize>::deserialize(deserializer) {
                Ok(v0) => Ok(EnumWithName::Variant1(v0)),
                Err(e) => Err(e),
            }
        } else if tag == 1 {
            match <(String, String) as Deserialize>::deserialize(deserializer) {
                Ok((v0, v1)) => Ok(EnumWithName::Variant2 { name: v0, value: v1 }),
                Err(e) => Err(e),
            }
        } else if tag == 2 {
            Ok(EnumWithName::Variant3)
        } else {
            Err(SavefileError::BadDiscriminant)
        }
    }
}

impl Roundtrip for EnumWithName {
    open spec fn read_back(version: u32, m: EnumWithNameModel) -> EnumWithNameModel {
        match m {
            EnumWithNameModel::Variant1(t) => EnumWithNameModel::Variant1(<String as Roundtrip>::read_back(version, t)),
            EnumWithNameModel::Variant2(t) => EnumWithNameModel::Variant2(<(String, String) as Roundtrip>::read_back(version, t)),
            EnumWithNameModel::Variant3 => EnumWithNameModel::Variant3,
        }
    }

    proof fn lemma_roundtrip(version: u32, m: EnumWithNameModel, rest: Seq<u8>) {
        reveal_with_fuel(pow256, 2);
        let all = Self::encode(version, m) + rest;
        match m {
            EnumWithNameModel::Variant1(t) => {
                lemma_le_roundtrip(0, 1);
                assert(all.take(1) =~= le_bytes(0, 1));
                assert(all.skip(1) =~= <String as Serialize>::encode(version, t) + rest);
                <String as Roundtrip>::lemma_roundtrip(version, t, rest);
            },
            EnumWithNameModel::Variant2(t) => {
                lemma_le_roundtrip(1, 1);
                assert(all.take(1) =~= le_bytes(1, 1));
                assert(all.skip(1) =~= <(String, String) as Serialize>::encode(version, t) + rest);
                <(String, String) as Roundtrip>::lemma_roundtrip(version, t, rest);
            },
            EnumWithNameModel::Variant3 => {
                lemma_le_roundtrip(2, 1);
                assert(all.take(1) =~= le_bytes(2, 1));
            },
        }
    }
}

impl WithSchema for EnumWithName {
    open spec fn schema_nodes(version: u32) -> Seq<SchemaNodeModel> {
        seq![SchemaNodeModel::Enum(("EnumWithName"@, 1u8, 3usize))]
            + seq![SchemaNodeModel::Variant(("Variant1"@, 1usize))] + seq![SchemaNodeModel::Field(("0"@, false))] + <String as WithSchema>::schema_nodes(version)
            + seq![SchemaNodeModel::Variant(("Variant2"@, 2usize))] + seq![SchemaNodeModel::Field(("name"@, false))] + <String as WithSchema>::schema_nodes(version) + seq![SchemaNodeModel::Field(("value"@, false))] + <String as WithSchema>::schema_nodes(version)
            + seq![SchemaNodeModel::Variant(("Variant3"@, 0usize))]
    }

    fn schema(version: u32, nodes: &mut Vec<SchemaNode>) {
        let count: usize = 3;
        push_enum(nodes, "EnumWithName", 1, count);
        let c0: usize = 1;
        push_variant(nodes, "Variant1", c0);
        push_field(nodes, "0", false);
        <String as WithSchema>::schema(version, nodes);
        let c1: usize = 2;
        push_variant(nodes, "Variant2", c1);
        push_field(nodes, "name", false);
        <String as WithSchema>::schema(version, nodes);
        push_field(nodes, "value", false);
        <String as WithSchema>::schema(version, nodes);
        let c2: usize = 0;
        push_variant(nodes, "Variant3", c2);
        assert(nodes.model() =~= old(nodes).model() + Self::schema_nodes(version));
    }
}

} // verus!
