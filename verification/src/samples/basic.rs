//! Records and enums used throughout the examples of the format.
use vstd::prelude::*;

use crate::error::SavefileError;
use crate::le::{le_bytes, le_value, lemma_le_roundtrip, pow256};
use crate::packed::{close_record, combine_variant, enum_layout, number_layout, place_field, record_layout, Layout, Packed};
use crate::schema::nodes::{SchemaNode, SchemaNodeModel};
use crate::schema::with_schema::{push_enum, push_field, push_struct, push_variant, WithSchema};
use crate::serializer::{Deserializer, Serializer};
use crate::traits::{Deserialize, Model, Roundtrip, Serialize};

verus! {

/// An enum whose variants have named fields.
#[derive(Debug, PartialEq)]
pub enum TestStructEnum {
    Variant1 { a: u8, b: u8 },
    Variant2 { a: u8 },
}

/// The model of a [`TestStructEnum`]: the same variant, with the models of its fields.
pub enum TestStructEnumModel {
    Variant1(<(u8, u8) as Model>::M),
    Variant2(<u8 as Model>::M),
}

impl Model for TestStructEnum {
    type M = TestStructEnumModel;

    open spec fn model(&self) -> TestStructEnumModel {
        match self {
            TestStructEnum::Variant1 { a: f0, b: f1 } => TestStructEnumModel::Variant1((f0.model(), f1.model())),
            TestStructEnum::Variant2 { a: f0 } => TestStructEnumModel::Variant2(f0.model()),
        }
    }
}

impl Serialize for TestStructEnum {
    open spec fn valid(version: u32, m: TestStructEnumModel) -> bool {
        match m {
            TestStructEnumModel::Variant1(t) => <(u8, u8) as Serialize>::valid(version, t),
            TestStructEnumModel::Variant2(t) => <u8 as Serialize>::valid(version, t),
        }
    }

    /// The position of the variant in the declaration, as 1 byte(s), then the fields of the variant.
    open spec fn encode(version: u32, m: TestStructEnumModel) -> Seq<u8> {
        match m {
            TestStructEnumModel::Variant1(t) => le_bytes(0, 1) + <(u8, u8) as Serialize>::encode(version, t),
            TestStructEnumModel::Variant2(t) => le_bytes(1, 1) + <u8 as Serialize>::encode(version, t),
        }
    }

    fn serialize(&self, serializer: &mut Serializer) -> (r: Result<(), SavefileError>) {
        let ghost version = serializer.file_version;
        let ghost start0 = serializer.writer@;
        match self {
            TestStructEnum::Variant1 { a: f0, b: f1 } => {
                serializer.write_u8(0);
                match f0.serialize(serializer) {
                    Ok(()) => {},
                    Err(e) => {
                        return Err(e);
                    },
                }
                match f1.serialize(serializer) {
                    Ok(()) => {},
                    Err(e) => {
                        return Err(e);
                    },
                }
            },
            TestStructEnum::Variant2 { a: f0 } => {
                serializer.write_u8(1);
                match f0.serialize(serializer) {
                    Ok(()) => {},
                    Err(e) => {
                        return Err(e);
                    },
                }
            },
        }
        assert(serializer.writer@ =~= old(serializer).writer@ + Self::encode(
            old(serializer).file_version,
            self.model(),
        ));
        Ok(())
    }
}

impl Deserialize for TestStructEnum {
    /// Unknown variant numbers are refused.
    open spec fn decode(version: u32, s: Seq<u8>) -> Option<(TestStructEnumModel, nat)> {
        if s.len() < 1 {
            None
        } else if le_value(s.take(1)) == 0 {
            match <(u8, u8) as Deserialize>::decode(version, s.skip(1)) {
                Some((t, n)) => Some((TestStructEnumModel::Variant1(t), n + 1)),
                None => None,
            }
        } else if le_value(s.take(1)) == 1 {
            match <u8 as Deserialize>::decode(version, s.skip(1)) {
                Some((t, n)) => Some((TestStructEnumModel::Variant2(t), n + 1)),
                None => None,
            }
        } else {
            None
        }
    }

    fn deserialize(deserializer: &mut Deserializer) -> (r: Result<TestStructEnum, SavefileError>) {
        let ghost s0 = deserializer.rest();
        let tag = match deserializer.read_uint(1) {
            Ok(t) => t,
            Err(e) => {
                return Err(e);
            },
        };
        assert(deserializer.rest() =~= s0.skip(1));
        if tag == 0 {
            match <(u8, u8) as Deserialize>::deserialize(deserializer) {
                Ok((v0, v1)) => Ok(TestStructEnum::Variant1 { a: v0, b: v1 }),
                Err(e) => Err(e),
            }
        } else if tag == 1 {
            match <u8 as Deserialize>::deserialize(deserializer) {
                Ok(v0) => Ok(TestStructEnum::Variant2 { a: v0 }),
                Err(e) => Err(e),
            }
        } else {
            Err(SavefileError::BadDiscriminant)
        }
    }
}

impl Roundtrip for TestStructEnum {
    open spec fn read_back(version: u32, m: TestStructEnumModel) -> TestStructEnumModel {
        match m {
            TestStructEnumModel::Variant1(t) => TestStructEnumModel::Variant1(<(u8, u8) as Roundtrip>::read_back(version, t)),
            TestStructEnumModel::Variant2(t) => TestStructEnumModel::Variant2(<u8 as Roundtrip>::read_back(version, t)),
        }
    }

    proof fn lemma_roundtrip(version: u32, m: TestStructEnumModel, rest: Seq<u8>) {
        reveal_with_fuel(pow256, 2);
        let all = Self::encode(version, m) + rest;
        match m {
            TestStructEnumModel::Variant1(t) => {
                lemma_le_roundtrip(0, 1);
                assert(all.take(1) =~= le_bytes(0, 1));
                assert(all.skip(1) =~= <(u8, u8) as Serialize>::encode(version, t) + rest);
                <(u8, u8) as Roundtrip>::lemma_roundtrip(version, t, rest);
            },
            TestStructEnumModel::Variant2(t) => {
                lemma_le_roundtrip(1, 1);
                assert(all.take(1) =~= le_bytes(1, 1));
                assert(all.skip(1) =~= <u8 as Serialize>::encode(version, t) + rest);
                <u8 as Roundtrip>::lemma_roundtrip(version, t, rest);
            },
        }
    }
}

impl WithSchema for TestStructEnum {
    open spec fn schema_nodes(version: u32) -> Seq<SchemaNodeModel> {
        seq![SchemaNodeModel::Enum(("TestStructEnum"@, 1u8, 2usize))]
            + seq![SchemaNodeModel::Variant(("Variant1"@, 2usize))] + seq![SchemaNodeModel::Field(("a"@, false))] + <u8 as WithSchema>::schema_nodes(version) + seq![SchemaNodeModel::Field(("b"@, false))] + <u8 as WithSchema>::schema_nodes(version)
            + seq![SchemaNodeModel::Variant(("Variant2"@, 1usize))] + seq![SchemaNodeModel::Field(("a"@, false))] + <u8 as WithSchema>::schema_nodes(version)
    }

    fn schema(version: u32, nodes: &mut Vec<SchemaNode>) {
        let count: usize = 2;
        push_enum(nodes, "TestStructEnum", 1, count);
        let c0: usize = 2;
        push_variant(nodes, "Variant1", c0);
        push_field(nodes, "a", false);
        <u8 as WithSchema>::schema(version, nodes);
        push_field(nodes, "b", false);
        <u8 as WithSchema>::schema(version, nodes);
        let c1: usize = 1;
        push_variant(nodes, "Variant2", c1);
        push_field(nodes, "a", false);
        <u8 as WithSchema>::schema(version, nodes);
        assert(nodes.model() =~= old(nodes).model() + Self::schema_nodes(version));
    }
}

/// An enum whose variant has an unnamed field.
#[derive(Debug, PartialEq)]
pub enum TestTupleEnum {
    Variant1(u8),
}

/// The model of a [`TestTupleEnum`]: the same variant, with the models of its fields.
pub enum TestTupleEnumModel {
    Variant1(<u8 as Model>::M),
}

impl Model for TestTupleEnum {
    type M = TestTupleEnumModel;

    open spec fn model(&self) -> TestTupleEnumModel {
        match self {
            TestTupleEnum::Variant1(f0) => TestTupleEnumModel::Variant1(f0.model()),
        }
    }
}

impl Serialize for TestTupleEnum {
    open spec fn valid(version: u32, m: TestTupleEnumModel) -> bool {
        match m {
            TestTupleEnumModel::Variant1(t) => <u8 as Serialize>::valid(version, t),
        }
    }

    /// The position of the variant in the declaration, as 1 byte(s), then the fields of the variant.
    open spec fn encode(version: u32, m: TestTupleEnumModel) -> Seq<u8> {
        match m {
            TestTupleEnumModel::Variant1(t) => le_bytes(0, 1) + <u8 as Serialize>::encode(version, t),
        }
    }

    fn serialize(&self, serializer: &mut Serializer) -> (r: Result<(), SavefileError>) {
        let ghost version = serializer.file_version;
        let ghost start0 = serializer.writer@;
        match self {
            TestTupleEnum::Variant1(f0) => {
                serializer.write_u8(0);
                match f0.serialize(serializer) {
                    Ok(()) => {},
                    Err(e) => {
                        return Err(e);
                    },
                }
            },
        }
        assert(serializer.writer@ =~= old(serializer).writer@ + Self::encode(
            old(serializer).file_version,
            self.model(),
        ));
        Ok(())
    }
}

impl Deserialize for TestTupleEnum {
    /// Unknown variant numbers are refused.
    open spec fn decode(version: u32, s: Seq<u8>) -> Option<(TestTupleEnumModel, nat)> {
        if s.len() < 1 {
            None
        } else if le_value(s.take(1)) == 0 {
            match <u8 as Deserialize>::decode(version, s.skip(1)) {
                Some((t, n)) => Some((TestTupleEnumModel::Variant1(t), n + 1)),
                None => None,
            }
        } else {
            None
        }
    }

    fn deserialize(deserializer: &mut Deserializer) -> (r: Result<TestTupleEnum, SavefileError>) {
        let ghost s0 = deserializer.rest();
        let tag = match deserializer.read_uint(1) {
            Ok(t) => t,
            Err(e) => {
                return Err(e);
            },
        };
        assert(deserializer.rest() =~= s0.skip(1));
        if tag == 0 {
            match <u8 as Deserialize>::deserialize(deserializer) {
                Ok(v0) => Ok(TestTupleEnum::Variant1(v0)),
                Err(e) => Err(e),
            }
        } else {
            Err(SavefileError::BadDiscriminant)
        }
    }
}

impl Roundtrip for TestTupleEnum {
    open spec fn read_back(version: u32, m: TestTupleEnumModel) -> TestTupleEnumModel {
        match m {
            TestTupleEnumModel::Variant1(t) => TestTupleEnumModel::Variant1(<u8 as Roundtrip>::read_back(version, t)),
        }
    }

    proof fn lemma_roundtrip(version: u32, m: TestTupleEnumModel, rest: Seq<u8>) {
        reveal_with_fuel(pow256, 2);
        let all = Self::encode(version, m) + rest;
        match m {
            TestTupleEnumModel::Variant1(t) => {
                lemma_le_roundtrip(0, 1);
                assert(all.take(1) =~= le_bytes(0, 1));
                assert(all.skip(1) =~= <u8 as Serialize>::encode(version, t) + rest);
                <u8 as Roundtrip>::lemma_roundtrip(version, t, rest);
            },
        }
    }
}

impl WithSchema for TestTupleEnum {
    open spec fn schema_nodes(version: u32) -> Seq<SchemaNodeModel> {
        seq![SchemaNodeModel::Enum(("TestTupleEnum"@, 1u8, 1usize))]
            + seq![SchemaNodeModel::Variant(("Variant1"@, 1usize))] + seq![SchemaNodeModel::Field(("0"@, false))] + <u8 as WithSchema>::schema_nodes(version)
    }

    fn schema(version: u32, nodes: &mut Vec<SchemaNode>) {
        let count: usize = 1;
        push_enum(nodes, "TestTupleEnum", 1, count);
        let c0: usize = 1;
        push_variant(nodes, "Variant1", c0);
        push_field(nodes, "0", false);
        <u8 as WithSchema>::schema(version, nodes);
        assert(nodes.model() =~= old(nodes).model() + Self::schema_nodes(version));
    }
}

/// An enum whose variants carry no data.
#[derive(Debug, PartialEq)]
pub enum TestUnitEnum {
    Variant1,
    Variant2,
}

/// The model of a [`TestUnitEnum`]: the same variant, with the models of its fields.
pub enum TestUnitEnumModel {
    Variant1,
    Variant2,
}

impl Model for TestUnitEnum {
    type M = TestUnitEnumModel;

    open spec fn model(&self) -> TestUnitEnumModel {
        match self {
            TestUnitEnum::Variant1 => TestUnitEnumModel::Variant1,
            TestUnitEnum::Variant2 => TestUnitEnumModel::Variant2,
        }
    }
}

impl Serialize for TestUnitEnum {
    open spec fn valid(version: u32, m: TestUnitEnumModel) -> bool {
        match m {
            TestUnitEnumModel::Variant1 => true,
            TestUnitEnumModel::Variant2 => true,
        }
    }

    /// The position of the variant in the declaration, as 1 byte(s), then the fields of the variant.
    open spec fn encode(version: u32, m: TestUnitEnumModel) -> Seq<u8> {
        match m {
            TestUnitEnumModel::Variant1 => le_bytes(0, 1),
            TestUnitEnumModel::Variant2 => le_bytes(1, 1),
        }
    }

    fn serialize(&self, serializer: &mut Serializer) -> (r: Result<(), SavefileError>) {
        let ghost version = serializer.file_version;
        let ghost start0 = serializer.writer@;
        match self {
            TestUnitEnum::Variant1 => {
                serializer.write_u8(0);
            },
            TestUnitEnum::Variant2 => {
                serializer.write_u8(1);
            },
        }
        assert(serializer.writer@ =~= old(serializer).writer@ + Self::encode(
            old(serializer).file_version,
            self.model(),
        ));
        Ok(())
    }
}

impl Deserialize for TestUnitEnum {
    /// Unknown variant numbers are refused.
    open spec fn decode(version: u32, s: Seq<u8>) -> Option<(TestUnitEnumModel, nat)> {
        if s.len() < 1 {
            None
        } else if le_value(s.take(1)) == 0 {
            Some((TestUnitEnumModel::Variant1, 1))
        } else if le_value(s.take(1)) == 1 {
            Some((TestUnitEnumModel::Variant2, 1))
        } else {
            None
        }
    }

    fn deserialize(deserializer: &mut Deserializer) -> (r: Result<TestUnitEnum, SavefileError>) {
        let ghost s0 = deserializer.rest();
        let tag = match deserializer.read_uint(1) {
            Ok(t) => t,
            Err(e) => {
                return Err(e);
            },
        };
        assert(deserializer.rest() =~= s0.skip(1));
        if tag == 0 {
            Ok(TestUnitEnum::Variant1)
        } else if tag == 1 {
            Ok(TestUnitEnum::Variant2)
        } else {
            Err(SavefileError::BadDiscriminant)
        }
    }
}

impl Roundtrip for TestUnitEnum {
    open spec fn read_back(version: u32, m: TestUnitEnumModel) -> TestUnitEnumModel {
        match m {
            TestUnitEnumModel::Variant1 => TestUnitEnumModel::Variant1,
            TestUnitEnumModel::Variant2 => TestUnitEnumModel::Variant2,
        }
    }

    proof fn lemma_roundtrip(version: u32, m: TestUnitEnumModel, rest: Seq<u8>) {
        reveal_with_fuel(pow256, 2);
        let all = Self::encode(version, m) + rest;
        match m {
            TestUnitEnumModel::Variant1 => {
                lemma_le_roundtrip(0, 1);
                assert(all.take(1) =~= le_bytes(0, 1));
            },
            TestUnitEnumModel::Variant2 => {
                lemma_le_roundtrip(1, 1);
                assert(all.take(1) =~= le_bytes(1, 1));
            },
        }
    }
}

impl WithSchema for TestUnitEnum {
    open spec fn schema_nodes(version: u32) -> Seq<SchemaNodeModel> {
        seq![SchemaNodeModel::Enum(("TestUnitEnum"@, 1u8, 2usize))]
            + seq![SchemaNodeModel::Variant(("Variant1"@, 0usize))]
            + seq![SchemaNodeModel::Variant(("Variant2"@, 0usize))]
    }

    fn schema(version: u32, nodes: &mut Vec<SchemaNode>) {
        let count: usize = 2;
        push_enum(nodes, "TestUnitEnum", 1, count);
        let c0: usize = 0;
        push_variant(nodes, "Variant1", c0);
        let c1: usize = 0;
        push_variant(nodes, "Variant2", c1);
        assert(nodes.model() =~= old(nodes).model() + Self::schema_nodes(version));
    }
}

/// A record with no padding between its fields.
#[derive(Clone, Copy, Debug, PartialEq)]
pub struct BenchStruct {
    pub x: usize,
    pub y: usize,
    pub z: u8,
    pub pad1: u8,
    pub pad2: u8,
    pub pad3: u8,
    pub pad4: u32,
}

impl Model for BenchStruct {
    /// The models of the fields, in order.
    type M = <(usize, usize, (u8, u8, (u8, u8, u32))) as Model>::M;

    open spec fn model(&self) -> <(usize, usize, (u8, u8, (u8, u8, u32))) as Model>::M {
        (self.x.model(), self.y.model(), (self.z.model(), self.pad1.model(), (self.pad2.model(), self.pad3.model(), self.pad4.model())))
    }
}

impl Serialize for BenchStruct {
    open spec fn valid(version: u32, m: <(usize, usize, (u8, u8, (u8, u8, u32))) as Model>::M) -> bool {
        <(usize, usize, (u8, u8, (u8, u8, u32))) as Serialize>::valid(version, m)
    }

    /// The fields, one after the other.
    open spec fn encode(version: u32, m: <(usize, usize, (u8, u8, (u8, u8, u32))) as Model>::M) -> Seq<u8> {
        <(usize, usize, (u8, u8, (u8, u8, u32))) as Serialize>::encode(version, m)
    }

    fn serialize(&self, serializer: &mut Serializer) -> (r: Result<(), SavefileError>) {
        match self.x.serialize(serializer) {
            Ok(()) => {},
            Err(e) => {
                return Err(e);
            },
        }
        match self.y.serialize(serializer) {
            Ok(()) => {},
            Err(e) => {
                return Err(e);
            },
        }
        match self.z.serialize(serializer) {
            Ok(()) => {},
            Err(e) => {
                return Err(e);
            },
        }
        match self.pad1.serialize(serializer) {
            Ok(()) => {},
            Err(e) => {
                return Err(e);
            },
        }
        match self.pad2.serialize(serializer) {
            Ok(()) => {},
            Err(e) => {
                return Err(e);
            },
        }
        match self.pad3.serialize(serializer) {
            Ok(()) => {},
            Err(e) => {
                return Err(e);
            },
        }
        match self.pad4.serialize(serializer) {
            Ok(()) => {},
            Err(e) => {
                return Err(e);
            },
        }
        assert(serializer.writer@ =~= old(serializer).writer@ + Self::encode(
            old(serializer).file_version,
            self.model(),
        ));
        Ok(())
    }
}

impl Deserialize for BenchStruct {
    open spec fn decode(version: u32, s: Seq<u8>) -> Option<(<(usize, usize, (u8, u8, (u8, u8, u32))) as Model>::M, nat)> {
        <(usize, usize, (u8, u8, (u8, u8, u32))) as Deserialize>::decode(version, s)
    }

    fn deserialize(deserializer: &mut Deserializer) -> (r: Result<BenchStruct, SavefileError>) {
        match <(usize, usize, (u8, u8, (u8, u8, u32))) as Deserialize>::deserialize(deserializer) {
            Ok((v0, v1, (v2, v3, (v4, v5, v6)))) => Ok(BenchStruct { x: v0, y: v1, z: v2, pad1: v3, pad2: v4, pad3: v5, pad4: v6 }),
            Err(e) => Err(e),
        }
    }
}

impl Roundtrip for BenchStruct {
    open spec fn read_back(version: u32, m: <(usize, usize, (u8, u8, (u8, u8, u32))) as Model>::M) -> <(usize, usize, (u8, u8, (u8, u8, u32))) as Model>::M {
        <(usize, usize, (u8, u8, (u8, u8, u32))) as Roundtrip>::read_back(version, m)
    }

    proof fn lemma_roundtrip(version: u32, m: <(usize, usize, (u8, u8, (u8, u8, u32))) as Model>::M, rest: Seq<u8>) {
        <(usize, usize, (u8, u8, (u8, u8, u32))) as Roundtrip>::lemma_roundtrip(version, m, rest);
    }
}

impl WithSchema for BenchStruct {
    open spec fn schema_nodes(version: u32) -> Seq<SchemaNodeModel> {
        seq![SchemaNodeModel::Struct(("BenchStruct"@, 7usize))]
            + seq![SchemaNodeModel::Field(("x"@, false))] + <usize as WithSchema>::schema_nodes(version)
            + seq![SchemaNodeModel::Field(("y"@, false))] + <usize as WithSchema>::schema_nodes(version)
            + seq![SchemaNodeModel::Field(("z"@, false))] + <u8 as WithSchema>::schema_nodes(version)
            + seq![SchemaNodeModel::Field(("pad1"@, false))] + <u8 as WithSchema>::schema_nodes(version)
            + seq![SchemaNodeModel::Field(("pad2"@, false))] + <u8 as WithSchema>::schema_nodes(version)
            + seq![SchemaNodeModel::Field(("pad3"@, false))] + <u8 as WithSchema>::schema_nodes(version)
            + seq![SchemaNodeModel::Field(("pad4"@, false))] + <u32 as WithSchema>::schema_nodes(version)
    }

    fn schema(version: u32, nodes: &mut Vec<SchemaNode>) {
        let count: usize = 7;
        push_struct(nodes, "BenchStruct", count);
        push_field(nodes, "x", false);
        <usize as WithSchema>::schema(version, nodes);
        push_field(nodes, "y", false);
        <usize as WithSchema>::schema(version, nodes);
        push_field(nodes, "z", false);
        <u8 as WithSchema>::schema(version, nodes);
        push_field(nodes, "pad1", false);
        <u8 as WithSchema>::schema(version, nodes);
        push_field(nodes, "pad2", false);
        <u8 as WithSchema>::schema(version, nodes);
        push_field(nodes, "pad3", false);
        <u8 as WithSchema>::schema(version, nodes);
        push_field(nodes, "pad4", false);
        <u32 as WithSchema>::schema(version, nodes);
        assert(nodes.model() =~= old(nodes).model() + Self::schema_nodes(version));
    }
}

/// A record of two numbers.
#[derive(Debug, PartialEq)]
pub struct SmallStruct {
    pub x1: u32,
    pub x2: i32,
}

impl Model for SmallStruct {
    /// The models of the fields, in order.
    type M = <(u32, i32) as Model>::M;

    open spec fn model(&self) -> <(u32, i32) as Model>::M {
        (self.x1.model(), self.x2.model())
    }
}

impl Serialize for SmallStruct {
    open spec fn valid(version: u32, m: <(u32, i32) as Model>::M) -> bool {
        <(u32, i32) as Serialize>::valid(version, m)
    }

    /// The fields, one after the other.
    open spec fn encode(version: u32, m: <(u32, i32) as Model>::M) -> Seq<u8> {
        <(u32, i32) as Serialize>::encode(version, m)
    }

    fn serialize(&self, serializer: &mut Serializer) -> (r: Result<(), SavefileError>) {
        match self.x1.serialize(serializer) {
            Ok(()) => {},
            Err(e) => {
                return Err(e);
            },
        }
        match self.x2.serialize(serializer) {
            Ok(()) => {},
            Err(e) => {
                return Err(e);
            },
        }
        assert(serializer.writer@ =~= old(serializer).writer@ + Self::encode(
            old(serializer).file_version,
            self.model(),
        ));
        Ok(())
    }
}

impl Deserialize for SmallStruct {
    open spec fn decode(version: u32, s: Seq<u8>) -> Option<(<(u32, i32) as Model>::M, nat)> {
        <(u32, i32) as Deserialize>::decode(version, s)
    }

    fn deserialize(deserializer: &mut Deserializer) -> (r: Result<SmallStruct, SavefileError>) {
        match <(u32, i32) as Deserialize>::deserialize(deserializer) {
            Ok((v0, v1)) => Ok(SmallStruct { x1: v0, x2: v1 }),
            Err(e) => Err(e),
        }
    }
}

impl Roundtrip for SmallStruct {
    open spec fn read_back(version: u32, m: <(u32, i32) as Model>::M) -> <(u32, i32) as Model>::M {
        <(u32, i32) as Roundtrip>::read_back(version, m)
    }

    proof fn lemma_roundtrip(version: u32, m: <(u32, i32) as Model>::M, rest: Seq<u8>) {
        <(u32, i32) as Roundtrip>::lemma_roundtrip(version, m, rest);
    }
}

impl WithSchema for SmallStruct {
    open spec fn schema_nodes(version: u32) -> Seq<SchemaNodeModel> {
        seq![SchemaNodeModel::Struct(("SmallStruct"@, 2usize))]
            + seq![SchemaNodeModel::Field(("x1"@, false))] + <u32 as WithSchema>::schema_nodes(version)
            + seq![SchemaNodeModel::Field(("x2"@, false))] + <i32 as WithSchema>::schema_nodes(version)
    }

    fn schema(version: u32, nodes: &mut Vec<SchemaNode>) {
        let count: usize = 2;
        push_struct(nodes, "SmallStruct", count);
        push_field(nodes, "x1", false);
        <u32 as WithSchema>::schema(version, nodes);
        push_field(nodes, "x2", false);
        <i32 as WithSchema>::schema(version, nodes);
        assert(nodes.model() =~= old(nodes).model() + Self::schema_nodes(version));
    }
}

/// A record of four fields, one of them a boolean.
#[derive(Debug, PartialEq)]
pub struct NotSoSmallStruct {
    pub x1: u32,
    pub x2: bool,
    pub x3: u32,
    pub x4: i32,
}

impl Model for NotSoSmallStruct {
    /// The models of the fields, in order.
    type M = <(u32, bool, (u32, i32)) as Model>::M;

    open spec fn model(&self) -> <(u32, bool, (u32, i32)) as Model>::M {
        (self.x1.model(), self.x2.model(), (self.x3.model(), self.x4.model()))
    }
}

impl Serialize for NotSoSmallStruct {
    open spec fn valid(version: u32, m: <(u32, bool, (u32, i32)) as Model>::M) -> bool {
        <(u32, bool, (u32, i32)) as Serialize>::valid(version, m)
    }

    /// The fields, one after the other.
    open spec fn encode(version: u32, m: <(u32, bool, (u32, i32)) as Model>::M) -> Seq<u8> {
        <(u32, bool, (u32, i32)) as Serialize>::encode(version, m)
    }

    fn serialize(&self, serializer: &mut Serializer) -> (r: Result<(), SavefileError>) {
        match self.x1.serialize(serializer) {
            Ok(()) => {},
            Err(e) => {
                return Err(e);
            },
        }
        match self.x2.serialize(serializer) {
            Ok(()) => {},
            Err(e) => {
                return Err(e);
            },
        }
        match self.x3.serialize(serializer) {
            Ok(()) => {},
            Err(e) => {
                return Err(e);
            },
        }
        match self.x4.serialize(serializer) {
            Ok(()) => {},
            Err(e) => {
                return Err(e);
            },
        }
        assert(serializer.writer@ =~= old(serializer).writer@ + Self::encode(
            old(serializer).file_version,
            self.model(),
        ));
        Ok(())
    }
}

impl Deserialize for NotSoSmallStruct {
    open spec fn decode(version: u32, s: Seq<u8>) -> Option<(<(u32, bool, (u32, i32)) as Model>::M, nat)> {
        <(u32, bool, (u32, i32)) as Deserialize>::decode(version, s)
    }

    fn deserialize(deserializer: &mut Deserializer) -> (r: Result<NotSoSmallStruct, SavefileError>) {
        match <(u32, bool, (u32, i32)) as Deserialize>::deserialize(deserializer) {
            Ok((v0, v1, (v2, v3))) => Ok(NotSoSmallStruct { x1: v0, x2: v1, x3: v2, x4: v3 }),
            Err(e) => Err(e),
        }
    }
}

impl Roundtrip for NotSoSmallStruct {
    open spec fn read_back(version: u32, m: <(u32, bool, (u32, i32)) as Model>::M) -> <(u32, bool, (u32, i32)) as Model>::M {
        <(u32, bool, (u32, i32)) as Roundtrip>::read_back(version, m)
    }

    proof fn lemma_roundtrip(version: u32, m: <(u32, bool, (u32, i32)) as Model>::M, rest: Seq<u8>) {
        <(u32, bool, (u32, i32)) as Roundtrip>::lemma_roundtrip(version, m, rest);
    }
}

impl WithSchema for NotSoSmallStruct {
    open spec fn schema_nodes(version: u32) -> Seq<SchemaNodeModel> {
        seq![SchemaNodeModel::Struct(("NotSoSmallStruct"@, 4usize))]
            + seq![SchemaNodeModel::Field(("x1"@, false))] + <u32 as WithSchema>::schema_nodes(version)
            + seq![SchemaNodeModel::Field(("x2"@, false))] + <bool as WithSchema>::schema_nodes(version)
            + seq![SchemaNodeModel::Field(("x3"@, false))] + <u32 as WithSchema>::schema_nodes(version)
            + seq![SchemaNodeModel::Field(("x4"@, false))] + <i32 as WithSchema>::schema_nodes(version)
    }

    fn schema(version: u32, nodes: &mut Vec<SchemaNode>) {
        let count: usize = 4;
        push_struct(nodes, "NotSoSmallStruct", count);
        push_field(nodes, "x1", false);
        <u32 as WithSchema>::schema(version, nodes);
        push_field(nodes, "x2", false);
        <bool as WithSchema>::schema(version, nodes);
        push_field(nodes, "x3", false);
        <u32 as WithSchema>::schema(version, nodes);
        push_field(nodes, "x4", false);
        <i32 as WithSchema>::schema(version, nodes);
        assert(nodes.model() =~= old(nodes).model() + Self::schema_nodes(version));
    }
}

/// The kind of ground a map tile has.
#[derive(Copy, Clone, Debug, Eq, PartialEq, Hash, Ord, PartialOrd)]
pub enum TerrainType {
    Wheat,
    Forest,
    Desert,
    Rock,
    Dirt,
    Grass,
    Water,
}

/// The model of a [`TerrainType`]: the same variant, with the models of its fields.
pub enum TerrainTypeModel {
    Wheat,
    Forest,
    Desert,
    Rock,
    Dirt,
    Grass,
    Water,
}

impl Model for TerrainType {
    type M = TerrainTypeModel;

    open spec fn model(&self) -> TerrainTypeModel {
        match self {
            TerrainType::Wheat => TerrainTypeModel::Wheat,
            TerrainType::Forest => TerrainTypeModel::Forest,
            TerrainType::Desert => TerrainTypeModel::Desert,
            TerrainType::Rock => TerrainTypeModel::Rock,
            TerrainType::Dirt => TerrainTypeModel::Dirt,
            TerrainType::Grass => TerrainTypeModel::Grass,
            TerrainType::Water => TerrainTypeModel::Water,
        }
    }
}

impl Serialize for TerrainType {
    open spec fn valid(version: u32, m: TerrainTypeModel) -> bool {
        match m {
            TerrainTypeModel::Wheat => true,
            TerrainTypeModel::Forest => true,
            TerrainTypeModel::Desert => true,
            TerrainTypeModel::Rock => true,
            TerrainTypeModel::Dirt => true,
            TerrainTypeModel::Grass => true,
            TerrainTypeModel::Water => true,
        }
    }

    /// The position of the variant in the declaration, as 1 byte(s), then the fields of the variant.
    open spec fn encode(version: u32, m: TerrainTypeModel) -> Seq<u8> {
        match m {
            TerrainTypeModel::Wheat => le_bytes(0, 1),
            TerrainTypeModel::Forest => le_bytes(1, 1),
            TerrainTypeModel::Desert => le_bytes(2, 1),
            TerrainTypeModel::Rock => le_bytes(3, 1),
            TerrainTypeModel::Dirt => le_bytes(4, 1),
            TerrainTypeModel::Grass => le_bytes(5, 1),
            TerrainTypeModel::Water => le_bytes(6, 1),
        }
    }

    fn serialize(&self, serializer: &mut Serializer) -> (r: Result<(), SavefileError>) {
        let ghost version = serializer.file_version;
        let ghost start0 = serializer.writer@;
        match self {
            TerrainType::Wheat => {
                serializer.write_u8(0);
            },
            TerrainType::Forest => {
                serializer.write_u8(1);
            },
            TerrainType::Desert => {
                serializer.write_u8(2);
            },
            TerrainType::Rock => {
                serializer.write_u8(3);
            },
            TerrainType::Dirt => {
                serializer.write_u8(4);
            },
            TerrainType::Grass => {
                serializer.write_u8(5);
            },
            TerrainType::Water => {
                serializer.write_u8(6);
            },
        }
        assert(serializer.writer@ =~= old(serializer).writer@ + Self::encode(
            old(serializer).file_version,
            self.model(),
        ));
        Ok(())
    }
}

impl Deserialize for TerrainType {
    /// Unknown variant numbers are refused.
    open spec fn decode(version: u32, s: Seq<u8>) -> Option<(TerrainTypeModel, nat)> {
        if s.len() < 1 {
            None
        } else if le_value(s.take(1)) == 0 {
            Some((TerrainTypeModel::Wheat, 1))
        } else if le_value(s.take(1)) == 1 {
            Some((TerrainTypeModel::Forest, 1))
        } else if le_value(s.take(1)) == 2 {
            Some((TerrainTypeModel::Desert, 1))
        } else if le_value(s.take(1)) == 3 {
            Some((TerrainTypeModel::Rock, 1))
        } else if le_value(s.take(1)) == 4 {
            Some((TerrainTypeModel::Dirt, 1))
        } else if le_value(s.take(1)) == 5 {
            Some((TerrainTypeModel::Grass, 1))
        } else if le_value(s.take(1)) == 6 {
            Some((TerrainTypeModel::Water, 1))
        } else {
            None
        }
    }

    fn deserialize(deserializer: &mut Deserializer) -> (r: Result<TerrainType, SavefileError>) {
        let ghost s0 = deserializer.rest();
        let tag = match deserializer.read_uint(1) {
            Ok(t) => t,
            Err(e) => {
                return Err(e);
            },
        };
        assert(deserializer.rest() =~= s0.skip(1));
        if tag == 0 {
            Ok(TerrainType::Wheat)
        } else if tag == 1 {
            Ok(TerrainType::Forest)
        } else if tag == 2 {
            Ok(TerrainType::Desert)
        } else if tag == 3 {
            Ok(TerrainType::Rock)
        } else if tag == 4 {
            Ok(TerrainType::Dirt)
        } else if tag == 5 {
            Ok(TerrainType::Grass)
        } else if tag == 6 {
            Ok(TerrainType::Water)
        } else {
            Err(SavefileError::BadDiscriminant)
        }
    }
}

impl Roundtrip for TerrainType {
    open spec fn read_back(version: u32, m: TerrainTypeModel) -> TerrainTypeModel {
        match m {
            TerrainTypeModel::Wheat => TerrainTypeModel::Wheat,
            TerrainTypeModel::Forest => TerrainTypeModel::Forest,
            TerrainTypeModel::Desert => TerrainTypeModel::Desert,
            TerrainTypeModel::Rock => TerrainTypeModel::Rock,
            TerrainTypeModel::Dirt => TerrainTypeModel::Dirt,
            TerrainTypeModel::Grass => TerrainTypeModel::Grass,
            TerrainTypeModel::Water => TerrainTypeModel::Water,
        }
    }

    proof fn lemma_roundtrip(version: u32, m: TerrainTypeModel, rest: Seq<u8>) {
        reveal_with_fuel(pow256, 2);
        let all = Self::encode(version, m) + rest;
        match m {
            TerrainTypeModel::Wheat => {
                lemma_le_roundtrip(0, 1);
                assert(all.take(1) =~= le_bytes(0, 1));
            },
            TerrainTypeModel::Forest => {
                lemma_le_roundtrip(1, 1);
                assert(all.take(1) =~= le_bytes(1, 1));
            },
            TerrainTypeModel::Desert => {
                lemma_le_roundtrip(2, 1);
                assert(all.take(1) =~= le_bytes(2, 1));
            },
            TerrainTypeModel::Rock => {
                lemma_le_roundtrip(3, 1);
                assert(all.take(1) =~= le_bytes(3, 1));
            },
            TerrainTypeModel::Dirt => {
                lemma_le_roundtrip(4, 1);
                assert(all.take(1) =~= le_bytes(4, 1));
            },
            TerrainTypeModel::Grass => {
                lemma_le_roundtrip(5, 1);
                assert(all.take(1) =~= le_bytes(5, 1));
            },
            TerrainTypeModel::Water => {
                lemma_le_roundtrip(6, 1);
                assert(all.take(1) =~= le_bytes(6, 1));
            },
        }
    }
}

impl WithSchema for TerrainType {
    open spec fn schema_nodes(version: u32) -> Seq<SchemaNodeModel> {
        seq![SchemaNodeModel::Enum(("TerrainType"@, 1u8, 7usize))]
            + seq![SchemaNodeModel::Variant(("Wheat"@, 0usize))]
            + seq![SchemaNodeModel::Variant(("Forest"@, 0usize))]
            + seq![SchemaNodeModel::Variant(("Desert"@, 0usize))]
            + seq![SchemaNodeModel::Variant(("Rock"@, 0usize))]
            + seq![SchemaNodeModel::Variant(("Dirt"@, 0usize))]
            + seq![SchemaNodeModel::Variant(("Grass"@, 0usize))]
            + seq![SchemaNodeModel::Variant(("Water"@, 0usize))]
    }

    fn schema(version: u32, nodes: &mut Vec<SchemaNode>) {
        let count: usize = 7;
        push_enum(nodes, "TerrainType", 1, count);
        let c0: usize = 0;
        push_variant(nodes, "Wheat", c0);
        let c1: usize = 0;
        push_variant(nodes, "Forest", c1);
        let c2: usize = 0;
        push_variant(nodes, "Desert", c2);
        let c3: usize = 0;
        push_variant(nodes, "Rock", c3);
        let c4: usize = 0;
        push_variant(nodes, "Dirt", c4);
        let c5: usize = 0;
        push_variant(nodes, "Grass", c5);
        let c6: usize = 0;
        push_variant(nodes, "Water", c6);
        assert(nodes.model() =~= old(nodes).model() + Self::schema_nodes(version));
    }
}

/// One tile of a map.
#[derive(Clone, Copy, Debug, PartialEq)]
pub struct TerrainTile {
    pub curtype: TerrainType,
    pub resource: u8,
    pub height: i16,
}

impl Model for TerrainTile {
    /// The models of the fields, in order.
    type M = <(TerrainType, u8, i16) as Model>::M;

    open spec fn model(&self) -> <(TerrainType, u8, i16) as Model>::M {
        (self.curtype.model(), self.resource.model(), self.height.model())
    }
}

impl Serialize for TerrainTile {
    open spec fn valid(version: u32, m: <(TerrainType, u8, i16) as Model>::M) -> bool {
        <(TerrainType, u8, i16) as Serialize>::valid(version, m)
    }

    /// The fields, one after the other.
    open spec fn encode(version: u32, m: <(TerrainType, u8, i16) as Model>::M) -> Seq<u8> {
        <(TerrainType, u8, i16) as Serialize>::encode(version, m)
    }

    fn serialize(&self, serializer: &mut Serializer) -> (r: Result<(), SavefileError>) {
        match self.curtype.serialize(serializer) {
            Ok(()) => {},
            Err(e) => {
                return Err(e);
            },
        }
        match self.resource.serialize(serializer) {
            Ok(()) => {},
            Err(e) => {
                return Err(e);
            },
        }
        match self.height.serialize(serializer) {
            Ok(()) => {},
            Err(e) => {
                return Err(e);
            },
        }
        assert(serializer.writer@ =~= old(serializer).writer@ + Self::encode(
            old(serializer).file_version,
            self.model(),
        ));
        Ok(())
    }
}

impl Deserialize for TerrainTile {
    open spec fn decode(version: u32, s: Seq<u8>) -> Option<(<(TerrainType, u8, i16) as Model>::M, nat)> {
        <(TerrainType, u8, i16) as Deserialize>::decode(version, s)
    }

    fn deserialize(deserializer: &mut Deserializer) -> (r: Result<TerrainTile, SavefileError>) {
        match <(TerrainType, u8, i16) as Deserialize>::deserialize(deserializer) {
            Ok((v0, v1, v2)) => Ok(TerrainTile { curtype: v0, resource: v1, height: v2 }),
            Err(e) => Err(e),
        }
    }
}

impl Roundtrip for TerrainTile {
    open spec fn read_back(version: u32, m: <(TerrainType, u8, i16) as Model>::M) -> <(TerrainType, u8, i16) as Model>::M {
        <(TerrainType, u8, i16) as Roundtrip>::read_back(version, m)
    }

    proof fn lemma_roundtrip(version: u32, m: <(TerrainType, u8, i16) as Model>::M, rest: Seq<u8>) {
        <(TerrainType, u8, i16) as Roundtrip>::lemma_roundtrip(version, m, rest);
    }
}

impl WithSchema for TerrainTile {
    open spec fn schema_nodes(version: u32) -> Seq<SchemaNodeModel> {
        seq![SchemaNodeModel::Struct(("TerrainTile"@, 3usize))]
            + seq![SchemaNodeModel::Field(("curtype"@, false))] + <TerrainType as WithSchema>::schema_nodes(version)
            + seq![SchemaNodeModel::Field(("resource"@, false))] + <u8 as WithSchema>::schema_nodes(version)
            + seq![SchemaNodeModel::Field(("height"@, false))] + <i16 as WithSchema>::schema_nodes(version)
    }

    fn schema(version: u32, nodes: &mut Vec<SchemaNode>) {
        let count: usize = 3;
        push_struct(nodes, "TerrainTile", count);
        push_field(nodes, "curtype", false);
        <TerrainType as WithSchema>::schema(version, nodes);
        push_field(nodes, "resource", false);
        <u8 as WithSchema>::schema(version, nodes);
        push_field(nodes, "height", false);
        <i16 as WithSchema>::schema(version, nodes);
        assert(nodes.model() =~= old(nodes).model() + Self::schema_nodes(version));
    }
}

/// A record that is not `Copy`.
#[derive(Debug, PartialEq)]
pub struct NonCopy {
    pub ncfield: u8,
}

impl Model for NonCopy {
    /// The models of the fields, in order.
    type M = <u8 as Model>::M;

    open spec fn model(&self) -> <u8 as Model>::M {
        self.ncfield.model()
    }
}

impl Serialize for NonCopy {
    open spec fn valid(version: u32, m: <u8 as Model>::M) -> bool {
        <u8 as Serialize>::valid(version, m)
    }

    /// The fields, one after the other.
    open spec fn encode(version: u32, m: <u8 as Model>::M) -> Seq<u8> {
        <u8 as Serialize>::encode(version, m)
    }

    fn serialize(&self, serializer: &mut Serializer) -> (r: Result<(), SavefileError>) {
        match self.ncfield.serialize(serializer) {
            Ok(()) => {},
            Err(e) => {
                return Err(e);
            },
        }
        assert(serializer.writer@ =~= old(serializer).writer@ + Self::encode(
            old(serializer).file_version,
            self.model(),
        ));
        Ok(())
    }
}

impl Deserialize for NonCopy {
    open spec fn decode(version: u32, s: Seq<u8>) -> Option<(<u8 as Model>::M, nat)> {
        <u8 as Deserialize>::decode(version, s)
    }

    fn deserialize(deserializer: &mut Deserializer) -> (r: Result<NonCopy, SavefileError>) {
        match <u8 as Deserialize>::deserialize(deserializer) {
            Ok(v0) => Ok(NonCopy { ncfield: v0 }),
            Err(e) => Err(e),
        }
    }
}

impl Roundtrip for NonCopy {
    open spec fn read_back(version: u32, m: <u8 as Model>::M) -> <u8 as Model>::M {
        <u8 as Roundtrip>::read_back(version, m)
    }

    proof fn lemma_roundtrip(version: u32, m: <u8 as Model>::M, rest: Seq<u8>) {
        <u8 as Roundtrip>::lemma_roundtrip(version, m, rest);
    }
}

impl WithSchema for NonCopy {
    open spec fn schema_nodes(version: u32) -> Seq<SchemaNodeModel> {
        seq![SchemaNodeModel::Struct(("NonCopy"@, 1usize))]
            + seq![SchemaNodeModel::Field(("ncfield"@, false))] + <u8 as WithSchema>::schema_nodes(version)
    }

    fn schema(version: u32, nodes: &mut Vec<SchemaNode>) {
        let count: usize = 1;
        push_struct(nodes, "NonCopy", count);
        push_field(nodes, "ncfield", false);
        <u8 as WithSchema>::schema(version, nodes);
        assert(nodes.model() =~= old(nodes).model() + Self::schema_nodes(version));
    }
}

/// A record around a value of any type.
#[derive(Debug, PartialEq)]
pub struct GenericWrapper<T> {
    pub something: T,
}

impl<T: Model> Model for GenericWrapper<T> {
    /// The models of the fields, in order.
    type M = <T as Model>::M;

    open spec fn model(&self) -> <T as Model>::M {
        self.something.model()
    }
}

impl<T: Serialize> Serialize for GenericWrapper<T> {
    open spec fn valid(version: u32, m: <T as Model>::M) -> bool {
        <T as Serialize>::valid(version, m)
    }

    /// The fields, one after the other.
    open spec fn encode(version: u32, m: <T as Model>::M) -> Seq<u8> {
        <T as Serialize>::encode(version, m)
    }

    fn serialize(&self, serializer: &mut Serializer) -> (r: Result<(), SavefileError>) {
        match self.something.serialize(serializer) {
            Ok(()) => {},
            Err(e) => {
                return Err(e);
            },
        }
        assert(serializer.writer@ =~= old(serializer).writer@ + Self::encode(
            old(serializer).file_version,
            self.model(),
        ));
        Ok(())
    }
}

impl<T: Deserialize> Deserialize for GenericWrapper<T> {
    open spec fn decode(version: u32, s: Seq<u8>) -> Option<(<T as Model>::M, nat)> {
        <T as Deserialize>::decode(version, s)
    }

    fn deserialize(deserializer: &mut Deserializer) -> (r: Result<GenericWrapper<T>, SavefileError>) {
        match <T as Deserialize>::deserialize(deserializer) {
            Ok(v0) => Ok(GenericWrapper { something: v0 }),
            Err(e) => Err(e),
        }
    }
}

impl<T: Roundtrip> Roundtrip for GenericWrapper<T> {
    open spec fn read_back(version: u32, m: <T as Model>::M) -> <T as Model>::M {
        <T as Roundtrip>::read_back(version, m)
    }

    proof fn lemma_roundtrip(version: u32, m: <T as Model>::M, rest: Seq<u8>) {
        <T as Roundtrip>::lemma_roundtrip(version, m, rest);
    }
}

impl<T: WithSchema> WithSchema for GenericWrapper<T> {
    open spec fn schema_nodes(version: u32) -> Seq<SchemaNodeModel> {
        seq![SchemaNodeModel::Struct(("GenericWrapper"@, 1usize))]
            + seq![SchemaNodeModel::Field(("something"@, false))] + <T as WithSchema>::schema_nodes(version)
    }

    fn schema(version: u32, nodes: &mut Vec<SchemaNode>) {
        let count: usize = 1;
        push_struct(nodes, "GenericWrapper", count);
        push_field(nodes, "something", false);
        <T as WithSchema>::schema(version, nodes);
        assert(nodes.model() =~= old(nodes).model() + Self::schema_nodes(version));
    }
}

/// A record of tuples of every length up to three.
#[derive(Debug, PartialEq)]
pub struct TupleCarrier {
    pub t0: (),
    pub t1: (u32,),
    pub t2: (u32, u32),
    pub t3: (u32, u32, u32),
}

impl Model for TupleCarrier {
    /// The models of the fields, in order.
    type M = <((), (u32,), ((u32, u32), (u32, u32, u32))) as Model>::M;

    open spec fn model(&self) -> <((), (u32,), ((u32, u32), (u32, u32, u32))) as Model>::M {
        (self.t0.model(), self.t1.model(), (self.t2.model(), self.t3.model()))
    }
}

impl Serialize for TupleCarrier {
    open spec fn valid(version: u32, m: <((), (u32,), ((u32, u32), (u32, u32, u32))) as Model>::M) -> bool {
        <((), (u32,), ((u32, u32), (u32, u32, u32))) as Serialize>::valid(version, m)
    }

    /// The fields, one after the other.
    open spec fn encode(version: u32, m: <((), (u32,), ((u32, u32), (u32, u32, u32))) as Model>::M) -> Seq<u8> {
        <((), (u32,), ((u32, u32), (u32, u32, u32))) as Serialize>::encode(version, m)
    }

    fn serialize(&self, serializer: &mut Serializer) -> (r: Result<(), SavefileError>) {
        match self.t0.serialize(serializer) {
            Ok(()) => {},
            Err(e) => {
                return Err(e);
            },
        }
        match self.t1.serialize(serializer) {
            Ok(()) => {},
            Err(e) => {
                return Err(e);
            },
        }
        match self.t2.serialize(serializer) {
            Ok(()) => {},
            Err(e) => {
                return Err(e);
            },
        }
        match self.t3.serialize(serializer) {
            Ok(()) => {},
            Err(e) => {
                return Err(e);
            },
        }
        assert(serializer.writer@ =~= old(serializer).writer@ + Self::encode(
            old(serializer).file_version,
            self.model(),
        ));
        Ok(())
    }
}

impl Deserialize for TupleCarrier {
    open spec fn decode(version: u32, s: Seq<u8>) -> Option<(<((), (u32,), ((u32, u32), (u32, u32, u32))) as Model>::M, nat)> {
        <((), (u32,), ((u32, u32), (u32, u32, u32))) as Deserialize>::decode(version, s)
    }

    fn deserialize(deserializer: &mut Deserializer) -> (r: Result<TupleCarrier, SavefileError>) {
        match <((), (u32,), ((u32, u32), (u32, u32, u32))) as Deserialize>::deserialize(deserializer) {
            Ok((v0, v1, (v2, v3))) => Ok(TupleCarrier { t0: v0, t1: v1, t2: v2, t3: v3 }),
            Err(e) => Err(e),
        }
    }
}

impl Roundtrip for TupleCarrier {
    open spec fn read_back(version: u32, m: <((), (u32,), ((u32, u32), (u32, u32, u32))) as Model>::M) -> <((), (u32,), ((u32, u32), (u32, u32, u32))) as Model>::M {
        <((), (u32,), ((u32, u32), (u32, u32, u32))) as Roundtrip>::read_back(version, m)
    }

    proof fn lemma_roundtrip(version: u32, m: <((), (u32,), ((u32, u32), (u32, u32, u32))) as Model>::M, rest: Seq<u8>) {
        <((), (u32,), ((u32, u32), (u32, u32, u32))) as Roundtrip>::lemma_roundtrip(version, m, rest);
    }
}

impl WithSchema for TupleCarrier {
    open spec fn schema_nodes(version: u32) -> Seq<SchemaNodeModel> {
        seq![SchemaNodeModel::Struct(("TupleCarrier"@, 4usize))]
            + seq![SchemaNodeModel::Field(("t0"@, false))] + <() as WithSchema>::schema_nodes(version)
            + seq![SchemaNodeModel::Field(("t1"@, false))] + <(u32,) as WithSchema>::schema_nodes(version)
            + seq![SchemaNodeModel::Field(("t2"@, false))] + <(u32, u32) as WithSchema>::schema_nodes(version)
            + seq![SchemaNodeModel::Field(("t3"@, false))] + <(u32, u32, u32) as WithSchema>::schema_nodes(version)
    }

    fn schema(version: u32, nodes: &mut Vec<SchemaNode>) {
        let count: usize = 4;
        push_struct(nodes, "TupleCarrier", count);
        push_field(nodes, "t0", false);
        <() as WithSchema>::schema(version, nodes);
        push_field(nodes, "t1", false);
        <(u32,) as WithSchema>::schema(version, nodes);
        push_field(nodes, "t2", false);
        <(u32, u32) as WithSchema>::schema(version, nodes);
        push_field(nodes, "t3", false);
        <(u32, u32, u32) as WithSchema>::schema(version, nodes);
        assert(nodes.model() =~= old(nodes).model() + Self::schema_nodes(version));
    }
}

/// A record with a field that is not saved; it reads back as zero.
#[derive(Debug, PartialEq)]
pub struct StructWithIgnored {
    pub a: u32,
    pub b: u32,
    pub c: u32,
}

impl Model for StructWithIgnored {
    /// The models of the fields, in order.
    type M = <(u32, u32, u32) as Model>::M;

    open spec fn model(&self) -> <(u32, u32, u32) as Model>::M {
        (self.a.model(), self.b.model(), self.c.model())
    }
}

impl Serialize for StructWithIgnored {
    open spec fn valid(version: u32, m: <(u32, u32, u32) as Model>::M) -> bool {
        <u32 as Serialize>::valid(version, m.0) && <u32 as Serialize>::valid(version, m.1)
    }

    /// The fields that the data version holds, one after the other.
    open spec fn encode(version: u32, m: <(u32, u32, u32) as Model>::M) -> Seq<u8> {
        <u32 as Serialize>::encode(version, m.0) + <u32 as Serialize>::encode(version, m.1) + Seq::<u8>::empty()
    }

    fn serialize(&self, serializer: &mut Serializer) -> (r: Result<(), SavefileError>) {
        let ghost version = serializer.file_version;
        let ghost m = self.model();
        let ghost start = serializer.writer@;
        match self.a.serialize(serializer) {
            Ok(()) => {},
            Err(e) => {
                return Err(e);
            },
        }
        assert(serializer.writer@ =~= start + <u32 as Serialize>::encode(version, m.0));
        match self.b.serialize(serializer) {
            Ok(()) => {},
            Err(e) => {
                return Err(e);
            },
        }
        assert(serializer.writer@ =~= start + <u32 as Serialize>::encode(version, m.0) + <u32 as Serialize>::encode(version, m.1));
        assert(serializer.writer@ =~= old(serializer).writer@ + Self::encode(
            old(serializer).file_version,
            self.model(),
        ));
        Ok(())
    }
}

impl Deserialize for StructWithIgnored {
    open spec fn decode(version: u32, s: Seq<u8>) -> Option<(<(u32, u32, u32) as Model>::M, nat)> {
        match <u32 as Deserialize>::decode(version, s) {
            Some((v0, n0)) => match <u32 as Deserialize>::decode(version, s.skip((n0) as int)) {
                Some((v1, n1)) => match Some((0u32, 0nat)) {
                    Some((v2, n2)) => Some(((v0, v1, v2), n0 + n1 + n2)),
                    None => None,
                },
                None => None,
            },
            None => None,
        }
    }

    fn deserialize(deserializer: &mut Deserializer) -> (r: Result<StructWithIgnored, SavefileError>) {
        let ghost s = deserializer.rest();
        let ghost p0 = deserializer.pos;
        let v0: u32 = match <u32 as Deserialize>::deserialize(deserializer) {
            Ok(x) => x,
            Err(e) => {
                return Err(e);
            },
        };
        assert(deserializer.rest() =~= s.skip(deserializer.pos - p0));
        let v1: u32 = match <u32 as Deserialize>::deserialize(deserializer) {
            Ok(x) => x,
            Err(e) => {
                return Err(e);
            },
        };
        assert(deserializer.rest() =~= s.skip(deserializer.pos - p0));
        let v2: u32 = 0;
        assert(deserializer.rest() =~= s.skip(deserializer.pos - p0));
        Ok(StructWithIgnored { a: v0, b: v1, c: v2 })
    }
}

impl Roundtrip for StructWithIgnored {
    open spec fn read_back(version: u32, m: <(u32, u32, u32) as Model>::M) -> <(u32, u32, u32) as Model>::M {
        (<u32 as Roundtrip>::read_back(version, m.0), <u32 as Roundtrip>::read_back(version, m.1), 0u32)
    }

    proof fn lemma_roundtrip(version: u32, m: <(u32, u32, u32) as Model>::M, rest: Seq<u8>) {
        let t3 = rest;
        let t2 = Seq::<u8>::empty() + t3;
        let t1 = <u32 as Serialize>::encode(version, m.1) + t2;
        let t0 = <u32 as Serialize>::encode(version, m.0) + t1;
        <u32 as Roundtrip>::lemma_roundtrip(version, m.0, t1);
        <u32 as Roundtrip>::lemma_roundtrip(version, m.1, t2);
        assert(<u32 as Serialize>::encode(version, m.0) + <u32 as Serialize>::encode(version, m.1) + Seq::<u8>::empty() + rest =~= t0);
        assert(t0.skip((<u32 as Serialize>::encode(version, m.0).len()) as int) =~= t1);
        assert(t0.skip((<u32 as Serialize>::encode(version, m.0).len() + <u32 as Serialize>::encode(version, m.1).len()) as int) =~= t2);
        assert(t0.skip((<u32 as Serialize>::encode(version, m.0).len() + <u32 as Serialize>::encode(version, m.1).len() + Seq::<u8>::empty().len()) as int) =~= t3);
    }
}

impl WithSchema for StructWithIgnored {
    open spec fn schema_nodes(version: u32) -> Seq<SchemaNodeModel> {
        seq![SchemaNodeModel::Struct(("StructWithIgnored"@, 2usize))]
            + seq![SchemaNodeModel::Field(("a"@, false))] + <u32 as WithSchema>::schema_nodes(version)
            + seq![SchemaNodeModel::Field(("b"@, false))] + <u32 as WithSchema>::schema_nodes(version)
    }

    fn schema(version: u32, nodes: &mut Vec<SchemaNode>) {
        let mut count: usize = 0;
        count = count + 1;
        count = count + 1;
        push_struct(nodes, "StructWithIgnored", count);
        push_field(nodes, "a", false);
        <u32 as WithSchema>::schema(version, nodes);
        push_field(nodes, "b", false);
        <u32 as WithSchema>::schema(version, nodes);
        assert(nodes.model() =~= old(nodes).model() + Self::schema_nodes(version));
    }
}

/// A wrapper around one number.
#[derive(Debug, PartialEq)]
pub struct NewTypeSample(pub u32);

impl Model for NewTypeSample {
    /// The models of the fields, in order.
    type M = <u32 as Model>::M;

    open spec fn model(&self) -> <u32 as Model>::M {
        self.0.model()
    }
}

impl Serialize for NewTypeSample {
    open spec fn valid(version: u32, m: <u32 as Model>::M) -> bool {
        <u32 as Serialize>::valid(version, m)
    }

    /// The fields, one after the other.
    open spec fn encode(version: u32, m: <u32 as Model>::M) -> Seq<u8> {
        <u32 as Serialize>::encode(version, m)
    }

    fn serialize(&self, serializer: &mut Serializer) -> (r: Result<(), SavefileError>) {
        match self.0.serialize(serializer) {
            Ok(()) => {},
            Err(e) => {
                return Err(e);
            },
        }
        assert(serializer.writer@ =~= old(serializer).writer@ + Self::encode(
            old(serializer).file_version,
            self.model(),
        ));
        Ok(())
    }
}

impl Deserialize for NewTypeSample {
    open spec fn decode(version: u32, s: Seq<u8>) -> Option<(<u32 as Model>::M, nat)> {
        <u32 as Deserialize>::decode(version, s)
    }

    fn deserialize(deserializer: &mut Deserializer) -> (r: Result<NewTypeSample, SavefileError>) {
        match <u32 as Deserialize>::deserialize(deserializer) {
            Ok(v0) => Ok(NewTypeSample(v0)),
            Err(e) => Err(e),
        }
    }
}

impl Roundtrip for NewTypeSample {
    open spec fn read_back(version: u32, m: <u32 as Model>::M) -> <u32 as Model>::M {
        <u32 as Roundtrip>::read_back(version, m)
    }

    proof fn lemma_roundtrip(version: u32, m: <u32 as Model>::M, rest: Seq<u8>) {
        <u32 as Roundtrip>::lemma_roundtrip(version, m, rest);
    }
}

impl WithSchema for NewTypeSample {
    open spec fn schema_nodes(version: u32) -> Seq<SchemaNodeModel> {
        seq![SchemaNodeModel::Struct(("NewTypeSample"@, 1usize))]
            + seq![SchemaNodeModel::Field(("0"@, false))] + <u32 as WithSchema>::schema_nodes(version)
    }

    fn schema(version: u32, nodes: &mut Vec<SchemaNode>) {
        let count: usize = 1;
        push_struct(nodes, "NewTypeSample", count);
        push_field(nodes, "0", false);
        <u32 as WithSchema>::schema(version, nodes);
        assert(nodes.model() =~= old(nodes).model() + Self::schema_nodes(version));
    }
}

/// A tuple record of two numbers.
#[derive(Debug, PartialEq)]
pub struct NewTypeSample2(pub u32, pub i8);

impl Model for NewTypeSample2 {
    /// The models of the fields, in order.
    type M = <(u32, i8) as Model>::M;

    open spec fn model(&self) -> <(u32, i8) as Model>::M {
        (self.0.model(), self.1.model())
    }
}

impl Serialize for NewTypeSample2 {
    open spec fn valid(version: u32, m: <(u32, i8) as Model>::M) -> bool {
        <(u32, i8) as Serialize>::valid(version, m)
    }

    /// The fields, one after the other.
    open spec fn encode(version: u32, m: <(u32, i8) as Model>::M) -> Seq<u8> {
        <(u32, i8) as Serialize>::encode(version, m)
    }

    fn serialize(&self, serializer: &mut Serializer) -> (r: Result<(), SavefileError>) {
        match self.0.serialize(serializer) {
            Ok(()) => {},
            Err(e) => {
                return Err(e);
            },
        }
        match self.1.serialize(serializer) {
            Ok(()) => {},
            Err(e) => {
                return Err(e);
            },
        }
        assert(serializer.writer@ =~= old(serializer).writer@ + Self::encode(
            old(serializer).file_version,
            self.model(),
        ));
        Ok(())
    }
}

impl Deserialize for NewTypeSample2 {
    open spec fn decode(version: u32, s: Seq<u8>) -> Option<(<(u32, i8) as Model>::M, nat)> {
        <(u32, i8) as Deserialize>::decode(version, s)
    }

    fn deserialize(deserializer: &mut Deserializer) -> (r: Result<NewTypeSample2, SavefileError>) {
        match <(u32, i8) as Deserialize>::deserialize(deserializer) {
            Ok((v0, v1)) => Ok(NewTypeSample2(v0, v1)),
            Err(e) => Err(e),
        }
    }
}

impl Roundtrip for NewTypeSample2 {
    open spec fn read_back(version: u32, m: <(u32, i8) as Model>::M) -> <(u32, i8) as Model>::M {
        <(u32, i8) as Roundtrip>::read_back(version, m)
    }

    proof fn lemma_roundtrip(version: u32, m: <(u32, i8) as Model>::M, rest: Seq<u8>) {
        <(u32, i8) as Roundtrip>::lemma_roundtrip(version, m, rest);
    }
}

impl WithSchema for NewTypeSample2 {
    open spec fn schema_nodes(version: u32) -> Seq<SchemaNodeModel> {
        seq![SchemaNodeModel::Struct(("NewTypeSample2"@, 2usize))]
            + seq![SchemaNodeModel::Field(("0"@, false))] + <u32 as WithSchema>::schema_nodes(version)
            + seq![SchemaNodeModel::Field(("1"@, false))] + <i8 as WithSchema>::schema_nodes(version)
    }

    fn schema(version: u32, nodes: &mut Vec<SchemaNode>) {
        let count: usize = 2;
        push_struct(nodes, "NewTypeSample2", count);
        push_field(nodes, "0", false);
        <u32 as WithSchema>::schema(version, nodes);
        push_field(nodes, "1", false);
        <i8 as WithSchema>::schema(version, nodes);
        assert(nodes.model() =~= old(nodes).model() + Self::schema_nodes(version));
    }
}

/// A record with no fields.
#[derive(Debug, PartialEq)]
pub struct NoFields {
}

impl Model for NoFields {
    /// The models of the fields, in order.
    type M = <() as Model>::M;

    open spec fn model(&self) -> <() as Model>::M {
        ()
    }
}

impl Serialize for NoFields {
    open spec fn valid(version: u32, m: <() as Model>::M) -> bool {
        <() as Serialize>::valid(version, m)
    }

    /// Nothing: the type holds no data.
    open spec fn encode(version: u32, m: <() as Model>::M) -> Seq<u8> {
        <() as Serialize>::encode(version, m)
    }

    fn serialize(&self, serializer: &mut Serializer) -> (r: Result<(), SavefileError>) {
        assert(serializer.writer@ =~= old(serializer).writer@ + Self::encode(
            old(serializer).file_version,
            self.model(),
        ));
        Ok(())
    }
}

impl Deserialize for NoFields {
    open spec fn decode(version: u32, s: Seq<u8>) -> Option<(<() as Model>::M, nat)> {
        <() as Deserialize>::decode(version, s)
    }

    fn deserialize(deserializer: &mut Deserializer) -> (r: Result<NoFields, SavefileError>) {
        Ok(NoFields {  })
    }
}

impl Roundtrip for NoFields {
    open spec fn read_back(version: u32, m: <() as Model>::M) -> <() as Model>::M {
        <() as Roundtrip>::read_back(version, m)
    }

    proof fn lemma_roundtrip(version: u32, m: <() as Model>::M, rest: Seq<u8>) {
        <() as Roundtrip>::lemma_roundtrip(version, m, rest);
    }
}

impl WithSchema for NoFields {
    open spec fn schema_nodes(version: u32) -> Seq<SchemaNodeModel> {
        seq![SchemaNodeModel::Struct(("NoFields"@, 0usize))]
    }

    fn schema(version: u32, nodes: &mut Vec<SchemaNode>) {
        let count: usize = 0;
        push_struct(nodes, "NoFields", count);
        assert(nodes.model() =~= old(nodes).model() + Self::schema_nodes(version));
    }
}

/// A unit record.
#[derive(Debug, PartialEq)]
pub struct MyUnitStruct;

impl Model for MyUnitStruct {
    /// The models of the fields, in order.
    type M = <() as Model>::M;

    open spec fn model(&self) -> <() as Model>::M {
        ()
    }
}

impl Serialize for MyUnitStruct {
    open spec fn valid(version: u32, m: <() as Model>::M) -> bool {
        <() as Serialize>::valid(version, m)
    }

    /// Nothing: the type holds no data.
    open spec fn encode(version: u32, m: <() as Model>::M) -> Seq<u8> {
        <() as Serialize>::encode(version, m)
    }

    fn serialize(&self, serializer: &mut Serializer) -> (r: Result<(), SavefileError>) {
        assert(serializer.writer@ =~= old(serializer).writer@ + Self::encode(
            old(serializer).file_version,
            self.model(),
        ));
        Ok(())
    }
}

impl Deserialize for MyUnitStruct {
    open spec fn decode(version: u32, s: Seq<u8>) -> Option<(<() as Model>::M, nat)> {
        <() as Deserialize>::decode(version, s)
    }

    fn deserialize(deserializer: &mut Deserializer) -> (r: Result<MyUnitStruct, SavefileError>) {
        Ok(MyUnitStruct)
    }
}

impl Roundtrip for MyUnitStruct {
    open spec fn read_back(version: u32, m: <() as Model>::M) -> <() as Model>::M {
        <() as Roundtrip>::read_back(version, m)
    }

    proof fn lemma_roundtrip(version: u32, m: <() as Model>::M, rest: Seq<u8>) {
        <() as Roundtrip>::lemma_roundtrip(version, m, rest);
    }
}

impl WithSchema for MyUnitStruct {
    open spec fn schema_nodes(version: u32) -> Seq<SchemaNodeModel> {
        seq![SchemaNodeModel::Struct(("MyUnitStruct"@, 0usize))]
    }

    fn schema(version: u32, nodes: &mut Vec<SchemaNode>) {
        let count: usize = 0;
        push_struct(nodes, "MyUnitStruct", count);
        assert(nodes.model() =~= old(nodes).model() + Self::schema_nodes(version));
    }
}

/// A small record with a list of strings.
#[derive(Debug, PartialEq)]
pub struct MySimpleFuzz1 {
    pub integer: i8,
    pub strings: Vec<String>,
}

impl Model for MySimpleFuzz1 {
    /// The models of the fields, in order.
    type M = <(i8, Vec<String>) as Model>::M;

    open spec fn model(&self) -> <(i8, Vec<String>) as Model>::M {
        (self.integer.model(), self.strings.model())
    }
}

impl Serialize for MySimpleFuzz1 {
    open spec fn valid(version: u32, m: <(i8, Vec<String>) as Model>::M) -> bool {
        <(i8, Vec<String>) as Serialize>::valid(version, m)
    }

    /// The fields, one after the other.
    open spec fn encode(version: u32, m: <(i8, Vec<String>) as Model>::M) -> Seq<u8> {
        <(i8, Vec<String>) as Serialize>::encode(version, m)
    }

    fn serialize(&self, serializer: &mut Serializer) -> (r: Result<(), SavefileError>) {
        match self.integer.serialize(serializer) {
            Ok(()) => {},
            Err(e) => {
                return Err(e);
            },
        }
        match self.strings.serialize(serializer) {
            Ok(()) => {},
            Err(e) => {
                return Err(e);
            },
        }
        assert(serializer.writer@ =~= old(serializer).writer@ + Self::encode(
            old(serializer).file_version,
            self.model(),
        ));
        Ok(())
    }
}

impl Deserialize for MySimpleFuzz1 {
    open spec fn decode(version: u32, s: Seq<u8>) -> Option<(<(i8, Vec<String>) as Model>::M, nat)> {
        <(i8, Vec<String>) as Deserialize>::decode(version, s)
    }

    fn deserialize(deserializer: &mut Deserializer) -> (r: Result<MySimpleFuzz1, SavefileError>) {
        match <(i8, Vec<String>) as Deserialize>::deserialize(deserializer) {
            Ok((v0, v1)) => Ok(MySimpleFuzz1 { integer: v0, strings: v1 }),
            Err(e) => Err(e),
        }
    }
}

impl Roundtrip for MySimpleFuzz1 {
    open spec fn read_back(version: u32, m: <(i8, Vec<String>) as Model>::M) -> <(i8, Vec<String>) as Model>::M {
        <(i8, Vec<String>) as Roundtrip>::read_back(version, m)
    }

    proof fn lemma_roundtrip(version: u32, m: <(i8, Vec<String>) as Model>::M, rest: Seq<u8>) {
        <(i8, Vec<String>) as Roundtrip>::lemma_roundtrip(version, m, rest);
    }
}

impl WithSchema for MySimpleFuzz1 {
    open spec fn schema_nodes(version: u32) -> Seq<SchemaNodeModel> {
        seq![SchemaNodeModel::Struct(("MySimpleFuzz1"@, 2usize))]
            + seq![SchemaNodeModel::Field(("integer"@, false))] + <i8 as WithSchema>::schema_nodes(version)
            + seq![SchemaNodeModel::Field(("strings"@, false))] + <Vec<String> as WithSchema>::schema_nodes(version)
    }

    fn schema(version: u32, nodes: &mut Vec<SchemaNode>) {
        let count: usize = 2;
        push_struct(nodes, "MySimpleFuzz1", count);
        push_field(nodes, "integer", false);
        <i8 as WithSchema>::schema(version, nodes);
        push_field(nodes, "strings", false);
        <Vec<String> as WithSchema>::schema(version, nodes);
        assert(nodes.model() =~= old(nodes).model() + Self::schema_nodes(version));
    }
}

} // verus!
