//! Records laid out without padding, and records holding them.
use vstd::prelude::*;

use crate::error::SavefileError;
use crate::le::{le_bytes, le_value, lemma_le_roundtrip, pow256};
use crate::packed::{close_record, combine_variant, enum_layout, number_layout, place_field, record_layout, Layout, Packed};
use crate::schema::nodes::{SchemaNode, SchemaNodeModel};
use crate::schema::with_schema::{push_enum, push_field, push_struct, push_variant, WithSchema};
use crate::serializer::{Deserializer, Serializer};
use crate::traits::{Deserialize, Model, Roundtrip, Serialize};

verus! {

/// One number.
#[derive(Clone, Copy, Debug, PartialEq)]
pub struct Inner {
    pub x: u32,
}

impl Model for Inner {
    /// The models of the fields, in order.
    type M = <u32 as Model>::M;

    open spec fn model(&self) -> <u32 as Model>::M {
        self.x.model()
    }
}

impl Serialize for Inner {
    open spec fn valid(version: u32, m: <u32 as Model>::M) -> bool {
        <u32 as Serialize>::valid(version, m)
    }

    /// The fields, one after the other.
    open spec fn encode(version: u32, m: <u32 as Model>::M) -> Seq<u8> {
        <u32 as Serialize>::encode(version, m)
    }

    fn serialize(&self, serializer: &mut Serializer) -> (r: Result<(), SavefileError>) {
        match self.x.serialize(serializer) {
            Ok(()) => {},
            Err(e) => {
                return Err(e);
            },
        }
        assert(serializer.writer@ =~= old(serializer).writer@ + Self::encode(
            old(serializer).file_version,
            self.model(),
        ));
        Ok(())
    }
}

impl Deserialize for Inner {
    open spec fn decode(version: u32, s: Seq<u8>) -> Option<(<u32 as Model>::M, nat)> {
        <u32 as Deserialize>::decode(version, s)
    }

    fn deserialize(deserializer: &mut Deserializer) -> (r: Result<Inner, SavefileError>) {
        match <u32 as Deserialize>::deserialize(deserializer) {
            Ok(v0) => Ok(Inner { x: v0 }),
            Err(e) => Err(e),
        }
    }
}

impl Roundtrip for Inner {
    open spec fn read_back(version: u32, m: <u32 as Model>::M) -> <u32 as Model>::M {
        <u32 as Roundtrip>::read_back(version, m)
    }

    proof fn lemma_roundtrip(version: u32, m: <u32 as Model>::M, rest: Seq<u8>) {
        <u32 as Roundtrip>::lemma_roundtrip(version, m, rest);
    }
}

impl WithSchema for Inner {
    open spec fn schema_nodes(version: u32) -> Seq<SchemaNodeModel> {
        seq![SchemaNodeModel::Struct(("Inner"@, 1usize))]
            + seq![SchemaNodeModel::Field(("x"@, false))] + <u32 as WithSchema>::schema_nodes(version)
    }

    fn schema(version: u32, nodes: &mut Vec<SchemaNode>) {
        let count: usize = 1;
        push_struct(nodes, "Inner", count);
        push_field(nodes, "x", false);
        <u32 as WithSchema>::schema(version, nodes);
        assert(nodes.model() =~= old(nodes).model() + Self::schema_nodes(version));
    }
}

impl Packed for Inner {
    /// The fields back to back, in order.
    open spec fn packed_layout(version: u32) -> Layout {
        record_layout(seq![<u32 as Packed>::packed_layout(version)], (0, 1))
    }

    fn layout(version: u32) -> (r: Option<(u64, u64)>) {
        let acc = Some((0u64, 1u64));
        let acc = place_field(acc, <u32 as Packed>::layout(version));
        proof {
            let s = seq![<u32 as Packed>::packed_layout(version)];
            assert(s.drop_first() =~= Seq::<Layout>::empty());
            reveal_with_fuel(record_layout, 2);
        }
        close_record(acc)
    }
}

/// A byte followed by a record.
#[derive(Clone, Copy, Debug, PartialEq)]
pub struct Nested {
    pub misaligner: u8,
    pub inner: Inner,
}

impl Model for Nested {
    /// The models of the fields, in order.
    type M = <(u8, Inner) as Model>::M;

    open spec fn model(&self) -> <(u8, Inner) as Model>::M {
        (self.misaligner.model(), self.inner.model())
    }
}

impl Serialize for Nested {
    open spec fn valid(version: u32, m: <(u8, Inner) as Model>::M) -> bool {
        <(u8, Inner) as Serialize>::valid(version, m)
    }

    /// The fields, one after the other.
    open spec fn encode(version: u32, m: <(u8, Inner) as Model>::M) -> Seq<u8> {
        <(u8, Inner) as Serialize>::encode(version, m)
    }

    fn serialize(&self, serializer: &mut Serializer) -> (r: Result<(), SavefileError>) {
        match self.misaligner.serialize(serializer) {
            Ok(()) => {},
            Err(e) => {
                return Err(e);
            },
        }
        match self.inner.serialize(serializer) {
            Ok(()) => {},
            Err(e) => {
                return Err(e);
            },
        }
        assert(serializer.writer@ =~= old(serializer).writer@ + Self::encode(
            old(serializer).file_version,
            self.model(),
        ));
        Ok(())
    }
}

impl Deserialize for Nested {
    open spec fn decode(version: u32, s: Seq<u8>) -> Option<(<(u8, Inner) as Model>::M, nat)> {
        <(u8, Inner) as Deserialize>::decode(version, s)
    }

    fn deserialize(deserializer: &mut Deserializer) -> (r: Result<Nested, SavefileError>) {
        match <(u8, Inner) as Deserialize>::deserialize(deserializer) {
            Ok((v0, v1)) => Ok(Nested { misaligner: v0, inner: v1 }),
            Err(e) => Err(e),
        }
    }
}

impl Roundtrip for Nested {
    open spec fn read_back(version: u32, m: <(u8, Inner) as Model>::M) -> <(u8, Inner) as Model>::M {
        <(u8, Inner) as Roundtrip>::read_back(version, m)
    }

    proof fn lemma_roundtrip(version: u32, m: <(u8, Inner) as Model>::M, rest: Seq<u8>) {
        <(u8, Inner) as Roundtrip>::lemma_roundtrip(version, m, rest);
    }
}

impl WithSchema for Nested {
    open spec fn schema_nodes(version: u32) -> Seq<SchemaNodeModel> {
        seq![SchemaNodeModel::Struct(("Nested"@, 2usize))]
            + seq![SchemaNodeModel::Field(("misaligner"@, false))] + <u8 as WithSchema>::schema_nodes(version)
            + seq![SchemaNodeModel::Field(("inner"@, false))] + <Inner as WithSchema>::schema_nodes(version)
    }

    fn schema(version: u32, nodes: &mut Vec<SchemaNode>) {
        let count: usize = 2;
        push_struct(nodes, "Nested", count);
        push_field(nodes, "misaligner", false);
        <u8 as WithSchema>::schema(version, nodes);
        push_field(nodes, "inner", false);
        <Inner as WithSchema>::schema(version, nodes);
        assert(nodes.model() =~= old(nodes).model() + Self::schema_nodes(version));
    }
}

/// Three variants with a one-byte discriminant.
#[derive(Clone, Copy, Debug, PartialEq)]
pub enum TestReprEnum {
    A,
    B,
    C,
}

/// The model of a [`TestReprEnum`]: the same variant, with the models of its fields.
pub enum TestReprEnumModel {
    A,
    B,
    C,
}

impl Model for TestReprEnum {
    type M = TestReprEnumModel;

    open spec fn model(&self) -> TestReprEnumModel {
        match self {
            TestReprEnum::A => TestReprEnumModel::A,
            TestReprEnum::B => TestReprEnumModel::B,
            TestReprEnum::C => TestReprEnumModel::C,
        }
    }
}

impl Serialize for TestReprEnum {
    open spec fn valid(version: u32, m: TestReprEnumModel) -> bool {
        match m {
            TestReprEnumModel::A => true,
            TestReprEnumModel::B => true,
            TestReprEnumModel::C => true,
        }
    }

    /// The position of the variant in the declaration, as 1 byte(s), then the fields of the variant.
    open spec fn encode(version: u32, m: TestReprEnumModel) -> Seq<u8> {
        match m {
            TestReprEnumModel::A => le_bytes(0, 1),
            TestReprEnumModel::B => le_bytes(1, 1),
            TestReprEnumModel::C => le_bytes(2, 1),
        }
    }

    fn serialize(&self, serializer: &mut Serializer) -> (r: Result<(), SavefileError>) {
        let ghost version = serializer.file_version;
        let ghost start0 = serializer.writer@;
        match self {
            TestReprEnum::A => {
                serializer.write_u8(0);
            },
            TestReprEnum::B => {
                serializer.write_u8(1);
            },
            TestReprEnum::C => {
                serializer.write_u8(2);
            },
        }
        assert(serializer.writer@ =~= old(serializer).writer@ + Self::encode(
            old(serializer).file_version,
            self.model(),
        ));
        Ok(())
    }
}

impl Deserialize for TestReprEnum {
    /// Unknown variant numbers are refused.
    open spec fn decode(version: u32, s: Seq<u8>) -> Option<(TestReprEnumModel, nat)> {
        if s.len() < 1 {
            None
        } else if le_value(s.take(1)) == 0 {
            Some((TestReprEnumModel::A, 1))
        } else if le_value(s.take(1)) == 1 {
            Some((TestReprEnumModel::B, 1))
        } else if le_value(s.take(1)) == 2 {
            Some((TestReprEnumModel::C, 1))
        } else {
            None
        }
    }

    fn deserialize(deserializer: &mut Deserializer) -> (r: Result<TestReprEnum, SavefileError>) {
        let ghost s0 = deserializer.rest();
        let tag = match deserializer.read_uint(1) {
            Ok(t) => t,
            Err(e) => {
                return Err(e);
            },
        };
        assert(deserializer.rest() =~= s0.skip(1));
        if tag == 0 {
            Ok(TestReprEnum::A)
        } else if tag == 1 {
            Ok(TestReprEnum::B)
        } else if tag == 2 {
            Ok(TestReprEnum::C)
        } else {
            Err(SavefileError::BadDiscriminant)
        }
    }
}

impl Roundtrip for TestReprEnum {
    open spec fn read_back(version: u32, m: TestReprEnumModel) -> TestReprEnumModel {
        match m {
            TestReprEnumModel::A => TestReprEnumModel::A,
            TestReprEnumModel::B => TestReprEnumModel::B,
            TestReprEnumModel::C => TestReprEnumModel::C,
        }
    }

    proof fn lemma_roundtrip(version: u32, m: TestReprEnumModel, rest: Seq<u8>) {
        reveal_with_fuel(pow256, 2);
        let all = Self::encode(version, m) + rest;
        match m {
            TestReprEnumModel::A => {
                lemma_le_roundtrip(0, 1);
                assert(all.take(1) =~= le_bytes(0, 1));
            },
            TestReprEnumModel::B => {
                lemma_le_roundtrip(1, 1);
                assert(all.take(1) =~= le_bytes(1, 1));
            },
            TestReprEnumModel::C => {
                lemma_le_roundtrip(2, 1);
                assert(all.take(1) =~= le_bytes(2, 1));
            },
        }
    }
}

impl WithSchema for TestReprEnum {
    open spec fn schema_nodes(version: u32) -> Seq<SchemaNodeModel> {
        seq![SchemaNodeModel::Enum(("TestReprEnum"@, 1u8, 3usize))]
            + seq![SchemaNodeModel::Variant(("A"@, 0usize))]
            + seq![SchemaNodeModel::Variant(("B"@, 0usize))]
            + seq![SchemaNodeModel::Variant(("C"@, 0usize))]
    }

    fn schema(version: u32, nodes: &mut Vec<SchemaNode>) {
        let count: usize = 3;
        push_enum(nodes, "TestReprEnum", 1, count);
        let c0: usize = 0;
        push_variant(nodes, "A", c0);
        let c1: usize = 0;
        push_variant(nodes, "B", c1);
        let c2: usize = 0;
        push_variant(nodes, "C", c2);
        assert(nodes.model() =~= old(nodes).model() + Self::schema_nodes(version));
    }
}

impl Packed for TestReprEnum {
    /// Each variant laid out as its discriminant followed by its fields.
    open spec fn packed_layout(version: u32) -> Layout {
        enum_layout(seq![record_layout(seq![number_layout(1)], (0, 1)), record_layout(seq![number_layout(1)], (0, 1)), record_layout(seq![number_layout(1)], (0, 1))])
    }

    fn layout(version: u32) -> (r: Option<(u64, u64)>) {
        let a0 = Some((0u64, 1u64));
        let a0 = place_field(a0, Some((1u64, 1u64)));
        let a0 = close_record(a0);
        proof {
            let s0 = seq![number_layout(1)];
            assert(s0.drop_first() =~= Seq::<Layout>::empty());
            reveal_with_fuel(record_layout, 2);
        }
        let a1 = Some((0u64, 1u64));
        let a1 = place_field(a1, Some((1u64, 1u64)));
        let a1 = close_record(a1);
        proof {
            let s1 = seq![number_layout(1)];
            assert(s1.drop_first() =~= Seq::<Layout>::empty());
            reveal_with_fuel(record_layout, 2);
        }
        let a2 = Some((0u64, 1u64));
        let a2 = place_field(a2, Some((1u64, 1u64)));
        let a2 = close_record(a2);
        proof {
            let s2 = seq![number_layout(1)];
            assert(s2.drop_first() =~= Seq::<Layout>::empty());
            reveal_with_fuel(record_layout, 2);
        }
        let acc = Some((0u64, 1u64));
        let acc = combine_variant(a2, acc);
        let acc = combine_variant(a1, acc);
        let acc = combine_variant(a0, acc);
        proof {
            let vs = seq![record_layout(seq![number_layout(1)], (0, 1)), record_layout(seq![number_layout(1)], (0, 1)), record_layout(seq![number_layout(1)], (0, 1))];
            assert(vs.drop_first() =~= seq![record_layout(seq![number_layout(1)], (0, 1)), record_layout(seq![number_layout(1)], (0, 1))]);
            assert(vs.drop_first().drop_first() =~= seq![record_layout(seq![number_layout(1)], (0, 1))]);
            assert(vs.drop_first().drop_first().drop_first() =~= Seq::<Layout>::empty());
            reveal_with_fuel(enum_layout, 4);
        }
        acc
    }
}

/// A record with no fields.
#[derive(Clone, Copy)]
pub struct MyUnitStruct {
}

impl Model for MyUnitStruct {
    /// The models of the fields, in order.
    type M = <() as Model>::M;

    open spec fn model(&self) -> <() as Model>::M {
        ()
    }
}

impl Serialize for MyUnitStruct {
    open spec fn valid(version: u32, m: <() as Model>::M) -> bool {
        <() as Serialize>::valid(version, m)
    }

    /// Nothing: the type holds no data.
    open spec fn encode(version: u32, m: <() as Model>::M) -> Seq<u8> {
        <() as Serialize>::encode(version, m)
    }

    fn serialize(&self, serializer: &mut Serializer) -> (r: Result<(), SavefileError>) {
        assert(serializer.writer@ =~= old(serializer).writer@ + Self::encode(
            old(serializer).file_version,
            self.model(),
        ));
        Ok(())
    }
}

impl Deserialize for MyUnitStruct {
    open spec fn decode(version: u32, s: Seq<u8>) -> Option<(<() as Model>::M, nat)> {
        <() as Deserialize>::decode(version, s)
    }

    fn deserialize(deserializer: &mut Deserializer) -> (r: Result<MyUnitStruct, SavefileError>) {
        Ok(MyUnitStruct {  })
    }
}

impl Roundtrip for MyUnitStruct {
    open spec fn read_back(version: u32, m: <() as Model>::M) -> <() as Model>::M {
        <() as Roundtrip>::read_back(version, m)
    }

    proof fn lemma_roundtrip(version: u32, m: <() as Model>::M, rest: Seq<u8>) {
        <() as Roundtrip>::lemma_roundtrip(version, m, rest);
    }
}

impl WithSchema for MyUnitStruct {
    open spec fn schema_nodes(version: u32) -> Seq<SchemaNodeModel> {
        seq![SchemaNodeModel::Struct(("MyUnitStruct"@, 0usize))]
    }

    fn schema(version: u32, nodes: &mut Vec<SchemaNode>) {
        let count: usize = 0;
        push_struct(nodes, "MyUnitStruct", count);
        assert(nodes.model() =~= old(nodes).model() + Self::schema_nodes(version));
    }
}

impl Packed for MyUnitStruct {
    /// The fields back to back, in order.
    open spec fn packed_layout(version: u32) -> Layout {
        record_layout(Seq::<Layout>::empty(), (0, 1))
    }

    fn layout(version: u32) -> (r: Option<(u64, u64)>) {
        let acc = Some((0u64, 1u64));
        proof {
            let s = Seq::<Layout>::empty();
            reveal_with_fuel(record_layout, 1);
        }
        close_record(acc)
    }
}

/// A tuple record of one `usize`.
#[derive(Clone, Copy)]
pub struct UnnamedFieldsStruct(pub usize);

impl Model for UnnamedFieldsStruct {
    /// The models of the fields, in order.
    type M = <usize as Model>::M;

    open spec fn model(&self) -> <usize as Model>::M {
        self.0.model()
    }
}

impl Serialize for UnnamedFieldsStruct {
    open spec fn valid(version: u32, m: <usize as Model>::M) -> bool {
        <usize as Serialize>::valid(version, m)
    }

    /// The fields, one after the other.
    open spec fn encode(version: u32, m: <usize as Model>::M) -> Seq<u8> {
        <usize as Serialize>::encode(version, m)
    }

    fn serialize(&self, serializer: &mut Serializer) -> (r: Result<(), SavefileError>) {
        match self.0.serialize(serializer) {
            Ok(()) => {},
            Err(e) => {
                return Err(e);
            },
        }
        assert(serializer.writer@ =~= old(serializer).writer@ + Self::encode(
            old(serializer).file_version,
            self.model(),
        ));
        Ok(())
    }
}

impl Deserialize for UnnamedFieldsStruct {
    open spec fn decode(version: u32, s: Seq<u8>) -> Option<(<usize as Model>::M, nat)> {
        <usize as Deserialize>::decode(version, s)
    }

    fn deserialize(deserializer: &mut Deserializer) -> (r: Result<UnnamedFieldsStruct, SavefileError>) {
        match <usize as Deserialize>::deserialize(deserializer) {
            Ok(v0) => Ok(UnnamedFieldsStruct(v0)),
            Err(e) => Err(e),
        }
    }
}

impl Roundtrip for UnnamedFieldsStruct {
    open spec fn read_back(version: u32, m: <usize as Model>::M) -> <usize as Model>::M {
        <usize as Roundtrip>::read_back(version, m)
    }

    proof fn lemma_roundtrip(version: u32, m: <usize as Model>::M, rest: Seq<u8>) {
        <usize as Roundtrip>::lemma_roundtrip(version, m, rest);
    }
}

impl WithSchema for UnnamedFieldsStruct {
    open spec fn schema_nodes(version: u32) -> Seq<SchemaNodeModel> {
        seq![SchemaNodeModel::Struct(("UnnamedFieldsStruct"@, 1usize))]
            + seq![SchemaNodeModel::Field(("0"@, false))] + <usize as WithSchema>::schema_nodes(version)
    }

    fn schema(version: u32, nodes: &mut Vec<SchemaNode>) {
        let count: usize = 1;
        push_struct(nodes, "UnnamedFieldsStruct", count);
        push_field(nodes, "0", false);
        <usize as WithSchema>::schema(version, nodes);
        assert(nodes.model() =~= old(nodes).model() + Self::schema_nodes(version));
    }
}

impl Packed for UnnamedFieldsStruct {
    /// The fields back to back, in order.
    open spec fn packed_layout(version: u32) -> Layout {
        record_layout(seq![<usize as Packed>::packed_layout(version)], (0, 1))
    }

    fn layout(version: u32) -> (r: Option<(u64, u64)>) {
        let acc = Some((0u64, 1u64));
        let acc = place_field(acc, <usize as Packed>::layout(version));
        proof {
            let s = seq![<usize as Packed>::packed_layout(version)];
            assert(s.drop_first() =~= Seq::<Layout>::empty());
            reveal_with_fuel(record_layout, 2);
        }
        close_record(acc)
    }
}

} // verus!
