//! Records whose fields are, or are not, laid out without padding.
use vstd::prelude::*;

use crate::error::SavefileError;
use crate::le::{le_bytes, le_value, lemma_le_roundtrip, pow256};
use crate::packed::{close_record, combine_variant, enum_layout, number_layout, place_field, record_layout, Layout, Packed};
use crate::schema::nodes::{SchemaNode, SchemaNodeModel};
use crate::schema::with_schema::{push_enum, push_field, push_struct, push_variant, WithSchema};
use crate::serializer::{Deserializer, Serializer};
use crate::traits::{Deserialize, Model, Roundtrip, Serialize};

verus! {

/// Two numbers of the same width.
#[derive(Clone, Copy, Debug, PartialEq)]
pub struct CorrectlyAligned {
    pub x: u32,
    pub y: u32,
}

impl Model for CorrectlyAligned {
    /// The models of the fields, in order.
    type M = <(u32, u32) as Model>::M;

    open spec fn model(&self) -> <(u32, u32) as Model>::M {
        (self.x.model(), self.y.model())
    }
}

impl Serialize for CorrectlyAligned {
    open spec fn valid(version: u32, m: <(u32, u32) as Model>::M) -> bool {
        <(u32, u32) as Serialize>::valid(version, m)
    }

    /// The fields, one after the other.
    open spec fn encode(version: u32, m: <(u32, u32) as Model>::M) -> Seq<u8> {
        <(u32, u32) as Serialize>::encode(version, m)
    }

    fn serialize(&self, serializer: &mut Serializer) -> (r: Result<(), SavefileError>) {
        match self.x.serialize(serializer) {
            Ok(()) => {},
            Err(e) => {
                return Err(e);
            },
        }
        match self.y.serialize(serializer) {
            Ok(()) => {},
            Err(e) => {
                return Err(e);
            },
        }
        assert(serializer.writer@ =~= old(serializer).writer@ + Self::encode(
            old(serializer).file_version,
            self.model(),
        ));
        Ok(())
    }
}

impl Deserialize for CorrectlyAligned {
    open spec fn decode(version: u32, s: Seq<u8>) -> Option<(<(u32, u32) as Model>::M, nat)> {
        <(u32, u32) as Deserialize>::decode(version, s)
    }

    fn deserialize(deserializer: &mut Deserializer) -> (r: Result<CorrectlyAligned, SavefileError>) {
        match <(u32, u32) as Deserialize>::deserialize(deserializer) {
            Ok((v0, v1)) => Ok(CorrectlyAligned { x: v0, y: v1 }),
            Err(e) => Err(e),
        }
    }
}

impl Roundtrip for CorrectlyAligned {
    open spec fn read_back(version: u32, m: <(u32, u32) as Model>::M) -> <(u32, u32) as Model>::M {
        <(u32, u32) as Roundtrip>::read_back(version, m)
    }

    proof fn lemma_roundtrip(version: u32, m: <(u32, u32) as Model>::M, rest: Seq<u8>) {
        <(u32, u32) as Roundtrip>::lemma_roundtrip(version, m, rest);
    }
}

impl WithSchema for CorrectlyAligned {
    open spec fn schema_nodes(version: u32) -> Seq<SchemaNodeModel> {
        seq![SchemaNodeModel::Struct(("CorrectlyAligned"@, 2usize))]
            + seq![SchemaNodeModel::Field(("x"@, false))] + <u32 as WithSchema>::schema_nodes(version)
            + seq![SchemaNodeModel::Field(("y"@, false))] + <u32 as WithSchema>::schema_nodes(version)
    }

    fn schema(version: u32, nodes: &mut Vec<SchemaNode>) {
        let count: usize = 2;
        push_struct(nodes, "CorrectlyAligned", count);
        push_field(nodes, "x", false);
        <u32 as WithSchema>::schema(version, nodes);
        push_field(nodes, "y", false);
        <u32 as WithSchema>::schema(version, nodes);
        assert(nodes.model() =~= old(nodes).model() + Self::schema_nodes(version));
    }
}

impl Packed for CorrectlyAligned {
    /// The fields back to back, in order.
    open spec fn packed_layout(version: u32) -> Layout {
        record_layout(seq![<u32 as Packed>::packed_layout(version), <u32 as Packed>::packed_layout(version)], (0, 1))
    }

    fn layout(version: u32) -> (r: Option<(u64, u64)>) {
        let acc = Some((0u64, 1u64));
        let acc = place_field(acc, <u32 as Packed>::layout(version));
        let acc = place_field(acc, <u32 as Packed>::layout(version));
        proof {
            let s = seq![<u32 as Packed>::packed_layout(version), <u32 as Packed>::packed_layout(version)];
            assert(s.drop_first() =~= seq![<u32 as Packed>::packed_layout(version)]);
            assert(s.drop_first().drop_first() =~= Seq::<Layout>::empty());
            reveal_with_fuel(record_layout, 3);
        }
        close_record(acc)
    }
}

/// A byte followed by a number, with padding between them.
#[derive(Clone, Copy, Debug, PartialEq)]
pub struct Inner {
    pub misaligner: u8,
    pub x: u32,
}

impl Model for Inner {
    /// The models of the fields, in order.
    type M = <(u8, u32) as Model>::M;

    open spec fn model(&self) -> <(u8, u32) as Model>::M {
        (self.misaligner.model(), self.x.model())
    }
}

impl Serialize for Inner {
    open spec fn valid(version: u32, m: <(u8, u32) as Model>::M) -> bool {
        <(u8, u32) as Serialize>::valid(version, m)
    }

    /// The fields, one after the other.
    open spec fn encode(version: u32, m: <(u8, u32) as Model>::M) -> Seq<u8> {
        <(u8, u32) as Serialize>::encode(version, m)
    }

    fn serialize(&self, serializer: &mut Serializer) -> (r: Result<(), SavefileError>) {
        match self.misaligner.serialize(serializer) {
            Ok(()) => {},
            Err(e) => {
                return Err(e);
            },
        }
        match self.x.serialize(serializer) {
            Ok(()) => {},
            Err(e) => {
                return Err(e);
            },
        }
        assert(serializer.writer@ =~= old(serializer).writer@ + Self::encode(
            old(serializer).file_version,
            self.model(),
        ));
        Ok(())
    }
}

impl Deserialize for Inner {
    open spec fn decode(version: u32, s: Seq<u8>) -> Option<(<(u8, u32) as Model>::M, nat)> {
        <(u8, u32) as Deserialize>::decode(version, s)
    }

    fn deserialize(deserializer: &mut Deserializer) -> (r: Result<Inner, SavefileError>) {
        match <(u8, u32) as Deserialize>::deserialize(deserializer) {
            Ok((v0, v1)) => Ok(Inner { misaligner: v0, x: v1 }),
            Err(e) => Err(e),
        }
    }
}

impl Roundtrip for Inner {
    open spec fn read_back(version: u32, m: <(u8, u32) as Model>::M) -> <(u8, u32) as Model>::M {
        <(u8, u32) as Roundtrip>::read_back(version, m)
    }

    proof fn lemma_roundtrip(version: u32, m: <(u8, u32) as Model>::M, rest: Seq<u8>) {
        <(u8, u32) as Roundtrip>::lemma_roundtrip(version, m, rest);
    }
}

impl WithSchema for Inner {
    open spec fn schema_nodes(version: u32) -> Seq<SchemaNodeModel> {
        seq![SchemaNodeModel::Struct(("Inner"@, 2usize))]
            + seq![SchemaNodeModel::Field(("misaligner"@, false))] + <u8 as WithSchema>::schema_nodes(version)
            + seq![SchemaNodeModel::Field(("x"@, false))] + <u32 as WithSchema>::schema_nodes(version)
    }

    fn schema(version: u32, nodes: &mut Vec<SchemaNode>) {
        let count: usize = 2;
        push_struct(nodes, "Inner", count);
        push_field(nodes, "misaligner", false);
        <u8 as WithSchema>::schema(version, nodes);
        push_field(nodes, "x", false);
        <u32 as WithSchema>::schema(version, nodes);
        assert(nodes.model() =~= old(nodes).model() + Self::schema_nodes(version));
    }
}

impl Packed for Inner {
    /// The fields back to back, in order.
    open spec fn packed_layout(version: u32) -> Layout {
        record_layout(seq![<u8 as Packed>::packed_layout(version), <u32 as Packed>::packed_layout(version)], (0, 1))
    }

    fn layout(version: u32) -> (r: Option<(u64, u64)>) {
        let acc = Some((0u64, 1u64));
        let acc = place_field(acc, <u8 as Packed>::layout(version));
        let acc = place_field(acc, <u32 as Packed>::layout(version));
        proof {
            let s = seq![<u8 as Packed>::packed_layout(version), <u32 as Packed>::packed_layout(version)];
            assert(s.drop_first() =~= seq![<u32 as Packed>::packed_layout(version)]);
            assert(s.drop_first().drop_first() =~= Seq::<Layout>::empty());
            reveal_with_fuel(record_layout, 3);
        }
        close_record(acc)
    }
}

/// A number followed by a byte, with padding after them.
#[derive(Clone, Copy, Debug, PartialEq)]
pub struct Inner2 {
    pub x: u32,
    pub misaligner: u8,
}

impl Model for Inner2 {
    /// The models of the fields, in order.
    type M = <(u32, u8) as Model>::M;

    open spec fn model(&self) -> <(u32, u8) as Model>::M {
        (self.x.model(), self.misaligner.model())
    }
}

impl Serialize for Inner2 {
    open spec fn valid(version: u32, m: <(u32, u8) as Model>::M) -> bool {
        <(u32, u8) as Serialize>::valid(version, m)
    }

    /// The fields, one after the other.
    open spec fn encode(version: u32, m: <(u32, u8) as Model>::M) -> Seq<u8> {
        <(u32, u8) as Serialize>::encode(version, m)
    }

    fn serialize(&self, serializer: &mut Serializer) -> (r: Result<(), SavefileError>) {
        match self.x.serialize(serializer) {
            Ok(()) => {},
            Err(e) => {
                return Err(e);
            },
        }
        match self.misaligner.serialize(serializer) {
            Ok(()) => {},
            Err(e) => {
                return Err(e);
            },
        }
        assert(serializer.writer@ =~= old(serializer).writer@ + Self::encode(
            old(serializer).file_version,
            self.model(),
        ));
        Ok(())
    }
}

impl Deserialize for Inner2 {
    open spec fn decode(version: u32, s: Seq<u8>) -> Option<(<(u32, u8) as Model>::M, nat)> {
        <(u32, u8) as Deserialize>::decode(version, s)
    }

    fn deserialize(deserializer: &mut Deserializer) -> (r: Result<Inner2, SavefileError>) {
        match <(u32, u8) as Deserialize>::deserialize(deserializer) {
            Ok((v0, v1)) => Ok(Inner2 { x: v0, misaligner: v1 }),
            Err(e) => Err(e),
        }
    }
}

impl Roundtrip for Inner2 {
    open spec fn read_back(version: u32, m: <(u32, u8) as Model>::M) -> <(u32, u8) as Model>::M {
        <(u32, u8) as Roundtrip>::read_back(version, m)
    }

    proof fn lemma_roundtrip(version: u32, m: <(u32, u8) as Model>::M, rest: Seq<u8>) {
        <(u32, u8) as Roundtrip>::lemma_roundtrip(version, m, rest);
    }
}

impl WithSchema for Inner2 {
    open spec fn schema_nodes(version: u32) -> Seq<SchemaNodeModel> {
        seq![SchemaNodeModel::Struct(("Inner2"@, 2usize))]
            + seq![SchemaNodeModel::Field(("x"@, false))] + <u32 as WithSchema>::schema_nodes(version)
            + seq![SchemaNodeModel::Field(("misaligner"@, false))] + <u8 as WithSchema>::schema_nodes(version)
    }

    fn schema(version: u32, nodes: &mut Vec<SchemaNode>) {
        let count: usize = 2;
        push_struct(nodes, "Inner2", count);
        push_field(nodes, "x", false);
        <u32 as WithSchema>::schema(version, nodes);
        push_field(nodes, "misaligner", false);
        <u8 as WithSchema>::schema(version, nodes);
        assert(nodes.model() =~= old(nodes).model() + Self::schema_nodes(version));
    }
}

impl Packed for Inner2 {
    /// The fields back to back, in order.
    open spec fn packed_layout(version: u32) -> Layout {
        record_layout(seq![<u32 as Packed>::packed_layout(version), <u8 as Packed>::packed_layout(version)], (0, 1))
    }

    fn layout(version: u32) -> (r: Option<(u64, u64)>) {
        let acc = Some((0u64, 1u64));
        let acc = place_field(acc, <u32 as Packed>::layout(version));
        let acc = place_field(acc, <u8 as Packed>::layout(version));
        proof {
            let s = seq![<u32 as Packed>::packed_layout(version), <u8 as Packed>::packed_layout(version)];
            assert(s.drop_first() =~= seq![<u8 as Packed>::packed_layout(version)]);
            assert(s.drop_first().drop_first() =~= Seq::<Layout>::empty());
            reveal_with_fuel(record_layout, 3);
        }
        close_record(acc)
    }
}

} // verus!
