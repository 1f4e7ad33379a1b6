//! The data passed to an adding interface.
use vstd::prelude::*;

use crate::error::SavefileError;
use crate::le::{le_bytes, le_value, lemma_le_roundtrip, pow256};
use crate::packed::{close_record, combine_variant, enum_layout, number_layout, place_field, record_layout, Layout, Packed};
use crate::schema::nodes::{SchemaNode, SchemaNodeModel};
use crate::schema::with_schema::{push_enum, push_field, push_struct, push_variant, WithSchema};
use crate::serializer::{Deserializer, Serializer};
use crate::traits::{Deserialize, Model, Roundtrip, Serialize};

verus! {

/// A number and a block of numbers.
#[derive(Debug)]
pub struct MyStuff {
    pub x: u64,
    pub y: [u64; 10000],
}

impl Model for MyStuff {
    /// The models of the fields, in order.
    type M = <(u64, [u64; 10000]) as Model>::M;

    open spec fn model(&self) -> <(u64, [u64; 10000]) as Model>::M {
        (self.x.model(), self.y.model())
    }
}

impl Serialize for MyStuff {
    open spec fn valid(version: u32, m: <(u64, [u64; 10000]) as Model>::M) -> bool {
        <(u64, [u64; 10000]) as Serialize>::valid(version, m)
    }

    /// The fields, one after the other.
    open spec fn encode(version: u32, m: <(u64, [u64; 10000]) as Model>::M) -> Seq<u8> {
        <(u64, [u64; 10000]) as Serialize>::encode(version, m)
    }

    fn serialize(&self, serializer: &mut Serializer) -> (r: Result<(), SavefileError>) {
        match self.x.serialize(serializer) {
            Ok(()) => {},
            Err(e) => {
                return Err(e);
            },
        }
        match self.y.serialize(serializer) {
            Ok(()) => {},
            Err(e) => {
                return Err(e);
            },
        }
        assert(serializer.writer@ =~= old(serializer).writer@ + Self::encode(
            old(serializer).file_version,
            self.model(),
        ));
        Ok(())
    }
}

impl Deserialize for MyStuff {
    open spec fn decode(version: u32, s: Seq<u8>) -> Option<(<(u64, [u64; 10000]) as Model>::M, nat)> {
        <(u64, [u64; 10000]) as Deserialize>::decode(version, s)
    }

    fn deserialize(deserializer: &mut Deserializer) -> (r: Result<MyStuff, SavefileError>) {
        match <(u64, [u64; 10000]) as Deserialize>::deserialize(deserializer) {
            Ok((v0, v1)) => Ok(MyStuff { x: v0, y: v1 }),
            Err(e) => Err(e),
        }
    }
}

impl Roundtrip for MyStuff {
    open spec fn read_back(version: u32, m: <(u64, [u64; 10000]) as Model>::M) -> <(u64, [u64; 10000]) as Model>::M {
        <(u64, [u64; 10000]) as Roundtrip>::read_back(version, m)
    }

    proof fn lemma_roundtrip(version: u32, m: <(u64, [u64; 10000]) as Model>::M, rest: Seq<u8>) {
        <(u64, [u64; 10000]) as Roundtrip>::lemma_roundtrip(version, m, rest);
    }
}

impl WithSchema for MyStuff {
    open spec fn schema_nodes(version: u32) -> Seq<SchemaNodeModel> {
        seq![SchemaNodeModel::Struct(("MyStuff"@, 2usize))]
            + seq![SchemaNodeModel::Field(("x"@, false))] + <u64 as WithSchema>::schema_nodes(version)
            + seq![SchemaNodeModel::Field(("y"@, false))] + <[u64; 10000] as WithSchema>::schema_nodes(version)
    }

    fn schema(version: u32, nodes: &mut Vec<SchemaNode>) {
        let count: usize = 2;
        push_struct(nodes, "MyStuff", count);
        push_field(nodes, "x", false);
        <u64 as WithSchema>::schema(version, nodes);
        push_field(nodes, "y", false);
        <[u64; 10000] as WithSchema>::schema(version, nodes);
        assert(nodes.model() =~= old(nodes).model() + Self::schema_nodes(version));
    }
}

/// A unit record.
#[derive(Debug)]
pub struct SomeRandomType;

impl Model for SomeRandomType {
    /// The models of the fields, in order.
    type M = <() as Model>::M;

    open spec fn model(&self) -> <() as Model>::M {
        ()
    }
}

impl Serialize for SomeRandomType {
    open spec fn valid(version: u32, m: <() as Model>::M) -> bool {
        <() as Serialize>::valid(version, m)
    }

    /// Nothing: the type holds no data.
    open spec fn encode(version: u32, m: <() as Model>::M) -> Seq<u8> {
        <() as Serialize>::encode(version, m)
    }

    fn serialize(&self, serializer: &mut Serializer) -> (r: Result<(), SavefileError>) {
        assert(serializer.writer@ =~= old(serializer).writer@ + Self::encode(
            old(serializer).file_version,
            self.model(),
        ));
        Ok(())
    }
}

impl Deserialize for SomeRandomType {
    open spec fn decode(version: u32, s: Seq<u8>) -> Option<(<() as Model>::M, nat)> {
        <() as Deserialize>::decode(version, s)
    }

    fn deserialize(deserializer: &mut Deserializer) -> (r: Result<SomeRandomType, SavefileError>) {
        Ok(SomeRandomType)
    }
}

impl Roundtrip for SomeRandomType {
    open spec fn read_back(version: u32, m: <() as Model>::M) -> <() as Model>::M {
        <() as Roundtrip>::read_back(version, m)
    }

    proof fn lemma_roundtrip(version: u32, m: <() as Model>::M, rest: Seq<u8>) {
        <() as Roundtrip>::lemma_roundtrip(version, m, rest);
    }
}

impl WithSchema for SomeRandomType {
    open spec fn schema_nodes(version: u32) -> Seq<SchemaNodeModel> {
        seq![SchemaNodeModel::Struct(("SomeRandomType"@, 0usize))]
    }

    fn schema(version: u32, nodes: &mut Vec<SchemaNode>) {
        let count: usize = 0;
        push_struct(nodes, "SomeRandomType", count);
        assert(nodes.model() =~= old(nodes).model() + Self::schema_nodes(version));
    }
}

} // verus!
