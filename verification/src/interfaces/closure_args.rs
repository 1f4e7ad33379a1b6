//! A record passed to closures, in two versions.
use vstd::prelude::*;

use crate::error::SavefileError;
use crate::le::{le_bytes, le_value, lemma_le_roundtrip, pow256};
use crate::packed::{close_record, combine_variant, enum_layout, number_layout, place_field, record_layout, Layout, Packed};
use crate::schema::nodes::{SchemaNode, SchemaNodeModel};
use crate::schema::with_schema::{push_enum, push_field, push_struct, push_variant, WithSchema};
use crate::serializer::{Deserializer, Serializer};
use crate::traits::{Deserialize, Model, Roundtrip, Serialize};

verus! {

/// A number passed to a closure.
#[derive(Debug, PartialEq)]
pub struct CustomArg {
    pub x: u32,
}

impl Model for CustomArg {
    /// The models of the fields, in order.
    type M = <u32 as Model>::M;

    open spec fn model(&self) -> <u32 as Model>::M {
        self.x.model()
    }
}

impl Serialize for CustomArg {
    open spec fn valid(version: u32, m: <u32 as Model>::M) -> bool {
        <u32 as Serialize>::valid(version, m)
    }

    /// The fields, one after the other.
    open spec fn encode(version: u32, m: <u32 as Model>::M) -> Seq<u8> {
        <u32 as Serialize>::encode(version, m)
    }

    fn serialize(&self, serializer: &mut Serializer) -> (r: Result<(), SavefileError>) {
        match self.x.serialize(serializer) {
            Ok(()) => {},
            Err(e) => {
                return Err(e);
            },
        }
        assert(serializer.writer@ =~= old(serializer).writer@ + Self::encode(
            old(serializer).file_version,
            self.model(),
        ));
        Ok(())
    }
}

impl Deserialize for CustomArg {
    open spec fn decode(version: u32, s: Seq<u8>) -> Option<(<u32 as Model>::M, nat)> {
        <u32 as Deserialize>::decode(version, s)
    }

    fn deserialize(deserializer: &mut Deserializer) -> (r: Result<CustomArg, SavefileError>) {
        match <u32 as Deserialize>::deserialize(deserializer) {
            Ok(v0) => Ok(CustomArg { x: v0 }),
            Err(e) => Err(e),
        }
    }
}

impl Roundtrip for CustomArg {
    open spec fn read_back(version: u32, m: <u32 as Model>::M) -> <u32 as Model>::M {
        <u32 as Roundtrip>::read_back(version, m)
    }

    proof fn lemma_roundtrip(version: u32, m: <u32 as Model>::M, rest: Seq<u8>) {
        <u32 as Roundtrip>::lemma_roundtrip(version, m, rest);
    }
}

impl WithSchema for CustomArg {
    open spec fn schema_nodes(version: u32) -> Seq<SchemaNodeModel> {
        seq![SchemaNodeModel::Struct(("CustomArg"@, 1usize))]
            + seq![SchemaNodeModel::Field(("x"@, false))] + <u32 as WithSchema>::schema_nodes(version)
    }

    fn schema(version: u32, nodes: &mut Vec<SchemaNode>) {
        let count: usize = 1;
        push_struct(nodes, "CustomArg", count);
        push_field(nodes, "x", false);
        <u32 as WithSchema>::schema(version, nodes);
        assert(nodes.model() =~= old(nodes).model() + Self::schema_nodes(version));
    }
}

} // verus!
