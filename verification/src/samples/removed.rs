//! A record whose only field is gone after data version 0.
use vstd::prelude::*;

use crate::error::SavefileError;
use crate::le::{le_bytes, le_value, lemma_le_roundtrip, pow256};
use crate::packed::{close_record, combine_variant, enum_layout, number_layout, place_field, record_layout, Layout, Packed};
use crate::schema::nodes::{SchemaNode, SchemaNodeModel};
use crate::schema::with_schema::{push_enum, push_field, push_struct, push_variant, WithSchema};
use crate::serializer::{Deserializer, Serializer};
use crate::traits::{Deserialize, Model, Roundtrip, Serialize};
use crate::versioning::Removed;

verus! {

/// A record whose only field was removed after data version 0: from version 1 on it is written as nothing.
#[derive(Debug, PartialEq)]
pub struct OnlyRemoved {
    pub rem: Removed<u32>,
}

impl Model for OnlyRemoved {
    /// The models of the fields, in order.
    type M = <Removed<u32> as Model>::M;

    open spec fn model(&self) -> <Removed<u32> as Model>::M {
        self.rem.model()
    }
}

impl Serialize for OnlyRemoved {
    open spec fn valid(version: u32, m: <Removed<u32> as Model>::M) -> bool {
        (version <= 0 ==> <Removed<u32> as Serialize>::valid(version, m))
    }

    /// The fields that the data version holds, one after the other.
    open spec fn encode(version: u32, m: <Removed<u32> as Model>::M) -> Seq<u8> {
        (if version <= 0 { <Removed<u32> as Serialize>::encode(version, m) } else { Seq::<u8>::empty() })
    }

    fn serialize(&self, serializer: &mut Serializer) -> (r: Result<(), SavefileError>) {
        let ghost version = serializer.file_version;
        let ghost m = self.model();
        let ghost start = serializer.writer@;
        if serializer.file_version <= 0 {
            match self.rem.serialize(serializer) {
                Ok(()) => {},
                Err(e) => {
                    return Err(e);
                },
            }
        }
        assert(serializer.writer@ =~= start + (if version <= 0 { <Removed<u32> as Serialize>::encode(version, m) } else { Seq::<u8>::empty() }));
        assert(serializer.writer@ =~= old(serializer).writer@ + Self::encode(
            old(serializer).file_version,
            self.model(),
        ));
        Ok(())
    }
}

impl Deserialize for OnlyRemoved {
    open spec fn decode(version: u32, s: Seq<u8>) -> Option<(<Removed<u32> as Model>::M, nat)> {
        match (if version <= 0 { <Removed<u32> as Deserialize>::decode(version, s) } else { Some(((), 0nat)) }) {
            Some((v0, n0)) => Some((v0, n0)),
            None => None,
        }
    }

    fn deserialize(deserializer: &mut Deserializer) -> (r: Result<OnlyRemoved, SavefileError>) {
        let ghost s = deserializer.rest();
        let ghost p0 = deserializer.pos;
        let v0: Removed<u32> = if deserializer.file_version <= 0 {
            match <Removed<u32> as Deserialize>::deserialize(deserializer) {
                Ok(x) => x,
                Err(e) => {
                    return Err(e);
                },
            }
        } else {
            Removed::new()
        };
        assert(deserializer.rest() =~= s.skip(deserializer.pos - p0));
        Ok(OnlyRemoved { rem: v0 })
    }
}

impl Roundtrip for OnlyRemoved {
    open spec fn read_back(version: u32, m: <Removed<u32> as Model>::M) -> <Removed<u32> as Model>::M {
        (if version <= 0 { <Removed<u32> as Roundtrip>::read_back(version, m) } else { () })
    }

    proof fn lemma_roundtrip(version: u32, m: <Removed<u32> as Model>::M, rest: Seq<u8>) {
        let t1 = rest;
        let t0 = (if version <= 0 { <Removed<u32> as Serialize>::encode(version, m) } else { Seq::<u8>::empty() }) + t1;
        if version <= 0 {
            <Removed<u32> as Roundtrip>::lemma_roundtrip(version, m, t1);
        }
        assert((if version <= 0 { <Removed<u32> as Serialize>::encode(version, m) } else { Seq::<u8>::empty() }) + rest =~= t0);
        assert(t0.skip(((if version <= 0 { <Removed<u32> as Serialize>::encode(version, m) } else { Seq::<u8>::empty() }).len()) as int) =~= t1);
    }
}

impl WithSchema for OnlyRemoved {
    open spec fn schema_nodes(version: u32) -> Seq<SchemaNodeModel> {
        seq![SchemaNodeModel::Struct(("OnlyRemoved"@, (0int + (if version <= 0 { 1int } else { 0int })) as usize))]
            + (if version <= 0 { seq![SchemaNodeModel::Field(("rem"@, true))] + <Removed<u32> as WithSchema>::schema_nodes(version) } else { Seq::<SchemaNodeModel>::empty() })
    }

    fn schema(version: u32, nodes: &mut Vec<SchemaNode>) {
        let mut count: usize = 0;
        if version <= 0 {
            count = count + 1;
        }
        push_struct(nodes, "OnlyRemoved", count);
        if version <= 0 {
            push_field(nodes, "rem", true);
            <Removed<u32> as WithSchema>::schema(version, nodes);
        }
        assert(nodes.model() =~= old(nodes).model() + Self::schema_nodes(version));
    }
}

} // verus!
