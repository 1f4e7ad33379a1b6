//! The newer version of the record passed to closures.
use vstd::prelude::*;

use crate::error::SavefileError;
use crate::le::{le_bytes, le_value, lemma_le_roundtrip, pow256};
use crate::packed::{close_record, combine_variant, enum_layout, number_layout, place_field, record_layout, Layout, Packed};
use crate::schema::nodes::{SchemaNode, SchemaNodeModel};
use crate::schema::with_schema::{push_enum, push_field, push_struct, push_variant, WithSchema};
use crate::serializer::{Deserializer, Serializer};
use crate::traits::{Deserialize, Model, Roundtrip, Serialize};

verus! {

/// A number, and from data version 1 on a text, passed to a closure.
#[derive(Debug, PartialEq)]
pub struct CustomArg {
    pub x: u32,
    pub y: String,
}

impl Model for CustomArg {
    /// The models of the fields, in order.
    type M = <(u32, String) as Model>::M;

    open spec fn model(&self) -> <(u32, String) as Model>::M {
        (self.x.model(), self.y.model())
    }
}

impl Serialize for CustomArg {
    open spec fn valid(version: u32, m: <(u32, String) as Model>::M) -> bool {
        <u32 as Serialize>::valid(version, m.0) && (1 <= version ==> <String as Serialize>::valid(version, m.1))
    }

    /// The fields that the data version holds, one after the other.
    open spec fn encode(version: u32, m: <(u32, String) as Model>::M) -> Seq<u8> {
        <u32 as Serialize>::encode(version, m.0) + (if 1 <= version { <String as Serialize>::encode(version, m.1) } else { Seq::<u8>::empty() })
    }

    fn serialize(&self, serializer: &mut Serializer) -> (r: Result<(), SavefileError>) {
        let ghost version = serializer.file_version;
        let ghost m = self.model();
        let ghost start = serializer.writer@;
        match self.x.serialize(serializer) {
            Ok(()) => {},
            Err(e) => {
                return Err(e);
            },
        }
        assert(serializer.writer@ =~= start + <u32 as Serialize>::encode(version, m.0));
        if 1 <= serializer.file_version {
            match self.y.serialize(serializer) {
                Ok(()) => {},
                Err(e) => {
                    return Err(e);
                },
            }
        }
        assert(serializer.writer@ =~= start + <u32 as Serialize>::encode(version, m.0) + (if 1 <= version { <String as Serialize>::encode(version, m.1) } else { Seq::<u8>::empty() }));
        assert(serializer.writer@ =~= old(serializer).writer@ + Self::encode(
            old(serializer).file_version,
            self.model(),
        ));
        Ok(())
    }
}

impl Deserialize for CustomArg {
    open spec fn decode(version: u32, s: Seq<u8>) -> Option<(<(u32, String) as Model>::M, nat)> {
        match <u32 as Deserialize>::decode(version, s) {
            Some((v0, n0)) => match (if 1 <= version { <String as Deserialize>::decode(version, s.skip((n0) as int)) } else { Some((Seq::<char>::empty(), 0nat)) }) {
                Some((v1, n1)) => Some(((v0, v1), n0 + n1)),
                None => None,
            },
            None => None,
        }
    }

    fn deserialize(deserializer: &mut Deserializer) -> (r: Result<CustomArg, SavefileError>) {
        let ghost s = deserializer.rest();
        let ghost p0 = deserializer.pos;
        let v0: u32 = match <u32 as Deserialize>::deserialize(deserializer) {
            Ok(x) => x,
            Err(e) => {
                return Err(e);
            },
        };
        assert(deserializer.rest() =~= s.skip(deserializer.pos - p0));
        let v1: String = if 1 <= deserializer.file_version {
            match <String as Deserialize>::deserialize(deserializer) {
                Ok(x) => x,
                Err(e) => {
                    return Err(e);
                },
            }
        } else {
            String::new()
        };
        assert(deserializer.rest() =~= s.skip(deserializer.pos - p0));
        Ok(CustomArg { x: v0, y: v1 })
    }
}

impl Roundtrip for CustomArg {
    open spec fn read_back(version: u32, m: <(u32, String) as Model>::M) -> <(u32, String) as Model>::M {
        (<u32 as Roundtrip>::read_back(version, m.0), (if 1 <= version { <String as Roundtrip>::read_back(version, m.1) } else { Seq::<char>::empty() }))
    }

    proof fn lemma_roundtrip(version: u32, m: <(u32, String) as Model>::M, rest: Seq<u8>) {
        let t2 = rest;
        let t1 = (if 1 <= version { <String as Serialize>::encode(version, m.1) } else { Seq::<u8>::empty() }) + t2;
        let t0 = <u32 as Serialize>::encode(version, m.0) + t1;
        <u32 as Roundtrip>::lemma_roundtrip(version, m.0, t1);
        if 1 <= version {
            <String as Roundtrip>::lemma_roundtrip(version, m.1, t2);
        }
        assert(<u32 as Serialize>::encode(version, m.0) + (if 1 <= version { <String as Serialize>::encode(version, m.1) } else { Seq::<u8>::empty() }) + rest =~= t0);
        assert(t0.skip((<u32 as Serialize>::encode(version, m.0).len()) as int) =~= t1);
        assert(t0.skip((<u32 as Serialize>::encode(version, m.0).len() + (if 1 <= version { <String as Serialize>::encode(version, m.1) } else { Seq::<u8>::empty() }).len()) as int) =~= t2);
    }
}

impl WithSchema for CustomArg {
    open spec fn schema_nodes(version: u32) -> Seq<SchemaNodeModel> {
        seq![SchemaNodeModel::Struct(("CustomArg"@, (1int + (if 1 <= version { 1int } else { 0int })) as usize))]
            + seq![SchemaNodeModel::Field(("x"@, false))] + <u32 as WithSchema>::schema_nodes(version)
            + (if 1 <= version { seq![SchemaNodeModel::Field(("y"@, false))] + <String as WithSchema>::schema_nodes(version) } else { Seq::<SchemaNodeModel>::empty() })
    }

    fn schema(version: u32, nodes: &mut Vec<SchemaNode>) {
        let mut count: usize = 0;
        count = count + 1;
        if 1 <= version {
            count = count + 1;
        }
        push_struct(nodes, "CustomArg", count);
        push_field(nodes, "x", false);
        <u32 as WithSchema>::schema(version, nodes);
        if 1 <= version {
            push_field(nodes, "y", false);
            <String as WithSchema>::schema(version, nodes);
        }
        assert(nodes.model() =~= old(nodes).model() + Self::schema_nodes(version));
    }
}

} // verus!
