//! A small enum with a four-byte discriminant.
use vstd::prelude::*;

use crate::error::SavefileError;
use crate::le::{le_bytes, le_value, lemma_le_roundtrip, pow256};
use crate::packed::{close_record, combine_variant, enum_layout, number_layout, place_field, record_layout, Layout, Packed};
use crate::schema::nodes::{SchemaNode, SchemaNodeModel};
use crate::schema::with_schema::{push_enum, push_field, push_struct, push_variant, WithSchema};
use crate::serializer::{Deserializer, Serializer};
use crate::traits::{Deserialize, Model, Roundtrip, Serialize};

verus! {

/// An enum with a tuple variant and a record variant.
#[derive(Debug, PartialEq)]
pub enum Example {
    A(u32, u32),
    B { a: u32, b: u32, c: u32 },
}

/// The model of a [`Example`]: the same variant, with the models of its fields.
pub enum ExampleModel {
    A(<(u32, u32) as Model>::M),
    B(<(u32, u32, u32) as Model>::M),
}

impl Model for Example {
    type M = ExampleModel;

    open spec fn model(&self) -> ExampleModel {
        match self {
            Example::A(f0, f1) => ExampleModel::A((f0.model(), f1.model())),
            Example::B { a: f0, b: f1, c: f2 } => ExampleModel::B((f0.model(), f1.model(), f2.model())),
        }
    }
}

impl Serialize for Example {
    open spec fn valid(version: u32, m: ExampleModel) -> bool {
        match m {
            ExampleModel::A(t) => <(u32, u32) as Serialize>::valid(version, t),
            ExampleModel::B(t) => <(u32, u32, u32) as Serialize>::valid(version, t),
        }
    }

    /// The position of the variant in the declaration, as 4 byte(s), then the fields of the variant.
    open spec fn encode(version: u32, m: ExampleModel) -> Seq<u8> {
        match m {
            ExampleModel::A(t) => le_bytes(0, 4) + <(u32, u32) as Serialize>::encode(version, t),
            ExampleModel::B(t) => le_bytes(1, 4) + <(u32, u32, u32) as Serialize>::encode(version, t),
        }
    }

    fn serialize(&self, serializer: &mut Serializer) -> (r: Result<(), SavefileError>) {
        let ghost version = serializer.file_version;
        let ghost start0 = serializer.writer@;
        match self {
            Example::A(f0, f1) => {
                serializer.write_u32(0);
                match f0.serialize(serializer) {
                    Ok(()) => {},
                    Err(e) => {
                        return Err(e);
                    },
                }
                match f1.serialize(serializer) {
                    Ok(()) => {},
                    Err(e) => {
                        return Err(e);
                    },
                }
            },
            Example::B { a: f0, b: f1, c: f2 } => {
                serializer.write_u32(1);
                match f0.serialize(serializer) {
                    Ok(()) => {},
                    Err(e) => {
                        return Err(e);
                    },
                }
                match f1.serialize(serializer) {
                    Ok(()) => {},
                    Err(e) => {
                        return Err(e);
                    },
                }
                match f2.serialize(serializer) {
                    Ok(()) => {},
                    Err(e) => {
                        return Err(e);
                    },
                }
            },
        }
        assert(serializer.writer@ =~= old(serializer).writer@ + Self::encode(
            old(serializer).file_version,
            self.model(),
        ));
        Ok(())
    }
}

impl Deserialize for Example {
    /// Unknown variant numbers are refused.
    open spec fn decode(version: u32, s: Seq<u8>) -> Option<(ExampleModel, nat)> {
        if s.len() < 4 {
            None
        } else if le_value(s.take(4)) == 0 {
            match <(u32, u32) as Deserialize>::decode(version, s.skip(4)) {
                Some((t, n)) => Some((ExampleModel::A(t), n + 4)),
                None => None,
            }
        } else if le_value(s.take(4)) == 1 {
            match <(u32, u32, u32) as Deserialize>::decode(version, s.skip(4)) {
                Some((t, n)) => Some((ExampleModel::B(t), n + 4)),
                None => None,
            }
        } else {
            None
        }
    }

    fn deserialize(deserializer: &mut Deserializer) -> (r: Result<Example, SavefileError>) {
        let ghost s0 = deserializer.rest();
        let tag = match deserializer.read_uint(4) {
            Ok(t) => t,
            Err(e) => {
                return Err(e);
            },
        };
        assert(deserializer.rest() =~= s0.skip(4));
        if tag == 0 {
            match <(u32, u32) as Deserialize>::deserialize(deserializer) {
                Ok((v0, v1)) => Ok(Example::A(v0, v1)),
                Err(e) => Err(e),
            }
        } else if tag == 1 {
            match <(u32, u32, u32) as Deserialize>::deserialize(deserializer) {
                Ok((v0, v1, v2)) => Ok(Example::B { a: v0, b: v1, c: v2 }),
                Err(e) => Err(e),
            }
        } else {
            Err(SavefileError::BadDiscriminant)
        }
    }
}

impl Roundtrip for Example {
    open spec fn read_back(version: u32, m: ExampleModel) -> ExampleModel {
        match m {
            ExampleModel::A(t) => ExampleModel::A(<(u32, u32) as Roundtrip>::read_back(version, t)),
            ExampleModel::B(t) => ExampleModel::B(<(u32, u32, u32) as Roundtrip>::read_back(version, t)),
        }
    }

    proof fn lemma_roundtrip(version: u32, m: ExampleModel, rest: Seq<u8>) {
        reveal_with_fuel(pow256, 5);
        let all = Self::encode(version, m) + rest;
        match m {
            ExampleModel::A(t) => {
                lemma_le_roundtrip(0, 4);
                assert(all.take(4) =~= le_bytes(0, 4));
                assert(all.skip(4) =~= <(u32, u32) as Serialize>::encode(version, t) + rest);
                <(u32, u32) as Roundtrip>::lemma_roundtrip(version, t, rest);
            },
            ExampleModel::B(t) => {
                lemma_le_roundtrip(1, 4);
                assert(all.take(4) =~= le_bytes(1, 4));
                assert(all.skip(4) =~= <(u32, u32, u32) as Serialize>::encode(version, t) + rest);
                <(u32, u32, u32) as Roundtrip>::lemma_roundtrip(version, t, rest);
            },
        }
    }
}

impl WithSchema for Example {
    open spec fn schema_nodes(version: u32) -> Seq<SchemaNodeModel> {
        seq![SchemaNodeModel::Enum(("Example"@, 4u8, 2usize))]
            + seq![SchemaNodeModel::Variant(("A"@, 2usize))] + seq![SchemaNodeModel::Field(("0"@, false))] + <u32 as WithSchema>::schema_nodes(version) + seq![SchemaNodeModel::Field(("1"@, false))] + <u32 as WithSchema>::schema_nodes(version)
            + seq![SchemaNodeModel::Variant(("B"@, 3usize))] + seq![SchemaNodeModel::Field(("a"@, false))] + <u32 as WithSchema>::schema_nodes(version) + seq![SchemaNodeModel::Field(("b"@, false))] + <u32 as WithSchema>::schema_nodes(version) + seq![SchemaNodeModel::Field(("c"@, false))] + <u32 as WithSchema>::schema_nodes(version)
    }

    fn schema(version: u32, nodes: &mut Vec<SchemaNode>) {
        let count: usize = 2;
        push_enum(nodes, "Example", 4, count);
        let c0: usize = 2;
        push_variant(nodes, "A", c0);
        push_field(nodes, "0", false);
        <u32 as WithSchema>::schema(version, nodes);
        push_field(nodes, "1", false);
        <u32 as WithSchema>::schema(version, nodes);
        let c1: usize = 3;
        push_variant(nodes, "B", c1);
        push_field(nodes, "a", false);
        <u32 as WithSchema>::schema(version, nodes);
        push_field(nodes, "b", false);
        <u32 as WithSchema>::schema(version, nodes);
        push_field(nodes, "c", false);
        <u32 as WithSchema>::schema(version, nodes);
        assert(nodes.model() =~= old(nodes).model() + Self::schema_nodes(version));
    }
}

} // verus!
