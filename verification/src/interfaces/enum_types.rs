//! An enum passed to an interface.
use vstd::prelude::*;

use crate::error::SavefileError;
use crate::le::{le_bytes, le_value, lemma_le_roundtrip, pow256};
use crate::packed::{close_record, combine_variant, enum_layout, number_layout, place_field, record_layout, Layout, Packed};
use crate::schema::nodes::{SchemaNode, SchemaNodeModel};
use crate::schema::with_schema::{push_enum, push_field, push_struct, push_variant, WithSchema};
use crate::serializer::{Deserializer, Serializer};
use crate::traits::{Deserialize, Model, Roundtrip, Serialize};

verus! {

/// An enum with a unit variant, a variant of a number and three strings, and a variant of two lists.
#[derive(Debug)]
pub enum AbiSimpleEnum {
    Variant1,
    Variant2(u32, String, String, String),
    Variant3(Vec<u8>, Vec<()>),
}

/// The model of a [`AbiSimpleEnum`]: the same variant, with the models of its fields.
pub enum AbiSimpleEnumModel {
    Variant1,
    Variant2(<(u32, String, (String, String)) as Model>::M),
    Variant3(<(Vec<u8>, Vec<()>) as Model>::M),
}

impl Model for AbiSimpleEnum {
    type M = AbiSimpleEnumModel;

    open spec fn model(&self) -> AbiSimpleEnumModel {
        match self {
            AbiSimpleEnum::Variant1 => AbiSimpleEnumModel::Variant1,
            AbiSimpleEnum::Variant2(f0, f1, f2, f3) => AbiSimpleEnumModel::Variant2((f0.model(), f1.model(), (f2.model(), f3.model()))),
            AbiSimpleEnum::Variant3(f0, f1) => AbiSimpleEnumModel::Variant3((f0.model(), f1.model())),
        }
    }
}

impl Serialize for AbiSimpleEnum {
    open spec fn valid(version: u32, m: AbiSimpleEnumModel) -> bool {
        match m {
            AbiSimpleEnumModel::Variant1 => true,
            AbiSimpleEnumModel::Variant2(t) => <(u32, String, (String, String)) as Serialize>::valid(version, t),
            AbiSimpleEnumModel::Variant3(t) => <(Vec<u8>, Vec<()>) as Serialize>::valid(version, t),
        }
    }

    /// The position of the variant in the declaration, as 1 byte(s), then the fields of the variant.
    open spec fn encode(version: u32, m: AbiSimpleEnumModel) -> Seq<u8> {
        match m {
            AbiSimpleEnumModel::Variant1 => le_bytes(0, 1),
            AbiSimpleEnumModel::Variant2(t) => le_bytes(1, 1) + <(u32, String, (String, String)) as Serialize>::encode(version, t),
            AbiSimpleEnumModel::Variant3(t) => le_bytes(2, 1) + <(Vec<u8>, Vec<()>) as Serialize>::encode(version, t),
        }
    }

    fn serialize(&self, serializer: &mut Serializer) -> (r: Result<(), SavefileError>) {
        let ghost version = serializer.file_version;
        let ghost start0 = serializer.writer@;
        match self {
            AbiSimpleEnum::Variant1 => {
                serializer.write_u8(0);
            },
            AbiSimpleEnum::Variant2(f0, f1, f2, f3) => {
                serializer.write_u8(1);
                match f0.serialize(serializer) {
                    Ok(()) => {},
                    Err(e) => {
                        return Err(e);
                    },
                }
                match f1.serialize(serializer) {
                    Ok(()) => {},
                    Err(e) => {
                        return Err(e);
                    },
                }
                match f2.serialize(serializer) {
                    Ok(()) => {},
                    Err(e) => {
                        return Err(e);
                    },
                }
                match f3.serialize(serializer) {
                    Ok(()) => {},
                    Err(e) => {
                        return Err(e);
                    },
                }
            },
            AbiSimpleEnum::Variant3(f0, f1) => {
                serializer.write_u8(2);
                match f0.serialize(serializer) {
                    Ok(()) => {},
                    Err(e) => {
                        return Err(e);
                    },
                }
                match f1.serialize(serializer) {
                    Ok(()) => {},
                    Err(e) => {
                        return Err(e);
                    },
                }
            },
        }
        assert(serializer.writer@ =~= old(serializer).writer@ + Self::encode(
            old(serializer).file_version,
            self.model(),
        ));
        Ok(())
    }
}

impl Deserialize for AbiSimpleEnum {
    /// Unknown variant numbers are refused.
    open spec fn decode(version: u32, s: Seq<u8>) -> Option<(AbiSimpleEnumModel, nat)> {
        if s.len() < 1 {
            None
        } else if le_value(s.take(1)) == 0 {
            Some((AbiSimpleEnumModel::Variant1, 1))
        } else if le_value(s.take(1)) == 1 {
            match <(u32, String, (String, String)) as Deserialize>::decode(version, s.skip(1)) {
                Some((t, n)) => Some((AbiSimpleEnumModel::Variant2(t), n + 1)),
                None => None,
            }
        } else if le_value(s.take(1)) == 2 {
            match <(Vec<u8>, Vec<()>) as Deserialize>::decode(version, s.skip(1)) {
                Some((t, n)) => Some((AbiSimpleEnumModel::Variant3(t), n + 1)),
                None => None,
            }
        } else {
            None
        }
    }

    fn deserialize(deserializer: &mut Deserializer) -> (r: Result<AbiSimpleEnum, SavefileError>) {
        let ghost s0 = deserializer.rest();
        let tag = match deserializer.read_uint(1) {
            Ok(t) => t,
            Err(e) => {
                return Err(e);
            },
        };
        assert(deserializer.rest() =~= s0.skip(1));
        if tag == 0 {
            Ok(AbiSimpleEnum::Variant1)
        } else if tag == 1 {
            match <(u32, String, (String, String)) as Deserialize>::deserialize(deserializer) {
                Ok((v0, v1, (v2, v3))) => Ok(AbiSimpleEnum::Variant2(v0, v1, v2, v3)),
                Err(e) => Err(e),
            }
        } else if tag == 2 {
            match <(Vec<u8>, Vec<()>) as Deserialize>::deserialize(deserializer) {
                Ok((v0, v1)) => Ok(AbiSimpleEnum::Variant3(v0, v1)),
                Err(e) => Err(e),
            }
        } else {
            Err(SavefileError::BadDiscriminant)
        }
    }
}

impl Roundtrip for AbiSimpleEnum {
    open spec fn read_back(version: u32, m: AbiSimpleEnumModel) -> AbiSimpleEnumModel {
        match m {
            AbiSimpleEnumModel::Variant1 => AbiSimpleEnumModel::Variant1,
            AbiSimpleEnumModel::Variant2(t) => AbiSimpleEnumModel::Variant2(<(u32, String, (String, String)) as Roundtrip>::read_back(version, t)),
            AbiSimpleEnumModel::Variant3(t) => AbiSimpleEnumModel::Variant3(<(Vec<u8>, Vec<()>) as Roundtrip>::read_back(version, t)),
        }
    }

    proof fn lemma_roundtrip(version: u32, m: AbiSimpleEnumModel, rest: Seq<u8>) {
        reveal_with_fuel(pow256, 2);
        let all = Self::encode(version, m) + rest;
        match m {
            AbiSimpleEnumModel::Variant1 => {
                lemma_le_roundtrip(0, 1);
                assert(all.take(1) =~= le_bytes(0, 1));
            },
            AbiSimpleEnumModel::Variant2(t) => {
                lemma_le_roundtrip(1, 1);
                assert(all.take(1) =~= le_bytes(1, 1));
                assert(all.skip(1) =~= <(u32, String, (String, String)) as Serialize>::encode(version, t) + rest);
                <(u32, String, (String, String)) as Roundtrip>::lemma_roundtrip(version, t, rest);
            },
            AbiSimpleEnumModel::Variant3(t) => {
                lemma_le_roundtrip(2, 1);
                assert(all.take(1) =~= le_bytes(2, 1));
                assert(all.skip(1) =~= <(Vec<u8>, Vec<()>) as Serialize>::encode(version, t) + rest);
                <(Vec<u8>, Vec<()>) as Roundtrip>::lemma_roundtrip(version, t, rest);
            },
        }
    }
}

impl WithSchema for AbiSimpleEnum {
    open spec fn schema_nodes(version: u32) -> Seq<SchemaNodeModel> {
        seq![SchemaNodeModel::Enum(("AbiSimpleEnum"@, 1u8, 3usize))]
            + seq![SchemaNodeModel::Variant(("Variant1"@, 0usize))]
            + seq![SchemaNodeModel::Variant(("Variant2"@, 4usize))] + seq![SchemaNodeModel::Field(("0"@, false))] + <u32 as WithSchema>::schema_nodes(version) + seq![SchemaNodeModel::Field(("1"@, false))] + <String as WithSchema>::schema_nodes(version) + seq![SchemaNodeModel::Field(("2"@, false))] + <String as WithSchema>::schema_nodes(version) + seq![SchemaNodeModel::Field(("3"@, false))] + <String as WithSchema>::schema_nodes(version)
            + seq![SchemaNodeModel::Variant(("Variant3"@, 2usize))] + seq![SchemaNodeModel::Field(("0"@, false))] + <Vec<u8> as WithSchema>::schema_nodes(version) + seq![SchemaNodeModel::Field(("1"@, false))] + <Vec<()> as WithSchema>::schema_nodes(version)
    }

    fn schema(version: u32, nodes: &mut Vec<SchemaNode>) {
        let count: usize = 3;
        push_enum(nodes, "AbiSimpleEnum", 1, count);
        let c0: usize = 0;
        push_variant(nodes, "Variant1", c0);
        let c1: usize = 4;
        push_variant(nodes, "Variant2", c1);
        push_field(nodes, "0", false);
        <u32 as WithSchema>::schema(version, nodes);
        push_field(nodes, "1", false);
        <String as WithSchema>::schema(version, nodes);
        push_field(nodes, "2", false);
        <String as WithSchema>::schema(version, nodes);
        push_field(nodes, "3", false);
        <String as WithSchema>::schema(version, nodes);
        let c2: usize = 2;
        push_variant(nodes, "Variant3", c2);
        push_field(nodes, "0", false);
        <Vec<u8> as WithSchema>::schema(version, nodes);
        push_field(nodes, "1", false);
        <Vec<()> as WithSchema>::schema(version, nodes);
        assert(nodes.model() =~= old(nodes).model() + Self::schema_nodes(version));
    }
}

} // verus!
