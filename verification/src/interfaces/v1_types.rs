//! The argument types of the first version of an interface.
use vstd::prelude::*;

use crate::error::SavefileError;
use crate::le::{le_bytes, le_value, lemma_le_roundtrip, pow256};
use crate::packed::{close_record, combine_variant, enum_layout, number_layout, place_field, record_layout, Layout, Packed};
use crate::schema::nodes::{SchemaNode, SchemaNodeModel};
use crate::schema::with_schema::{push_enum, push_field, push_struct, push_variant, WithSchema};
use crate::serializer::{Deserializer, Serializer};
use crate::traits::{Deserialize, Model, Roundtrip, Serialize};

verus! {

/// Two numbers passed together.
#[derive(Debug, PartialEq)]
pub struct Argument {
    pub data1: u32,
    pub data2: u32,
}

impl Model for Argument {
    /// The models of the fields, in order.
    type M = <(u32, u32) as Model>::M;

    open spec fn model(&self) -> <(u32, u32) as Model>::M {
        (self.data1.model(), self.data2.model())
    }
}

impl Serialize for Argument {
    open spec fn valid(version: u32, m: <(u32, u32) as Model>::M) -> bool {
        <(u32, u32) as Serialize>::valid(version, m)
    }

    /// The fields, one after the other.
    open spec fn encode(version: u32, m: <(u32, u32) as Model>::M) -> Seq<u8> {
        <(u32, u32) as Serialize>::encode(version, m)
    }

    fn serialize(&self, serializer: &mut Serializer) -> (r: Result<(), SavefileError>) {
        match self.data1.serialize(serializer) {
            Ok(()) => {},
            Err(e) => {
                return Err(e);
            },
        }
        match self.data2.serialize(serializer) {
            Ok(()) => {},
            Err(e) => {
                return Err(e);
            },
        }
        assert(serializer.writer@ =~= old(serializer).writer@ + Self::encode(
            old(serializer).file_version,
            self.model(),
        ));
        Ok(())
    }
}

impl Deserialize for Argument {
    open spec fn decode(version: u32, s: Seq<u8>) -> Option<(<(u32, u32) as Model>::M, nat)> {
        <(u32, u32) as Deserialize>::decode(version, s)
    }

    fn deserialize(deserializer: &mut Deserializer) -> (r: Result<Argument, SavefileError>) {
        match <(u32, u32) as Deserialize>::deserialize(deserializer) {
            Ok((v0, v1)) => Ok(Argument { data1: v0, data2: v1 }),
            Err(e) => Err(e),
        }
    }
}

impl Roundtrip for Argument {
    open spec fn read_back(version: u32, m: <(u32, u32) as Model>::M) -> <(u32, u32) as Model>::M {
        <(u32, u32) as Roundtrip>::read_back(version, m)
    }

    proof fn lemma_roundtrip(version: u32, m: <(u32, u32) as Model>::M, rest: Seq<u8>) {
        <(u32, u32) as Roundtrip>::lemma_roundtrip(version, m, rest);
    }
}

impl WithSchema for Argument {
    open spec fn schema_nodes(version: u32) -> Seq<SchemaNodeModel> {
        seq![SchemaNodeModel::Struct(("Argument"@, 2usize))]
            + seq![SchemaNodeModel::Field(("data1"@, false))] + <u32 as WithSchema>::schema_nodes(version)
            + seq![SchemaNodeModel::Field(("data2"@, false))] + <u32 as WithSchema>::schema_nodes(version)
    }

    fn schema(version: u32, nodes: &mut Vec<SchemaNode>) {
        let count: usize = 2;
        push_struct(nodes, "Argument", count);
        push_field(nodes, "data1", false);
        <u32 as WithSchema>::schema(version, nodes);
        push_field(nodes, "data2", false);
        <u32 as WithSchema>::schema(version, nodes);
        assert(nodes.model() =~= old(nodes).model() + Self::schema_nodes(version));
    }
}

/// A choice between two variants.
#[derive(Debug, PartialEq)]
pub enum EnumArgument {
    Variant1,
    Variant2,
}

/// The model of a [`EnumArgument`]: the same variant, with the models of its fields.
pub enum EnumArgumentModel {
    Variant1,
    Variant2,
}

impl Model for EnumArgument {
    type M = EnumArgumentModel;

    open spec fn model(&self) -> EnumArgumentModel {
        match self {
            EnumArgument::Variant1 => EnumArgumentModel::Variant1,
            EnumArgument::Variant2 => EnumArgumentModel::Variant2,
        }
    }
}

impl Serialize for EnumArgument {
    open spec fn valid(version: u32, m: EnumArgumentModel) -> bool {
        match m {
            EnumArgumentModel::Variant1 => true,
            EnumArgumentModel::Variant2 => true,
        }
    }

    /// The position of the variant in the declaration, as 1 byte(s), then the fields of the variant.
    open spec fn encode(version: u32, m: EnumArgumentModel) -> Seq<u8> {
        match m {
            EnumArgumentModel::Variant1 => le_bytes(0, 1),
            EnumArgumentModel::Variant2 => le_bytes(1, 1),
        }
    }

    fn serialize(&self, serializer: &mut Serializer) -> (r: Result<(), SavefileError>) {
        let ghost version = serializer.file_version;
        let ghost start0 = serializer.writer@;
        match self {
            EnumArgument::Variant1 => {
                serializer.write_u8(0);
            },
            EnumArgument::Variant2 => {
                serializer.write_u8(1);
            },
        }
        assert(serializer.writer@ =~= old(serializer).writer@ + Self::encode(
            old(serializer).file_version,
            self.model(),
        ));
        Ok(())
    }
}

impl Deserialize for EnumArgument {
    /// Unknown variant numbers are refused.
    open spec fn decode(version: u32, s: Seq<u8>) -> Option<(EnumArgumentModel, nat)> {
        if s.len() < 1 {
            None
        } else if le_value(s.take(1)) == 0 {
            Some((EnumArgumentModel::Variant1, 1))
        } else if le_value(s.take(1)) == 1 {
            Some((EnumArgumentModel::Variant2, 1))
        } else {
            None
        }
    }

    fn deserialize(deserializer: &mut Deserializer) -> (r: Result<EnumArgument, SavefileError>) {
        let ghost s0 = deserializer.rest();
        let tag = match deserializer.read_uint(1) {
            Ok(t) => t,
            Err(e) => {
                return Err(e);
            },
        };
        assert(deserializer.rest() =~= s0.skip(1));
        if tag == 0 {
            Ok(EnumArgument::Variant1)
        } else if tag == 1 {
            Ok(EnumArgument::Variant2)
        } else {
            Err(SavefileError::BadDiscriminant)
        }
    }
}

impl Roundtrip for EnumArgument {
    open spec fn read_back(version: u32, m: EnumArgumentModel) -> EnumArgumentModel {
        match m {
            EnumArgumentModel::Variant1 => EnumArgumentModel::Variant1,
            EnumArgumentModel::Variant2 => EnumArgumentModel::Variant2,
        }
    }

    proof fn lemma_roundtrip(version: u32, m: EnumArgumentModel, rest: Seq<u8>) {
        reveal_with_fuel(pow256, 2);
        let all = Self::encode(version, m) + rest;
        match m {
            EnumArgumentModel::Variant1 => {
                lemma_le_roundtrip(0, 1);
                assert(all.take(1) =~= le_bytes(0, 1));
            },
            EnumArgumentModel::Variant2 => {
                lemma_le_roundtrip(1, 1);
                assert(all.take(1) =~= le_bytes(1, 1));
            },
        }
    }
}

impl WithSchema for EnumArgument {
    open spec fn schema_nodes(version: u32) -> Seq<SchemaNodeModel> {
        seq![SchemaNodeModel::Enum(("EnumArgument"@, 1u8, 2usize))]
            + seq![SchemaNodeModel::Variant(("Variant1"@, 0usize))]
            + seq![SchemaNodeModel::Variant(("Variant2"@, 0usize))]
    }

    fn schema(version: u32, nodes: &mut Vec<SchemaNode>) {
        let count: usize = 2;
        push_enum(nodes, "EnumArgument", 1, count);
        let c0: usize = 0;
        push_variant(nodes, "Variant1", c0);
        let c1: usize = 0;
        push_variant(nodes, "Variant2", c1);
        assert(nodes.model() =~= old(nodes).model() + Self::schema_nodes(version));
    }
}

} // verus!
