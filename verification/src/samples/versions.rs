//! Types whose layout changes between data versions.
use vstd::prelude::*;

use crate::error::SavefileError;
use crate::le::{le_bytes, le_value, lemma_le_roundtrip, pow256};
use crate::packed::{close_record, combine_variant, enum_layout, number_layout, place_field, record_layout, Layout, Packed};
use crate::schema::nodes::{SchemaNode, SchemaNodeModel};
use crate::schema::with_schema::{push_enum, push_field, push_struct, push_variant, WithSchema};
use crate::serializer::{Deserializer, Serializer};
use crate::traits::{Deserialize, Model, Roundtrip, Serialize};
use crate::versioning::Removed;

verus! {

/// Two variants with a one-byte discriminant.
#[derive(Debug, PartialEq)]
pub enum EnumAVer1 {
    Var1,
    Var2,
}

/// The model of a [`EnumAVer1`]: the same variant, with the models of its fields.
pub enum EnumAVer1Model {
    Var1,
    Var2,
}

impl Model for EnumAVer1 {
    type M = EnumAVer1Model;

    open spec fn model(&self) -> EnumAVer1Model {
        match self {
            EnumAVer1::Var1 => EnumAVer1Model::Var1,
            EnumAVer1::Var2 => EnumAVer1Model::Var2,
        }
    }
}

impl Serialize for EnumAVer1 {
    open spec fn valid(version: u32, m: EnumAVer1Model) -> bool {
        match m {
            EnumAVer1Model::Var1 => true,
            EnumAVer1Model::Var2 => true,
        }
    }

    /// The position of the variant in the declaration, as 1 byte(s), then the fields of the variant.
    open spec fn encode(version: u32, m: EnumAVer1Model) -> Seq<u8> {
        match m {
            EnumAVer1Model::Var1 => le_bytes(0, 1),
            EnumAVer1Model::Var2 => le_bytes(1, 1),
        }
    }

    fn serialize(&self, serializer: &mut Serializer) -> (r: Result<(), SavefileError>) {
        let ghost version = serializer.file_version;
        let ghost start0 = serializer.writer@;
        match self {
            EnumAVer1::Var1 => {
                serializer.write_u8(0);
            },
            EnumAVer1::Var2 => {
                serializer.write_u8(1);
            },
        }
        assert(serializer.writer@ =~= old(serializer).writer@ + Self::encode(
            old(serializer).file_version,
            self.model(),
        ));
        Ok(())
    }
}

impl Deserialize for EnumAVer1 {
    /// Unknown variant numbers are refused.
    open spec fn decode(version: u32, s: Seq<u8>) -> Option<(EnumAVer1Model, nat)> {
        if s.len() < 1 {
            None
        } else if le_value(s.take(1)) == 0 {
            Some((EnumAVer1Model::Var1, 1))
        } else if le_value(s.take(1)) == 1 {
            Some((EnumAVer1Model::Var2, 1))
        } else {
            None
        }
    }

    fn deserialize(deserializer: &mut Deserializer) -> (r: Result<EnumAVer1, SavefileError>) {
        let ghost s0 = deserializer.rest();
        let tag = match deserializer.read_uint(1) {
            Ok(t) => t,
            Err(e) => {
                return Err(e);
            },
        };
        assert(deserializer.rest() =~= s0.skip(1));
        if tag == 0 {
            Ok(EnumAVer1::Var1)
        } else if tag == 1 {
            Ok(EnumAVer1::Var2)
        } else {
            Err(SavefileError::BadDiscriminant)
        }
    }
}

impl Roundtrip for EnumAVer1 {
    open spec fn read_back(version: u32, m: EnumAVer1Model) -> EnumAVer1Model {
        match m {
            EnumAVer1Model::Var1 => EnumAVer1Model::Var1,
            EnumAVer1Model::Var2 => EnumAVer1Model::Var2,
        }
    }

    #[verifier::spinoff_prover]
    proof fn lemma_roundtrip(version: u32, m: EnumAVer1Model, rest: Seq<u8>) {
        reveal_with_fuel(pow256, 2);
        let all = Self::encode(version, m) + rest;
        match m {
            EnumAVer1Model::Var1 => {
                lemma_le_roundtrip(0, 1);
                assert(all.take(1) =~= le_bytes(0, 1));
            },
            EnumAVer1Model::Var2 => {
                lemma_le_roundtrip(1, 1);
                assert(all.take(1) =~= le_bytes(1, 1));
            },
        }
    }
}

impl WithSchema for EnumAVer1 {
    open spec fn schema_nodes(version: u32) -> Seq<SchemaNodeModel> {
        seq![SchemaNodeModel::Enum(("EnumAVer1"@, 1u8, 2usize))]
            + seq![SchemaNodeModel::Variant(("Var1"@, 0usize))]
            + seq![SchemaNodeModel::Variant(("Var2"@, 0usize))]
    }

    fn schema(version: u32, nodes: &mut Vec<SchemaNode>) {
        let count: usize = 2;
        push_enum(nodes, "EnumAVer1", 1, count);
        let c0: usize = 0;
        push_variant(nodes, "Var1", c0);
        let c1: usize = 0;
        push_variant(nodes, "Var2", c1);
        assert(nodes.model() =~= old(nodes).model() + Self::schema_nodes(version));
    }
}

/// Two variants with a two-byte discriminant.
#[derive(Debug, PartialEq)]
pub enum EnumAVer2 {
    Var1,
    Var2,
}

/// The model of a [`EnumAVer2`]: the same variant, with the models of its fields.
pub enum EnumAVer2Model {
    Var1,
    Var2,
}

impl Model for EnumAVer2 {
    type M = EnumAVer2Model;

    open spec fn model(&self) -> EnumAVer2Model {
        match self {
            EnumAVer2::Var1 => EnumAVer2Model::Var1,
            EnumAVer2::Var2 => EnumAVer2Model::Var2,
        }
    }
}

impl Serialize for EnumAVer2 {
    open spec fn valid(version: u32, m: EnumAVer2Model) -> bool {
        match m {
            EnumAVer2Model::Var1 => true,
            EnumAVer2Model::Var2 => true,
        }
    }

    /// The position of the variant in the declaration, as 2 byte(s), then the fields of the variant.
    open spec fn encode(version: u32, m: EnumAVer2Model) -> Seq<u8> {
        match m {
            EnumAVer2Model::Var1 => le_bytes(0, 2),
            EnumAVer2Model::Var2 => le_bytes(1, 2),
        }
    }

    fn serialize(&self, serializer: &mut Serializer) -> (r: Result<(), SavefileError>) {
        let ghost version = serializer.file_version;
        let ghost start0 = serializer.writer@;
        match self {
            EnumAVer2::Var1 => {
                serializer.write_u16(0);
            },
            EnumAVer2::Var2 => {
                serializer.write_u16(1);
            },
        }
        assert(serializer.writer@ =~= old(serializer).writer@ + Self::encode(
            old(serializer).file_version,
            self.model(),
        ));
        Ok(())
    }
}

impl Deserialize for EnumAVer2 {
    /// Unknown variant numbers are refused.
    open spec fn decode(version: u32, s: Seq<u8>) -> Option<(EnumAVer2Model, nat)> {
        if s.len() < 2 {
            None
        } else if le_value(s.take(2)) == 0 {
            Some((EnumAVer2Model::Var1, 2))
        } else if le_value(s.take(2)) == 1 {
            Some((EnumAVer2Model::Var2, 2))
        } else {
            None
        }
    }

    fn deserialize(deserializer: &mut Deserializer) -> (r: Result<EnumAVer2, SavefileError>) {
        let ghost s0 = deserializer.rest();
        let tag = match deserializer.read_uint(2) {
            Ok(t) => t,
            Err(e) => {
                return Err(e);
            },
        };
        assert(deserializer.rest() =~= s0.skip(2));
        if tag == 0 {
            Ok(EnumAVer2::Var1)
        } else if tag == 1 {
            Ok(EnumAVer2::Var2)
        } else {
            Err(SavefileError::BadDiscriminant)
        }
    }
}

impl Roundtrip for EnumAVer2 {
    open spec fn read_back(version: u32, m: EnumAVer2Model) -> EnumAVer2Model {
        match m {
            EnumAVer2Model::Var1 => EnumAVer2Model::Var1,
            EnumAVer2Model::Var2 => EnumAVer2Model::Var2,
        }
    }

    #[verifier::spinoff_prover]
    proof fn lemma_roundtrip(version: u32, m: EnumAVer2Model, rest: Seq<u8>) {
        reveal_with_fuel(pow256, 3);
        let all = Self::encode(version, m) + rest;
        match m {
            EnumAVer2Model::Var1 => {
                lemma_le_roundtrip(0, 2);
                assert(all.take(2) =~= le_bytes(0, 2));
            },
            EnumAVer2Model::Var2 => {
                lemma_le_roundtrip(1, 2);
                assert(all.take(2) =~= le_bytes(1, 2));
            },
        }
    }
}

impl WithSchema for EnumAVer2 {
    open spec fn schema_nodes(version: u32) -> Seq<SchemaNodeModel> {
        seq![SchemaNodeModel::Enum(("EnumAVer2"@, 2u8, 2usize))]
            + seq![SchemaNodeModel::Variant(("Var1"@, 0usize))]
            + seq![SchemaNodeModel::Variant(("Var2"@, 0usize))]
    }

    fn schema(version: u32, nodes: &mut Vec<SchemaNode>) {
        let count: usize = 2;
        push_enum(nodes, "EnumAVer2", 2, count);
        let c0: usize = 0;
        push_variant(nodes, "Var1", c0);
        let c1: usize = 0;
        push_variant(nodes, "Var2", c1);
        assert(nodes.model() =~= old(nodes).model() + Self::schema_nodes(version));
    }
}

/// Two variants with a four-byte discriminant.
#[derive(Debug, PartialEq)]
pub enum EnumAVer3 {
    Var1,
    Var2,
}

/// The model of a [`EnumAVer3`]: the same variant, with the models of its fields.
pub enum EnumAVer3Model {
    Var1,
    Var2,
}

impl Model for EnumAVer3 {
    type M = EnumAVer3Model;

    open spec fn model(&self) -> EnumAVer3Model {
        match self {
            EnumAVer3::Var1 => EnumAVer3Model::Var1,
            EnumAVer3::Var2 => EnumAVer3Model::Var2,
        }
    }
}

impl Serialize for EnumAVer3 {
    open spec fn valid(version: u32, m: EnumAVer3Model) -> bool {
        match m {
            EnumAVer3Model::Var1 => true,
            EnumAVer3Model::Var2 => true,
        }
    }

    /// The position of the variant in the declaration, as 4 byte(s), then the fields of the variant.
    open spec fn encode(version: u32, m: EnumAVer3Model) -> Seq<u8> {
        match m {
            EnumAVer3Model::Var1 => le_bytes(0, 4),
            EnumAVer3Model::Var2 => le_bytes(1, 4),
        }
    }

    fn serialize(&self, serializer: &mut Serializer) -> (r: Result<(), SavefileError>) {
        let ghost version = serializer.file_version;
        let ghost start0 = serializer.writer@;
        match self {
            EnumAVer3::Var1 => {
                serializer.write_u32(0);
            },
            EnumAVer3::Var2 => {
                serializer.write_u32(1);
            },
        }
        assert(serializer.writer@ =~= old(serializer).writer@ + Self::encode(
            old(serializer).file_version,
            self.model(),
        ));
        Ok(())
    }
}

impl Deserialize for EnumAVer3 {
    /// Unknown variant numbers are refused.
    open spec fn decode(version: u32, s: Seq<u8>) -> Option<(EnumAVer3Model, nat)> {
        if s.len() < 4 {
            None
        } else if le_value(s.take(4)) == 0 {
            Some((EnumAVer3Model::Var1, 4))
        } else if le_value(s.take(4)) == 1 {
            Some((EnumAVer3Model::Var2, 4))
        } else {
            None
        }
    }

    fn deserialize(deserializer: &mut Deserializer) -> (r: Result<EnumAVer3, SavefileError>) {
        let ghost s0 = deserializer.rest();
        let tag = match deserializer.read_uint(4) {
            Ok(t) => t,
            Err(e) => {
                return Err(e);
            },
        };
        assert(deserializer.rest() =~= s0.skip(4));
        if tag == 0 {
            Ok(EnumAVer3::Var1)
        } else if tag == 1 {
            Ok(EnumAVer3::Var2)
        } else {
            Err(SavefileError::BadDiscriminant)
        }
    }
}

impl Roundtrip for EnumAVer3 {
    open spec fn read_back(version: u32, m: EnumAVer3Model) -> EnumAVer3Model {
        match m {
            EnumAVer3Model::Var1 => EnumAVer3Model::Var1,
            EnumAVer3Model::Var2 => EnumAVer3Model::Var2,
        }
    }

    #[verifier::spinoff_prover]
    proof fn lemma_roundtrip(version: u32, m: EnumAVer3Model, rest: Seq<u8>) {
        reveal_with_fuel(pow256, 5);
        let all = Self::encode(version, m) + rest;
        match m {
            EnumAVer3Model::Var1 => {
                lemma_le_roundtrip(0, 4);
                assert(all.take(4) =~= le_bytes(0, 4));
            },
            EnumAVer3Model::Var2 => {
                lemma_le_roundtrip(1, 4);
                assert(all.take(4) =~= le_bytes(1, 4));
            },
        }
    }
}

impl WithSchema for EnumAVer3 {
    open spec fn schema_nodes(version: u32) -> Seq<SchemaNodeModel> {
        seq![SchemaNodeModel::Enum(("EnumAVer3"@, 4u8, 2usize))]
            + seq![SchemaNodeModel::Variant(("Var1"@, 0usize))]
            + seq![SchemaNodeModel::Variant(("Var2"@, 0usize))]
    }

    fn schema(version: u32, nodes: &mut Vec<SchemaNode>) {
        let count: usize = 2;
        push_enum(nodes, "EnumAVer3", 4, count);
        let c0: usize = 0;
        push_variant(nodes, "Var1", c0);
        let c1: usize = 0;
        push_variant(nodes, "Var2", c1);
        assert(nodes.model() =~= old(nodes).model() + Self::schema_nodes(version));
    }
}

/// The first version of an enum that gains variants.
#[derive(Debug, PartialEq)]
pub enum EnumBVer1 {
    Var1,
    Var2,
}

/// The model of a [`EnumBVer1`]: the same variant, with the models of its fields.
pub enum EnumBVer1Model {
    Var1,
    Var2,
}

impl Model for EnumBVer1 {
    type M = EnumBVer1Model;

    open spec fn model(&self) -> EnumBVer1Model {
        match self {
            EnumBVer1::Var1 => EnumBVer1Model::Var1,
            EnumBVer1::Var2 => EnumBVer1Model::Var2,
        }
    }
}

impl Serialize for EnumBVer1 {
    open spec fn valid(version: u32, m: EnumBVer1Model) -> bool {
        match m {
            EnumBVer1Model::Var1 => true,
            EnumBVer1Model::Var2 => true,
        }
    }

    /// The position of the variant in the declaration, as 1 byte(s), then the fields of the variant.
    open spec fn encode(version: u32, m: EnumBVer1Model) -> Seq<u8> {
        match m {
            EnumBVer1Model::Var1 => le_bytes(0, 1),
            EnumBVer1Model::Var2 => le_bytes(1, 1),
        }
    }

    fn serialize(&self, serializer: &mut Serializer) -> (r: Result<(), SavefileError>) {
        let ghost version = serializer.file_version;
        let ghost start0 = serializer.writer@;
        match self {
            EnumBVer1::Var1 => {
                serializer.write_u8(0);
            },
            EnumBVer1::Var2 => {
                serializer.write_u8(1);
            },
        }
        assert(serializer.writer@ =~= old(serializer).writer@ + Self::encode(
            old(serializer).file_version,
            self.model(),
        ));
        Ok(())
    }
}

impl Deserialize for EnumBVer1 {
    /// Unknown variant numbers are refused.
    open spec fn decode(version: u32, s: Seq<u8>) -> Option<(EnumBVer1Model, nat)> {
        if s.len() < 1 {
            None
        } else if le_value(s.take(1)) == 0 {
            Some((EnumBVer1Model::Var1, 1))
        } else if le_value(s.take(1)) == 1 {
            Some((EnumBVer1Model::Var2, 1))
        } else {
            None
        }
    }

    fn deserialize(deserializer: &mut Deserializer) -> (r: Result<EnumBVer1, SavefileError>) {
        let ghost s0 = deserializer.rest();
        let tag = match deserializer.read_uint(1) {
            Ok(t) => t,
            Err(e) => {
                return Err(e);
            },
        };
        assert(deserializer.rest() =~= s0.skip(1));
        if tag == 0 {
            Ok(EnumBVer1::Var1)
        } else if tag == 1 {
            Ok(EnumBVer1::Var2)
        } else {
            Err(SavefileError::BadDiscriminant)
        }
    }
}

impl Roundtrip for EnumBVer1 {
    open spec fn read_back(version: u32, m: EnumBVer1Model) -> EnumBVer1Model {
        match m {
            EnumBVer1Model::Var1 => EnumBVer1Model::Var1,
            EnumBVer1Model::Var2 => EnumBVer1Model::Var2,
        }
    }

    #[verifier::spinoff_prover]
    proof fn lemma_roundtrip(version: u32, m: EnumBVer1Model, rest: Seq<u8>) {
        reveal_with_fuel(pow256, 2);
        let all = Self::encode(version, m) + rest;
        match m {
            EnumBVer1Model::Var1 => {
                lemma_le_roundtrip(0, 1);
                assert(all.take(1) =~= le_bytes(0, 1));
            },
            EnumBVer1Model::Var2 => {
                lemma_le_roundtrip(1, 1);
                assert(all.take(1) =~= le_bytes(1, 1));
            },
        }
    }
}

impl WithSchema for EnumBVer1 {
    open spec fn schema_nodes(version: u32) -> Seq<SchemaNodeModel> {
        seq![SchemaNodeModel::Enum(("EnumBVer1"@, 1u8, 2usize))]
            + seq![SchemaNodeModel::Variant(("Var1"@, 0usize))]
            + seq![SchemaNodeModel::Variant(("Var2"@, 0usize))]
    }

    fn schema(version: u32, nodes: &mut Vec<SchemaNode>) {
        let count: usize = 2;
        push_enum(nodes, "EnumBVer1", 1, count);
        let c0: usize = 0;
        push_variant(nodes, "Var1", c0);
        let c1: usize = 0;
        push_variant(nodes, "Var2", c1);
        assert(nodes.model() =~= old(nodes).model() + Self::schema_nodes(version));
    }
}

/// The second version: a variant added in data version 1.
#[derive(Debug, PartialEq)]
pub enum EnumBVer2 {
    Var1,
    Var2,
    Var3,
}

/// The model of a [`EnumBVer2`]: the same variant, with the models of its fields.
pub enum EnumBVer2Model {
    Var1,
    Var2,
    Var3,
}

impl Model for EnumBVer2 {
    type M = EnumBVer2Model;

    open spec fn model(&self) -> EnumBVer2Model {
        match self {
            EnumBVer2::Var1 => EnumBVer2Model::Var1,
            EnumBVer2::Var2 => EnumBVer2Model::Var2,
            EnumBVer2::Var3 => EnumBVer2Model::Var3,
        }
    }
}

impl Serialize for EnumBVer2 {
    open spec fn valid(version: u32, m: EnumBVer2Model) -> bool {
        match m {
            EnumBVer2Model::Var1 => true,
            EnumBVer2Model::Var2 => true,
            EnumBVer2Model::Var3 => 1 <= version && (true),
        }
    }

    /// The position of the variant in the declaration, as 1 byte(s), then the fields of the variant.
    open spec fn encode(version: u32, m: EnumBVer2Model) -> Seq<u8> {
        match m {
            EnumBVer2Model::Var1 => le_bytes(0, 1),
            EnumBVer2Model::Var2 => le_bytes(1, 1),
            EnumBVer2Model::Var3 => le_bytes(2, 1),
        }
    }

    fn serialize(&self, serializer: &mut Serializer) -> (r: Result<(), SavefileError>) {
        let ghost version = serializer.file_version;
        let ghost start0 = serializer.writer@;
        match self {
            EnumBVer2::Var1 => {
                serializer.write_u8(0);
            },
            EnumBVer2::Var2 => {
                serializer.write_u8(1);
            },
            EnumBVer2::Var3 => {
                if !(1 <= serializer.file_version) {
                    return Err(SavefileError::WrongVersion);
                }
                serializer.write_u8(2);
            },
        }
        assert(serializer.writer@ =~= old(serializer).writer@ + Self::encode(
            old(serializer).file_version,
            self.model(),
        ));
        Ok(())
    }
}

impl Deserialize for EnumBVer2 {
    /// Unknown variant numbers are refused.
    open spec fn decode(version: u32, s: Seq<u8>) -> Option<(EnumBVer2Model, nat)> {
        if s.len() < 1 {
            None
        } else if le_value(s.take(1)) == 0 {
            Some((EnumBVer2Model::Var1, 1))
        } else if le_value(s.take(1)) == 1 {
            Some((EnumBVer2Model::Var2, 1))
        } else if le_value(s.take(1)) == 2 {
            Some((EnumBVer2Model::Var3, 1))
        } else {
            None
        }
    }

    fn deserialize(deserializer: &mut Deserializer) -> (r: Result<EnumBVer2, SavefileError>) {
        let ghost s0 = deserializer.rest();
        let tag = match deserializer.read_uint(1) {
            Ok(t) => t,
            Err(e) => {
                return Err(e);
            },
        };
        assert(deserializer.rest() =~= s0.skip(1));
        if tag == 0 {
            Ok(EnumBVer2::Var1)
        } else if tag == 1 {
            Ok(EnumBVer2::Var2)
        } else if tag == 2 {
            Ok(EnumBVer2::Var3)
        } else {
            Err(SavefileError::BadDiscriminant)
        }
    }
}

impl Roundtrip for EnumBVer2 {
    open spec fn read_back(version: u32, m: EnumBVer2Model) -> EnumBVer2Model {
        match m {
            EnumBVer2Model::Var1 => EnumBVer2Model::Var1,
            EnumBVer2Model::Var2 => EnumBVer2Model::Var2,
            EnumBVer2Model::Var3 => EnumBVer2Model::Var3,
        }
    }

    #[verifier::spinoff_prover]
    proof fn lemma_roundtrip(version: u32, m: EnumBVer2Model, rest: Seq<u8>) {
        reveal_with_fuel(pow256, 2);
        let all = Self::encode(version, m) + rest;
        match m {
            EnumBVer2Model::Var1 => {
                lemma_le_roundtrip(0, 1);
                assert(all.take(1) =~= le_bytes(0, 1));
            },
            EnumBVer2Model::Var2 => {
                lemma_le_roundtrip(1, 1);
                assert(all.take(1) =~= le_bytes(1, 1));
            },
            EnumBVer2Model::Var3 => {
                lemma_le_roundtrip(2, 1);
                assert(all.take(1) =~= le_bytes(2, 1));
            },
        }
    }
}

impl WithSchema for EnumBVer2 {
    open spec fn schema_nodes(version: u32) -> Seq<SchemaNodeModel> {
        seq![SchemaNodeModel::Enum(("EnumBVer2"@, 1u8, (2int + (if 1 <= version { 1int } else { 0int })) as usize))]
            + seq![SchemaNodeModel::Variant(("Var1"@, 0usize))]
            + seq![SchemaNodeModel::Variant(("Var2"@, 0usize))]
            + (if 1 <= version { seq![SchemaNodeModel::Variant(("Var3"@, 0usize))] } else { Seq::<SchemaNodeModel>::empty() })
    }

    fn schema(version: u32, nodes: &mut Vec<SchemaNode>) {
        let mut count: usize = 0;
        count = count + 1;
        count = count + 1;
        if 1 <= version {
            count = count + 1;
        }
        push_enum(nodes, "EnumBVer2", 1, count);
        let c0: usize = 0;
        push_variant(nodes, "Var1", c0);
        let c1: usize = 0;
        push_variant(nodes, "Var2", c1);
        if 1 <= version {
            let c2: usize = 0;
            push_variant(nodes, "Var3", c2);
        }
        assert(nodes.model() =~= old(nodes).model() + Self::schema_nodes(version));
    }
}

/// The third version: another variant added in data version 2.
#[derive(Debug, PartialEq)]
pub enum EnumBVer3 {
    Var1,
    Var2,
    Var3,
    Var4,
}

/// The model of a [`EnumBVer3`]: the same variant, with the models of its fields.
pub enum EnumBVer3Model {
    Var1,
    Var2,
    Var3,
    Var4,
}

impl Model for EnumBVer3 {
    type M = EnumBVer3Model;

    open spec fn model(&self) -> EnumBVer3Model {
        match self {
            EnumBVer3::Var1 => EnumBVer3Model::Var1,
            EnumBVer3::Var2 => EnumBVer3Model::Var2,
            EnumBVer3::Var3 => EnumBVer3Model::Var3,
            EnumBVer3::Var4 => EnumBVer3Model::Var4,
        }
    }
}

impl Serialize for EnumBVer3 {
    open spec fn valid(version: u32, m: EnumBVer3Model) -> bool {
        match m {
            EnumBVer3Model::Var1 => true,
            EnumBVer3Model::Var2 => true,
            EnumBVer3Model::Var3 => 1 <= version && (true),
            EnumBVer3Model::Var4 => 2 <= version && (true),
        }
    }

    /// The position of the variant in the declaration, as 1 byte(s), then the fields of the variant.
    open spec fn encode(version: u32, m: EnumBVer3Model) -> Seq<u8> {
        match m {
            EnumBVer3Model::Var1 => le_bytes(0, 1),
            EnumBVer3Model::Var2 => le_bytes(1, 1),
            EnumBVer3Model::Var3 => le_bytes(2, 1),
            EnumBVer3Model::Var4 => le_bytes(3, 1),
        }
    }

    fn serialize(&self, serializer: &mut Serializer) -> (r: Result<(), SavefileError>) {
        let ghost version = serializer.file_version;
        let ghost start0 = serializer.writer@;
        match self {
            EnumBVer3::Var1 => {
                serializer.write_u8(0);
            },
            EnumBVer3::Var2 => {
                serializer.write_u8(1);
            },
            EnumBVer3::Var3 => {
                if !(1 <= serializer.file_version) {
                    return Err(SavefileError::WrongVersion);
                }
                serializer.write_u8(2);
            },
            EnumBVer3::Var4 => {
                if !(2 <= serializer.file_version) {
                    return Err(SavefileError::WrongVersion);
                }
                serializer.write_u8(3);
            },
        }
        assert(serializer.writer@ =~= old(serializer).writer@ + Self::encode(
            old(serializer).file_version,
            self.model(),
        ));
        Ok(())
    }
}

impl Deserialize for EnumBVer3 {
    /// Unknown variant numbers are refused.
    open spec fn decode(version: u32, s: Seq<u8>) -> Option<(EnumBVer3Model, nat)> {
        if s.len() < 1 {
            None
        } else if le_value(s.take(1)) == 0 {
            Some((EnumBVer3Model::Var1, 1))
        } else if le_value(s.take(1)) == 1 {
            Some((EnumBVer3Model::Var2, 1))
        } else if le_value(s.take(1)) == 2 {
            Some((EnumBVer3Model::Var3, 1))
        } else if le_value(s.take(1)) == 3 {
            Some((EnumBVer3Model::Var4, 1))
        } else {
            None
        }
    }

    fn deserialize(deserializer: &mut Deserializer) -> (r: Result<EnumBVer3, SavefileError>) {
        let ghost s0 = deserializer.rest();
        let tag = match deserializer.read_uint(1) {
            Ok(t) => t,
            Err(e) => {
                return Err(e);
            },
        };
        assert(deserializer.rest() =~= s0.skip(1));
        if tag == 0 {
            Ok(EnumBVer3::Var1)
        } else if tag == 1 {
            Ok(EnumBVer3::Var2)
        } else if tag == 2 {
            Ok(EnumBVer3::Var3)
        } else if tag == 3 {
            Ok(EnumBVer3::Var4)
        } else {
            Err(SavefileError::BadDiscriminant)
        }
    }
}

impl Roundtrip for EnumBVer3 {
    open spec fn read_back(version: u32, m: EnumBVer3Model) -> EnumBVer3Model {
        match m {
            EnumBVer3Model::Var1 => EnumBVer3Model::Var1,
            EnumBVer3Model::Var2 => EnumBVer3Model::Var2,
            EnumBVer3Model::Var3 => EnumBVer3Model::Var3,
            EnumBVer3Model::Var4 => EnumBVer3Model::Var4,
        }
    }

    #[verifier::spinoff_prover]
    proof fn lemma_roundtrip(version: u32, m: EnumBVer3Model, rest: Seq<u8>) {
        reveal_with_fuel(pow256, 2);
        let all = Self::encode(version, m) + rest;
        match m {
            EnumBVer3Model::Var1 => {
                lemma_le_roundtrip(0, 1);
                assert(all.take(1) =~= le_bytes(0, 1));
            },
            EnumBVer3Model::Var2 => {
                lemma_le_roundtrip(1, 1);
                assert(all.take(1) =~= le_bytes(1, 1));
            },
            EnumBVer3Model::Var3 => {
                lemma_le_roundtrip(2, 1);
                assert(all.take(1) =~= le_bytes(2, 1));
            },
            EnumBVer3Model::Var4 => {
                lemma_le_roundtrip(3, 1);
                assert(all.take(1) =~= le_bytes(3, 1));
            },
        }
    }
}

impl WithSchema for EnumBVer3 {
    open spec fn schema_nodes(version: u32) -> Seq<SchemaNodeModel> {
        seq![SchemaNodeModel::Enum(("EnumBVer3"@, 1u8, (2int + (if 1 <= version { 1int } else { 0int }) + (if 2 <= version { 1int } else { 0int })) as usize))]
            + seq![SchemaNodeModel::Variant(("Var1"@, 0usize))]
            + seq![SchemaNodeModel::Variant(("Var2"@, 0usize))]
            + (if 1 <= version { seq![SchemaNodeModel::Variant(("Var3"@, 0usize))] } else { Seq::<SchemaNodeModel>::empty() })
            + (if 2 <= version { seq![SchemaNodeModel::Variant(("Var4"@, 0usize))] } else { Seq::<SchemaNodeModel>::empty() })
    }

    fn schema(version: u32, nodes: &mut Vec<SchemaNode>) {
        let mut count: usize = 0;
        count = count + 1;
        count = count + 1;
        if 1 <= version {
            count = count + 1;
        }
        if 2 <= version {
            count = count + 1;
        }
        push_enum(nodes, "EnumBVer3", 1, count);
        let c0: usize = 0;
        push_variant(nodes, "Var1", c0);
        let c1: usize = 0;
        push_variant(nodes, "Var2", c1);
        if 1 <= version {
            let c2: usize = 0;
            push_variant(nodes, "Var3", c2);
        }
        if 2 <= version {
            let c3: usize = 0;
            push_variant(nodes, "Var4", c3);
        }
        assert(nodes.model() =~= old(nodes).model() + Self::schema_nodes(version));
    }
}

/// An enum whose variant lost a field after data version 0.
#[derive(Debug, PartialEq)]
pub enum EnumCVer2 {
    Var1,
    Var2 { a: Removed<u32>, b: u32 },
}

/// The model of a [`EnumCVer2`]: the same variant, with the models of its fields.
pub enum EnumCVer2Model {
    Var1,
    Var2(<(Removed<u32>, u32) as Model>::M),
}

impl Model for EnumCVer2 {
    type M = EnumCVer2Model;

    open spec fn model(&self) -> EnumCVer2Model {
        match self {
            EnumCVer2::Var1 => EnumCVer2Model::Var1,
            EnumCVer2::Var2 { a: f0, b: f1 } => EnumCVer2Model::Var2((f0.model(), f1.model())),
        }
    }
}

impl Serialize for EnumCVer2 {
    open spec fn valid(version: u32, m: EnumCVer2Model) -> bool {
        match m {
            EnumCVer2Model::Var1 => true,
            EnumCVer2Model::Var2(t) => (version <= 0 ==> <Removed<u32> as Serialize>::valid(version, t.0)) && <u32 as Serialize>::valid(version, t.1),
        }
    }

    /// The position of the variant in the declaration, as 4 byte(s), then the fields of the variant.
    open spec fn encode(version: u32, m: EnumCVer2Model) -> Seq<u8> {
        match m {
            EnumCVer2Model::Var1 => le_bytes(0, 4),
            EnumCVer2Model::Var2(t) => le_bytes(1, 4) + (if version <= 0 { <Removed<u32> as Serialize>::encode(version, t.0) } else { Seq::<u8>::empty() }) + <u32 as Serialize>::encode(version, t.1),
        }
    }

    fn serialize(&self, serializer: &mut Serializer) -> (r: Result<(), SavefileError>) {
        let ghost version = serializer.file_version;
        let ghost start0 = serializer.writer@;
        match self {
            EnumCVer2::Var1 => {
                serializer.write_u32(0);
            },
            EnumCVer2::Var2 { a: f0, b: f1 } => {
                serializer.write_u32(1);
                let ghost m = (f0.model(), f1.model());
                let ghost start = serializer.writer@;
                if serializer.file_version <= 0 {
                    match f0.serialize(serializer) {
                        Ok(()) => {},
                        Err(e) => {
                            return Err(e);
                        },
                    }
                }
                assert(serializer.writer@ =~= start + (if version <= 0 { <Removed<u32> as Serialize>::encode(version, m.0) } else { Seq::<u8>::empty() }));
                match f1.serialize(serializer) {
                    Ok(()) => {},
                    Err(e) => {
                        return Err(e);
                    },
                }
                assert(serializer.writer@ =~= start + (if version <= 0 { <Removed<u32> as Serialize>::encode(version, m.0) } else { Seq::<u8>::empty() }) + <u32 as Serialize>::encode(version, m.1));
            },
        }
        assert(serializer.writer@ =~= old(serializer).writer@ + Self::encode(
            old(serializer).file_version,
            self.model(),
        ));
        Ok(())
    }
}

impl Deserialize for EnumCVer2 {
    /// Unknown variant numbers are refused.
    open spec fn decode(version: u32, s: Seq<u8>) -> Option<(EnumCVer2Model, nat)> {
        if s.len() < 4 {
            None
        } else if le_value(s.take(4)) == 0 {
            Some((EnumCVer2Model::Var1, 4))
        } else if le_value(s.take(4)) == 1 {
            match (if version <= 0 { <Removed<u32> as Deserialize>::decode(version, s.skip(4)) } else { Some(((), 0nat)) }) {
                Some((v0, n0)) => match <u32 as Deserialize>::decode(version, s.skip(4).skip((n0) as int)) {
                    Some((v1, n1)) => Some((EnumCVer2Model::Var2((v0, v1)), n0 + n1 + 4)),
                    None => None,
                },
                None => None,
            }
        } else {
            None
        }
    }

    fn deserialize(deserializer: &mut Deserializer) -> (r: Result<EnumCVer2, SavefileError>) {
        let ghost s0 = deserializer.rest();
        let tag = match deserializer.read_uint(4) {
            Ok(t) => t,
            Err(e) => {
                return Err(e);
            },
        };
        assert(deserializer.rest() =~= s0.skip(4));
        if tag == 0 {
            Ok(EnumCVer2::Var1)
        } else if tag == 1 {
            let ghost s = deserializer.rest();
            let ghost p0 = deserializer.pos;
            let v0: Removed<u32> = if deserializer.file_version <= 0 {
                match <Removed<u32> as Deserialize>::deserialize(deserializer) {
                    Ok(x) => x,
                    Err(e) => {
                        return Err(e);
                    },
                }
            } else {
                Removed::new()
            };
            assert(deserializer.rest() =~= s.skip(deserializer.pos - p0));
            let v1: u32 = match <u32 as Deserialize>::deserialize(deserializer) {
                Ok(x) => x,
                Err(e) => {
                    return Err(e);
                },
            };
            assert(deserializer.rest() =~= s.skip(deserializer.pos - p0));
            Ok(EnumCVer2::Var2 { a: v0, b: v1 })
        } else {
            Err(SavefileError::BadDiscriminant)
        }
    }
}

impl Roundtrip for EnumCVer2 {
    open spec fn read_back(version: u32, m: EnumCVer2Model) -> EnumCVer2Model {
        match m {
            EnumCVer2Model::Var1 => EnumCVer2Model::Var1,
            EnumCVer2Model::Var2(t) => EnumCVer2Model::Var2(((if version <= 0 { <Removed<u32> as Roundtrip>::read_back(version, t.0) } else { () }), <u32 as Roundtrip>::read_back(version, t.1))),
        }
    }

    #[verifier::spinoff_prover]
    proof fn lemma_roundtrip(version: u32, m: EnumCVer2Model, rest: Seq<u8>) {
        reveal_with_fuel(pow256, 5);
        let all = Self::encode(version, m) + rest;
        match m {
            EnumCVer2Model::Var1 => {
                lemma_le_roundtrip(0, 4);
                assert(all.take(4) =~= le_bytes(0, 4));
            },
            EnumCVer2Model::Var2(t) => {
                lemma_le_roundtrip(1, 4);
                assert(all.take(4) =~= le_bytes(1, 4));
                assert(all.skip(4) =~= (if version <= 0 { <Removed<u32> as Serialize>::encode(version, t.0) } else { Seq::<u8>::empty() }) + <u32 as Serialize>::encode(version, t.1) + rest);
                let t2 = rest;
                let t1 = <u32 as Serialize>::encode(version, t.1) + t2;
                let t0 = (if version <= 0 { <Removed<u32> as Serialize>::encode(version, t.0) } else { Seq::<u8>::empty() }) + t1;
                if version <= 0 {
                    <Removed<u32> as Roundtrip>::lemma_roundtrip(version, t.0, t1);
                }
                <u32 as Roundtrip>::lemma_roundtrip(version, t.1, t2);
                assert((if version <= 0 { <Removed<u32> as Serialize>::encode(version, t.0) } else { Seq::<u8>::empty() }) + <u32 as Serialize>::encode(version, t.1) + rest =~= t0);
                assert(t0.skip(((if version <= 0 { <Removed<u32> as Serialize>::encode(version, t.0) } else { Seq::<u8>::empty() }).len()) as int) =~= t1);
                assert(t0.skip(((if version <= 0 { <Removed<u32> as Serialize>::encode(version, t.0) } else { Seq::<u8>::empty() }).len() + <u32 as Serialize>::encode(version, t.1).len()) as int) =~= t2);
            },
        }
    }
}

impl WithSchema for EnumCVer2 {
    open spec fn schema_nodes(version: u32) -> Seq<SchemaNodeModel> {
        seq![SchemaNodeModel::Enum(("EnumCVer2"@, 4u8, 2usize))]
            + seq![SchemaNodeModel::Variant(("Var1"@, 0usize))]
            + seq![SchemaNodeModel::Variant(("Var2"@, (1int + (if version <= 0 { 1int } else { 0int })) as usize))] + (if version <= 0 { seq![SchemaNodeModel::Field(("a"@, true))] + <Removed<u32> as WithSchema>::schema_nodes(version) } else { Seq::<SchemaNodeModel>::empty() }) + seq![SchemaNodeModel::Field(("b"@, false))] + <u32 as WithSchema>::schema_nodes(version)
    }

    fn schema(version: u32, nodes: &mut Vec<SchemaNode>) {
        let count: usize = 2;
        push_enum(nodes, "EnumCVer2", 4, count);
        let c0: usize = 0;
        push_variant(nodes, "Var1", c0);
        let mut c1: usize = 0;
        if version <= 0 {
            c1 = c1 + 1;
        }
        c1 = c1 + 1;
        push_variant(nodes, "Var2", c1);
        if version <= 0 {
            push_field(nodes, "a", true);
            <Removed<u32> as WithSchema>::schema(version, nodes);
        }
        push_field(nodes, "b", false);
        <u32 as WithSchema>::schema(version, nodes);
        assert(nodes.model() =~= old(nodes).model() + Self::schema_nodes(version));
    }
}

impl Packed for EnumCVer2 {
    /// Each variant laid out as its discriminant followed by its fields.
    open spec fn packed_layout(version: u32) -> Layout {
        enum_layout(seq![record_layout(seq![number_layout(4)], (0, 1)), record_layout(seq![number_layout(4), (if version <= 0 { <Removed<u32> as Packed>::packed_layout(version) } else { Some((0nat, 1nat)) }), <u32 as Packed>::packed_layout(version)], (0, 1))])
    }

    fn layout(version: u32) -> (r: Option<(u64, u64)>) {
        let a0 = Some((0u64, 1u64));
        let a0 = place_field(a0, Some((4u64, 4u64)));
        let a0 = close_record(a0);
        proof {
            let s0 = seq![number_layout(4)];
            assert(s0.drop_first() =~= Seq::<Layout>::empty());
            reveal_with_fuel(record_layout, 2);
        }
        let a1 = Some((0u64, 1u64));
        let a1 = place_field(a1, Some((4u64, 4u64)));
        let a1 = place_field(a1, (if version <= 0 { <Removed<u32> as Packed>::layout(version) } else { Some((0u64, 1u64)) }));
        let a1 = place_field(a1, <u32 as Packed>::layout(version));
        let a1 = close_record(a1);
        proof {
            let s1 = seq![number_layout(4), (if version <= 0 { <Removed<u32> as Packed>::packed_layout(version) } else { Some((0nat, 1nat)) }), <u32 as Packed>::packed_layout(version)];
            assert(s1.drop_first() =~= seq![(if version <= 0 { <Removed<u32> as Packed>::packed_layout(version) } else { Some((0nat, 1nat)) }), <u32 as Packed>::packed_layout(version)]);
            assert(s1.drop_first().drop_first() =~= seq![<u32 as Packed>::packed_layout(version)]);
            assert(s1.drop_first().drop_first().drop_first() =~= Seq::<Layout>::empty());
            reveal_with_fuel(record_layout, 4);
        }
        let acc = Some((0u64, 1u64));
        let acc = combine_variant(a1, acc);
        let acc = combine_variant(a0, acc);
        proof {
            let vs = seq![record_layout(seq![number_layout(4)], (0, 1)), record_layout(seq![number_layout(4), (if version <= 0 { <Removed<u32> as Packed>::packed_layout(version) } else { Some((0nat, 1nat)) }), <u32 as Packed>::packed_layout(version)], (0, 1))];
            assert(vs.drop_first() =~= seq![record_layout(seq![number_layout(4), (if version <= 0 { <Removed<u32> as Packed>::packed_layout(version) } else { Some((0nat, 1nat)) }), <u32 as Packed>::packed_layout(version)], (0, 1))]);
            assert(vs.drop_first().drop_first() =~= Seq::<Layout>::empty());
            reveal_with_fuel(enum_layout, 3);
        }
        acc
    }
}

/// An enum whose first variant is its default.
#[derive(Debug, PartialEq, Default)]
pub enum DefTraitEnum {
    #[default]
    VariantA,
    VariantB,
    VariantC,
}

/// The model of a [`DefTraitEnum`]: the same variant, with the models of its fields.
pub enum DefTraitEnumModel {
    VariantA,
    VariantB,
    VariantC,
}

impl Model for DefTraitEnum {
    type M = DefTraitEnumModel;

    open spec fn model(&self) -> DefTraitEnumModel {
        match self {
            DefTraitEnum::VariantA => DefTraitEnumModel::VariantA,
            DefTraitEnum::VariantB => DefTraitEnumModel::VariantB,
            DefTraitEnum::VariantC => DefTraitEnumModel::VariantC,
        }
    }
}

impl Serialize for DefTraitEnum {
    open spec fn valid(version: u32, m: DefTraitEnumModel) -> bool {
        match m {
            DefTraitEnumModel::VariantA => true,
            DefTraitEnumModel::VariantB => true,
            DefTraitEnumModel::VariantC => true,
        }
    }

    /// The position of the variant in the declaration, as 1 byte(s), then the fields of the variant.
    open spec fn encode(version: u32, m: DefTraitEnumModel) -> Seq<u8> {
        match m {
            DefTraitEnumModel::VariantA => le_bytes(0, 1),
            DefTraitEnumModel::VariantB => le_bytes(1, 1),
            DefTraitEnumModel::VariantC => le_bytes(2, 1),
        }
    }

    fn serialize(&self, serializer: &mut Serializer) -> (r: Result<(), SavefileError>) {
        let ghost version = serializer.file_version;
        let ghost start0 = serializer.writer@;
        match self {
            DefTraitEnum::VariantA => {
                serializer.write_u8(0);
            },
            DefTraitEnum::VariantB => {
                serializer.write_u8(1);
            },
            DefTraitEnum::VariantC => {
                serializer.write_u8(2);
            },
        }
        assert(serializer.writer@ =~= old(serializer).writer@ + Self::encode(
            old(serializer).file_version,
            self.model(),
        ));
        Ok(())
    }
}

impl Deserialize for DefTraitEnum {
    /// Unknown variant numbers are refused.
    open spec fn decode(version: u32, s: Seq<u8>) -> Option<(DefTraitEnumModel, nat)> {
        if s.len() < 1 {
            None
        } else if le_value(s.take(1)) == 0 {
            Some((DefTraitEnumModel::VariantA, 1))
        } else if le_value(s.take(1)) == 1 {
            Some((DefTraitEnumModel::VariantB, 1))
        } else if le_value(s.take(1)) == 2 {
            Some((DefTraitEnumModel::VariantC, 1))
        } else {
            None
        }
    }

    fn deserialize(deserializer: &mut Deserializer) -> (r: Result<DefTraitEnum, SavefileError>) {
        let ghost s0 = deserializer.rest();
        let tag = match deserializer.read_uint(1) {
            Ok(t) => t,
            Err(e) => {
                return Err(e);
            },
        };
        assert(deserializer.rest() =~= s0.skip(1));
        if tag == 0 {
            Ok(DefTraitEnum::VariantA)
        } else if tag == 1 {
            Ok(DefTraitEnum::VariantB)
        } else if tag == 2 {
            Ok(DefTraitEnum::VariantC)
        } else {
            Err(SavefileError::BadDiscriminant)
        }
    }
}

impl Roundtrip for DefTraitEnum {
    open spec fn read_back(version: u32, m: DefTraitEnumModel) -> DefTraitEnumModel {
        match m {
            DefTraitEnumModel::VariantA => DefTraitEnumModel::VariantA,
            DefTraitEnumModel::VariantB => DefTraitEnumModel::VariantB,
            DefTraitEnumModel::VariantC => DefTraitEnumModel::VariantC,
        }
    }

    #[verifier::spinoff_prover]
    proof fn lemma_roundtrip(version: u32, m: DefTraitEnumModel, rest: Seq<u8>) {
        reveal_with_fuel(pow256, 2);
        let all = Self::encode(version, m) + rest;
        match m {
            DefTraitEnumModel::VariantA => {
                lemma_le_roundtrip(0, 1);
                assert(all.take(1) =~= le_bytes(0, 1));
            },
            DefTraitEnumModel::VariantB => {
                lemma_le_roundtrip(1, 1);
                assert(all.take(1) =~= le_bytes(1, 1));
            },
            DefTraitEnumModel::VariantC => {
                lemma_le_roundtrip(2, 1);
                assert(all.take(1) =~= le_bytes(2, 1));
            },
        }
    }
}

impl WithSchema for DefTraitEnum {
    open spec fn schema_nodes(version: u32) -> Seq<SchemaNodeModel> {
        seq![SchemaNodeModel::Enum(("DefTraitEnum"@, 1u8, 3usize))]
            + seq![SchemaNodeModel::Variant(("VariantA"@, 0usize))]
            + seq![SchemaNodeModel::Variant(("VariantB"@, 0usize))]
            + seq![SchemaNodeModel::Variant(("VariantC"@, 0usize))]
    }

    fn schema(version: u32, nodes: &mut Vec<SchemaNode>) {
        let count: usize = 3;
        push_enum(nodes, "DefTraitEnum", 1, count);
        let c0: usize = 0;
        push_variant(nodes, "VariantA", c0);
        let c1: usize = 0;
        push_variant(nodes, "VariantB", c1);
        let c2: usize = 0;
        push_variant(nodes, "VariantC", c2);
        assert(nodes.model() =~= old(nodes).model() + Self::schema_nodes(version));
    }
}

/// A record whose only field exists from data version 1 on.
#[derive(Debug, PartialEq)]
pub struct DefTraitTest {
    pub removed_enum: DefTraitEnum,
}

impl Model for DefTraitTest {
    /// The models of the fields, in order.
    type M = <DefTraitEnum as Model>::M;

    open spec fn model(&self) -> <DefTraitEnum as Model>::M {
        self.removed_enum.model()
    }
}

impl Serialize for DefTraitTest {
    open spec fn valid(version: u32, m: <DefTraitEnum as Model>::M) -> bool {
        (1 <= version ==> <DefTraitEnum as Serialize>::valid(version, m))
    }

    /// The fields that the data version holds, one after the other.
    open spec fn encode(version: u32, m: <DefTraitEnum as Model>::M) -> Seq<u8> {
        (if 1 <= version { <DefTraitEnum as Serialize>::encode(version, m) } else { Seq::<u8>::empty() })
    }

    fn serialize(&self, serializer: &mut Serializer) -> (r: Result<(), SavefileError>) {
        let ghost version = serializer.file_version;
        let ghost m = self.model();
        let ghost start = serializer.writer@;
        if 1 <= serializer.file_version {
            match self.removed_enum.serialize(serializer) {
                Ok(()) => {},
                Err(e) => {
                    return Err(e);
                },
            }
        }
        assert(serializer.writer@ =~= start + (if 1 <= version { <DefTraitEnum as Serialize>::encode(version, m) } else { Seq::<u8>::empty() }));
        assert(serializer.writer@ =~= old(serializer).writer@ + Self::encode(
            old(serializer).file_version,
            self.model(),
        ));
        Ok(())
    }
}

impl Deserialize for DefTraitTest {
    open spec fn decode(version: u32, s: Seq<u8>) -> Option<(<DefTraitEnum as Model>::M, nat)> {
        match (if 1 <= version { <DefTraitEnum as Deserialize>::decode(version, s) } else { Some((DefTraitEnumModel::VariantA, 0nat)) }) {
            Some((v0, n0)) => Some((v0, n0)),
            None => None,
        }
    }

    fn deserialize(deserializer: &mut Deserializer) -> (r: Result<DefTraitTest, SavefileError>) {
        let ghost s = deserializer.rest();
        let ghost p0 = deserializer.pos;
        let v0: DefTraitEnum = if 1 <= deserializer.file_version {
            match <DefTraitEnum as Deserialize>::deserialize(deserializer) {
                Ok(x) => x,
                Err(e) => {
                    return Err(e);
                },
            }
        } else {
            DefTraitEnum::VariantA
        };
        assert(deserializer.rest() =~= s.skip(deserializer.pos - p0));
        Ok(DefTraitTest { removed_enum: v0 })
    }
}

impl Roundtrip for DefTraitTest {
    open spec fn read_back(version: u32, m: <DefTraitEnum as Model>::M) -> <DefTraitEnum as Model>::M {
        (if 1 <= version { <DefTraitEnum as Roundtrip>::read_back(version, m) } else { DefTraitEnumModel::VariantA })
    }

    #[verifier::spinoff_prover]
    proof fn lemma_roundtrip(version: u32, m: <DefTraitEnum as Model>::M, rest: Seq<u8>) {
        let t1 = rest;
        let t0 = (if 1 <= version { <DefTraitEnum as Serialize>::encode(version, m) } else { Seq::<u8>::empty() }) + t1;
        if 1 <= version {
            <DefTraitEnum as Roundtrip>::lemma_roundtrip(version, m, t1);
        }
        assert((if 1 <= version { <DefTraitEnum as Serialize>::encode(version, m) } else { Seq::<u8>::empty() }) + rest =~= t0);
        assert(t0.skip(((if 1 <= version { <DefTraitEnum as Serialize>::encode(version, m) } else { Seq::<u8>::empty() }).len()) as int) =~= t1);
    }
}

impl WithSchema for DefTraitTest {
    open spec fn schema_nodes(version: u32) -> Seq<SchemaNodeModel> {
        seq![SchemaNodeModel::Struct(("DefTraitTest"@, (0int + (if 1 <= version { 1int } else { 0int })) as usize))]
            + (if 1 <= version { seq![SchemaNodeModel::Field(("removed_enum"@, false))] + <DefTraitEnum as WithSchema>::schema_nodes(version) } else { Seq::<SchemaNodeModel>::empty() })
    }

    fn schema(version: u32, nodes: &mut Vec<SchemaNode>) {
        let mut count: usize = 0;
        if 1 <= version {
            count = count + 1;
        }
        push_struct(nodes, "DefTraitTest", count);
        if 1 <= version {
            push_field(nodes, "removed_enum", false);
            <DefTraitEnum as WithSchema>::schema(version, nodes);
        }
        assert(nodes.model() =~= old(nodes).model() + Self::schema_nodes(version));
    }
}

/// The first version of a record.
#[derive(Debug, PartialEq)]
pub struct Version1 {
    pub a: String,
    pub b: Vec<String>,
    pub c: usize,
}

impl Model for Version1 {
    /// The models of the fields, in order.
    type M = <(String, Vec<String>, usize) as Model>::M;

    open spec fn model(&self) -> <(String, Vec<String>, usize) as Model>::M {
        (self.a.model(), self.b.model(), self.c.model())
    }
}

impl Serialize for Version1 {
    open spec fn valid(version: u32, m: <(String, Vec<String>, usize) as Model>::M) -> bool {
        <(String, Vec<String>, usize) as Serialize>::valid(version, m)
    }

    /// The fields, one after the other.
    open spec fn encode(version: u32, m: <(String, Vec<String>, usize) as Model>::M) -> Seq<u8> {
        <(String, Vec<String>, usize) as Serialize>::encode(version, m)
    }

    fn serialize(&self, serializer: &mut Serializer) -> (r: Result<(), SavefileError>) {
        match self.a.serialize(serializer) {
            Ok(()) => {},
            Err(e) => {
                return Err(e);
            },
        }
        match self.b.serialize(serializer) {
            Ok(()) => {},
            Err(e) => {
                return Err(e);
            },
        }
        match self.c.serialize(serializer) {
            Ok(()) => {},
            Err(e) => {
                return Err(e);
            },
        }
        assert(serializer.writer@ =~= old(serializer).writer@ + Self::encode(
            old(serializer).file_version,
            self.model(),
        ));
        Ok(())
    }
}

impl Deserialize for Version1 {
    open spec fn decode(version: u32, s: Seq<u8>) -> Option<(<(String, Vec<String>, usize) as Model>::M, nat)> {
        <(String, Vec<String>, usize) as Deserialize>::decode(version, s)
    }

    fn deserialize(deserializer: &mut Deserializer) -> (r: Result<Version1, SavefileError>) {
        match <(String, Vec<String>, usize) as Deserialize>::deserialize(deserializer) {
            Ok((v0, v1, v2)) => Ok(Version1 { a: v0, b: v1, c: v2 }),
            Err(e) => Err(e),
        }
    }
}

impl Roundtrip for Version1 {
    open spec fn read_back(version: u32, m: <(String, Vec<String>, usize) as Model>::M) -> <(String, Vec<String>, usize) as Model>::M {
        <(String, Vec<String>, usize) as Roundtrip>::read_back(version, m)
    }

    #[verifier::spinoff_prover]
    proof fn lemma_roundtrip(version: u32, m: <(String, Vec<String>, usize) as Model>::M, rest: Seq<u8>) {
        <(String, Vec<String>, usize) as Roundtrip>::lemma_roundtrip(version, m, rest);
    }
}

impl WithSchema for Version1 {
    open spec fn schema_nodes(version: u32) -> Seq<SchemaNodeModel> {
        seq![SchemaNodeModel::Struct(("Version1"@, 3usize))]
            + seq![SchemaNodeModel::Field(("a"@, false))] + <String as WithSchema>::schema_nodes(version)
            + seq![SchemaNodeModel::Field(("b"@, false))] + <Vec<String> as WithSchema>::schema_nodes(version)
            + seq![SchemaNodeModel::Field(("c"@, false))] + <usize as WithSchema>::schema_nodes(version)
    }

    fn schema(version: u32, nodes: &mut Vec<SchemaNode>) {
        let count: usize = 3;
        push_struct(nodes, "Version1", count);
        push_field(nodes, "a", false);
        <String as WithSchema>::schema(version, nodes);
        push_field(nodes, "b", false);
        <Vec<String> as WithSchema>::schema(version, nodes);
        push_field(nodes, "c", false);
        <usize as WithSchema>::schema(version, nodes);
        assert(nodes.model() =~= old(nodes).model() + Self::schema_nodes(version));
    }
}

/// The second version of the record: `b` is gone after data version 0, and `newb` defaults to 123.
#[derive(Debug, PartialEq)]
pub struct Version2 {
    pub a: String,
    pub b: Removed<Vec<String>>,
    pub newb: u32,
    pub c: usize,
}

impl Model for Version2 {
    /// The models of the fields, in order.
    type M = <(String, Removed<Vec<String>>, (u32, usize)) as Model>::M;

    open spec fn model(&self) -> <(String, Removed<Vec<String>>, (u32, usize)) as Model>::M {
        (self.a.model(), self.b.model(), (self.newb.model(), self.c.model()))
    }
}

impl Serialize for Version2 {
    open spec fn valid(version: u32, m: <(String, Removed<Vec<String>>, (u32, usize)) as Model>::M) -> bool {
        <String as Serialize>::valid(version, m.0) && (version <= 0 ==> <Removed<Vec<String>> as Serialize>::valid(version, m.1)) && (1 <= version ==> <u32 as Serialize>::valid(version, m.2.0)) && <usize as Serialize>::valid(version, m.2.1)
    }

    /// The fields that the data version holds, one after the other.
    open spec fn encode(version: u32, m: <(String, Removed<Vec<String>>, (u32, usize)) as Model>::M) -> Seq<u8> {
        <String as Serialize>::encode(version, m.0) + (if version <= 0 { <Removed<Vec<String>> as Serialize>::encode(version, m.1) } else { Seq::<u8>::empty() }) + (if 1 <= version { <u32 as Serialize>::encode(version, m.2.0) } else { Seq::<u8>::empty() }) + <usize as Serialize>::encode(version, m.2.1)
    }

    fn serialize(&self, serializer: &mut Serializer) -> (r: Result<(), SavefileError>) {
        let ghost version = serializer.file_version;
        let ghost m = self.model();
        let ghost start = serializer.writer@;
        match self.a.serialize(serializer) {
            Ok(()) => {},
            Err(e) => {
                return Err(e);
            },
        }
        assert(serializer.writer@ =~= start + <String as Serialize>::encode(version, m.0));
        if serializer.file_version <= 0 {
            match self.b.serialize(serializer) {
                Ok(()) => {},
                Err(e) => {
                    return Err(e);
                },
            }
        }
        assert(serializer.writer@ =~= start + <String as Serialize>::encode(version, m.0) + (if version <= 0 { <Removed<Vec<String>> as Serialize>::encode(version, m.1) } else { Seq::<u8>::empty() }));
        if 1 <= serializer.file_version {
            match self.newb.serialize(serializer) {
                Ok(()) => {},
                Err(e) => {
                    return Err(e);
                },
            }
        }
        assert(serializer.writer@ =~= start + <String as Serialize>::encode(version, m.0) + (if version <= 0 { <Removed<Vec<String>> as Serialize>::encode(version, m.1) } else { Seq::<u8>::empty() }) + (if 1 <= version { <u32 as Serialize>::encode(version, m.2.0) } else { Seq::<u8>::empty() }));
        match self.c.serialize(serializer) {
            Ok(()) => {},
            Err(e) => {
                return Err(e);
            },
        }
        assert(serializer.writer@ =~= start + <String as Serialize>::encode(version, m.0) + (if version <= 0 { <Removed<Vec<String>> as Serialize>::encode(version, m.1) } else { Seq::<u8>::empty() }) + (if 1 <= version { <u32 as Serialize>::encode(version, m.2.0) } else { Seq::<u8>::empty() }) + <usize as Serialize>::encode(version, m.2.1));
        assert(serializer.writer@ =~= old(serializer).writer@ + Self::encode(
            old(serializer).file_version,
            self.model(),
        ));
        Ok(())
    }
}

impl Deserialize for Version2 {
    open spec fn decode(version: u32, s: Seq<u8>) -> Option<(<(String, Removed<Vec<String>>, (u32, usize)) as Model>::M, nat)> {
        match <String as Deserialize>::decode(version, s) {
            Some((v0, n0)) => match (if version <= 0 { <Removed<Vec<String>> as Deserialize>::decode(version, s.skip((n0) as int)) } else { Some(((), 0nat)) }) {
                Some((v1, n1)) => match (if 1 <= version { <u32 as Deserialize>::decode(version, s.skip((n0 + n1) as int)) } else { Some((123u32, 0nat)) }) {
                    Some((v2, n2)) => match <usize as Deserialize>::decode(version, s.skip((n0 + n1 + n2) as int)) {
                        Some((v3, n3)) => Some(((v0, v1, (v2, v3)), n0 + n1 + n2 + n3)),
                        None => None,
                    },
                    None => None,
                },
                None => None,
            },
            None => None,
        }
    }

    fn deserialize(deserializer: &mut Deserializer) -> (r: Result<Version2, SavefileError>) {
        let ghost s = deserializer.rest();
        let ghost p0 = deserializer.pos;
        let v0: String = match <String as Deserialize>::deserialize(deserializer) {
            Ok(x) => x,
            Err(e) => {
                return Err(e);
            },
        };
        assert(deserializer.rest() =~= s.skip(deserializer.pos - p0));
        let v1: Removed<Vec<String>> = if deserializer.file_version <= 0 {
            match <Removed<Vec<String>> as Deserialize>::deserialize(deserializer) {
                Ok(x) => x,
                Err(e) => {
                    return Err(e);
                },
            }
        } else {
            Removed::new()
        };
        assert(deserializer.rest() =~= s.skip(deserializer.pos - p0));
        let v2: u32 = if 1 <= deserializer.file_version {
            match <u32 as Deserialize>::deserialize(deserializer) {
                Ok(x) => x,
                Err(e) => {
                    return Err(e);
                },
            }
        } else {
            123
        };
        assert(deserializer.rest() =~= s.skip(deserializer.pos - p0));
        let v3: usize = match <usize as Deserialize>::deserialize(deserializer) {
            Ok(x) => x,
            Err(e) => {
                return Err(e);
            },
        };
        assert(deserializer.rest() =~= s.skip(deserializer.pos - p0));
        Ok(Version2 { a: v0, b: v1, newb: v2, c: v3 })
    }
}

impl Roundtrip for Version2 {
    open spec fn read_back(version: u32, m: <(String, Removed<Vec<String>>, (u32, usize)) as Model>::M) -> <(String, Removed<Vec<String>>, (u32, usize)) as Model>::M {
        (<String as Roundtrip>::read_back(version, m.0), (if version <= 0 { <Removed<Vec<String>> as Roundtrip>::read_back(version, m.1) } else { () }), ((if 1 <= version { <u32 as Roundtrip>::read_back(version, m.2.0) } else { 123u32 }), <usize as Roundtrip>::read_back(version, m.2.1)))
    }

    #[verifier::spinoff_prover]
    proof fn lemma_roundtrip(version: u32, m: <(String, Removed<Vec<String>>, (u32, usize)) as Model>::M, rest: Seq<u8>) {
        let t4 = rest;
        let t3 = <usize as Serialize>::encode(version, m.2.1) + t4;
        let t2 = (if 1 <= version { <u32 as Serialize>::encode(version, m.2.0) } else { Seq::<u8>::empty() }) + t3;
        let t1 = (if version <= 0 { <Removed<Vec<String>> as Serialize>::encode(version, m.1) } else { Seq::<u8>::empty() }) + t2;
        let t0 = <String as Serialize>::encode(version, m.0) + t1;
        <String as Roundtrip>::lemma_roundtrip(version, m.0, t1);
        if version <= 0 {
            <Removed<Vec<String>> as Roundtrip>::lemma_roundtrip(version, m.1, t2);
        }
        if 1 <= version {
            <u32 as Roundtrip>::lemma_roundtrip(version, m.2.0, t3);
        }
        <usize as Roundtrip>::lemma_roundtrip(version, m.2.1, t4);
        assert(<String as Serialize>::encode(version, m.0) + (if version <= 0 { <Removed<Vec<String>> as Serialize>::encode(version, m.1) } else { Seq::<u8>::empty() }) + (if 1 <= version { <u32 as Serialize>::encode(version, m.2.0) } else { Seq::<u8>::empty() }) + <usize as Serialize>::encode(version, m.2.1) + rest =~= t0);
        assert(t0.skip((<String as Serialize>::encode(version, m.0).len()) as int) =~= t1);
        assert(t0.skip((<String as Serialize>::encode(version, m.0).len() + (if version <= 0 { <Removed<Vec<String>> as Serialize>::encode(version, m.1) } else { Seq::<u8>::empty() }).len()) as int) =~= t2);
        assert(t0.skip((<String as Serialize>::encode(version, m.0).len() + (if version <= 0 { <Removed<Vec<String>> as Serialize>::encode(version, m.1) } else { Seq::<u8>::empty() }).len() + (if 1 <= version { <u32 as Serialize>::encode(version, m.2.0) } else { Seq::<u8>::empty() }).len()) as int) =~= t3);
        assert(t0.skip((<String as Serialize>::encode(version, m.0).len() + (if version <= 0 { <Removed<Vec<String>> as Serialize>::encode(version, m.1) } else { Seq::<u8>::empty() }).len() + (if 1 <= version { <u32 as Serialize>::encode(version, m.2.0) } else { Seq::<u8>::empty() }).len() + <usize as Serialize>::encode(version, m.2.1).len()) as int) =~= t4);
    }
}

impl WithSchema for Version2 {
    open spec fn schema_nodes(version: u32) -> Seq<SchemaNodeModel> {
        seq![SchemaNodeModel::Struct(("Version2"@, (2int + (if version <= 0 { 1int } else { 0int }) + (if 1 <= version { 1int } else { 0int })) as usize))]
            + seq![SchemaNodeModel::Field(("a"@, false))] + <String as WithSchema>::schema_nodes(version)
            + (if version <= 0 { seq![SchemaNodeModel::Field(("b"@, true))] + <Removed<Vec<String>> as WithSchema>::schema_nodes(version) } else { Seq::<SchemaNodeModel>::empty() })
            + (if 1 <= version { seq![SchemaNodeModel::Field(("newb"@, false))] + <u32 as WithSchema>::schema_nodes(version) } else { Seq::<SchemaNodeModel>::empty() })
            + seq![SchemaNodeModel::Field(("c"@, false))] + <usize as WithSchema>::schema_nodes(version)
    }

    fn schema(version: u32, nodes: &mut Vec<SchemaNode>) {
        let mut count: usize = 0;
        count = count + 1;
        if version <= 0 {
            count = count + 1;
        }
        if 1 <= version {
            count = count + 1;
        }
        count = count + 1;
        push_struct(nodes, "Version2", count);
        push_field(nodes, "a", false);
        <String as WithSchema>::schema(version, nodes);
        if version <= 0 {
            push_field(nodes, "b", true);
            <Removed<Vec<String>> as WithSchema>::schema(version, nodes);
        }
        if 1 <= version {
            push_field(nodes, "newb", false);
            <u32 as WithSchema>::schema(version, nodes);
        }
        push_field(nodes, "c", false);
        <usize as WithSchema>::schema(version, nodes);
        assert(nodes.model() =~= old(nodes).model() + Self::schema_nodes(version));
    }
}

/// The third version of the record: `newb` only in data version 1, `d` from data version 2.
#[derive(Debug, PartialEq)]
pub struct Version3 {
    pub a: String,
    pub b: Removed<Vec<String>>,
    pub newb: u32,
    pub c: usize,
    pub d: usize,
}

impl Model for Version3 {
    /// The models of the fields, in order.
    type M = <(String, Removed<Vec<String>>, (u32, usize, usize)) as Model>::M;

    open spec fn model(&self) -> <(String, Removed<Vec<String>>, (u32, usize, usize)) as Model>::M {
        (self.a.model(), self.b.model(), (self.newb.model(), self.c.model(), self.d.model()))
    }
}

impl Serialize for Version3 {
    open spec fn valid(version: u32, m: <(String, Removed<Vec<String>>, (u32, usize, usize)) as Model>::M) -> bool {
        <String as Serialize>::valid(version, m.0) && (version <= 0 ==> <Removed<Vec<String>> as Serialize>::valid(version, m.1)) && (1 <= version && version <= 1 ==> <u32 as Serialize>::valid(version, m.2.0)) && <usize as Serialize>::valid(version, m.2.1) && (2 <= version ==> <usize as Serialize>::valid(version, m.2.2))
    }

    /// The fields that the data version holds, one after the other.
    open spec fn encode(version: u32, m: <(String, Removed<Vec<String>>, (u32, usize, usize)) as Model>::M) -> Seq<u8> {
        <String as Serialize>::encode(version, m.0) + (if version <= 0 { <Removed<Vec<String>> as Serialize>::encode(version, m.1) } else { Seq::<u8>::empty() }) + (if 1 <= version && version <= 1 { <u32 as Serialize>::encode(version, m.2.0) } else { Seq::<u8>::empty() }) + <usize as Serialize>::encode(version, m.2.1) + (if 2 <= version { <usize as Serialize>::encode(version, m.2.2) } else { Seq::<u8>::empty() })
    }

    fn serialize(&self, serializer: &mut Serializer) -> (r: Result<(), SavefileError>) {
        let ghost version = serializer.file_version;
        let ghost m = self.model();
        let ghost start = serializer.writer@;
        match self.a.serialize(serializer) {
            Ok(()) => {},
            Err(e) => {
                return Err(e);
            },
        }
        assert(serializer.writer@ =~= start + <String as Serialize>::encode(version, m.0));
        if serializer.file_version <= 0 {
            match self.b.serialize(serializer) {
                Ok(()) => {},
                Err(e) => {
                    return Err(e);
                },
            }
        }
        assert(serializer.writer@ =~= start + <String as Serialize>::encode(version, m.0) + (if version <= 0 { <Removed<Vec<String>> as Serialize>::encode(version, m.1) } else { Seq::<u8>::empty() }));
        if 1 <= serializer.file_version && serializer.file_version <= 1 {
            match self.newb.serialize(serializer) {
                Ok(()) => {},
                Err(e) => {
                    return Err(e);
                },
            }
        }
        assert(serializer.writer@ =~= start + <String as Serialize>::encode(version, m.0) + (if version <= 0 { <Removed<Vec<String>> as Serialize>::encode(version, m.1) } else { Seq::<u8>::empty() }) + (if 1 <= version && version <= 1 { <u32 as Serialize>::encode(version, m.2.0) } else { Seq::<u8>::empty() }));
        match self.c.serialize(serializer) {
            Ok(()) => {},
            Err(e) => {
                return Err(e);
            },
        }
        assert(serializer.writer@ =~= start + <String as Serialize>::encode(version, m.0) + (if version <= 0 { <Removed<Vec<String>> as Serialize>::encode(version, m.1) } else { Seq::<u8>::empty() }) + (if 1 <= version && version <= 1 { <u32 as Serialize>::encode(version, m.2.0) } else { Seq::<u8>::empty() }) + <usize as Serialize>::encode(version, m.2.1));
        if 2 <= serializer.file_version {
            match self.d.serialize(serializer) {
                Ok(()) => {},
                Err(e) => {
                    return Err(e);
                },
            }
        }
        assert(serializer.writer@ =~= start + <String as Serialize>::encode(version, m.0) + (if version <= 0 { <Removed<Vec<String>> as Serialize>::encode(version, m.1) } else { Seq::<u8>::empty() }) + (if 1 <= version && version <= 1 { <u32 as Serialize>::encode(version, m.2.0) } else { Seq::<u8>::empty() }) + <usize as Serialize>::encode(version, m.2.1) + (if 2 <= version { <usize as Serialize>::encode(version, m.2.2) } else { Seq::<u8>::empty() }));
        assert(serializer.writer@ =~= old(serializer).writer@ + Self::encode(
            old(serializer).file_version,
            self.model(),
        ));
        Ok(())
    }
}

impl Deserialize for Version3 {
    open spec fn decode(version: u32, s: Seq<u8>) -> Option<(<(String, Removed<Vec<String>>, (u32, usize, usize)) as Model>::M, nat)> {
        match <String as Deserialize>::decode(version, s) {
            Some((v0, n0)) => match (if version <= 0 { <Removed<Vec<String>> as Deserialize>::decode(version, s.skip((n0) as int)) } else { Some(((), 0nat)) }) {
                Some((v1, n1)) => match (if 1 <= version && version <= 1 { <u32 as Deserialize>::decode(version, s.skip((n0 + n1) as int)) } else { Some((0u32, 0nat)) }) {
                    Some((v2, n2)) => match <usize as Deserialize>::decode(version, s.skip((n0 + n1 + n2) as int)) {
                        Some((v3, n3)) => match (if 2 <= version { <usize as Deserialize>::decode(version, s.skip((n0 + n1 + n2 + n3) as int)) } else { Some((0usize, 0nat)) }) {
                            Some((v4, n4)) => Some(((v0, v1, (v2, v3, v4)), n0 + n1 + n2 + n3 + n4)),
                            None => None,
                        },
                        None => None,
                    },
                    None => None,
                },
                None => None,
            },
            None => None,
        }
    }

    fn deserialize(deserializer: &mut Deserializer) -> (r: Result<Version3, SavefileError>) {
        let ghost s = deserializer.rest();
        let ghost p0 = deserializer.pos;
        let v0: String = match <String as Deserialize>::deserialize(deserializer) {
            Ok(x) => x,
            Err(e) => {
                return Err(e);
            },
        };
        assert(deserializer.rest() =~= s.skip(deserializer.pos - p0));
        let v1: Removed<Vec<String>> = if deserializer.file_version <= 0 {
            match <Removed<Vec<String>> as Deserialize>::deserialize(deserializer) {
                Ok(x) => x,
                Err(e) => {
                    return Err(e);
                },
            }
        } else {
            Removed::new()
        };
        assert(deserializer.rest() =~= s.skip(deserializer.pos - p0));
        let v2: u32 = if 1 <= deserializer.file_version && deserializer.file_version <= 1 {
            match <u32 as Deserialize>::deserialize(deserializer) {
                Ok(x) => x,
                Err(e) => {
                    return Err(e);
                },
            }
        } else {
            0
        };
        assert(deserializer.rest() =~= s.skip(deserializer.pos - p0));
        let v3: usize = match <usize as Deserialize>::deserialize(deserializer) {
            Ok(x) => x,
            Err(e) => {
                return Err(e);
            },
        };
        assert(deserializer.rest() =~= s.skip(deserializer.pos - p0));
        let v4: usize = if 2 <= deserializer.file_version {
            match <usize as Deserialize>::deserialize(deserializer) {
                Ok(x) => x,
                Err(e) => {
                    return Err(e);
                },
            }
        } else {
            0
        };
        assert(deserializer.rest() =~= s.skip(deserializer.pos - p0));
        Ok(Version3 { a: v0, b: v1, newb: v2, c: v3, d: v4 })
    }
}

impl Roundtrip for Version3 {
    open spec fn read_back(version: u32, m: <(String, Removed<Vec<String>>, (u32, usize, usize)) as Model>::M) -> <(String, Removed<Vec<String>>, (u32, usize, usize)) as Model>::M {
        (<String as Roundtrip>::read_back(version, m.0), (if version <= 0 { <Removed<Vec<String>> as Roundtrip>::read_back(version, m.1) } else { () }), ((if 1 <= version && version <= 1 { <u32 as Roundtrip>::read_back(version, m.2.0) } else { 0u32 }), <usize as Roundtrip>::read_back(version, m.2.1), (if 2 <= version { <usize as Roundtrip>::read_back(version, m.2.2) } else { 0usize })))
    }

    #[verifier::spinoff_prover]
    proof fn lemma_roundtrip(version: u32, m: <(String, Removed<Vec<String>>, (u32, usize, usize)) as Model>::M, rest: Seq<u8>) {
        let t5 = rest;
        let t4 = (if 2 <= version { <usize as Serialize>::encode(version, m.2.2) } else { Seq::<u8>::empty() }) + t5;
        let t3 = <usize as Serialize>::encode(version, m.2.1) + t4;
        let t2 = (if 1 <= version && version <= 1 { <u32 as Serialize>::encode(version, m.2.0) } else { Seq::<u8>::empty() }) + t3;
        let t1 = (if version <= 0 { <Removed<Vec<String>> as Serialize>::encode(version, m.1) } else { Seq::<u8>::empty() }) + t2;
        let t0 = <String as Serialize>::encode(version, m.0) + t1;
        <String as Roundtrip>::lemma_roundtrip(version, m.0, t1);
        if version <= 0 {
            <Removed<Vec<String>> as Roundtrip>::lemma_roundtrip(version, m.1, t2);
        }
        if 1 <= version && version <= 1 {
            <u32 as Roundtrip>::lemma_roundtrip(version, m.2.0, t3);
        }
        <usize as Roundtrip>::lemma_roundtrip(version, m.2.1, t4);
        if 2 <= version {
            <usize as Roundtrip>::lemma_roundtrip(version, m.2.2, t5);
        }
        assert(<String as Serialize>::encode(version, m.0) + (if version <= 0 { <Removed<Vec<String>> as Serialize>::encode(version, m.1) } else { Seq::<u8>::empty() }) + (if 1 <= version && version <= 1 { <u32 as Serialize>::encode(version, m.2.0) } else { Seq::<u8>::empty() }) + <usize as Serialize>::encode(version, m.2.1) + (if 2 <= version { <usize as Serialize>::encode(version, m.2.2) } else { Seq::<u8>::empty() }) + rest =~= t0);
        assert(t0.skip((<String as Serialize>::encode(version, m.0).len()) as int) =~= t1);
        assert(t0.skip((<String as Serialize>::encode(version, m.0).len() + (if version <= 0 { <Removed<Vec<String>> as Serialize>::encode(version, m.1) } else { Seq::<u8>::empty() }).len()) as int) =~= t2);
        assert(t0.skip((<String as Serialize>::encode(version, m.0).len() + (if version <= 0 { <Removed<Vec<String>> as Serialize>::encode(version, m.1) } else { Seq::<u8>::empty() }).len() + (if 1 <= version && version <= 1 { <u32 as Serialize>::encode(version, m.2.0) } else { Seq::<u8>::empty() }).len()) as int) =~= t3);
        assert(t0.skip((<String as Serialize>::encode(version, m.0).len() + (if version <= 0 { <Removed<Vec<String>> as Serialize>::encode(version, m.1) } else { Seq::<u8>::empty() }).len() + (if 1 <= version && version <= 1 { <u32 as Serialize>::encode(version, m.2.0) } else { Seq::<u8>::empty() }).len() + <usize as Serialize>::encode(version, m.2.1).len()) as int) =~= t4);
        assert(t0.skip((<String as Serialize>::encode(version, m.0).len() + (if version <= 0 { <Removed<Vec<String>> as Serialize>::encode(version, m.1) } else { Seq::<u8>::empty() }).len() + (if 1 <= version && version <= 1 { <u32 as Serialize>::encode(version, m.2.0) } else { Seq::<u8>::empty() }).len() + <usize as Serialize>::encode(version, m.2.1).len() + (if 2 <= version { <usize as Serialize>::encode(version, m.2.2) } else { Seq::<u8>::empty() }).len()) as int) =~= t5);
    }
}

impl WithSchema for Version3 {
    open spec fn schema_nodes(version: u32) -> Seq<SchemaNodeModel> {
        seq![SchemaNodeModel::Struct(("Version3"@, (2int + (if version <= 0 { 1int } else { 0int }) + (if 1 <= version && version <= 1 { 1int } else { 0int }) + (if 2 <= version { 1int } else { 0int })) as usize))]
            + seq![SchemaNodeModel::Field(("a"@, false))] + <String as WithSchema>::schema_nodes(version)
            + (if version <= 0 { seq![SchemaNodeModel::Field(("b"@, true))] + <Removed<Vec<String>> as WithSchema>::schema_nodes(version) } else { Seq::<SchemaNodeModel>::empty() })
            + (if 1 <= version && version <= 1 { seq![SchemaNodeModel::Field(("newb"@, false))] + <u32 as WithSchema>::schema_nodes(version) } else { Seq::<SchemaNodeModel>::empty() })
            + seq![SchemaNodeModel::Field(("c"@, false))] + <usize as WithSchema>::schema_nodes(version)
            + (if 2 <= version { seq![SchemaNodeModel::Field(("d"@, false))] + <usize as WithSchema>::schema_nodes(version) } else { Seq::<SchemaNodeModel>::empty() })
    }

    fn schema(version: u32, nodes: &mut Vec<SchemaNode>) {
        let mut count: usize = 0;
        count = count + 1;
        if version <= 0 {
            count = count + 1;
        }
        if 1 <= version && version <= 1 {
            count = count + 1;
        }
        count = count + 1;
        if 2 <= version {
            count = count + 1;
        }
        push_struct(nodes, "Version3", count);
        push_field(nodes, "a", false);
        <String as WithSchema>::schema(version, nodes);
        if version <= 0 {
            push_field(nodes, "b", true);
            <Removed<Vec<String>> as WithSchema>::schema(version, nodes);
        }
        if 1 <= version && version <= 1 {
            push_field(nodes, "newb", false);
            <u32 as WithSchema>::schema(version, nodes);
        }
        push_field(nodes, "c", false);
        <usize as WithSchema>::schema(version, nodes);
        if 2 <= version {
            push_field(nodes, "d", false);
            <usize as WithSchema>::schema(version, nodes);
        }
        assert(nodes.model() =~= old(nodes).model() + Self::schema_nodes(version));
    }
}

/// Three numbers.
#[derive(Debug, PartialEq)]
pub struct FastVersionA0 {
    pub a: u32,
    pub b: u32,
    pub c: u32,
}

impl Model for FastVersionA0 {
    /// The models of the fields, in order.
    type M = <(u32, u32, u32) as Model>::M;

    open spec fn model(&self) -> <(u32, u32, u32) as Model>::M {
        (self.a.model(), self.b.model(), self.c.model())
    }
}

impl Serialize for FastVersionA0 {
    open spec fn valid(version: u32, m: <(u32, u32, u32) as Model>::M) -> bool {
        <(u32, u32, u32) as Serialize>::valid(version, m)
    }

    /// The fields, one after the other.
    open spec fn encode(version: u32, m: <(u32, u32, u32) as Model>::M) -> Seq<u8> {
        <(u32, u32, u32) as Serialize>::encode(version, m)
    }

    fn serialize(&self, serializer: &mut Serializer) -> (r: Result<(), SavefileError>) {
        match self.a.serialize(serializer) {
            Ok(()) => {},
            Err(e) => {
                return Err(e);
            },
        }
        match self.b.serialize(serializer) {
            Ok(()) => {},
            Err(e) => {
                return Err(e);
            },
        }
        match self.c.serialize(serializer) {
            Ok(()) => {},
            Err(e) => {
                return Err(e);
            },
        }
        assert(serializer.writer@ =~= old(serializer).writer@ + Self::encode(
            old(serializer).file_version,
            self.model(),
        ));
        Ok(())
    }
}

impl Deserialize for FastVersionA0 {
    open spec fn decode(version: u32, s: Seq<u8>) -> Option<(<(u32, u32, u32) as Model>::M, nat)> {
        <(u32, u32, u32) as Deserialize>::decode(version, s)
    }

    fn deserialize(deserializer: &mut Deserializer) -> (r: Result<FastVersionA0, SavefileError>) {
        match <(u32, u32, u32) as Deserialize>::deserialize(deserializer) {
            Ok((v0, v1, v2)) => Ok(FastVersionA0 { a: v0, b: v1, c: v2 }),
            Err(e) => Err(e),
        }
    }
}

impl Roundtrip for FastVersionA0 {
    open spec fn read_back(version: u32, m: <(u32, u32, u32) as Model>::M) -> <(u32, u32, u32) as Model>::M {
        <(u32, u32, u32) as Roundtrip>::read_back(version, m)
    }

    #[verifier::spinoff_prover]
    proof fn lemma_roundtrip(version: u32, m: <(u32, u32, u32) as Model>::M, rest: Seq<u8>) {
        <(u32, u32, u32) as Roundtrip>::lemma_roundtrip(version, m, rest);
    }
}

impl WithSchema for FastVersionA0 {
    open spec fn schema_nodes(version: u32) -> Seq<SchemaNodeModel> {
        seq![SchemaNodeModel::Struct(("FastVersionA0"@, 3usize))]
            + seq![SchemaNodeModel::Field(("a"@, false))] + <u32 as WithSchema>::schema_nodes(version)
            + seq![SchemaNodeModel::Field(("b"@, false))] + <u32 as WithSchema>::schema_nodes(version)
            + seq![SchemaNodeModel::Field(("c"@, false))] + <u32 as WithSchema>::schema_nodes(version)
    }

    fn schema(version: u32, nodes: &mut Vec<SchemaNode>) {
        let count: usize = 3;
        push_struct(nodes, "FastVersionA0", count);
        push_field(nodes, "a", false);
        <u32 as WithSchema>::schema(version, nodes);
        push_field(nodes, "b", false);
        <u32 as WithSchema>::schema(version, nodes);
        push_field(nodes, "c", false);
        <u32 as WithSchema>::schema(version, nodes);
        assert(nodes.model() =~= old(nodes).model() + Self::schema_nodes(version));
    }
}

/// Three numbers, the middle one gone after data version 0.
#[derive(Debug, PartialEq)]
pub struct FastVersionA1 {
    pub a: u32,
    pub b: Removed<u32>,
    pub c: u32,
}

impl Model for FastVersionA1 {
    /// The models of the fields, in order.
    type M = <(u32, Removed<u32>, u32) as Model>::M;

    open spec fn model(&self) -> <(u32, Removed<u32>, u32) as Model>::M {
        (self.a.model(), self.b.model(), self.c.model())
    }
}

impl Serialize for FastVersionA1 {
    open spec fn valid(version: u32, m: <(u32, Removed<u32>, u32) as Model>::M) -> bool {
        <u32 as Serialize>::valid(version, m.0) && (version <= 0 ==> <Removed<u32> as Serialize>::valid(version, m.1)) && <u32 as Serialize>::valid(version, m.2)
    }

    /// The fields that the data version holds, one after the other.
    open spec fn encode(version: u32, m: <(u32, Removed<u32>, u32) as Model>::M) -> Seq<u8> {
        <u32 as Serialize>::encode(version, m.0) + (if version <= 0 { <Removed<u32> as Serialize>::encode(version, m.1) } else { Seq::<u8>::empty() }) + <u32 as Serialize>::encode(version, m.2)
    }

    fn serialize(&self, serializer: &mut Serializer) -> (r: Result<(), SavefileError>) {
        let ghost version = serializer.file_version;
        let ghost m = self.model();
        let ghost start = serializer.writer@;
        match self.a.serialize(serializer) {
            Ok(()) => {},
            Err(e) => {
                return Err(e);
            },
        }
        assert(serializer.writer@ =~= start + <u32 as Serialize>::encode(version, m.0));
        if serializer.file_version <= 0 {
            match self.b.serialize(serializer) {
                Ok(()) => {},
                Err(e) => {
                    return Err(e);
                },
            }
        }
        assert(serializer.writer@ =~= start + <u32 as Serialize>::encode(version, m.0) + (if version <= 0 { <Removed<u32> as Serialize>::encode(version, m.1) } else { Seq::<u8>::empty() }));
        match self.c.serialize(serializer) {
            Ok(()) => {},
            Err(e) => {
                return Err(e);
            },
        }
        assert(serializer.writer@ =~= start + <u32 as Serialize>::encode(version, m.0) + (if version <= 0 { <Removed<u32> as Serialize>::encode(version, m.1) } else { Seq::<u8>::empty() }) + <u32 as Serialize>::encode(version, m.2));
        assert(serializer.writer@ =~= old(serializer).writer@ + Self::encode(
            old(serializer).file_version,
            self.model(),
        ));
        Ok(())
    }
}

impl Deserialize for FastVersionA1 {
    open spec fn decode(version: u32, s: Seq<u8>) -> Option<(<(u32, Removed<u32>, u32) as Model>::M, nat)> {
        match <u32 as Deserialize>::decode(version, s) {
            Some((v0, n0)) => match (if version <= 0 { <Removed<u32> as Deserialize>::decode(version, s.skip((n0) as int)) } else { Some(((), 0nat)) }) {
                Some((v1, n1)) => match <u32 as Deserialize>::decode(version, s.skip((n0 + n1) as int)) {
                    Some((v2, n2)) => Some(((v0, v1, v2), n0 + n1 + n2)),
                    None => None,
                },
                None => None,
            },
            None => None,
        }
    }

    fn deserialize(deserializer: &mut Deserializer) -> (r: Result<FastVersionA1, SavefileError>) {
        let ghost s = deserializer.rest();
        let ghost p0 = deserializer.pos;
        let v0: u32 = match <u32 as Deserialize>::deserialize(deserializer) {
            Ok(x) => x,
            Err(e) => {
                return Err(e);
            },
        };
        assert(deserializer.rest() =~= s.skip(deserializer.pos - p0));
        let v1: Removed<u32> = if deserializer.file_version <= 0 {
            match <Removed<u32> as Deserialize>::deserialize(deserializer) {
                Ok(x) => x,
                Err(e) => {
                    return Err(e);
                },
            }
        } else {
            Removed::new()
        };
        assert(deserializer.rest() =~= s.skip(deserializer.pos - p0));
        let v2: u32 = match <u32 as Deserialize>::deserialize(deserializer) {
            Ok(x) => x,
            Err(e) => {
                return Err(e);
            },
        };
        assert(deserializer.rest() =~= s.skip(deserializer.pos - p0));
        Ok(FastVersionA1 { a: v0, b: v1, c: v2 })
    }
}

impl Roundtrip for FastVersionA1 {
    open spec fn read_back(version: u32, m: <(u32, Removed<u32>, u32) as Model>::M) -> <(u32, Removed<u32>, u32) as Model>::M {
        (<u32 as Roundtrip>::read_back(version, m.0), (if version <= 0 { <Removed<u32> as Roundtrip>::read_back(version, m.1) } else { () }), <u32 as Roundtrip>::read_back(version, m.2))
    }

    #[verifier::spinoff_prover]
    proof fn lemma_roundtrip(version: u32, m: <(u32, Removed<u32>, u32) as Model>::M, rest: Seq<u8>) {
        let t3 = rest;
        let t2 = <u32 as Serialize>::encode(version, m.2) + t3;
        let t1 = (if version <= 0 { <Removed<u32> as Serialize>::encode(version, m.1) } else { Seq::<u8>::empty() }) + t2;
        let t0 = <u32 as Serialize>::encode(version, m.0) + t1;
        <u32 as Roundtrip>::lemma_roundtrip(version, m.0, t1);
        if version <= 0 {
            <Removed<u32> as Roundtrip>::lemma_roundtrip(version, m.1, t2);
        }
        <u32 as Roundtrip>::lemma_roundtrip(version, m.2, t3);
        assert(<u32 as Serialize>::encode(version, m.0) + (if version <= 0 { <Removed<u32> as Serialize>::encode(version, m.1) } else { Seq::<u8>::empty() }) + <u32 as Serialize>::encode(version, m.2) + rest =~= t0);
        assert(t0.skip((<u32 as Serialize>::encode(version, m.0).len()) as int) =~= t1);
        assert(t0.skip((<u32 as Serialize>::encode(version, m.0).len() + (if version <= 0 { <Removed<u32> as Serialize>::encode(version, m.1) } else { Seq::<u8>::empty() }).len()) as int) =~= t2);
        assert(t0.skip((<u32 as Serialize>::encode(version, m.0).len() + (if version <= 0 { <Removed<u32> as Serialize>::encode(version, m.1) } else { Seq::<u8>::empty() }).len() + <u32 as Serialize>::encode(version, m.2).len()) as int) =~= t3);
    }
}

impl WithSchema for FastVersionA1 {
    open spec fn schema_nodes(version: u32) -> Seq<SchemaNodeModel> {
        seq![SchemaNodeModel::Struct(("FastVersionA1"@, (2int + (if version <= 0 { 1int } else { 0int })) as usize))]
            + seq![SchemaNodeModel::Field(("a"@, false))] + <u32 as WithSchema>::schema_nodes(version)
            + (if version <= 0 { seq![SchemaNodeModel::Field(("b"@, true))] + <Removed<u32> as WithSchema>::schema_nodes(version) } else { Seq::<SchemaNodeModel>::empty() })
            + seq![SchemaNodeModel::Field(("c"@, false))] + <u32 as WithSchema>::schema_nodes(version)
    }

    fn schema(version: u32, nodes: &mut Vec<SchemaNode>) {
        let mut count: usize = 0;
        count = count + 1;
        if version <= 0 {
            count = count + 1;
        }
        count = count + 1;
        push_struct(nodes, "FastVersionA1", count);
        push_field(nodes, "a", false);
        <u32 as WithSchema>::schema(version, nodes);
        if version <= 0 {
            push_field(nodes, "b", true);
            <Removed<u32> as WithSchema>::schema(version, nodes);
        }
        push_field(nodes, "c", false);
        <u32 as WithSchema>::schema(version, nodes);
        assert(nodes.model() =~= old(nodes).model() + Self::schema_nodes(version));
    }
}

/// Two numbers.
#[derive(Debug, PartialEq)]
pub struct FastVersionB0 {
    pub a: u32,
    pub b: u32,
}

impl Model for FastVersionB0 {
    /// The models of the fields, in order.
    type M = <(u32, u32) as Model>::M;

    open spec fn model(&self) -> <(u32, u32) as Model>::M {
        (self.a.model(), self.b.model())
    }
}

impl Serialize for FastVersionB0 {
    open spec fn valid(version: u32, m: <(u32, u32) as Model>::M) -> bool {
        <(u32, u32) as Serialize>::valid(version, m)
    }

    /// The fields, one after the other.
    open spec fn encode(version: u32, m: <(u32, u32) as Model>::M) -> Seq<u8> {
        <(u32, u32) as Serialize>::encode(version, m)
    }

    fn serialize(&self, serializer: &mut Serializer) -> (r: Result<(), SavefileError>) {
        match self.a.serialize(serializer) {
            Ok(()) => {},
            Err(e) => {
                return Err(e);
            },
        }
        match self.b.serialize(serializer) {
            Ok(()) => {},
            Err(e) => {
                return Err(e);
            },
        }
        assert(serializer.writer@ =~= old(serializer).writer@ + Self::encode(
            old(serializer).file_version,
            self.model(),
        ));
        Ok(())
    }
}

impl Deserialize for FastVersionB0 {
    open spec fn decode(version: u32, s: Seq<u8>) -> Option<(<(u32, u32) as Model>::M, nat)> {
        <(u32, u32) as Deserialize>::decode(version, s)
    }

    fn deserialize(deserializer: &mut Deserializer) -> (r: Result<FastVersionB0, SavefileError>) {
        match <(u32, u32) as Deserialize>::deserialize(deserializer) {
            Ok((v0, v1)) => Ok(FastVersionB0 { a: v0, b: v1 }),
            Err(e) => Err(e),
        }
    }
}

impl Roundtrip for FastVersionB0 {
    open spec fn read_back(version: u32, m: <(u32, u32) as Model>::M) -> <(u32, u32) as Model>::M {
        <(u32, u32) as Roundtrip>::read_back(version, m)
    }

    #[verifier::spinoff_prover]
    proof fn lemma_roundtrip(version: u32, m: <(u32, u32) as Model>::M, rest: Seq<u8>) {
        <(u32, u32) as Roundtrip>::lemma_roundtrip(version, m, rest);
    }
}

impl WithSchema for FastVersionB0 {
    open spec fn schema_nodes(version: u32) -> Seq<SchemaNodeModel> {
        seq![SchemaNodeModel::Struct(("FastVersionB0"@, 2usize))]
            + seq![SchemaNodeModel::Field(("a"@, false))] + <u32 as WithSchema>::schema_nodes(version)
            + seq![SchemaNodeModel::Field(("b"@, false))] + <u32 as WithSchema>::schema_nodes(version)
    }

    fn schema(version: u32, nodes: &mut Vec<SchemaNode>) {
        let count: usize = 2;
        push_struct(nodes, "FastVersionB0", count);
        push_field(nodes, "a", false);
        <u32 as WithSchema>::schema(version, nodes);
        push_field(nodes, "b", false);
        <u32 as WithSchema>::schema(version, nodes);
        assert(nodes.model() =~= old(nodes).model() + Self::schema_nodes(version));
    }
}

/// Two numbers, and a third from data version 1.
#[derive(Debug, PartialEq)]
pub struct FastVersionB1 {
    pub a: u32,
    pub b: u32,
    pub c: u32,
}

impl Model for FastVersionB1 {
    /// The models of the fields, in order.
    type M = <(u32, u32, u32) as Model>::M;

    open spec fn model(&self) -> <(u32, u32, u32) as Model>::M {
        (self.a.model(), self.b.model(), self.c.model())
    }
}

impl Serialize for FastVersionB1 {
    open spec fn valid(version: u32, m: <(u32, u32, u32) as Model>::M) -> bool {
        <u32 as Serialize>::valid(version, m.0) && <u32 as Serialize>::valid(version, m.1) && (1 <= version ==> <u32 as Serialize>::valid(version, m.2))
    }

    /// The fields that the data version holds, one after the other.
    open spec fn encode(version: u32, m: <(u32, u32, u32) as Model>::M) -> Seq<u8> {
        <u32 as Serialize>::encode(version, m.0) + <u32 as Serialize>::encode(version, m.1) + (if 1 <= version { <u32 as Serialize>::encode(version, m.2) } else { Seq::<u8>::empty() })
    }

    fn serialize(&self, serializer: &mut Serializer) -> (r: Result<(), SavefileError>) {
        let ghost version = serializer.file_version;
        let ghost m = self.model();
        let ghost start = serializer.writer@;
        match self.a.serialize(serializer) {
            Ok(()) => {},
            Err(e) => {
                return Err(e);
            },
        }
        assert(serializer.writer@ =~= start + <u32 as Serialize>::encode(version, m.0));
        match self.b.serialize(serializer) {
            Ok(()) => {},
            Err(e) => {
                return Err(e);
            },
        }
        assert(serializer.writer@ =~= start + <u32 as Serialize>::encode(version, m.0) + <u32 as Serialize>::encode(version, m.1));
        if 1 <= serializer.file_version {
            match self.c.serialize(serializer) {
                Ok(()) => {},
                Err(e) => {
                    return Err(e);
                },
            }
        }
        assert(serializer.writer@ =~= start + <u32 as Serialize>::encode(version, m.0) + <u32 as Serialize>::encode(version, m.1) + (if 1 <= version { <u32 as Serialize>::encode(version, m.2) } else { Seq::<u8>::empty() }));
        assert(serializer.writer@ =~= old(serializer).writer@ + Self::encode(
            old(serializer).file_version,
            self.model(),
        ));
        Ok(())
    }
}

impl Deserialize for FastVersionB1 {
    open spec fn decode(version: u32, s: Seq<u8>) -> Option<(<(u32, u32, u32) as Model>::M, nat)> {
        match <u32 as Deserialize>::decode(version, s) {
            Some((v0, n0)) => match <u32 as Deserialize>::decode(version, s.skip((n0) as int)) {
                Some((v1, n1)) => match (if 1 <= version { <u32 as Deserialize>::decode(version, s.skip((n0 + n1) as int)) } else { Some((0u32, 0nat)) }) {
                    Some((v2, n2)) => Some(((v0, v1, v2), n0 + n1 + n2)),
                    None => None,
                },
                None => None,
            },
            None => None,
        }
    }

    fn deserialize(deserializer: &mut Deserializer) -> (r: Result<FastVersionB1, SavefileError>) {
        let ghost s = deserializer.rest();
        let ghost p0 = deserializer.pos;
        let v0: u32 = match <u32 as Deserialize>::deserialize(deserializer) {
            Ok(x) => x,
            Err(e) => {
                return Err(e);
            },
        };
        assert(deserializer.rest() =~= s.skip(deserializer.pos - p0));
        let v1: u32 = match <u32 as Deserialize>::deserialize(deserializer) {
            Ok(x) => x,
            Err(e) => {
                return Err(e);
            },
        };
        assert(deserializer.rest() =~= s.skip(deserializer.pos - p0));
        let v2: u32 = if 1 <= deserializer.file_version {
            match <u32 as Deserialize>::deserialize(deserializer) {
                Ok(x) => x,
                Err(e) => {
                    return Err(e);
                },
            }
        } else {
            0
        };
        assert(deserializer.rest() =~= s.skip(deserializer.pos - p0));
        Ok(FastVersionB1 { a: v0, b: v1, c: v2 })
    }
}

impl Roundtrip for FastVersionB1 {
    open spec fn read_back(version: u32, m: <(u32, u32, u32) as Model>::M) -> <(u32, u32, u32) as Model>::M {
        (<u32 as Roundtrip>::read_back(version, m.0), <u32 as Roundtrip>::read_back(version, m.1), (if 1 <= version { <u32 as Roundtrip>::read_back(version, m.2) } else { 0u32 }))
    }

    #[verifier::spinoff_prover]
    proof fn lemma_roundtrip(version: u32, m: <(u32, u32, u32) as Model>::M, rest: Seq<u8>) {
        let t3 = rest;
        let t2 = (if 1 <= version { <u32 as Serialize>::encode(version, m.2) } else { Seq::<u8>::empty() }) + t3;
        let t1 = <u32 as Serialize>::encode(version, m.1) + t2;
        let t0 = <u32 as Serialize>::encode(version, m.0) + t1;
        <u32 as Roundtrip>::lemma_roundtrip(version, m.0, t1);
        <u32 as Roundtrip>::lemma_roundtrip(version, m.1, t2);
        if 1 <= version {
            <u32 as Roundtrip>::lemma_roundtrip(version, m.2, t3);
        }
        assert(<u32 as Serialize>::encode(version, m.0) + <u32 as Serialize>::encode(version, m.1) + (if 1 <= version { <u32 as Serialize>::encode(version, m.2) } else { Seq::<u8>::empty() }) + rest =~= t0);
        assert(t0.skip((<u32 as Serialize>::encode(version, m.0).len()) as int) =~= t1);
        assert(t0.skip((<u32 as Serialize>::encode(version, m.0).len() + <u32 as Serialize>::encode(version, m.1).len()) as int) =~= t2);
        assert(t0.skip((<u32 as Serialize>::encode(version, m.0).len() + <u32 as Serialize>::encode(version, m.1).len() + (if 1 <= version { <u32 as Serialize>::encode(version, m.2) } else { Seq::<u8>::empty() }).len()) as int) =~= t3);
    }
}

impl WithSchema for FastVersionB1 {
    open spec fn schema_nodes(version: u32) -> Seq<SchemaNodeModel> {
        seq![SchemaNodeModel::Struct(("FastVersionB1"@, (2int + (if 1 <= version { 1int } else { 0int })) as usize))]
            + seq![SchemaNodeModel::Field(("a"@, false))] + <u32 as WithSchema>::schema_nodes(version)
            + seq![SchemaNodeModel::Field(("b"@, false))] + <u32 as WithSchema>::schema_nodes(version)
            + (if 1 <= version { seq![SchemaNodeModel::Field(("c"@, false))] + <u32 as WithSchema>::schema_nodes(version) } else { Seq::<SchemaNodeModel>::empty() })
    }

    fn schema(version: u32, nodes: &mut Vec<SchemaNode>) {
        let mut count: usize = 0;
        count = count + 1;
        count = count + 1;
        if 1 <= version {
            count = count + 1;
        }
        push_struct(nodes, "FastVersionB1", count);
        push_field(nodes, "a", false);
        <u32 as WithSchema>::schema(version, nodes);
        push_field(nodes, "b", false);
        <u32 as WithSchema>::schema(version, nodes);
        if 1 <= version {
            push_field(nodes, "c", false);
            <u32 as WithSchema>::schema(version, nodes);
        }
        assert(nodes.model() =~= old(nodes).model() + Self::schema_nodes(version));
    }
}

/// The first version of an enum.
#[derive(Debug, PartialEq)]
pub enum EnumVer1 {
    Variant1,
    Variant2,
}

/// The model of a [`EnumVer1`]: the same variant, with the models of its fields.
pub enum EnumVer1Model {
    Variant1,
    Variant2,
}

impl Model for EnumVer1 {
    type M = EnumVer1Model;

    open spec fn model(&self) -> EnumVer1Model {
        match self {
            EnumVer1::Variant1 => EnumVer1Model::Variant1,
            EnumVer1::Variant2 => EnumVer1Model::Variant2,
        }
    }
}

impl Serialize for EnumVer1 {
    open spec fn valid(version: u32, m: EnumVer1Model) -> bool {
        match m {
            EnumVer1Model::Variant1 => true,
            EnumVer1Model::Variant2 => true,
        }
    }

    /// The position of the variant in the declaration, as 1 byte(s), then the fields of the variant.
    open spec fn encode(version: u32, m: EnumVer1Model) -> Seq<u8> {
        match m {
            EnumVer1Model::Variant1 => le_bytes(0, 1),
            EnumVer1Model::Variant2 => le_bytes(1, 1),
        }
    }

    fn serialize(&self, serializer: &mut Serializer) -> (r: Result<(), SavefileError>) {
        let ghost version = serializer.file_version;
        let ghost start0 = serializer.writer@;
        match self {
            EnumVer1::Variant1 => {
                serializer.write_u8(0);
            },
            EnumVer1::Variant2 => {
                serializer.write_u8(1);
            },
        }
        assert(serializer.writer@ =~= old(serializer).writer@ + Self::encode(
            old(serializer).file_version,
            self.model(),
        ));
        Ok(())
    }
}

impl Deserialize for EnumVer1 {
    /// Unknown variant numbers are refused.
    open spec fn decode(version: u32, s: Seq<u8>) -> Option<(EnumVer1Model, nat)> {
        if s.len() < 1 {
            None
        } else if le_value(s.take(1)) == 0 {
            Some((EnumVer1Model::Variant1, 1))
        } else if le_value(s.take(1)) == 1 {
            Some((EnumVer1Model::Variant2, 1))
        } else {
            None
        }
    }

    fn deserialize(deserializer: &mut Deserializer) -> (r: Result<EnumVer1, SavefileError>) {
        let ghost s0 = deserializer.rest();
        let tag = match deserializer.read_uint(1) {
            Ok(t) => t,
            Err(e) => {
                return Err(e);
            },
        };
        assert(deserializer.rest() =~= s0.skip(1));
        if tag == 0 {
            Ok(EnumVer1::Variant1)
        } else if tag == 1 {
            Ok(EnumVer1::Variant2)
        } else {
            Err(SavefileError::BadDiscriminant)
        }
    }
}

impl Roundtrip for EnumVer1 {
    open spec fn read_back(version: u32, m: EnumVer1Model) -> EnumVer1Model {
        match m {
            EnumVer1Model::Variant1 => EnumVer1Model::Variant1,
            EnumVer1Model::Variant2 => EnumVer1Model::Variant2,
        }
    }

    #[verifier::spinoff_prover]
    proof fn lemma_roundtrip(version: u32, m: EnumVer1Model, rest: Seq<u8>) {
        reveal_with_fuel(pow256, 2);
        let all = Self::encode(version, m) + rest;
        match m {
            EnumVer1Model::Variant1 => {
                lemma_le_roundtrip(0, 1);
                assert(all.take(1) =~= le_bytes(0, 1));
            },
            EnumVer1Model::Variant2 => {
                lemma_le_roundtrip(1, 1);
                assert(all.take(1) =~= le_bytes(1, 1));
            },
        }
    }
}

impl WithSchema for EnumVer1 {
    open spec fn schema_nodes(version: u32) -> Seq<SchemaNodeModel> {
        seq![SchemaNodeModel::Enum(("EnumVer1"@, 1u8, 2usize))]
            + seq![SchemaNodeModel::Variant(("Variant1"@, 0usize))]
            + seq![SchemaNodeModel::Variant(("Variant2"@, 0usize))]
    }

    fn schema(version: u32, nodes: &mut Vec<SchemaNode>) {
        let count: usize = 2;
        push_enum(nodes, "EnumVer1", 1, count);
        let c0: usize = 0;
        push_variant(nodes, "Variant1", c0);
        let c1: usize = 0;
        push_variant(nodes, "Variant2", c1);
        assert(nodes.model() =~= old(nodes).model() + Self::schema_nodes(version));
    }
}

/// The second version of the enum: a variant from data version 1 on.
#[derive(Debug, PartialEq)]
pub enum EnumVer2 {
    Variant1,
    Variant2,
    Variant3,
}

/// The model of a [`EnumVer2`]: the same variant, with the models of its fields.
pub enum EnumVer2Model {
    Variant1,
    Variant2,
    Variant3,
}

impl Model for EnumVer2 {
    type M = EnumVer2Model;

    open spec fn model(&self) -> EnumVer2Model {
        match self {
            EnumVer2::Variant1 => EnumVer2Model::Variant1,
            EnumVer2::Variant2 => EnumVer2Model::Variant2,
            EnumVer2::Variant3 => EnumVer2Model::Variant3,
        }
    }
}

impl Serialize for EnumVer2 {
    open spec fn valid(version: u32, m: EnumVer2Model) -> bool {
        match m {
            EnumVer2Model::Variant1 => true,
            EnumVer2Model::Variant2 => true,
            EnumVer2Model::Variant3 => 1 <= version && (true),
        }
    }

    /// The position of the variant in the declaration, as 1 byte(s), then the fields of the variant.
    open spec fn encode(version: u32, m: EnumVer2Model) -> Seq<u8> {
        match m {
            EnumVer2Model::Variant1 => le_bytes(0, 1),
            EnumVer2Model::Variant2 => le_bytes(1, 1),
            EnumVer2Model::Variant3 => le_bytes(2, 1),
        }
    }

    fn serialize(&self, serializer: &mut Serializer) -> (r: Result<(), SavefileError>) {
        let ghost version = serializer.file_version;
        let ghost start0 = serializer.writer@;
        match self {
            EnumVer2::Variant1 => {
                serializer.write_u8(0);
            },
            EnumVer2::Variant2 => {
                serializer.write_u8(1);
            },
            EnumVer2::Variant3 => {
                if !(1 <= serializer.file_version) {
                    return Err(SavefileError::WrongVersion);
                }
                serializer.write_u8(2);
            },
        }
        assert(serializer.writer@ =~= old(serializer).writer@ + Self::encode(
            old(serializer).file_version,
            self.model(),
        ));
        Ok(())
    }
}

impl Deserialize for EnumVer2 {
    /// Unknown variant numbers are refused.
    open spec fn decode(version: u32, s: Seq<u8>) -> Option<(EnumVer2Model, nat)> {
        if s.len() < 1 {
            None
        } else if le_value(s.take(1)) == 0 {
            Some((EnumVer2Model::Variant1, 1))
        } else if le_value(s.take(1)) == 1 {
            Some((EnumVer2Model::Variant2, 1))
        } else if le_value(s.take(1)) == 2 {
            Some((EnumVer2Model::Variant3, 1))
        } else {
            None
        }
    }

    fn deserialize(deserializer: &mut Deserializer) -> (r: Result<EnumVer2, SavefileError>) {
        let ghost s0 = deserializer.rest();
        let tag = match deserializer.read_uint(1) {
            Ok(t) => t,
            Err(e) => {
                return Err(e);
            },
        };
        assert(deserializer.rest() =~= s0.skip(1));
        if tag == 0 {
            Ok(EnumVer2::Variant1)
        } else if tag == 1 {
            Ok(EnumVer2::Variant2)
        } else if tag == 2 {
            Ok(EnumVer2::Variant3)
        } else {
            Err(SavefileError::BadDiscriminant)
        }
    }
}

impl Roundtrip for EnumVer2 {
    open spec fn read_back(version: u32, m: EnumVer2Model) -> EnumVer2Model {
        match m {
            EnumVer2Model::Variant1 => EnumVer2Model::Variant1,
            EnumVer2Model::Variant2 => EnumVer2Model::Variant2,
            EnumVer2Model::Variant3 => EnumVer2Model::Variant3,
        }
    }

    #[verifier::spinoff_prover]
    proof fn lemma_roundtrip(version: u32, m: EnumVer2Model, rest: Seq<u8>) {
        reveal_with_fuel(pow256, 2);
        let all = Self::encode(version, m) + rest;
        match m {
            EnumVer2Model::Variant1 => {
                lemma_le_roundtrip(0, 1);
                assert(all.take(1) =~= le_bytes(0, 1));
            },
            EnumVer2Model::Variant2 => {
                lemma_le_roundtrip(1, 1);
                assert(all.take(1) =~= le_bytes(1, 1));
            },
            EnumVer2Model::Variant3 => {
                lemma_le_roundtrip(2, 1);
                assert(all.take(1) =~= le_bytes(2, 1));
            },
        }
    }
}

impl WithSchema for EnumVer2 {
    open spec fn schema_nodes(version: u32) -> Seq<SchemaNodeModel> {
        seq![SchemaNodeModel::Enum(("EnumVer2"@, 1u8, (2int + (if 1 <= version { 1int } else { 0int })) as usize))]
            + seq![SchemaNodeModel::Variant(("Variant1"@, 0usize))]
            + seq![SchemaNodeModel::Variant(("Variant2"@, 0usize))]
            + (if 1 <= version { seq![SchemaNodeModel::Variant(("Variant3"@, 0usize))] } else { Seq::<SchemaNodeModel>::empty() })
    }

    fn schema(version: u32, nodes: &mut Vec<SchemaNode>) {
        let mut count: usize = 0;
        count = count + 1;
        count = count + 1;
        if 1 <= version {
            count = count + 1;
        }
        push_enum(nodes, "EnumVer2", 1, count);
        let c0: usize = 0;
        push_variant(nodes, "Variant1", c0);
        let c1: usize = 0;
        push_variant(nodes, "Variant2", c1);
        if 1 <= version {
            let c2: usize = 0;
            push_variant(nodes, "Variant3", c2);
        }
        assert(nodes.model() =~= old(nodes).model() + Self::schema_nodes(version));
    }
}

/// An enum whose variant has two named fields.
#[derive(Debug, PartialEq)]
pub enum EnumVerA1 {
    Variant1,
    Variant2 { x: u32, y: u32 },
}

/// The model of a [`EnumVerA1`]: the same variant, with the models of its fields.
pub enum EnumVerA1Model {
    Variant1,
    Variant2(<(u32, u32) as Model>::M),
}

impl Model for EnumVerA1 {
    type M = EnumVerA1Model;

    open spec fn model(&self) -> EnumVerA1Model {
        match self {
            EnumVerA1::Variant1 => EnumVerA1Model::Variant1,
            EnumVerA1::Variant2 { x: f0, y: f1 } => EnumVerA1Model::Variant2((f0.model(), f1.model())),
        }
    }
}

impl Serialize for EnumVerA1 {
    open spec fn valid(version: u32, m: EnumVerA1Model) -> bool {
        match m {
            EnumVerA1Model::Variant1 => true,
            EnumVerA1Model::Variant2(t) => <(u32, u32) as Serialize>::valid(version, t),
        }
    }

    /// The position of the variant in the declaration, as 1 byte(s), then the fields of the variant.
    open spec fn encode(version: u32, m: EnumVerA1Model) -> Seq<u8> {
        match m {
            EnumVerA1Model::Variant1 => le_bytes(0, 1),
            EnumVerA1Model::Variant2(t) => le_bytes(1, 1) + <(u32, u32) as Serialize>::encode(version, t),
        }
    }

    fn serialize(&self, serializer: &mut Serializer) -> (r: Result<(), SavefileError>) {
        let ghost version = serializer.file_version;
        let ghost start0 = serializer.writer@;
        match self {
            EnumVerA1::Variant1 => {
                serializer.write_u8(0);
            },
            EnumVerA1::Variant2 { x: f0, y: f1 } => {
                serializer.write_u8(1);
                match f0.serialize(serializer) {
                    Ok(()) => {},
                    Err(e) => {
                        return Err(e);
                    },
                }
                match f1.serialize(serializer) {
                    Ok(()) => {},
                    Err(e) => {
                        return Err(e);
                    },
                }
            },
        }
        assert(serializer.writer@ =~= old(serializer).writer@ + Self::encode(
            old(serializer).file_version,
            self.model(),
        ));
        Ok(())
    }
}

impl Deserialize for EnumVerA1 {
    /// Unknown variant numbers are refused.
    open spec fn decode(version: u32, s: Seq<u8>) -> Option<(EnumVerA1Model, nat)> {
        if s.len() < 1 {
            None
        } else if le_value(s.take(1)) == 0 {
            Some((EnumVerA1Model::Variant1, 1))
        } else if le_value(s.take(1)) == 1 {
            match <(u32, u32) as Deserialize>::decode(version, s.skip(1)) {
                Some((t, n)) => Some((EnumVerA1Model::Variant2(t), n + 1)),
                None => None,
            }
        } else {
            None
        }
    }

    fn deserialize(deserializer: &mut Deserializer) -> (r: Result<EnumVerA1, SavefileError>) {
        let ghost s0 = deserializer.rest();
        let tag = match deserializer.read_uint(1) {
            Ok(t) => t,
            Err(e) => {
                return Err(e);
            },
        };
        assert(deserializer.rest() =~= s0.skip(1));
        if tag == 0 {
            Ok(EnumVerA1::Variant1)
        } else if tag == 1 {
            match <(u32, u32) as Deserialize>::deserialize(deserializer) {
                Ok((v0, v1)) => Ok(EnumVerA1::Variant2 { x: v0, y: v1 }),
                Err(e) => Err(e),
            }
        } else {
            Err(SavefileError::BadDiscriminant)
        }
    }
}

impl Roundtrip for EnumVerA1 {
    open spec fn read_back(version: u32, m: EnumVerA1Model) -> EnumVerA1Model {
        match m {
            EnumVerA1Model::Variant1 => EnumVerA1Model::Variant1,
            EnumVerA1Model::Variant2(t) => EnumVerA1Model::Variant2(<(u32, u32) as Roundtrip>::read_back(version, t)),
        }
    }

    #[verifier::spinoff_prover]
    proof fn lemma_roundtrip(version: u32, m: EnumVerA1Model, rest: Seq<u8>) {
        reveal_with_fuel(pow256, 2);
        let all = Self::encode(version, m) + rest;
        match m {
            EnumVerA1Model::Variant1 => {
                lemma_le_roundtrip(0, 1);
                assert(all.take(1) =~= le_bytes(0, 1));
            },
            EnumVerA1Model::Variant2(t) => {
                lemma_le_roundtrip(1, 1);
                assert(all.take(1) =~= le_bytes(1, 1));
                assert(all.skip(1) =~= <(u32, u32) as Serialize>::encode(version, t) + rest);
                <(u32, u32) as Roundtrip>::lemma_roundtrip(version, t, rest);
            },
        }
    }
}

impl WithSchema for EnumVerA1 {
    open spec fn schema_nodes(version: u32) -> Seq<SchemaNodeModel> {
        seq![SchemaNodeModel::Enum(("EnumVerA1"@, 1u8, 2usize))]
            + seq![SchemaNodeModel::Variant(("Variant1"@, 0usize))]
            + seq![SchemaNodeModel::Variant(("Variant2"@, 2usize))] + seq![SchemaNodeModel::Field(("x"@, false))] + <u32 as WithSchema>::schema_nodes(version) + seq![SchemaNodeModel::Field(("y"@, false))] + <u32 as WithSchema>::schema_nodes(version)
    }

    fn schema(version: u32, nodes: &mut Vec<SchemaNode>) {
        let count: usize = 2;
        push_enum(nodes, "EnumVerA1", 1, count);
        let c0: usize = 0;
        push_variant(nodes, "Variant1", c0);
        let c1: usize = 2;
        push_variant(nodes, "Variant2", c1);
        push_field(nodes, "x", false);
        <u32 as WithSchema>::schema(version, nodes);
        push_field(nodes, "y", false);
        <u32 as WithSchema>::schema(version, nodes);
        assert(nodes.model() =~= old(nodes).model() + Self::schema_nodes(version));
    }
}

/// The same enum, its variant's second field gone after data version 0.
#[derive(Debug, PartialEq)]
pub enum EnumVerA2 {
    Variant1,
    Variant2 { x: u32, y: Removed<u32> },
}

/// The model of a [`EnumVerA2`]: the same variant, with the models of its fields.
pub enum EnumVerA2Model {
    Variant1,
    Variant2(<(u32, Removed<u32>) as Model>::M),
}

impl Model for EnumVerA2 {
    type M = EnumVerA2Model;

    open spec fn model(&self) -> EnumVerA2Model {
        match self {
            EnumVerA2::Variant1 => EnumVerA2Model::Variant1,
            EnumVerA2::Variant2 { x: f0, y: f1 } => EnumVerA2Model::Variant2((f0.model(), f1.model())),
        }
    }
}

impl Serialize for EnumVerA2 {
    open spec fn valid(version: u32, m: EnumVerA2Model) -> bool {
        match m {
            EnumVerA2Model::Variant1 => true,
            EnumVerA2Model::Variant2(t) => <u32 as Serialize>::valid(version, t.0) && (version <= 0 ==> <Removed<u32> as Serialize>::valid(version, t.1)),
        }
    }

    /// The position of the variant in the declaration, as 1 byte(s), then the fields of the variant.
    open spec fn encode(version: u32, m: EnumVerA2Model) -> Seq<u8> {
        match m {
            EnumVerA2Model::Variant1 => le_bytes(0, 1),
            EnumVerA2Model::Variant2(t) => le_bytes(1, 1) + <u32 as Serialize>::encode(version, t.0) + (if version <= 0 { <Removed<u32> as Serialize>::encode(version, t.1) } else { Seq::<u8>::empty() }),
        }
    }

    fn serialize(&self, serializer: &mut Serializer) -> (r: Result<(), SavefileError>) {
        let ghost version = serializer.file_version;
        let ghost start0 = serializer.writer@;
        match self {
            EnumVerA2::Variant1 => {
                serializer.write_u8(0);
            },
            EnumVerA2::Variant2 { x: f0, y: f1 } => {
                serializer.write_u8(1);
                let ghost m = (f0.model(), f1.model());
                let ghost start = serializer.writer@;
                match f0.serialize(serializer) {
                    Ok(()) => {},
                    Err(e) => {
                        return Err(e);
                    },
                }
                assert(serializer.writer@ =~= start + <u32 as Serialize>::encode(version, m.0));
                if serializer.file_version <= 0 {
                    match f1.serialize(serializer) {
                        Ok(()) => {},
                        Err(e) => {
                            return Err(e);
                        },
                    }
                }
                assert(serializer.writer@ =~= start + <u32 as Serialize>::encode(version, m.0) + (if version <= 0 { <Removed<u32> as Serialize>::encode(version, m.1) } else { Seq::<u8>::empty() }));
            },
        }
        assert(serializer.writer@ =~= old(serializer).writer@ + Self::encode(
            old(serializer).file_version,
            self.model(),
        ));
        Ok(())
    }
}

impl Deserialize for EnumVerA2 {
    /// Unknown variant numbers are refused.
    open spec fn decode(version: u32, s: Seq<u8>) -> Option<(EnumVerA2Model, nat)> {
        if s.len() < 1 {
            None
        } else if le_value(s.take(1)) == 0 {
            Some((EnumVerA2Model::Variant1, 1))
        } else if le_value(s.take(1)) == 1 {
            match <u32 as Deserialize>::decode(version, s.skip(1)) {
                Some((v0, n0)) => match (if version <= 0 { <Removed<u32> as Deserialize>::decode(version, s.skip(1).skip((n0) as int)) } else { Some(((), 0nat)) }) {
                    Some((v1, n1)) => Some((EnumVerA2Model::Variant2((v0, v1)), n0 + n1 + 1)),
                    None => None,
                },
                None => None,
            }
        } else {
            None
        }
    }

    fn deserialize(deserializer: &mut Deserializer) -> (r: Result<EnumVerA2, SavefileError>) {
        let ghost s0 = deserializer.rest();
        let tag = match deserializer.read_uint(1) {
            Ok(t) => t,
            Err(e) => {
                return Err(e);
            },
        };
        assert(deserializer.rest() =~= s0.skip(1));
        if tag == 0 {
            Ok(EnumVerA2::Variant1)
        } else if tag == 1 {
            let ghost s = deserializer.rest();
            let ghost p0 = deserializer.pos;
            let v0: u32 = match <u32 as Deserialize>::deserialize(deserializer) {
                Ok(x) => x,
                Err(e) => {
                    return Err(e);
                },
            };
            assert(deserializer.rest() =~= s.skip(deserializer.pos - p0));
            let v1: Removed<u32> = if deserializer.file_version <= 0 {
                match <Removed<u32> as Deserialize>::deserialize(deserializer) {
                    Ok(x) => x,
                    Err(e) => {
                        return Err(e);
                    },
                }
            } else {
                Removed::new()
            };
            assert(deserializer.rest() =~= s.skip(deserializer.pos - p0));
            Ok(EnumVerA2::Variant2 { x: v0, y: v1 })
        } else {
            Err(SavefileError::BadDiscriminant)
        }
    }
}

impl Roundtrip for EnumVerA2 {
    open spec fn read_back(version: u32, m: EnumVerA2Model) -> EnumVerA2Model {
        match m {
            EnumVerA2Model::Variant1 => EnumVerA2Model::Variant1,
            EnumVerA2Model::Variant2(t) => EnumVerA2Model::Variant2((<u32 as Roundtrip>::read_back(version, t.0), (if version <= 0 { <Removed<u32> as Roundtrip>::read_back(version, t.1) } else { () }))),
        }
    }

    #[verifier::spinoff_prover]
    proof fn lemma_roundtrip(version: u32, m: EnumVerA2Model, rest: Seq<u8>) {
        reveal_with_fuel(pow256, 2);
        let all = Self::encode(version, m) + rest;
        match m {
            EnumVerA2Model::Variant1 => {
                lemma_le_roundtrip(0, 1);
                assert(all.take(1) =~= le_bytes(0, 1));
            },
            EnumVerA2Model::Variant2(t) => {
                lemma_le_roundtrip(1, 1);
                assert(all.take(1) =~= le_bytes(1, 1));
                assert(all.skip(1) =~= <u32 as Serialize>::encode(version, t.0) + (if version <= 0 { <Removed<u32> as Serialize>::encode(version, t.1) } else { Seq::<u8>::empty() }) + rest);
                let t2 = rest;
                let t1 = (if version <= 0 { <Removed<u32> as Serialize>::encode(version, t.1) } else { Seq::<u8>::empty() }) + t2;
                let t0 = <u32 as Serialize>::encode(version, t.0) + t1;
                <u32 as Roundtrip>::lemma_roundtrip(version, t.0, t1);
                if version <= 0 {
                    <Removed<u32> as Roundtrip>::lemma_roundtrip(version, t.1, t2);
                }
                assert(<u32 as Serialize>::encode(version, t.0) + (if version <= 0 { <Removed<u32> as Serialize>::encode(version, t.1) } else { Seq::<u8>::empty() }) + rest =~= t0);
                assert(t0.skip((<u32 as Serialize>::encode(version, t.0).len()) as int) =~= t1);
                assert(t0.skip((<u32 as Serialize>::encode(version, t.0).len() + (if version <= 0 { <Removed<u32> as Serialize>::encode(version, t.1) } else { Seq::<u8>::empty() }).len()) as int) =~= t2);
            },
        }
    }
}

impl WithSchema for EnumVerA2 {
    open spec fn schema_nodes(version: u32) -> Seq<SchemaNodeModel> {
        seq![SchemaNodeModel::Enum(("EnumVerA2"@, 1u8, 2usize))]
            + seq![SchemaNodeModel::Variant(("Variant1"@, 0usize))]
            + seq![SchemaNodeModel::Variant(("Variant2"@, (1int + (if version <= 0 { 1int } else { 0int })) as usize))] + seq![SchemaNodeModel::Field(("x"@, false))] + <u32 as WithSchema>::schema_nodes(version) + (if version <= 0 { seq![SchemaNodeModel::Field(("y"@, true))] + <Removed<u32> as WithSchema>::schema_nodes(version) } else { Seq::<SchemaNodeModel>::empty() })
    }

    fn schema(version: u32, nodes: &mut Vec<SchemaNode>) {
        let count: usize = 2;
        push_enum(nodes, "EnumVerA2", 1, count);
        let c0: usize = 0;
        push_variant(nodes, "Variant1", c0);
        let mut c1: usize = 0;
        c1 = c1 + 1;
        if version <= 0 {
            c1 = c1 + 1;
        }
        push_variant(nodes, "Variant2", c1);
        push_field(nodes, "x", false);
        <u32 as WithSchema>::schema(version, nodes);
        if version <= 0 {
            push_field(nodes, "y", true);
            <Removed<u32> as WithSchema>::schema(version, nodes);
        }
        assert(nodes.model() =~= old(nodes).model() + Self::schema_nodes(version));
    }
}

/// An enum whose variant has two unnamed fields.
#[derive(Debug, PartialEq)]
pub enum EnumVerB1 {
    Variant1,
    Variant2(u32, u32),
}

/// The model of a [`EnumVerB1`]: the same variant, with the models of its fields.
pub enum EnumVerB1Model {
    Variant1,
    Variant2(<(u32, u32) as Model>::M),
}

impl Model for EnumVerB1 {
    type M = EnumVerB1Model;

    open spec fn model(&self) -> EnumVerB1Model {
        match self {
            EnumVerB1::Variant1 => EnumVerB1Model::Variant1,
            EnumVerB1::Variant2(f0, f1) => EnumVerB1Model::Variant2((f0.model(), f1.model())),
        }
    }
}

impl Serialize for EnumVerB1 {
    open spec fn valid(version: u32, m: EnumVerB1Model) -> bool {
        match m {
            EnumVerB1Model::Variant1 => true,
            EnumVerB1Model::Variant2(t) => <(u32, u32) as Serialize>::valid(version, t),
        }
    }

    /// The position of the variant in the declaration, as 1 byte(s), then the fields of the variant.
    open spec fn encode(version: u32, m: EnumVerB1Model) -> Seq<u8> {
        match m {
            EnumVerB1Model::Variant1 => le_bytes(0, 1),
            EnumVerB1Model::Variant2(t) => le_bytes(1, 1) + <(u32, u32) as Serialize>::encode(version, t),
        }
    }

    fn serialize(&self, serializer: &mut Serializer) -> (r: Result<(), SavefileError>) {
        let ghost version = serializer.file_version;
        let ghost start0 = serializer.writer@;
        match self {
            EnumVerB1::Variant1 => {
                serializer.write_u8(0);
            },
            EnumVerB1::Variant2(f0, f1) => {
                serializer.write_u8(1);
                match f0.serialize(serializer) {
                    Ok(()) => {},
                    Err(e) => {
                        return Err(e);
                    },
                }
                match f1.serialize(serializer) {
                    Ok(()) => {},
                    Err(e) => {
                        return Err(e);
                    },
                }
            },
        }
        assert(serializer.writer@ =~= old(serializer).writer@ + Self::encode(
            old(serializer).file_version,
            self.model(),
        ));
        Ok(())
    }
}

impl Deserialize for EnumVerB1 {
    /// Unknown variant numbers are refused.
    open spec fn decode(version: u32, s: Seq<u8>) -> Option<(EnumVerB1Model, nat)> {
        if s.len() < 1 {
            None
        } else if le_value(s.take(1)) == 0 {
            Some((EnumVerB1Model::Variant1, 1))
        } else if le_value(s.take(1)) == 1 {
            match <(u32, u32) as Deserialize>::decode(version, s.skip(1)) {
                Some((t, n)) => Some((EnumVerB1Model::Variant2(t), n + 1)),
                None => None,
            }
        } else {
            None
        }
    }

    fn deserialize(deserializer: &mut Deserializer) -> (r: Result<EnumVerB1, SavefileError>) {
        let ghost s0 = deserializer.rest();
        let tag = match deserializer.read_uint(1) {
            Ok(t) => t,
            Err(e) => {
                return Err(e);
            },
        };
        assert(deserializer.rest() =~= s0.skip(1));
        if tag == 0 {
            Ok(EnumVerB1::Variant1)
        } else if tag == 1 {
            match <(u32, u32) as Deserialize>::deserialize(deserializer) {
                Ok((v0, v1)) => Ok(EnumVerB1::Variant2(v0, v1)),
                Err(e) => Err(e),
            }
        } else {
            Err(SavefileError::BadDiscriminant)
        }
    }
}

impl Roundtrip for EnumVerB1 {
    open spec fn read_back(version: u32, m: EnumVerB1Model) -> EnumVerB1Model {
        match m {
            EnumVerB1Model::Variant1 => EnumVerB1Model::Variant1,
            EnumVerB1Model::Variant2(t) => EnumVerB1Model::Variant2(<(u32, u32) as Roundtrip>::read_back(version, t)),
        }
    }

    #[verifier::spinoff_prover]
    proof fn lemma_roundtrip(version: u32, m: EnumVerB1Model, rest: Seq<u8>) {
        reveal_with_fuel(pow256, 2);
        let all = Self::encode(version, m) + rest;
        match m {
            EnumVerB1Model::Variant1 => {
                lemma_le_roundtrip(0, 1);
                assert(all.take(1) =~= le_bytes(0, 1));
            },
            EnumVerB1Model::Variant2(t) => {
                lemma_le_roundtrip(1, 1);
                assert(all.take(1) =~= le_bytes(1, 1));
                assert(all.skip(1) =~= <(u32, u32) as Serialize>::encode(version, t) + rest);
                <(u32, u32) as Roundtrip>::lemma_roundtrip(version, t, rest);
            },
        }
    }
}

impl WithSchema for EnumVerB1 {
    open spec fn schema_nodes(version: u32) -> Seq<SchemaNodeModel> {
        seq![SchemaNodeModel::Enum(("EnumVerB1"@, 1u8, 2usize))]
            + seq![SchemaNodeModel::Variant(("Variant1"@, 0usize))]
            + seq![SchemaNodeModel::Variant(("Variant2"@, 2usize))] + seq![SchemaNodeModel::Field(("0"@, false))] + <u32 as WithSchema>::schema_nodes(version) + seq![SchemaNodeModel::Field(("1"@, false))] + <u32 as WithSchema>::schema_nodes(version)
    }

    fn schema(version: u32, nodes: &mut Vec<SchemaNode>) {
        let count: usize = 2;
        push_enum(nodes, "EnumVerB1", 1, count);
        let c0: usize = 0;
        push_variant(nodes, "Variant1", c0);
        let c1: usize = 2;
        push_variant(nodes, "Variant2", c1);
        push_field(nodes, "0", false);
        <u32 as WithSchema>::schema(version, nodes);
        push_field(nodes, "1", false);
        <u32 as WithSchema>::schema(version, nodes);
        assert(nodes.model() =~= old(nodes).model() + Self::schema_nodes(version));
    }
}

/// The same enum, its variant's second field gone after data version 0.
#[derive(Debug, PartialEq)]
pub enum EnumVerB2 {
    Variant1,
    Variant2(u32, Removed<u32>),
}

/// The model of a [`EnumVerB2`]: the same variant, with the models of its fields.
pub enum EnumVerB2Model {
    Variant1,
    Variant2(<(u32, Removed<u32>) as Model>::M),
}

impl Model for EnumVerB2 {
    type M = EnumVerB2Model;

    open spec fn model(&self) -> EnumVerB2Model {
        match self {
            EnumVerB2::Variant1 => EnumVerB2Model::Variant1,
            EnumVerB2::Variant2(f0, f1) => EnumVerB2Model::Variant2((f0.model(), f1.model())),
        }
    }
}

impl Serialize for EnumVerB2 {
    open spec fn valid(version: u32, m: EnumVerB2Model) -> bool {
        match m {
            EnumVerB2Model::Variant1 => true,
            EnumVerB2Model::Variant2(t) => <u32 as Serialize>::valid(version, t.0) && (version <= 0 ==> <Removed<u32> as Serialize>::valid(version, t.1)),
        }
    }

    /// The position of the variant in the declaration, as 1 byte(s), then the fields of the variant.
    open spec fn encode(version: u32, m: EnumVerB2Model) -> Seq<u8> {
        match m {
            EnumVerB2Model::Variant1 => le_bytes(0, 1),
            EnumVerB2Model::Variant2(t) => le_bytes(1, 1) + <u32 as Serialize>::encode(version, t.0) + (if version <= 0 { <Removed<u32> as Serialize>::encode(version, t.1) } else { Seq::<u8>::empty() }),
        }
    }

    fn serialize(&self, serializer: &mut Serializer) -> (r: Result<(), SavefileError>) {
        let ghost version = serializer.file_version;
        let ghost start0 = serializer.writer@;
        match self {
            EnumVerB2::Variant1 => {
                serializer.write_u8(0);
            },
            EnumVerB2::Variant2(f0, f1) => {
                serializer.write_u8(1);
                let ghost m = (f0.model(), f1.model());
                let ghost start = serializer.writer@;
                match f0.serialize(serializer) {
                    Ok(()) => {},
                    Err(e) => {
                        return Err(e);
                    },
                }
                assert(serializer.writer@ =~= start + <u32 as Serialize>::encode(version, m.0));
                if serializer.file_version <= 0 {
                    match f1.serialize(serializer) {
                        Ok(()) => {},
                        Err(e) => {
                            return Err(e);
                        },
                    }
                }
                assert(serializer.writer@ =~= start + <u32 as Serialize>::encode(version, m.0) + (if version <= 0 { <Removed<u32> as Serialize>::encode(version, m.1) } else { Seq::<u8>::empty() }));
            },
        }
        assert(serializer.writer@ =~= old(serializer).writer@ + Self::encode(
            old(serializer).file_version,
            self.model(),
        ));
        Ok(())
    }
}

impl Deserialize for EnumVerB2 {
    /// Unknown variant numbers are refused.
    open spec fn decode(version: u32, s: Seq<u8>) -> Option<(EnumVerB2Model, nat)> {
        if s.len() < 1 {
            None
        } else if le_value(s.take(1)) == 0 {
            Some((EnumVerB2Model::Variant1, 1))
        } else if le_value(s.take(1)) == 1 {
            match <u32 as Deserialize>::decode(version, s.skip(1)) {
                Some((v0, n0)) => match (if version <= 0 { <Removed<u32> as Deserialize>::decode(version, s.skip(1).skip((n0) as int)) } else { Some(((), 0nat)) }) {
                    Some((v1, n1)) => Some((EnumVerB2Model::Variant2((v0, v1)), n0 + n1 + 1)),
                    None => None,
                },
                None => None,
            }
        } else {
            None
        }
    }

    fn deserialize(deserializer: &mut Deserializer) -> (r: Result<EnumVerB2, SavefileError>) {
        let ghost s0 = deserializer.rest();
        let tag = match deserializer.read_uint(1) {
            Ok(t) => t,
            Err(e) => {
                return Err(e);
            },
        };
        assert(deserializer.rest() =~= s0.skip(1));
        if tag == 0 {
            Ok(EnumVerB2::Variant1)
        } else if tag == 1 {
            let ghost s = deserializer.rest();
            let ghost p0 = deserializer.pos;
            let v0: u32 = match <u32 as Deserialize>::deserialize(deserializer) {
                Ok(x) => x,
                Err(e) => {
                    return Err(e);
                },
            };
            assert(deserializer.rest() =~= s.skip(deserializer.pos - p0));
            let v1: Removed<u32> = if deserializer.file_version <= 0 {
                match <Removed<u32> as Deserialize>::deserialize(deserializer) {
                    Ok(x) => x,
                    Err(e) => {
                        return Err(e);
                    },
                }
            } else {
                Removed::new()
            };
            assert(deserializer.rest() =~= s.skip(deserializer.pos - p0));
            Ok(EnumVerB2::Variant2(v0, v1))
        } else {
            Err(SavefileError::BadDiscriminant)
        }
    }
}

impl Roundtrip for EnumVerB2 {
    open spec fn read_back(version: u32, m: EnumVerB2Model) -> EnumVerB2Model {
        match m {
            EnumVerB2Model::Variant1 => EnumVerB2Model::Variant1,
            EnumVerB2Model::Variant2(t) => EnumVerB2Model::Variant2((<u32 as Roundtrip>::read_back(version, t.0), (if version <= 0 { <Removed<u32> as Roundtrip>::read_back(version, t.1) } else { () }))),
        }
    }

    #[verifier::spinoff_prover]
    proof fn lemma_roundtrip(version: u32, m: EnumVerB2Model, rest: Seq<u8>) {
        reveal_with_fuel(pow256, 2);
        let all = Self::encode(version, m) + rest;
        match m {
            EnumVerB2Model::Variant1 => {
                lemma_le_roundtrip(0, 1);
                assert(all.take(1) =~= le_bytes(0, 1));
            },
            EnumVerB2Model::Variant2(t) => {
                lemma_le_roundtrip(1, 1);
                assert(all.take(1) =~= le_bytes(1, 1));
                assert(all.skip(1) =~= <u32 as Serialize>::encode(version, t.0) + (if version <= 0 { <Removed<u32> as Serialize>::encode(version, t.1) } else { Seq::<u8>::empty() }) + rest);
                let t2 = rest;
                let t1 = (if version <= 0 { <Removed<u32> as Serialize>::encode(version, t.1) } else { Seq::<u8>::empty() }) + t2;
                let t0 = <u32 as Serialize>::encode(version, t.0) + t1;
                <u32 as Roundtrip>::lemma_roundtrip(version, t.0, t1);
                if version <= 0 {
                    <Removed<u32> as Roundtrip>::lemma_roundtrip(version, t.1, t2);
                }
                assert(<u32 as Serialize>::encode(version, t.0) + (if version <= 0 { <Removed<u32> as Serialize>::encode(version, t.1) } else { Seq::<u8>::empty() }) + rest =~= t0);
                assert(t0.skip((<u32 as Serialize>::encode(version, t.0).len()) as int) =~= t1);
                assert(t0.skip((<u32 as Serialize>::encode(version, t.0).len() + (if version <= 0 { <Removed<u32> as Serialize>::encode(version, t.1) } else { Seq::<u8>::empty() }).len()) as int) =~= t2);
            },
        }
    }
}

impl WithSchema for EnumVerB2 {
    open spec fn schema_nodes(version: u32) -> Seq<SchemaNodeModel> {
        seq![SchemaNodeModel::Enum(("EnumVerB2"@, 1u8, 2usize))]
            + seq![SchemaNodeModel::Variant(("Variant1"@, 0usize))]
            + seq![SchemaNodeModel::Variant(("Variant2"@, (1int + (if version <= 0 { 1int } else { 0int })) as usize))] + seq![SchemaNodeModel::Field(("0"@, false))] + <u32 as WithSchema>::schema_nodes(version) + (if version <= 0 { seq![SchemaNodeModel::Field(("1"@, true))] + <Removed<u32> as WithSchema>::schema_nodes(version) } else { Seq::<SchemaNodeModel>::empty() })
    }

    fn schema(version: u32, nodes: &mut Vec<SchemaNode>) {
        let count: usize = 2;
        push_enum(nodes, "EnumVerB2", 1, count);
        let c0: usize = 0;
        push_variant(nodes, "Variant1", c0);
        let mut c1: usize = 0;
        c1 = c1 + 1;
        if version <= 0 {
            c1 = c1 + 1;
        }
        push_variant(nodes, "Variant2", c1);
        push_field(nodes, "0", false);
        <u32 as WithSchema>::schema(version, nodes);
        if version <= 0 {
            push_field(nodes, "1", true);
            <Removed<u32> as WithSchema>::schema(version, nodes);
        }
        assert(nodes.model() =~= old(nodes).model() + Self::schema_nodes(version));
    }
}

/// A number.
#[derive(Debug, PartialEq)]
pub struct SubSubData1 {
    pub x: u32,
}

impl Model for SubSubData1 {
    /// The models of the fields, in order.
    type M = <u32 as Model>::M;

    open spec fn model(&self) -> <u32 as Model>::M {
        self.x.model()
    }
}

impl Serialize for SubSubData1 {
    open spec fn valid(version: u32, m: <u32 as Model>::M) -> bool {
        <u32 as Serialize>::valid(version, m)
    }

    /// The fields, one after the other.
    open spec fn encode(version: u32, m: <u32 as Model>::M) -> Seq<u8> {
        <u32 as Serialize>::encode(version, m)
    }

    fn serialize(&self, serializer: &mut Serializer) -> (r: Result<(), SavefileError>) {
        match self.x.serialize(serializer) {
            Ok(()) => {},
            Err(e) => {
                return Err(e);
            },
        }
        assert(serializer.writer@ =~= old(serializer).writer@ + Self::encode(
            old(serializer).file_version,
            self.model(),
        ));
        Ok(())
    }
}

impl Deserialize for SubSubData1 {
    open spec fn decode(version: u32, s: Seq<u8>) -> Option<(<u32 as Model>::M, nat)> {
        <u32 as Deserialize>::decode(version, s)
    }

    fn deserialize(deserializer: &mut Deserializer) -> (r: Result<SubSubData1, SavefileError>) {
        match <u32 as Deserialize>::deserialize(deserializer) {
            Ok(v0) => Ok(SubSubData1 { x: v0 }),
            Err(e) => Err(e),
        }
    }
}

impl Roundtrip for SubSubData1 {
    open spec fn read_back(version: u32, m: <u32 as Model>::M) -> <u32 as Model>::M {
        <u32 as Roundtrip>::read_back(version, m)
    }

    #[verifier::spinoff_prover]
    proof fn lemma_roundtrip(version: u32, m: <u32 as Model>::M, rest: Seq<u8>) {
        <u32 as Roundtrip>::lemma_roundtrip(version, m, rest);
    }
}

impl WithSchema for SubSubData1 {
    open spec fn schema_nodes(version: u32) -> Seq<SchemaNodeModel> {
        seq![SchemaNodeModel::Struct(("SubSubData1"@, 1usize))]
            + seq![SchemaNodeModel::Field(("x"@, false))] + <u32 as WithSchema>::schema_nodes(version)
    }

    fn schema(version: u32, nodes: &mut Vec<SchemaNode>) {
        let count: usize = 1;
        push_struct(nodes, "SubSubData1", count);
        push_field(nodes, "x", false);
        <u32 as WithSchema>::schema(version, nodes);
        assert(nodes.model() =~= old(nodes).model() + Self::schema_nodes(version));
    }
}

/// A record around a record.
#[derive(Debug, PartialEq)]
pub struct SubData1 {
    pub some_sub: SubSubData1,
}

impl Model for SubData1 {
    /// The models of the fields, in order.
    type M = <SubSubData1 as Model>::M;

    open spec fn model(&self) -> <SubSubData1 as Model>::M {
        self.some_sub.model()
    }
}

impl Serialize for SubData1 {
    open spec fn valid(version: u32, m: <SubSubData1 as Model>::M) -> bool {
        <SubSubData1 as Serialize>::valid(version, m)
    }

    /// The fields, one after the other.
    open spec fn encode(version: u32, m: <SubSubData1 as Model>::M) -> Seq<u8> {
        <SubSubData1 as Serialize>::encode(version, m)
    }

    fn serialize(&self, serializer: &mut Serializer) -> (r: Result<(), SavefileError>) {
        match self.some_sub.serialize(serializer) {
            Ok(()) => {},
            Err(e) => {
                return Err(e);
            },
        }
        assert(serializer.writer@ =~= old(serializer).writer@ + Self::encode(
            old(serializer).file_version,
            self.model(),
        ));
        Ok(())
    }
}

impl Deserialize for SubData1 {
    open spec fn decode(version: u32, s: Seq<u8>) -> Option<(<SubSubData1 as Model>::M, nat)> {
        <SubSubData1 as Deserialize>::decode(version, s)
    }

    fn deserialize(deserializer: &mut Deserializer) -> (r: Result<SubData1, SavefileError>) {
        match <SubSubData1 as Deserialize>::deserialize(deserializer) {
            Ok(v0) => Ok(SubData1 { some_sub: v0 }),
            Err(e) => Err(e),
        }
    }
}

impl Roundtrip for SubData1 {
    open spec fn read_back(version: u32, m: <SubSubData1 as Model>::M) -> <SubSubData1 as Model>::M {
        <SubSubData1 as Roundtrip>::read_back(version, m)
    }

    #[verifier::spinoff_prover]
    proof fn lemma_roundtrip(version: u32, m: <SubSubData1 as Model>::M, rest: Seq<u8>) {
        <SubSubData1 as Roundtrip>::lemma_roundtrip(version, m, rest);
    }
}

impl WithSchema for SubData1 {
    open spec fn schema_nodes(version: u32) -> Seq<SchemaNodeModel> {
        seq![SchemaNodeModel::Struct(("SubData1"@, 1usize))]
            + seq![SchemaNodeModel::Field(("some_sub"@, false))] + <SubSubData1 as WithSchema>::schema_nodes(version)
    }

    fn schema(version: u32, nodes: &mut Vec<SchemaNode>) {
        let count: usize = 1;
        push_struct(nodes, "SubData1", count);
        push_field(nodes, "some_sub", false);
        <SubSubData1 as WithSchema>::schema(version, nodes);
        assert(nodes.model() =~= old(nodes).model() + Self::schema_nodes(version));
    }
}

/// A record three levels deep.
#[derive(Debug, PartialEq)]
pub struct ComplexData1 {
    pub some_field: SubData1,
}

impl Model for ComplexData1 {
    /// The models of the fields, in order.
    type M = <SubData1 as Model>::M;

    open spec fn model(&self) -> <SubData1 as Model>::M {
        self.some_field.model()
    }
}

impl Serialize for ComplexData1 {
    open spec fn valid(version: u32, m: <SubData1 as Model>::M) -> bool {
        <SubData1 as Serialize>::valid(version, m)
    }

    /// The fields, one after the other.
    open spec fn encode(version: u32, m: <SubData1 as Model>::M) -> Seq<u8> {
        <SubData1 as Serialize>::encode(version, m)
    }

    fn serialize(&self, serializer: &mut Serializer) -> (r: Result<(), SavefileError>) {
        match self.some_field.serialize(serializer) {
            Ok(()) => {},
            Err(e) => {
                return Err(e);
            },
        }
        assert(serializer.writer@ =~= old(serializer).writer@ + Self::encode(
            old(serializer).file_version,
            self.model(),
        ));
        Ok(())
    }
}

impl Deserialize for ComplexData1 {
    open spec fn decode(version: u32, s: Seq<u8>) -> Option<(<SubData1 as Model>::M, nat)> {
        <SubData1 as Deserialize>::decode(version, s)
    }

    fn deserialize(deserializer: &mut Deserializer) -> (r: Result<ComplexData1, SavefileError>) {
        match <SubData1 as Deserialize>::deserialize(deserializer) {
            Ok(v0) => Ok(ComplexData1 { some_field: v0 }),
            Err(e) => Err(e),
        }
    }
}

impl Roundtrip for ComplexData1 {
    open spec fn read_back(version: u32, m: <SubData1 as Model>::M) -> <SubData1 as Model>::M {
        <SubData1 as Roundtrip>::read_back(version, m)
    }

    #[verifier::spinoff_prover]
    proof fn lemma_roundtrip(version: u32, m: <SubData1 as Model>::M, rest: Seq<u8>) {
        <SubData1 as Roundtrip>::lemma_roundtrip(version, m, rest);
    }
}

impl WithSchema for ComplexData1 {
    open spec fn schema_nodes(version: u32) -> Seq<SchemaNodeModel> {
        seq![SchemaNodeModel::Struct(("ComplexData1"@, 1usize))]
            + seq![SchemaNodeModel::Field(("some_field"@, false))] + <SubData1 as WithSchema>::schema_nodes(version)
    }

    fn schema(version: u32, nodes: &mut Vec<SchemaNode>) {
        let count: usize = 1;
        push_struct(nodes, "ComplexData1", count);
        push_field(nodes, "some_field", false);
        <SubData1 as WithSchema>::schema(version, nodes);
        assert(nodes.model() =~= old(nodes).model() + Self::schema_nodes(version));
    }
}

/// A number, under another name.
#[derive(Debug, PartialEq)]
pub struct SubSubData2 {
    pub y: u32,
}

impl Model for SubSubData2 {
    /// The models of the fields, in order.
    type M = <u32 as Model>::M;

    open spec fn model(&self) -> <u32 as Model>::M {
        self.y.model()
    }
}

impl Serialize for SubSubData2 {
    open spec fn valid(version: u32, m: <u32 as Model>::M) -> bool {
        <u32 as Serialize>::valid(version, m)
    }

    /// The fields, one after the other.
    open spec fn encode(version: u32, m: <u32 as Model>::M) -> Seq<u8> {
        <u32 as Serialize>::encode(version, m)
    }

    fn serialize(&self, serializer: &mut Serializer) -> (r: Result<(), SavefileError>) {
        match self.y.serialize(serializer) {
            Ok(()) => {},
            Err(e) => {
                return Err(e);
            },
        }
        assert(serializer.writer@ =~= old(serializer).writer@ + Self::encode(
            old(serializer).file_version,
            self.model(),
        ));
        Ok(())
    }
}

impl Deserialize for SubSubData2 {
    open spec fn decode(version: u32, s: Seq<u8>) -> Option<(<u32 as Model>::M, nat)> {
        <u32 as Deserialize>::decode(version, s)
    }

    fn deserialize(deserializer: &mut Deserializer) -> (r: Result<SubSubData2, SavefileError>) {
        match <u32 as Deserialize>::deserialize(deserializer) {
            Ok(v0) => Ok(SubSubData2 { y: v0 }),
            Err(e) => Err(e),
        }
    }
}

impl Roundtrip for SubSubData2 {
    open spec fn read_back(version: u32, m: <u32 as Model>::M) -> <u32 as Model>::M {
        <u32 as Roundtrip>::read_back(version, m)
    }

    #[verifier::spinoff_prover]
    proof fn lemma_roundtrip(version: u32, m: <u32 as Model>::M, rest: Seq<u8>) {
        <u32 as Roundtrip>::lemma_roundtrip(version, m, rest);
    }
}

impl WithSchema for SubSubData2 {
    open spec fn schema_nodes(version: u32) -> Seq<SchemaNodeModel> {
        seq![SchemaNodeModel::Struct(("SubSubData2"@, 1usize))]
            + seq![SchemaNodeModel::Field(("y"@, false))] + <u32 as WithSchema>::schema_nodes(version)
    }

    fn schema(version: u32, nodes: &mut Vec<SchemaNode>) {
        let count: usize = 1;
        push_struct(nodes, "SubSubData2", count);
        push_field(nodes, "y", false);
        <u32 as WithSchema>::schema(version, nodes);
        assert(nodes.model() =~= old(nodes).model() + Self::schema_nodes(version));
    }
}

/// A record around a record.
#[derive(Debug, PartialEq)]
pub struct SubData2 {
    pub some_sub: SubSubData2,
}

impl Model for SubData2 {
    /// The models of the fields, in order.
    type M = <SubSubData2 as Model>::M;

    open spec fn model(&self) -> <SubSubData2 as Model>::M {
        self.some_sub.model()
    }
}

impl Serialize for SubData2 {
    open spec fn valid(version: u32, m: <SubSubData2 as Model>::M) -> bool {
        <SubSubData2 as Serialize>::valid(version, m)
    }

    /// The fields, one after the other.
    open spec fn encode(version: u32, m: <SubSubData2 as Model>::M) -> Seq<u8> {
        <SubSubData2 as Serialize>::encode(version, m)
    }

    fn serialize(&self, serializer: &mut Serializer) -> (r: Result<(), SavefileError>) {
        match self.some_sub.serialize(serializer) {
            Ok(()) => {},
            Err(e) => {
                return Err(e);
            },
        }
        assert(serializer.writer@ =~= old(serializer).writer@ + Self::encode(
            old(serializer).file_version,
            self.model(),
        ));
        Ok(())
    }
}

impl Deserialize for SubData2 {
    open spec fn decode(version: u32, s: Seq<u8>) -> Option<(<SubSubData2 as Model>::M, nat)> {
        <SubSubData2 as Deserialize>::decode(version, s)
    }

    fn deserialize(deserializer: &mut Deserializer) -> (r: Result<SubData2, SavefileError>) {
        match <SubSubData2 as Deserialize>::deserialize(deserializer) {
            Ok(v0) => Ok(SubData2 { some_sub: v0 }),
            Err(e) => Err(e),
        }
    }
}

impl Roundtrip for SubData2 {
    open spec fn read_back(version: u32, m: <SubSubData2 as Model>::M) -> <SubSubData2 as Model>::M {
        <SubSubData2 as Roundtrip>::read_back(version, m)
    }

    #[verifier::spinoff_prover]
    proof fn lemma_roundtrip(version: u32, m: <SubSubData2 as Model>::M, rest: Seq<u8>) {
        <SubSubData2 as Roundtrip>::lemma_roundtrip(version, m, rest);
    }
}

impl WithSchema for SubData2 {
    open spec fn schema_nodes(version: u32) -> Seq<SchemaNodeModel> {
        seq![SchemaNodeModel::Struct(("SubData2"@, 1usize))]
            + seq![SchemaNodeModel::Field(("some_sub"@, false))] + <SubSubData2 as WithSchema>::schema_nodes(version)
    }

    fn schema(version: u32, nodes: &mut Vec<SchemaNode>) {
        let count: usize = 1;
        push_struct(nodes, "SubData2", count);
        push_field(nodes, "some_sub", false);
        <SubSubData2 as WithSchema>::schema(version, nodes);
        assert(nodes.model() =~= old(nodes).model() + Self::schema_nodes(version));
    }
}

/// A record three levels deep, with a renamed innermost field.
#[derive(Debug, PartialEq)]
pub struct ComplexData2 {
    pub some_field: SubData2,
}

impl Model for ComplexData2 {
    /// The models of the fields, in order.
    type M = <SubData2 as Model>::M;

    open spec fn model(&self) -> <SubData2 as Model>::M {
        self.some_field.model()
    }
}

impl Serialize for ComplexData2 {
    open spec fn valid(version: u32, m: <SubData2 as Model>::M) -> bool {
        <SubData2 as Serialize>::valid(version, m)
    }

    /// The fields, one after the other.
    open spec fn encode(version: u32, m: <SubData2 as Model>::M) -> Seq<u8> {
        <SubData2 as Serialize>::encode(version, m)
    }

    fn serialize(&self, serializer: &mut Serializer) -> (r: Result<(), SavefileError>) {
        match self.some_field.serialize(serializer) {
            Ok(()) => {},
            Err(e) => {
                return Err(e);
            },
        }
        assert(serializer.writer@ =~= old(serializer).writer@ + Self::encode(
            old(serializer).file_version,
            self.model(),
        ));
        Ok(())
    }
}

impl Deserialize for ComplexData2 {
    open spec fn decode(version: u32, s: Seq<u8>) -> Option<(<SubData2 as Model>::M, nat)> {
        <SubData2 as Deserialize>::decode(version, s)
    }

    fn deserialize(deserializer: &mut Deserializer) -> (r: Result<ComplexData2, SavefileError>) {
        match <SubData2 as Deserialize>::deserialize(deserializer) {
            Ok(v0) => Ok(ComplexData2 { some_field: v0 }),
            Err(e) => Err(e),
        }
    }
}

impl Roundtrip for ComplexData2 {
    open spec fn read_back(version: u32, m: <SubData2 as Model>::M) -> <SubData2 as Model>::M {
        <SubData2 as Roundtrip>::read_back(version, m)
    }

    #[verifier::spinoff_prover]
    proof fn lemma_roundtrip(version: u32, m: <SubData2 as Model>::M, rest: Seq<u8>) {
        <SubData2 as Roundtrip>::lemma_roundtrip(version, m, rest);
    }
}

impl WithSchema for ComplexData2 {
    open spec fn schema_nodes(version: u32) -> Seq<SchemaNodeModel> {
        seq![SchemaNodeModel::Struct(("ComplexData2"@, 1usize))]
            + seq![SchemaNodeModel::Field(("some_field"@, false))] + <SubData2 as WithSchema>::schema_nodes(version)
    }

    fn schema(version: u32, nodes: &mut Vec<SchemaNode>) {
        let count: usize = 1;
        push_struct(nodes, "ComplexData2", count);
        push_field(nodes, "some_field", false);
        <SubData2 as WithSchema>::schema(version, nodes);
        assert(nodes.model() =~= old(nodes).model() + Self::schema_nodes(version));
    }
}

/// A record of one text.
#[derive(Debug, PartialEq)]
pub struct VersionB1 {
    pub a: String,
}

impl Model for VersionB1 {
    /// The models of the fields, in order.
    type M = <String as Model>::M;

    open spec fn model(&self) -> <String as Model>::M {
        self.a.model()
    }
}

impl Serialize for VersionB1 {
    open spec fn valid(version: u32, m: <String as Model>::M) -> bool {
        <String as Serialize>::valid(version, m)
    }

    /// The fields, one after the other.
    open spec fn encode(version: u32, m: <String as Model>::M) -> Seq<u8> {
        <String as Serialize>::encode(version, m)
    }

    fn serialize(&self, serializer: &mut Serializer) -> (r: Result<(), SavefileError>) {
        match self.a.serialize(serializer) {
            Ok(()) => {},
            Err(e) => {
                return Err(e);
            },
        }
        assert(serializer.writer@ =~= old(serializer).writer@ + Self::encode(
            old(serializer).file_version,
            self.model(),
        ));
        Ok(())
    }
}

impl Deserialize for VersionB1 {
    open spec fn decode(version: u32, s: Seq<u8>) -> Option<(<String as Model>::M, nat)> {
        <String as Deserialize>::decode(version, s)
    }

    fn deserialize(deserializer: &mut Deserializer) -> (r: Result<VersionB1, SavefileError>) {
        match <String as Deserialize>::deserialize(deserializer) {
            Ok(v0) => Ok(VersionB1 { a: v0 }),
            Err(e) => Err(e),
        }
    }
}

impl Roundtrip for VersionB1 {
    open spec fn read_back(version: u32, m: <String as Model>::M) -> <String as Model>::M {
        <String as Roundtrip>::read_back(version, m)
    }

    #[verifier::spinoff_prover]
    proof fn lemma_roundtrip(version: u32, m: <String as Model>::M, rest: Seq<u8>) {
        <String as Roundtrip>::lemma_roundtrip(version, m, rest);
    }
}

impl WithSchema for VersionB1 {
    open spec fn schema_nodes(version: u32) -> Seq<SchemaNodeModel> {
        seq![SchemaNodeModel::Struct(("VersionB1"@, 1usize))]
            + seq![SchemaNodeModel::Field(("a"@, false))] + <String as WithSchema>::schema_nodes(version)
    }

    fn schema(version: u32, nodes: &mut Vec<SchemaNode>) {
        let count: usize = 1;
        push_struct(nodes, "VersionB1", count);
        push_field(nodes, "a", false);
        <String as WithSchema>::schema(version, nodes);
        assert(nodes.model() =~= old(nodes).model() + Self::schema_nodes(version));
    }
}

/// A record of two texts, the second from data version 1 on, defaulting to a fixed text.
#[derive(Debug, PartialEq)]
pub struct VersionB2 {
    pub a: String,
    pub b: String,
}

impl Model for VersionB2 {
    /// The models of the fields, in order.
    type M = <(String, String) as Model>::M;

    open spec fn model(&self) -> <(String, String) as Model>::M {
        (self.a.model(), self.b.model())
    }
}

impl Serialize for VersionB2 {
    open spec fn valid(version: u32, m: <(String, String) as Model>::M) -> bool {
        <String as Serialize>::valid(version, m.0) && (1 <= version ==> <String as Serialize>::valid(version, m.1))
    }

    /// The fields that the data version holds, one after the other.
    open spec fn encode(version: u32, m: <(String, String) as Model>::M) -> Seq<u8> {
        <String as Serialize>::encode(version, m.0) + (if 1 <= version { <String as Serialize>::encode(version, m.1) } else { Seq::<u8>::empty() })
    }

    fn serialize(&self, serializer: &mut Serializer) -> (r: Result<(), SavefileError>) {
        let ghost version = serializer.file_version;
        let ghost m = self.model();
        let ghost start = serializer.writer@;
        match self.a.serialize(serializer) {
            Ok(()) => {},
            Err(e) => {
                return Err(e);
            },
        }
        assert(serializer.writer@ =~= start + <String as Serialize>::encode(version, m.0));
        if 1 <= serializer.file_version {
            match self.b.serialize(serializer) {
                Ok(()) => {},
                Err(e) => {
                    return Err(e);
                },
            }
        }
        assert(serializer.writer@ =~= start + <String as Serialize>::encode(version, m.0) + (if 1 <= version { <String as Serialize>::encode(version, m.1) } else { Seq::<u8>::empty() }));
        assert(serializer.writer@ =~= old(serializer).writer@ + Self::encode(
            old(serializer).file_version,
            self.model(),
        ));
        Ok(())
    }
}

impl Deserialize for VersionB2 {
    open spec fn decode(version: u32, s: Seq<u8>) -> Option<(<(String, String) as Model>::M, nat)> {
        match <String as Deserialize>::decode(version, s) {
            Some((v0, n0)) => match (if 1 <= version { <String as Deserialize>::decode(version, s.skip((n0) as int)) } else { Some(("custom_default_value"@, 0nat)) }) {
                Some((v1, n1)) => Some(((v0, v1), n0 + n1)),
                None => None,
            },
            None => None,
        }
    }

    fn deserialize(deserializer: &mut Deserializer) -> (r: Result<VersionB2, SavefileError>) {
        let ghost s = deserializer.rest();
        let ghost p0 = deserializer.pos;
        let v0: String = match <String as Deserialize>::deserialize(deserializer) {
            Ok(x) => x,
            Err(e) => {
                return Err(e);
            },
        };
        assert(deserializer.rest() =~= s.skip(deserializer.pos - p0));
        let v1: String = if 1 <= deserializer.file_version {
            match <String as Deserialize>::deserialize(deserializer) {
                Ok(x) => x,
                Err(e) => {
                    return Err(e);
                },
            }
        } else {
            String::from_str("custom_default_value")
        };
        assert(deserializer.rest() =~= s.skip(deserializer.pos - p0));
        Ok(VersionB2 { a: v0, b: v1 })
    }
}

impl Roundtrip for VersionB2 {
    open spec fn read_back(version: u32, m: <(String, String) as Model>::M) -> <(String, String) as Model>::M {
        (<String as Roundtrip>::read_back(version, m.0), (if 1 <= version { <String as Roundtrip>::read_back(version, m.1) } else { "custom_default_value"@ }))
    }

    #[verifier::spinoff_prover]
    proof fn lemma_roundtrip(version: u32, m: <(String, String) as Model>::M, rest: Seq<u8>) {
        let t2 = rest;
        let t1 = (if 1 <= version { <String as Serialize>::encode(version, m.1) } else { Seq::<u8>::empty() }) + t2;
        let t0 = <String as Serialize>::encode(version, m.0) + t1;
        <String as Roundtrip>::lemma_roundtrip(version, m.0, t1);
        if 1 <= version {
            <String as Roundtrip>::lemma_roundtrip(version, m.1, t2);
        }
        assert(<String as Serialize>::encode(version, m.0) + (if 1 <= version { <String as Serialize>::encode(version, m.1) } else { Seq::<u8>::empty() }) + rest =~= t0);
        assert(t0.skip((<String as Serialize>::encode(version, m.0).len()) as int) =~= t1);
        assert(t0.skip((<String as Serialize>::encode(version, m.0).len() + (if 1 <= version { <String as Serialize>::encode(version, m.1) } else { Seq::<u8>::empty() }).len()) as int) =~= t2);
    }
}

impl WithSchema for VersionB2 {
    open spec fn schema_nodes(version: u32) -> Seq<SchemaNodeModel> {
        seq![SchemaNodeModel::Struct(("VersionB2"@, (1int + (if 1 <= version { 1int } else { 0int })) as usize))]
            + seq![SchemaNodeModel::Field(("a"@, false))] + <String as WithSchema>::schema_nodes(version)
            + (if 1 <= version { seq![SchemaNodeModel::Field(("b"@, false))] + <String as WithSchema>::schema_nodes(version) } else { Seq::<SchemaNodeModel>::empty() })
    }

    fn schema(version: u32, nodes: &mut Vec<SchemaNode>) {
        let mut count: usize = 0;
        count = count + 1;
        if 1 <= version {
            count = count + 1;
        }
        push_struct(nodes, "VersionB2", count);
        push_field(nodes, "a", false);
        <String as WithSchema>::schema(version, nodes);
        if 1 <= version {
            push_field(nodes, "b", false);
            <String as WithSchema>::schema(version, nodes);
        }
        assert(nodes.model() =~= old(nodes).model() + Self::schema_nodes(version));
    }
}

/// A small record that gained two fields in data version 1.
#[derive(Debug, PartialEq)]
pub struct SmallStruct2 {
    pub x1: u32,
    pub x2: i32,
    pub x3: String,
    pub x4: u64,
}

impl Model for SmallStruct2 {
    /// The models of the fields, in order.
    type M = <(u32, i32, (String, u64)) as Model>::M;

    open spec fn model(&self) -> <(u32, i32, (String, u64)) as Model>::M {
        (self.x1.model(), self.x2.model(), (self.x3.model(), self.x4.model()))
    }
}

impl Serialize for SmallStruct2 {
    open spec fn valid(version: u32, m: <(u32, i32, (String, u64)) as Model>::M) -> bool {
        <u32 as Serialize>::valid(version, m.0) && <i32 as Serialize>::valid(version, m.1) && (1 <= version ==> <String as Serialize>::valid(version, m.2.0)) && (1 <= version ==> <u64 as Serialize>::valid(version, m.2.1))
    }

    /// The fields that the data version holds, one after the other.
    open spec fn encode(version: u32, m: <(u32, i32, (String, u64)) as Model>::M) -> Seq<u8> {
        <u32 as Serialize>::encode(version, m.0) + <i32 as Serialize>::encode(version, m.1) + (if 1 <= version { <String as Serialize>::encode(version, m.2.0) } else { Seq::<u8>::empty() }) + (if 1 <= version { <u64 as Serialize>::encode(version, m.2.1) } else { Seq::<u8>::empty() })
    }

    fn serialize(&self, serializer: &mut Serializer) -> (r: Result<(), SavefileError>) {
        let ghost version = serializer.file_version;
        let ghost m = self.model();
        let ghost start = serializer.writer@;
        match self.x1.serialize(serializer) {
            Ok(()) => {},
            Err(e) => {
                return Err(e);
            },
        }
        assert(serializer.writer@ =~= start + <u32 as Serialize>::encode(version, m.0));
        match self.x2.serialize(serializer) {
            Ok(()) => {},
            Err(e) => {
                return Err(e);
            },
        }
        assert(serializer.writer@ =~= start + <u32 as Serialize>::encode(version, m.0) + <i32 as Serialize>::encode(version, m.1));
        if 1 <= serializer.file_version {
            match self.x3.serialize(serializer) {
                Ok(()) => {},
                Err(e) => {
                    return Err(e);
                },
            }
        }
        assert(serializer.writer@ =~= start + <u32 as Serialize>::encode(version, m.0) + <i32 as Serialize>::encode(version, m.1) + (if 1 <= version { <String as Serialize>::encode(version, m.2.0) } else { Seq::<u8>::empty() }));
        if 1 <= serializer.file_version {
            match self.x4.serialize(serializer) {
                Ok(()) => {},
                Err(e) => {
                    return Err(e);
                },
            }
        }
        assert(serializer.writer@ =~= start + <u32 as Serialize>::encode(version, m.0) + <i32 as Serialize>::encode(version, m.1) + (if 1 <= version { <String as Serialize>::encode(version, m.2.0) } else { Seq::<u8>::empty() }) + (if 1 <= version { <u64 as Serialize>::encode(version, m.2.1) } else { Seq::<u8>::empty() }));
        assert(serializer.writer@ =~= old(serializer).writer@ + Self::encode(
            old(serializer).file_version,
            self.model(),
        ));
        Ok(())
    }
}

impl Deserialize for SmallStruct2 {
    open spec fn decode(version: u32, s: Seq<u8>) -> Option<(<(u32, i32, (String, u64)) as Model>::M, nat)> {
        match <u32 as Deserialize>::decode(version, s) {
            Some((v0, n0)) => match <i32 as Deserialize>::decode(version, s.skip((n0) as int)) {
                Some((v1, n1)) => match (if 1 <= version { <String as Deserialize>::decode(version, s.skip((n0 + n1) as int)) } else { Some(("100"@, 0nat)) }) {
                    Some((v2, n2)) => match (if 1 <= version { <u64 as Deserialize>::decode(version, s.skip((n0 + n1 + n2) as int)) } else { Some((123u64, 0nat)) }) {
                        Some((v3, n3)) => Some(((v0, v1, (v2, v3)), n0 + n1 + n2 + n3)),
                        None => None,
                    },
                    None => None,
                },
                None => None,
            },
            None => None,
        }
    }

    fn deserialize(deserializer: &mut Deserializer) -> (r: Result<SmallStruct2, SavefileError>) {
        let ghost s = deserializer.rest();
        let ghost p0 = deserializer.pos;
        let v0: u32 = match <u32 as Deserialize>::deserialize(deserializer) {
            Ok(x) => x,
            Err(e) => {
                return Err(e);
            },
        };
        assert(deserializer.rest() =~= s.skip(deserializer.pos - p0));
        let v1: i32 = match <i32 as Deserialize>::deserialize(deserializer) {
            Ok(x) => x,
            Err(e) => {
                return Err(e);
            },
        };
        assert(deserializer.rest() =~= s.skip(deserializer.pos - p0));
        let v2: String = if 1 <= deserializer.file_version {
            match <String as Deserialize>::deserialize(deserializer) {
                Ok(x) => x,
                Err(e) => {
                    return Err(e);
                },
            }
        } else {
            String::from_str("100")
        };
        assert(deserializer.rest() =~= s.skip(deserializer.pos - p0));
        let v3: u64 = if 1 <= deserializer.file_version {
            match <u64 as Deserialize>::deserialize(deserializer) {
                Ok(x) => x,
                Err(e) => {
                    return Err(e);
                },
            }
        } else {
            123
        };
        assert(deserializer.rest() =~= s.skip(deserializer.pos - p0));
        Ok(SmallStruct2 { x1: v0, x2: v1, x3: v2, x4: v3 })
    }
}

impl Roundtrip for SmallStruct2 {
    open spec fn read_back(version: u32, m: <(u32, i32, (String, u64)) as Model>::M) -> <(u32, i32, (String, u64)) as Model>::M {
        (<u32 as Roundtrip>::read_back(version, m.0), <i32 as Roundtrip>::read_back(version, m.1), ((if 1 <= version { <String as Roundtrip>::read_back(version, m.2.0) } else { "100"@ }), (if 1 <= version { <u64 as Roundtrip>::read_back(version, m.2.1) } else { 123u64 })))
    }

    #[verifier::spinoff_prover]
    proof fn lemma_roundtrip(version: u32, m: <(u32, i32, (String, u64)) as Model>::M, rest: Seq<u8>) {
        let t4 = rest;
        let t3 = (if 1 <= version { <u64 as Serialize>::encode(version, m.2.1) } else { Seq::<u8>::empty() }) + t4;
        let t2 = (if 1 <= version { <String as Serialize>::encode(version, m.2.0) } else { Seq::<u8>::empty() }) + t3;
        let t1 = <i32 as Serialize>::encode(version, m.1) + t2;
        let t0 = <u32 as Serialize>::encode(version, m.0) + t1;
        <u32 as Roundtrip>::lemma_roundtrip(version, m.0, t1);
        <i32 as Roundtrip>::lemma_roundtrip(version, m.1, t2);
        if 1 <= version {
            <String as Roundtrip>::lemma_roundtrip(version, m.2.0, t3);
        }
        if 1 <= version {
            <u64 as Roundtrip>::lemma_roundtrip(version, m.2.1, t4);
        }
        assert(<u32 as Serialize>::encode(version, m.0) + <i32 as Serialize>::encode(version, m.1) + (if 1 <= version { <String as Serialize>::encode(version, m.2.0) } else { Seq::<u8>::empty() }) + (if 1 <= version { <u64 as Serialize>::encode(version, m.2.1) } else { Seq::<u8>::empty() }) + rest =~= t0);
        assert(t0.skip((<u32 as Serialize>::encode(version, m.0).len()) as int) =~= t1);
        assert(t0.skip((<u32 as Serialize>::encode(version, m.0).len() + <i32 as Serialize>::encode(version, m.1).len()) as int) =~= t2);
        assert(t0.skip((<u32 as Serialize>::encode(version, m.0).len() + <i32 as Serialize>::encode(version, m.1).len() + (if 1 <= version { <String as Serialize>::encode(version, m.2.0) } else { Seq::<u8>::empty() }).len()) as int) =~= t3);
        assert(t0.skip((<u32 as Serialize>::encode(version, m.0).len() + <i32 as Serialize>::encode(version, m.1).len() + (if 1 <= version { <String as Serialize>::encode(version, m.2.0) } else { Seq::<u8>::empty() }).len() + (if 1 <= version { <u64 as Serialize>::encode(version, m.2.1) } else { Seq::<u8>::empty() }).len()) as int) =~= t4);
    }
}

impl WithSchema for SmallStruct2 {
    open spec fn schema_nodes(version: u32) -> Seq<SchemaNodeModel> {
        seq![SchemaNodeModel::Struct(("SmallStruct2"@, (2int + (if 1 <= version { 1int } else { 0int }) + (if 1 <= version { 1int } else { 0int })) as usize))]
            + seq![SchemaNodeModel::Field(("x1"@, false))] + <u32 as WithSchema>::schema_nodes(version)
            + seq![SchemaNodeModel::Field(("x2"@, false))] + <i32 as WithSchema>::schema_nodes(version)
            + (if 1 <= version { seq![SchemaNodeModel::Field(("x3"@, false))] + <String as WithSchema>::schema_nodes(version) } else { Seq::<SchemaNodeModel>::empty() })
            + (if 1 <= version { seq![SchemaNodeModel::Field(("x4"@, false))] + <u64 as WithSchema>::schema_nodes(version) } else { Seq::<SchemaNodeModel>::empty() })
    }

    fn schema(version: u32, nodes: &mut Vec<SchemaNode>) {
        let mut count: usize = 0;
        count = count + 1;
        count = count + 1;
        if 1 <= version {
            count = count + 1;
        }
        if 1 <= version {
            count = count + 1;
        }
        push_struct(nodes, "SmallStruct2", count);
        push_field(nodes, "x1", false);
        <u32 as WithSchema>::schema(version, nodes);
        push_field(nodes, "x2", false);
        <i32 as WithSchema>::schema(version, nodes);
        if 1 <= version {
            push_field(nodes, "x3", false);
            <String as WithSchema>::schema(version, nodes);
        }
        if 1 <= version {
            push_field(nodes, "x4", false);
            <u64 as WithSchema>::schema(version, nodes);
        }
        assert(nodes.model() =~= old(nodes).model() + Self::schema_nodes(version));
    }
}

/// A small record of three fields.
#[derive(Debug, PartialEq)]
pub struct SmallStructRem1 {
    pub x1: u32,
    pub x2: i32,
    pub x3: String,
}

impl Model for SmallStructRem1 {
    /// The models of the fields, in order.
    type M = <(u32, i32, String) as Model>::M;

    open spec fn model(&self) -> <(u32, i32, String) as Model>::M {
        (self.x1.model(), self.x2.model(), self.x3.model())
    }
}

impl Serialize for SmallStructRem1 {
    open spec fn valid(version: u32, m: <(u32, i32, String) as Model>::M) -> bool {
        <(u32, i32, String) as Serialize>::valid(version, m)
    }

    /// The fields, one after the other.
    open spec fn encode(version: u32, m: <(u32, i32, String) as Model>::M) -> Seq<u8> {
        <(u32, i32, String) as Serialize>::encode(version, m)
    }

    fn serialize(&self, serializer: &mut Serializer) -> (r: Result<(), SavefileError>) {
        match self.x1.serialize(serializer) {
            Ok(()) => {},
            Err(e) => {
                return Err(e);
            },
        }
        match self.x2.serialize(serializer) {
            Ok(()) => {},
            Err(e) => {
                return Err(e);
            },
        }
        match self.x3.serialize(serializer) {
            Ok(()) => {},
            Err(e) => {
                return Err(e);
            },
        }
        assert(serializer.writer@ =~= old(serializer).writer@ + Self::encode(
            old(serializer).file_version,
            self.model(),
        ));
        Ok(())
    }
}

impl Deserialize for SmallStructRem1 {
    open spec fn decode(version: u32, s: Seq<u8>) -> Option<(<(u32, i32, String) as Model>::M, nat)> {
        <(u32, i32, String) as Deserialize>::decode(version, s)
    }

    fn deserialize(deserializer: &mut Deserializer) -> (r: Result<SmallStructRem1, SavefileError>) {
        match <(u32, i32, String) as Deserialize>::deserialize(deserializer) {
            Ok((v0, v1, v2)) => Ok(SmallStructRem1 { x1: v0, x2: v1, x3: v2 }),
            Err(e) => Err(e),
        }
    }
}

impl Roundtrip for SmallStructRem1 {
    open spec fn read_back(version: u32, m: <(u32, i32, String) as Model>::M) -> <(u32, i32, String) as Model>::M {
        <(u32, i32, String) as Roundtrip>::read_back(version, m)
    }

    #[verifier::spinoff_prover]
    proof fn lemma_roundtrip(version: u32, m: <(u32, i32, String) as Model>::M, rest: Seq<u8>) {
        <(u32, i32, String) as Roundtrip>::lemma_roundtrip(version, m, rest);
    }
}

impl WithSchema for SmallStructRem1 {
    open spec fn schema_nodes(version: u32) -> Seq<SchemaNodeModel> {
        seq![SchemaNodeModel::Struct(("SmallStructRem1"@, 3usize))]
            + seq![SchemaNodeModel::Field(("x1"@, false))] + <u32 as WithSchema>::schema_nodes(version)
            + seq![SchemaNodeModel::Field(("x2"@, false))] + <i32 as WithSchema>::schema_nodes(version)
            + seq![SchemaNodeModel::Field(("x3"@, false))] + <String as WithSchema>::schema_nodes(version)
    }

    fn schema(version: u32, nodes: &mut Vec<SchemaNode>) {
        let count: usize = 3;
        push_struct(nodes, "SmallStructRem1", count);
        push_field(nodes, "x1", false);
        <u32 as WithSchema>::schema(version, nodes);
        push_field(nodes, "x2", false);
        <i32 as WithSchema>::schema(version, nodes);
        push_field(nodes, "x3", false);
        <String as WithSchema>::schema(version, nodes);
        assert(nodes.model() =~= old(nodes).model() + Self::schema_nodes(version));
    }
}

/// The same record, its first field gone after data version 0 and a field added in data version 1.
#[derive(Debug, PartialEq)]
pub struct SmallStructRem2 {
    pub x1: Removed<u32>,
    pub x2: i32,
    pub x3: String,
    pub x4: isize,
}

impl Model for SmallStructRem2 {
    /// The models of the fields, in order.
    type M = <(Removed<u32>, i32, (String, isize)) as Model>::M;

    open spec fn model(&self) -> <(Removed<u32>, i32, (String, isize)) as Model>::M {
        (self.x1.model(), self.x2.model(), (self.x3.model(), self.x4.model()))
    }
}

impl Serialize for SmallStructRem2 {
    open spec fn valid(version: u32, m: <(Removed<u32>, i32, (String, isize)) as Model>::M) -> bool {
        (version <= 0 ==> <Removed<u32> as Serialize>::valid(version, m.0)) && <i32 as Serialize>::valid(version, m.1) && <String as Serialize>::valid(version, m.2.0) && (1 <= version ==> <isize as Serialize>::valid(version, m.2.1))
    }

    /// The fields that the data version holds, one after the other.
    open spec fn encode(version: u32, m: <(Removed<u32>, i32, (String, isize)) as Model>::M) -> Seq<u8> {
        (if version <= 0 { <Removed<u32> as Serialize>::encode(version, m.0) } else { Seq::<u8>::empty() }) + <i32 as Serialize>::encode(version, m.1) + <String as Serialize>::encode(version, m.2.0) + (if 1 <= version { <isize as Serialize>::encode(version, m.2.1) } else { Seq::<u8>::empty() })
    }

    fn serialize(&self, serializer: &mut Serializer) -> (r: Result<(), SavefileError>) {
        let ghost version = serializer.file_version;
        let ghost m = self.model();
        let ghost start = serializer.writer@;
        if serializer.file_version <= 0 {
            match self.x1.serialize(serializer) {
                Ok(()) => {},
                Err(e) => {
                    return Err(e);
                },
            }
        }
        assert(serializer.writer@ =~= start + (if version <= 0 { <Removed<u32> as Serialize>::encode(version, m.0) } else { Seq::<u8>::empty() }));
        match self.x2.serialize(serializer) {
            Ok(()) => {},
            Err(e) => {
                return Err(e);
            },
        }
        assert(serializer.writer@ =~= start + (if version <= 0 { <Removed<u32> as Serialize>::encode(version, m.0) } else { Seq::<u8>::empty() }) + <i32 as Serialize>::encode(version, m.1));
        match self.x3.serialize(serializer) {
            Ok(()) => {},
            Err(e) => {
                return Err(e);
            },
        }
        assert(serializer.writer@ =~= start + (if version <= 0 { <Removed<u32> as Serialize>::encode(version, m.0) } else { Seq::<u8>::empty() }) + <i32 as Serialize>::encode(version, m.1) + <String as Serialize>::encode(version, m.2.0));
        if 1 <= serializer.file_version {
            match self.x4.serialize(serializer) {
                Ok(()) => {},
                Err(e) => {
                    return Err(e);
                },
            }
        }
        assert(serializer.writer@ =~= start + (if version <= 0 { <Removed<u32> as Serialize>::encode(version, m.0) } else { Seq::<u8>::empty() }) + <i32 as Serialize>::encode(version, m.1) + <String as Serialize>::encode(version, m.2.0) + (if 1 <= version { <isize as Serialize>::encode(version, m.2.1) } else { Seq::<u8>::empty() }));
        assert(serializer.writer@ =~= old(serializer).writer@ + Self::encode(
            old(serializer).file_version,
            self.model(),
        ));
        Ok(())
    }
}

impl Deserialize for SmallStructRem2 {
    open spec fn decode(version: u32, s: Seq<u8>) -> Option<(<(Removed<u32>, i32, (String, isize)) as Model>::M, nat)> {
        match (if version <= 0 { <Removed<u32> as Deserialize>::decode(version, s) } else { Some(((), 0nat)) }) {
            Some((v0, n0)) => match <i32 as Deserialize>::decode(version, s.skip((n0) as int)) {
                Some((v1, n1)) => match <String as Deserialize>::decode(version, s.skip((n0 + n1) as int)) {
                    Some((v2, n2)) => match (if 1 <= version { <isize as Deserialize>::decode(version, s.skip((n0 + n1 + n2) as int)) } else { Some((123isize, 0nat)) }) {
                        Some((v3, n3)) => Some(((v0, v1, (v2, v3)), n0 + n1 + n2 + n3)),
                        None => None,
                    },
                    None => None,
                },
                None => None,
            },
            None => None,
        }
    }

    fn deserialize(deserializer: &mut Deserializer) -> (r: Result<SmallStructRem2, SavefileError>) {
        let ghost s = deserializer.rest();
        let ghost p0 = deserializer.pos;
        let v0: Removed<u32> = if deserializer.file_version <= 0 {
            match <Removed<u32> as Deserialize>::deserialize(deserializer) {
                Ok(x) => x,
                Err(e) => {
                    return Err(e);
                },
            }
        } else {
            Removed::new()
        };
        assert(deserializer.rest() =~= s.skip(deserializer.pos - p0));
        let v1: i32 = match <i32 as Deserialize>::deserialize(deserializer) {
            Ok(x) => x,
            Err(e) => {
                return Err(e);
            },
        };
        assert(deserializer.rest() =~= s.skip(deserializer.pos - p0));
        let v2: String = match <String as Deserialize>::deserialize(deserializer) {
            Ok(x) => x,
            Err(e) => {
                return Err(e);
            },
        };
        assert(deserializer.rest() =~= s.skip(deserializer.pos - p0));
        let v3: isize = if 1 <= deserializer.file_version {
            match <isize as Deserialize>::deserialize(deserializer) {
                Ok(x) => x,
                Err(e) => {
                    return Err(e);
                },
            }
        } else {
            123
        };
        assert(deserializer.rest() =~= s.skip(deserializer.pos - p0));
        Ok(SmallStructRem2 { x1: v0, x2: v1, x3: v2, x4: v3 })
    }
}

impl Roundtrip for SmallStructRem2 {
    open spec fn read_back(version: u32, m: <(Removed<u32>, i32, (String, isize)) as Model>::M) -> <(Removed<u32>, i32, (String, isize)) as Model>::M {
        ((if version <= 0 { <Removed<u32> as Roundtrip>::read_back(version, m.0) } else { () }), <i32 as Roundtrip>::read_back(version, m.1), (<String as Roundtrip>::read_back(version, m.2.0), (if 1 <= version { <isize as Roundtrip>::read_back(version, m.2.1) } else { 123isize })))
    }

    #[verifier::spinoff_prover]
    proof fn lemma_roundtrip(version: u32, m: <(Removed<u32>, i32, (String, isize)) as Model>::M, rest: Seq<u8>) {
        let t4 = rest;
        let t3 = (if 1 <= version { <isize as Serialize>::encode(version, m.2.1) } else { Seq::<u8>::empty() }) + t4;
        let t2 = <String as Serialize>::encode(version, m.2.0) + t3;
        let t1 = <i32 as Serialize>::encode(version, m.1) + t2;
        let t0 = (if version <= 0 { <Removed<u32> as Serialize>::encode(version, m.0) } else { Seq::<u8>::empty() }) + t1;
        if version <= 0 {
            <Removed<u32> as Roundtrip>::lemma_roundtrip(version, m.0, t1);
        }
        <i32 as Roundtrip>::lemma_roundtrip(version, m.1, t2);
        <String as Roundtrip>::lemma_roundtrip(version, m.2.0, t3);
        if 1 <= version {
            <isize as Roundtrip>::lemma_roundtrip(version, m.2.1, t4);
        }
        assert((if version <= 0 { <Removed<u32> as Serialize>::encode(version, m.0) } else { Seq::<u8>::empty() }) + <i32 as Serialize>::encode(version, m.1) + <String as Serialize>::encode(version, m.2.0) + (if 1 <= version { <isize as Serialize>::encode(version, m.2.1) } else { Seq::<u8>::empty() }) + rest =~= t0);
        assert(t0.skip(((if version <= 0 { <Removed<u32> as Serialize>::encode(version, m.0) } else { Seq::<u8>::empty() }).len()) as int) =~= t1);
        assert(t0.skip(((if version <= 0 { <Removed<u32> as Serialize>::encode(version, m.0) } else { Seq::<u8>::empty() }).len() + <i32 as Serialize>::encode(version, m.1).len()) as int) =~= t2);
        assert(t0.skip(((if version <= 0 { <Removed<u32> as Serialize>::encode(version, m.0) } else { Seq::<u8>::empty() }).len() + <i32 as Serialize>::encode(version, m.1).len() + <String as Serialize>::encode(version, m.2.0).len()) as int) =~= t3);
        assert(t0.skip(((if version <= 0 { <Removed<u32> as Serialize>::encode(version, m.0) } else { Seq::<u8>::empty() }).len() + <i32 as Serialize>::encode(version, m.1).len() + <String as Serialize>::encode(version, m.2.0).len() + (if 1 <= version { <isize as Serialize>::encode(version, m.2.1) } else { Seq::<u8>::empty() }).len()) as int) =~= t4);
    }
}

impl WithSchema for SmallStructRem2 {
    open spec fn schema_nodes(version: u32) -> Seq<SchemaNodeModel> {
        seq![SchemaNodeModel::Struct(("SmallStructRem2"@, (2int + (if version <= 0 { 1int } else { 0int }) + (if 1 <= version { 1int } else { 0int })) as usize))]
            + (if version <= 0 { seq![SchemaNodeModel::Field(("x1"@, true))] + <Removed<u32> as WithSchema>::schema_nodes(version) } else { Seq::<SchemaNodeModel>::empty() })
            + seq![SchemaNodeModel::Field(("x2"@, false))] + <i32 as WithSchema>::schema_nodes(version)
            + seq![SchemaNodeModel::Field(("x3"@, false))] + <String as WithSchema>::schema_nodes(version)
            + (if 1 <= version { seq![SchemaNodeModel::Field(("x4"@, false))] + <isize as WithSchema>::schema_nodes(version) } else { Seq::<SchemaNodeModel>::empty() })
    }

    fn schema(version: u32, nodes: &mut Vec<SchemaNode>) {
        let mut count: usize = 0;
        if version <= 0 {
            count = count + 1;
        }
        count = count + 1;
        count = count + 1;
        if 1 <= version {
            count = count + 1;
        }
        push_struct(nodes, "SmallStructRem2", count);
        if version <= 0 {
            push_field(nodes, "x1", true);
            <Removed<u32> as WithSchema>::schema(version, nodes);
        }
        push_field(nodes, "x2", false);
        <i32 as WithSchema>::schema(version, nodes);
        push_field(nodes, "x3", false);
        <String as WithSchema>::schema(version, nodes);
        if 1 <= version {
            push_field(nodes, "x4", false);
            <isize as WithSchema>::schema(version, nodes);
        }
        assert(nodes.model() =~= old(nodes).model() + Self::schema_nodes(version));
    }
}

} // verus!
