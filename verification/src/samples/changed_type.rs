//! Records whose field changed type between data versions.
use vstd::prelude::*;

use crate::error::SavefileError;
use crate::le::{le_bytes, le_value, lemma_le_roundtrip, pow256};
use crate::packed::{close_record, combine_variant, enum_layout, number_layout, place_field, record_layout, Layout, Packed};
use crate::schema::nodes::{SchemaNode, SchemaNodeModel};
use crate::schema::with_schema::{push_enum, push_field, push_struct, push_variant, WithSchema};
use crate::serializer::{Deserializer, Serializer};
use crate::traits::{Deserialize, Model, Roundtrip, Serialize};
use crate::attrs::text::{parse_unsigned, parse_unsigned_between};
use crate::schema::with_schema::push_node;

verus! {

/// A record with one text field.
#[derive(Debug, PartialEq)]
pub struct StructWithOneType {
    pub a_str: String,
}

impl Model for StructWithOneType {
    /// The models of the fields, in order.
    type M = <String as Model>::M;

    open spec fn model(&self) -> <String as Model>::M {
        self.a_str.model()
    }
}

impl Serialize for StructWithOneType {
    open spec fn valid(version: u32, m: <String as Model>::M) -> bool {
        <String as Serialize>::valid(version, m)
    }

    /// The fields, one after the other.
    open spec fn encode(version: u32, m: <String as Model>::M) -> Seq<u8> {
        <String as Serialize>::encode(version, m)
    }

    fn serialize(&self, serializer: &mut Serializer) -> (r: Result<(), SavefileError>) {
        match self.a_str.serialize(serializer) {
            Ok(()) => {},
            Err(e) => {
                return Err(e);
            },
        }
        assert(serializer.writer@ =~= old(serializer).writer@ + Self::encode(
            old(serializer).file_version,
            self.model(),
        ));
        Ok(())
    }
}

impl Deserialize for StructWithOneType {
    open spec fn decode(version: u32, s: Seq<u8>) -> Option<(<String as Model>::M, nat)> {
        <String as Deserialize>::decode(version, s)
    }

    fn deserialize(deserializer: &mut Deserializer) -> (r: Result<StructWithOneType, SavefileError>) {
        match <String as Deserialize>::deserialize(deserializer) {
            Ok(v0) => Ok(StructWithOneType { a_str: v0 }),
            Err(e) => Err(e),
        }
    }
}

impl Roundtrip for StructWithOneType {
    open spec fn read_back(version: u32, m: <String as Model>::M) -> <String as Model>::M {
        <String as Roundtrip>::read_back(version, m)
    }

    proof fn lemma_roundtrip(version: u32, m: <String as Model>::M, rest: Seq<u8>) {
        <String as Roundtrip>::lemma_roundtrip(version, m, rest);
    }
}

impl WithSchema for StructWithOneType {
    open spec fn schema_nodes(version: u32) -> Seq<SchemaNodeModel> {
        seq![SchemaNodeModel::Struct(("StructWithOneType"@, 1usize))]
            + seq![SchemaNodeModel::Field(("a_str"@, false))] + <String as WithSchema>::schema_nodes(version)
    }

    fn schema(version: u32, nodes: &mut Vec<SchemaNode>) {
        let count: usize = 1;
        push_struct(nodes, "StructWithOneType", count);
        push_field(nodes, "a_str", false);
        <String as WithSchema>::schema(version, nodes);
        assert(nodes.model() =~= old(nodes).model() + Self::schema_nodes(version));
    }
}

/// The type the text field was changed to: a number.
#[derive(Debug, PartialEq)]
pub struct AnewType {
    pub an_u32: u32,
}

impl Model for AnewType {
    /// The models of the fields, in order.
    type M = <u32 as Model>::M;

    open spec fn model(&self) -> <u32 as Model>::M {
        self.an_u32.model()
    }
}

impl Serialize for AnewType {
    open spec fn valid(version: u32, m: <u32 as Model>::M) -> bool {
        <u32 as Serialize>::valid(version, m)
    }

    /// The fields, one after the other.
    open spec fn encode(version: u32, m: <u32 as Model>::M) -> Seq<u8> {
        <u32 as Serialize>::encode(version, m)
    }

    fn serialize(&self, serializer: &mut Serializer) -> (r: Result<(), SavefileError>) {
        match self.an_u32.serialize(serializer) {
            Ok(()) => {},
            Err(e) => {
                return Err(e);
            },
        }
        assert(serializer.writer@ =~= old(serializer).writer@ + Self::encode(
            old(serializer).file_version,
            self.model(),
        ));
        Ok(())
    }
}

impl Deserialize for AnewType {
    open spec fn decode(version: u32, s: Seq<u8>) -> Option<(<u32 as Model>::M, nat)> {
        <u32 as Deserialize>::decode(version, s)
    }

    fn deserialize(deserializer: &mut Deserializer) -> (r: Result<AnewType, SavefileError>) {
        match <u32 as Deserialize>::deserialize(deserializer) {
            Ok(v0) => Ok(AnewType { an_u32: v0 }),
            Err(e) => Err(e),
        }
    }
}

impl Roundtrip for AnewType {
    open spec fn read_back(version: u32, m: <u32 as Model>::M) -> <u32 as Model>::M {
        <u32 as Roundtrip>::read_back(version, m)
    }

    proof fn lemma_roundtrip(version: u32, m: <u32 as Model>::M, rest: Seq<u8>) {
        <u32 as Roundtrip>::lemma_roundtrip(version, m, rest);
    }
}

impl WithSchema for AnewType {
    open spec fn schema_nodes(version: u32) -> Seq<SchemaNodeModel> {
        seq![SchemaNodeModel::Struct(("AnewType"@, 1usize))]
            + seq![SchemaNodeModel::Field(("an_u32"@, false))] + <u32 as WithSchema>::schema_nodes(version)
    }

    fn schema(version: u32, nodes: &mut Vec<SchemaNode>) {
        let count: usize = 1;
        push_struct(nodes, "AnewType", count);
        push_field(nodes, "an_u32", false);
        <u32 as WithSchema>::schema(version, nodes);
        assert(nodes.model() =~= old(nodes).model() + Self::schema_nodes(version));
    }
}

impl From<String> for AnewType {
    /// Any text becomes the number 9999.
    fn from(_dummy: String) -> (r: AnewType) {
        AnewType { an_u32: 9999 }
    }
}

impl vstd::std_specs::convert::FromSpecImpl<String> for AnewType {
    open spec fn obeys_from_spec() -> bool {
        true
    }

    open spec fn from_spec(v: String) -> AnewType {
        AnewType { an_u32: 9999 }
    }
}

/// The number the text `s` spells, as an [`AnewType`].
pub fn convert2newtype(s: String) -> (r: AnewType)
    requires
        parse_unsigned(s@, u32::MAX as nat) is Some,
    ensures
        r.an_u32 == parse_unsigned(s@, u32::MAX as nat)->0,
{
    let n = s.as_str().unicode_len();
    proof {
        assert(s@.subrange(0, n as int) =~= s@);
    }
    match parse_unsigned_between(s.as_str(), 0, n, 0xFFFF_FFFFu64) {
        Some(v) => AnewType { an_u32: v as u32 },
        None => vstd::pervasive::unreached(),
    }
}

/// A record whose text field became an [`AnewType`] in data version 1: in
/// data version 0 the field is read as text and turned into a number by `From`.
#[derive(Debug, PartialEq)]
pub struct StructWithAnotherType {
    pub a_str: AnewType,
}

/// The same change of type, where the text is read as the number it spells.
#[derive(Debug, PartialEq)]
pub struct StructWithAnotherType2 {
    pub a_str: AnewType,
}

impl Model for StructWithAnotherType {
    /// The model of the field.
    type M = u32;

    open spec fn model(&self) -> u32 {
        self.a_str.an_u32
    }
}

impl Serialize for StructWithAnotherType {
    open spec fn valid(version: u32, m: u32) -> bool {
        true
    }

    /// The field from data version 1 on; nothing in data version 0, where the
    /// field was stored as text.
    open spec fn encode(version: u32, m: u32) -> Seq<u8> {
        if version >= 1 {
            le_bytes(m as nat, 4)
        } else {
            Seq::empty()
        }
    }

    fn serialize(&self, serializer: &mut Serializer) -> (r: Result<(), SavefileError>) {
        if serializer.file_version >= 1 {
            serializer.write_u32(self.a_str.an_u32);
        }
        assert(serializer.writer@ =~= old(serializer).writer@ + Self::encode(
            old(serializer).file_version,
            self.model(),
        ));
        Ok(())
    }
}

impl Deserialize for StructWithAnotherType {
    /// In data version 0 any text, which becomes 9999; from data version 1 on the number.
    open spec fn decode(version: u32, s: Seq<u8>) -> Option<(u32, nat)> {
        if version == 0 {
            match <String as Deserialize>::decode(version, s) {
                Some((_, n)) => Some((9999u32, n)),
                None => None,
            }
        } else {
            <u32 as Deserialize>::decode(version, s)
        }
    }

    fn deserialize(deserializer: &mut Deserializer) -> (r: Result<StructWithAnotherType, SavefileError>) {
        if deserializer.file_version == 0 {
            match String::deserialize(deserializer) {
                Ok(t) => Ok(StructWithAnotherType { a_str: AnewType::from(t) }),
                Err(e) => Err(e),
            }
        } else {
            match u32::deserialize(deserializer) {
                Ok(v) => Ok(StructWithAnotherType { a_str: AnewType { an_u32: v } }),
                Err(e) => Err(e),
            }
        }
    }
}

impl Model for StructWithAnotherType2 {
    /// The model of the field.
    type M = u32;

    open spec fn model(&self) -> u32 {
        self.a_str.an_u32
    }
}

impl Serialize for StructWithAnotherType2 {
    open spec fn valid(version: u32, m: u32) -> bool {
        true
    }

    /// The field from data version 1 on; nothing in data version 0, where the
    /// field was stored as text.
    open spec fn encode(version: u32, m: u32) -> Seq<u8> {
        if version >= 1 {
            le_bytes(m as nat, 4)
        } else {
            Seq::empty()
        }
    }

    fn serialize(&self, serializer: &mut Serializer) -> (r: Result<(), SavefileError>) {
        if serializer.file_version >= 1 {
            serializer.write_u32(self.a_str.an_u32);
        }
        assert(serializer.writer@ =~= old(serializer).writer@ + Self::encode(
            old(serializer).file_version,
            self.model(),
        ));
        Ok(())
    }
}

impl Deserialize for StructWithAnotherType2 {
    /// In data version 0 text that spells a number, which becomes that number
    /// (other text is refused); from data version 1 on the number.
    open spec fn decode(version: u32, s: Seq<u8>) -> Option<(u32, nat)> {
        if version == 0 {
            match <String as Deserialize>::decode(version, s) {
                Some((t, n)) => match parse_unsigned(t, u32::MAX as nat) {
                    Some(v) => Some((v as u32, n)),
                    None => None,
                },
                None => None,
            }
        } else {
            <u32 as Deserialize>::decode(version, s)
        }
    }

    fn deserialize(deserializer: &mut Deserializer) -> (r: Result<StructWithAnotherType2, SavefileError>) {
        if deserializer.file_version == 0 {
            match String::deserialize(deserializer) {
                Ok(t) => {
                    let n = t.as_str().unicode_len();
                    proof {
                        assert(t@.subrange(0, n as int) =~= t@);
                    }
                    if parse_unsigned_between(t.as_str(), 0, n, 0xFFFF_FFFFu64).is_none() {
                        return Err(SavefileError::GeneralError { msg: String::from_str("invalid digit found in string") });
                    }
                    Ok(StructWithAnotherType2 { a_str: convert2newtype(t) })
                },
                Err(e) => Err(e),
            }
        } else {
            match u32::deserialize(deserializer) {
                Ok(v) => Ok(StructWithAnotherType2 { a_str: AnewType { an_u32: v } }),
                Err(e) => Err(e),
            }
        }
    }
}

/// The schema of a record named `name` whose field `a_str` is text in data
/// version 0 and an [`AnewType`] from version 1 on.
pub open spec fn changed_schema(name: Seq<char>, version: u32) -> Seq<SchemaNodeModel> {
    seq![SchemaNodeModel::Struct((name, 1usize)), SchemaNodeModel::Field(("a_str"@, false))] + if version
        == 0 {
        <String as WithSchema>::schema_nodes(version)
    } else {
        <AnewType as WithSchema>::schema_nodes(version)
    }
}

fn push_changed_schema(nodes: &mut Vec<SchemaNode>, name: &str, version: u32)
    ensures
        final(nodes).model() == old(nodes).model() + changed_schema(name@, version),
{
    push_struct(nodes, name, 1);
    push_field(nodes, "a_str", false);
    if version == 0 {
        <String as WithSchema>::schema(version, nodes);
    } else {
        <AnewType as WithSchema>::schema(version, nodes);
    }
    assert(nodes.model() =~= old(nodes).model() + changed_schema(name@, version));
}

impl WithSchema for StructWithAnotherType {
    open spec fn schema_nodes(version: u32) -> Seq<SchemaNodeModel> {
        changed_schema("StructWithAnotherType"@, version)
    }

    fn schema(version: u32, nodes: &mut Vec<SchemaNode>) {
        push_changed_schema(nodes, "StructWithAnotherType", version);
    }
}

impl WithSchema for StructWithAnotherType2 {
    open spec fn schema_nodes(version: u32) -> Seq<SchemaNodeModel> {
        changed_schema("StructWithAnotherType2"@, version)
    }

    fn schema(version: u32, nodes: &mut Vec<SchemaNode>) {
        push_changed_schema(nodes, "StructWithAnotherType2", version);
    }
}

} // verus!
