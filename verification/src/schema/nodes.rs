//! The nodes schemas are made of.
use vstd::prelude::*;

use crate::error::SavefileError;
use crate::le::{le_bytes, le_value, lemma_le_roundtrip, pow256};
use crate::serializer::{Deserializer, Serializer};
use crate::traits::{Deserialize, Model, Roundtrip, Serialize};

verus! {

#[allow(non_camel_case_types)]
/// The built-in types a schema can name.
#[derive(Debug, PartialEq, Clone, Copy)]
pub enum SchemaPrimitive {
    schema_i8,
    schema_u8,
    schema_i16,
    schema_u16,
    schema_i32,
    schema_u32,
    schema_i64,
    schema_u64,
    schema_usize,
    schema_isize,
    schema_bool,
    schema_char,
    schema_string,
    schema_unit,
}

/// The model of a [`SchemaPrimitive`]: the same variant, with the models of its fields.
#[allow(non_camel_case_types)]
pub enum SchemaPrimitiveModel {
    schema_i8,
    schema_u8,
    schema_i16,
    schema_u16,
    schema_i32,
    schema_u32,
    schema_i64,
    schema_u64,
    schema_usize,
    schema_isize,
    schema_bool,
    schema_char,
    schema_string,
    schema_unit,
}

impl Model for SchemaPrimitive {
    type M = SchemaPrimitiveModel;

    open spec fn model(&self) -> SchemaPrimitiveModel {
        match self {
            SchemaPrimitive::schema_i8 => SchemaPrimitiveModel::schema_i8,
            SchemaPrimitive::schema_u8 => SchemaPrimitiveModel::schema_u8,
            SchemaPrimitive::schema_i16 => SchemaPrimitiveModel::schema_i16,
            SchemaPrimitive::schema_u16 => SchemaPrimitiveModel::schema_u16,
            SchemaPrimitive::schema_i32 => SchemaPrimitiveModel::schema_i32,
            SchemaPrimitive::schema_u32 => SchemaPrimitiveModel::schema_u32,
            SchemaPrimitive::schema_i64 => SchemaPrimitiveModel::schema_i64,
            SchemaPrimitive::schema_u64 => SchemaPrimitiveModel::schema_u64,
            SchemaPrimitive::schema_usize => SchemaPrimitiveModel::schema_usize,
            SchemaPrimitive::schema_isize => SchemaPrimitiveModel::schema_isize,
            SchemaPrimitive::schema_bool => SchemaPrimitiveModel::schema_bool,
            SchemaPrimitive::schema_char => SchemaPrimitiveModel::schema_char,
            SchemaPrimitive::schema_string => SchemaPrimitiveModel::schema_string,
            SchemaPrimitive::schema_unit => SchemaPrimitiveModel::schema_unit,
        }
    }
}

impl Serialize for SchemaPrimitive {
    open spec fn valid(version: u32, m: SchemaPrimitiveModel) -> bool {
        match m {
            SchemaPrimitiveModel::schema_i8 => true,
            SchemaPrimitiveModel::schema_u8 => true,
            SchemaPrimitiveModel::schema_i16 => true,
            SchemaPrimitiveModel::schema_u16 => true,
            SchemaPrimitiveModel::schema_i32 => true,
            SchemaPrimitiveModel::schema_u32 => true,
            SchemaPrimitiveModel::schema_i64 => true,
            SchemaPrimitiveModel::schema_u64 => true,
            SchemaPrimitiveModel::schema_usize => true,
            SchemaPrimitiveModel::schema_isize => true,
            SchemaPrimitiveModel::schema_bool => true,
            SchemaPrimitiveModel::schema_char => true,
            SchemaPrimitiveModel::schema_string => true,
            SchemaPrimitiveModel::schema_unit => true,
        }
    }

    /// The position of the variant in the declaration, as 1 byte(s), then the fields of the variant.
    open spec fn encode(version: u32, m: SchemaPrimitiveModel) -> Seq<u8> {
        match m {
            SchemaPrimitiveModel::schema_i8 => le_bytes(0, 1),
            SchemaPrimitiveModel::schema_u8 => le_bytes(1, 1),
            SchemaPrimitiveModel::schema_i16 => le_bytes(2, 1),
            SchemaPrimitiveModel::schema_u16 => le_bytes(3, 1),
            SchemaPrimitiveModel::schema_i32 => le_bytes(4, 1),
            SchemaPrimitiveModel::schema_u32 => le_bytes(5, 1),
            SchemaPrimitiveModel::schema_i64 => le_bytes(6, 1),
            SchemaPrimitiveModel::schema_u64 => le_bytes(7, 1),
            SchemaPrimitiveModel::schema_usize => le_bytes(8, 1),
            SchemaPrimitiveModel::schema_isize => le_bytes(9, 1),
            SchemaPrimitiveModel::schema_bool => le_bytes(10, 1),
            SchemaPrimitiveModel::schema_char => le_bytes(11, 1),
            SchemaPrimitiveModel::schema_string => le_bytes(12, 1),
            SchemaPrimitiveModel::schema_unit => le_bytes(13, 1),
        }
    }

    fn serialize(&self, serializer: &mut Serializer) -> (r: Result<(), SavefileError>) {
        let ghost version = serializer.file_version;
        let ghost start0 = serializer.writer@;
        match self {
            SchemaPrimitive::schema_i8 => {
                serializer.write_u8(0);
            },
            SchemaPrimitive::schema_u8 => {
                serializer.write_u8(1);
            },
            SchemaPrimitive::schema_i16 => {
                serializer.write_u8(2);
            },
            SchemaPrimitive::schema_u16 => {
                serializer.write_u8(3);
            },
            SchemaPrimitive::schema_i32 => {
                serializer.write_u8(4);
            },
            SchemaPrimitive::schema_u32 => {
                serializer.write_u8(5);
            },
            SchemaPrimitive::schema_i64 => {
                serializer.write_u8(6);
            },
            SchemaPrimitive::schema_u64 => {
                serializer.write_u8(7);
            },
            SchemaPrimitive::schema_usize => {
                serializer.write_u8(8);
            },
            SchemaPrimitive::schema_isize => {
                serializer.write_u8(9);
            },
            SchemaPrimitive::schema_bool => {
                serializer.write_u8(10);
            },
            SchemaPrimitive::schema_char => {
                serializer.write_u8(11);
            },
            SchemaPrimitive::schema_string => {
                serializer.write_u8(12);
            },
            SchemaPrimitive::schema_unit => {
                serializer.write_u8(13);
            },
        }
        assert(serializer.writer@ =~= old(serializer).writer@ + Self::encode(
            old(serializer).file_version,
            self.model(),
        ));
        Ok(())
    }
}

impl Deserialize for SchemaPrimitive {
    /// Unknown variant numbers are refused.
    open spec fn decode(version: u32, s: Seq<u8>) -> Option<(SchemaPrimitiveModel, nat)> {
        if s.len() < 1 {
            None
        } else if le_value(s.take(1)) == 0 {
            Some((SchemaPrimitiveModel::schema_i8, 1))
        } else if le_value(s.take(1)) == 1 {
            Some((SchemaPrimitiveModel::schema_u8, 1))
        } else if le_value(s.take(1)) == 2 {
            Some((SchemaPrimitiveModel::schema_i16, 1))
        } else if le_value(s.take(1)) == 3 {
            Some((SchemaPrimitiveModel::schema_u16, 1))
        } else if le_value(s.take(1)) == 4 {
            Some((SchemaPrimitiveModel::schema_i32, 1))
        } else if le_value(s.take(1)) == 5 {
            Some((SchemaPrimitiveModel::schema_u32, 1))
        } else if le_value(s.take(1)) == 6 {
            Some((SchemaPrimitiveModel::schema_i64, 1))
        } else if le_value(s.take(1)) == 7 {
            Some((SchemaPrimitiveModel::schema_u64, 1))
        } else if le_value(s.take(1)) == 8 {
            Some((SchemaPrimitiveModel::schema_usize, 1))
        } else if le_value(s.take(1)) == 9 {
            Some((SchemaPrimitiveModel::schema_isize, 1))
        } else if le_value(s.take(1)) == 10 {
            Some((SchemaPrimitiveModel::schema_bool, 1))
        } else if le_value(s.take(1)) == 11 {
            Some((SchemaPrimitiveModel::schema_char, 1))
        } else if le_value(s.take(1)) == 12 {
            Some((SchemaPrimitiveModel::schema_string, 1))
        } else if le_value(s.take(1)) == 13 {
            Some((SchemaPrimitiveModel::schema_unit, 1))
        } else {
            None
        }
    }

    fn deserialize(deserializer: &mut Deserializer) -> (r: Result<SchemaPrimitive, SavefileError>) {
        let ghost s0 = deserializer.rest();
        let tag = match deserializer.read_uint(1) {
            Ok(t) => t,
            Err(e) => {
                return Err(e);
            },
        };
        assert(deserializer.rest() =~= s0.skip(1));
        if tag == 0 {
            Ok(SchemaPrimitive::schema_i8)
        } else if tag == 1 {
            Ok(SchemaPrimitive::schema_u8)
        } else if tag == 2 {
            Ok(SchemaPrimitive::schema_i16)
        } else if tag == 3 {
            Ok(SchemaPrimitive::schema_u16)
        } else if tag == 4 {
            Ok(SchemaPrimitive::schema_i32)
        } else if tag == 5 {
            Ok(SchemaPrimitive::schema_u32)
        } else if tag == 6 {
            Ok(SchemaPrimitive::schema_i64)
        } else if tag == 7 {
            Ok(SchemaPrimitive::schema_u64)
        } else if tag == 8 {
            Ok(SchemaPrimitive::schema_usize)
        } else if tag == 9 {
            Ok(SchemaPrimitive::schema_isize)
        } else if tag == 10 {
            Ok(SchemaPrimitive::schema_bool)
        } else if tag == 11 {
            Ok(SchemaPrimitive::schema_char)
        } else if tag == 12 {
            Ok(SchemaPrimitive::schema_string)
        } else if tag == 13 {
            Ok(SchemaPrimitive::schema_unit)
        } else {
            Err(SavefileError::BadDiscriminant)
        }
    }
}

impl Roundtrip for SchemaPrimitive {
    open spec fn read_back(version: u32, m: SchemaPrimitiveModel) -> SchemaPrimitiveModel {
        match m {
            SchemaPrimitiveModel::schema_i8 => SchemaPrimitiveModel::schema_i8,
            SchemaPrimitiveModel::schema_u8 => SchemaPrimitiveModel::schema_u8,
            SchemaPrimitiveModel::schema_i16 => SchemaPrimitiveModel::schema_i16,
            SchemaPrimitiveModel::schema_u16 => SchemaPrimitiveModel::schema_u16,
            SchemaPrimitiveModel::schema_i32 => SchemaPrimitiveModel::schema_i32,
            SchemaPrimitiveModel::schema_u32 => SchemaPrimitiveModel::schema_u32,
            SchemaPrimitiveModel::schema_i64 => SchemaPrimitiveModel::schema_i64,
            SchemaPrimitiveModel::schema_u64 => SchemaPrimitiveModel::schema_u64,
            SchemaPrimitiveModel::schema_usize => SchemaPrimitiveModel::schema_usize,
            SchemaPrimitiveModel::schema_isize => SchemaPrimitiveModel::schema_isize,
            SchemaPrimitiveModel::schema_bool => SchemaPrimitiveModel::schema_bool,
            SchemaPrimitiveModel::schema_char => SchemaPrimitiveModel::schema_char,
            SchemaPrimitiveModel::schema_string => SchemaPrimitiveModel::schema_string,
            SchemaPrimitiveModel::schema_unit => SchemaPrimitiveModel::schema_unit,
        }
    }

    #[verifier::spinoff_prover]
    proof fn lemma_roundtrip(version: u32, m: SchemaPrimitiveModel, rest: Seq<u8>) {
        reveal_with_fuel(pow256, 2);
        let all = Self::encode(version, m) + rest;
        match m {
            SchemaPrimitiveModel::schema_i8 => {
                lemma_le_roundtrip(0, 1);
                assert(all.take(1) =~= le_bytes(0, 1));
            },
            SchemaPrimitiveModel::schema_u8 => {
                lemma_le_roundtrip(1, 1);
                assert(all.take(1) =~= le_bytes(1, 1));
            },
            SchemaPrimitiveModel::schema_i16 => {
                lemma_le_roundtrip(2, 1);
                assert(all.take(1) =~= le_bytes(2, 1));
            },
            SchemaPrimitiveModel::schema_u16 => {
                lemma_le_roundtrip(3, 1);
                assert(all.take(1) =~= le_bytes(3, 1));
            },
            SchemaPrimitiveModel::schema_i32 => {
                lemma_le_roundtrip(4, 1);
                assert(all.take(1) =~= le_bytes(4, 1));
            },
            SchemaPrimitiveModel::schema_u32 => {
                lemma_le_roundtrip(5, 1);
                assert(all.take(1) =~= le_bytes(5, 1));
            },
            SchemaPrimitiveModel::schema_i64 => {
                lemma_le_roundtrip(6, 1);
                assert(all.take(1) =~= le_bytes(6, 1));
            },
            SchemaPrimitiveModel::schema_u64 => {
                lemma_le_roundtrip(7, 1);
                assert(all.take(1) =~= le_bytes(7, 1));
            },
            SchemaPrimitiveModel::schema_usize => {
                lemma_le_roundtrip(8, 1);
                assert(all.take(1) =~= le_bytes(8, 1));
            },
            SchemaPrimitiveModel::schema_isize => {
                lemma_le_roundtrip(9, 1);
                assert(all.take(1) =~= le_bytes(9, 1));
            },
            SchemaPrimitiveModel::schema_bool => {
                lemma_le_roundtrip(10, 1);
                assert(all.take(1) =~= le_bytes(10, 1));
            },
            SchemaPrimitiveModel::schema_char => {
                lemma_le_roundtrip(11, 1);
                assert(all.take(1) =~= le_bytes(11, 1));
            },
            SchemaPrimitiveModel::schema_string => {
                lemma_le_roundtrip(12, 1);
                assert(all.take(1) =~= le_bytes(12, 1));
            },
            SchemaPrimitiveModel::schema_unit => {
                lemma_le_roundtrip(13, 1);
                assert(all.take(1) =~= le_bytes(13, 1));
            },
        }
    }
}

/// One node of a schema, which lists the nodes of a type tree in prefix order: a node that has children is followed by the nodes of each child.
#[derive(Debug, PartialEq, Clone)]
pub enum SchemaNode {
    Primitive(SchemaPrimitive),
    Vector,
    Struct { dbg_name: String, field_count: usize },
    Field { name: String, removed: bool },
    Enum { dbg_name: String, discriminant_size: u8, variant_count: usize },
    Variant { name: String, field_count: usize },
    SchemaOption,
    Boxed,
    Reference,
    ZeroSize,
    Recursion(usize),
    Trait { name: String, mutable: bool },
    Array(usize),
}

/// The model of a [`SchemaNode`]: the same variant, with the models of its fields.
pub enum SchemaNodeModel {
    Primitive(<SchemaPrimitive as Model>::M),
    Vector,
    Struct(<(String, usize) as Model>::M),
    Field(<(String, bool) as Model>::M),
    Enum(<(String, u8, usize) as Model>::M),
    Variant(<(String, usize) as Model>::M),
    SchemaOption,
    Boxed,
    Reference,
    ZeroSize,
    Recursion(<usize as Model>::M),
    Trait(<(String, bool) as Model>::M),
    Array(<usize as Model>::M),
}

impl Model for SchemaNode {
    type M = SchemaNodeModel;

    open spec fn model(&self) -> SchemaNodeModel {
        match self {
            SchemaNode::Primitive(f0) => SchemaNodeModel::Primitive(f0.model()),
            SchemaNode::Vector => SchemaNodeModel::Vector,
            SchemaNode::Struct { dbg_name: f0, field_count: f1 } => SchemaNodeModel::Struct((f0.model(), f1.model())),
            SchemaNode::Field { name: f0, removed: f1 } => SchemaNodeModel::Field((f0.model(), f1.model())),
            SchemaNode::Enum { dbg_name: f0, discriminant_size: f1, variant_count: f2 } => SchemaNodeModel::Enum((f0.model(), f1.model(), f2.model())),
            SchemaNode::Variant { name: f0, field_count: f1 } => SchemaNodeModel::Variant((f0.model(), f1.model())),
            SchemaNode::SchemaOption => SchemaNodeModel::SchemaOption,
            SchemaNode::Boxed => SchemaNodeModel::Boxed,
            SchemaNode::Reference => SchemaNodeModel::Reference,
            SchemaNode::ZeroSize => SchemaNodeModel::ZeroSize,
            SchemaNode::Recursion(f0) => SchemaNodeModel::Recursion(f0.model()),
            SchemaNode::Trait { name: f0, mutable: f1 } => SchemaNodeModel::Trait((f0.model(), f1.model())),
            SchemaNode::Array(f0) => SchemaNodeModel::Array(f0.model()),
        }
    }
}

impl Serialize for SchemaNode {
    open spec fn valid(version: u32, m: SchemaNodeModel) -> bool {
        match m {
            SchemaNodeModel::Primitive(t) => <SchemaPrimitive as Serialize>::valid(version, t),
            SchemaNodeModel::Vector => true,
            SchemaNodeModel::Struct(t) => <(String, usize) as Serialize>::valid(version, t),
            SchemaNodeModel::Field(t) => <(String, bool) as Serialize>::valid(version, t),
            SchemaNodeModel::Enum(t) => <(String, u8, usize) as Serialize>::valid(version, t),
            SchemaNodeModel::Variant(t) => <(String, usize) as Serialize>::valid(version, t),
            SchemaNodeModel::SchemaOption => true,
            SchemaNodeModel::Boxed => true,
            SchemaNodeModel::Reference => true,
            SchemaNodeModel::ZeroSize => true,
            SchemaNodeModel::Recursion(t) => <usize as Serialize>::valid(version, t),
            SchemaNodeModel::Trait(t) => <(String, bool) as Serialize>::valid(version, t),
            SchemaNodeModel::Array(t) => <usize as Serialize>::valid(version, t),
        }
    }

    /// The position of the variant in the declaration, as 1 byte(s), then the fields of the variant.
    open spec fn encode(version: u32, m: SchemaNodeModel) -> Seq<u8> {
        match m {
            SchemaNodeModel::Primitive(t) => le_bytes(0, 1) + <SchemaPrimitive as Serialize>::encode(version, t),
            SchemaNodeModel::Vector => le_bytes(1, 1),
            SchemaNodeModel::Struct(t) => le_bytes(2, 1) + <(String, usize) as Serialize>::encode(version, t),
            SchemaNodeModel::Field(t) => le_bytes(3, 1) + <(String, bool) as Serialize>::encode(version, t),
            SchemaNodeModel::Enum(t) => le_bytes(4, 1) + <(String, u8, usize) as Serialize>::encode(version, t),
            SchemaNodeModel::Variant(t) => le_bytes(5, 1) + <(String, usize) as Serialize>::encode(version, t),
            SchemaNodeModel::SchemaOption => le_bytes(6, 1),
            SchemaNodeModel::Boxed => le_bytes(7, 1),
            SchemaNodeModel::Reference => le_bytes(8, 1),
            SchemaNodeModel::ZeroSize => le_bytes(9, 1),
            SchemaNodeModel::Recursion(t) => le_bytes(10, 1) + <usize as Serialize>::encode(version, t),
            SchemaNodeModel::Trait(t) => le_bytes(11, 1) + <(String, bool) as Serialize>::encode(version, t),
            SchemaNodeModel::Array(t) => le_bytes(12, 1) + <usize as Serialize>::encode(version, t),
        }
    }

    fn serialize(&self, serializer: &mut Serializer) -> (r: Result<(), SavefileError>) {
        let ghost version = serializer.file_version;
        let ghost start0 = serializer.writer@;
        match self {
            SchemaNode::Primitive(f0) => {
                serializer.write_u8(0);
                match f0.serialize(serializer) {
                    Ok(()) => {},
                    Err(e) => {
                        return Err(e);
                    },
                }
            },
            SchemaNode::Vector => {
                serializer.write_u8(1);
            },
            SchemaNode::Struct { dbg_name: f0, field_count: f1 } => {
                serializer.write_u8(2);
                match f0.serialize(serializer) {
                    Ok(()) => {},
                    Err(e) => {
                        return Err(e);
                    },
                }
                match f1.serialize(serializer) {
                    Ok(()) => {},
                    Err(e) => {
                        return Err(e);
                    },
                }
            },
            SchemaNode::Field { name: f0, removed: f1 } => {
                serializer.write_u8(3);
                match f0.serialize(serializer) {
                    Ok(()) => {},
                    Err(e) => {
                        return Err(e);
                    },
                }
                match f1.serialize(serializer) {
                    Ok(()) => {},
                    Err(e) => {
                        return Err(e);
                    },
                }
            },
            SchemaNode::Enum { dbg_name: f0, discriminant_size: f1, variant_count: f2 } => {
                serializer.write_u8(4);
                match f0.serialize(serializer) {
                    Ok(()) => {},
                    Err(e) => {
                        return Err(e);
                    },
                }
                match f1.serialize(serializer) {
                    Ok(()) => {},
                    Err(e) => {
                        return Err(e);
                    },
                }
                match f2.serialize(serializer) {
                    Ok(()) => {},
                    Err(e) => {
                        return Err(e);
                    },
                }
            },
            SchemaNode::Variant { name: f0, field_count: f1 } => {
                serializer.write_u8(5);
                match f0.serialize(serializer) {
                    Ok(()) => {},
                    Err(e) => {
                        return Err(e);
                    },
                }
                match f1.serialize(serializer) {
                    Ok(()) => {},
                    Err(e) => {
                        return Err(e);
                    },
                }
            },
            SchemaNode::SchemaOption => {
                serializer.write_u8(6);
            },
            SchemaNode::Boxed => {
                serializer.write_u8(7);
            },
            SchemaNode::Reference => {
                serializer.write_u8(8);
            },
            SchemaNode::ZeroSize => {
                serializer.write_u8(9);
            },
            SchemaNode::Recursion(f0) => {
                serializer.write_u8(10);
                match f0.serialize(serializer) {
                    Ok(()) => {},
                    Err(e) => {
                        return Err(e);
                    },
                }
            },
            SchemaNode::Trait { name: f0, mutable: f1 } => {
                serializer.write_u8(11);
                match f0.serialize(serializer) {
                    Ok(()) => {},
                    Err(e) => {
                        return Err(e);
                    },
                }
                match f1.serialize(serializer) {
                    Ok(()) => {},
                    Err(e) => {
                        return Err(e);
                    },
                }
            },
            SchemaNode::Array(f0) => {
                serializer.write_u8(12);
                match f0.serialize(serializer) {
                    Ok(()) => {},
                    Err(e) => {
                        return Err(e);
                    },
                }
            },
        }
        assert(serializer.writer@ =~= old(serializer).writer@ + Self::encode(
            old(serializer).file_version,
            self.model(),
        ));
        Ok(())
    }
}

impl Deserialize for SchemaNode {
    /// Unknown variant numbers are refused.
    open spec fn decode(version: u32, s: Seq<u8>) -> Option<(SchemaNodeModel, nat)> {
        if s.len() < 1 {
            None
        } else if le_value(s.take(1)) == 0 {
            match <SchemaPrimitive as Deserialize>::decode(version, s.skip(1)) {
                Some((t, n)) => Some((SchemaNodeModel::Primitive(t), n + 1)),
                None => None,
            }
        } else if le_value(s.take(1)) == 1 {
            Some((SchemaNodeModel::Vector, 1))
        } else if le_value(s.take(1)) == 2 {
            match <(String, usize) as Deserialize>::decode(version, s.skip(1)) {
                Some((t, n)) => Some((SchemaNodeModel::Struct(t), n + 1)),
                None => None,
            }
        } else if le_value(s.take(1)) == 3 {
            match <(String, bool) as Deserialize>::decode(version, s.skip(1)) {
                Some((t, n)) => Some((SchemaNodeModel::Field(t), n + 1)),
                None => None,
            }
        } else if le_value(s.take(1)) == 4 {
            match <(String, u8, usize) as Deserialize>::decode(version, s.skip(1)) {
                Some((t, n)) => Some((SchemaNodeModel::Enum(t), n + 1)),
                None => None,
            }
        } else if le_value(s.take(1)) == 5 {
            match <(String, usize) as Deserialize>::decode(version, s.skip(1)) {
                Some((t, n)) => Some((SchemaNodeModel::Variant(t), n + 1)),
                None => None,
            }
        } else if le_value(s.take(1)) == 6 {
            Some((SchemaNodeModel::SchemaOption, 1))
        } else if le_value(s.take(1)) == 7 {
            Some((SchemaNodeModel::Boxed, 1))
        } else if le_value(s.take(1)) == 8 {
            Some((SchemaNodeModel::Reference, 1))
        } else if le_value(s.take(1)) == 9 {
            Some((SchemaNodeModel::ZeroSize, 1))
        } else if le_value(s.take(1)) == 10 {
            match <usize as Deserialize>::decode(version, s.skip(1)) {
                Some((t, n)) => Some((SchemaNodeModel::Recursion(t), n + 1)),
                None => None,
            }
        } else if le_value(s.take(1)) == 11 {
            match <(String, bool) as Deserialize>::decode(version, s.skip(1)) {
                Some((t, n)) => Some((SchemaNodeModel::Trait(t), n + 1)),
                None => None,
            }
        } else if le_value(s.take(1)) == 12 {
            match <usize as Deserialize>::decode(version, s.skip(1)) {
                Some((t, n)) => Some((SchemaNodeModel::Array(t), n + 1)),
                None => None,
            }
        } else {
            None
        }
    }

    fn deserialize(deserializer: &mut Deserializer) -> (r: Result<SchemaNode, SavefileError>) {
        let ghost s0 = deserializer.rest();
        let tag = match deserializer.read_uint(1) {
            Ok(t) => t,
            Err(e) => {
                return Err(e);
            },
        };
        assert(deserializer.rest() =~= s0.skip(1));
        if tag == 0 {
            match <SchemaPrimitive as Deserialize>::deserialize(deserializer) {
                Ok(v0) => Ok(SchemaNode::Primitive(v0)),
                Err(e) => Err(e),
            }
        } else if tag == 1 {
            Ok(SchemaNode::Vector)
        } else if tag == 2 {
            match <(String, usize) as Deserialize>::deserialize(deserializer) {
                Ok((v0, v1)) => Ok(SchemaNode::Struct { dbg_name: v0, field_count: v1 }),
                Err(e) => Err(e),
            }
        } else if tag == 3 {
            match <(String, bool) as Deserialize>::deserialize(deserializer) {
                Ok((v0, v1)) => Ok(SchemaNode::Field { name: v0, removed: v1 }),
                Err(e) => Err(e),
            }
        } else if tag == 4 {
            match <(String, u8, usize) as Deserialize>::deserialize(deserializer) {
                Ok((v0, v1, v2)) => Ok(SchemaNode::Enum { dbg_name: v0, discriminant_size: v1, variant_count: v2 }),
                Err(e) => Err(e),
            }
        } else if tag == 5 {
            match <(String, usize) as Deserialize>::deserialize(deserializer) {
                Ok((v0, v1)) => Ok(SchemaNode::Variant { name: v0, field_count: v1 }),
                Err(e) => Err(e),
            }
        } else if tag == 6 {
            Ok(SchemaNode::SchemaOption)
        } else if tag == 7 {
            Ok(SchemaNode::Boxed)
        } else if tag == 8 {
            Ok(SchemaNode::Reference)
        } else if tag == 9 {
            Ok(SchemaNode::ZeroSize)
        } else if tag == 10 {
            match <usize as Deserialize>::deserialize(deserializer) {
                Ok(v0) => Ok(SchemaNode::Recursion(v0)),
                Err(e) => Err(e),
            }
        } else if tag == 11 {
            match <(String, bool) as Deserialize>::deserialize(deserializer) {
                Ok((v0, v1)) => Ok(SchemaNode::Trait { name: v0, mutable: v1 }),
                Err(e) => Err(e),
            }
        } else if tag == 12 {
            match <usize as Deserialize>::deserialize(deserializer) {
                Ok(v0) => Ok(SchemaNode::Array(v0)),
                Err(e) => Err(e),
            }
        } else {
            Err(SavefileError::BadDiscriminant)
        }
    }
}

impl Roundtrip for SchemaNode {
    open spec fn read_back(version: u32, m: SchemaNodeModel) -> SchemaNodeModel {
        match m {
            SchemaNodeModel::Primitive(t) => SchemaNodeModel::Primitive(<SchemaPrimitive as Roundtrip>::read_back(version, t)),
            SchemaNodeModel::Vector => SchemaNodeModel::Vector,
            SchemaNodeModel::Struct(t) => SchemaNodeModel::Struct(<(String, usize) as Roundtrip>::read_back(version, t)),
            SchemaNodeModel::Field(t) => SchemaNodeModel::Field(<(String, bool) as Roundtrip>::read_back(version, t)),
            SchemaNodeModel::Enum(t) => SchemaNodeModel::Enum(<(String, u8, usize) as Roundtrip>::read_back(version, t)),
            SchemaNodeModel::Variant(t) => SchemaNodeModel::Variant(<(String, usize) as Roundtrip>::read_back(version, t)),
            SchemaNodeModel::SchemaOption => SchemaNodeModel::SchemaOption,
            SchemaNodeModel::Boxed => SchemaNodeModel::Boxed,
            SchemaNodeModel::Reference => SchemaNodeModel::Reference,
            SchemaNodeModel::ZeroSize => SchemaNodeModel::ZeroSize,
            SchemaNodeModel::Recursion(t) => SchemaNodeModel::Recursion(<usize as Roundtrip>::read_back(version, t)),
            SchemaNodeModel::Trait(t) => SchemaNodeModel::Trait(<(String, bool) as Roundtrip>::read_back(version, t)),
            SchemaNodeModel::Array(t) => SchemaNodeModel::Array(<usize as Roundtrip>::read_back(version, t)),
        }
    }

    #[verifier::spinoff_prover]
    proof fn lemma_roundtrip(version: u32, m: SchemaNodeModel, rest: Seq<u8>) {
        reveal_with_fuel(pow256, 2);
        let all = Self::encode(version, m) + rest;
        match m {
            SchemaNodeModel::Primitive(t) => {
                lemma_le_roundtrip(0, 1);
                assert(all.take(1) =~= le_bytes(0, 1));
                assert(all.skip(1) =~= <SchemaPrimitive as Serialize>::encode(version, t) + rest);
                <SchemaPrimitive as Roundtrip>::lemma_roundtrip(version, t, rest);
            },
            SchemaNodeModel::Vector => {
                lemma_le_roundtrip(1, 1);
                assert(all.take(1) =~= le_bytes(1, 1));
            },
            SchemaNodeModel::Struct(t) => {
                lemma_le_roundtrip(2, 1);
                assert(all.take(1) =~= le_bytes(2, 1));
                assert(all.skip(1) =~= <(String, usize) as Serialize>::encode(version, t) + rest);
                <(String, usize) as Roundtrip>::lemma_roundtrip(version, t, rest);
            },
            SchemaNodeModel::Field(t) => {
                lemma_le_roundtrip(3, 1);
                assert(all.take(1) =~= le_bytes(3, 1));
                assert(all.skip(1) =~= <(String, bool) as Serialize>::encode(version, t) + rest);
                <(String, bool) as Roundtrip>::lemma_roundtrip(version, t, rest);
            },
            SchemaNodeModel::Enum(t) => {
                lemma_le_roundtrip(4, 1);
                assert(all.take(1) =~= le_bytes(4, 1));
                assert(all.skip(1) =~= <(String, u8, usize) as Serialize>::encode(version, t) + rest);
                <(String, u8, usize) as Roundtrip>::lemma_roundtrip(version, t, rest);
            },
            SchemaNodeModel::Variant(t) => {
                lemma_le_roundtrip(5, 1);
                assert(all.take(1) =~= le_bytes(5, 1));
                assert(all.skip(1) =~= <(String, usize) as Serialize>::encode(version, t) + rest);
                <(String, usize) as Roundtrip>::lemma_roundtrip(version, t, rest);
            },
            SchemaNodeModel::SchemaOption => {
                lemma_le_roundtrip(6, 1);
                assert(all.take(1) =~= le_bytes(6, 1));
            },
            SchemaNodeModel::Boxed => {
                lemma_le_roundtrip(7, 1);
                assert(all.take(1) =~= le_bytes(7, 1));
            },
            SchemaNodeModel::Reference => {
                lemma_le_roundtrip(8, 1);
                assert(all.take(1) =~= le_bytes(8, 1));
            },
            SchemaNodeModel::ZeroSize => {
                lemma_le_roundtrip(9, 1);
                assert(all.take(1) =~= le_bytes(9, 1));
            },
            SchemaNodeModel::Recursion(t) => {
                lemma_le_roundtrip(10, 1);
                assert(all.take(1) =~= le_bytes(10, 1));
                assert(all.skip(1) =~= <usize as Serialize>::encode(version, t) + rest);
                <usize as Roundtrip>::lemma_roundtrip(version, t, rest);
            },
            SchemaNodeModel::Trait(t) => {
                lemma_le_roundtrip(11, 1);
                assert(all.take(1) =~= le_bytes(11, 1));
                assert(all.skip(1) =~= <(String, bool) as Serialize>::encode(version, t) + rest);
                <(String, bool) as Roundtrip>::lemma_roundtrip(version, t, rest);
            },
            SchemaNodeModel::Array(t) => {
                lemma_le_roundtrip(12, 1);
                assert(all.take(1) =~= le_bytes(12, 1));
                assert(all.skip(1) =~= <usize as Serialize>::encode(version, t) + rest);
                <usize as Roundtrip>::lemma_roundtrip(version, t, rest);
            },
        }
    }
}

} // verus!
