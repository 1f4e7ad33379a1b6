//! The argument types of the second version of an interface.
use vstd::prelude::*;

use crate::error::SavefileError;
use crate::le::{le_bytes, le_value, lemma_le_roundtrip, pow256};
use crate::packed::{close_record, combine_variant, enum_layout, number_layout, place_field, record_layout, Layout, Packed};
use crate::schema::nodes::{SchemaNode, SchemaNodeModel};
use crate::schema::with_schema::{push_enum, push_field, push_struct, push_variant, WithSchema};
use crate::serializer::{Deserializer, Serializer};
use crate::traits::{Deserialize, Model, Roundtrip, Serialize};
use crate::versioning::AbiRemoved;

verus! {

/// Numbers passed together: the first only in data version 0, the third from data version 1 on.
#[derive(Debug)]
pub struct ArgArgument {
    pub data1: AbiRemoved<u32>,
    pub data2: u32,
    pub data3: u32,
}

impl Model for ArgArgument {
    /// The models of the fields, in order.
    type M = <(AbiRemoved<u32>, u32, u32) as Model>::M;

    open spec fn model(&self) -> <(AbiRemoved<u32>, u32, u32) as Model>::M {
        (self.data1.model(), self.data2.model(), self.data3.model())
    }
}

impl Serialize for ArgArgument {
    open spec fn valid(version: u32, m: <(AbiRemoved<u32>, u32, u32) as Model>::M) -> bool {
        (version <= 0 ==> <AbiRemoved<u32> as Serialize>::valid(version, m.0)) && <u32 as Serialize>::valid(version, m.1) && (1 <= version ==> <u32 as Serialize>::valid(version, m.2))
    }

    /// The fields that the data version holds, one after the other.
    open spec fn encode(version: u32, m: <(AbiRemoved<u32>, u32, u32) as Model>::M) -> Seq<u8> {
        (if version <= 0 { <AbiRemoved<u32> as Serialize>::encode(version, m.0) } else { Seq::<u8>::empty() }) + <u32 as Serialize>::encode(version, m.1) + (if 1 <= version { <u32 as Serialize>::encode(version, m.2) } else { Seq::<u8>::empty() })
    }

    fn serialize(&self, serializer: &mut Serializer) -> (r: Result<(), SavefileError>) {
        let ghost version = serializer.file_version;
        let ghost m = self.model();
        let ghost start = serializer.writer@;
        if serializer.file_version <= 0 {
            match self.data1.serialize(serializer) {
                Ok(()) => {},
                Err(e) => {
                    return Err(e);
                },
            }
        }
        assert(serializer.writer@ =~= start + (if version <= 0 { <AbiRemoved<u32> as Serialize>::encode(version, m.0) } else { Seq::<u8>::empty() }));
        match self.data2.serialize(serializer) {
            Ok(()) => {},
            Err(e) => {
                return Err(e);
            },
        }
        assert(serializer.writer@ =~= start + (if version <= 0 { <AbiRemoved<u32> as Serialize>::encode(version, m.0) } else { Seq::<u8>::empty() }) + <u32 as Serialize>::encode(version, m.1));
        if 1 <= serializer.file_version {
            match self.data3.serialize(serializer) {
                Ok(()) => {},
                Err(e) => {
                    return Err(e);
                },
            }
        }
        assert(serializer.writer@ =~= start + (if version <= 0 { <AbiRemoved<u32> as Serialize>::encode(version, m.0) } else { Seq::<u8>::empty() }) + <u32 as Serialize>::encode(version, m.1) + (if 1 <= version { <u32 as Serialize>::encode(version, m.2) } else { Seq::<u8>::empty() }));
        assert(serializer.writer@ =~= old(serializer).writer@ + Self::encode(
            old(serializer).file_version,
            self.model(),
        ));
        Ok(())
    }
}

impl Deserialize for ArgArgument {
    open spec fn decode(version: u32, s: Seq<u8>) -> Option<(<(AbiRemoved<u32>, u32, u32) as Model>::M, nat)> {
        match (if version <= 0 { <AbiRemoved<u32> as Deserialize>::decode(version, s) } else { Some(((), 0nat)) }) {
            Some((v0, n0)) => match <u32 as Deserialize>::decode(version, s.skip((n0) as int)) {
                Some((v1, n1)) => match (if 1 <= version { <u32 as Deserialize>::decode(version, s.skip((n0 + n1) as int)) } else { Some((0u32, 0nat)) }) {
                    Some((v2, n2)) => Some(((v0, v1, v2), n0 + n1 + n2)),
                    None => None,
                },
                None => None,
            },
            None => None,
        }
    }

    fn deserialize(deserializer: &mut Deserializer) -> (r: Result<ArgArgument, SavefileError>) {
        let ghost s = deserializer.rest();
        let ghost p0 = deserializer.pos;
        let v0: AbiRemoved<u32> = if deserializer.file_version <= 0 {
            match <AbiRemoved<u32> as Deserialize>::deserialize(deserializer) {
                Ok(x) => x,
                Err(e) => {
                    return Err(e);
                },
            }
        } else {
            AbiRemoved::new()
        };
        assert(deserializer.rest() =~= s.skip(deserializer.pos - p0));
        let v1: u32 = match <u32 as Deserialize>::deserialize(deserializer) {
            Ok(x) => x,
            Err(e) => {
                return Err(e);
            },
        };
        assert(deserializer.rest() =~= s.skip(deserializer.pos - p0));
        let v2: u32 = if 1 <= deserializer.file_version {
            match <u32 as Deserialize>::deserialize(deserializer) {
                Ok(x) => x,
                Err(e) => {
                    return Err(e);
                },
            }
        } else {
            0
        };
        assert(deserializer.rest() =~= s.skip(deserializer.pos - p0));
        Ok(ArgArgument { data1: v0, data2: v1, data3: v2 })
    }
}

impl Roundtrip for ArgArgument {
    open spec fn read_back(version: u32, m: <(AbiRemoved<u32>, u32, u32) as Model>::M) -> <(AbiRemoved<u32>, u32, u32) as Model>::M {
        ((if version <= 0 { <AbiRemoved<u32> as Roundtrip>::read_back(version, m.0) } else { () }), <u32 as Roundtrip>::read_back(version, m.1), (if 1 <= version { <u32 as Roundtrip>::read_back(version, m.2) } else { 0u32 }))
    }

    proof fn lemma_roundtrip(version: u32, m: <(AbiRemoved<u32>, u32, u32) as Model>::M, rest: Seq<u8>) {
        let t3 = rest;
        let t2 = (if 1 <= version { <u32 as Serialize>::encode(version, m.2) } else { Seq::<u8>::empty() }) + t3;
        let t1 = <u32 as Serialize>::encode(version, m.1) + t2;
        let t0 = (if version <= 0 { <AbiRemoved<u32> as Serialize>::encode(version, m.0) } else { Seq::<u8>::empty() }) + t1;
        if version <= 0 {
            <AbiRemoved<u32> as Roundtrip>::lemma_roundtrip(version, m.0, t1);
        }
        <u32 as Roundtrip>::lemma_roundtrip(version, m.1, t2);
        if 1 <= version {
            <u32 as Roundtrip>::lemma_roundtrip(version, m.2, t3);
        }
        assert((if version <= 0 { <AbiRemoved<u32> as Serialize>::encode(version, m.0) } else { Seq::<u8>::empty() }) + <u32 as Serialize>::encode(version, m.1) + (if 1 <= version { <u32 as Serialize>::encode(version, m.2) } else { Seq::<u8>::empty() }) + rest =~= t0);
        assert(t0.skip(((if version <= 0 { <AbiRemoved<u32> as Serialize>::encode(version, m.0) } else { Seq::<u8>::empty() }).len()) as int) =~= t1);
        assert(t0.skip(((if version <= 0 { <AbiRemoved<u32> as Serialize>::encode(version, m.0) } else { Seq::<u8>::empty() }).len() + <u32 as Serialize>::encode(version, m.1).len()) as int) =~= t2);
        assert(t0.skip(((if version <= 0 { <AbiRemoved<u32> as Serialize>::encode(version, m.0) } else { Seq::<u8>::empty() }).len() + <u32 as Serialize>::encode(version, m.1).len() + (if 1 <= version { <u32 as Serialize>::encode(version, m.2) } else { Seq::<u8>::empty() }).len()) as int) =~= t3);
    }
}

impl WithSchema for ArgArgument {
    open spec fn schema_nodes(version: u32) -> Seq<SchemaNodeModel> {
        seq![SchemaNodeModel::Struct(("ArgArgument"@, (1int + (if version <= 0 { 1int } else { 0int }) + (if 1 <= version { 1int } else { 0int })) as usize))]
            + (if version <= 0 { seq![SchemaNodeModel::Field(("data1"@, true))] + <AbiRemoved<u32> as WithSchema>::schema_nodes(version) } else { Seq::<SchemaNodeModel>::empty() })
            + seq![SchemaNodeModel::Field(("data2"@, false))] + <u32 as WithSchema>::schema_nodes(version)
            + (if 1 <= version { seq![SchemaNodeModel::Field(("data3"@, false))] + <u32 as WithSchema>::schema_nodes(version) } else { Seq::<SchemaNodeModel>::empty() })
    }

    fn schema(version: u32, nodes: &mut Vec<SchemaNode>) {
        let mut count: usize = 0;
        if version <= 0 {
            count = count + 1;
        }
        count = count + 1;
        if 1 <= version {
            count = count + 1;
        }
        push_struct(nodes, "ArgArgument", count);
        if version <= 0 {
            push_field(nodes, "data1", true);
            <AbiRemoved<u32> as WithSchema>::schema(version, nodes);
        }
        push_field(nodes, "data2", false);
        <u32 as WithSchema>::schema(version, nodes);
        if 1 <= version {
            push_field(nodes, "data3", false);
            <u32 as WithSchema>::schema(version, nodes);
        }
        assert(nodes.model() =~= old(nodes).model() + Self::schema_nodes(version));
    }
}

/// A choice between variants; the third exists from data version 1 on.
#[derive(Debug, PartialEq)]
pub enum EnumArgument {
    Variant1,
    Variant2,
    Variant3,
}

/// The model of a [`EnumArgument`]: the same variant, with the models of its fields.
pub enum EnumArgumentModel {
    Variant1,
    Variant2,
    Variant3,
}

impl Model for EnumArgument {
    type M = EnumArgumentModel;

    open spec fn model(&self) -> EnumArgumentModel {
        match self {
            EnumArgument::Variant1 => EnumArgumentModel::Variant1,
            EnumArgument::Variant2 => EnumArgumentModel::Variant2,
            EnumArgument::Variant3 => EnumArgumentModel::Variant3,
        }
    }
}

impl Serialize for EnumArgument {
    open spec fn valid(version: u32, m: EnumArgumentModel) -> bool {
        match m {
            EnumArgumentModel::Variant1 => true,
            EnumArgumentModel::Variant2 => true,
            EnumArgumentModel::Variant3 => 1 <= version && (true),
        }
    }

    /// The position of the variant in the declaration, as 1 byte(s), then the fields of the variant.
    open spec fn encode(version: u32, m: EnumArgumentModel) -> Seq<u8> {
        match m {
            EnumArgumentModel::Variant1 => le_bytes(0, 1),
            EnumArgumentModel::Variant2 => le_bytes(1, 1),
            EnumArgumentModel::Variant3 => le_bytes(2, 1),
        }
    }

    fn serialize(&self, serializer: &mut Serializer) -> (r: Result<(), SavefileError>) {
        let ghost version = serializer.file_version;
        let ghost start0 = serializer.writer@;
        match self {
            EnumArgument::Variant1 => {
                serializer.write_u8(0);
            },
            EnumArgument::Variant2 => {
                serializer.write_u8(1);
            },
            EnumArgument::Variant3 => {
                if !(1 <= serializer.file_version) {
                    return Err(SavefileError::WrongVersion);
                }
                serializer.write_u8(2);
            },
        }
        assert(serializer.writer@ =~= old(serializer).writer@ + Self::encode(
            old(serializer).file_version,
            self.model(),
        ));
        Ok(())
    }
}

impl Deserialize for EnumArgument {
    /// Unknown variant numbers are refused.
    open spec fn decode(version: u32, s: Seq<u8>) -> Option<(EnumArgumentModel, nat)> {
        if s.len() < 1 {
            None
        } else if le_value(s.take(1)) == 0 {
            Some((EnumArgumentModel::Variant1, 1))
        } else if le_value(s.take(1)) == 1 {
            Some((EnumArgumentModel::Variant2, 1))
        } else if le_value(s.take(1)) == 2 {
            Some((EnumArgumentModel::Variant3, 1))
        } else {
            None
        }
    }

    fn deserialize(deserializer: &mut Deserializer) -> (r: Result<EnumArgument, SavefileError>) {
        let ghost s0 = deserializer.rest();
        let tag = match deserializer.read_uint(1) {
            Ok(t) => t,
            Err(e) => {
                return Err(e);
            },
        };
        assert(deserializer.rest() =~= s0.skip(1));
        if tag == 0 {
            Ok(EnumArgument::Variant1)
        } else if tag == 1 {
            Ok(EnumArgument::Variant2)
        } else if tag == 2 {
            Ok(EnumArgument::Variant3)
        } else {
            Err(SavefileError::BadDiscriminant)
        }
    }
}

impl Roundtrip for EnumArgument {
    open spec fn read_back(version: u32, m: EnumArgumentModel) -> EnumArgumentModel {
        match m {
            EnumArgumentModel::Variant1 => EnumArgumentModel::Variant1,
            EnumArgumentModel::Variant2 => EnumArgumentModel::Variant2,
            EnumArgumentModel::Variant3 => EnumArgumentModel::Variant3,
        }
    }

    proof fn lemma_roundtrip(version: u32, m: EnumArgumentModel, rest: Seq<u8>) {
        reveal_with_fuel(pow256, 2);
        let all = Self::encode(version, m) + rest;
        match m {
            EnumArgumentModel::Variant1 => {
                lemma_le_roundtrip(0, 1);
                assert(all.take(1) =~= le_bytes(0, 1));
            },
            EnumArgumentModel::Variant2 => {
                lemma_le_roundtrip(1, 1);
                assert(all.take(1) =~= le_bytes(1, 1));
            },
            EnumArgumentModel::Variant3 => {
                lemma_le_roundtrip(2, 1);
                assert(all.take(1) =~= le_bytes(2, 1));
            },
        }
    }
}

impl WithSchema for EnumArgument {
    open spec fn schema_nodes(version: u32) -> Seq<SchemaNodeModel> {
        seq![SchemaNodeModel::Enum(("EnumArgument"@, 1u8, (2int + (if 1 <= version { 1int } else { 0int })) as usize))]
            + seq![SchemaNodeModel::Variant(("Variant1"@, 0usize))]
            + seq![SchemaNodeModel::Variant(("Variant2"@, 0usize))]
            + (if 1 <= version { seq![SchemaNodeModel::Variant(("Variant3"@, 0usize))] } else { Seq::<SchemaNodeModel>::empty() })
    }

    fn schema(version: u32, nodes: &mut Vec<SchemaNode>) {
        let mut count: usize = 0;
        count = count + 1;
        count = count + 1;
        if 1 <= version {
            count = count + 1;
        }
        push_enum(nodes, "EnumArgument", 1, count);
        let c0: usize = 0;
        push_variant(nodes, "Variant1", c0);
        let c1: usize = 0;
        push_variant(nodes, "Variant2", c1);
        if 1 <= version {
            let c2: usize = 0;
            push_variant(nodes, "Variant3", c2);
        }
        assert(nodes.model() =~= old(nodes).model() + Self::schema_nodes(version));
    }
}

} // verus!
