//! Schemas: descriptions of the layout of saved data, stored in front of it.
pub mod nodes;
pub mod with_schema;

use vstd::prelude::*;

use crate::error::SavefileError;
use crate::serializer::{Deserializer, Serializer};
use crate::traits::{Deserialize, Model, Roundtrip, Serialize};
use nodes::{SchemaNode, SchemaNodeModel, SchemaPrimitive};

verus! {

/// The layout of a type, as its nodes in prefix order.
#[derive(Debug, PartialEq, Clone)]
pub struct Schema {
    pub nodes: Vec<SchemaNode>,
}

impl Model for Schema {
    type M = Seq<SchemaNodeModel>;

    open spec fn model(&self) -> Seq<SchemaNodeModel> {
        self.nodes.model()
    }
}

impl Serialize for Schema {
    open spec fn valid(version: u32, m: Seq<SchemaNodeModel>) -> bool {
        <Vec<SchemaNode> as Serialize>::valid(version, m)
    }

    /// The same bytes as the list of nodes.
    open spec fn encode(version: u32, m: Seq<SchemaNodeModel>) -> Seq<u8> {
        <Vec<SchemaNode> as Serialize>::encode(version, m)
    }

    fn serialize(&self, serializer: &mut Serializer) -> (r: Result<(), SavefileError>) {
        self.nodes.serialize(serializer)
    }
}

impl Deserialize for Schema {
    open spec fn decode(version: u32, s: Seq<u8>) -> Option<(Seq<SchemaNodeModel>, nat)> {
        <Vec<SchemaNode> as Deserialize>::decode(version, s)
    }

    fn deserialize(deserializer: &mut Deserializer) -> (r: Result<Schema, SavefileError>) {
        match <Vec<SchemaNode> as Deserialize>::deserialize(deserializer) {
            Ok(nodes) => Ok(Schema { nodes }),
            Err(e) => Err(e),
        }
    }
}

impl Roundtrip for Schema {
    open spec fn read_back(version: u32, m: Seq<SchemaNodeModel>) -> Seq<SchemaNodeModel> {
        <Vec<SchemaNode> as Roundtrip>::read_back(version, m)
    }

    proof fn lemma_roundtrip(version: u32, m: Seq<SchemaNodeModel>, rest: Seq<u8>) {
        <Vec<SchemaNode> as Roundtrip>::lemma_roundtrip(version, m, rest);
    }
}

/// Whether two nodes are the same.
pub fn nodes_equal(a: &SchemaNode, b: &SchemaNode) -> (r: bool)
    ensures
        r == (a.model() == b.model()),
{
    match (a, b) {
        (SchemaNode::Primitive(x), SchemaNode::Primitive(y)) => primitives_equal(x, y),
        (SchemaNode::Vector, SchemaNode::Vector) => true,
        (SchemaNode::Struct { dbg_name: n1, field_count: c1 }, SchemaNode::Struct {
            dbg_name: n2,
            field_count: c2,
        }) => *n1 == *n2 && *c1 == *c2,
        (SchemaNode::Field { name: n1, removed: r1 }, SchemaNode::Field { name: n2, removed: r2 }) => *n1
            == *n2 && *r1 == *r2,
        (SchemaNode::Enum { dbg_name: n1, discriminant_size: d1, variant_count: c1 }, SchemaNode::Enum {
            dbg_name: n2,
            discriminant_size: d2,
            variant_count: c2,
        }) => *n1 == *n2 && *d1 == *d2 && *c1 == *c2,
        (SchemaNode::Variant { name: n1, field_count: c1 }, SchemaNode::Variant {
            name: n2,
            field_count: c2,
        }) => *n1 == *n2 && *c1 == *c2,
        (SchemaNode::SchemaOption, SchemaNode::SchemaOption) => true,
        (SchemaNode::Boxed, SchemaNode::Boxed) => true,
        (SchemaNode::Reference, SchemaNode::Reference) => true,
        (SchemaNode::ZeroSize, SchemaNode::ZeroSize) => true,
        (SchemaNode::Recursion(x), SchemaNode::Recursion(y)) => *x == *y,
        (SchemaNode::Array(x), SchemaNode::Array(y)) => *x == *y,
        (SchemaNode::Trait { name: n1, mutable: m1 }, SchemaNode::Trait { name: n2, mutable: m2 }) => *n1
            == *n2 && *m1 == *m2,
        _ => false,
    }
}

/// Whether two primitive kinds are the same.
pub fn primitives_equal(a: &SchemaPrimitive, b: &SchemaPrimitive) -> (r: bool)
    ensures
        r == (a.model() == b.model()),
{
    match (a, b) {
        (SchemaPrimitive::schema_i8, SchemaPrimitive::schema_i8) => true,
        (SchemaPrimitive::schema_u8, SchemaPrimitive::schema_u8) => true,
        (SchemaPrimitive::schema_i16, SchemaPrimitive::schema_i16) => true,
        (SchemaPrimitive::schema_u16, SchemaPrimitive::schema_u16) => true,
        (SchemaPrimitive::schema_i32, SchemaPrimitive::schema_i32) => true,
        (SchemaPrimitive::schema_u32, SchemaPrimitive::schema_u32) => true,
        (SchemaPrimitive::schema_i64, SchemaPrimitive::schema_i64) => true,
        (SchemaPrimitive::schema_u64, SchemaPrimitive::schema_u64) => true,
        (SchemaPrimitive::schema_usize, SchemaPrimitive::schema_usize) => true,
        (SchemaPrimitive::schema_isize, SchemaPrimitive::schema_isize) => true,
        (SchemaPrimitive::schema_bool, SchemaPrimitive::schema_bool) => true,
        (SchemaPrimitive::schema_char, SchemaPrimitive::schema_char) => true,
        (SchemaPrimitive::schema_string, SchemaPrimitive::schema_string) => true,
        (SchemaPrimitive::schema_unit, SchemaPrimitive::schema_unit) => true,
        _ => false,
    }
}

/// Whether two node lists are the same.
pub fn node_lists_equal(a: &Vec<SchemaNode>, b: &Vec<SchemaNode>) -> (r: bool)
    ensures
        r == (a.model() == b.model()),
{
    if a.len() != b.len() {
        assert(a.model().len() != b.model().len());
        return false;
    }
    let mut i: usize = 0;
    while i < a.len()
        invariant
            a.len() == b.len(),
            i <= a.len(),
            a.model().take(i as int) == b.model().take(i as int),
        decreases a.len() - i,
    {
        if !nodes_equal(&a[i], &b[i]) {
            assert(a.model()[i as int] != b.model()[i as int]);
            return false;
        }
        assert(a.model().take(i + 1) =~= a.model().take(i as int).push(a.model()[i as int]));
        assert(b.model().take(i + 1) =~= b.model().take(i as int).push(b.model()[i as int]));
        i = i + 1;
    }
    assert(a.model().take(i as int) =~= a.model());
    assert(b.model().take(i as int) =~= b.model());
    true
}

/// Whether the node introduces a field that only older data versions hold.
pub open spec fn is_removed_field(n: SchemaNodeModel) -> bool {
    n matches SchemaNodeModel::Field((_, true))
}

/// Whether no node of `s` introduces a removed field.
pub open spec fn free_of_removed(s: Seq<SchemaNodeModel>) -> bool {
    forall|i: int| 0 <= i < s.len() ==> !is_removed_field(#[trigger] s[i])
}

/// Whether data saved with node `a` can be read where node `b` is expected: the
/// same kind of node with the same shape. The names of records and of their
/// fields do not matter; the names of enum variants, the widths of
/// discriminants and the counts of fields and variants do.
pub open spec fn node_compatible(a: SchemaNodeModel, b: SchemaNodeModel) -> bool {
    match (a, b) {
        (SchemaNodeModel::Struct((_, c1)), SchemaNodeModel::Struct((_, c2))) => c1 == c2,
        (SchemaNodeModel::Field(_), SchemaNodeModel::Field(_)) => true,
        (SchemaNodeModel::Enum((_, d1, c1)), SchemaNodeModel::Enum((_, d2, c2))) => d1 == d2 && c1
            == c2,
        _ => a == b,
    }
}

/// Whether data saved with schema `a` can be read with schema `b`: node by node compatible.
pub open spec fn schemas_compatible(a: Seq<SchemaNodeModel>, b: Seq<SchemaNodeModel>) -> bool {
    &&& a.len() == b.len()
    &&& forall|i: int| 0 <= i < a.len() ==> node_compatible(#[trigger] a[i], b[i])
}

/// Whether data saved with node `a` can be read where node `b` is expected.
pub fn nodes_compatible(a: &SchemaNode, b: &SchemaNode) -> (r: bool)
    ensures
        r == node_compatible(a.model(), b.model()),
{
    match (a, b) {
        (SchemaNode::Struct { field_count: c1, .. }, SchemaNode::Struct { field_count: c2, .. }) => *c1
            == *c2,
        (SchemaNode::Field { .. }, SchemaNode::Field { .. }) => true,
        (SchemaNode::Enum { discriminant_size: d1, variant_count: c1, .. }, SchemaNode::Enum {
            discriminant_size: d2,
            variant_count: c2,
            ..
        }) => *d1 == *d2 && *c1 == *c2,
        _ => nodes_equal(a, b),
    }
}

/// Compares two schemas: `None` where data saved with `a` can be read with `b`,
/// and a description of the first difference otherwise.
pub fn diff_schema(a: &Schema, b: &Schema) -> (r: Option<String>)
    ensures
        r is None <==> schemas_compatible(a.model(), b.model()),
{
    if a.nodes.len() != b.nodes.len() {
        return Some(String::from_str("the schemas have different numbers of nodes"));
    }
    let mut i: usize = 0;
    while i < a.nodes.len()
        invariant
            a.nodes.len() == b.nodes.len(),
            i <= a.nodes.len(),
            forall|j: int| 0 <= j < i ==> node_compatible(#[trigger] a.model()[j], b.model()[j]),
        decreases a.nodes.len() - i,
    {
        if !nodes_compatible(&a.nodes[i], &b.nodes[i]) {
            assert(!node_compatible(a.model()[i as int], b.model()[i as int]));
            return Some(String::from_str("the schemas differ"));
        }
        i = i + 1;
    }
    None
}

impl Schema {
    /// Establishes that the schema can be written: each name in it, being in
    /// memory, has a UTF-8 encoding that fits in memory.
    pub fn check_writable(&self, version: u32)
        ensures
            <Vec<SchemaNode> as Serialize>::valid(version, self.model()),
    {
        let mut i: usize = 0;
        while i < self.nodes.len()
            invariant
                i <= self.nodes.len(),
                forall|j: int|
                    0 <= j < i ==> <SchemaNode as Serialize>::valid(version, #[trigger] self.model()[j]),
            decreases self.nodes.len() - i,
        {
            match &self.nodes[i] {
                SchemaNode::Struct { dbg_name, .. } => {
                    let n = dbg_name.as_str().as_bytes().len();
                    assert(vstd::utf8::encode_utf8(dbg_name@).len() == n);
                },
                SchemaNode::Field { name, .. } => {
                    let n = name.as_str().as_bytes().len();
                    assert(vstd::utf8::encode_utf8(name@).len() == n);
                },
                SchemaNode::Enum { dbg_name, .. } => {
                    let n = dbg_name.as_str().as_bytes().len();
                    assert(vstd::utf8::encode_utf8(dbg_name@).len() == n);
                },
                SchemaNode::Variant { name, .. } => {
                    let n = name.as_str().as_bytes().len();
                    assert(vstd::utf8::encode_utf8(name@).len() == n);
                },
                SchemaNode::Trait { name, .. } => {
                    let n = name.as_str().as_bytes().len();
                    assert(vstd::utf8::encode_utf8(name@).len() == n);
                },
                _ => {},
            }
            assert(<SchemaNode as Serialize>::valid(version, self.model()[i as int]));
            i = i + 1;
        }
    }

    /// Two schemas describe values with the same memory layout when they are the
    /// same and name no removed field: a removed field is not stored in memory as
    /// the schema describes it.
    pub fn layout_compatible(&self, other: &Schema) -> (r: bool)
        ensures
            r == (self.model() == other.model() && free_of_removed(self.model())),
    {
        if !node_lists_equal(&self.nodes, &other.nodes) {
            return false;
        }
        let mut i: usize = 0;
        while i < self.nodes.len()
            invariant
                i <= self.nodes.len(),
                forall|j: int| 0 <= j < i ==> !is_removed_field(#[trigger] self.model()[j]),
            decreases self.nodes.len() - i,
        {
            if let SchemaNode::Field { removed: true, .. } = &self.nodes[i] {
                assert(is_removed_field(self.model()[i as int]));
                return false;
            }
            i = i + 1;
        }
        true
    }
}

/// Compatibility relates only nodes of the same kind: two primitives are
/// compatible only when they are the same primitive, and any node other than
/// a record, field or enum node only with an equal node; every node is
/// compatible with itself.
pub proof fn lemma_node_compatible_same_kind(a: SchemaNodeModel, b: SchemaNodeModel)
    ensures
        node_compatible(a, a),
        node_compatible(a, b) && a is Primitive ==> a == b,
        node_compatible(a, b) && !(a is Struct) && !(a is Field) && !(a is Enum) ==> a == b,
        node_compatible(a, b) && a is Struct ==> b is Struct,
        node_compatible(a, b) && a is Field ==> b is Field,
        node_compatible(a, b) && a is Enum ==> b is Enum,
{
}

/// Data saved with a schema is read only with a schema that has, at each
/// position where the first has a primitive, the same primitive.
pub proof fn lemma_compatible_schemas_keep_primitives(a: Seq<SchemaNodeModel>, b: Seq<SchemaNodeModel>, i: int)
    requires
        schemas_compatible(a, b),
        0 <= i < a.len(),
        a[i] is Primitive,
    ensures
        b[i] == a[i],
{
    assert(node_compatible(a[i], b[i]));
    lemma_node_compatible_same_kind(a[i], b[i]);
}

/// Records are compatible only with the same number of fields, and enums
/// only with the same discriminant width and number of variants; the names
/// of records, enums and fields do not matter.
pub proof fn lemma_node_compatible_shapes(n1: Seq<char>, n2: Seq<char>, c1: usize, c2: usize, d1: u8, d2: u8, r1: bool, r2: bool)
    ensures
        node_compatible(SchemaNodeModel::Struct((n1, c1)), SchemaNodeModel::Struct((n2, c2))) <==> c1 == c2,
        node_compatible(SchemaNodeModel::Enum((n1, d1, c1)), SchemaNodeModel::Enum((n2, d2, c2))) <==> d1 == d2
            && c1 == c2,
        node_compatible(SchemaNodeModel::Field((n1, r1)), SchemaNodeModel::Field((n2, r2))),
{
}

} // verus!
