//! The schema each type is saved with.
use vstd::prelude::*;

use crate::schema::nodes::{SchemaNode, SchemaNodeModel, SchemaPrimitive, SchemaPrimitiveModel};
use crate::schema::Schema;
use crate::traits::Model;
use crate::versioning::{AbiRemoved, Removed};

verus! {

/// A type with a description of its saved layout.
pub trait WithSchema {
    /// The nodes of the schema of the type for the given data version.
    spec fn schema_nodes(version: u32) -> Seq<SchemaNodeModel>;

    /// Appends the nodes of the schema of the type to `nodes`.
    fn schema(version: u32, nodes: &mut Vec<SchemaNode>)
        ensures
            final(nodes).model() == old(nodes).model() + Self::schema_nodes(version),
    ;
}

/// Appends one node.
pub fn push_node(nodes: &mut Vec<SchemaNode>, node: SchemaNode)
    ensures
        final(nodes).model() == old(nodes).model().push(node.model()),
{
    let ghost m = node.model();
    nodes.push(node);
    assert(nodes.model() =~= old(nodes).model().push(m));
}

/// Appends a node that introduces a field of the given name; `removed` marks a
/// field that only older data versions hold.
pub fn push_field(nodes: &mut Vec<SchemaNode>, name: &str, removed: bool)
    ensures
        final(nodes).model() == old(nodes).model().push(SchemaNodeModel::Field((name@, removed))),
{
    push_node(nodes, SchemaNode::Field { name: String::from_str(name), removed });
}

/// Appends a node that starts a record of the given name and number of fields.
pub fn push_struct(nodes: &mut Vec<SchemaNode>, name: &str, field_count: usize)
    ensures
        final(nodes).model() == old(nodes).model().push(SchemaNodeModel::Struct((name@, field_count))),
{
    push_node(nodes, SchemaNode::Struct { dbg_name: String::from_str(name), field_count });
}

/// Appends a node that starts an enum of the given name, discriminant width and number of variants.
pub fn push_enum(nodes: &mut Vec<SchemaNode>, name: &str, discriminant_size: u8, variant_count: usize)
    ensures
        final(nodes).model() == old(nodes).model().push(
            SchemaNodeModel::Enum((name@, discriminant_size, variant_count)),
        ),
{
    push_node(
        nodes,
        SchemaNode::Enum { dbg_name: String::from_str(name), discriminant_size, variant_count },
    );
}

/// Appends a node that starts a variant of the given name and number of fields.
pub fn push_variant(nodes: &mut Vec<SchemaNode>, name: &str, field_count: usize)
    ensures
        final(nodes).model() == old(nodes).model().push(SchemaNodeModel::Variant((name@, field_count))),
{
    push_node(nodes, SchemaNode::Variant { name: String::from_str(name), field_count });
}

/// A copy of one node.
pub fn copy_node(n: &SchemaNode) -> (r: SchemaNode)
    ensures
        r.model() == n.model(),
{
    match n {
        SchemaNode::Primitive(p) => SchemaNode::Primitive(*p),
        SchemaNode::Vector => SchemaNode::Vector,
        SchemaNode::Struct { dbg_name, field_count } => SchemaNode::Struct {
            dbg_name: dbg_name.clone(),
            field_count: *field_count,
        },
        SchemaNode::Field { name, removed } => SchemaNode::Field { name: name.clone(), removed: *removed },
        SchemaNode::Enum { dbg_name, discriminant_size, variant_count } => SchemaNode::Enum {
            dbg_name: dbg_name.clone(),
            discriminant_size: *discriminant_size,
            variant_count: *variant_count,
        },
        SchemaNode::Variant { name, field_count } => SchemaNode::Variant {
            name: name.clone(),
            field_count: *field_count,
        },
        SchemaNode::SchemaOption => SchemaNode::SchemaOption,
        SchemaNode::Boxed => SchemaNode::Boxed,
        SchemaNode::Reference => SchemaNode::Reference,
        SchemaNode::ZeroSize => SchemaNode::ZeroSize,
        SchemaNode::Recursion(d) => SchemaNode::Recursion(*d),
        SchemaNode::Trait { name, mutable } => SchemaNode::Trait { name: name.clone(), mutable: *mutable },
        SchemaNode::Array(n) => SchemaNode::Array(*n),
    }
}

/// Appends copies of the nodes of `src`.
pub fn append_nodes(nodes: &mut Vec<SchemaNode>, src: &Vec<SchemaNode>)
    ensures
        final(nodes).model() == old(nodes).model() + src.model(),
{
    let mut i: usize = 0;
    while i < src.len()
        invariant
            i <= src.len(),
            nodes.model() == old(nodes).model() + src.model().take(i as int),
        decreases src.len() - i,
    {
        let c = copy_node(&src[i]);
        push_node(nodes, c);
        assert(src.model().take(i + 1) =~= src.model().take(i as int).push(src@[i as int].model()));
        i = i + 1;
    }
    assert(src.model().take(i as int) =~= src.model());
}

/// The schema of `T` for the given data version.
pub fn get_schema<T: WithSchema>(version: u32) -> (r: Schema)
    ensures
        r.model() == T::schema_nodes(version),
{
    let mut nodes: Vec<SchemaNode> = Vec::new();
    assert(nodes.model() =~= Seq::<SchemaNodeModel>::empty());
    T::schema(version, &mut nodes);
    assert(nodes.model() =~= T::schema_nodes(version));
    Schema { nodes }
}

impl WithSchema for u8 {
    open spec fn schema_nodes(version: u32) -> Seq<SchemaNodeModel> {
        seq![SchemaNodeModel::Primitive(SchemaPrimitiveModel::schema_u8)]
    }

    fn schema(version: u32, nodes: &mut Vec<SchemaNode>) {
        push_node(nodes, SchemaNode::Primitive(SchemaPrimitive::schema_u8));
        assert(nodes.model() =~= old(nodes).model() + Self::schema_nodes(version));
    }
}

impl WithSchema for u16 {
    open spec fn schema_nodes(version: u32) -> Seq<SchemaNodeModel> {
        seq![SchemaNodeModel::Primitive(SchemaPrimitiveModel::schema_u16)]
    }

    fn schema(version: u32, nodes: &mut Vec<SchemaNode>) {
        push_node(nodes, SchemaNode::Primitive(SchemaPrimitive::schema_u16));
        assert(nodes.model() =~= old(nodes).model() + Self::schema_nodes(version));
    }
}

impl WithSchema for u32 {
    open spec fn schema_nodes(version: u32) -> Seq<SchemaNodeModel> {
        seq![SchemaNodeModel::Primitive(SchemaPrimitiveModel::schema_u32)]
    }

    fn schema(version: u32, nodes: &mut Vec<SchemaNode>) {
        push_node(nodes, SchemaNode::Primitive(SchemaPrimitive::schema_u32));
        assert(nodes.model() =~= old(nodes).model() + Self::schema_nodes(version));
    }
}

impl WithSchema for u64 {
    open spec fn schema_nodes(version: u32) -> Seq<SchemaNodeModel> {
        seq![SchemaNodeModel::Primitive(SchemaPrimitiveModel::schema_u64)]
    }

    fn schema(version: u32, nodes: &mut Vec<SchemaNode>) {
        push_node(nodes, SchemaNode::Primitive(SchemaPrimitive::schema_u64));
        assert(nodes.model() =~= old(nodes).model() + Self::schema_nodes(version));
    }
}

impl WithSchema for usize {
    open spec fn schema_nodes(version: u32) -> Seq<SchemaNodeModel> {
        seq![SchemaNodeModel::Primitive(SchemaPrimitiveModel::schema_usize)]
    }

    fn schema(version: u32, nodes: &mut Vec<SchemaNode>) {
        push_node(nodes, SchemaNode::Primitive(SchemaPrimitive::schema_usize));
        assert(nodes.model() =~= old(nodes).model() + Self::schema_nodes(version));
    }
}

impl WithSchema for i8 {
    open spec fn schema_nodes(version: u32) -> Seq<SchemaNodeModel> {
        seq![SchemaNodeModel::Primitive(SchemaPrimitiveModel::schema_i8)]
    }

    fn schema(version: u32, nodes: &mut Vec<SchemaNode>) {
        push_node(nodes, SchemaNode::Primitive(SchemaPrimitive::schema_i8));
        assert(nodes.model() =~= old(nodes).model() + Self::schema_nodes(version));
    }
}

impl WithSchema for i16 {
    open spec fn schema_nodes(version: u32) -> Seq<SchemaNodeModel> {
        seq![SchemaNodeModel::Primitive(SchemaPrimitiveModel::schema_i16)]
    }

    fn schema(version: u32, nodes: &mut Vec<SchemaNode>) {
        push_node(nodes, SchemaNode::Primitive(SchemaPrimitive::schema_i16));
        assert(nodes.model() =~= old(nodes).model() + Self::schema_nodes(version));
    }
}

impl WithSchema for i32 {
    open spec fn schema_nodes(version: u32) -> Seq<SchemaNodeModel> {
        seq![SchemaNodeModel::Primitive(SchemaPrimitiveModel::schema_i32)]
    }

    fn schema(version: u32, nodes: &mut Vec<SchemaNode>) {
        push_node(nodes, SchemaNode::Primitive(SchemaPrimitive::schema_i32));
        assert(nodes.model() =~= old(nodes).model() + Self::schema_nodes(version));
    }
}

impl WithSchema for i64 {
    open spec fn schema_nodes(version: u32) -> Seq<SchemaNodeModel> {
        seq![SchemaNodeModel::Primitive(SchemaPrimitiveModel::schema_i64)]
    }

    fn schema(version: u32, nodes: &mut Vec<SchemaNode>) {
        push_node(nodes, SchemaNode::Primitive(SchemaPrimitive::schema_i64));
        assert(nodes.model() =~= old(nodes).model() + Self::schema_nodes(version));
    }
}

impl WithSchema for isize {
    open spec fn schema_nodes(version: u32) -> Seq<SchemaNodeModel> {
        seq![SchemaNodeModel::Primitive(SchemaPrimitiveModel::schema_isize)]
    }

    fn schema(version: u32, nodes: &mut Vec<SchemaNode>) {
        push_node(nodes, SchemaNode::Primitive(SchemaPrimitive::schema_isize));
        assert(nodes.model() =~= old(nodes).model() + Self::schema_nodes(version));
    }
}

impl WithSchema for bool {
    open spec fn schema_nodes(version: u32) -> Seq<SchemaNodeModel> {
        seq![SchemaNodeModel::Primitive(SchemaPrimitiveModel::schema_bool)]
    }

    fn schema(version: u32, nodes: &mut Vec<SchemaNode>) {
        push_node(nodes, SchemaNode::Primitive(SchemaPrimitive::schema_bool));
        assert(nodes.model() =~= old(nodes).model() + Self::schema_nodes(version));
    }
}

impl WithSchema for char {
    open spec fn schema_nodes(version: u32) -> Seq<SchemaNodeModel> {
        seq![SchemaNodeModel::Primitive(SchemaPrimitiveModel::schema_char)]
    }

    fn schema(version: u32, nodes: &mut Vec<SchemaNode>) {
        push_node(nodes, SchemaNode::Primitive(SchemaPrimitive::schema_char));
        assert(nodes.model() =~= old(nodes).model() + Self::schema_nodes(version));
    }
}

impl WithSchema for String {
    open spec fn schema_nodes(version: u32) -> Seq<SchemaNodeModel> {
        seq![SchemaNodeModel::Primitive(SchemaPrimitiveModel::schema_string)]
    }

    fn schema(version: u32, nodes: &mut Vec<SchemaNode>) {
        push_node(nodes, SchemaNode::Primitive(SchemaPrimitive::schema_string));
        assert(nodes.model() =~= old(nodes).model() + Self::schema_nodes(version));
    }
}

impl WithSchema for () {
    open spec fn schema_nodes(version: u32) -> Seq<SchemaNodeModel> {
        seq![SchemaNodeModel::ZeroSize]
    }

    fn schema(version: u32, nodes: &mut Vec<SchemaNode>) {
        push_node(nodes, SchemaNode::ZeroSize);
        assert(nodes.model() =~= old(nodes).model() + Self::schema_nodes(version));
    }
}

impl<T: WithSchema> WithSchema for Vec<T> {
    open spec fn schema_nodes(version: u32) -> Seq<SchemaNodeModel> {
        seq![SchemaNodeModel::Vector] + T::schema_nodes(version)
    }

    fn schema(version: u32, nodes: &mut Vec<SchemaNode>) {
        push_node(nodes, SchemaNode::Vector);
        T::schema(version, nodes);
        assert(nodes.model() =~= old(nodes).model() + Self::schema_nodes(version));
    }
}

impl<T: WithSchema, const N: usize> WithSchema for [T; N] {
    open spec fn schema_nodes(version: u32) -> Seq<SchemaNodeModel> {
        seq![SchemaNodeModel::Array(N)] + T::schema_nodes(version)
    }

    fn schema(version: u32, nodes: &mut Vec<SchemaNode>) {
        push_node(nodes, SchemaNode::Array(N));
        T::schema(version, nodes);
        assert(nodes.model() =~= old(nodes).model() + Self::schema_nodes(version));
    }
}

impl<T: WithSchema> WithSchema for Box<[T]> {
    /// A boxed slice is saved as a vector.
    open spec fn schema_nodes(version: u32) -> Seq<SchemaNodeModel> {
        seq![SchemaNodeModel::Vector] + T::schema_nodes(version)
    }

    fn schema(version: u32, nodes: &mut Vec<SchemaNode>) {
        push_node(nodes, SchemaNode::Vector);
        T::schema(version, nodes);
        assert(nodes.model() =~= old(nodes).model() + Self::schema_nodes(version));
    }
}

impl<T: WithSchema> WithSchema for std::sync::Arc<[T]> {
    /// A shared slice is saved as a vector.
    open spec fn schema_nodes(version: u32) -> Seq<SchemaNodeModel> {
        seq![SchemaNodeModel::Vector] + T::schema_nodes(version)
    }

    fn schema(version: u32, nodes: &mut Vec<SchemaNode>) {
        push_node(nodes, SchemaNode::Vector);
        T::schema(version, nodes);
        assert(nodes.model() =~= old(nodes).model() + Self::schema_nodes(version));
    }
}

impl WithSchema for std::sync::Arc<str> {
    /// A shared text is saved as a string.
    open spec fn schema_nodes(version: u32) -> Seq<SchemaNodeModel> {
        <String as WithSchema>::schema_nodes(version)
    }

    fn schema(version: u32, nodes: &mut Vec<SchemaNode>) {
        <String as WithSchema>::schema(version, nodes);
    }
}

impl<T: WithSchema> WithSchema for Option<T> {
    open spec fn schema_nodes(version: u32) -> Seq<SchemaNodeModel> {
        seq![SchemaNodeModel::SchemaOption] + T::schema_nodes(version)
    }

    fn schema(version: u32, nodes: &mut Vec<SchemaNode>) {
        push_node(nodes, SchemaNode::SchemaOption);
        T::schema(version, nodes);
        assert(nodes.model() =~= old(nodes).model() + Self::schema_nodes(version));
    }
}

impl<T: WithSchema> WithSchema for Box<T> {
    /// A box is saved as the value inside it.
    open spec fn schema_nodes(version: u32) -> Seq<SchemaNodeModel> {
        T::schema_nodes(version)
    }

    fn schema(version: u32, nodes: &mut Vec<SchemaNode>) {
        T::schema(version, nodes);
    }
}

impl<T: WithSchema, E: WithSchema> WithSchema for Result<T, E> {
    open spec fn schema_nodes(version: u32) -> Seq<SchemaNodeModel> {
        seq![
            SchemaNodeModel::Enum(("Result"@, 1u8, 2usize)),
            SchemaNodeModel::Variant(("Ok"@, 1usize)),
            SchemaNodeModel::Field(("0"@, false)),
        ] + T::schema_nodes(version) + seq![
            SchemaNodeModel::Variant(("Err"@, 1usize)),
            SchemaNodeModel::Field(("0"@, false)),
        ] + E::schema_nodes(version)
    }

    fn schema(version: u32, nodes: &mut Vec<SchemaNode>) {
        push_enum(nodes, "Result", 1, 2);
        push_variant(nodes, "Ok", 1);
        push_field(nodes, "0", false);
        T::schema(version, nodes);
        push_variant(nodes, "Err", 1);
        push_field(nodes, "0", false);
        E::schema(version, nodes);
        assert(nodes.model() =~= old(nodes).model() + Self::schema_nodes(version));
    }
}

impl<A: WithSchema> WithSchema for (A,) {
    open spec fn schema_nodes(version: u32) -> Seq<SchemaNodeModel> {
        seq![SchemaNodeModel::Struct(("1-Tuple"@, 1usize)), SchemaNodeModel::Field(("0"@, false))]
            + A::schema_nodes(version)
    }

    fn schema(version: u32, nodes: &mut Vec<SchemaNode>) {
        push_struct(nodes, "1-Tuple", 1);
        push_field(nodes, "0", false);
        A::schema(version, nodes);
        assert(nodes.model() =~= old(nodes).model() + Self::schema_nodes(version));
    }
}

impl<A: WithSchema, B: WithSchema> WithSchema for (A, B) {
    open spec fn schema_nodes(version: u32) -> Seq<SchemaNodeModel> {
        seq![SchemaNodeModel::Struct(("2-Tuple"@, 2usize)), SchemaNodeModel::Field(("0"@, false))]
            + A::schema_nodes(version) + seq![SchemaNodeModel::Field(("1"@, false))] + B::schema_nodes(version)
    }

    fn schema(version: u32, nodes: &mut Vec<SchemaNode>) {
        push_struct(nodes, "2-Tuple", 2);
        push_field(nodes, "0", false);
        A::schema(version, nodes);
        push_field(nodes, "1", false);
        B::schema(version, nodes);
        assert(nodes.model() =~= old(nodes).model() + Self::schema_nodes(version));
    }
}

impl<A: WithSchema, B: WithSchema, C: WithSchema> WithSchema for (A, B, C) {
    open spec fn schema_nodes(version: u32) -> Seq<SchemaNodeModel> {
        seq![SchemaNodeModel::Struct(("3-Tuple"@, 3usize)), SchemaNodeModel::Field(("0"@, false))]
            + A::schema_nodes(version) + seq![SchemaNodeModel::Field(("1"@, false))] + B::schema_nodes(version)
            + seq![SchemaNodeModel::Field(("2"@, false))] + C::schema_nodes(version)
    }

    fn schema(version: u32, nodes: &mut Vec<SchemaNode>) {
        push_struct(nodes, "3-Tuple", 3);
        push_field(nodes, "0", false);
        A::schema(version, nodes);
        push_field(nodes, "1", false);
        B::schema(version, nodes);
        push_field(nodes, "2", false);
        C::schema(version, nodes);
        assert(nodes.model() =~= old(nodes).model() + Self::schema_nodes(version));
    }
}

impl<T: WithSchema> WithSchema for Removed<T> {
    /// The schema of the type the field had.
    open spec fn schema_nodes(version: u32) -> Seq<SchemaNodeModel> {
        T::schema_nodes(version)
    }

    fn schema(version: u32, nodes: &mut Vec<SchemaNode>) {
        T::schema(version, nodes);
    }
}

impl<T: WithSchema, C> WithSchema for AbiRemoved<T, C> {
    /// The schema of the type the field had.
    open spec fn schema_nodes(version: u32) -> Seq<SchemaNodeModel> {
        T::schema_nodes(version)
    }

    fn schema(version: u32, nodes: &mut Vec<SchemaNode>) {
        T::schema(version, nodes);
    }
}

impl<T> WithSchema for core::marker::PhantomData<T> {
    open spec fn schema_nodes(version: u32) -> Seq<SchemaNodeModel> {
        seq![SchemaNodeModel::ZeroSize]
    }

    fn schema(version: u32, nodes: &mut Vec<SchemaNode>) {
        push_node(nodes, SchemaNode::ZeroSize);
        assert(nodes.model() =~= old(nodes).model() + Self::schema_nodes(version));
    }
}

} // verus!
