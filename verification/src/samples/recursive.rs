//! Types that contain themselves.
use vstd::prelude::*;

use crate::error::SavefileError;
use crate::schema::nodes::{SchemaNode, SchemaNodeModel, SchemaPrimitive, SchemaPrimitiveModel};
use crate::schema::with_schema::{push_enum, push_field, push_node, push_struct, push_variant, WithSchema};
use crate::serializer::{Deserializer, Serializer};
use crate::traits::{Deserialize, Model, Roundtrip, Serialize};

verus! {

/// A binary tree with no data in it.
#[derive(Debug, PartialEq)]
pub enum Tree {
    Leaf,
    Node(Box<Tree>, Box<Tree>),
}

/// The model of a [`Tree`]: the same shape.
pub enum TreeModel {
    Leaf,
    Node(Box<TreeModel>, Box<TreeModel>),
}

/// The shape of a tree.
pub open spec fn tree_model(t: Tree) -> TreeModel
    decreases t,
{
    match t {
        Tree::Leaf => TreeModel::Leaf,
        Tree::Node(a, b) => TreeModel::Node(Box::new(tree_model(*a)), Box::new(tree_model(*b))),
    }
}

/// A zero byte for a leaf; a one byte followed by both subtrees for a node.
pub open spec fn tree_encode(m: TreeModel) -> Seq<u8>
    decreases m,
{
    match m {
        TreeModel::Leaf => seq![0u8],
        TreeModel::Node(a, b) => seq![1u8] + tree_encode(*a) + tree_encode(*b),
    }
}

/// The tree at the front of `s`, and the number of bytes it takes.
pub open spec fn tree_decode(s: Seq<u8>) -> Option<(TreeModel, nat)>
    decreases s.len(),
{
    if s.len() == 0 {
        None
    } else if s[0] == 0 {
        Some((TreeModel::Leaf, 1))
    } else if s[0] == 1 {
        match tree_decode(s.skip(1)) {
            Some((a, n)) => if n + 1 <= s.len() {
                match tree_decode(s.skip((1 + n) as int)) {
                    Some((b, k)) => Some((TreeModel::Node(Box::new(a), Box::new(b)), 1 + n + k)),
                    None => None,
                }
            } else {
                None
            },
            None => None,
        }
    } else {
        None
    }
}

/// A decoded tree never takes more bytes than there are.
pub proof fn lemma_tree_decode_len(s: Seq<u8>)
    ensures
        tree_decode(s) matches Some((_, n)) ==> 1 <= n <= s.len(),
    decreases s.len(),
{
    if s.len() > 0 && s[0] == 1 {
        lemma_tree_decode_len(s.skip(1));
        if let Some((a, n)) = tree_decode(s.skip(1)) {
            if n + 1 <= s.len() {
                lemma_tree_decode_len(s.skip((1 + n) as int));
            }
        }
    }
}

/// Decoding the encoding of a tree, followed by any bytes, gives the tree back.
pub proof fn lemma_tree_roundtrip(m: TreeModel, rest: Seq<u8>)
    ensures
        tree_decode(tree_encode(m) + rest) == Some((m, tree_encode(m).len())),
    decreases m,
{
    match m {
        TreeModel::Leaf => {},
        TreeModel::Node(a, b) => {
            let eb = tree_encode(*b) + rest;
            lemma_tree_roundtrip(*a, eb);
            lemma_tree_roundtrip(*b, rest);
            let all = tree_encode(m) + rest;
            assert(all.skip(1) =~= tree_encode(*a) + eb);
            assert(all.skip((1 + tree_encode(*a).len()) as int) =~= eb);
        },
    }
}

fn serialize_tree(t: &Tree, serializer: &mut Serializer)
    ensures
        final(serializer).file_version == old(serializer).file_version,
        final(serializer).writer@ == old(serializer).writer@ + tree_encode(tree_model(*t)),
    decreases t,
{
    match t {
        Tree::Leaf => {
            serializer.writer.push(0u8);
        },
        Tree::Node(a, b) => {
            serializer.writer.push(1u8);
            serialize_tree(a, serializer);
            serialize_tree(b, serializer);
        },
    }
    assert(serializer.writer@ =~= old(serializer).writer@ + tree_encode(tree_model(*t)));
}

fn deserialize_tree(deserializer: &mut Deserializer) -> (r: Result<Tree, SavefileError>)
    requires
        old(deserializer).wf(),
    ensures
        final(deserializer).wf(),
        final(deserializer).reader@ == old(deserializer).reader@,
        final(deserializer).file_version == old(deserializer).file_version,
        match tree_decode(old(deserializer).rest()) {
            Some((m, n)) => (r matches Ok(v) && tree_model(v) == m && old(deserializer).advanced(
                &*final(deserializer),
                n,
            )),
            None => r is Err,
        },
    decreases old(deserializer).rest().len(),
{
    let ghost s = deserializer.rest();
    if deserializer.pos >= deserializer.reader.len() {
        return Err(SavefileError::ShortRead);
    }
    let tag = deserializer.reader[deserializer.pos];
    if tag == 0 {
        deserializer.pos = deserializer.pos + 1;
        Ok(Tree::Leaf)
    } else if tag == 1 {
        deserializer.pos = deserializer.pos + 1;
        assert(deserializer.rest() =~= s.skip(1));
        proof {
            lemma_tree_decode_len(s.skip(1));
        }
        let a = match deserialize_tree(deserializer) {
            Ok(a) => a,
            Err(e) => {
                return Err(e);
            },
        };
        let ghost n = tree_decode(s.skip(1)).unwrap().1;
        assert(deserializer.rest() =~= s.skip((1 + n) as int));
        proof {
            lemma_tree_decode_len(s.skip((1 + n) as int));
        }
        let b = match deserialize_tree(deserializer) {
            Ok(b) => b,
            Err(e) => {
                return Err(e);
            },
        };
        Ok(Tree::Node(Box::new(a), Box::new(b)))
    } else {
        Err(SavefileError::BadDiscriminant)
    }
}

impl Model for Tree {
    type M = TreeModel;

    open spec fn model(&self) -> TreeModel {
        tree_model(*self)
    }
}

impl Serialize for Tree {
    open spec fn valid(version: u32, m: TreeModel) -> bool {
        true
    }

    /// A zero byte for a leaf; a one byte followed by both subtrees for a node.
    open spec fn encode(version: u32, m: TreeModel) -> Seq<u8> {
        tree_encode(m)
    }

    fn serialize(&self, serializer: &mut Serializer) -> (r: Result<(), SavefileError>) {
        serialize_tree(self, serializer);
        Ok(())
    }
}

impl Deserialize for Tree {
    open spec fn decode(version: u32, s: Seq<u8>) -> Option<(TreeModel, nat)> {
        tree_decode(s)
    }

    fn deserialize(deserializer: &mut Deserializer) -> (r: Result<Tree, SavefileError>) {
        deserialize_tree(deserializer)
    }
}

impl Roundtrip for Tree {
    open spec fn read_back(version: u32, m: TreeModel) -> TreeModel {
        m
    }

    proof fn lemma_roundtrip(version: u32, m: TreeModel, rest: Seq<u8>) {
        lemma_tree_roundtrip(m, rest);
    }
}

impl WithSchema for Tree {
    /// Each subtree refers back to the enclosing enum.
    open spec fn schema_nodes(version: u32) -> Seq<SchemaNodeModel> {
        seq![
            SchemaNodeModel::Enum(("Tree"@, 1u8, 2usize)),
            SchemaNodeModel::Variant(("Leaf"@, 0usize)),
            SchemaNodeModel::Variant(("Node"@, 2usize)),
            SchemaNodeModel::Field(("0"@, false)),
            SchemaNodeModel::Recursion(0usize),
            SchemaNodeModel::Field(("1"@, false)),
            SchemaNodeModel::Recursion(0usize),
        ]
    }

    fn schema(version: u32, nodes: &mut Vec<SchemaNode>) {
        push_enum(nodes, "Tree", 1, 2);
        push_variant(nodes, "Leaf", 0);
        push_variant(nodes, "Node", 2);
        push_field(nodes, "0", false);
        push_node(nodes, SchemaNode::Recursion(0));
        push_field(nodes, "1", false);
        push_node(nodes, SchemaNode::Recursion(0));
        assert(nodes.model() =~= old(nodes).model() + Self::schema_nodes(version));
    }
}

/// A tree whose leaves hold text, and whose inner nodes are records.
#[derive(Debug, PartialEq)]
pub enum Tree2 {
    Leaf(String),
    Node(TreeNode),
}

/// An inner node of a [`Tree2`].
#[derive(Debug, PartialEq)]
pub struct TreeNode {
    pub tree: Box<Tree2>,
}

/// The model of a [`Tree2`]: the same shape, with the text of each leaf.
pub enum Tree2Model {
    Leaf(Seq<char>),
    Node(Box<Tree2Model>),
}

/// The shape and text of a [`Tree2`].
pub open spec fn tree2_model(t: Tree2) -> Tree2Model
    decreases t,
{
    match t {
        Tree2::Leaf(s) => Tree2Model::Leaf(s@),
        Tree2::Node(n) => Tree2Model::Node(Box::new(tree2_model(*n.tree))),
    }
}

/// A zero byte followed by the text for a leaf; a one byte followed by the
/// subtree for a node.
pub open spec fn tree2_encode(m: Tree2Model) -> Seq<u8>
    decreases m,
{
    match m {
        Tree2Model::Leaf(s) => seq![0u8] + <String as Serialize>::encode(0, s),
        Tree2Model::Node(t) => seq![1u8] + tree2_encode(*t),
    }
}

/// Whether every leaf text of the tree can be written.
pub open spec fn tree2_valid(m: Tree2Model) -> bool
    decreases m,
{
    match m {
        Tree2Model::Leaf(s) => <String as Serialize>::valid(0, s),
        Tree2Model::Node(t) => tree2_valid(*t),
    }
}

/// The [`Tree2`] at the front of `s`, and the number of bytes it takes.
pub open spec fn tree2_decode(s: Seq<u8>) -> Option<(Tree2Model, nat)>
    decreases s.len(),
{
    if s.len() == 0 {
        None
    } else if s[0] == 0 {
        match <String as Deserialize>::decode(0, s.skip(1)) {
            Some((t, n)) => Some((Tree2Model::Leaf(t), n + 1)),
            None => None,
        }
    } else if s[0] == 1 {
        match tree2_decode(s.skip(1)) {
            Some((t, n)) => Some((Tree2Model::Node(Box::new(t)), n + 1)),
            None => None,
        }
    } else {
        None
    }
}

/// Decoding the encoding of a writable [`Tree2`], followed by any bytes, gives it back.
pub proof fn lemma_tree2_roundtrip(m: Tree2Model, rest: Seq<u8>)
    requires
        tree2_valid(m),
    ensures
        tree2_decode(tree2_encode(m) + rest) == Some((m, tree2_encode(m).len())),
    decreases m,
{
    let all = tree2_encode(m) + rest;
    match m {
        Tree2Model::Leaf(s) => {
            <String as Roundtrip>::lemma_roundtrip(0, s, rest);
            assert(all.skip(1) =~= <String as Serialize>::encode(0, s) + rest);
        },
        Tree2Model::Node(t) => {
            lemma_tree2_roundtrip(*t, rest);
            assert(all.skip(1) =~= tree2_encode(*t) + rest);
        },
    }
}

fn serialize_tree2(t: &Tree2, serializer: &mut Serializer) -> (r: Result<(), SavefileError>)
    ensures
        final(serializer).file_version == old(serializer).file_version,
        tree2_valid(tree2_model(*t)) ==> r is Ok && final(serializer).writer@ == old(
            serializer,
        ).writer@ + tree2_encode(tree2_model(*t)),
        !tree2_valid(tree2_model(*t)) ==> r is Err,
    decreases t,
{
    match t {
        Tree2::Leaf(s) => {
            serializer.writer.push(0u8);
            match s.serialize(serializer) {
                Ok(()) => {},
                Err(e) => {
                    return Err(e);
                },
            }
        },
        Tree2::Node(n) => {
            serializer.writer.push(1u8);
            match serialize_tree2(&n.tree, serializer) {
                Ok(()) => {},
                Err(e) => {
                    return Err(e);
                },
            }
        },
    }
    assert(serializer.writer@ =~= old(serializer).writer@ + tree2_encode(tree2_model(*t)));
    Ok(())
}

fn deserialize_tree2(deserializer: &mut Deserializer) -> (r: Result<Tree2, SavefileError>)
    requires
        old(deserializer).wf(),
    ensures
        final(deserializer).wf(),
        final(deserializer).reader@ == old(deserializer).reader@,
        final(deserializer).file_version == old(deserializer).file_version,
        match tree2_decode(old(deserializer).rest()) {
            Some((m, n)) => (r matches Ok(v) && tree2_model(v) == m && old(deserializer).advanced(
                &*final(deserializer),
                n,
            )),
            None => r is Err,
        },
    decreases old(deserializer).rest().len(),
{
    let ghost s = deserializer.rest();
    if deserializer.pos >= deserializer.reader.len() {
        return Err(SavefileError::ShortRead);
    }
    let tag = deserializer.reader[deserializer.pos];
    if tag == 0 {
        deserializer.pos = deserializer.pos + 1;
        assert(deserializer.rest() =~= s.skip(1));
        match <String as Deserialize>::deserialize(deserializer) {
            Ok(v) => Ok(Tree2::Leaf(v)),
            Err(e) => Err(e),
        }
    } else if tag == 1 {
        deserializer.pos = deserializer.pos + 1;
        assert(deserializer.rest() =~= s.skip(1));
        match deserialize_tree2(deserializer) {
            Ok(v) => Ok(Tree2::Node(TreeNode { tree: Box::new(v) })),
            Err(e) => Err(e),
        }
    } else {
        Err(SavefileError::BadDiscriminant)
    }
}

impl Model for Tree2 {
    type M = Tree2Model;

    open spec fn model(&self) -> Tree2Model {
        tree2_model(*self)
    }
}

impl Serialize for Tree2 {
    open spec fn valid(version: u32, m: Tree2Model) -> bool {
        tree2_valid(m)
    }

    /// A zero byte followed by the text for a leaf; a one byte followed by the
    /// subtree for a node.
    open spec fn encode(version: u32, m: Tree2Model) -> Seq<u8> {
        tree2_encode(m)
    }

    fn serialize(&self, serializer: &mut Serializer) -> (r: Result<(), SavefileError>) {
        serialize_tree2(self, serializer)
    }
}

impl Deserialize for Tree2 {
    open spec fn decode(version: u32, s: Seq<u8>) -> Option<(Tree2Model, nat)> {
        tree2_decode(s)
    }

    fn deserialize(deserializer: &mut Deserializer) -> (r: Result<Tree2, SavefileError>) {
        deserialize_tree2(deserializer)
    }
}

impl Roundtrip for Tree2 {
    open spec fn read_back(version: u32, m: Tree2Model) -> Tree2Model {
        m
    }

    proof fn lemma_roundtrip(version: u32, m: Tree2Model, rest: Seq<u8>) {
        lemma_tree2_roundtrip(m, rest);
    }
}

impl Model for TreeNode {
    /// The model of the subtree.
    type M = Tree2Model;

    open spec fn model(&self) -> Tree2Model {
        tree2_model(*self.tree)
    }
}

impl Serialize for TreeNode {
    open spec fn valid(version: u32, m: Tree2Model) -> bool {
        tree2_valid(m)
    }

    /// The bytes of the subtree.
    open spec fn encode(version: u32, m: Tree2Model) -> Seq<u8> {
        tree2_encode(m)
    }

    fn serialize(&self, serializer: &mut Serializer) -> (r: Result<(), SavefileError>) {
        serialize_tree2(&self.tree, serializer)
    }
}

impl Deserialize for TreeNode {
    open spec fn decode(version: u32, s: Seq<u8>) -> Option<(Tree2Model, nat)> {
        tree2_decode(s)
    }

    fn deserialize(deserializer: &mut Deserializer) -> (r: Result<TreeNode, SavefileError>) {
        match deserialize_tree2(deserializer) {
            Ok(v) => Ok(TreeNode { tree: Box::new(v) }),
            Err(e) => Err(e),
        }
    }
}

impl Roundtrip for TreeNode {
    open spec fn read_back(version: u32, m: Tree2Model) -> Tree2Model {
        m
    }

    proof fn lemma_roundtrip(version: u32, m: Tree2Model, rest: Seq<u8>) {
        lemma_tree2_roundtrip(m, rest);
    }
}

/// The schema of a [`Tree2`] below its enum node: the subtree of an inner node
/// refers back to the enclosing enum, one record up.
pub open spec fn tree2_variants() -> Seq<SchemaNodeModel> {
    seq![
        SchemaNodeModel::Variant(("Leaf"@, 1usize)),
        SchemaNodeModel::Field(("0"@, false)),
        SchemaNodeModel::Primitive(SchemaPrimitiveModel::schema_string),
        SchemaNodeModel::Variant(("Node"@, 1usize)),
        SchemaNodeModel::Field(("0"@, false)),
        SchemaNodeModel::Struct(("TreeNode"@, 1usize)),
        SchemaNodeModel::Field(("tree"@, false)),
        SchemaNodeModel::Recursion(1usize),
    ]
}

fn push_tree2_variants(nodes: &mut Vec<SchemaNode>)
    ensures
        final(nodes).model() == old(nodes).model() + tree2_variants(),
{
    push_variant(nodes, "Leaf", 1);
    push_field(nodes, "0", false);
    push_node(nodes, SchemaNode::Primitive(SchemaPrimitive::schema_string));
    push_variant(nodes, "Node", 1);
    push_field(nodes, "0", false);
    push_struct(nodes, "TreeNode", 1);
    push_field(nodes, "tree", false);
    push_node(nodes, SchemaNode::Recursion(1));
    assert(nodes.model() =~= old(nodes).model() + tree2_variants());
}

impl WithSchema for Tree2 {
    open spec fn schema_nodes(version: u32) -> Seq<SchemaNodeModel> {
        seq![SchemaNodeModel::Enum(("Tree2"@, 1u8, 2usize))] + tree2_variants()
    }

    fn schema(version: u32, nodes: &mut Vec<SchemaNode>) {
        push_enum(nodes, "Tree2", 1, 2);
        push_tree2_variants(nodes);
        assert(nodes.model() =~= old(nodes).model() + Self::schema_nodes(version));
    }
}

impl WithSchema for TreeNode {
    open spec fn schema_nodes(version: u32) -> Seq<SchemaNodeModel> {
        seq![
            SchemaNodeModel::Struct(("TreeNode"@, 1usize)),
            SchemaNodeModel::Field(("tree"@, false)),
            SchemaNodeModel::Enum(("Tree2"@, 1u8, 2usize)),
        ] + tree2_variants()
    }

    fn schema(version: u32, nodes: &mut Vec<SchemaNode>) {
        push_struct(nodes, "TreeNode", 1);
        push_field(nodes, "tree", false);
        push_enum(nodes, "Tree2", 1, 2);
        push_tree2_variants(nodes);
        assert(nodes.model() =~= old(nodes).model() + Self::schema_nodes(version));
    }
}

} // verus!
