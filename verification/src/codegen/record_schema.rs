//! The schema that the derived `WithSchema` gives a record: a record node
//! with the number of fields present in the data version, then each present
//! field behind a field node, older stored types first.
use vstd::prelude::*;

use crate::attrs::field::{AttrsModel, AttrsResult, VersionRange, VersionRangeModel};
use crate::codegen::fields::{first_error, in_every_version, write_error, DeriveError, FieldDecl, FieldDeclModel};
use crate::schema::nodes::{SchemaNode, SchemaNodeModel};
use crate::schema::with_schema::{append_nodes, push_enum, push_field, push_struct, push_variant};
use crate::schema::Schema;
use crate::traits::Model;

verus! {

/// The nodes of the older types `older` of the field `name` whose ranges
/// `rs` hold version `v`, each behind a field node, in order.
pub open spec fn older_nodes(
    name: Seq<char>,
    rs: Seq<VersionRangeModel>,
    older: Seq<Seq<SchemaNodeModel>>,
    v: u32,
) -> Seq<SchemaNodeModel>
    decreases rs.len(),
{
    if rs.len() == 0 {
        Seq::empty()
    } else {
        older_nodes(name, rs.drop_last(), older, v) + if rs.last().from <= v && v <= rs.last().to {
            seq![SchemaNodeModel::Field((name, false))] + older[rs.len() - 1]
        } else {
            Seq::empty()
        }
    }
}

/// How many of the ranges `rs` hold version `v`.
pub open spec fn older_count(rs: Seq<VersionRangeModel>, v: u32) -> nat
    decreases rs.len(),
{
    if rs.len() == 0 {
        0
    } else {
        older_count(rs.drop_last(), v) + if rs.last().from <= v && v <= rs.last().to {
            1nat
        } else {
            0nat
        }
    }
}

/// The nodes that the field `f` adds to the schema of version `v`, where
/// `own` is the schema of its type and `older` those of its older types: none
/// for a skipped field; its own type for one without version bounds; else the
/// older types that hold `v`, then its own type where `v` is among its
/// versions, marked removed where its type is a removed one.
pub open spec fn field_nodes(
    f: FieldDeclModel,
    v: u32,
    own: Seq<SchemaNodeModel>,
    older: Seq<Seq<SchemaNodeModel>>,
) -> Seq<SchemaNodeModel> {
    if f.attrs.ignore {
        Seq::empty()
    } else if in_every_version(f.attrs) {
        seq![SchemaNodeModel::Field((f.name, false))] + own
    } else {
        older_nodes(f.name, f.attrs.deserialize_types, older, v) + if f.attrs.version_from <= v && v
            <= f.attrs.version_to {
            seq![SchemaNodeModel::Field((f.name, !(f.removed is NotRemoved)))] + own
        } else {
            Seq::empty()
        }
    }
}

/// How many field nodes the field `f` adds to the schema of version `v`.
pub open spec fn field_count(f: FieldDeclModel, v: u32) -> nat {
    if f.attrs.ignore {
        0
    } else if in_every_version(f.attrs) {
        1
    } else {
        older_count(f.attrs.deserialize_types, v) + if f.attrs.version_from <= v && v
            <= f.attrs.version_to {
            1nat
        } else {
            0nat
        }
    }
}

/// The nodes of the fields `fs`, in order.
pub open spec fn record_nodes(
    fs: Seq<FieldDeclModel>,
    v: u32,
    own: Seq<Seq<SchemaNodeModel>>,
    older: Seq<Seq<Seq<SchemaNodeModel>>>,
) -> Seq<SchemaNodeModel>
    decreases fs.len(),
{
    if fs.len() == 0 {
        Seq::empty()
    } else {
        record_nodes(fs.drop_last(), v, own, older) + field_nodes(
            fs.last(),
            v,
            own[fs.len() - 1],
            older[fs.len() - 1],
        )
    }
}

/// How many field nodes the fields `fs` add.
pub open spec fn record_count(fs: Seq<FieldDeclModel>, v: u32) -> nat
    decreases fs.len(),
{
    if fs.len() == 0 {
        0
    } else {
        record_count(fs.drop_last(), v) + field_count(fs.last(), v)
    }
}

/// The schema of the record `name` with fields `fs` in version `v`.
pub open spec fn derived_schema_nodes(
    name: Seq<char>,
    fs: Seq<FieldDeclModel>,
    v: u32,
    own: Seq<Seq<SchemaNodeModel>>,
    older: Seq<Seq<Seq<SchemaNodeModel>>>,
) -> Seq<SchemaNodeModel> {
    seq![SchemaNodeModel::Struct((name, record_count(fs, v) as usize))] + record_nodes(fs, v, own, older)
}

/// Appends the older types of the field `name` that hold version `v`.
fn push_older(
    nodes: &mut Vec<SchemaNode>,
    count: &mut usize,
    name: &str,
    ranges: &Vec<VersionRange>,
    older: &Vec<Schema>,
    v: u32,
)
    requires
        older.len() == ranges.len(),
        *old(count) <= old(nodes)@.len(),
    ensures
        final(nodes).model() == old(nodes).model() + older_nodes(name@, ranges.model(), older.model(), v),
        *final(count) == *old(count) + older_count(ranges.model(), v),
        *final(count) <= final(nodes)@.len(),
{
    let ghost rs = ranges.model();
    let ghost os = older.model();
    let mut i: usize = 0;
    while i < ranges.len()
        invariant
            i <= ranges.len(),
            older.len() == ranges.len(),
            rs == ranges.model(),
            os == older.model(),
            nodes.model() == old(nodes).model() + older_nodes(name@, rs.take(i as int), os, v),
            *count == *old(count) + older_count(rs.take(i as int), v),
            *count <= nodes@.len(),
        decreases ranges.len() - i,
    {
        assert(rs.take(i + 1).drop_last() =~= rs.take(i as int));
        assert(rs[i as int] == ranges@[i as int].model());
        assert(os[i as int] == older@[i as int].model());
        if ranges[i].from <= v && v <= ranges[i].to {
            let ghost before = nodes.model();
            let ghost before_len = nodes@.len();
            assert(before.len() == before_len);
            push_field(nodes, name, false);
            let _len = nodes.len();
            assert(nodes.model().len() == nodes@.len());
            assert(before_len + 1 == nodes@.len());
            *count = *count + 1;
            append_nodes(nodes, &older[i].nodes);
            assert(nodes.model() =~= before + (seq![SchemaNodeModel::Field((name@, false))] + os[i as int]));
        }
        i = i + 1;
    }
    assert(rs.take(i as int) =~= rs);
}

/// Appends the nodes of the field `f` for version `v`.
fn push_record_field(
    nodes: &mut Vec<SchemaNode>,
    count: &mut usize,
    f: &FieldDecl,
    v: u32,
    own: &Schema,
    older: &Vec<Schema>,
)
    requires
        older.len() == f.attrs.deserialize_types.len(),
        *old(count) <= old(nodes)@.len(),
    ensures
        final(nodes).model() == old(nodes).model() + field_nodes(f.model(), v, own.model(), older.model()),
        *final(count) == *old(count) + field_count(f.model(), v),
        *final(count) <= final(nodes)@.len(),
{
    let name = f.name.as_str();
    if f.attrs.ignore {
        assert(nodes.model() =~= old(nodes).model() + Seq::<SchemaNodeModel>::empty());
    } else if f.attrs.version_from == 0 && f.attrs.version_to == u32::MAX {
        let ghost before_len = nodes@.len();
        assert(nodes.model().len() == before_len);
        push_field(nodes, name, false);
        let _len = nodes.len();
            assert(nodes.model().len() == nodes@.len());
            assert(before_len + 1 == nodes@.len());
        *count = *count + 1;
        append_nodes(nodes, &own.nodes);
        assert(nodes.model() =~= old(nodes).model() + (seq![SchemaNodeModel::Field((name@, false))]
            + own.model()));
    } else {
        push_older(nodes, count, name, &f.attrs.deserialize_types, older, v);
        let ghost mid = nodes.model();
        if f.attrs.version_from <= v && v <= f.attrs.version_to {
            let removed = f.removed.is_removed();
            let ghost before_len = nodes@.len();
            assert(nodes.model().len() == before_len);
            push_field(nodes, name, removed);
            let _len = nodes.len();
            assert(nodes.model().len() == nodes@.len());
            assert(before_len + 1 == nodes@.len());
            *count = *count + 1;
            append_nodes(nodes, &own.nodes);
            assert(nodes.model() =~= mid + (seq![SchemaNodeModel::Field((name@, removed))] + own.model()));
        } else {
            assert(nodes.model() =~= mid + Seq::<SchemaNodeModel>::empty());
        }
        assert(nodes.model() =~= old(nodes).model() + field_nodes(f.model(), v, own.model(), older.model()));
    }
}

/// The nodes of the fields of a record or variant for data version
/// `version`, and how many field nodes there are; refused with the first
/// refusal among the fields.
#[verifier::spinoff_prover]
pub fn record_body(
    fields: &Vec<FieldDecl>,
    version: u32,
    own: &Vec<Schema>,
    older: &Vec<Vec<Schema>>,
) -> (r: Result<(usize, Vec<SchemaNode>), DeriveError>)
    requires
        own.len() == fields.len(),
        older.len() == fields.len(),
        forall|i: int|
            0 <= i < fields.len() ==> #[trigger] older@[i].len() == fields@[i].attrs.deserialize_types.len(),
    ensures
        match first_error(fields.model(), |f: FieldDeclModel| write_error(f)) {
            Some(e) => r matches Err(x) && x == e,
            None => r matches Ok((n, body)) && body.model() == record_nodes(
                fields.model(),
                version,
                own.model(),
                older.model(),
            ) && n == record_count(fields.model(), version),
        },
{
    let ghost fs = fields.model();
    let ghost err = |f: FieldDeclModel| write_error(f);
    let mut body: Vec<SchemaNode> = Vec::new();
    let mut count: usize = 0;
    let mut i: usize = 0;
    while i < fields.len()
        invariant
            i <= fields.len(),
            own.len() == fields.len(),
            older.len() == fields.len(),
            forall|j: int|
                0 <= j < fields.len() ==> #[trigger] older@[j].len() == fields@[j].attrs.deserialize_types.len(),
            fs == fields.model(),
            err == (|f: FieldDeclModel| write_error(f)),
            first_error(fs.take(i as int), err) is None,
            body.model() == record_nodes(fs.take(i as int), version, own.model(), older.model()),
            count == record_count(fs.take(i as int), version),
            count <= body@.len(),
        decreases fields.len() - i,
    {
        assert(fs.take(i + 1).drop_last() =~= fs.take(i as int));
        assert(fs[i as int] == fields@[i as int].model());
        assert(own.model()[i as int] == own@[i as int].model());
        assert(older.model()[i as int] == older@[i as int].model());
        let f = &fields[i];
        if !f.attrs.ignore && f.attrs.version_from == 0 && f.attrs.version_to == u32::MAX
            && f.removed.is_removed() {
            proof {
                crate::codegen::fields::lemma_first_error_prefix(fs, (i + 1) as int, err);
            }
            return Err(DeriveError::RemovedInEveryVersion);
        }
        push_record_field(&mut body, &mut count, f, version, &own[i], &older[i]);
        i = i + 1;
    }
    assert(fs.take(i as int) =~= fs);
    Ok((count, body))
}

/// The schema that the derived `WithSchema` gives the record `name` with
/// fields `fields` in data version `version`, where `own[i]` is the schema of
/// the type of field `i` and `older[i][j]` that of its `j`-th older type;
/// refused with the first refusal among the fields.
pub fn derived_schema(
    name: &str,
    fields: &Vec<FieldDecl>,
    version: u32,
    own: &Vec<Schema>,
    older: &Vec<Vec<Schema>>,
) -> (r: Result<Schema, DeriveError>)
    requires
        own.len() == fields.len(),
        older.len() == fields.len(),
        forall|i: int|
            0 <= i < fields.len() ==> #[trigger] older@[i].len() == fields@[i].attrs.deserialize_types.len(),
    ensures
        match first_error(fields.model(), |f: FieldDeclModel| write_error(f)) {
            Some(e) => r == Err::<Schema, DeriveError>(e),
            None => r matches Ok(s) && s.model() == derived_schema_nodes(
                name@,
                fields.model(),
                version,
                own.model(),
                older.model(),
            ),
        },
{
    let (count, body) = match record_body(fields, version, own, older) {
        Ok(x) => x,
        Err(e) => {
            return Err(e);
        },
    };
    let mut nodes: Vec<SchemaNode> = Vec::new();
    push_struct(&mut nodes, name, count);
    append_nodes(&mut nodes, &body);
    assert(nodes.model() =~= derived_schema_nodes(name@, fields.model(), version, own.model(), older.model()));
    Ok(Schema { nodes })
}

/// A variant of an enum, as the derive macros read its declaration.
pub struct VariantDecl {
    pub name: String,
    /// What the variant's attributes say.
    pub attrs: AttrsResult,
    pub fields: Vec<FieldDecl>,
}

/// The model of a [`VariantDecl`].
pub struct VariantDeclModel {
    pub name: Seq<char>,
    pub attrs: AttrsModel,
    pub fields: Seq<FieldDeclModel>,
}

impl Model for VariantDecl {
    type M = VariantDeclModel;

    open spec fn model(&self) -> VariantDeclModel {
        VariantDeclModel { name: self.name@, attrs: self.attrs.model(), fields: self.fields.model() }
    }
}

/// Why the variant `v` is refused, if it is: it is given a last version, or
/// one of its fields is refused.
pub open spec fn variant_error(v: VariantDeclModel) -> Option<DeriveError> {
    if v.attrs.version_to != u32::MAX {
        Some(DeriveError::RemovedVariant)
    } else {
        first_error(v.fields, |f: FieldDeclModel| write_error(f))
    }
}

/// The first refusal among the variants `vs`, in order.
pub open spec fn variants_error(vs: Seq<VariantDeclModel>) -> Option<DeriveError>
    decreases vs.len(),
{
    if vs.len() == 0 {
        None
    } else {
        match variants_error(vs.drop_last()) {
            Some(e) => Some(e),
            None => variant_error(vs.last()),
        }
    }
}

/// Whether the variant `v` exists in version `ver`.
pub open spec fn variant_present(v: VariantDeclModel, ver: u32) -> bool {
    v.attrs.version_from <= ver && ver <= v.attrs.version_to
}

/// The nodes of the variants `vs` that exist in version `ver`, each a variant
/// node with its number of field nodes, then those fields.
pub open spec fn enum_nodes(
    vs: Seq<VariantDeclModel>,
    ver: u32,
    own: Seq<Seq<Seq<SchemaNodeModel>>>,
    older: Seq<Seq<Seq<Seq<SchemaNodeModel>>>>,
) -> Seq<SchemaNodeModel>
    decreases vs.len(),
{
    if vs.len() == 0 {
        Seq::empty()
    } else {
        let v = vs.last();
        let i = vs.len() - 1;
        enum_nodes(vs.drop_last(), ver, own, older) + if variant_present(v, ver) {
            seq![SchemaNodeModel::Variant((v.name, record_count(v.fields, ver) as usize))]
                + record_nodes(v.fields, ver, own[i], older[i])
        } else {
            Seq::empty()
        }
    }
}

/// How many of the variants `vs` exist in version `ver`.
pub open spec fn enum_count(vs: Seq<VariantDeclModel>, ver: u32) -> nat
    decreases vs.len(),
{
    if vs.len() == 0 {
        0
    } else {
        enum_count(vs.drop_last(), ver) + if variant_present(vs.last(), ver) {
            1nat
        } else {
            0nat
        }
    }
}

/// The schema of the enum `name` with discriminant width `size` and variants `vs` in version `ver`.
pub open spec fn derived_enum_schema_nodes(
    name: Seq<char>,
    size: u8,
    vs: Seq<VariantDeclModel>,
    ver: u32,
    own: Seq<Seq<Seq<SchemaNodeModel>>>,
    older: Seq<Seq<Seq<Seq<SchemaNodeModel>>>>,
) -> Seq<SchemaNodeModel> {
    seq![SchemaNodeModel::Enum((name, size, enum_count(vs, ver) as usize))] + enum_nodes(vs, ver, own, older)
}

/// The schema that the derived `WithSchema` gives the enum `name`, whose
/// discriminant is `discriminant_size` bytes wide, in data version
/// `version`: the variants that exist in it, each with its fields;
/// `own[i]` and `older[i]` are the schemas of the fields of variant `i` as
/// for a record. Refused with the first refusal among the variants.
#[verifier::spinoff_prover]
pub fn derived_enum_schema(
    name: &str,
    discriminant_size: u8,
    variants: &Vec<VariantDecl>,
    version: u32,
    own: &Vec<Vec<Schema>>,
    older: &Vec<Vec<Vec<Schema>>>,
) -> (r: Result<Schema, DeriveError>)
    requires
        own.len() == variants.len(),
        older.len() == variants.len(),
        forall|i: int|
            0 <= i < variants.len() ==> #[trigger] own@[i].len() == variants@[i].fields.len() && older@[i].len()
                == variants@[i].fields.len(),
        forall|i: int, j: int|
            0 <= i < variants.len() && 0 <= j < variants@[i].fields.len() ==> #[trigger] older@[i]@[j].len()
                == #[trigger] variants@[i].fields@[j].attrs.deserialize_types.len(),
    ensures
        match variants_error(variants.model()) {
            Some(e) => r == Err::<Schema, DeriveError>(e),
            None => r matches Ok(s) && s.model() == derived_enum_schema_nodes(
                name@,
                discriminant_size,
                variants.model(),
                version,
                own.model(),
                older.model(),
            ),
        },
{
    let ghost vs = variants.model();
    let mut body: Vec<SchemaNode> = Vec::new();
    let mut count: usize = 0;
    let mut i: usize = 0;
    while i < variants.len()
        invariant
            i <= variants.len(),
            own.len() == variants.len(),
            older.len() == variants.len(),
            forall|k: int|
                0 <= k < variants.len() ==> #[trigger] own@[k].len() == variants@[k].fields.len()
                    && older@[k].len() == variants@[k].fields.len(),
            forall|k: int, j: int|
                0 <= k < variants.len() && 0 <= j < variants@[k].fields.len() ==> #[trigger] older@[k]@[j].len()
                    == #[trigger] variants@[k].fields@[j].attrs.deserialize_types.len(),
            vs == variants.model(),
            variants_error(vs.take(i as int)) is None,
            body.model() == enum_nodes(vs.take(i as int), version, own.model(), older.model()),
            count == enum_count(vs.take(i as int), version),
            count <= body@.len(),
        decreases variants.len() - i,
    {
        assert(vs.take(i + 1).drop_last() =~= vs.take(i as int));
        assert(vs[i as int] == variants@[i as int].model());
        assert(own.model()[i as int] == own@[i as int].model());
        assert(older.model()[i as int] == older@[i as int].model());
        let v = &variants[i];
        if v.attrs.version_to != u32::MAX {
            proof {
                lemma_variants_error_prefix(vs, (i + 1) as int);
            }
            return Err(DeriveError::RemovedVariant);
        }
        assert forall|j: int| 0 <= j < v.fields.len() implies #[trigger] older@[i as int]@[j].len()
            == v.fields@[j].attrs.deserialize_types.len() by {
            assert(older@[i as int]@[j].len() == variants@[i as int].fields@[j].attrs.deserialize_types.len());
        }
        let (n, fbody) = match record_body(&v.fields, version, &own[i], &older[i]) {
            Ok(x) => x,
            Err(e) => {
                proof {
                    lemma_variants_error_prefix(vs, (i + 1) as int);
                }
                return Err(e);
            },
        };
        if v.attrs.version_from <= version {
            let ghost before = body.model();
            let ghost before_len = body@.len();
            assert(before.len() == before_len);
            push_variant(&mut body, v.name.as_str(), n);
            let _len = body.len();
            assert(body.model().len() == body@.len());
            assert(before_len + 1 == body@.len());
            count = count + 1;
            append_nodes(&mut body, &fbody);
            assert(body.model() =~= before + (seq![SchemaNodeModel::Variant((v.name@, n))] + fbody.model()));
        } else {
            assert(body.model() =~= body.model() + Seq::<SchemaNodeModel>::empty());
        }
        i = i + 1;
    }
    assert(vs.take(i as int) =~= vs);
    let mut nodes: Vec<SchemaNode> = Vec::new();
    push_enum(&mut nodes, name, discriminant_size, count);
    append_nodes(&mut nodes, &body);
    assert(nodes.model() =~= derived_enum_schema_nodes(
        name@,
        discriminant_size,
        vs,
        version,
        own.model(),
        older.model(),
    ));
    Ok(Schema { nodes })
}

/// A refusal after a prefix of the variants is the outcome for all of them.
pub proof fn lemma_variants_error_prefix(vs: Seq<VariantDeclModel>, n: int)
    requires
        0 <= n <= vs.len(),
        variants_error(vs.take(n)) is Some,
    ensures
        variants_error(vs) == variants_error(vs.take(n)),
    decreases vs.len() - n,
{
    if n < vs.len() {
        assert(vs.take(n + 1).drop_last() =~= vs.take(n));
        lemma_variants_error_prefix(vs, n + 1);
    } else {
        assert(vs.take(n) =~= vs);
    }
}

/// A skipped field is not part of a record's schema: in every data version
/// it adds no nodes and is not counted among the record's fields.
pub proof fn lemma_skipped_field_not_in_schema(
    f: FieldDeclModel,
    v: u32,
    own: Seq<SchemaNodeModel>,
    older: Seq<Seq<SchemaNodeModel>>,
)
    requires
        f.attrs.ignore,
    ensures
        field_nodes(f, v, own, older).len() == 0,
        field_count(f, v) == 0,
{
}

/// Appending a skipped field to a record changes neither its nodes nor its
/// field count, in any data version.
pub proof fn lemma_record_ignores_skipped_field(
    fs: Seq<FieldDeclModel>,
    f: FieldDeclModel,
    v: u32,
    own: Seq<Seq<SchemaNodeModel>>,
    older: Seq<Seq<Seq<SchemaNodeModel>>>,
)
    requires
        f.attrs.ignore,
    ensures
        record_nodes(fs.push(f), v, own, older) == record_nodes(fs, v, own, older),
        record_count(fs.push(f), v) == record_count(fs, v),
{
    assert(fs.push(f).drop_last() =~= fs);
    assert(record_nodes(fs.push(f), v, own, older) =~= record_nodes(fs, v, own, older));
}

/// Where no older type of a field holds data version `v`, the field appears
/// in the schema of `v` exactly when it is written in `v`, as one field node
/// followed by its type's schema; otherwise it adds nothing.
pub proof fn lemma_schema_lists_written_fields(
    f: FieldDeclModel,
    v: u32,
    own: Seq<SchemaNodeModel>,
    older: Seq<Seq<SchemaNodeModel>>,
)
    requires
        !crate::codegen::fields::covered(f.attrs.deserialize_types, v as int),
    ensures
        field_count(f, v) == if crate::codegen::fields::written(f, v) {
            1nat
        } else {
            0nat
        },
        crate::codegen::fields::written(f, v) ==> field_nodes(f, v, own, older) =~= seq![
            SchemaNodeModel::Field((f.name, !(f.removed is NotRemoved) && !in_every_version(f.attrs)))
        ] + own,
        !crate::codegen::fields::written(f, v) ==> field_nodes(f, v, own, older).len() == 0,
{
    lemma_older_none(f.name, f.attrs.deserialize_types, older, v);
}

/// Where no range holds version `v`, no older type adds a node or a count.
proof fn lemma_older_none(
    name: Seq<char>,
    rs: Seq<VersionRangeModel>,
    older: Seq<Seq<SchemaNodeModel>>,
    v: u32,
)
    requires
        !crate::codegen::fields::covered(rs, v as int),
    ensures
        older_nodes(name, rs, older, v) =~= Seq::<SchemaNodeModel>::empty(),
        older_count(rs, v) == 0,
    decreases rs.len(),
{
    if rs.len() > 0 {
        let p = rs.drop_last();
        assert(!crate::codegen::fields::covered(p, v as int)) by {
            if crate::codegen::fields::covered(p, v as int) {
                let k = choose|k: int| 0 <= k < p.len() && #[trigger] p[k].from <= v && v <= p[k].to;
                assert(rs[k] == p[k]);
                assert(rs[k].from <= v && v <= rs[k].to);
            }
        }
        lemma_older_none(name, p, older, v);
        if rs.last().from <= v && v <= rs.last().to {
            assert(rs[rs.len() - 1].from <= v && v <= rs[rs.len() - 1].to);
        }
    }
}

} // verus!
