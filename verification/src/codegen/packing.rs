//! What the derive of `Packed` decides for a record or an enum: whether its
//! values may ever be copied as raw bytes, from which data version on, which
//! field types must allow it too, and whether the declaration demands it.
use vstd::prelude::*;

use crate::attrs::field::AttrsModel;
use crate::attrs::repr::{enum_size, get_enum_size};
use crate::attrs::text::same_text;
use crate::attrs::AttrMeta;
use crate::codegen::fields::{in_every_version, DeriveError, FieldDecl, FieldDeclModel};
use crate::codegen::record_schema::{VariantDecl, VariantDeclModel};
use crate::traits::Model;

verus! {

/// What the derive of `Packed` settles for a type.
#[derive(Debug, PartialEq, Eq)]
pub enum PackedDecision {
    /// Its values are never copied as raw bytes.
    Never,
    /// Its values may be copied as raw bytes in data versions from
    /// `min_safe_version` on, where its layout has no padding and each of the
    /// listed fields' types allows it as well; `require_no_padding` where the
    /// declaration demands the copying, so that padding is a compile error.
    FromVersion { min_safe_version: u32, checked_fields: Vec<(usize, usize)>, require_no_padding: bool },
}

/// The model of a [`PackedDecision`].
pub enum PackedDecisionModel {
    Never,
    FromVersion { min_safe_version: u32, checked_fields: Seq<(usize, usize)>, require_no_padding: bool },
}

impl PackedDecision {
    /// The model of this decision.
    pub open spec fn model(&self) -> PackedDecisionModel {
        match self {
            PackedDecision::Never => PackedDecisionModel::Never,
            PackedDecision::FromVersion { min_safe_version, checked_fields, require_no_padding } =>
                PackedDecisionModel::FromVersion {
                min_safe_version: *min_safe_version,
                checked_fields: checked_fields@,
                require_no_padding: *require_no_padding,
            },
        }
    }
}

/// Whether the attributes `attrs` of a type ask for raw copying:
/// `savefile_unsafe_and_fast` or `savefile_require_fast`, written as a bare name.
pub open spec fn fast_opt_in(attrs: Seq<AttrMeta>) -> bool {
    exists|i: int|
        0 <= i < attrs.len() && (#[trigger] attrs[i] matches AttrMeta::Path(p) && (p@
            == "savefile_unsafe_and_fast"@ || p@ == "savefile_require_fast"@))
}

/// The larger of `a` and `b`.
pub open spec fn max_u32(a: u32, b: u32) -> u32 {
    if a >= b {
        a
    } else {
        b
    }
}

/// The first version from which a field with attributes `a` no longer
/// changes the type's layout: after its removal, and no earlier than its
/// addition.
pub open spec fn min_safe(a: AttrsModel) -> u32 {
    if a.version_to < u32::MAX {
        max_u32((a.version_to + 1) as u32, a.version_from)
    } else {
        a.version_from
    }
}

/// The fields `fs` of a record, read in order: where `opt_in`, a skipped
/// field or a removed one without version bounds is refused; otherwise such
/// a field makes the record never copied (`None`). Otherwise the lowest safe
/// version and the positions of the fields whose types must allow copying:
/// all but the removed ones.
pub open spec fn record_scan(fs: Seq<FieldDeclModel>, opt_in: bool) -> Result<
    Option<(u32, Seq<(usize, usize)>)>,
    DeriveError,
>
    decreases fs.len(),
{
    if fs.len() == 0 {
        Ok(Some((0u32, Seq::empty())))
    } else {
        match record_scan(fs.drop_last(), opt_in) {
            Err(e) => Err(e),
            Ok(None) => Ok(None),
            Ok(Some((m, c))) => {
                let f = fs.last();
                let i = (fs.len() - 1) as usize;
                let removed = !(f.removed is NotRemoved);
                if f.attrs.ignore {
                    if opt_in {
                        Err(DeriveError::IgnoredFieldInFastType)
                    } else {
                        Ok(None)
                    }
                } else if in_every_version(f.attrs) {
                    if removed {
                        if opt_in {
                            Err(DeriveError::RemovedInEveryVersion)
                        } else {
                            Ok(None)
                        }
                    } else {
                        Ok(Some((m, c.push((0usize, i)))))
                    }
                } else {
                    Ok(
                        Some(
                            (
                                max_u32(m, min_safe(f.attrs)),
                                if removed {
                                    c
                                } else {
                                    c.push((0usize, i))
                                },
                            ),
                        ),
                    )
                }
            },
        }
    }
}

/// What the derive of `Packed` decides for a record with attributes `attrs`
/// and fields `fs`.
pub open spec fn record_packing(attrs: Seq<AttrMeta>, fs: Seq<FieldDeclModel>) -> Result<
    PackedDecisionModel,
    DeriveError,
> {
    let opt_in = fast_opt_in(attrs);
    match record_scan(fs, opt_in) {
        Err(e) => Err(e),
        Ok(None) => Ok(PackedDecisionModel::Never),
        Ok(Some((m, c))) => Ok(
            PackedDecisionModel::FromVersion { min_safe_version: m, checked_fields: c, require_no_padding: opt_in },
        ),
    }
}

/// The fields `fs` of variant `vi`, read in order for their types: a
/// removed field must have a last version, after which the layout is safe;
/// every field's type must allow copying.
pub open spec fn variant_types_scan(fs: Seq<FieldDeclModel>, vi: usize, m: u32, c: Seq<(usize, usize)>) -> Result<
    (u32, Seq<(usize, usize)>),
    DeriveError,
>
    decreases fs.len(),
{
    if fs.len() == 0 {
        Ok((m, c))
    } else {
        match variant_types_scan(fs.drop_last(), vi, m, c) {
            Err(e) => Err(e),
            Ok((m1, c1)) => {
                let f = fs.last();
                let i = (fs.len() - 1) as usize;
                if !(f.removed is NotRemoved) {
                    if f.attrs.version_to == u32::MAX {
                        Err(DeriveError::RemovedWithoutLastVersion)
                    } else {
                        Ok((max_u32(m1, (f.attrs.version_to + 1) as u32), c1.push((vi, i))))
                    }
                } else {
                    Ok((m1, c1.push((vi, i))))
                }
            },
        }
    }
}

/// The fields `fs` of a variant, read in order for their attributes: a
/// skipped field is refused where `opt_in`, and otherwise makes the enum
/// never copied (`None`); each field raises the lowest safe version.
pub open spec fn variant_attrs_scan(fs: Seq<FieldDeclModel>, opt_in: bool, m: u32) -> Result<Option<u32>, DeriveError>
    decreases fs.len(),
{
    if fs.len() == 0 {
        Ok(Some(m))
    } else {
        match variant_attrs_scan(fs.drop_last(), opt_in, m) {
            Err(e) => Err(e),
            Ok(None) => Ok(None),
            Ok(Some(m1)) => {
                let f = fs.last();
                if f.attrs.ignore {
                    if opt_in {
                        Err(DeriveError::IgnoredFieldInFastType)
                    } else {
                        Ok(None)
                    }
                } else {
                    Ok(Some(max_u32(m1, min_safe(f.attrs))))
                }
            },
        }
    }
}

/// The variants `vs` read in order: the types of each variant's fields,
/// then their attributes.
pub open spec fn enum_scan(vs: Seq<VariantDeclModel>, opt_in: bool) -> Result<
    Option<(u32, Seq<(usize, usize)>)>,
    DeriveError,
>
    decreases vs.len(),
{
    if vs.len() == 0 {
        Ok(Some((0u32, Seq::empty())))
    } else {
        match enum_scan(vs.drop_last(), opt_in) {
            Err(e) => Err(e),
            Ok(None) => Ok(None),
            Ok(Some((m, c))) => match variant_types_scan(vs.last().fields, (vs.len() - 1) as usize, m, c) {
                Err(e) => Err(e),
                Ok((m2, c2)) => match variant_attrs_scan(vs.last().fields, opt_in, m2) {
                    Err(e) => Err(e),
                    Ok(None) => Ok(None),
                    Ok(Some(m3)) => Ok(Some((m3, c2))),
                },
            },
        }
    }
}

/// What the derive of `Packed` decides for an enum with attributes `attrs`
/// and variants `vs`: without a declared discriminant size it is never
/// copied, or refused where it asks for copying.
pub open spec fn enum_packing(attrs: Seq<AttrMeta>, vs: Seq<VariantDeclModel>) -> Result<
    PackedDecisionModel,
    DeriveError,
> {
    let opt_in = fast_opt_in(attrs);
    match enum_size(attrs, vs.len()) {
        Err(e) => Err(DeriveError::BadAttributes(e)),
        Ok(size) => if !size.explicit_size {
            if opt_in {
                Err(DeriveError::FastEnumWithoutRepr)
            } else {
                Ok(PackedDecisionModel::Never)
            }
        } else {
            match enum_scan(vs, opt_in) {
                Err(e) => Err(e),
                Ok(None) => Ok(PackedDecisionModel::Never),
                Ok(Some((m, c))) => Ok(
                    PackedDecisionModel::FromVersion {
                        min_safe_version: m,
                        checked_fields: c,
                        require_no_padding: opt_in,
                    },
                ),
            }
        },
    }
}

/// Whether the attributes `attrs` of a type ask for raw copying.
pub fn fast_opt_in_exec(attrs: &Vec<AttrMeta>) -> (r: bool)
    ensures
        r == fast_opt_in(attrs@),
{
    let mut i: usize = 0;
    while i < attrs.len()
        invariant
            i <= attrs.len(),
            forall|j: int|
                0 <= j < i ==> !(#[trigger] attrs@[j] matches AttrMeta::Path(p) && (p@
                    == "savefile_unsafe_and_fast"@ || p@ == "savefile_require_fast"@)),
        decreases attrs.len() - i,
    {
        match &attrs[i] {
            AttrMeta::Path(p) => {
                if same_text(p.as_str(), "savefile_unsafe_and_fast") || same_text(p.as_str(), "savefile_require_fast") {
                    assert(attrs@[i as int] matches AttrMeta::Path(q) && (q@ == "savefile_unsafe_and_fast"@ || q@
                        == "savefile_require_fast"@));
                    return true;
                }
            },
            _ => {},
        }
        i = i + 1;
    }
    false
}

/// A scan that stopped after a prefix of `fs` stops the same for all of `fs`.
proof fn lemma_record_scan_stops(fs: Seq<FieldDeclModel>, opt_in: bool, n: int)
    requires
        0 <= n <= fs.len(),
        !(record_scan(fs.take(n), opt_in) matches Ok(Some(_))),
    ensures
        record_scan(fs, opt_in) == record_scan(fs.take(n), opt_in),
    decreases fs.len() - n,
{
    if n < fs.len() {
        assert(fs.take(n + 1).drop_last() =~= fs.take(n));
        lemma_record_scan_stops(fs, opt_in, n + 1);
    } else {
        assert(fs.take(n) =~= fs);
    }
}

/// What the derive of `Packed` decides for a record with attributes `attrs`
/// and fields `fields`.
pub fn record_packing_exec(attrs: &Vec<AttrMeta>, fields: &Vec<FieldDecl>) -> (r: Result<PackedDecision, DeriveError>)
    ensures
        match record_packing(attrs@, fields.model()) {
            Ok(d) => r matches Ok(x) && x.model() == d,
            Err(e) => r matches Err(x) && x == e,
        },
{
    let opt_in = fast_opt_in_exec(attrs);
    let ghost fs = fields.model();
    let mut m: u32 = 0;
    let mut checked: Vec<(usize, usize)> = Vec::new();
    let mut i: usize = 0;
    while i < fields.len()
        invariant
            i <= fields.len(),
            fs == fields.model(),
            opt_in == fast_opt_in(attrs@),
            record_scan(fs.take(i as int), opt_in) == Ok::<Option<(u32, Seq<(usize, usize)>)>, DeriveError>(
                Some((m, checked@)),
            ),
        decreases fields.len() - i,
    {
        assert(fs.take(i + 1).drop_last() =~= fs.take(i as int));
        assert(fs.take(i + 1).last() == fields@[i as int].model());
        let f = &fields[i];
        let removed = f.removed.is_removed();
        if f.attrs.ignore {
            proof {
                lemma_record_scan_stops(fs, opt_in, (i + 1) as int);
            }
            if opt_in {
                return Err(DeriveError::IgnoredFieldInFastType);
            }
            return Ok(PackedDecision::Never);
        }
        if f.attrs.version_from == 0 && f.attrs.version_to == u32::MAX {
            if removed {
                proof {
                    lemma_record_scan_stops(fs, opt_in, (i + 1) as int);
                }
                if opt_in {
                    return Err(DeriveError::RemovedInEveryVersion);
                }
                return Ok(PackedDecision::Never);
            }
            checked.push((0, i));
        } else {
            let s = f.attrs.min_safe_version();
            if s > m {
                m = s;
            }
            if !removed {
                checked.push((0, i));
            }
        }
        i = i + 1;
    }
    assert(fs.take(i as int) =~= fs);
    Ok(PackedDecision::FromVersion { min_safe_version: m, checked_fields: checked, require_no_padding: opt_in })
}

/// A scan of a variant's field types that failed after a prefix fails the same.
proof fn lemma_types_scan_stops(fs: Seq<FieldDeclModel>, vi: usize, m: u32, c: Seq<(usize, usize)>, n: int)
    requires
        0 <= n <= fs.len(),
        variant_types_scan(fs.take(n), vi, m, c) is Err,
    ensures
        variant_types_scan(fs, vi, m, c) == variant_types_scan(fs.take(n), vi, m, c),
    decreases fs.len() - n,
{
    if n < fs.len() {
        assert(fs.take(n + 1).drop_last() =~= fs.take(n));
        lemma_types_scan_stops(fs, vi, m, c, n + 1);
    } else {
        assert(fs.take(n) =~= fs);
    }
}

/// A scan of a variant's field attributes that stopped after a prefix stops the same.
proof fn lemma_attrs_scan_stops(fs: Seq<FieldDeclModel>, opt_in: bool, m: u32, n: int)
    requires
        0 <= n <= fs.len(),
        !(variant_attrs_scan(fs.take(n), opt_in, m) matches Ok(Some(_))),
    ensures
        variant_attrs_scan(fs, opt_in, m) == variant_attrs_scan(fs.take(n), opt_in, m),
    decreases fs.len() - n,
{
    if n < fs.len() {
        assert(fs.take(n + 1).drop_last() =~= fs.take(n));
        lemma_attrs_scan_stops(fs, opt_in, m, n + 1);
    } else {
        assert(fs.take(n) =~= fs);
    }
}

/// A scan of the variants that stopped after a prefix stops the same.
proof fn lemma_enum_scan_stops(vs: Seq<VariantDeclModel>, opt_in: bool, n: int)
    requires
        0 <= n <= vs.len(),
        !(enum_scan(vs.take(n), opt_in) matches Ok(Some(_))),
    ensures
        enum_scan(vs, opt_in) == enum_scan(vs.take(n), opt_in),
    decreases vs.len() - n,
{
    if n < vs.len() {
        assert(vs.take(n + 1).drop_last() =~= vs.take(n));
        lemma_enum_scan_stops(vs, opt_in, n + 1);
    } else {
        assert(vs.take(n) =~= vs);
    }
}

/// Reads the field types of variant `vi`.
fn scan_variant_types(fields: &Vec<FieldDecl>, vi: usize, m: u32, checked: &mut Vec<(usize, usize)>) -> (r: Result<
    u32,
    DeriveError,
>)
    ensures
        match variant_types_scan(fields.model(), vi, m, old(checked)@) {
            Ok((m2, c2)) => r == Ok::<u32, DeriveError>(m2) && final(checked)@ == c2,
            Err(e) => r == Err::<u32, DeriveError>(e),
        },
{
    let ghost fs = fields.model();
    let ghost c0 = checked@;
    let mut cur = m;
    let mut i: usize = 0;
    while i < fields.len()
        invariant
            i <= fields.len(),
            fs == fields.model(),
            c0 == old(checked)@,
            variant_types_scan(fs.take(i as int), vi, m, c0) == Ok::<(u32, Seq<(usize, usize)>), DeriveError>(
                (cur, checked@),
            ),
        decreases fields.len() - i,
    {
        assert(fs.take(i + 1).drop_last() =~= fs.take(i as int));
        assert(fs.take(i + 1).last() == fields@[i as int].model());
        let f = &fields[i];
        if f.removed.is_removed() {
            if f.attrs.version_to == u32::MAX {
                proof {
                    lemma_types_scan_stops(fs, vi, m, c0, (i + 1) as int);
                }
                return Err(DeriveError::RemovedWithoutLastVersion);
            }
            let next = f.attrs.version_to + 1;
            if next > cur {
                cur = next;
            }
        }
        checked.push((vi, i));
        i = i + 1;
    }
    assert(fs.take(i as int) =~= fs);
    Ok(cur)
}

/// Reads the field attributes of a variant.
fn scan_variant_attrs(fields: &Vec<FieldDecl>, opt_in: bool, m: u32) -> (r: Result<Option<u32>, DeriveError>)
    ensures
        r == variant_attrs_scan(fields.model(), opt_in, m),
{
    let ghost fs = fields.model();
    let mut cur = m;
    let mut i: usize = 0;
    while i < fields.len()
        invariant
            i <= fields.len(),
            fs == fields.model(),
            variant_attrs_scan(fs.take(i as int), opt_in, m) == Ok::<Option<u32>, DeriveError>(Some(cur)),
        decreases fields.len() - i,
    {
        assert(fs.take(i + 1).drop_last() =~= fs.take(i as int));
        assert(fs.take(i + 1).last() == fields@[i as int].model());
        let f = &fields[i];
        if f.attrs.ignore {
            proof {
                lemma_attrs_scan_stops(fs, opt_in, m, (i + 1) as int);
            }
            if opt_in {
                return Err(DeriveError::IgnoredFieldInFastType);
            }
            return Ok(None);
        }
        let s = f.attrs.min_safe_version();
        if s > cur {
            cur = s;
        }
        i = i + 1;
    }
    assert(fs.take(i as int) =~= fs);
    Ok(Some(cur))
}

/// What the derive of `Packed` decides for an enum with attributes `attrs`
/// and variants `variants`.
pub fn enum_packing_exec(attrs: &Vec<AttrMeta>, variants: &Vec<VariantDecl>) -> (r: Result<
    PackedDecision,
    DeriveError,
>)
    ensures
        match enum_packing(attrs@, variants.model()) {
            Ok(d) => r matches Ok(x) && x.model() == d,
            Err(e) => r matches Err(x) && x == e,
        },
{
    let opt_in = fast_opt_in_exec(attrs);
    let size = match get_enum_size(attrs, variants.len()) {
        Ok(s) => s,
        Err(e) => {
            return Err(DeriveError::BadAttributes(e));
        },
    };
    if !size.explicit_size {
        if opt_in {
            return Err(DeriveError::FastEnumWithoutRepr);
        }
        return Ok(PackedDecision::Never);
    }
    let ghost vs = variants.model();
    let mut m: u32 = 0;
    let mut checked: Vec<(usize, usize)> = Vec::new();
    let mut i: usize = 0;
    while i < variants.len()
        invariant
            i <= variants.len(),
            vs == variants.model(),
            opt_in == fast_opt_in(attrs@),
            enum_size(attrs@, vs.len()) == Ok::<crate::attrs::repr::EnumSize, crate::attrs::field::AttrError>(size),
            size.explicit_size,
            enum_scan(vs.take(i as int), opt_in) == Ok::<Option<(u32, Seq<(usize, usize)>)>, DeriveError>(
                Some((m, checked@)),
            ),
        decreases variants.len() - i,
    {
        assert(vs.take(i + 1).drop_last() =~= vs.take(i as int));
        assert(vs.take(i + 1).last() == variants@[i as int].model());
        let v = &variants[i];
        let m2 = match scan_variant_types(&v.fields, i, m, &mut checked) {
            Ok(x) => x,
            Err(e) => {
                proof {
                    lemma_enum_scan_stops(vs, opt_in, (i + 1) as int);
                }
                return Err(e);
            },
        };
        match scan_variant_attrs(&v.fields, opt_in, m2) {
            Ok(Some(m3)) => {
                m = m3;
            },
            Ok(None) => {
                proof {
                    lemma_enum_scan_stops(vs, opt_in, (i + 1) as int);
                }
                return Ok(PackedDecision::Never);
            },
            Err(e) => {
                proof {
                    lemma_enum_scan_stops(vs, opt_in, (i + 1) as int);
                }
                return Err(e);
            },
        }
        i = i + 1;
    }
    assert(vs.take(i as int) =~= vs);
    Ok(PackedDecision::FromVersion { min_safe_version: m, checked_fields: checked, require_no_padding: opt_in })
}

/// Whether version `m` lies at or after every version in which a field with
/// attributes `a` changes the layout: no earlier than its first version, and
/// after its last one where it has one.
pub open spec fn safe_for(m: u32, a: AttrsModel) -> bool {
    m >= a.version_from && (a.version_to < u32::MAX ==> m > a.version_to)
}

/// Reading a record's fields in order only raises the lowest safe version,
/// and leaves it safe for every field read, removed or not.
proof fn lemma_record_scan_safe(fs: Seq<FieldDeclModel>, opt_in: bool)
    ensures
        record_scan(fs, opt_in) matches Ok(Some((m, _))) ==> forall|i: int|
            0 <= i < fs.len() ==> safe_for(m, #[trigger] fs[i].attrs),
    decreases fs.len(),
{
    if fs.len() > 0 {
        lemma_record_scan_safe(fs.drop_last(), opt_in);
        if let Ok(Some((m, _))) = record_scan(fs, opt_in) {
            assert forall|i: int| 0 <= i < fs.len() implies safe_for(m, #[trigger] fs[i].attrs) by {
                if i < fs.len() - 1 {
                    assert(fs[i] == fs.drop_last()[i]);
                }
            }
        }
    }
}

/// A record that may be copied as raw bytes is copied only from a data
/// version after every version in which one of its fields, removed or not,
/// was added or removed: the layout is the same in all versions copied.
pub proof fn lemma_record_packing_after_all_changes(attrs: Seq<AttrMeta>, fs: Seq<FieldDeclModel>, i: int)
    requires
        0 <= i < fs.len(),
    ensures
        record_packing(attrs, fs) matches Ok(PackedDecisionModel::FromVersion { min_safe_version: m, .. })
            ==> m >= fs[i].attrs.version_from && (fs[i].attrs.version_to < u32::MAX ==> m
            > fs[i].attrs.version_to),
{
    lemma_record_scan_safe(fs, fast_opt_in(attrs));
}

/// Reading a variant's field types only raises the lowest safe version, and
/// leaves it after the last version of every removed field.
proof fn lemma_types_scan_safe(fs: Seq<FieldDeclModel>, vi: usize, m0: u32, c: Seq<(usize, usize)>)
    ensures
        variant_types_scan(fs, vi, m0, c) matches Ok((m, _)) ==> m >= m0,
    decreases fs.len(),
{
    if fs.len() > 0 {
        lemma_types_scan_safe(fs.drop_last(), vi, m0, c);
    }
}

/// Reading a variant's field attributes only raises the lowest safe version,
/// and leaves it safe for every field read.
proof fn lemma_attrs_scan_safe(fs: Seq<FieldDeclModel>, opt_in: bool, m0: u32)
    ensures
        variant_attrs_scan(fs, opt_in, m0) matches Ok(Some(m)) ==> m >= m0 && forall|i: int|
            0 <= i < fs.len() ==> safe_for(m, #[trigger] fs[i].attrs),
    decreases fs.len(),
{
    if fs.len() > 0 {
        lemma_attrs_scan_safe(fs.drop_last(), opt_in, m0);
        if let Ok(Some(m)) = variant_attrs_scan(fs, opt_in, m0) {
            assert forall|i: int| 0 <= i < fs.len() implies safe_for(m, #[trigger] fs[i].attrs) by {
                if i < fs.len() - 1 {
                    assert(fs[i] == fs.drop_last()[i]);
                }
            }
        }
    }
}

/// Reading the variants of an enum leaves the lowest safe version safe for
/// every field of every variant.
proof fn lemma_enum_scan_safe(vs: Seq<VariantDeclModel>, opt_in: bool)
    ensures
        enum_scan(vs, opt_in) matches Ok(Some((m, _))) ==> forall|k: int, i: int|
            0 <= k < vs.len() && 0 <= i < vs[k].fields.len() ==> safe_for(m, #[trigger] vs[k].fields[i].attrs),
    decreases vs.len(),
{
    if vs.len() > 0 {
        let pre = vs.drop_last();
        lemma_enum_scan_safe(pre, opt_in);
        if let Ok(Some((m, _))) = enum_scan(vs, opt_in) {
            let (m1, c1) = enum_scan(pre, opt_in)->Ok_0->Some_0;
            let last = vs.last();
            lemma_types_scan_safe(last.fields, (vs.len() - 1) as usize, m1, c1);
            let (m2, c2) = variant_types_scan(last.fields, (vs.len() - 1) as usize, m1, c1)->Ok_0;
            lemma_attrs_scan_safe(last.fields, opt_in, m2);
            assert forall|k: int, i: int| 0 <= k < vs.len() && 0 <= i < vs[k].fields.len() implies safe_for(
                m,
                #[trigger] vs[k].fields[i].attrs,
            ) by {
                if k < vs.len() - 1 {
                    assert(vs[k] == pre[k]);
                    assert(safe_for(m1, pre[k].fields[i].attrs));
                }
            }
        }
    }
}

/// An enum that may be copied as raw bytes is copied only from a data
/// version after every version in which a field of one of its variants,
/// removed or not, was added or removed.
pub proof fn lemma_enum_packing_after_all_changes(attrs: Seq<AttrMeta>, vs: Seq<VariantDeclModel>, k: int, i: int)
    requires
        0 <= k < vs.len(),
        0 <= i < vs[k].fields.len(),
    ensures
        enum_packing(attrs, vs) matches Ok(PackedDecisionModel::FromVersion { min_safe_version: m, .. })
            ==> m >= vs[k].fields[i].attrs.version_from && (vs[k].fields[i].attrs.version_to < u32::MAX ==> m
            > vs[k].fields[i].attrs.version_to),
{
    lemma_enum_scan_safe(vs, fast_opt_in(attrs));
}

/// Reading a record's fields in order lists every field whose type must
/// allow copying: exactly those that are not removed.
proof fn lemma_record_scan_checked(fs: Seq<FieldDeclModel>, opt_in: bool)
    requires
        fs.len() <= usize::MAX,
    ensures
        record_scan(fs, opt_in) matches Ok(Some((_, c))) ==> forall|i: int|
            0 <= i < fs.len() ==> (c.contains((0usize, i as usize)) <==> (#[trigger] fs[i]).removed is NotRemoved),
        record_scan(fs, opt_in) matches Ok(Some((_, c))) ==> forall|k: int|
            0 <= k < c.len() ==> (#[trigger] c[k]).0 == 0 && c[k].1 < fs.len(),
    decreases fs.len(),
{
    if fs.len() > 0 {
        let p = fs.drop_last();
        lemma_record_scan_checked(p, opt_in);
        if let Ok(Some((_, c))) = record_scan(fs, opt_in) {
            let c0 = record_scan(p, opt_in)->Ok_0->Some_0.1;
            let n = (fs.len() - 1) as usize;
            let y = (0usize, n);
            assert(!c0.contains(y)) by {
                if c0.contains(y) {
                    let k = choose|k: int| 0 <= k < c0.len() && c0[k] == y;
                    assert(c0[k].1 < p.len());
                }
            }
            if fs.last().removed is NotRemoved {
                assert(c == c0.push(y));
            } else {
                assert(c == c0);
            }
            assert forall|k: int| 0 <= k < c.len() implies (#[trigger] c[k]).0 == 0 && c[k].1 < fs.len() by {
                if k < c0.len() {
                    assert(c[k] == c0[k]);
                }
            }
            assert forall|i: int| 0 <= i < fs.len() implies (c.contains((0usize, i as usize)) <==> (
            #[trigger] fs[i]).removed is NotRemoved) by {
                let x = (0usize, i as usize);
                if c == c0.push(y) {
                    if c0.contains(x) {
                        let k = choose|k: int| 0 <= k < c0.len() && c0[k] == x;
                        assert(c[k] == x);
                    }
                    if x == y {
                        assert(c[c.len() - 1] == x);
                    }
                    if c.contains(x) && x != y {
                        let k = choose|k: int| 0 <= k < c.len() && c[k] == x;
                        assert(k < c0.len());
                        assert(c0[k] == x);
                    }
                }
                if i < fs.len() - 1 {
                    assert(fs[i] == p[i]);
                }
            }
        }
    }
}

/// A record that may be copied as raw bytes has the type of every field
/// checked, except those of removed fields, which the data no longer holds
/// in the versions copied.
pub proof fn lemma_record_packing_checks_present_fields(attrs: Seq<AttrMeta>, fs: Seq<FieldDeclModel>, i: int)
    requires
        0 <= i < fs.len(),
        fs.len() <= usize::MAX,
    ensures
        record_packing(attrs, fs) matches Ok(PackedDecisionModel::FromVersion { checked_fields: c, .. })
            ==> (c.contains((0usize, i as usize)) <==> fs[i].removed is NotRemoved),
{
    lemma_record_scan_checked(fs, fast_opt_in(attrs));
}

/// A record asks for its layout to be free of padding exactly when it asks
/// to be copied as raw bytes; a record with a skipped field is never copied.
pub proof fn lemma_record_packing_opt_in(attrs: Seq<AttrMeta>, fs: Seq<FieldDeclModel>, i: int)
    requires
        0 <= i < fs.len(),
        fs[i].attrs.ignore,
    ensures
        !(record_packing(attrs, fs) is Ok) || record_packing(attrs, fs) == Ok::<PackedDecisionModel, DeriveError>(PackedDecisionModel::Never),
        fast_opt_in(attrs) ==> record_packing(attrs, fs) is Err,
{
    lemma_record_scan_has_skipped(fs, fast_opt_in(attrs), i);
}

/// A scan over fields that include a skipped one never gives a decision to copy.
proof fn lemma_record_scan_has_skipped(fs: Seq<FieldDeclModel>, opt_in: bool, i: int)
    requires
        0 <= i < fs.len(),
        fs[i].attrs.ignore,
    ensures
        !(record_scan(fs, opt_in) matches Ok(Some(_))),
        opt_in ==> record_scan(fs, opt_in) is Err,
    decreases fs.len(),
{
    lemma_opt_in_never_none(fs.drop_last(), opt_in);
    if i < fs.len() - 1 {
        let p = fs.drop_last();
        assert(p[i] == fs[i]);
        lemma_record_scan_has_skipped(p, opt_in, i);
    }
}

/// Where a record asks to be copied as raw bytes, reading its fields never
/// ends in a decision not to copy: anything in the way is refused.
proof fn lemma_opt_in_never_none(fs: Seq<FieldDeclModel>, opt_in: bool)
    ensures
        opt_in ==> !(record_scan(fs, opt_in) matches Ok(None)),
    decreases fs.len(),
{
    if fs.len() > 0 {
        lemma_opt_in_never_none(fs.drop_last(), opt_in);
    }
}

} // verus!
