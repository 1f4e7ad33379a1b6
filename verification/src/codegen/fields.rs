//! What the derive macros decide for the fields of a record or variant: which
//! are written in a data version, how each is read back, which default fills
//! one that the data lacks, and which are shown when a value is looked into.
use vstd::prelude::*;

use crate::attrs::field::{AttrError, AttrsModel, AttrsResult, VersionRange, VersionRangeModel};
use crate::attrs::repr::RemovedType;
use crate::traits::Model;

verus! {

/// A field of a record or variant, as the derive macros read its declaration.
pub struct FieldDecl {
    /// The field's name; a field of a tuple record or variant is named by its
    /// position, in decimal.
    pub name: String,
    /// Whether the field's type is `Removed` or `AbiRemoved`.
    pub removed: RemovedType,
    /// What the field's attributes say.
    pub attrs: AttrsResult,
}

/// The model of a [`FieldDecl`].
pub struct FieldDeclModel {
    pub name: Seq<char>,
    pub removed: RemovedType,
    pub attrs: AttrsModel,
}

impl Model for FieldDecl {
    type M = FieldDeclModel;

    open spec fn model(&self) -> FieldDeclModel {
        FieldDeclModel { name: self.name@, removed: self.removed, attrs: self.attrs.model() }
    }
}

/// Why the derive macros refuse a declaration.
#[derive(Debug, PartialEq, Eq, Structural, Clone, Copy)]
pub enum DeriveError {
    /// The versions of a field end before they start.
    ReversedVersions,
    /// A field of type `Removed` or `AbiRemoved` exists in every version.
    RemovedInEveryVersion,
    /// Two fields name the value when it is looked into.
    TwoIntrospectKeys,
    /// An enum variant is given a last version.
    RemovedVariant,
    /// A type that asks to be copied as raw bytes has a skipped field.
    IgnoredFieldInFastType,
    /// A removed field of an enum variant has no last version.
    RemovedWithoutLastVersion,
    /// An enum that asks to be copied as raw bytes declares no discriminant size.
    FastEnumWithoutRepr,
    /// The representation attributes of an enum are refused.
    BadAttributes(AttrError),
}

/// What fills a field that the data does not hold.
#[derive(Debug, PartialEq, Eq, Structural, Clone, Copy)]
pub enum FieldDefault {
    /// A new `Removed` marker.
    RemovedMarker,
    /// A new `AbiRemoved` marker.
    AbiRemovedMarker,
    /// The value that the field's attributes give.
    Given,
    /// The result of the function that the field's attributes name.
    Function,
    /// The default of the field's type.
    TypeDefault,
    /// Nothing: no readable version lacks the field, so this is never reached.
    Unreachable,
}

/// How a field is read back in one data version.
#[derive(Debug, PartialEq, Eq, Structural, Clone, Copy)]
pub enum FieldAction {
    /// The field's own type is read.
    Read,
    /// The older type at this position of the field's `savefile_versions_as`
    /// list is read and converted.
    ReadOlder(usize),
    /// Nothing is read; the field is filled in.
    Fill(FieldDefault),
}

/// Whether one of `ranges` holds version `v`.
pub open spec fn covered(ranges: Seq<VersionRangeModel>, v: int) -> bool {
    exists|i: int| 0 <= i < ranges.len() && #[trigger] ranges[i].from <= v && v <= ranges[i].to
}

/// Whether some data version lacks the field: it is skipped, or a version
/// below its first one is held by none of its older types.
pub open spec fn needs_default(a: AttrsModel) -> bool {
    a.ignore || exists|v: int| 0 <= v < a.version_from && !#[trigger] covered(a.deserialize_types, v)
}

/// What fills the field `f` where the data lacks it.
pub open spec fn field_default(f: FieldDeclModel) -> FieldDefault {
    match f.removed {
        RemovedType::Removed => FieldDefault::RemovedMarker,
        RemovedType::AbiRemoved => FieldDefault::AbiRemovedMarker,
        RemovedType::NotRemoved => if f.attrs.default_val is Some {
            FieldDefault::Given
        } else if f.attrs.default_fn is Some {
            FieldDefault::Function
        } else if !needs_default(f.attrs) {
            FieldDefault::Unreachable
        } else {
            FieldDefault::TypeDefault
        },
    }
}

/// Whether the attributes put no bound on the versions of the field.
pub open spec fn in_every_version(a: AttrsModel) -> bool {
    a.version_from == 0 && a.version_to == u32::MAX
}

/// Whether a field that is not skipped is of a removed type in every version.
pub open spec fn removed_everywhere(f: FieldDeclModel) -> bool {
    !f.attrs.ignore && in_every_version(f.attrs) && !(f.removed is NotRemoved)
}

/// Why reading the field `f` is refused, if it is.
pub open spec fn read_error(f: FieldDeclModel) -> Option<DeriveError> {
    if f.attrs.version_from > f.attrs.version_to {
        Some(DeriveError::ReversedVersions)
    } else if removed_everywhere(f) {
        Some(DeriveError::RemovedInEveryVersion)
    } else {
        None
    }
}

/// The position of the first of `ranges` that holds version `v`.
pub open spec fn first_older(ranges: Seq<VersionRangeModel>, v: u32) -> Option<int>
    decreases ranges.len(),
{
    if ranges.len() == 0 {
        None
    } else {
        match first_older(ranges.drop_last(), v) {
            Some(i) => Some(i),
            None => if ranges.last().from <= v && v <= ranges.last().to {
                Some(ranges.len() - 1)
            } else {
                None
            },
        }
    }
}

/// How the field `f` is read back in data version `v`: a skipped field is
/// filled in; one without version bounds is read; otherwise the first older
/// type that holds `v` is read, else the field itself where `v` is among its
/// versions, else it is filled in.
pub open spec fn field_action(f: FieldDeclModel, v: u32) -> FieldAction {
    if f.attrs.ignore {
        FieldAction::Fill(field_default(f))
    } else if in_every_version(f.attrs) {
        FieldAction::Read
    } else {
        match first_older(f.attrs.deserialize_types, v) {
            Some(i) => FieldAction::ReadOlder(i as usize),
            None => if f.attrs.version_from <= v && v <= f.attrs.version_to {
                FieldAction::Read
            } else {
                FieldAction::Fill(field_default(f))
            },
        }
    }
}

/// The first refusal among the fields `fs`, taken in order, by `err`.
pub open spec fn first_error(fs: Seq<FieldDeclModel>, err: spec_fn(FieldDeclModel) -> Option<DeriveError>) -> Option<
    DeriveError,
>
    decreases fs.len(),
{
    if fs.len() == 0 {
        None
    } else {
        match first_error(fs.drop_last(), err) {
            Some(e) => Some(e),
            None => err(fs.last()),
        }
    }
}

/// Why writing the field `f` is refused, if it is.
pub open spec fn write_error(f: FieldDeclModel) -> Option<DeriveError> {
    if removed_everywhere(f) {
        Some(DeriveError::RemovedInEveryVersion)
    } else {
        None
    }
}

/// Whether the field `f` is written in data version `v`.
pub open spec fn written(f: FieldDeclModel, v: u32) -> bool {
    !f.attrs.ignore && f.attrs.version_from <= v && v <= f.attrs.version_to
}

/// Whether one of `ranges` holds version `v`.
pub fn covered_exec(ranges: &Vec<VersionRange>, v: u32) -> (r: bool)
    ensures
        r == covered(ranges.model(), v as int),
{
    let ghost rs = ranges.model();
    let mut i: usize = 0;
    while i < ranges.len()
        invariant
            i <= ranges.len(),
            rs == ranges.model(),
            forall|j: int| 0 <= j < i ==> !(#[trigger] rs[j].from <= v && v <= rs[j].to),
        decreases ranges.len() - i,
    {
        assert(rs[i as int] == ranges@[i as int].model());
        if ranges[i].from <= v && v <= ranges[i].to {
            assert(rs[i as int].from <= v && v <= rs[i as int].to);
            return true;
        }
        i = i + 1;
    }
    false
}

/// Whether some data version lacks the field whose attributes are `a`.
pub fn field_needs_default(a: &AttrsResult) -> (r: bool)
    ensures
        r == needs_default(a.model()),
{
    if a.ignore {
        return true;
    }
    let mut ver: u32 = 0;
    while ver < a.version_from
        invariant
            ver <= a.version_from,
            !a.ignore,
            forall|w: int| 0 <= w < ver ==> #[trigger] covered(a.model().deserialize_types, w),
        decreases a.version_from - ver,
    {
        if !covered_exec(&a.deserialize_types, ver) {
            assert(!covered(a.model().deserialize_types, ver as int));
            return true;
        }
        ver = ver + 1;
    }
    false
}

/// What fills the field `f` where the data lacks it.
pub fn default_of(f: &FieldDecl) -> (r: FieldDefault)
    ensures
        r == field_default(f.model()),
{
    match f.removed {
        RemovedType::Removed => FieldDefault::RemovedMarker,
        RemovedType::AbiRemoved => FieldDefault::AbiRemovedMarker,
        RemovedType::NotRemoved => if f.attrs.default_val.is_some() {
            FieldDefault::Given
        } else if f.attrs.default_fn.is_some() {
            FieldDefault::Function
        } else if !field_needs_default(&f.attrs) {
            FieldDefault::Unreachable
        } else {
            FieldDefault::TypeDefault
        },
    }
}

/// The position of the first of `ranges` that holds version `v`.
pub fn find_older(ranges: &Vec<VersionRange>, v: u32) -> (r: Option<usize>)
    ensures
        match first_older(ranges.model(), v) {
            Some(i) => r == Some(i as usize),
            None => r is None,
        },
{
    let ghost rs = ranges.model();
    let mut i: usize = 0;
    while i < ranges.len()
        invariant
            i <= ranges.len(),
            rs == ranges.model(),
            first_older(rs.take(i as int), v) is None,
        decreases ranges.len() - i,
    {
        assert(rs.take(i + 1).drop_last() =~= rs.take(i as int));
        assert(rs[i as int] == ranges@[i as int].model());
        if ranges[i].from <= v && v <= ranges[i].to {
            proof {
                lemma_first_older_prefix(rs, (i + 1) as int, v);
            }
            return Some(i);
        }
        i = i + 1;
    }
    assert(rs.take(i as int) =~= rs);
    None
}

/// A match within a prefix of `rs` is the first match of `rs`.
proof fn lemma_first_older_prefix(rs: Seq<VersionRangeModel>, n: int, v: u32)
    requires
        0 <= n <= rs.len(),
        first_older(rs.take(n), v) is Some,
    ensures
        first_older(rs, v) == first_older(rs.take(n), v),
    decreases rs.len() - n,
{
    if n < rs.len() {
        assert(rs.take(n + 1).drop_last() =~= rs.take(n));
        lemma_first_older_prefix(rs, n + 1, v);
    } else {
        assert(rs.take(n) =~= rs);
    }
}

/// How the field `f` is read back in data version `v`.
pub fn action_of(f: &FieldDecl, v: u32) -> (r: FieldAction)
    ensures
        r == field_action(f.model(), v),
{
    if f.attrs.ignore {
        FieldAction::Fill(default_of(f))
    } else if f.attrs.version_from == 0 && f.attrs.version_to == u32::MAX {
        FieldAction::Read
    } else {
        match find_older(&f.attrs.deserialize_types, v) {
            Some(i) => FieldAction::ReadOlder(i),
            None => if f.attrs.version_from <= v && v <= f.attrs.version_to {
                FieldAction::Read
            } else {
                FieldAction::Fill(default_of(f))
            },
        }
    }
}

/// Why reading the field `f` is refused, if it is.
pub fn read_error_of(f: &FieldDecl) -> (r: Option<DeriveError>)
    ensures
        r == read_error(f.model()),
{
    if f.attrs.version_from > f.attrs.version_to {
        Some(DeriveError::ReversedVersions)
    } else if !f.attrs.ignore && f.attrs.version_from == 0 && f.attrs.version_to == u32::MAX
        && f.removed.is_removed() {
        Some(DeriveError::RemovedInEveryVersion)
    } else {
        None
    }
}

/// How each field of a record or variant is read back in data version
/// `version`, as the derived `Deserialize` does it; refused with the first
/// refusal among the fields.
pub fn field_actions(fields: &Vec<FieldDecl>, version: u32) -> (r: Result<Vec<FieldAction>, DeriveError>)
    ensures
        match first_error(fields.model(), |f: FieldDeclModel| read_error(f)) {
            Some(e) => r == Err::<Vec<FieldAction>, DeriveError>(e),
            None => r matches Ok(acts) && acts@ == Seq::new(
                fields.len() as nat,
                |i: int| field_action(fields.model()[i], version),
            ),
        },
{
    let ghost fs = fields.model();
    let ghost err = |f: FieldDeclModel| read_error(f);
    let mut acts: Vec<FieldAction> = Vec::new();
    let mut i: usize = 0;
    while i < fields.len()
        invariant
            i <= fields.len(),
            fs == fields.model(),
            err == (|f: FieldDeclModel| read_error(f)),
            first_error(fs.take(i as int), err) is None,
            acts@ == Seq::new(i as nat, |j: int| field_action(fs[j], version)),
        decreases fields.len() - i,
    {
        assert(fs.take(i + 1).drop_last() =~= fs.take(i as int));
        assert(fs[i as int] == fields@[i as int].model());
        match read_error_of(&fields[i]) {
            Some(e) => {
                proof {
                    lemma_first_error_prefix(fs, (i + 1) as int, err);
                }
                return Err(e);
            },
            None => {},
        }
        let a = action_of(&fields[i], version);
        acts.push(a);
        assert(acts@ =~= Seq::new((i + 1) as nat, |j: int| field_action(fs[j], version)));
        i = i + 1;
    }
    assert(fs.take(i as int) =~= fs);
    Ok(acts)
}

/// A refusal within a prefix of `fs` is the first refusal of `fs`.
pub proof fn lemma_first_error_prefix(
    fs: Seq<FieldDeclModel>,
    n: int,
    err: spec_fn(FieldDeclModel) -> Option<DeriveError>,
)
    requires
        0 <= n <= fs.len(),
        first_error(fs.take(n), err) is Some,
    ensures
        first_error(fs, err) == first_error(fs.take(n), err),
    decreases fs.len() - n,
{
    if n < fs.len() {
        assert(fs.take(n + 1).drop_last() =~= fs.take(n));
        lemma_first_error_prefix(fs, n + 1, err);
    } else {
        assert(fs.take(n) =~= fs);
    }
}

/// Which fields of a record or variant are written in data version
/// `version`, as the derived `Serialize` does it; refused with the first
/// refusal among the fields.
pub fn fields_written(fields: &Vec<FieldDecl>, version: u32) -> (r: Result<Vec<bool>, DeriveError>)
    ensures
        match first_error(fields.model(), |f: FieldDeclModel| write_error(f)) {
            Some(e) => r == Err::<Vec<bool>, DeriveError>(e),
            None => r matches Ok(w) && w@ == Seq::new(
                fields.len() as nat,
                |i: int| written(fields.model()[i], version),
            ),
        },
{
    let ghost fs = fields.model();
    let ghost err = |f: FieldDeclModel| write_error(f);
    let mut out: Vec<bool> = Vec::new();
    let mut i: usize = 0;
    while i < fields.len()
        invariant
            i <= fields.len(),
            fs == fields.model(),
            err == (|f: FieldDeclModel| write_error(f)),
            first_error(fs.take(i as int), err) is None,
            out@ == Seq::new(i as nat, |j: int| written(fs[j], version)),
        decreases fields.len() - i,
    {
        assert(fs.take(i + 1).drop_last() =~= fs.take(i as int));
        assert(fs[i as int] == fields@[i as int].model());
        let f = &fields[i];
        if !f.attrs.ignore && f.attrs.version_from == 0 && f.attrs.version_to == u32::MAX
            && f.removed.is_removed() {
            proof {
                lemma_first_error_prefix(fs, (i + 1) as int, err);
            }
            return Err(DeriveError::RemovedInEveryVersion);
        }
        out.push(!f.attrs.ignore && f.attrs.version_from <= version && version <= f.attrs.version_to);
        assert(out@ =~= Seq::new((i + 1) as nat, |j: int| written(fs[j], version)));
        i = i + 1;
    }
    assert(fs.take(i as int) =~= fs);
    Ok(out)
}

/// Which field names the value when it is looked into, after reading the
/// fields `fs` in order: a field so marked is refused when one already names
/// it, and is passed over when it is hidden.
pub open spec fn introspect_key(fs: Seq<FieldDeclModel>) -> Result<Option<int>, DeriveError>
    decreases fs.len(),
{
    if fs.len() == 0 {
        Ok(None)
    } else {
        match introspect_key(fs.drop_last()) {
            Err(e) => Err(e),
            Ok(k) => {
                let f = fs.last();
                if f.attrs.introspect_key && k is Some {
                    Err(DeriveError::TwoIntrospectKeys)
                } else if f.attrs.introspect_ignore {
                    Ok(k)
                } else if f.attrs.introspect_key {
                    Ok(Some(fs.len() - 1))
                } else {
                    Ok(k)
                }
            },
        }
    }
}

/// The positions of the fields of `fs` that are shown when a value is looked
/// into: those not hidden, in order.
pub open spec fn visible_fields(fs: Seq<FieldDeclModel>) -> Seq<usize>
    decreases fs.len(),
{
    if fs.len() == 0 {
        Seq::empty()
    } else {
        visible_fields(fs.drop_last()) + if fs.last().attrs.introspect_ignore {
            Seq::<usize>::empty()
        } else {
            seq![(fs.len() - 1) as usize]
        }
    }
}

/// What the derived `Introspect` shows of a record or variant.
pub struct IntrospectPlan {
    /// The positions of the fields shown, in order.
    pub fields: Vec<usize>,
    /// The position of the field that names the value, if one does.
    pub key: Option<usize>,
}

/// The fields that the derived `Introspect` shows of a record or variant, and
/// the one that names the value; refused where two fields name it.
pub fn introspect_fields(fields: &Vec<FieldDecl>) -> (r: Result<IntrospectPlan, DeriveError>)
    ensures
        match introspect_key(fields.model()) {
            Err(e) => r == Err::<IntrospectPlan, DeriveError>(e),
            Ok(k) => r matches Ok(p) && p.fields@ == visible_fields(fields.model()) && p.key == match k {
                Some(i) => Some(i as usize),
                None => None::<usize>,
            },
        },
{
    let ghost fs = fields.model();
    let mut shown: Vec<usize> = Vec::new();
    let mut key: Option<usize> = None;
    let mut i: usize = 0;
    while i < fields.len()
        invariant
            i <= fields.len(),
            fs == fields.model(),
            introspect_key(fs.take(i as int)) matches Ok(k) && key == match k {
                Some(j) => Some(j as usize),
                None => None::<usize>,
            } && (k matches Some(j) ==> 0 <= j < i),
            shown@ == visible_fields(fs.take(i as int)),
        decreases fields.len() - i,
    {
        assert(fs.take(i + 1).drop_last() =~= fs.take(i as int));
        assert(fs[i as int] == fields@[i as int].model());
        assert(fs.take(i + 1).last() == fs[i as int]);
        let a = &fields[i].attrs;
        if a.introspect_key && key.is_some() {
            proof {
                lemma_introspect_error_prefix(fs, (i + 1) as int);
            }
            return Err(DeriveError::TwoIntrospectKeys);
        }
        if !a.introspect_ignore {
            if a.introspect_key {
                key = Some(i);
            }
            shown.push(i);
        }
        assert(shown@ =~= visible_fields(fs.take(i + 1)));
        i = i + 1;
    }
    assert(fs.take(i as int) =~= fs);
    Ok(IntrospectPlan { fields: shown, key })
}

/// A refusal after a prefix of `fs` is the outcome for all of `fs`.
pub proof fn lemma_introspect_error_prefix(fs: Seq<FieldDeclModel>, n: int)
    requires
        0 <= n <= fs.len(),
        introspect_key(fs.take(n)) is Err,
    ensures
        introspect_key(fs) == introspect_key(fs.take(n)),
    decreases fs.len() - n,
{
    if n < fs.len() {
        assert(fs.take(n + 1).drop_last() =~= fs.take(n));
        lemma_introspect_error_prefix(fs, n + 1);
    } else {
        assert(fs.take(n) =~= fs);
    }
}

/// A skipped field is never read back: in every data version, whatever its
/// version bounds and older types, it is filled in.
pub proof fn lemma_skipped_field_never_read(f: FieldDeclModel, v: u32)
    requires
        f.attrs.ignore,
    ensures
        field_action(f, v) is Fill,
        field_action(f, v) != FieldAction::Read,
        !(field_action(f, v) is ReadOlder),
{
}

/// Of the plan for a record's fields, every skipped field is filled in, in
/// every data version.
pub proof fn lemma_field_actions_skip(fs: Seq<FieldDeclModel>, v: u32, i: int)
    requires
        0 <= i < fs.len(),
        fs[i].attrs.ignore,
    ensures
        Seq::new(fs.len() as nat, |j: int| field_action(fs[j], v))[i] is Fill,
{
    lemma_skipped_field_never_read(fs[i], v);
}

/// A skipped field is never written, in any data version.
pub proof fn lemma_skipped_field_never_written(f: FieldDeclModel, v: u32)
    requires
        f.attrs.ignore,
    ensures
        !written(f, v),
{
}

/// The first older type that holds a version holds it, and none before it
/// does; there is none exactly when no older type holds the version.
pub proof fn lemma_first_older_is_first(rs: Seq<VersionRangeModel>, v: u32)
    ensures
        first_older(rs, v) matches Some(i) ==> 0 <= i < rs.len() && rs[i].from <= v && v <= rs[i].to
            && forall|j: int| 0 <= j < i ==> !(#[trigger] rs[j].from <= v && v <= rs[j].to),
        first_older(rs, v) is None <==> !covered(rs, v as int),
    decreases rs.len(),
{
    if rs.len() > 0 {
        let p = rs.drop_last();
        lemma_first_older_is_first(p, v);
        assert forall|j: int| 0 <= j < p.len() implies #[trigger] p[j] == rs[j] by {}
        match first_older(p, v) {
            Some(i) => {
                assert forall|j: int| 0 <= j < i implies !(#[trigger] rs[j].from <= v && v <= rs[j].to) by {
                    assert(p[j] == rs[j]);
                }
                assert(p[i] == rs[i]);
                assert(covered(rs, v as int)) by {
                    assert(rs[i].from <= v && v <= rs[i].to);
                }
            },
            None => {
                assert forall|j: int| 0 <= j < p.len() implies !(#[trigger] rs[j].from <= v && v <= rs[j].to) by {
                    assert(p[j] == rs[j]);
                    if rs[j].from <= v && v <= rs[j].to {
                        assert(p[j].from <= v && v <= p[j].to);
                        assert(covered(p, v as int));
                    }
                }
                if rs.last().from <= v && v <= rs.last().to {
                    assert(covered(rs, v as int)) by {
                        assert(rs[rs.len() - 1].from <= v && v <= rs[rs.len() - 1].to);
                    }
                } else {
                    assert forall|j: int| 0 <= j < rs.len() implies !(#[trigger] rs[j].from <= v && v
                        <= rs[j].to) by {
                        if j < p.len() {
                            assert(p[j] == rs[j]);
                        }
                    }
                }
            },
        }
    }
}

/// How a field that is not skipped is read back in data version `v`: a
/// field without version bounds is read; otherwise, where an older type
/// holds `v`, the first such type is read; where none does, the field itself
/// is read exactly when `v` is among its versions, and filled in otherwise.
pub proof fn lemma_field_action_by_version(f: FieldDeclModel, v: u32)
    requires
        !f.attrs.ignore,
        f.attrs.deserialize_types.len() <= usize::MAX,
    ensures
        in_every_version(f.attrs) ==> field_action(f, v) == FieldAction::Read,
        !in_every_version(f.attrs) && !covered(f.attrs.deserialize_types, v as int) ==> (field_action(f, v)
            == FieldAction::Read <==> f.attrs.version_from <= v && v <= f.attrs.version_to),
        !in_every_version(f.attrs) && !covered(f.attrs.deserialize_types, v as int) ==> (field_action(f, v)
            is Fill <==> !(f.attrs.version_from <= v && v <= f.attrs.version_to)),
        !in_every_version(f.attrs) && covered(f.attrs.deserialize_types, v as int) ==> (field_action(f, v) matches FieldAction::ReadOlder(i)
            && 0 <= i < f.attrs.deserialize_types.len() && f.attrs.deserialize_types[i as int].from <= v
            && v <= f.attrs.deserialize_types[i as int].to && forall|j: int|
            0 <= j < i ==> !(#[trigger] f.attrs.deserialize_types[j].from <= v && v
                <= f.attrs.deserialize_types[j].to)),
{
    lemma_first_older_is_first(f.attrs.deserialize_types, v);
}

/// A field is filled in with a default it can never need only where every
/// version below its first one is held by one of its older types; a field
/// some version lacks, with no default of its own, gets its type's default.
pub proof fn lemma_unreachable_default(f: FieldDeclModel)
    ensures
        field_default(f) == FieldDefault::Unreachable ==> !f.attrs.ignore && forall|v: int|
            0 <= v < f.attrs.version_from ==> #[trigger] covered(f.attrs.deserialize_types, v),
        f.removed is NotRemoved && f.attrs.default_val is None && f.attrs.default_fn is None && needs_default(f.attrs)
            ==> field_default(f) == FieldDefault::TypeDefault,
{
}

/// What the derived `Serialize` writes, the derived `Deserialize` reads back
/// as the field itself: where every older type of a field lies below its
/// first version (as the attribute reader demands), the field is written in
/// data version `v` exactly when it is read back as itself in `v`.
pub proof fn lemma_written_exactly_when_read(f: FieldDeclModel, v: u32)
    requires
        forall|k: int|
            0 <= k < f.attrs.deserialize_types.len() ==> #[trigger] f.attrs.deserialize_types[k].to
                < f.attrs.version_from,
    ensures
        written(f, v) <==> field_action(f, v) == FieldAction::Read,
{
    lemma_first_older_is_first(f.attrs.deserialize_types, v);
}

/// The positions listed by [`visible_fields`] are those of the fields not
/// hidden, in increasing order; a field that names the value is one of them.
pub proof fn lemma_introspect_shows_unhidden(fs: Seq<FieldDeclModel>)
    requires
        fs.len() <= usize::MAX,
    ensures
        forall|i: int| 0 <= i < fs.len() ==> (visible_fields(fs).contains(i as usize) <==> !(#[trigger] fs[i]).attrs.introspect_ignore),
        forall|a: int, b: int| 0 <= a < b < visible_fields(fs).len() ==> #[trigger] visible_fields(fs)[a] < #[trigger] visible_fields(fs)[b],
        forall|k: int| 0 <= k < visible_fields(fs).len() ==> #[trigger] visible_fields(fs)[k] < fs.len(),
        introspect_key(fs) matches Ok(Some(k)) ==> 0 <= k < fs.len() && fs[k].attrs.introspect_key
            && !fs[k].attrs.introspect_ignore,
    decreases fs.len(),
{
    if fs.len() > 0 {
        let p = fs.drop_last();
        lemma_introspect_shows_unhidden(p);
        let vp = visible_fields(p);
        let vs = visible_fields(fs);
        let n = (fs.len() - 1) as usize;
        assert forall|i: int| 0 <= i < p.len() implies #[trigger] p[i] == fs[i] by {}
        if fs.last().attrs.introspect_ignore {
            assert(vs =~= vp);
        } else {
            assert(vs =~= vp.push(n));
        }
        assert forall|i: int| 0 <= i < fs.len() implies (vs.contains(i as usize) <==> !(#[trigger] fs[i]).attrs.introspect_ignore) by {
            let x = i as usize;
            if i < fs.len() - 1 {
                assert(p[i] == fs[i]);
                assert(vp.contains(x) <==> !p[i].attrs.introspect_ignore);
            }
            if vp.contains(x) {
                let k = choose|k: int| 0 <= k < vp.len() && vp[k] == x;
                assert(vs[k] == x);
            }
            if vs.contains(x) && !vp.contains(x) {
                let k = choose|k: int| 0 <= k < vs.len() && vs[k] == x;
                if k < vp.len() {
                    assert(vp[k] == x);
                } else {
                    assert(vs[k] == n);
                }
            }
            if i == fs.len() - 1 && !fs[i].attrs.introspect_ignore {
                assert(vs[vs.len() - 1] == x);
            }
            if i == fs.len() - 1 && vp.contains(x) {
                let k = choose|k: int| 0 <= k < vp.len() && vp[k] == x;
                assert(vp[k] < p.len());
            }
        }
        assert forall|a: int, b: int| 0 <= a < b < vs.len() implies #[trigger] vs[a] < #[trigger] vs[b] by {
            if b < vp.len() {
                assert(vs[a] == vp[a] && vs[b] == vp[b]);
            } else {
                assert(vs[a] == vp[a]);
                assert(vp[a] < p.len());
            }
        }
        assert forall|k: int| 0 <= k < vs.len() implies #[trigger] vs[k] < fs.len() by {
            if k < vp.len() {
                assert(vs[k] == vp[k]);
            }
        }
    }
}

} // verus!
