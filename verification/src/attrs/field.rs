//! Reading the attributes of a field: the versions it exists in, the older
//! types it was stored as, its default, and whether it is skipped.
use vstd::prelude::*;

use crate::attrs::text::{
    blank_between, colon_parts, find_char_from, find_from, find_range_dots, is_blank, parse_unsigned,
    parse_unsigned_between, same_text, split_range,
};
use crate::attrs::{AttrLit, AttrMeta};
use crate::traits::Model;

verus! {

/// A range of data versions in which a field was stored as another type.
#[derive(Debug)]
pub struct VersionRange {
    /// The first version of the range.
    pub from: u32,
    /// The last version of the range.
    pub to: u32,
    /// The function that turns the old type into the field's type; empty for `From`.
    pub convert_fun: String,
    /// The type the field was stored as.
    pub serialized_type: String,
}

/// The model of a [`VersionRange`].
pub struct VersionRangeModel {
    pub from: u32,
    pub to: u32,
    pub convert_fun: Seq<char>,
    pub serialized_type: Seq<char>,
}

impl Model for VersionRange {
    type M = VersionRangeModel;

    open spec fn model(&self) -> VersionRangeModel {
        VersionRangeModel {
            from: self.from,
            to: self.to,
            convert_fun: self.convert_fun@,
            serialized_type: self.serialized_type@,
        }
    }
}

/// The default of a field that older data lacks.
#[derive(Debug)]
pub enum DefaultValue {
    /// Text to be parsed into the field's type.
    Parsed(String),
    /// A literal of the field's type, by its source text.
    Literal(String),
}

/// The model of a [`DefaultValue`].
pub enum DefaultValueModel {
    Parsed(Seq<char>),
    Literal(Seq<char>),
}

impl Model for DefaultValue {
    type M = DefaultValueModel;

    open spec fn model(&self) -> DefaultValueModel {
        match self {
            DefaultValue::Parsed(s) => DefaultValueModel::Parsed(s@),
            DefaultValue::Literal(s) => DefaultValueModel::Literal(s@),
        }
    }
}

/// Why the attributes of a field are refused.
#[derive(Debug, PartialEq, Eq, Structural, Clone, Copy)]
pub enum AttrError {
    /// An attribute is not a meta item.
    Unparsable,
    /// The value of `savefile_default_fn` is not a string.
    DefaultFnNotAString,
    /// The value of `savefile_versions_as` is not a string.
    VersionsAsNotAString,
    /// `savefile_versions_as` lacks the type after the range.
    VersionsAsWithoutType,
    /// The range of `savefile_versions_as` is not `a..b`.
    VersionsAsNotARange,
    /// The first version of `savefile_versions_as` is not a number.
    VersionsAsBadFrom,
    /// The last version of `savefile_versions_as` is not a number.
    VersionsAsBadTo,
    /// The range of `savefile_versions_as` ends before it starts.
    VersionsAsReversed,
    /// Two `savefile_versions_as` ranges overlap.
    VersionsAsOverlap,
    /// The value of `savefile_versions` is not a string.
    VersionsNotAString,
    /// The range of `savefile_versions` is not `a..b`.
    VersionsNotARange,
    /// A field has two `savefile_versions` attributes.
    DuplicateVersions,
    /// The first version of `savefile_versions` is not a number.
    VersionsBadFrom,
    /// The last version of `savefile_versions` is not a number.
    VersionsBadTo,
    /// The range of `savefile_versions` ends before it starts.
    VersionsReversed,
    /// A `savefile_versions_as` range overlaps the `savefile_versions` range.
    VersionsAsOverlapsVersions,
    /// A `savefile_versions_as` range does not lie below the `savefile_versions` range.
    VersionsAsNotBelowVersions,
    /// An enum is declared with a 64-bit representation.
    EnumTooWide,
    /// An enum is declared with a representation the library does not know.
    UnsupportedRepr,
    /// An enum has more variants than a 32-bit discriminant can tell apart.
    TooManyVariants,
}

/// What can be wrong with the text of a version range.
pub enum RangeProblem {
    /// It does not split into two parts at one `..`.
    NotARange,
    /// The first version is neither blank nor a number.
    BadFrom,
    /// The last version is neither blank nor a number.
    BadTo,
    /// The last version is below the first.
    Reversed,
}

/// The first version of a range: blank means from the start.
pub open spec fn lower_bound(a: Seq<char>) -> Option<u32> {
    if is_blank(a) {
        Some(0)
    } else {
        match parse_unsigned(a, u32::MAX as nat) {
            Some(v) => Some(v as u32),
            None => None,
        }
    }
}

/// The last version of a range: blank means with no end.
pub open spec fn upper_bound(b: Seq<char>) -> Option<u32> {
    if is_blank(b) {
        Some(u32::MAX)
    } else {
        match parse_unsigned(b, u32::MAX as nat) {
            Some(v) => Some(v as u32),
            None => None,
        }
    }
}

/// The first and last version that the text `a..b` names.
pub open spec fn range_bounds(text: Seq<char>) -> Result<(u32, u32), RangeProblem> {
    match split_range(text) {
        None => Err(RangeProblem::NotARange),
        Some((a, b)) => match lower_bound(a) {
            None => Err(RangeProblem::BadFrom),
            Some(f) => match upper_bound(b) {
                None => Err(RangeProblem::BadTo),
                Some(t) => if t < f {
                    Err(RangeProblem::Reversed)
                } else {
                    Ok((f, t))
                },
            },
        },
    }
}

/// Whether the range `a` shares a version with the range from `from` to `to`.
pub open spec fn overlaps(a: VersionRangeModel, from: u32, to: u32) -> bool {
    !(a.to < from || a.from > to)
}

/// Whether one of `rs` shares a version with the range from `from` to `to`.
pub open spec fn any_overlaps(rs: Seq<VersionRangeModel>, from: u32, to: u32) -> bool {
    exists|i: int| 0 <= i < rs.len() && overlaps(#[trigger] rs[i], from, to)
}

/// What the attributes of a field have said so far.
pub struct ReadingModel {
    pub from: Option<u32>,
    pub to: Option<u32>,
    pub default_fn: Option<Seq<char>>,
    pub default_val: Option<DefaultValueModel>,
    pub ignore: bool,
    pub introspect_ignore: bool,
    pub introspect_key: bool,
    pub ranges: Seq<VersionRangeModel>,
}

/// Before any attribute is read.
pub open spec fn initial_reading() -> ReadingModel {
    ReadingModel {
        from: None,
        to: None,
        default_fn: None,
        default_val: None,
        ignore: false,
        introspect_ignore: false,
        introspect_key: false,
        ranges: Seq::empty(),
    }
}

/// Reads `savefile_versions_as = "a..b:convert:Type"` (or `"a..b:Type"`).
pub open spec fn read_versions_as(st: ReadingModel, text: Seq<char>) -> Result<ReadingModel, AttrError> {
    let parts = colon_parts(text);
    if parts.len() != 2 && parts.len() != 3 {
        Err(AttrError::VersionsAsWithoutType)
    } else {
        let convert_fun = if parts.len() == 2 {
            Seq::empty()
        } else {
            parts[1]
        };
        let ty = parts[parts.len() - 1];
        match range_bounds(parts[0]) {
            Err(RangeProblem::NotARange) => Err(AttrError::VersionsAsNotARange),
            Err(RangeProblem::BadFrom) => Err(AttrError::VersionsAsBadFrom),
            Err(RangeProblem::BadTo) => Err(AttrError::VersionsAsBadTo),
            Err(RangeProblem::Reversed) => Err(AttrError::VersionsAsReversed),
            Ok((f, t)) => if any_overlaps(st.ranges, f, t) {
                Err(AttrError::VersionsAsOverlap)
            } else {
                Ok(
                    ReadingModel {
                        ranges: st.ranges.push(
                            VersionRangeModel { from: f, to: t, convert_fun, serialized_type: ty },
                        ),
                        ..st
                    },
                )
            },
        }
    }
}

/// Reads `savefile_versions = "a..b"`; a field may have only one.
pub open spec fn read_versions(st: ReadingModel, text: Seq<char>) -> Result<ReadingModel, AttrError> {
    let rb = range_bounds(text);
    if rb is Err && rb->Err_0 is NotARange {
        Err(AttrError::VersionsNotARange)
    } else if st.from is Some || st.to is Some {
        Err(AttrError::DuplicateVersions)
    } else {
        match rb {
            Err(RangeProblem::BadFrom) => Err(AttrError::VersionsBadFrom),
            Err(RangeProblem::BadTo) => Err(AttrError::VersionsBadTo),
            Err(_) => Err(AttrError::VersionsReversed),
            Ok((f, t)) => Ok(ReadingModel { from: Some(f), to: Some(t), ..st }),
        }
    }
}

/// Reads an attribute `path = lit`.
pub open spec fn read_name_value(st: ReadingModel, path: Seq<char>, lit: AttrLit) -> Result<
    ReadingModel,
    AttrError,
> {
    if path == "savefile_default_val"@ {
        Ok(
            ReadingModel {
                default_val: Some(
                    match lit {
                        AttrLit::Str(s) => DefaultValueModel::Parsed(s@),
                        AttrLit::Other(t) => DefaultValueModel::Literal(t@),
                    },
                ),
                ..st
            },
        )
    } else if path == "savefile_default_fn"@ {
        match lit {
            AttrLit::Str(s) => Ok(ReadingModel { default_fn: Some(s@), ..st }),
            AttrLit::Other(_) => Err(AttrError::DefaultFnNotAString),
        }
    } else if path == "savefile_ignore"@ {
        Ok(ReadingModel { ignore: true, ..st })
    } else if path == "savefile_introspect_ignore"@ {
        Ok(ReadingModel { introspect_ignore: true, ..st })
    } else if path == "savefile_versions_as"@ {
        match lit {
            AttrLit::Str(s) => read_versions_as(st, s@),
            AttrLit::Other(_) => Err(AttrError::VersionsAsNotAString),
        }
    } else if path == "savefile_versions"@ {
        match lit {
            AttrLit::Str(s) => read_versions(st, s@),
            AttrLit::Other(_) => Err(AttrError::VersionsNotAString),
        }
    } else {
        Ok(st)
    }
}

/// Reads one attribute of a field.
pub open spec fn read_attr(st: ReadingModel, meta: AttrMeta) -> Result<ReadingModel, AttrError> {
    match meta {
        AttrMeta::Path(p) => Ok(
            ReadingModel {
                ignore: st.ignore || p@ == "savefile_ignore"@,
                introspect_key: st.introspect_key || p@ == "savefile_introspect_key"@,
                introspect_ignore: st.introspect_ignore || p@ == "savefile_introspect_ignore"@,
                ..st
            },
        ),
        AttrMeta::NameValue { path, lit } => read_name_value(st, path@, lit),
        AttrMeta::List { .. } => Ok(st),
        AttrMeta::Unparsable => Err(AttrError::Unparsable),
    }
}

/// Reads the attributes of a field in order; the first refusal wins.
pub open spec fn read_attrs(attrs: Seq<AttrMeta>) -> Result<ReadingModel, AttrError>
    decreases attrs.len(),
{
    if attrs.len() == 0 {
        Ok(initial_reading())
    } else {
        match read_attrs(attrs.drop_last()) {
            Err(e) => Err(e),
            Ok(st) => read_attr(st, attrs.last()),
        }
    }
}

/// The model of an optional string.
pub open spec fn opt_text(o: Option<String>) -> Option<Seq<char>> {
    match o {
        Some(s) => Some(s@),
        None => None,
    }
}

/// The model of an optional default.
pub open spec fn opt_default(o: Option<DefaultValue>) -> Option<DefaultValueModel> {
    match o {
        Some(d) => Some(d.model()),
        None => None,
    }
}

/// What the attributes of a field have said so far.
struct Reading {
    from: Option<u32>,
    to: Option<u32>,
    default_fn: Option<String>,
    default_val: Option<DefaultValue>,
    ignore: bool,
    introspect_ignore: bool,
    introspect_key: bool,
    ranges: Vec<VersionRange>,
}

impl Model for Reading {
    type M = ReadingModel;

    closed spec fn model(&self) -> ReadingModel {
        ReadingModel {
            from: self.from,
            to: self.to,
            default_fn: opt_text(self.default_fn),
            default_val: opt_default(self.default_val),
            ignore: self.ignore,
            introspect_ignore: self.introspect_ignore,
            introspect_key: self.introspect_key,
            ranges: self.ranges.model(),
        }
    }
}

/// The first and last version that the text `a..b` names.
pub fn range_bounds_of(text: &str) -> (r: Result<(u32, u32), RangeProblem>)
    ensures
        r == range_bounds(text@),
{
    let n = text.unicode_len();
    let ghost t = text@;
    assert(t.subrange(0, n as int) =~= t);
    match find_range_dots(text, 0, n) {
        None => Err(RangeProblem::NotARange),
        Some(i) => {
            assert(t.take(i as int) =~= t.subrange(0, i as int));
            assert(t.skip(i + 2) =~= t.subrange(i + 2, n as int));
            let from: u32 = if blank_between(text, 0, i) {
                0
            } else {
                match parse_unsigned_between(text, 0, i, 0xFFFF_FFFFu64) {
                    Some(v) => v as u32,
                    None => {
                        return Err(RangeProblem::BadFrom);
                    },
                }
            };
            let to: u32 = if blank_between(text, i + 2, n) {
                0xFFFF_FFFFu32
            } else {
                match parse_unsigned_between(text, i + 2, n, 0xFFFF_FFFFu64) {
                    Some(v) => v as u32,
                    None => {
                        return Err(RangeProblem::BadTo);
                    },
                }
            };
            if to < from {
                Err(RangeProblem::Reversed)
            } else {
                Ok((from, to))
            }
        },
    }
}

/// Whether one of `rs` shares a version with the range from `from` to `to`.
fn any_overlap_of(rs: &Vec<VersionRange>, from: u32, to: u32) -> (r: bool)
    ensures
        r == any_overlaps(rs.model(), from, to),
{
    let ghost m = rs.model();
    let mut i: usize = 0;
    while i < rs.len()
        invariant
            i <= rs.len(),
            m == rs.model(),
            forall|j: int| 0 <= j < i ==> !overlaps(#[trigger] m[j], from, to),
        decreases rs.len() - i,
    {
        assert(m[i as int] == rs[i as int].model());
        if !(rs[i].to < from || rs[i].from > to) {
            assert(overlaps(m[i as int], from, to));
            return true;
        }
        i = i + 1;
    }
    false
}

/// Copies characters `lo` to `hi` of `s`.
fn text_between(s: &str, lo: usize, hi: usize) -> (r: String)
    requires
        lo <= hi <= s@.len(),
    ensures
        r@ == s@.subrange(lo as int, hi as int),
{
    String::from_str(s.substring_char(lo, hi))
}

/// Reads `savefile_versions_as = "a..b:convert:Type"` (or `"a..b:Type"`).
#[verifier::spinoff_prover]
fn read_versions_as_of(st: Reading, text: &str) -> (r: Result<Reading, AttrError>)
    ensures
        match read_versions_as(st.model(), text@) {
            Ok(m) => r matches Ok(s) && s.model() == m,
            Err(e) => r matches Err(x) && x == e,
        },
{
    let ghost t = text@;
    let n = text.unicode_len();
    assert(t.subrange(0, n as int) =~= t);
    let (range_text, convert_fun, ty) = match find_char_from(text, 0, n, ':', 0) {
        None => {
            assert(colon_parts(t).len() == 1);
            return Err(AttrError::VersionsAsWithoutType);
        },
        Some(p) => match find_char_from(text, 0, n, ':', p + 1) {
            None => {
                assert(colon_parts(t) == seq![t.take(p as int), t.skip(p + 1)]);
                assert(t.take(p as int) =~= t.subrange(0, p as int));
                assert(t.skip(p + 1) =~= t.subrange(p + 1, n as int));
                (text_between(text, 0, p), String::new(), text_between(text, p + 1, n))
            },
            Some(q) => {
                assert(colon_parts(t) == seq![t.take(p as int), t.subrange(p + 1, q as int), t.skip(q + 1)]);
                assert(t.take(p as int) =~= t.subrange(0, p as int));
                assert(t.skip(q + 1) =~= t.subrange(q + 1, n as int));
                (text_between(text, 0, p), text_between(text, p + 1, q), text_between(text, q + 1, n))
            },
        },
    };
    let ghost parts = colon_parts(t);
    assert(range_text@ == parts[0]);
    assert(ty@ == parts[parts.len() - 1]);
    assert(convert_fun@ == (if parts.len() == 2 {
        Seq::<char>::empty()
    } else {
        parts[1]
    }));
    match range_bounds_of(range_text.as_str()) {
        Err(RangeProblem::NotARange) => Err(AttrError::VersionsAsNotARange),
        Err(RangeProblem::BadFrom) => Err(AttrError::VersionsAsBadFrom),
        Err(RangeProblem::BadTo) => Err(AttrError::VersionsAsBadTo),
        Err(RangeProblem::Reversed) => Err(AttrError::VersionsAsReversed),
        Ok((f, to)) => {
            if any_overlap_of(&st.ranges, f, to) {
                return Err(AttrError::VersionsAsOverlap);
            }
            let mut st = st;
            let ghost before = st.ranges.model();
            let item = VersionRange { from: f, to, convert_fun, serialized_type: ty };
            let ghost im = item.model();
            st.ranges.push(item);
            assert(st.ranges.model() =~= before.push(im));
            Ok(st)
        },
    }
}

/// Reads `savefile_versions = "a..b"`; a field may have only one.
fn read_versions_of(st: Reading, text: &str) -> (r: Result<Reading, AttrError>)
    ensures
        match read_versions(st.model(), text@) {
            Ok(m) => r matches Ok(s) && s.model() == m,
            Err(e) => r matches Err(x) && x == e,
        },
{
    let rb = range_bounds_of(text);
    if let Err(RangeProblem::NotARange) = rb {
        return Err(AttrError::VersionsNotARange);
    }
    if st.from.is_some() || st.to.is_some() {
        return Err(AttrError::DuplicateVersions);
    }
    match rb {
        Err(RangeProblem::BadFrom) => Err(AttrError::VersionsBadFrom),
        Err(RangeProblem::BadTo) => Err(AttrError::VersionsBadTo),
        Err(_) => Err(AttrError::VersionsReversed),
        Ok((f, t)) => {
            let mut st = st;
            st.from = Some(f);
            st.to = Some(t);
            Ok(st)
        },
    }
}

/// Copies a literal's text into a default.
fn default_of(lit: &AttrLit) -> (r: DefaultValue)
    ensures
        r.model() == (match *lit {
            AttrLit::Str(s) => DefaultValueModel::Parsed(s@),
            AttrLit::Other(t) => DefaultValueModel::Literal(t@),
        }),
{
    match lit {
        AttrLit::Str(s) => DefaultValue::Parsed(s.clone()),
        AttrLit::Other(t) => DefaultValue::Literal(t.clone()),
    }
}

/// Reads an attribute `path = lit`.
fn read_name_value_of(st: Reading, path: &String, lit: &AttrLit) -> (r: Result<Reading, AttrError>)
    ensures
        match read_name_value(st.model(), path@, *lit) {
            Ok(m) => r matches Ok(s) && s.model() == m,
            Err(e) => r matches Err(x) && x == e,
        },
{
    let mut st = st;
    if same_text(path.as_str(), "savefile_default_val") {
        st.default_val = Some(default_of(lit));
        Ok(st)
    } else if same_text(path.as_str(), "savefile_default_fn") {
        match lit {
            AttrLit::Str(s) => {
                st.default_fn = Some(s.clone());
                Ok(st)
            },
            AttrLit::Other(_) => Err(AttrError::DefaultFnNotAString),
        }
    } else if same_text(path.as_str(), "savefile_ignore") {
        st.ignore = true;
        Ok(st)
    } else if same_text(path.as_str(), "savefile_introspect_ignore") {
        st.introspect_ignore = true;
        Ok(st)
    } else if same_text(path.as_str(), "savefile_versions_as") {
        match lit {
            AttrLit::Str(s) => read_versions_as_of(st, s.as_str()),
            AttrLit::Other(_) => Err(AttrError::VersionsAsNotAString),
        }
    } else if same_text(path.as_str(), "savefile_versions") {
        match lit {
            AttrLit::Str(s) => read_versions_of(st, s.as_str()),
            AttrLit::Other(_) => Err(AttrError::VersionsNotAString),
        }
    } else {
        Ok(st)
    }
}

/// Reads one attribute of a field.
fn read_attr_of(st: Reading, meta: &AttrMeta) -> (r: Result<Reading, AttrError>)
    ensures
        match read_attr(st.model(), *meta) {
            Ok(m) => r matches Ok(s) && s.model() == m,
            Err(e) => r matches Err(x) && x == e,
        },
{
    match meta {
        AttrMeta::Path(p) => {
            let mut st = st;
            if same_text(p.as_str(), "savefile_ignore") {
                st.ignore = true;
            }
            if same_text(p.as_str(), "savefile_introspect_key") {
                st.introspect_key = true;
            }
            if same_text(p.as_str(), "savefile_introspect_ignore") {
                st.introspect_ignore = true;
            }
            Ok(st)
        },
        AttrMeta::NameValue { path, lit } => read_name_value_of(st, path, lit),
        AttrMeta::List { .. } => Ok(st),
        AttrMeta::Unparsable => Err(AttrError::Unparsable),
    }
}

/// What the attributes of a field say.
#[derive(Debug)]
pub struct AttrsResult {
    /// The first version the field exists in; 0 means no lower bound.
    pub version_from: u32,
    /// The last version the field exists in; `u32::MAX` means no upper bound.
    pub version_to: u32,
    /// The field is neither written nor read.
    pub ignore: bool,
    /// The function that makes the field's default.
    pub default_fn: Option<String>,
    /// The field's default.
    pub default_val: Option<DefaultValue>,
    /// The older types the field was stored as, by version range.
    pub deserialize_types: Vec<VersionRange>,
    /// The field names its value when looked into.
    pub introspect_key: bool,
    /// The field is hidden when looked into.
    pub introspect_ignore: bool,
}

/// The model of an [`AttrsResult`].
pub struct AttrsModel {
    pub version_from: u32,
    pub version_to: u32,
    pub ignore: bool,
    pub default_fn: Option<Seq<char>>,
    pub default_val: Option<DefaultValueModel>,
    pub deserialize_types: Seq<VersionRangeModel>,
    pub introspect_key: bool,
    pub introspect_ignore: bool,
}

impl Model for AttrsResult {
    type M = AttrsModel;

    open spec fn model(&self) -> AttrsModel {
        AttrsModel {
            version_from: self.version_from,
            version_to: self.version_to,
            ignore: self.ignore,
            default_fn: opt_text(self.default_fn),
            default_val: opt_default(self.default_val),
            deserialize_types: self.deserialize_types.model(),
            introspect_key: self.introspect_key,
            introspect_ignore: self.introspect_ignore,
        }
    }
}

/// What the attributes `attrs` of a field say, or why they are refused: read
/// in order, then the ranges of older types must lie below, and apart from,
/// the versions the field exists in.
pub open spec fn field_attrs(attrs: Seq<AttrMeta>) -> Result<AttrsModel, AttrError> {
    match read_attrs(attrs) {
        Err(e) => Err(e),
        Ok(st) => {
            let from = match st.from {
                Some(f) => f,
                None => 0,
            };
            let to = match st.to {
                Some(t) => t,
                None => u32::MAX,
            };
            if any_overlaps(st.ranges, from, to) {
                Err(AttrError::VersionsAsOverlapsVersions)
            } else if exists|i: int| 0 <= i < st.ranges.len() && #[trigger] st.ranges[i].to >= from {
                Err(AttrError::VersionsAsNotBelowVersions)
            } else {
                Ok(
                    AttrsModel {
                        version_from: from,
                        version_to: to,
                        ignore: st.ignore,
                        default_fn: st.default_fn,
                        default_val: st.default_val,
                        deserialize_types: st.ranges,
                        introspect_key: st.introspect_key,
                        introspect_ignore: st.introspect_ignore,
                    },
                )
            }
        },
    }
}

/// Reads the attributes of a field.
#[verifier::spinoff_prover]
#[verifier::rlimit(30)]
pub fn parse_attr_tag(attrs: &Vec<AttrMeta>) -> (r: Result<AttrsResult, AttrError>)
    ensures
        match field_attrs(attrs@) {
            Ok(m) => r matches Ok(a) && a.model() == m,
            Err(e) => r matches Err(x) && x == e,
        },
{
    let mut st = Reading {
        from: None,
        to: None,
        default_fn: None,
        default_val: None,
        ignore: false,
        introspect_ignore: false,
        introspect_key: false,
        ranges: Vec::new(),
    };
    assert(st.ranges.model() =~= Seq::<VersionRangeModel>::empty());
    let mut i: usize = 0;
    while i < attrs.len()
        invariant
            i <= attrs.len(),
            read_attrs(attrs@.take(i as int)) == Ok::<ReadingModel, AttrError>(st.model()),
        decreases attrs.len() - i,
    {
        assert(attrs@.take(i + 1).drop_last() =~= attrs@.take(i as int));
        match read_attr_of(st, &attrs[i]) {
            Ok(s) => {
                st = s;
            },
            Err(e) => {
                proof {
                    lemma_read_attrs_failure_sticks(attrs@, (i + 1) as nat);
                }
                return Err(e);
            },
        }
        i = i + 1;
    }
    assert(attrs@.take(i as int) =~= attrs@);
    let from: u32 = match st.from {
        Some(f) => f,
        None => 0,
    };
    let to: u32 = match st.to {
        Some(t) => t,
        None => 0xFFFF_FFFFu32,
    };
    if any_overlap_of(&st.ranges, from, to) {
        return Err(AttrError::VersionsAsOverlapsVersions);
    }
    let ghost rm = st.ranges.model();
    let mut k: usize = 0;
    while k < st.ranges.len()
        invariant
            k <= st.ranges.len(),
            rm == st.ranges.model(),
            forall|j: int| 0 <= j < k ==> (#[trigger] rm[j]).to < from,
            read_attrs(attrs@) == Ok::<ReadingModel, AttrError>(st.model()),
            !any_overlaps(rm, from, to),
            from == (match st.model().from {
                Some(f) => f,
                None => 0,
            }),
            to == (match st.model().to {
                Some(t) => t,
                None => u32::MAX,
            }),
        decreases st.ranges.len() - k,
    {
        assert(rm[k as int] == st.ranges[k as int].model());
        if st.ranges[k].to >= from {
            assert(rm[k as int].to >= from);
            return Err(AttrError::VersionsAsNotBelowVersions);
        }
        k = k + 1;
    }
    Ok(
        AttrsResult {
            version_from: from,
            version_to: to,
            ignore: st.ignore,
            default_fn: st.default_fn,
            default_val: st.default_val,
            deserialize_types: st.ranges,
            introspect_key: st.introspect_key,
            introspect_ignore: st.introspect_ignore,
        },
    )
}

/// Once reading the first `k` attributes fails, reading all of them fails the same way.
proof fn lemma_read_attrs_failure_sticks(attrs: Seq<AttrMeta>, k: nat)
    requires
        k <= attrs.len(),
        read_attrs(attrs.take(k as int)) is Err,
    ensures
        read_attrs(attrs) == read_attrs(attrs.take(k as int)),
    decreases attrs.len() - k,
{
    if k < attrs.len() {
        assert(attrs.take(k + 1 as int).drop_last() =~= attrs.take(k as int));
        lemma_read_attrs_failure_sticks(attrs, (k + 1) as nat);
    } else {
        assert(attrs.take(k as int) =~= attrs);
    }
}

impl AttrsResult {
    /// The first version from which the field's layout no longer changes:
    /// after its removal, if it was removed, and no earlier than its addition.
    pub fn min_safe_version(&self) -> (r: u32)
        ensures
            r == (if self.version_to < u32::MAX {
                if self.version_to + 1 > self.version_from {
                    self.version_to + 1
                } else {
                    self.version_from as int
                }
            } else {
                self.version_from as int
            }),
    {
        let mut min_safe_version: u32 = 0;
        if self.version_to < 0xFFFF_FFFFu32 {
            min_safe_version = self.version_to + 1;
        }
        if self.version_from > min_safe_version {
            self.version_from
        } else {
            min_safe_version
        }
    }
}

/// Whether the ranges `a` and `b` share a version.
pub fn overlap(a: &VersionRange, b: &VersionRange) -> (r: bool)
    requires
        a.from <= a.to,
        b.from <= b.to,
    ensures
        r == overlaps(a.model(), b.from, b.to),
{
    let no_overlap = a.to < b.from || a.from > b.to;
    !no_overlap
}

} // verus!
