use savefile::attrs::field::{overlap, parse_attr_tag, range_bounds_of, AttrError, AttrsResult, DefaultValue, RangeProblem, VersionRange};
use savefile::attrs::repr::{check_is_remove, get_enum_size, EnumSize, RemovedType};
use savefile::attrs::{AttrLit, AttrMeta, NestedMeta};

fn versions(text: &str) -> AttrMeta {
    AttrMeta::NameValue { path: "savefile_versions".to_string(), lit: AttrLit::Str(text.to_string()) }
}

fn versions_as(text: &str) -> AttrMeta {
    AttrMeta::NameValue { path: "savefile_versions_as".to_string(), lit: AttrLit::Str(text.to_string()) }
}

fn read(attrs: Vec<AttrMeta>) -> Result<AttrsResult, AttrError> {
    parse_attr_tag(&attrs)
}

fn range_of(attrs: Vec<AttrMeta>) -> (u32, u32) {
    let r = read(attrs).unwrap();
    (r.version_from, r.version_to)
}

#[test]
fn no_attributes_mean_all_versions() {
    let r = read(vec![]).unwrap();
    assert_eq!((r.version_from, r.version_to), (0, u32::MAX));
    assert!(!r.ignore && !r.introspect_key && !r.introspect_ignore);
    assert!(r.default_fn.is_none() && r.default_val.is_none() && r.deserialize_types.is_empty());
}

#[test]
fn version_ranges_are_read() {
    assert_eq!(range_of(vec![versions("0..1")]), (0, 1));
    assert_eq!(range_of(vec![versions("1..")]), (1, u32::MAX));
    assert_eq!(range_of(vec![versions("..3")]), (0, 3));
    assert_eq!(range_of(vec![versions(" ..\t")]), (0, u32::MAX));
    assert_eq!(range_of(vec![versions("+2..4")]), (2, 4));
    assert_eq!(range_of(vec![versions("7..7")]), (7, 7));
    assert_eq!(range_of(vec![versions("0..4294967295")]), (0, u32::MAX));
}

#[test]
fn bad_version_ranges_are_refused() {
    assert_eq!(read(vec![versions("1")]).unwrap_err(), AttrError::VersionsNotARange);
    assert_eq!(read(vec![versions("1..2..3")]).unwrap_err(), AttrError::VersionsNotARange);
    assert_eq!(read(vec![versions("....")]).unwrap_err(), AttrError::VersionsNotARange);
    assert_eq!(read(vec![versions(" 1..2")]).unwrap_err(), AttrError::VersionsBadFrom);
    assert_eq!(read(vec![versions("x..2")]).unwrap_err(), AttrError::VersionsBadFrom);
    assert_eq!(read(vec![versions("1..4294967296")]).unwrap_err(), AttrError::VersionsBadTo);
    assert_eq!(read(vec![versions("1..-2")]).unwrap_err(), AttrError::VersionsBadTo);
    assert_eq!(read(vec![versions("5..3")]).unwrap_err(), AttrError::VersionsReversed);
    assert_eq!(read(vec![versions("0..1"), versions("2..3")]).unwrap_err(), AttrError::DuplicateVersions);
    let lit = AttrMeta::NameValue { path: "savefile_versions".to_string(), lit: AttrLit::Other("3".to_string()) };
    assert_eq!(read(vec![lit]).unwrap_err(), AttrError::VersionsNotAString);
}

#[test]
fn range_text_problems() {
    assert!(matches!(range_bounds_of("..."), Err(RangeProblem::BadTo)));
    assert!(matches!(range_bounds_of("3..1"), Err(RangeProblem::Reversed)));
    assert!(matches!(range_bounds_of("1..2"), Ok((1, 2))));
}

#[test]
fn flags_and_defaults_are_read() {
    let r = read(vec![
        AttrMeta::Path("savefile_ignore".to_string()),
        AttrMeta::Path("savefile_introspect_key".to_string()),
        AttrMeta::NameValue { path: "savefile_default_val".to_string(), lit: AttrLit::Str("123".to_string()) },
        AttrMeta::NameValue { path: "savefile_default_fn".to_string(), lit: AttrLit::Str("b_default".to_string()) },
    ])
    .unwrap();
    assert!(r.ignore && r.introspect_key && !r.introspect_ignore);
    assert!(matches!(r.default_val, Some(DefaultValue::Parsed(ref s)) if s == "123"));
    assert_eq!(r.default_fn.as_deref(), Some("b_default"));

    let r = read(vec![AttrMeta::NameValue {
        path: "savefile_default_val".to_string(),
        lit: AttrLit::Other("42".to_string()),
    }])
    .unwrap();
    assert!(matches!(r.default_val, Some(DefaultValue::Literal(ref s)) if s == "42"));

    let r = read(vec![AttrMeta::NameValue {
        path: "savefile_introspect_ignore".to_string(),
        lit: AttrLit::Str("".to_string()),
    }])
    .unwrap();
    assert!(r.introspect_ignore);
}

#[test]
fn other_attributes_are_passed_over() {
    let r = read(vec![
        AttrMeta::Path("derive".to_string()),
        AttrMeta::List { path: "serde".to_string(), nested: vec![] },
        AttrMeta::NameValue { path: "doc".to_string(), lit: AttrLit::Str("text".to_string()) },
    ])
    .unwrap();
    assert!(!r.ignore);
    assert_eq!((r.version_from, r.version_to), (0, u32::MAX));
}

#[test]
fn refusals() {
    assert_eq!(read(vec![AttrMeta::Unparsable]).unwrap_err(), AttrError::Unparsable);
    let f = AttrMeta::NameValue { path: "savefile_default_fn".to_string(), lit: AttrLit::Other("3".to_string()) };
    assert_eq!(read(vec![f]).unwrap_err(), AttrError::DefaultFnNotAString);
    assert_eq!(
        read(vec![versions("2.."), AttrMeta::Unparsable, versions("3..")]).unwrap_err(),
        AttrError::Unparsable
    );
}

#[test]
fn older_types_are_read() {
    let r = read(vec![versions_as("0..0:convert_old:u8"), versions_as("1..1:u16"), versions("2..")]).unwrap();
    assert_eq!((r.version_from, r.version_to), (2, u32::MAX));
    assert_eq!(r.deserialize_types.len(), 2);
    let a = &r.deserialize_types[0];
    assert_eq!((a.from, a.to, a.convert_fun.as_str(), a.serialized_type.as_str()), (0, 0, "convert_old", "u8"));
    let b = &r.deserialize_types[1];
    assert_eq!((b.from, b.to, b.convert_fun.as_str(), b.serialized_type.as_str()), (1, 1, "", "u16"));
}

#[test]
fn older_types_must_lie_below_and_apart() {
    assert_eq!(read(vec![versions_as("0..1")]).unwrap_err(), AttrError::VersionsAsWithoutType);
    assert_eq!(read(vec![versions_as("0:u8")]).unwrap_err(), AttrError::VersionsAsNotARange);
    assert_eq!(read(vec![versions_as("a..1:u8")]).unwrap_err(), AttrError::VersionsAsBadFrom);
    assert_eq!(read(vec![versions_as("0..b:u8")]).unwrap_err(), AttrError::VersionsAsBadTo);
    assert_eq!(read(vec![versions_as("2..1:u8")]).unwrap_err(), AttrError::VersionsAsReversed);
    assert_eq!(
        read(vec![versions_as("0..2:u8"), versions_as("2..3:u16")]).unwrap_err(),
        AttrError::VersionsAsOverlap
    );
    assert_eq!(read(vec![versions_as("0..1:u8")]).unwrap_err(), AttrError::VersionsAsOverlapsVersions);
    assert_eq!(
        read(vec![versions_as("5..6:u8"), versions("1..3")]).unwrap_err(),
        AttrError::VersionsAsNotBelowVersions
    );
    let lit = AttrMeta::NameValue { path: "savefile_versions_as".to_string(), lit: AttrLit::Other("1".to_string()) };
    assert_eq!(read(vec![lit]).unwrap_err(), AttrError::VersionsAsNotAString);
}

#[test]
fn min_safe_version_follows_additions_and_removals() {
    let mut r = read(vec![versions("3..")]).unwrap();
    assert_eq!(r.min_safe_version(), 3);
    r = read(vec![versions("0..4")]).unwrap();
    assert_eq!(r.min_safe_version(), 5);
    r = read(vec![]).unwrap();
    assert_eq!(r.min_safe_version(), 0);
}

#[test]
fn ranges_overlap_when_they_share_a_version() {
    let a = VersionRange { from: 0, to: 2, convert_fun: String::new(), serialized_type: String::new() };
    let b = VersionRange { from: 2, to: 5, convert_fun: String::new(), serialized_type: String::new() };
    let c = VersionRange { from: 3, to: 5, convert_fun: String::new(), serialized_type: String::new() };
    assert!(overlap(&a, &b));
    assert!(!overlap(&a, &c));
    assert!(overlap(&c, &b));
}

fn repr(words: &[&str]) -> AttrMeta {
    AttrMeta::List {
        path: "repr".to_string(),
        nested: words.iter().map(|w| NestedMeta::Path(w.to_string())).collect(),
    }
}

#[test]
fn enum_sizes() {
    let s = get_enum_size(&vec![], 3).unwrap();
    assert_eq!(s, EnumSize { discriminant_size: 1, repr_c: false, explicit_size: false });
    assert_eq!(get_enum_size(&vec![], 256).unwrap().discriminant_size, 1);
    assert_eq!(get_enum_size(&vec![], 257).unwrap().discriminant_size, 2);
    assert_eq!(get_enum_size(&vec![], 65536).unwrap().discriminant_size, 2);
    assert_eq!(get_enum_size(&vec![], 65537).unwrap().discriminant_size, 4);
    assert_eq!(get_enum_size(&vec![], u32::MAX as usize).unwrap_err(), AttrError::TooManyVariants);
    assert_eq!(
        get_enum_size(&vec![repr(&["u16"])], 3).unwrap(),
        EnumSize { discriminant_size: 2, repr_c: false, explicit_size: true }
    );
    assert_eq!(
        get_enum_size(&vec![repr(&["C", "i32"])], 3).unwrap(),
        EnumSize { discriminant_size: 4, repr_c: true, explicit_size: true }
    );
    assert_eq!(
        get_enum_size(&vec![repr(&["C"])], 300).unwrap(),
        EnumSize { discriminant_size: 2, repr_c: true, explicit_size: false }
    );
    let lit = AttrMeta::List { path: "repr".to_string(), nested: vec![NestedMeta::Lit(AttrLit::Str("u8".to_string())), NestedMeta::NameValue] };
    assert_eq!(get_enum_size(&vec![lit], 3).unwrap().discriminant_size, 1);
    assert_eq!(get_enum_size(&vec![repr(&["u64"])], 3).unwrap_err(), AttrError::EnumTooWide);
    assert_eq!(get_enum_size(&vec![repr(&["packed"])], 3).unwrap_err(), AttrError::UnsupportedRepr);
    assert_eq!(get_enum_size(&vec![AttrMeta::Unparsable, repr(&["i8"])], 3).unwrap().discriminant_size, 1);
}

#[test]
fn removed_fields_are_told_by_their_type() {
    let toks = |ts: &[&str]| ts.iter().map(|t| t.to_string()).collect::<Vec<String>>();
    assert_eq!(check_is_remove(&toks(&["Removed", "<", "u32", ">"])), RemovedType::Removed);
    assert_eq!(check_is_remove(&toks(&["savefile", "::", "AbiRemoved", "<", "u32", ">"])), RemovedType::AbiRemoved);
    assert_eq!(check_is_remove(&toks(&["Vec", "<", "u32", ">"])), RemovedType::NotRemoved);
    assert!(RemovedType::Removed.is_removed());
    assert!(!RemovedType::NotRemoved.is_removed());
}
