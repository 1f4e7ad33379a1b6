use savefile::samples::versions::{DefTraitEnum, DefTraitTest, EnumBVer2, Version1, Version2, Version3};
use savefile::save::{assert_roundtrip_to_new_version, assert_roundtrip_version, load, roundtrip_version, save};
use savefile::samples::removed::OnlyRemoved;
use savefile::samples::changed_type::{convert2newtype, AnewType, StructWithAnotherType, StructWithAnotherType2, StructWithOneType};
use savefile::versioning::Removed;

#[test]
fn test_default_trait1() {
    let sample = DefTraitTest { removed_enum: DefTraitEnum::VariantA };
    let bytes = save(1, &sample).unwrap();
    let back: DefTraitTest = load(&bytes, 1).unwrap();
    assert_eq!(back, sample);
}

#[test]
fn default_trait_field_absent_in_version_zero() {
    let sample = DefTraitTest { removed_enum: DefTraitEnum::VariantC };
    let back = roundtrip_version(sample, 0);
    assert_eq!(back, DefTraitTest { removed_enum: DefTraitEnum::VariantA });
}

#[test]
fn simple_vertest1() {
    let ver2: Version2 = assert_roundtrip_to_new_version(Version1 { a: "Hello".to_string(), b: vec!["a".to_string(), "b".to_string()], c: 412 }, 0, Version2 { a: "Hello".to_string(), b: Removed::new(), newb: 123, c: 412 }, 1);
    assert_eq!(ver2, Version2 { a: "Hello".to_string(), b: Removed::new(), newb: 123, c: 412 });
    let ver3: Version3 = assert_roundtrip_to_new_version(ver2, 1, Version3 { a: "Hello".to_string(), b: Removed::new(), newb: 123, c: 412, d: 0 }, 2);
    assert_eq!(ver3, Version3 { a: "Hello".to_string(), b: Removed::new(), newb: 123, c: 412, d: 0 });
}

#[test]
fn removed_field_cannot_be_written_in_its_version() {
    let v = Version2 { a: "x".to_string(), b: Removed::new(), newb: 1, c: 2 };
    assert!(save(0, &v).is_err());
    assert!(save(1, &v).is_ok());
}

#[test]
fn variant_not_in_version_cannot_be_written() {
    assert!(save(0, &EnumBVer2::Var3).is_err());
    assert_eq!(roundtrip_version(EnumBVer2::Var3, 1), EnumBVer2::Var3);
}


use savefile::samples::versions::{
    ComplexData1, ComplexData2, EnumBVer1, EnumBVer3, EnumVer1, EnumVer2, EnumVerA1, EnumVerA2, EnumVerB1, EnumVerB2,
    FastVersionA0, FastVersionA1, FastVersionB0, FastVersionB1, SmallStruct2, SmallStructRem1, SmallStructRem2,
    SubData1, SubData2, SubSubData1, SubSubData2, VersionB1, VersionB2,
};
use savefile::samples::basic::SmallStruct;

#[test]
fn test_versioning_of_enums() {
    let a: EnumVer2 = assert_roundtrip_to_new_version(EnumVer1::Variant1, 0, EnumVer2::Variant1, 1);
    assert_eq!(a, EnumVer2::Variant1);
    let b: EnumVer2 = assert_roundtrip_to_new_version(EnumVer1::Variant2, 0, EnumVer2::Variant2, 1);
    assert_eq!(b, EnumVer2::Variant2);
}

#[test]
fn test_versioning_of_enums2() {
    let a: EnumVerA2 = assert_roundtrip_to_new_version(EnumVerA1::Variant2 { x: 32, y: 33 }, 0, EnumVerA2::Variant2 { x: 32, y: Removed::new() }, 1);
    assert_eq!(a, EnumVerA2::Variant2 { x: 32, y: Removed::new() });
}

#[test]
fn test_versioning_of_enums3() {
    let a: EnumVerB2 = assert_roundtrip_to_new_version(EnumVerB1::Variant2(32, 33), 0, EnumVerB2::Variant2(32, Removed::new()), 1);
    assert_eq!(a, EnumVerB2::Variant2(32, Removed::new()));
}

#[test]
fn test_versioning_of_enums4() {
    let a: ComplexData2 = assert_roundtrip_to_new_version(ComplexData1 { some_field: SubData1 { some_sub: SubSubData1 { x: 43 } } }, 0, ComplexData2 { some_field: SubData2 { some_sub: SubSubData2 { y: 43 } } }, 1);
    assert_eq!(a, ComplexData2 { some_field: SubData2 { some_sub: SubSubData2 { y: 43 } } });
}

#[test]
fn test_custom_default_fn() {
    let a: VersionB2 = assert_roundtrip_to_new_version(VersionB1 { a: "test".to_string() }, 0, VersionB2 { a: "test".to_string(), b: "custom_default_value".to_string() }, 1);
    assert_eq!(a, VersionB2 { a: "test".to_string(), b: "custom_default_value".to_string() });
}

#[test]
fn simple_vertest_a() {
    let ver1: FastVersionA1 = assert_roundtrip_to_new_version(FastVersionA0 { a: 2, b: 3, c: 4 }, 0, FastVersionA1 { a: 2, b: Removed::new(), c: 4 }, 1);
    assert_eq!(ver1, FastVersionA1 { a: 2, b: Removed::new(), c: 4 });
}

#[test]
fn simple_vertest_b() {
    let ver1: FastVersionB1 = assert_roundtrip_to_new_version(FastVersionB0 { a: 2, b: 3 }, 0, FastVersionB1 { a: 2, b: 3, c: 0 }, 1);
    assert_eq!(ver1, FastVersionB1 { a: 2, b: 3, c: 0 });
}

#[test]
fn test_change_add_enum_variants() {
    let a: EnumBVer2 = assert_roundtrip_to_new_version(EnumBVer1::Var1, 0, EnumBVer2::Var1, 0);
    assert_eq!(a, EnumBVer2::Var1);
}

#[test]
fn test_change_add_enum_variants2() {
    let a: EnumBVer3 = assert_roundtrip_to_new_version(EnumBVer2::Var3, 1, EnumBVer3::Var3, 1);
    assert_eq!(a, EnumBVer3::Var3);
}

#[test]
fn test_small_struct_upgrade() {
    let a: SmallStruct2 = assert_roundtrip_to_new_version(SmallStruct { x1: 123, x2: 321 }, 0, SmallStruct2 { x1: 123, x2: 321, x3: "100".to_string(), x4: 123 }, 1);
    assert_eq!(a, SmallStruct2 { x1: 123, x2: 321, x3: "100".to_string(), x4: 123 });
}

#[test]
fn test_small_struct_remove() {
    let a: SmallStructRem2 = assert_roundtrip_to_new_version(SmallStructRem1 { x1: 123, x2: 321, x3: "hello".to_string() }, 0, SmallStructRem2 { x1: Removed::new(), x2: 321, x3: "hello".to_string(), x4: 123 }, 1);
    assert_eq!(a, SmallStructRem2 { x1: Removed::new(), x2: 321, x3: "hello".to_string(), x4: 123 });
}

#[test]
fn loading_a_newer_file_is_refused() {
    let bytes = save(2, &FastVersionB0 { a: 1, b: 2 }).unwrap();
    assert!(load::<FastVersionB0>(&bytes, 1).is_err());
}

#[test]
fn newer_program_loads_old_file_of_the_same_type() {
    let bytes = save(0, &FastVersionB0 { a: 7, b: 8 }).unwrap();
    let back: FastVersionB0 = load(&bytes, 2).unwrap();
    assert_eq!(back, FastVersionB0 { a: 7, b: 8 });
}

#[test]
pub fn test_struct_only_removed_fields() {
    assert_roundtrip_version(OnlyRemoved { rem: Removed::new() }, 1, true);
}

#[test]
fn roundtrip_without_schema() {
    assert_roundtrip_version(FastVersionB0 { a: 5, b: 6 }, 0, false);
    assert_roundtrip_version(FastVersionB0 { a: 5, b: 6 }, 0, true);
}

#[test]
fn test_change_type_of_field() {
    let got = assert_roundtrip_to_new_version(
        StructWithOneType { a_str: "test".to_string() },
        0,
        StructWithAnotherType { a_str: AnewType { an_u32: 9999 } },
        1,
    );
    assert_eq!(got, StructWithAnotherType { a_str: AnewType { an_u32: 9999 } });
}

#[test]
fn test_change_type_of_field2() {
    let got = assert_roundtrip_to_new_version(
        StructWithOneType { a_str: "422".to_string() },
        0,
        StructWithAnotherType2 { a_str: AnewType { an_u32: 422 } },
        1,
    );
    assert_eq!(got, StructWithAnotherType2 { a_str: AnewType { an_u32: 422 } });
}

#[test]
fn changed_type_refuses_text_that_is_no_number() {
    let bytes = save(0, &StructWithOneType { a_str: "4x2".to_string() }).unwrap();
    assert!(load::<StructWithAnotherType2>(&bytes, 1).is_err());
    let bytes = save(1, &StructWithAnotherType2 { a_str: AnewType { an_u32: 7 } }).unwrap();
    assert_eq!(load::<StructWithAnotherType2>(&bytes, 1).unwrap(), StructWithAnotherType2 { a_str: AnewType { an_u32: 7 } });
    assert_eq!(convert2newtype("+15".to_string()), AnewType { an_u32: 15 });
}
