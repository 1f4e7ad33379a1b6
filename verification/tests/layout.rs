use savefile::samples::aligned::{CorrectlyAligned, Inner, Inner2};
use savefile::samples::packed::{Inner as PackedInner, Nested};
use savefile::save::{roundtrip, save_noschema};

#[test]
fn roundtrip_correctly_aligned() {
    roundtrip(CorrectlyAligned { x: 1, y: 2 });
    roundtrip(Inner { misaligner: 43, x: 42 });
}

#[test]
fn test_roundtrip_inner2() {
    roundtrip(Inner2 { x: 47, misaligner: 48 });
}

#[test]
fn test_not_raw_memcpy2() {
    let sample = vec![Nested { misaligner: 0, inner: PackedInner { x: 32 } }];
    let f = save_noschema(0, &sample).unwrap();
    let f_internal_size = f.len();

    let vec_overhead = 8;
    let version = 4;
    let savefile_header = 9;
    let savefile_lib_version = 2;
    let is_compressed = 1;
    let misaligner = 1;
    let inner = 4;
    assert_eq!(
        f_internal_size,
        version + vec_overhead + misaligner + inner + savefile_header + savefile_lib_version + is_compressed
    );
}

use savefile::packed::Packed;
use savefile::samples::generic::{ExampleGenericEnum, ExampleGenericEnum2};
use savefile::samples::packed::{MyUnitStruct, UnnamedFieldsStruct};
use savefile::samples::versions::EnumCVer2;
use savefile::save::{assert_roundtrip, roundtrip_version};
use savefile::versioning::Removed;

#[test]
fn test_misaligned1() {
    assert_eq!(Inner::repr_c_optimization_safe(0).is_yes(), false);
    assert_eq!(CorrectlyAligned::repr_c_optimization_safe(0).is_yes(), true);
}

#[test]
fn test_misaligned2() {
    assert_eq!(Inner2::repr_c_optimization_safe(0).is_yes(), false);
    assert_eq!(CorrectlyAligned::repr_c_optimization_safe(0).is_yes(), true);
}

#[test]
fn test_various_types_for_reprc() {
    assert_eq!(<() as Packed>::repr_c_optimization_safe(0).is_yes(), true);
    assert_eq!(<u8>::repr_c_optimization_safe(0).is_yes(), true);

    assert_eq!(<MyUnitStruct>::repr_c_optimization_safe(0).is_yes(), true);
    assert_eq!(UnnamedFieldsStruct::repr_c_optimization_safe(0).is_yes(), false);

    assert_eq!(<(u32, u32)>::repr_c_optimization_safe(0).is_yes(), true);
    assert_eq!(<(u32, u8)>::repr_c_optimization_safe(0).is_yes(), false);
    assert_eq!(<(u32, u8, u8, u16)>::repr_c_optimization_safe(0).is_yes(), true);
}

#[test]
pub fn test_generic_example_enum2() {
    let a = ExampleGenericEnum::Value2(42u8);
    assert_roundtrip(a);
    assert!(ExampleGenericEnum2::<u8>::repr_c_optimization_safe(0).is_yes());
    assert!(ExampleGenericEnum2::<u16>::repr_c_optimization_safe(0).is_false());
}

#[test]
fn test_change_remove_enum_field() {
    assert!(EnumCVer2::repr_c_optimization_safe(0).is_false());
    assert!(EnumCVer2::repr_c_optimization_safe(1).is_yes());
    let back = roundtrip_version(EnumCVer2::Var2 { b: 42, a: Removed::new() }, 1);
    assert_eq!(back, EnumCVer2::Var2 { b: 42, a: Removed::new() });
}
