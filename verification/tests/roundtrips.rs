use savefile::error::SavefileError;
use savefile::save::bare_deserialize;
use savefile::samples::basic::{
    BenchStruct, GenericWrapper, MySimpleFuzz1, MyUnitStruct, NewTypeSample, NewTypeSample2, NoFields, SmallStruct,
    StructWithIgnored, TerrainTile, TerrainType, TestStructEnum, TestTupleEnum, TestUnitEnum, TupleCarrier,
};
use savefile::save::{assert_roundtrip, load_noschema, roundtrip};
use std::hint::black_box;

#[test]
pub fn test_struct_enum() {
    assert_roundtrip(TestStructEnum::Variant1 { a: 42, b: 45 });
    assert_roundtrip(TestStructEnum::Variant2 { a: 47 });
}

#[test]
pub fn test_tuple_enum() {
    assert_roundtrip(TestTupleEnum::Variant1(37));
}

#[test]
pub fn test_unit_enum() {
    assert_roundtrip(TestUnitEnum::Variant1);
    assert_roundtrip(TestUnitEnum::Variant2);
}

#[test]
pub fn test_vec() {
    let mut v = Vec::new();
    v.push(43u8);
    assert_roundtrip(v);
}

#[test]
pub fn test_generic() {
    assert_roundtrip(GenericWrapper { something: 42u32 });
}

#[test]
pub fn test_vec_of_string() {
    let mut v = Vec::new();
    v.push("hejsan".to_string());
    assert_roundtrip(v);
}

#[test]
pub fn test_string() {
    assert_roundtrip("".to_string());
    assert_roundtrip("test string".to_string());
}

#[test]
pub fn test_bench_struct() {
    assert_roundtrip(vec![
        BenchStruct { x: black_box(1), y: black_box(2), z: black_box(3), pad1: 0, pad2: 0, pad3: 0, pad4: 0 },
        BenchStruct { x: black_box(4), y: black_box(5), z: black_box(6), pad1: 0, pad2: 0, pad3: 0, pad4: 0 },
        BenchStruct { x: black_box(7), y: black_box(8), z: black_box(9), pad1: 0, pad2: 0, pad3: 0, pad4: 0 },
        BenchStruct { x: black_box(1), y: black_box(2), z: black_box(3), pad1: 0, pad2: 0, pad3: 0, pad4: 0 },
    ]);
}

#[test]
pub fn test_bench_struct_miri_compat() {
    assert_roundtrip(vec![
        BenchStruct { x: 1, y: 2, z: 3, pad1: 0, pad2: 0, pad3: 0, pad4: 0 },
        BenchStruct { x: 4, y: 5, z: 6, pad1: 0, pad2: 0, pad3: 0, pad4: 0 },
        BenchStruct { x: 7, y: 8, z: 9, pad1: 0, pad2: 0, pad3: 0, pad4: 0 },
        BenchStruct { x: 10, y: 11, z: 12, pad1: 0, pad2: 0, pad3: 0, pad4: 0 },
    ]);
}

#[test]
pub fn test_u16_vec() {
    assert_roundtrip(Vec::<u16>::new());
    assert_roundtrip(vec![0u16, 42u16]);
    assert_roundtrip(vec![0u16, 1, 2, 3, 4, 5, 6, 7, 8, 9]);
}

#[test]
pub fn test_small_struct() {
    assert_roundtrip(SmallStruct { x1: 123, x2: 321 });
}

#[test]
pub fn test_string_leak_test() {
    let mut i = 0;
    loop {
        let test = format!("Test {}", i);
        assert_roundtrip(test);
        i += 1;
        if i > 23 {
            break;
        }
    }
}

#[test]
pub fn test_tuple() {
    assert_roundtrip(TupleCarrier { t0: (), t1: (42u32,), t2: (42u32, 43u32), t3: (42u32, 43u32, 44u32) });
}

#[test]
pub fn test_ignored() {
    assert_roundtrip(StructWithIgnored { a: 42, b: 7, c: 0 });
}

#[test]
pub fn test_option() {
    assert_roundtrip(Some(32));
    let x: Option<u32> = None;
    assert_roundtrip(x);
}

#[test]
pub fn test_result() {
    let x: Result<u32, u32> = Ok(33);
    assert_roundtrip(x);
    let x: Result<u32, u32> = Err(33);
    assert_roundtrip(x);
}

#[test]
pub fn test_newtype() {
    assert_roundtrip(NewTypeSample(43));
}

#[test]
pub fn test_newtype2() {
    assert_roundtrip(NewTypeSample2(43, 127));
}

#[test]
pub fn test_struct_no_fields() {
    assert_roundtrip(NoFields {});
}

#[test]
pub fn test_terrain() {
    assert_roundtrip(vec![TerrainTile { curtype: TerrainType::Dirt, resource: 42, height: 2111 }]);
}

#[test]
pub fn fuzz_regression1() {
    let data: &[u8] = &[0, 0, 0, 0, 0, 0, 64, 0, 0, 0, 0, 0, 0, 0, 0, 8, 3, 0, 3, 0, 64, 0, 0, 0];
    let _t: Result<MySimpleFuzz1, _> = load_noschema(data, 0);
}

#[test]
pub fn fuzz_regression2() {
    let data: &[u8] = &[0, 0, 0, 0, 3, 11, 0, 254, 2, 1, 252, 255, 254];
    let _t: Result<MySimpleFuzz1, _> = load_noschema(data, 0);
}

#[test]
pub fn test_roundtrip_char() {
    assert_roundtrip('\r');
    assert_roundtrip('\n');
    assert_roundtrip('H');
    assert_roundtrip(',');
    assert_roundtrip('\0');
    assert_roundtrip('\u{10FFFF}');
}

#[test]
pub fn test_unit_struct() {
    let h = MyUnitStruct;
    assert_roundtrip(h);
}

#[test]
pub fn test_zero_size_vec_items() {
    let mut test = Vec::new();
    assert_roundtrip(test.clone());
    test.push(());
    assert_roundtrip(test.clone());
    test.push(());
    test.push(());
    test.push(());
    test.push(());
    test.push(());
    assert_roundtrip(test);
}

#[test]
pub fn roundtrip_returns_equal_value() {
    let v = vec!["a".to_string(), "bc".to_string()];
    assert_eq!(roundtrip(v.clone()), v);
}

#[test]
fn text_and_chars_are_checked_when_read() {
    let good = vec![2u8, 0, 0, 0, 0, 0, 0, 0, 0xc3, 0xa5];
    assert_eq!(bare_deserialize::<String>(&good, 0).unwrap(), "å");
    let bad = vec![2u8, 0, 0, 0, 0, 0, 0, 0, 0xc3, 0x28];
    assert!(matches!(bare_deserialize::<String>(&bad, 0), Err(SavefileError::InvalidUtf8)));
    assert_eq!(bare_deserialize::<char>(&[0xe5, 0, 0, 0], 0).unwrap(), 'å');
    assert!(matches!(bare_deserialize::<char>(&[0x00, 0xd8, 0, 0], 0), Err(SavefileError::InvalidChar)));
}

#[test]
pub fn test_roundtrip_arc_slice() {
    let a1: std::sync::Arc<[u32]> = vec![1, 2, 3, 4].into();
    assert_roundtrip(a1);
    let a2: std::sync::Arc<[String]> = vec!["Hello".to_string()].into();
    assert_roundtrip(a2);
}

#[test]
pub fn test_roundtrip_boxed_slice() {
    let a1: Box<[u32]> = vec![1, 2, 3, 4].into_boxed_slice();
    assert_roundtrip(a1);
    let a2: Box<[String]> = vec!["Hello".to_string()].into_boxed_slice();
    assert_roundtrip(a2);
}

#[test]
pub fn test_arc_str() {
    let x: std::sync::Arc<str> = "hej".into();
    assert_roundtrip(x);
}

#[test]
pub fn test_arc_str_dedup() {
    let x: std::sync::Arc<str> = "hej".into();
    let y: std::sync::Arc<str> = "hejsan".into();
    let z: std::sync::Arc<str> = "hej".into();

    let (nx, ny, nz) = roundtrip((x.clone(), y.clone(), z.clone()));
    assert_ne!(nx.as_ptr(), x.as_ptr());
    assert_ne!(ny.as_ptr(), y.as_ptr());
    assert_ne!(nz.as_ptr(), z.as_ptr());
    assert_eq!(nx, nz);
    assert_ne!(nx, ny);
    assert_ne!(ny, nz);
}

#[test]
fn slices_are_written_as_vectors() {
    let boxed: Box<[u16]> = vec![5u16, 6].into_boxed_slice();
    assert_eq!(savefile::save::bare_serialize(0, &boxed).unwrap(), savefile::save::bare_serialize(0, &vec![5u16, 6]).unwrap());
    let shared: std::sync::Arc<str> = "ab".into();
    assert_eq!(savefile::save::bare_serialize(0, &shared).unwrap(), savefile::save::bare_serialize(0, &"ab".to_string()).unwrap());
}
