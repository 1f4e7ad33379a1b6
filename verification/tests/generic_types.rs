use savefile::samples::generic::{ExampleGeneric, ExampleGeneric2, ExampleGeneric3, ExampleGeneric4, ExampleGenericEnum};
use savefile::save::assert_roundtrip;
use std::marker::PhantomData;

#[test]
pub fn test_generic_example_u32() {
    let a = ExampleGeneric { x: 42u32 };
    assert_roundtrip(a);
}

#[test]
pub fn test_generic_example_string() {
    let a = ExampleGeneric { x: "hej".to_string() };
    assert_roundtrip(a);
}

#[test]
pub fn test_generic_example2_string() {
    let a = ExampleGeneric2 { x: "hej".to_string() };
    assert_roundtrip(a);
}

#[test]
pub fn test_generic_example3_tuple() {
    let a = ExampleGeneric3 { x: ("hej".to_string(), 42u32) };
    assert_roundtrip(a);
}

#[test]
pub fn test_generic_example4_phantom() {
    let a: ExampleGeneric4<String> = ExampleGeneric4 { phantom: PhantomData };
    assert_roundtrip(a);
}

#[test]
pub fn test_generic_example_enum() {
    let a = ExampleGenericEnum::Value2(42u32);
    assert_roundtrip(a);
}
