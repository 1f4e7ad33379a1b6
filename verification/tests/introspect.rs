use savefile::introspect::{to_decimal, to_signed_decimal, Introspect};
use savefile::samples::named::{EnumWithName, OtherStruct, SillyStruct, SimpleEnum, SimpleStruct, StructWithName, ComplexStruct};

#[test]
pub fn test_simple_enum_with_key() {
    let var1 = EnumWithName::Variant1("Hejsan".into());
    let var2 = EnumWithName::Variant2 { name: "James".into(), value: "IV".into() };
    let var3 = EnumWithName::Variant3;
    assert_eq!(var1.introspect_len(), 1);
    assert_eq!(var2.introspect_len(), 2);
    assert_eq!(var3.introspect_len(), 0);
    assert_eq!(var1.introspect_value(), "Hejsan");
    assert_eq!(var2.introspect_value(), "James");
    assert_eq!(var3.introspect_value(), "EnumWithName::Variant3");
}

#[test]
pub fn test_simple_with_key() {
    let val1 = StructWithName { name: "Apple".into(), value: "Orange".into() };
    assert_eq!(val1.introspect_len(), 2);
    assert_eq!(val1.introspect_value(), "Apple");
}

#[test]
pub fn test_simple_enum() {
    let val1 = SimpleEnum::VariantA(11, 12, 13);
    assert_eq!(val1.introspect_len(), 3);
    assert_eq!(val1.introspect_child(0).unwrap().key(), "0");
    assert_eq!(val1.introspect_child(0).unwrap().val().introspect_value(), "11");
    assert_eq!(val1.introspect_child(1).unwrap().key(), "1");
    assert_eq!(val1.introspect_child(1).unwrap().val().introspect_value(), "12");
    assert_eq!(val1.introspect_child(2).unwrap().key(), "2");
    assert_eq!(val1.introspect_child(2).unwrap().val().introspect_value(), "13");

    let val2 = SimpleEnum::VariantB { x: 74, y: 32 };
    assert_eq!(val2.introspect_len(), 2);
    assert_eq!(val2.introspect_child(0).unwrap().key(), "x");
    assert_eq!(val2.introspect_child(0).unwrap().val().introspect_value(), "74");
    assert_eq!(val2.introspect_child(1).unwrap().key(), "y");
    assert_eq!(val2.introspect_child(1).unwrap().val().introspect_value(), "32");

    let val3 = SimpleEnum::VariantC;
    assert_eq!(val3.introspect_len(), 0);
    assert_eq!(val3.introspect_value(), "SimpleEnum::VariantC");
}

#[test]
pub fn do_test_silly_struct() {
    let test = SillyStruct {};
    assert_eq!(test.introspect_value(), "SillyStruct");
    assert_eq!(test.introspect_len(), 0);
}

#[test]
pub fn do_test1() {
    let test = SimpleStruct { item1: 342 };
    let x = (&test).introspect_value();
    assert_eq!(x, "SimpleStruct");
    assert_eq!(test.introspect_len(), 1);
    assert_eq!(test.introspect_child(0).unwrap().key(), "item1");
    assert_eq!(test.introspect_child(0).unwrap().val().introspect_value(), "342");
}

#[test]
pub fn func_to_do_stuff() {
    let os = OtherStruct(43, 32);
    assert_eq!(os.introspect_len(), 2);
    assert_eq!(os.introspect_child(0).unwrap().key(), "0");
    assert_eq!(os.introspect_child(0).unwrap().val().introspect_value(), "43");
    assert_eq!(os.introspect_child(1).unwrap().key(), "1");
    assert_eq!(os.introspect_child(1).unwrap().val().introspect_value(), "32");
}

#[test]
fn child_past_the_end_is_none() {
    let os = OtherStruct(43, 32);
    assert!(os.introspect_child(2).is_none());
    assert!(SillyStruct {}.introspect_child(0).is_none());
}

#[test]
fn nested_child_shows_its_own_text_and_length() {
    let comp = ComplexStruct {
        simple1: SimpleStruct { item1: 37 },
        simple2: SimpleStruct { item1: 38 },
        an_int: 4,
    };
    assert_eq!(comp.introspect_len(), 3);
    let c0 = comp.introspect_child(0).unwrap();
    assert_eq!(c0.key(), "simple1");
    assert_eq!(c0.val().introspect_value(), "SimpleStruct");
    assert_eq!(c0.val().introspect_len(), 1);
    let c2 = comp.introspect_child(2).unwrap();
    assert_eq!(c2.key(), "an_int");
    assert_eq!(c2.val().introspect_value(), "4");
    assert_eq!(c2.val().introspect_len(), 0);
}

#[test]
fn decimal_text_of_numbers() {
    assert_eq!(to_decimal(0), "0");
    assert_eq!(to_decimal(10), "10");
    assert_eq!(to_decimal(18446744073709551615), "18446744073709551615");
    assert_eq!(to_signed_decimal(-5), "-5");
    assert_eq!(to_signed_decimal(i64::MIN), "-9223372036854775808");
    assert_eq!((-128i8).introspect_value(), "-128");
}
