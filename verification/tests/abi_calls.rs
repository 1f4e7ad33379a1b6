use savefile::abi::connection::AbiConnection;
use savefile::interfaces::adder::{call_add, AdderImplementation};
use savefile::interfaces::adder_types::MyStuff;
use savefile::interfaces::arguments::{ArgInterfaceV2, Implementation1, Implementation2};
use savefile::interfaces::calls::{FortyTwoConstructor, TestInterfaceImpl};
use savefile::interfaces::enum_types::AbiSimpleEnum;
use savefile::interfaces::enums::Implementation as EnumImplementation;
use savefile::interfaces::reordered::{Implementation1 as ReorderedV1, Implementation2 as ReorderedV2};
use savefile::interfaces::v1_types::{Argument, EnumArgument};
use savefile::interfaces::v2_types::{ArgArgument, EnumArgument as EnumArgumentV2};
use savefile::save::{bare_deserialize, bare_serialize};
use savefile::schema::with_schema::get_schema;
use savefile::versioning::AbiRemoved;

#[test]
fn test_calling_function_that_is_later_removed() {
    let boxed = Box::new(Implementation1 {});
    let conn = AbiConnection::from_boxed_trait(boxed).unwrap();
    conn.call_method::<(), ()>(2, &()).unwrap();
}

#[test]
fn test_calling_function_that_is_added_in_later_version() {
    let boxed = Box::new(Implementation2 {});
    let conn = AbiConnection::from_boxed_trait(boxed).unwrap();
    conn.call_method::<(), ()>(2, &()).unwrap();
}

#[test]
fn argument_backward_compatibility_test_caller_has_older_version() {
    let iface2 = Implementation2 {};
    assert_eq!(
        iface2.sums(
            ArgArgument { data2: 3, data3: 2, data1: AbiRemoved::new() },
            ArgArgument { data2: 3, data3: 2, data1: AbiRemoved::new() }
        ),
        10
    );
    let conn1 = AbiConnection::<Implementation1, Implementation2>::from_boxed_trait_for_test(Box::new(iface2)).unwrap();
    let s: u32 = conn1
        .call_method(0, &(Argument { data1: 2, data2: 3 }, Argument { data1: 4, data2: 5 }))
        .unwrap();
    assert_eq!(s, 8);
    let e: String = conn1.call_method(1, &EnumArgument::Variant1).unwrap();
    assert_eq!(e, "Variant1".to_string());
}

#[test]
fn argument_backward_compatibility_test_caller_has_newer_version() {
    let conn1 =
        AbiConnection::<Implementation2, Implementation1>::from_boxed_trait_for_test(Box::new(Implementation1 {}))
            .unwrap();
    let s: u32 = conn1
        .call_method(
            0,
            &(
                ArgArgument { data1: AbiRemoved::new(), data2: 1, data3: 2 },
                ArgArgument { data1: AbiRemoved::new(), data2: 3, data3: 4 },
            ),
        )
        .unwrap();
    assert_eq!(s, 4);
    let e: String = conn1.call_method(1, &EnumArgumentV2::Variant1).unwrap();
    assert_eq!(e, "Variant1".to_string());
}

#[test]
fn test_arg_argument_metadata() {
    let schema = get_schema::<ArgArgument>(0);
    assert!(!schema.layout_compatible(&schema));
}

#[test]
fn test_abi_removed() {
    let removed: AbiRemoved<u32> = AbiRemoved::new();
    let data = bare_serialize(0, &removed).unwrap();
    let roundtripped: u32 = bare_deserialize(&data, 0).unwrap();
    assert_eq!(roundtripped, 0);
}

#[test]
fn test_abi_removed_with_custom_default() {
    let removed: AbiRemoved<u32, FortyTwoConstructor> = AbiRemoved::<u32, FortyTwoConstructor>::new();
    let data = bare_serialize(0, &removed).unwrap();
    let roundtripped: u32 = bare_deserialize(&data, 0).unwrap();
    assert_eq!(roundtripped, 42);
}

#[test]
fn test_zero_sized_arg() {
    let conn = AbiConnection::from_boxed_trait(Box::new(TestInterfaceImpl {})).unwrap();
    conn.call_method::<(), ()>(5, &()).unwrap();
}

#[test]
fn test_slices() {
    let conn = AbiConnection::from_boxed_trait(Box::new(TestInterfaceImpl {})).unwrap();
    let t: Vec<u32> = conn.call_method(1, &(vec![1u32, 2, 3], vec![1u32, 2, 3])).unwrap();
    assert_eq!(t, vec![2, 4, 6]);
    let t: Vec<String> = conn.call_method(2, &(vec!["hello ".to_string()], vec!["world".to_string()])).unwrap();
    assert_eq!(t, vec!["hello world"]);
}

#[test]
fn test_big_slices() {
    let conn = AbiConnection::from_boxed_trait(Box::new(TestInterfaceImpl {})).unwrap();
    let a = vec![1u32; 10000];
    let b = vec![1u32; 10000];
    let t: Vec<u32> = conn.call_method(1, &(a, b)).unwrap();
    assert_eq!(t.len(), 10000);
    for x in t {
        assert_eq!(x, 2);
    }
}

#[test]
fn basic_calls_through_a_connection() {
    let conn = AbiConnection::from_boxed_trait(Box::new(TestInterfaceImpl {})).unwrap();
    let r: (u32,) = conn.call_method(7, &((1u32,), (2u32,))).unwrap();
    assert_eq!(r, (3,));
    let r: (u32, u32) = conn.call_method(8, &((1u32, 1u32), (2u32, 2u32))).unwrap();
    assert_eq!(r, (3, 3));
    let r: (u32, u32, u32) = conn.call_method(9, &((1u32, 1u32, 1u32), (2u32, 2u32, 2u32))).unwrap();
    assert_eq!(r, (3, 3, 3));
    let r: Box<u32> = conn.call_method(10, &Box::new(42u32)).unwrap();
    assert_eq!(r, Box::new(42u32));
    let r: String = conn.call_method(11, &()).unwrap();
    assert_eq!(r, "hello");
    let r: usize = conn.call_method(4, &"hejsan".to_string()).unwrap();
    assert_eq!(r, 6);
    assert!(conn.get_arg_passable_by_ref("count_chars", 0));
    let r: String = conn.call_method(12, &()).unwrap();
    assert_eq!(r, "hello world");
    let r: u32 = conn.call_method(3, &42u32).unwrap();
    assert_eq!(r, 42);
    assert!(conn.get_arg_passable_by_ref("deref_u32", 0));
}

#[test]
fn a_panicking_method_comes_back_as_an_error() {
    let conn = AbiConnection::from_boxed_trait(Box::new(TestInterfaceImpl {})).unwrap();
    let r: Result<(), _> = conn.call_method(13, &());
    match r {
        Err(savefile::error::SavefileError::CalleePanic { msg }) => {
            assert_eq!(msg, "TestInterface was asked to panic")
        }
        _ => panic!("expected a panic message"),
    }
    let r: Result<u32, _> = conn.call_method(6, &(u32::MAX, 1u32));
    assert!(matches!(r, Err(savefile::error::SavefileError::CalleePanic { .. })));
}

#[test]
fn test_simple_enum_owned() {
    let conn = AbiConnection::from_boxed_trait(Box::new(EnumImplementation {})).unwrap();
    let r: u32 = conn
        .call_method(1, &AbiSimpleEnum::Variant2(42, "hej".into(), "då".into(), "osv".into()))
        .unwrap();
    assert_eq!(r, 42);
}

#[test]
fn test_simple_enum_ref() {
    let conn = AbiConnection::from_boxed_trait(Box::new(EnumImplementation {})).unwrap();
    let r: u32 = conn
        .call_method(0, &AbiSimpleEnum::Variant2(42, "hej".into(), "då".into(), "osv".into()))
        .unwrap();
    assert_eq!(r, 42);
    let zero: Vec<()> = vec![];
    let r: u32 = conn.call_method(0, &AbiSimpleEnum::Variant3(vec![1, 2, 3], zero)).unwrap();
    assert_eq!(r, 1);
}

#[test]
fn test_different_trait_definitions_test_caller_has_older_version() {
    let conn1 = AbiConnection::<ReorderedV1, ReorderedV2>::from_boxed_trait_for_test(Box::new(ReorderedV2 {})).unwrap();
    let a: u32 = conn1.call_method(1, &(2u32, 3u32)).unwrap();
    assert_eq!(a, 5);
    let m: u32 = conn1.call_method(2, &(2u32, 3u32)).unwrap();
    assert_eq!(m, 6);
    assert!(conn1.template.methods[0].callee_method_number.is_none());
}

#[test]
fn test_different_trait_definitions_test_caller_has_newer_version() {
    let conn1 = AbiConnection::<ReorderedV2, ReorderedV1>::from_boxed_trait_for_test(Box::new(ReorderedV1 {})).unwrap();
    let a: u32 = conn1.call_method(3, &(2u32, 3u32)).unwrap();
    assert_eq!(a, 5);
    let m: u32 = conn1.call_method(2, &(2u32, 3u32)).unwrap();
    assert_eq!(m, 6);
    assert!(conn1.template.methods[0].callee_method_number.is_none());
    assert!(conn1.template.methods[1].callee_method_number.is_none());
}

#[test]
fn call_add_adds_through_the_connection() {
    let conn = AbiConnection::from_boxed_trait(Box::new(AdderImplementation::default())).unwrap();
    assert_eq!(call_add(&conn, 1, 2).unwrap(), 3);
    assert!(call_add(&conn, u32::MAX, 1).is_err());
}

#[test]
fn add_with_a_block_of_numbers() {
    let conn = AbiConnection::from_boxed_trait(Box::new(AdderImplementation::default())).unwrap();
    let stuff = Box::new(MyStuff { x: 43, y: [0; 10000] });
    let res: u32 = conn.call_method(0, &((1u32, 2u32), *stuff)).unwrap();
    assert_eq!(res, 1 + 2 + 43);
    assert_eq!(call_add(&conn, 1, 2).unwrap(), 3);
}
