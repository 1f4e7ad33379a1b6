use savefile::samples::small::Example;
use savefile::save::assert_roundtrip;

#[test]
fn lib_test() {}

#[test]
fn example_enum_roundtrips() {
    assert_roundtrip(Example::A(1, 2));
    assert_roundtrip(Example::B { a: 3, b: 4, c: 5 });
}
