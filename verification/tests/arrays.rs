use savefile::samples::arrays::LongArray;
use savefile::save::{assert_roundtrip, bare_serialize, roundtrip};

#[test]
pub fn test_short_arrays() {
    let empty: [u32; 0] = [];
    assert_roundtrip(empty);
    assert_roundtrip([1]);
    assert_roundtrip([1, 2]);
    assert_roundtrip([1, 2, 3]);
}

#[test]
pub fn test_short_array_with_drop_contents() {
    let empty: [String; 0] = [];
    assert_roundtrip(empty);
    assert_roundtrip(["Hej".to_string(), "Hello".to_string()]);
}

#[test]
pub fn test_short_array_with_drop_contents_leak_test() {
    let mut i = 0;
    loop {
        let test = [format!("Test {}", i), format!("Other {}", i)];
        assert_roundtrip(test);
        i += 1;
        if i > 23 {
            break;
        }
    }
}

#[test]
pub fn test_long_array() {
    let arr = [47; 32];
    assert_roundtrip(arr);
}

#[test]
pub fn test_very_long_array() {
    let arr = LongArray([47; 1000]);
    assert_roundtrip(arr);
}

#[test]
fn arrays_are_written_without_a_count() {
    assert_eq!(bare_serialize(0, &[1u16, 2, 3]).unwrap(), vec![1, 0, 2, 0, 3, 0]);
    assert_eq!(bare_serialize(0, &[0u8; 0]).unwrap(), Vec::<u8>::new());
    assert_eq!(roundtrip(["a".to_string(), "bc".to_string()]), ["a".to_string(), "bc".to_string()]);
}
