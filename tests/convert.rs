use future_bridge::convert::{
    bytes_convert_from, c_string_bytes, string_convert_from, write_to, FfiError, OutPointer,
};

#[test]
fn null_buffer() {
    assert_eq!(bytes_convert_from(&None, 0), Ok(vec![]));
    assert_eq!(bytes_convert_from(&None, 3), Err(FfiError::NullPointer));
}

#[test]
fn buffer_takes_length_bytes() {
    assert_eq!(bytes_convert_from(&Some(vec![1, 2, 3, 4]), 2), Ok(vec![1, 2]));
    assert_eq!(bytes_convert_from(&Some(vec![1, 2]), 0), Ok(vec![]));
}

#[test]
fn c_string_stops_at_nul() {
    assert_eq!(c_string_bytes(&vec![104, 105, 0, 120, 0]), vec![104, 105]);
    assert_eq!(c_string_bytes(&vec![0]), Vec::<u8>::new());
}

#[test]
fn string_conversion() {
    assert_eq!(string_convert_from(&None), Err(FfiError::NullPointer));
    let mut bytes = "héllo".as_bytes().to_vec();
    bytes.push(0);
    bytes.push(255);
    assert_eq!(string_convert_from(&Some(bytes)), Ok("héllo".to_string()));
    assert_eq!(string_convert_from(&Some(vec![0])), Ok(String::new()));
    assert_eq!(string_convert_from(&Some(vec![0xff, 0xfe, 0])), Err(FfiError::InvalidUtf8String));
}

#[test]
fn write_through_pointer() {
    let mut null: OutPointer<u32> = OutPointer { target: None };
    assert_eq!(write_to(&mut null, 4), Err(FfiError::NullPointer));
    assert!(null.target.is_none());
    let mut p: OutPointer<u32> = OutPointer { target: Some(None) };
    assert_eq!(write_to(&mut p, 4), Ok(()));
    assert_eq!(p.target, Some(Some(4)));
}
