use signal_bridge::convert::{
    java_string_convert_from, outcome_for_host, string_from_decoded, ArgTypeInfo, RefArgTypeInfo, ResultTypeInfo,
    HOST_FALSE, HOST_TRUE,
};
use signal_bridge::error_code::SignalErrorCode;
use signal_bridge::errors::{SignalFfiError, SignalProtocolError};

#[test]
fn non_negative_integer_converts_unchanged() {
    assert_eq!(<u32 as ArgTypeInfo>::convert_from(0).unwrap(), 0);
    assert_eq!(<u32 as ArgTypeInfo>::convert_from(42).unwrap(), 42);
    assert_eq!(<u32 as ArgTypeInfo>::convert_from(i32::MAX).unwrap(), 2147483647);
}

#[test]
fn negative_integer_is_out_of_range() {
    let err = <u32 as ArgTypeInfo>::convert_from(-1).unwrap_err();
    assert!(matches!(err, SignalFfiError::IntegerOverflow(-1)));
    assert_eq!(SignalErrorCode::from(&err), SignalErrorCode::InvalidArgument);
    assert_eq!(SignalErrorCode::from(&err).code(), 5);
    let err = <u32 as ArgTypeInfo>::convert_from(i32::MIN).unwrap_err();
    assert!(matches!(err, SignalFfiError::IntegerOverflow(v) if v == i32::MIN as i64));
}

#[test]
fn signed_integer_passes_through() {
    assert_eq!(<i32 as ArgTypeInfo>::convert_from(-7).unwrap(), -7);
    assert_eq!((-7i32).convert_into().unwrap(), -7);
}

#[test]
fn well_formed_string_converts() {
    let s = <String as ArgTypeInfo>::convert_from("héllo".as_bytes().to_vec()).unwrap();
    assert_eq!(s, "héllo");
    assert_eq!(<String as ArgTypeInfo>::convert_from(Vec::new()).unwrap(), "");
}

#[test]
fn malformed_string_fails_with_encoding_code() {
    let err = <String as ArgTypeInfo>::convert_from(vec![0x66, 0xff, 0x6f]).unwrap_err();
    assert!(matches!(err, SignalFfiError::InvalidUtf8String));
    assert_eq!(SignalErrorCode::from(&err).code(), 7);
    assert!(<String as ArgTypeInfo>::convert_from(vec![0xc3]).is_err());
}

#[test]
fn byte_sequence_round_trip() {
    let input: Vec<u8> = vec![0, 1, 2, 254, 255];
    let out = <&[u8] as RefArgTypeInfo>::convert_from(input.as_slice()).unwrap();
    assert_eq!(out.len(), 5);
    assert_eq!(out, input);
}

#[test]
fn empty_byte_sequence_gives_empty_buffer() {
    let empty: &[u8] = &[];
    let out = <&[u8] as RefArgTypeInfo>::convert_from(empty).unwrap();
    assert!(out.is_empty());
}

#[test]
fn booleans_use_host_convention() {
    assert_eq!(true.convert_into().unwrap(), HOST_TRUE);
    assert_eq!(false.convert_into().unwrap(), HOST_FALSE);
    assert_eq!(HOST_TRUE, 1);
    assert_eq!(HOST_FALSE, 0);
}

#[test]
fn protocol_result_converts_value_or_classifies_failure() {
    let ok: Result<bool, SignalProtocolError> = Ok(true);
    assert_eq!(ok.convert_into().unwrap(), 1);
    let failed: Result<bool, SignalProtocolError> = Err(SignalProtocolError::DuplicatedMessage(1, 2));
    let converted = failed.convert_into();
    assert!(matches!(converted, Err(SignalFfiError::Signal(SignalProtocolError::DuplicatedMessage(1, 2)))));
    assert_eq!(outcome_for_host(converted), Err(SignalErrorCode::DuplicatedMessage));
    assert_eq!(outcome_for_host::<u32>(Ok(5)), Ok(5));
}

#[test]
fn java_modified_utf8_decodes() {
    assert_eq!(java_string_convert_from("aé日".as_bytes()).unwrap(), "aé日");
    let pair: &[u8] = &[0xED, 0xA0, 0x81, 0xED, 0xB0, 0x81];
    assert_eq!(java_string_convert_from(pair).unwrap(), "\u{10401}");
    let nuls: &[u8] = &[0xC0, 0x80, 0xC0, 0x80];
    assert_eq!(java_string_convert_from(nuls).unwrap(), "\0\0");
    assert_eq!(java_string_convert_from(&[]).unwrap(), "");
}

#[test]
fn malformed_java_string_fails_with_encoding_code() {
    let err = java_string_convert_from(&[0x61, 0xff]).unwrap_err();
    assert!(matches!(err, SignalFfiError::InvalidUtf8String));
    assert_eq!(SignalErrorCode::from(&err).code(), 7);
    assert!(matches!(string_from_decoded(None), Err(SignalFfiError::InvalidUtf8String)));
    assert_eq!(string_from_decoded(Some("ok".to_string())).unwrap(), "ok");
}
