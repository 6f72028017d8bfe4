use signal_bridge::error_code::SignalErrorCode;
use signal_bridge::errors::{ProtocolAddress, SignalFfiError};
use signal_bridge::handle::HandleRegistry;

#[test]
fn box_then_cast_gives_the_value_back() {
    let mut registry: HandleRegistry<ProtocolAddress> = HandleRegistry::new(1);
    let a = registry.box_object(ProtocolAddress { name: "alice".to_string(), device_id: 1 });
    let b = registry.box_object(ProtocolAddress { name: "bob".to_string(), device_id: 2 });
    assert_eq!(a, 4294967297);
    assert_eq!(b, 4294967298);
    assert_eq!(registry.kind(), 1);
    assert_eq!(registry.issued(), 2);
    let found = registry.cast(a).unwrap();
    assert_eq!(found.name, "alice");
    assert_eq!(found.device_id, 1);
    assert_eq!(registry.cast(b).unwrap().name, "bob");
}

#[test]
fn null_token_fails_with_null_parameter() {
    let registry: HandleRegistry<u32> = HandleRegistry::new(2);
    let err = registry.cast(0).unwrap_err();
    assert!(matches!(err, SignalFfiError::NullPointer));
    assert_eq!(SignalErrorCode::from(&err).code(), 4);
}

#[test]
fn destroyed_token_fails_cleanly() {
    let mut registry: HandleRegistry<u32> = HandleRegistry::new(2);
    let h = registry.box_object(77);
    assert_eq!(registry.destroy(h).unwrap(), 77);
    let err = registry.cast(h).unwrap_err();
    assert!(matches!(err, SignalFfiError::InvalidHandle));
    assert_eq!(SignalErrorCode::from(&err).code(), 4);
    assert!(matches!(registry.destroy(h), Err(SignalFfiError::InvalidHandle)));
    let h2 = registry.box_object(78);
    assert_ne!(h2, h);
    assert_eq!(*registry.cast(h2).unwrap(), 78);
}

#[test]
fn unknown_tokens_fail() {
    let mut registry: HandleRegistry<u32> = HandleRegistry::new(2);
    registry.box_object(5);
    assert!(matches!(registry.cast(8589934594), Err(SignalFfiError::InvalidHandle)));
    assert!(matches!(registry.cast(-3), Err(SignalFfiError::InvalidHandle)));
    assert!(matches!(registry.destroy(0), Err(SignalFfiError::NullPointer)));
    assert!(matches!(registry.cast(1), Err(SignalFfiError::InvalidHandle)));
    assert_eq!(*registry.cast(8589934593).unwrap(), 5);
}

#[test]
fn token_of_another_type_fails() {
    let mut addresses: HandleRegistry<ProtocolAddress> = HandleRegistry::new(1);
    let mut numbers: HandleRegistry<u32> = HandleRegistry::new(2);
    let a = addresses.box_object(ProtocolAddress { name: "alice".to_string(), device_id: 1 });
    let n = numbers.box_object(9);
    let err = numbers.cast(a).unwrap_err();
    assert!(matches!(err, SignalFfiError::InvalidHandle));
    assert_eq!(SignalErrorCode::from(&err).code(), 4);
    assert!(matches!(addresses.cast(n), Err(SignalFfiError::InvalidHandle)));
    assert!(matches!(numbers.destroy(a), Err(SignalFfiError::InvalidHandle)));
    assert_eq!(*numbers.cast(n).unwrap(), 9);
    assert_eq!(addresses.cast(a).unwrap().name, "alice");
}
