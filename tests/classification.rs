use signal_bridge::error_code::SignalErrorCode;
use signal_bridge::errors::{
    DeviceTransferError, EnclaveError, HsmEnclaveError, Mp4ParseError, PinError, ProtocolAddress,
    SignalCryptoError, SignalFfiError, SignalProtocolError, Svr3Error, UsernameError,
    UsernameLinkError, WebpParseError,
};

fn address() -> ProtocolAddress {
    ProtocolAddress { name: "+14155550100".to_string(), device_id: 1 }
}

fn code_of(err: SignalFfiError) -> u32 {
    SignalErrorCode::from(&err).code()
}

#[test]
fn session_not_found_gives_code_80() {
    let err = SignalFfiError::Signal(SignalProtocolError::SessionNotFound(address()));
    assert_eq!(SignalErrorCode::from(&err), SignalErrorCode::SessionNotFound);
    assert_eq!(code_of(err), 80);
}

#[test]
fn duplicated_message_gives_code_90() {
    let err = SignalFfiError::Signal(SignalProtocolError::DuplicatedMessage(3, 7));
    assert_eq!(SignalErrorCode::from(&err), SignalErrorCode::DuplicatedMessage);
    assert_eq!(code_of(err), 90);
}

#[test]
fn classification_is_deterministic() {
    let a = SignalFfiError::Signal(SignalProtocolError::BadKeyLength(5, 31));
    let b = a.clone();
    assert_eq!(SignalErrorCode::from(&a), SignalErrorCode::from(&b));
    assert_eq!(SignalErrorCode::from(&a), SignalErrorCode::InvalidKey);
}

#[test]
fn grouped_causes_share_one_code() {
    assert_eq!(code_of(SignalFfiError::Signal(SignalProtocolError::CiphertextMessageTooShort(4))), 30);
    assert_eq!(code_of(SignalFfiError::SignalCrypto(SignalCryptoError::InvalidTag)), 30);
    assert_eq!(code_of(SignalFfiError::Sgx(EnclaveError::NoiseError("x".to_string()))), 30);
    assert_eq!(code_of(SignalFfiError::HsmEnclave(HsmEnclaveError::HSMHandshakeError("x".to_string()))), 30);
    assert_eq!(code_of(SignalFfiError::DeviceTransfer(DeviceTransferError::KeyDecodingFailed)), 40);
    assert_eq!(code_of(SignalFfiError::HsmEnclave(HsmEnclaveError::InvalidPublicKeyError)), 40);
    assert_eq!(code_of(SignalFfiError::SignalCrypto(SignalCryptoError::InvalidKeySize)), 40);
    assert_eq!(code_of(SignalFfiError::SignalCrypto(SignalCryptoError::InvalidNonceSize)), 5);
    assert_eq!(code_of(SignalFfiError::Pin(PinError::MrenclaveLookupError)), 5);
}

#[test]
fn internal_faults_get_the_internal_code() {
    assert_eq!(code_of(SignalFfiError::UnexpectedPanic("boom".to_string())), 3);
    assert_eq!(code_of(SignalFfiError::InternalError("bad".to_string())), 3);
    assert_eq!(code_of(SignalFfiError::DeviceTransfer(DeviceTransferError::InternalError("x".to_string()))), 3);
    assert_eq!(code_of(SignalFfiError::Signal(SignalProtocolError::FfiBindingError("x".to_string()))), 3);
}

#[test]
fn protocol_state_codes() {
    assert_eq!(code_of(SignalFfiError::Signal(SignalProtocolError::NoSenderKeyState { distribution_id: 9 })), 80);
    assert_eq!(code_of(SignalFfiError::Signal(SignalProtocolError::InvalidRegistrationId(address(), 2))), 81);
    assert_eq!(code_of(SignalFfiError::Signal(SignalProtocolError::InvalidSessionStructure("s".to_string()))), 82);
    assert_eq!(code_of(SignalFfiError::Signal(SignalProtocolError::InvalidSenderKeySession { distribution_id: 1 })), 83);
    assert_eq!(code_of(SignalFfiError::Signal(SignalProtocolError::UntrustedIdentity(address()))), 60);
    assert_eq!(code_of(SignalFfiError::HsmEnclave(HsmEnclaveError::TrustedCodeError)), 60);
    assert_eq!(code_of(SignalFfiError::Signal(SignalProtocolError::InvalidKyberPreKeyId)), 70);
    assert_eq!(code_of(SignalFfiError::Signal(SignalProtocolError::LegacyCiphertextVersion(2))), 21);
    assert_eq!(code_of(SignalFfiError::Signal(SignalProtocolError::UnrecognizedCiphertextVersion(9))), 22);
    assert_eq!(code_of(SignalFfiError::Signal(SignalProtocolError::UnknownSealedSenderVersion(9))), 23);
    assert_eq!(code_of(SignalFfiError::Signal(SignalProtocolError::FingerprintVersionMismatch(1, 2))), 51);
    assert_eq!(code_of(SignalFfiError::Signal(SignalProtocolError::FingerprintParsingError)), 52);
    assert_eq!(code_of(SignalFfiError::Signal(SignalProtocolError::ApplicationCallbackError("cb".to_string(), "e".to_string()))), 100);
    assert_eq!(code_of(SignalFfiError::Signal(SignalProtocolError::SealedSenderSelfSend)), 31);
    assert_eq!(code_of(SignalFfiError::Signal(SignalProtocolError::SignatureValidationFailed)), 41);
    assert_eq!(code_of(SignalFfiError::Signal(SignalProtocolError::InvalidProtobufEncoding)), 10);
    assert_eq!(code_of(SignalFfiError::Sgx(EnclaveError::AttestationDataError { reason: "r".to_string() })), 42);
    assert_eq!(code_of(SignalFfiError::Sgx(EnclaveError::InvalidBridgeStateError)), 2);
}

#[test]
fn username_codes() {
    assert_eq!(code_of(SignalFfiError::UsernameError(UsernameError::NicknameCannotBeEmpty)), 120);
    assert_eq!(code_of(SignalFfiError::UsernameError(UsernameError::BadDiscriminatorCharacter)), 123);
    assert_eq!(code_of(SignalFfiError::UsernameError(UsernameError::NicknameTooLong)), 126);
    assert_eq!(code_of(SignalFfiError::UsernameLinkError(UsernameLinkError::InputDataTooLong)), 126);
    assert_eq!(code_of(SignalFfiError::UsernameLinkError(UsernameLinkError::InvalidEntropyDataLength)), 127);
    assert_eq!(code_of(SignalFfiError::UsernameLinkError(UsernameLinkError::HmacMismatch)), 128);
    assert_eq!(code_of(SignalFfiError::UsernameError(UsernameError::DiscriminatorTooLarge)), 144);
    assert_eq!(code_of(SignalFfiError::UsernameProofError), 110);
    assert_eq!(code_of(SignalFfiError::ZkGroupVerificationFailure), 110);
    assert_eq!(code_of(SignalFfiError::ZkGroupDeserializationFailure("z".to_string())), 6);
}

#[test]
fn transport_and_service_codes() {
    assert_eq!(code_of(SignalFfiError::Io("disk".to_string())), 130);
    assert_eq!(code_of(SignalFfiError::ConnectionTimedOut), 133);
    assert_eq!(code_of(SignalFfiError::RateLimited { retry_after_seconds: 30 }), 135);
    assert_eq!(code_of(SignalFfiError::ChatServiceInactive), 139);
    assert_eq!(code_of(SignalFfiError::Svr(Svr3Error::DataMissing)), 150);
    assert_eq!(code_of(SignalFfiError::Svr(Svr3Error::RestoreFailed(2))), 151);
    assert_eq!(code_of(SignalFfiError::Svr(Svr3Error::Protocol("p".to_string()))), 1);
    assert_eq!(code_of(SignalFfiError::AppExpired), 160);
    assert_eq!(code_of(SignalFfiError::DeviceDeregistered), 161);
    assert_eq!(code_of(SignalFfiError::Cancelled), 8);
}

#[test]
fn media_parse_codes() {
    assert_eq!(code_of(SignalFfiError::Mp4SanitizeParse(Mp4ParseError::TruncatedBox)), 131);
    assert_eq!(code_of(SignalFfiError::Mp4SanitizeParse(Mp4ParseError::UnsupportedFormat { name: "f".to_string() })), 132);
    assert_eq!(code_of(SignalFfiError::WebpSanitizeParse(WebpParseError::InvalidVp8lPrefixCode { what: "w".to_string() })), 131);
    assert_eq!(code_of(SignalFfiError::WebpSanitizeParse(WebpParseError::UnsupportedVp8lVersion { version: 3 })), 132);
}

#[test]
fn every_number_reads_back_to_its_code() {
    let mut found = 0;
    for n in 0u32..200 {
        if let Some(c) = SignalErrorCode::from_code(n) {
            assert_eq!(c.code(), n);
            found += 1;
        }
    }
    assert_eq!(found, 56);
    assert_eq!(SignalErrorCode::from_code(0), None);
    assert_eq!(SignalErrorCode::from_code(9), None);
    assert_eq!(SignalErrorCode::from_code(131), Some(SignalErrorCode::InvalidMediaInput));
}
