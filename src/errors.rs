//! The failure causes that reach the boundary: one union per collaborating
//! subsystem, and the union of them all. Payloads carry the context that a
//! cause was raised with; classification reads only the variant.
use vstd::prelude::*;

verus! {

/// An address of a peer device in the protocol.
#[derive(Debug, Clone)]
pub struct ProtocolAddress {
    pub name: String,
    pub device_id: u32,
}

/// Failures of the protocol engine.
#[derive(Debug, Clone)]
pub enum SignalProtocolError {
    InvalidArgument(String),
    InvalidState(String, String),
    InvalidProtobufEncoding,
    CiphertextMessageTooShort(usize),
    LegacyCiphertextVersion(u8),
    UnrecognizedCiphertextVersion(u8),
    UnrecognizedMessageVersion(u32),
    FingerprintVersionMismatch(u32, u32),
    FingerprintParsingError,
    NoKeyTypeIdentifier,
    BadKeyType(u8),
    BadKeyLength(u8, usize),
    BadKEMKeyType(u8),
    WrongKEMKeyType(u8, u8),
    BadKEMKeyLength(u8, usize),
    BadKEMCiphertextLength(u8, usize),
    SignatureValidationFailed,
    UntrustedIdentity(ProtocolAddress),
    InvalidPreKeyId,
    InvalidSignedPreKeyId,
    InvalidKyberPreKeyId,
    SessionNotFound(ProtocolAddress),
    InvalidSessionStructure(String),
    InvalidSenderKeySession { distribution_id: u128 },
    NoSenderKeyState { distribution_id: u128 },
    DuplicatedMessage(u32, u64),
    InvalidMessage(u8, String),
    InvalidRegistrationId(ProtocolAddress, u32),
    InvalidMacKeyLength(usize),
    UnknownSealedSenderVersion(u8),
    InvalidSealedSenderMessage(String),
    SealedSenderSelfSend,
    ApplicationCallbackError(String, String),
    FfiBindingError(String),
}

/// Failures of the attestation of a secure enclave.
#[derive(Debug, Clone)]
pub enum EnclaveError {
    AttestationError(String),
    NoiseError(String),
    NoiseHandshakeError(String),
    AttestationDataError { reason: String },
    InvalidBridgeStateError,
}

/// Failures of the channel to a hardware security module.
#[derive(Debug, Clone)]
pub enum HsmEnclaveError {
    HSMCommunicationError(String),
    HSMHandshakeError(String),
    TrustedCodeError,
    InvalidPublicKeyError,
    InvalidCodeHashError,
    InvalidBridgeStateError,
}

/// Failures of the transfer of an account between devices.
#[derive(Debug, Clone)]
pub enum DeviceTransferError {
    KeyDecodingFailed,
    InternalError(String),
}

/// Failures of the symmetric and asymmetric crypto primitives.
#[derive(Debug, Clone)]
pub enum SignalCryptoError {
    UnknownAlgorithm(String, String),
    InvalidKeySize,
    InvalidNonceSize,
    InvalidInputSize,
    InvalidTag,
}

/// Failures of the derivation of keys from a PIN.
#[derive(Debug, Clone)]
pub enum PinError {
    Argon2Error(String),
    DecodingError(String),
    MrenclaveLookupError,
}

/// Violations of the username syntax.
#[derive(Debug, Clone, Copy)]
pub enum UsernameError {
    NicknameCannotBeEmpty,
    NicknameCannotStartWithDigit,
    MissingSeparator,
    BadNicknameCharacter,
    NicknameTooShort,
    NicknameTooLong,
    DiscriminatorCannotBeEmpty,
    DiscriminatorCannotBeZero,
    DiscriminatorCannotBeSingleDigit,
    DiscriminatorCannotHaveLeadingZeros,
    BadDiscriminatorCharacter,
    DiscriminatorTooLarge,
}

/// Failures of the encoding and decoding of username links.
#[derive(Debug, Clone, Copy)]
pub enum UsernameLinkError {
    InputDataTooLong,
    InvalidEntropyDataLength,
    UsernameLinkDataTooShort,
    HmacMismatch,
    BadCiphertext,
    InvalidDecryptedDataStructure,
}

/// Failures of the secure value recovery service.
#[derive(Debug, Clone)]
pub enum Svr3Error {
    Net(String),
    Protocol(String),
    AttestationError(String),
    RestoreFailed(u32),
    DataMissing,
}

/// Failures of the parser of the MP4 media sanitizer.
#[derive(Debug, Clone)]
pub enum Mp4ParseError {
    InvalidBoxLayout { what: String },
    InvalidInput { what: String },
    MissingRequiredBox { name: String },
    TruncatedBox,
    UnsupportedBoxLayout { what: String },
    UnsupportedBox { name: String },
    UnsupportedFormat { name: String },
}

/// Failures of the parser of the WebP media sanitizer.
#[derive(Debug, Clone)]
pub enum WebpParseError {
    InvalidChunkLayout { what: String },
    InvalidInput { what: String },
    InvalidVp8lPrefixCode { what: String },
    MissingRequiredChunk { name: String },
    TruncatedChunk,
    UnsupportedChunk { name: String },
    UnsupportedVp8lVersion { version: u8 },
}

/// Every failure cause that can reach the boundary.
#[derive(Debug, Clone)]
pub enum SignalFfiError {
    Signal(SignalProtocolError),
    DeviceTransfer(DeviceTransferError),
    HsmEnclave(HsmEnclaveError),
    Sgx(EnclaveError),
    Pin(PinError),
    SignalCrypto(SignalCryptoError),
    ZkGroupVerificationFailure,
    ZkGroupDeserializationFailure(String),
    UsernameError(UsernameError),
    UsernameProofError,
    UsernameLinkError(UsernameLinkError),
    Io(String),
    Mp4SanitizeParse(Mp4ParseError),
    WebpSanitizeParse(WebpParseError),
    WebSocket(String),
    ConnectionTimedOut,
    ConnectionFailed,
    ChatServiceInactive,
    AppExpired,
    DeviceDeregistered,
    NetworkProtocol(String),
    CdsiInvalidToken,
    RateLimited { retry_after_seconds: u32 },
    Svr(Svr3Error),
    NullPointer,
    InvalidHandle,
    InvalidUtf8String,
    IntegerOverflow(i64),
    InvalidArgument(String),
    InternalError(String),
    UnexpectedPanic(String),
    Cancelled,
}

} // verus!
