//! Classification of every failure cause into exactly one error code.
//!
//! The rules are stated per subsystem as spec functions; the executable
//! classifier is proved to follow them, and `match` exhaustiveness makes a new
//! variant without a rule a build failure.
use vstd::prelude::*;
use crate::error_code::{category_of_value, SignalErrorCode};
use crate::errors::{
    DeviceTransferError, EnclaveError, HsmEnclaveError, Mp4ParseError, PinError, SignalCryptoError,
    SignalFfiError, SignalProtocolError, Svr3Error, UsernameError, UsernameLinkError, WebpParseError,
};

verus! {

/// The code for a failure of the protocol engine.
pub open spec fn protocol_error_code(e: SignalProtocolError) -> SignalErrorCode {
    match e {
        SignalProtocolError::InvalidArgument(..) => SignalErrorCode::InvalidArgument,
        SignalProtocolError::InvalidState(..) => SignalErrorCode::InvalidState,
        SignalProtocolError::InvalidProtobufEncoding => SignalErrorCode::ProtobufError,
        SignalProtocolError::CiphertextMessageTooShort(..) => SignalErrorCode::InvalidMessage,
        SignalProtocolError::LegacyCiphertextVersion(..) => SignalErrorCode::LegacyCiphertextVersion,
        SignalProtocolError::UnrecognizedCiphertextVersion(..) => SignalErrorCode::UnknownCiphertextVersion,
        SignalProtocolError::UnrecognizedMessageVersion(..) => SignalErrorCode::UnrecognizedMessageVersion,
        SignalProtocolError::FingerprintVersionMismatch(..) => SignalErrorCode::FingerprintVersionMismatch,
        SignalProtocolError::FingerprintParsingError => SignalErrorCode::FingerprintParsingError,
        SignalProtocolError::NoKeyTypeIdentifier => SignalErrorCode::InvalidKey,
        SignalProtocolError::BadKeyType(..) => SignalErrorCode::InvalidKey,
        SignalProtocolError::BadKeyLength(..) => SignalErrorCode::InvalidKey,
        SignalProtocolError::BadKEMKeyType(..) => SignalErrorCode::InvalidKey,
        SignalProtocolError::WrongKEMKeyType(..) => SignalErrorCode::InvalidKey,
        SignalProtocolError::BadKEMKeyLength(..) => SignalErrorCode::InvalidKey,
        SignalProtocolError::BadKEMCiphertextLength(..) => SignalErrorCode::InvalidMessage,
        SignalProtocolError::SignatureValidationFailed => SignalErrorCode::InvalidSignature,
        SignalProtocolError::UntrustedIdentity(..) => SignalErrorCode::UntrustedIdentity,
        SignalProtocolError::InvalidPreKeyId => SignalErrorCode::InvalidKeyIdentifier,
        SignalProtocolError::InvalidSignedPreKeyId => SignalErrorCode::InvalidKeyIdentifier,
        SignalProtocolError::InvalidKyberPreKeyId => SignalErrorCode::InvalidKeyIdentifier,
        SignalProtocolError::SessionNotFound(..) => SignalErrorCode::SessionNotFound,
        SignalProtocolError::InvalidSessionStructure(..) => SignalErrorCode::InvalidSession,
        SignalProtocolError::InvalidSenderKeySession { .. } => SignalErrorCode::InvalidSenderKeySession,
        SignalProtocolError::NoSenderKeyState { .. } => SignalErrorCode::SessionNotFound,
        SignalProtocolError::DuplicatedMessage(..) => SignalErrorCode::DuplicatedMessage,
        SignalProtocolError::InvalidMessage(..) => SignalErrorCode::InvalidMessage,
        SignalProtocolError::InvalidRegistrationId(..) => SignalErrorCode::InvalidRegistrationId,
        SignalProtocolError::InvalidMacKeyLength(..) => SignalErrorCode::InvalidKey,
        SignalProtocolError::UnknownSealedSenderVersion(..) => SignalErrorCode::UnrecognizedMessageVersion,
        SignalProtocolError::InvalidSealedSenderMessage(..) => SignalErrorCode::InvalidMessage,
        SignalProtocolError::SealedSenderSelfSend => SignalErrorCode::SealedSenderSelfSend,
        SignalProtocolError::ApplicationCallbackError(..) => SignalErrorCode::CallbackError,
        SignalProtocolError::FfiBindingError(..) => SignalErrorCode::InternalError,
    }
}

/// The code for a failure of enclave attestation.
pub open spec fn enclave_error_code(e: EnclaveError) -> SignalErrorCode {
    match e {
        EnclaveError::AttestationError(..) => SignalErrorCode::InvalidMessage,
        EnclaveError::NoiseError(..) => SignalErrorCode::InvalidMessage,
        EnclaveError::NoiseHandshakeError(..) => SignalErrorCode::InvalidMessage,
        EnclaveError::AttestationDataError { .. } => SignalErrorCode::InvalidAttestationData,
        EnclaveError::InvalidBridgeStateError => SignalErrorCode::InvalidState,
    }
}

/// The code for a failure of the hardware security module channel.
pub open spec fn hsm_enclave_error_code(e: HsmEnclaveError) -> SignalErrorCode {
    match e {
        HsmEnclaveError::HSMCommunicationError(..) => SignalErrorCode::InvalidMessage,
        HsmEnclaveError::HSMHandshakeError(..) => SignalErrorCode::InvalidMessage,
        HsmEnclaveError::TrustedCodeError => SignalErrorCode::UntrustedIdentity,
        HsmEnclaveError::InvalidPublicKeyError => SignalErrorCode::InvalidKey,
        HsmEnclaveError::InvalidCodeHashError => SignalErrorCode::InvalidArgument,
        HsmEnclaveError::InvalidBridgeStateError => SignalErrorCode::InvalidState,
    }
}

/// The code for a failure of device transfer.
pub open spec fn device_transfer_error_code(e: DeviceTransferError) -> SignalErrorCode {
    match e {
        DeviceTransferError::KeyDecodingFailed => SignalErrorCode::InvalidKey,
        DeviceTransferError::InternalError(..) => SignalErrorCode::InternalError,
    }
}

/// The code for a failure of the crypto primitives.
pub open spec fn crypto_error_code(e: SignalCryptoError) -> SignalErrorCode {
    match e {
        SignalCryptoError::UnknownAlgorithm(..) => SignalErrorCode::InvalidArgument,
        SignalCryptoError::InvalidKeySize => SignalErrorCode::InvalidKey,
        SignalCryptoError::InvalidNonceSize => SignalErrorCode::InvalidArgument,
        SignalCryptoError::InvalidInputSize => SignalErrorCode::InvalidArgument,
        SignalCryptoError::InvalidTag => SignalErrorCode::InvalidMessage,
    }
}

/// The code for a failure of PIN key derivation.
pub open spec fn pin_error_code(e: PinError) -> SignalErrorCode {
    match e {
        PinError::Argon2Error(..) => SignalErrorCode::InvalidArgument,
        PinError::DecodingError(..) => SignalErrorCode::InvalidArgument,
        PinError::MrenclaveLookupError => SignalErrorCode::InvalidArgument,
    }
}

/// The code for a failure of username syntax.
pub open spec fn username_error_code(e: UsernameError) -> SignalErrorCode {
    match e {
        UsernameError::NicknameCannotBeEmpty => SignalErrorCode::UsernameCannotBeEmpty,
        UsernameError::NicknameCannotStartWithDigit => SignalErrorCode::UsernameCannotStartWithDigit,
        UsernameError::MissingSeparator => SignalErrorCode::UsernameMissingSeparator,
        UsernameError::BadNicknameCharacter => SignalErrorCode::UsernameBadNicknameCharacter,
        UsernameError::NicknameTooShort => SignalErrorCode::UsernameTooShort,
        UsernameError::NicknameTooLong => SignalErrorCode::UsernameTooLong,
        UsernameError::DiscriminatorCannotBeEmpty => SignalErrorCode::UsernameDiscriminatorCannotBeEmpty,
        UsernameError::DiscriminatorCannotBeZero => SignalErrorCode::UsernameDiscriminatorCannotBeZero,
        UsernameError::DiscriminatorCannotBeSingleDigit => SignalErrorCode::UsernameDiscriminatorCannotBeSingleDigit,
        UsernameError::DiscriminatorCannotHaveLeadingZeros => SignalErrorCode::UsernameDiscriminatorCannotHaveLeadingZeros,
        UsernameError::BadDiscriminatorCharacter => SignalErrorCode::UsernameBadDiscriminatorCharacter,
        UsernameError::DiscriminatorTooLarge => SignalErrorCode::UsernameDiscriminatorTooLarge,
    }
}

/// The code for a failure of username links.
pub open spec fn username_link_error_code(e: UsernameLinkError) -> SignalErrorCode {
    match e {
        UsernameLinkError::InputDataTooLong => SignalErrorCode::UsernameTooLong,
        UsernameLinkError::InvalidEntropyDataLength => SignalErrorCode::UsernameLinkInvalidEntropyDataLength,
        UsernameLinkError::UsernameLinkDataTooShort => SignalErrorCode::UsernameLinkInvalid,
        UsernameLinkError::HmacMismatch => SignalErrorCode::UsernameLinkInvalid,
        UsernameLinkError::BadCiphertext => SignalErrorCode::UsernameLinkInvalid,
        UsernameLinkError::InvalidDecryptedDataStructure => SignalErrorCode::UsernameLinkInvalid,
    }
}

/// The code for a failure of the recovery service.
pub open spec fn svr_error_code(e: Svr3Error) -> SignalErrorCode {
    match e {
        Svr3Error::Net(..) => SignalErrorCode::UnknownError,
        Svr3Error::Protocol(..) => SignalErrorCode::UnknownError,
        Svr3Error::AttestationError(..) => SignalErrorCode::UnknownError,
        Svr3Error::RestoreFailed(..) => SignalErrorCode::SvrRestoreFailed,
        Svr3Error::DataMissing => SignalErrorCode::SvrDataMissing,
    }
}

/// The code for a failure of the MP4 sanitizer.
pub open spec fn mp4_error_code(e: Mp4ParseError) -> SignalErrorCode {
    match e {
        Mp4ParseError::InvalidBoxLayout { .. } => SignalErrorCode::InvalidMediaInput,
        Mp4ParseError::InvalidInput { .. } => SignalErrorCode::InvalidMediaInput,
        Mp4ParseError::MissingRequiredBox { .. } => SignalErrorCode::InvalidMediaInput,
        Mp4ParseError::TruncatedBox => SignalErrorCode::InvalidMediaInput,
        Mp4ParseError::UnsupportedBoxLayout { .. } => SignalErrorCode::UnsupportedMediaInput,
        Mp4ParseError::UnsupportedBox { .. } => SignalErrorCode::UnsupportedMediaInput,
        Mp4ParseError::UnsupportedFormat { .. } => SignalErrorCode::UnsupportedMediaInput,
    }
}

/// The code for a failure of the WebP sanitizer.
pub open spec fn webp_error_code(e: WebpParseError) -> SignalErrorCode {
    match e {
        WebpParseError::InvalidChunkLayout { .. } => SignalErrorCode::InvalidMediaInput,
        WebpParseError::InvalidInput { .. } => SignalErrorCode::InvalidMediaInput,
        WebpParseError::InvalidVp8lPrefixCode { .. } => SignalErrorCode::InvalidMediaInput,
        WebpParseError::MissingRequiredChunk { .. } => SignalErrorCode::InvalidMediaInput,
        WebpParseError::TruncatedChunk => SignalErrorCode::InvalidMediaInput,
        WebpParseError::UnsupportedChunk { .. } => SignalErrorCode::UnsupportedMediaInput,
        WebpParseError::UnsupportedVp8lVersion { .. } => SignalErrorCode::UnsupportedMediaInput,
    }
}

/// The code for any failure cause.
pub open spec fn classify(e: SignalFfiError) -> SignalErrorCode {
    match e {
        SignalFfiError::Signal(inner) => protocol_error_code(inner),
        SignalFfiError::DeviceTransfer(inner) => device_transfer_error_code(inner),
        SignalFfiError::HsmEnclave(inner) => hsm_enclave_error_code(inner),
        SignalFfiError::Sgx(inner) => enclave_error_code(inner),
        SignalFfiError::Pin(inner) => pin_error_code(inner),
        SignalFfiError::SignalCrypto(inner) => crypto_error_code(inner),
        SignalFfiError::UsernameError(inner) => username_error_code(inner),
        SignalFfiError::UsernameLinkError(inner) => username_link_error_code(inner),
        SignalFfiError::Mp4SanitizeParse(inner) => mp4_error_code(inner),
        SignalFfiError::WebpSanitizeParse(inner) => webp_error_code(inner),
        SignalFfiError::Svr(inner) => svr_error_code(inner),
        SignalFfiError::ZkGroupVerificationFailure => SignalErrorCode::VerificationFailure,
        SignalFfiError::ZkGroupDeserializationFailure(..) => SignalErrorCode::InvalidType,
        SignalFfiError::UsernameProofError => SignalErrorCode::VerificationFailure,
        SignalFfiError::Io(..) => SignalErrorCode::IoError,
        SignalFfiError::WebSocket(..) => SignalErrorCode::WebSocket,
        SignalFfiError::ConnectionTimedOut => SignalErrorCode::ConnectionTimedOut,
        SignalFfiError::ConnectionFailed => SignalErrorCode::ConnectionFailed,
        SignalFfiError::ChatServiceInactive => SignalErrorCode::ChatServiceInactive,
        SignalFfiError::AppExpired => SignalErrorCode::AppExpired,
        SignalFfiError::DeviceDeregistered => SignalErrorCode::DeviceDeregistered,
        SignalFfiError::NetworkProtocol(..) => SignalErrorCode::NetworkProtocol,
        SignalFfiError::CdsiInvalidToken => SignalErrorCode::CdsiInvalidToken,
        SignalFfiError::RateLimited { .. } => SignalErrorCode::RateLimited,
        SignalFfiError::NullPointer => SignalErrorCode::NullParameter,
        SignalFfiError::InvalidHandle => SignalErrorCode::NullParameter,
        SignalFfiError::InvalidUtf8String => SignalErrorCode::InvalidUtf8String,
        SignalFfiError::IntegerOverflow(..) => SignalErrorCode::InvalidArgument,
        SignalFfiError::InvalidArgument(..) => SignalErrorCode::InvalidArgument,
        SignalFfiError::InternalError(..) => SignalErrorCode::InternalError,
        SignalFfiError::UnexpectedPanic(..) => SignalErrorCode::InternalError,
        SignalFfiError::Cancelled => SignalErrorCode::Cancelled,
    }
}

impl SignalProtocolError {
    /// The code for this failure of the protocol engine.
    pub fn error_code(&self) -> (r: SignalErrorCode)
        ensures
            r == protocol_error_code(*self),
    {
        match self {
            SignalProtocolError::InvalidArgument(..) => SignalErrorCode::InvalidArgument,
            SignalProtocolError::InvalidState(..) => SignalErrorCode::InvalidState,
            SignalProtocolError::InvalidProtobufEncoding => SignalErrorCode::ProtobufError,
            SignalProtocolError::CiphertextMessageTooShort(..) => SignalErrorCode::InvalidMessage,
            SignalProtocolError::LegacyCiphertextVersion(..) => SignalErrorCode::LegacyCiphertextVersion,
            SignalProtocolError::UnrecognizedCiphertextVersion(..) => SignalErrorCode::UnknownCiphertextVersion,
            SignalProtocolError::UnrecognizedMessageVersion(..) => SignalErrorCode::UnrecognizedMessageVersion,
            SignalProtocolError::FingerprintVersionMismatch(..) => SignalErrorCode::FingerprintVersionMismatch,
            SignalProtocolError::FingerprintParsingError => SignalErrorCode::FingerprintParsingError,
            SignalProtocolError::NoKeyTypeIdentifier => SignalErrorCode::InvalidKey,
            SignalProtocolError::BadKeyType(..) => SignalErrorCode::InvalidKey,
            SignalProtocolError::BadKeyLength(..) => SignalErrorCode::InvalidKey,
            SignalProtocolError::BadKEMKeyType(..) => SignalErrorCode::InvalidKey,
            SignalProtocolError::WrongKEMKeyType(..) => SignalErrorCode::InvalidKey,
            SignalProtocolError::BadKEMKeyLength(..) => SignalErrorCode::InvalidKey,
            SignalProtocolError::BadKEMCiphertextLength(..) => SignalErrorCode::InvalidMessage,
            SignalProtocolError::SignatureValidationFailed => SignalErrorCode::InvalidSignature,
            SignalProtocolError::UntrustedIdentity(..) => SignalErrorCode::UntrustedIdentity,
            SignalProtocolError::InvalidPreKeyId => SignalErrorCode::InvalidKeyIdentifier,
            SignalProtocolError::InvalidSignedPreKeyId => SignalErrorCode::InvalidKeyIdentifier,
            SignalProtocolError::InvalidKyberPreKeyId => SignalErrorCode::InvalidKeyIdentifier,
            SignalProtocolError::SessionNotFound(..) => SignalErrorCode::SessionNotFound,
            SignalProtocolError::InvalidSessionStructure(..) => SignalErrorCode::InvalidSession,
            SignalProtocolError::InvalidSenderKeySession { .. } => SignalErrorCode::InvalidSenderKeySession,
            SignalProtocolError::NoSenderKeyState { .. } => SignalErrorCode::SessionNotFound,
            SignalProtocolError::DuplicatedMessage(..) => SignalErrorCode::DuplicatedMessage,
            SignalProtocolError::InvalidMessage(..) => SignalErrorCode::InvalidMessage,
            SignalProtocolError::InvalidRegistrationId(..) => SignalErrorCode::InvalidRegistrationId,
            SignalProtocolError::InvalidMacKeyLength(..) => SignalErrorCode::InvalidKey,
            SignalProtocolError::UnknownSealedSenderVersion(..) => SignalErrorCode::UnrecognizedMessageVersion,
            SignalProtocolError::InvalidSealedSenderMessage(..) => SignalErrorCode::InvalidMessage,
            SignalProtocolError::SealedSenderSelfSend => SignalErrorCode::SealedSenderSelfSend,
            SignalProtocolError::ApplicationCallbackError(..) => SignalErrorCode::CallbackError,
            SignalProtocolError::FfiBindingError(..) => SignalErrorCode::InternalError,
        }
    }
}

impl EnclaveError {
    /// The code for this failure of enclave attestation.
    pub fn error_code(&self) -> (r: SignalErrorCode)
        ensures
            r == enclave_error_code(*self),
    {
        match self {
            EnclaveError::AttestationError(..) => SignalErrorCode::InvalidMessage,
            EnclaveError::NoiseError(..) => SignalErrorCode::InvalidMessage,
            EnclaveError::NoiseHandshakeError(..) => SignalErrorCode::InvalidMessage,
            EnclaveError::AttestationDataError { .. } => SignalErrorCode::InvalidAttestationData,
            EnclaveError::InvalidBridgeStateError => SignalErrorCode::InvalidState,
        }
    }
}

impl HsmEnclaveError {
    /// The code for this failure of the hardware security module channel.
    pub fn error_code(&self) -> (r: SignalErrorCode)
        ensures
            r == hsm_enclave_error_code(*self),
    {
        match self {
            HsmEnclaveError::HSMCommunicationError(..) => SignalErrorCode::InvalidMessage,
            HsmEnclaveError::HSMHandshakeError(..) => SignalErrorCode::InvalidMessage,
            HsmEnclaveError::TrustedCodeError => SignalErrorCode::UntrustedIdentity,
            HsmEnclaveError::InvalidPublicKeyError => SignalErrorCode::InvalidKey,
            HsmEnclaveError::InvalidCodeHashError => SignalErrorCode::InvalidArgument,
            HsmEnclaveError::InvalidBridgeStateError => SignalErrorCode::InvalidState,
        }
    }
}

impl DeviceTransferError {
    /// The code for this failure of device transfer.
    pub fn error_code(&self) -> (r: SignalErrorCode)
        ensures
            r == device_transfer_error_code(*self),
    {
        match self {
            DeviceTransferError::KeyDecodingFailed => SignalErrorCode::InvalidKey,
            DeviceTransferError::InternalError(..) => SignalErrorCode::InternalError,
        }
    }
}

impl SignalCryptoError {
    /// The code for this failure of the crypto primitives.
    pub fn error_code(&self) -> (r: SignalErrorCode)
        ensures
            r == crypto_error_code(*self),
    {
        match self {
            SignalCryptoError::UnknownAlgorithm(..) => SignalErrorCode::InvalidArgument,
            SignalCryptoError::InvalidKeySize => SignalErrorCode::InvalidKey,
            SignalCryptoError::InvalidNonceSize => SignalErrorCode::InvalidArgument,
            SignalCryptoError::InvalidInputSize => SignalErrorCode::InvalidArgument,
            SignalCryptoError::InvalidTag => SignalErrorCode::InvalidMessage,
        }
    }
}

impl PinError {
    /// The code for this failure of PIN key derivation.
    pub fn error_code(&self) -> (r: SignalErrorCode)
        ensures
            r == pin_error_code(*self),
    {
        match self {
            PinError::Argon2Error(..) => SignalErrorCode::InvalidArgument,
            PinError::DecodingError(..) => SignalErrorCode::InvalidArgument,
            PinError::MrenclaveLookupError => SignalErrorCode::InvalidArgument,
        }
    }
}

impl UsernameError {
    /// The code for this failure of username syntax.
    pub fn error_code(&self) -> (r: SignalErrorCode)
        ensures
            r == username_error_code(*self),
    {
        match self {
            UsernameError::NicknameCannotBeEmpty => SignalErrorCode::UsernameCannotBeEmpty,
            UsernameError::NicknameCannotStartWithDigit => SignalErrorCode::UsernameCannotStartWithDigit,
            UsernameError::MissingSeparator => SignalErrorCode::UsernameMissingSeparator,
            UsernameError::BadNicknameCharacter => SignalErrorCode::UsernameBadNicknameCharacter,
            UsernameError::NicknameTooShort => SignalErrorCode::UsernameTooShort,
            UsernameError::NicknameTooLong => SignalErrorCode::UsernameTooLong,
            UsernameError::DiscriminatorCannotBeEmpty => SignalErrorCode::UsernameDiscriminatorCannotBeEmpty,
            UsernameError::DiscriminatorCannotBeZero => SignalErrorCode::UsernameDiscriminatorCannotBeZero,
            UsernameError::DiscriminatorCannotBeSingleDigit => SignalErrorCode::UsernameDiscriminatorCannotBeSingleDigit,
            UsernameError::DiscriminatorCannotHaveLeadingZeros => SignalErrorCode::UsernameDiscriminatorCannotHaveLeadingZeros,
            UsernameError::BadDiscriminatorCharacter => SignalErrorCode::UsernameBadDiscriminatorCharacter,
            UsernameError::DiscriminatorTooLarge => SignalErrorCode::UsernameDiscriminatorTooLarge,
        }
    }
}

impl UsernameLinkError {
    /// The code for this failure of username links.
    pub fn error_code(&self) -> (r: SignalErrorCode)
        ensures
            r == username_link_error_code(*self),
    {
        match self {
            UsernameLinkError::InputDataTooLong => SignalErrorCode::UsernameTooLong,
            UsernameLinkError::InvalidEntropyDataLength => SignalErrorCode::UsernameLinkInvalidEntropyDataLength,
            UsernameLinkError::UsernameLinkDataTooShort => SignalErrorCode::UsernameLinkInvalid,
            UsernameLinkError::HmacMismatch => SignalErrorCode::UsernameLinkInvalid,
            UsernameLinkError::BadCiphertext => SignalErrorCode::UsernameLinkInvalid,
            UsernameLinkError::InvalidDecryptedDataStructure => SignalErrorCode::UsernameLinkInvalid,
        }
    }
}

impl Svr3Error {
    /// The code for this failure of the recovery service.
    pub fn error_code(&self) -> (r: SignalErrorCode)
        ensures
            r == svr_error_code(*self),
    {
        match self {
            Svr3Error::Net(..) => SignalErrorCode::UnknownError,
            Svr3Error::Protocol(..) => SignalErrorCode::UnknownError,
            Svr3Error::AttestationError(..) => SignalErrorCode::UnknownError,
            Svr3Error::RestoreFailed(..) => SignalErrorCode::SvrRestoreFailed,
            Svr3Error::DataMissing => SignalErrorCode::SvrDataMissing,
        }
    }
}

impl Mp4ParseError {
    /// The code for this failure of the MP4 sanitizer.
    pub fn error_code(&self) -> (r: SignalErrorCode)
        ensures
            r == mp4_error_code(*self),
    {
        match self {
            Mp4ParseError::InvalidBoxLayout { .. } => SignalErrorCode::InvalidMediaInput,
            Mp4ParseError::InvalidInput { .. } => SignalErrorCode::InvalidMediaInput,
            Mp4ParseError::MissingRequiredBox { .. } => SignalErrorCode::InvalidMediaInput,
            Mp4ParseError::TruncatedBox => SignalErrorCode::InvalidMediaInput,
            Mp4ParseError::UnsupportedBoxLayout { .. } => SignalErrorCode::UnsupportedMediaInput,
            Mp4ParseError::UnsupportedBox { .. } => SignalErrorCode::UnsupportedMediaInput,
            Mp4ParseError::UnsupportedFormat { .. } => SignalErrorCode::UnsupportedMediaInput,
        }
    }
}

impl WebpParseError {
    /// The code for this failure of the WebP sanitizer.
    pub fn error_code(&self) -> (r: SignalErrorCode)
        ensures
            r == webp_error_code(*self),
    {
        match self {
            WebpParseError::InvalidChunkLayout { .. } => SignalErrorCode::InvalidMediaInput,
            WebpParseError::InvalidInput { .. } => SignalErrorCode::InvalidMediaInput,
            WebpParseError::InvalidVp8lPrefixCode { .. } => SignalErrorCode::InvalidMediaInput,
            WebpParseError::MissingRequiredChunk { .. } => SignalErrorCode::InvalidMediaInput,
            WebpParseError::TruncatedChunk => SignalErrorCode::InvalidMediaInput,
            WebpParseError::UnsupportedChunk { .. } => SignalErrorCode::UnsupportedMediaInput,
            WebpParseError::UnsupportedVp8lVersion { .. } => SignalErrorCode::UnsupportedMediaInput,
        }
    }
}

impl SignalFfiError {
    /// The code that the host receives for this failure.
    pub fn error_code(&self) -> (r: SignalErrorCode)
        ensures
            r == classify(*self),
    {
        match self {
            SignalFfiError::Signal(inner) => inner.error_code(),
            SignalFfiError::DeviceTransfer(inner) => inner.error_code(),
            SignalFfiError::HsmEnclave(inner) => inner.error_code(),
            SignalFfiError::Sgx(inner) => inner.error_code(),
            SignalFfiError::Pin(inner) => inner.error_code(),
            SignalFfiError::SignalCrypto(inner) => inner.error_code(),
            SignalFfiError::UsernameError(inner) => inner.error_code(),
            SignalFfiError::UsernameLinkError(inner) => inner.error_code(),
            SignalFfiError::Mp4SanitizeParse(inner) => inner.error_code(),
            SignalFfiError::WebpSanitizeParse(inner) => inner.error_code(),
            SignalFfiError::Svr(inner) => inner.error_code(),
            SignalFfiError::ZkGroupVerificationFailure => SignalErrorCode::VerificationFailure,
            SignalFfiError::ZkGroupDeserializationFailure(..) => SignalErrorCode::InvalidType,
            SignalFfiError::UsernameProofError => SignalErrorCode::VerificationFailure,
            SignalFfiError::Io(..) => SignalErrorCode::IoError,
            SignalFfiError::WebSocket(..) => SignalErrorCode::WebSocket,
            SignalFfiError::ConnectionTimedOut => SignalErrorCode::ConnectionTimedOut,
            SignalFfiError::ConnectionFailed => SignalErrorCode::ConnectionFailed,
            SignalFfiError::ChatServiceInactive => SignalErrorCode::ChatServiceInactive,
            SignalFfiError::AppExpired => SignalErrorCode::AppExpired,
            SignalFfiError::DeviceDeregistered => SignalErrorCode::DeviceDeregistered,
            SignalFfiError::NetworkProtocol(..) => SignalErrorCode::NetworkProtocol,
            SignalFfiError::CdsiInvalidToken => SignalErrorCode::CdsiInvalidToken,
            SignalFfiError::RateLimited { .. } => SignalErrorCode::RateLimited,
            SignalFfiError::NullPointer => SignalErrorCode::NullParameter,
            SignalFfiError::InvalidHandle => SignalErrorCode::NullParameter,
            SignalFfiError::InvalidUtf8String => SignalErrorCode::InvalidUtf8String,
            SignalFfiError::IntegerOverflow(..) => SignalErrorCode::InvalidArgument,
            SignalFfiError::InvalidArgument(..) => SignalErrorCode::InvalidArgument,
            SignalFfiError::InternalError(..) => SignalErrorCode::InternalError,
            SignalFfiError::UnexpectedPanic(..) => SignalErrorCode::InternalError,
            SignalFfiError::Cancelled => SignalErrorCode::Cancelled,
        }
    }
}

/// The position of a failure of the protocol engine among its variants.
pub open spec fn protocol_error_variant(e: SignalProtocolError) -> int {
    match e {
        SignalProtocolError::InvalidArgument(..) => 0,
        SignalProtocolError::InvalidState(..) => 1,
        SignalProtocolError::InvalidProtobufEncoding => 2,
        SignalProtocolError::CiphertextMessageTooShort(..) => 3,
        SignalProtocolError::LegacyCiphertextVersion(..) => 4,
        SignalProtocolError::UnrecognizedCiphertextVersion(..) => 5,
        SignalProtocolError::UnrecognizedMessageVersion(..) => 6,
        SignalProtocolError::FingerprintVersionMismatch(..) => 7,
        SignalProtocolError::FingerprintParsingError => 8,
        SignalProtocolError::NoKeyTypeIdentifier => 9,
        SignalProtocolError::BadKeyType(..) => 10,
        SignalProtocolError::BadKeyLength(..) => 11,
        SignalProtocolError::BadKEMKeyType(..) => 12,
        SignalProtocolError::WrongKEMKeyType(..) => 13,
        SignalProtocolError::BadKEMKeyLength(..) => 14,
        SignalProtocolError::BadKEMCiphertextLength(..) => 15,
        SignalProtocolError::SignatureValidationFailed => 16,
        SignalProtocolError::UntrustedIdentity(..) => 17,
        SignalProtocolError::InvalidPreKeyId => 18,
        SignalProtocolError::InvalidSignedPreKeyId => 19,
        SignalProtocolError::InvalidKyberPreKeyId => 20,
        SignalProtocolError::SessionNotFound(..) => 21,
        SignalProtocolError::InvalidSessionStructure(..) => 22,
        SignalProtocolError::InvalidSenderKeySession { .. } => 23,
        SignalProtocolError::NoSenderKeyState { .. } => 24,
        SignalProtocolError::DuplicatedMessage(..) => 25,
        SignalProtocolError::InvalidMessage(..) => 26,
        SignalProtocolError::InvalidRegistrationId(..) => 27,
        SignalProtocolError::InvalidMacKeyLength(..) => 28,
        SignalProtocolError::UnknownSealedSenderVersion(..) => 29,
        SignalProtocolError::InvalidSealedSenderMessage(..) => 30,
        SignalProtocolError::SealedSenderSelfSend => 31,
        SignalProtocolError::ApplicationCallbackError(..) => 32,
        SignalProtocolError::FfiBindingError(..) => 33,
    }
}

/// The position of a failure of enclave attestation among its variants.
pub open spec fn enclave_error_variant(e: EnclaveError) -> int {
    match e {
        EnclaveError::AttestationError(..) => 0,
        EnclaveError::NoiseError(..) => 1,
        EnclaveError::NoiseHandshakeError(..) => 2,
        EnclaveError::AttestationDataError { .. } => 3,
        EnclaveError::InvalidBridgeStateError => 4,
    }
}

/// The position of a failure of the hardware security module channel among its variants.
pub open spec fn hsm_enclave_error_variant(e: HsmEnclaveError) -> int {
    match e {
        HsmEnclaveError::HSMCommunicationError(..) => 0,
        HsmEnclaveError::HSMHandshakeError(..) => 1,
        HsmEnclaveError::TrustedCodeError => 2,
        HsmEnclaveError::InvalidPublicKeyError => 3,
        HsmEnclaveError::InvalidCodeHashError => 4,
        HsmEnclaveError::InvalidBridgeStateError => 5,
    }
}

/// The position of a failure of device transfer among its variants.
pub open spec fn device_transfer_error_variant(e: DeviceTransferError) -> int {
    match e {
        DeviceTransferError::KeyDecodingFailed => 0,
        DeviceTransferError::InternalError(..) => 1,
    }
}

/// The position of a failure of the crypto primitives among its variants.
pub open spec fn crypto_error_variant(e: SignalCryptoError) -> int {
    match e {
        SignalCryptoError::UnknownAlgorithm(..) => 0,
        SignalCryptoError::InvalidKeySize => 1,
        SignalCryptoError::InvalidNonceSize => 2,
        SignalCryptoError::InvalidInputSize => 3,
        SignalCryptoError::InvalidTag => 4,
    }
}

/// The position of a failure of PIN key derivation among its variants.
pub open spec fn pin_error_variant(e: PinError) -> int {
    match e {
        PinError::Argon2Error(..) => 0,
        PinError::DecodingError(..) => 1,
        PinError::MrenclaveLookupError => 2,
    }
}

/// The position of a failure of username syntax among its variants.
pub open spec fn username_error_variant(e: UsernameError) -> int {
    match e {
        UsernameError::NicknameCannotBeEmpty => 0,
        UsernameError::NicknameCannotStartWithDigit => 1,
        UsernameError::MissingSeparator => 2,
        UsernameError::BadNicknameCharacter => 3,
        UsernameError::NicknameTooShort => 4,
        UsernameError::NicknameTooLong => 5,
        UsernameError::DiscriminatorCannotBeEmpty => 6,
        UsernameError::DiscriminatorCannotBeZero => 7,
        UsernameError::DiscriminatorCannotBeSingleDigit => 8,
        UsernameError::DiscriminatorCannotHaveLeadingZeros => 9,
        UsernameError::BadDiscriminatorCharacter => 10,
        UsernameError::DiscriminatorTooLarge => 11,
    }
}

/// The position of a failure of username links among its variants.
pub open spec fn username_link_error_variant(e: UsernameLinkError) -> int {
    match e {
        UsernameLinkError::InputDataTooLong => 0,
        UsernameLinkError::InvalidEntropyDataLength => 1,
        UsernameLinkError::UsernameLinkDataTooShort => 2,
        UsernameLinkError::HmacMismatch => 3,
        UsernameLinkError::BadCiphertext => 4,
        UsernameLinkError::InvalidDecryptedDataStructure => 5,
    }
}

/// The position of a failure of the recovery service among its variants.
pub open spec fn svr_error_variant(e: Svr3Error) -> int {
    match e {
        Svr3Error::Net(..) => 0,
        Svr3Error::Protocol(..) => 1,
        Svr3Error::AttestationError(..) => 2,
        Svr3Error::RestoreFailed(..) => 3,
        Svr3Error::DataMissing => 4,
    }
}

/// The position of a failure of the MP4 sanitizer among its variants.
pub open spec fn mp4_error_variant(e: Mp4ParseError) -> int {
    match e {
        Mp4ParseError::InvalidBoxLayout { .. } => 0,
        Mp4ParseError::InvalidInput { .. } => 1,
        Mp4ParseError::MissingRequiredBox { .. } => 2,
        Mp4ParseError::TruncatedBox => 3,
        Mp4ParseError::UnsupportedBoxLayout { .. } => 4,
        Mp4ParseError::UnsupportedBox { .. } => 5,
        Mp4ParseError::UnsupportedFormat { .. } => 6,
    }
}

/// The position of a failure of the WebP sanitizer among its variants.
pub open spec fn webp_error_variant(e: WebpParseError) -> int {
    match e {
        WebpParseError::InvalidChunkLayout { .. } => 0,
        WebpParseError::InvalidInput { .. } => 1,
        WebpParseError::InvalidVp8lPrefixCode { .. } => 2,
        WebpParseError::MissingRequiredChunk { .. } => 3,
        WebpParseError::TruncatedChunk => 4,
        WebpParseError::UnsupportedChunk { .. } => 5,
        WebpParseError::UnsupportedVp8lVersion { .. } => 6,
    }
}

/// The variant of a failure cause, payloads left out: the position of its
/// subsystem and the position of the variant within that subsystem's union.
pub open spec fn cause_variant(e: SignalFfiError) -> (int, int) {
    match e {
        SignalFfiError::Signal(inner) => (0, protocol_error_variant(inner)),
        SignalFfiError::DeviceTransfer(inner) => (1, device_transfer_error_variant(inner)),
        SignalFfiError::HsmEnclave(inner) => (2, hsm_enclave_error_variant(inner)),
        SignalFfiError::Sgx(inner) => (3, enclave_error_variant(inner)),
        SignalFfiError::Pin(inner) => (4, pin_error_variant(inner)),
        SignalFfiError::SignalCrypto(inner) => (5, crypto_error_variant(inner)),
        SignalFfiError::UsernameError(inner) => (6, username_error_variant(inner)),
        SignalFfiError::UsernameLinkError(inner) => (7, username_link_error_variant(inner)),
        SignalFfiError::Mp4SanitizeParse(inner) => (8, mp4_error_variant(inner)),
        SignalFfiError::WebpSanitizeParse(inner) => (9, webp_error_variant(inner)),
        SignalFfiError::Svr(inner) => (10, svr_error_variant(inner)),
        SignalFfiError::ZkGroupVerificationFailure => (11, 0),
        SignalFfiError::ZkGroupDeserializationFailure(..) => (12, 0),
        SignalFfiError::UsernameProofError => (13, 0),
        SignalFfiError::Io(..) => (14, 0),
        SignalFfiError::WebSocket(..) => (15, 0),
        SignalFfiError::ConnectionTimedOut => (16, 0),
        SignalFfiError::ConnectionFailed => (17, 0),
        SignalFfiError::ChatServiceInactive => (18, 0),
        SignalFfiError::AppExpired => (19, 0),
        SignalFfiError::DeviceDeregistered => (20, 0),
        SignalFfiError::NetworkProtocol(..) => (21, 0),
        SignalFfiError::CdsiInvalidToken => (22, 0),
        SignalFfiError::RateLimited { .. } => (23, 0),
        SignalFfiError::NullPointer => (24, 0),
        SignalFfiError::InvalidHandle => (25, 0),
        SignalFfiError::InvalidUtf8String => (26, 0),
        SignalFfiError::IntegerOverflow(..) => (27, 0),
        SignalFfiError::InvalidArgument(..) => (28, 0),
        SignalFfiError::InternalError(..) => (29, 0),
        SignalFfiError::UnexpectedPanic(..) => (30, 0),
        SignalFfiError::Cancelled => (31, 0),
    }
}
/// Failures of the protocol engine of the same variant get the same code.
proof fn lemma_protocol_error_variant_determines_code(a: SignalProtocolError, b: SignalProtocolError)
    ensures
        protocol_error_variant(a) == protocol_error_variant(b) ==> protocol_error_code(a) == protocol_error_code(b),
{
}

/// Failures of enclave attestation of the same variant get the same code.
proof fn lemma_enclave_error_variant_determines_code(a: EnclaveError, b: EnclaveError)
    ensures
        enclave_error_variant(a) == enclave_error_variant(b) ==> enclave_error_code(a) == enclave_error_code(b),
{
}

/// Failures of the hardware security module channel of the same variant get the same code.
proof fn lemma_hsm_enclave_error_variant_determines_code(a: HsmEnclaveError, b: HsmEnclaveError)
    ensures
        hsm_enclave_error_variant(a) == hsm_enclave_error_variant(b) ==> hsm_enclave_error_code(a) == hsm_enclave_error_code(b),
{
}

/// Failures of device transfer of the same variant get the same code.
proof fn lemma_device_transfer_error_variant_determines_code(a: DeviceTransferError, b: DeviceTransferError)
    ensures
        device_transfer_error_variant(a) == device_transfer_error_variant(b) ==> device_transfer_error_code(a) == device_transfer_error_code(b),
{
}

/// Failures of the crypto primitives of the same variant get the same code.
proof fn lemma_crypto_error_variant_determines_code(a: SignalCryptoError, b: SignalCryptoError)
    ensures
        crypto_error_variant(a) == crypto_error_variant(b) ==> crypto_error_code(a) == crypto_error_code(b),
{
}

/// Failures of PIN key derivation of the same variant get the same code.
proof fn lemma_pin_error_variant_determines_code(a: PinError, b: PinError)
    ensures
        pin_error_variant(a) == pin_error_variant(b) ==> pin_error_code(a) == pin_error_code(b),
{
}

/// Failures of username syntax of the same variant get the same code.
proof fn lemma_username_error_variant_determines_code(a: UsernameError, b: UsernameError)
    ensures
        username_error_variant(a) == username_error_variant(b) ==> username_error_code(a) == username_error_code(b),
{
}

/// Failures of username links of the same variant get the same code.
proof fn lemma_username_link_error_variant_determines_code(a: UsernameLinkError, b: UsernameLinkError)
    ensures
        username_link_error_variant(a) == username_link_error_variant(b) ==> username_link_error_code(a) == username_link_error_code(b),
{
}

/// Failures of the recovery service of the same variant get the same code.
proof fn lemma_svr_error_variant_determines_code(a: Svr3Error, b: Svr3Error)
    ensures
        svr_error_variant(a) == svr_error_variant(b) ==> svr_error_code(a) == svr_error_code(b),
{
}

/// Failures of the MP4 sanitizer of the same variant get the same code.
proof fn lemma_mp4_error_variant_determines_code(a: Mp4ParseError, b: Mp4ParseError)
    ensures
        mp4_error_variant(a) == mp4_error_variant(b) ==> mp4_error_code(a) == mp4_error_code(b),
{
}

/// Failures of the WebP sanitizer of the same variant get the same code.
proof fn lemma_webp_error_variant_determines_code(a: WebpParseError, b: WebpParseError)
    ensures
        webp_error_variant(a) == webp_error_variant(b) ==> webp_error_code(a) == webp_error_code(b),
{
}
/// Classification is total and deterministic: causes of the same variant get
/// the same code whatever their payloads, and that code is a positive number
/// inside a documented category range.
pub proof fn lemma_classify_total_deterministic(e1: SignalFfiError, e2: SignalFfiError)
    ensures
        cause_variant(e1) == cause_variant(e2) ==> classify(e1) == classify(e2),
        classify(e1).value() >= 1,
        category_of_value(classify(e1).value()) == Some(classify(e1).category()),
{
    if cause_variant(e1) == cause_variant(e2) {
        match (e1, e2) {
            (SignalFfiError::Signal(a), SignalFfiError::Signal(b)) => lemma_protocol_error_variant_determines_code(a, b),
            (SignalFfiError::DeviceTransfer(a), SignalFfiError::DeviceTransfer(b)) => lemma_device_transfer_error_variant_determines_code(a, b),
            (SignalFfiError::HsmEnclave(a), SignalFfiError::HsmEnclave(b)) => lemma_hsm_enclave_error_variant_determines_code(a, b),
            (SignalFfiError::Sgx(a), SignalFfiError::Sgx(b)) => lemma_enclave_error_variant_determines_code(a, b),
            (SignalFfiError::Pin(a), SignalFfiError::Pin(b)) => lemma_pin_error_variant_determines_code(a, b),
            (SignalFfiError::SignalCrypto(a), SignalFfiError::SignalCrypto(b)) => lemma_crypto_error_variant_determines_code(a, b),
            (SignalFfiError::UsernameError(a), SignalFfiError::UsernameError(b)) => lemma_username_error_variant_determines_code(a, b),
            (SignalFfiError::UsernameLinkError(a), SignalFfiError::UsernameLinkError(b)) => lemma_username_link_error_variant_determines_code(a, b),
            (SignalFfiError::Mp4SanitizeParse(a), SignalFfiError::Mp4SanitizeParse(b)) => lemma_mp4_error_variant_determines_code(a, b),
            (SignalFfiError::WebpSanitizeParse(a), SignalFfiError::WebpSanitizeParse(b)) => lemma_webp_error_variant_determines_code(a, b),
            (SignalFfiError::Svr(a), SignalFfiError::Svr(b)) => lemma_svr_error_variant_determines_code(a, b),
            _ => {},
        }
    }
}

/// Every cause has a rule of its own: the generic unknown code comes only from the
/// recovery-service failures that have no more specific code.
pub proof fn lemma_unknown_only_for_unmapped_recovery_failures(e: SignalFfiError)
    ensures
        classify(e) == SignalErrorCode::UnknownError <==> (match e {
            SignalFfiError::Svr(Svr3Error::Net(..)) => true,
            SignalFfiError::Svr(Svr3Error::Protocol(..)) => true,
            SignalFfiError::Svr(Svr3Error::AttestationError(..)) => true,
            _ => false,
        }),
{
}

/// The codes of the optional media family come from media parse failures alone,
/// so the numbers reserved for that family are never taken by another cause.
pub proof fn lemma_media_codes_only_for_media_failures(e: SignalFfiError)
    ensures
        (classify(e) == SignalErrorCode::InvalidMediaInput || classify(e)
            == SignalErrorCode::UnsupportedMediaInput) <==> (e is Mp4SanitizeParse
            || e is WebpSanitizeParse),
{
}

impl From<&SignalFfiError> for SignalErrorCode {
    fn from(err: &SignalFfiError) -> (r: SignalErrorCode) {
        err.error_code()
    }
}

impl vstd::std_specs::convert::FromSpecImpl<&SignalFfiError> for SignalErrorCode {
    open spec fn obeys_from_spec() -> bool {
        true
    }

    open spec fn from_spec(err: &SignalFfiError) -> SignalErrorCode {
        classify(*err)
    }
}

} // verus!
