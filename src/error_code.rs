//! The numeric error vocabulary that every host binding sees.
//!
//! Each code has a fixed number inside the numeric range of its category.
//! Numbers are only ever appended: a number, once given, keeps its meaning.
use vstd::prelude::*;

verus! {

/// A stable error code returned to the host in place of a value.
#[derive(Debug, Clone, Copy, PartialEq, Eq, Structural)]
pub enum SignalErrorCode {
    UnknownError,
    InvalidState,
    InternalError,
    NullParameter,
    InvalidArgument,
    InvalidType,
    InvalidUtf8String,
    Cancelled,
    ProtobufError,
    LegacyCiphertextVersion,
    UnknownCiphertextVersion,
    UnrecognizedMessageVersion,
    InvalidMessage,
    SealedSenderSelfSend,
    InvalidKey,
    InvalidSignature,
    InvalidAttestationData,
    FingerprintVersionMismatch,
    FingerprintParsingError,
    UntrustedIdentity,
    InvalidKeyIdentifier,
    SessionNotFound,
    InvalidRegistrationId,
    InvalidSession,
    InvalidSenderKeySession,
    DuplicatedMessage,
    CallbackError,
    VerificationFailure,
    UsernameCannotBeEmpty,
    UsernameCannotStartWithDigit,
    UsernameMissingSeparator,
    UsernameBadDiscriminatorCharacter,
    UsernameBadNicknameCharacter,
    UsernameTooShort,
    UsernameTooLong,
    UsernameLinkInvalidEntropyDataLength,
    UsernameLinkInvalid,
    UsernameDiscriminatorCannotBeEmpty,
    UsernameDiscriminatorCannotBeZero,
    UsernameDiscriminatorCannotBeSingleDigit,
    UsernameDiscriminatorCannotHaveLeadingZeros,
    UsernameDiscriminatorTooLarge,
    IoError,
    InvalidMediaInput,
    UnsupportedMediaInput,
    ConnectionTimedOut,
    NetworkProtocol,
    RateLimited,
    WebSocket,
    CdsiInvalidToken,
    ConnectionFailed,
    ChatServiceInactive,
    SvrDataMissing,
    SvrRestoreFailed,
    AppExpired,
    DeviceDeregistered,
}

/// The documented category of a group of error codes.
#[derive(Debug, Clone, Copy, PartialEq, Eq, Structural)]
pub enum ErrorCategory {
    Generic,
    Encoding,
    Version,
    MessageValidity,
    KeyMaterial,
    Fingerprint,
    Trust,
    KeyIdentifier,
    SessionState,
    Duplication,
    Callback,
    Verification,
    Username,
    IoNetwork,
    Media,
    RecoveryService,
    Lifecycle,
}

/// The category that the numeric ranges of the table give to a number, if any.
pub open spec fn category_of_value(n: int) -> Option<ErrorCategory> {
    if 1 <= n <= 9 {
        Some(ErrorCategory::Generic)
    } else if 10 <= n <= 19 {
        Some(ErrorCategory::Encoding)
    } else if 21 <= n <= 23 {
        Some(ErrorCategory::Version)
    } else if 30 <= n <= 31 {
        Some(ErrorCategory::MessageValidity)
    } else if 40 <= n <= 42 {
        Some(ErrorCategory::KeyMaterial)
    } else if 51 <= n <= 52 {
        Some(ErrorCategory::Fingerprint)
    } else if n == 60 {
        Some(ErrorCategory::Trust)
    } else if n == 70 {
        Some(ErrorCategory::KeyIdentifier)
    } else if 80 <= n <= 83 {
        Some(ErrorCategory::SessionState)
    } else if n == 90 {
        Some(ErrorCategory::Duplication)
    } else if n == 100 {
        Some(ErrorCategory::Callback)
    } else if n == 110 {
        Some(ErrorCategory::Verification)
    } else if 120 <= n <= 128 || 140 <= n <= 144 {
        Some(ErrorCategory::Username)
    } else if 131 <= n <= 132 {
        Some(ErrorCategory::Media)
    } else if n == 130 || 133 <= n <= 139 {
        Some(ErrorCategory::IoNetwork)
    } else if 150 <= n <= 151 {
        Some(ErrorCategory::RecoveryService)
    } else if 160 <= n <= 161 {
        Some(ErrorCategory::Lifecycle)
    } else {
        None
    }
}

/// The code, if any, that a number stands for.
pub open spec fn code_of_value(n: int) -> Option<SignalErrorCode> {
    if n == 1 {
        Some(SignalErrorCode::UnknownError)
    } else if n == 2 {
        Some(SignalErrorCode::InvalidState)
    } else if n == 3 {
        Some(SignalErrorCode::InternalError)
    } else if n == 4 {
        Some(SignalErrorCode::NullParameter)
    } else if n == 5 {
        Some(SignalErrorCode::InvalidArgument)
    } else if n == 6 {
        Some(SignalErrorCode::InvalidType)
    } else if n == 7 {
        Some(SignalErrorCode::InvalidUtf8String)
    } else if n == 8 {
        Some(SignalErrorCode::Cancelled)
    } else if n == 10 {
        Some(SignalErrorCode::ProtobufError)
    } else if n == 21 {
        Some(SignalErrorCode::LegacyCiphertextVersion)
    } else if n == 22 {
        Some(SignalErrorCode::UnknownCiphertextVersion)
    } else if n == 23 {
        Some(SignalErrorCode::UnrecognizedMessageVersion)
    } else if n == 30 {
        Some(SignalErrorCode::InvalidMessage)
    } else if n == 31 {
        Some(SignalErrorCode::SealedSenderSelfSend)
    } else if n == 40 {
        Some(SignalErrorCode::InvalidKey)
    } else if n == 41 {
        Some(SignalErrorCode::InvalidSignature)
    } else if n == 42 {
        Some(SignalErrorCode::InvalidAttestationData)
    } else if n == 51 {
        Some(SignalErrorCode::FingerprintVersionMismatch)
    } else if n == 52 {
        Some(SignalErrorCode::FingerprintParsingError)
    } else if n == 60 {
        Some(SignalErrorCode::UntrustedIdentity)
    } else if n == 70 {
        Some(SignalErrorCode::InvalidKeyIdentifier)
    } else if n == 80 {
        Some(SignalErrorCode::SessionNotFound)
    } else if n == 81 {
        Some(SignalErrorCode::InvalidRegistrationId)
    } else if n == 82 {
        Some(SignalErrorCode::InvalidSession)
    } else if n == 83 {
        Some(SignalErrorCode::InvalidSenderKeySession)
    } else if n == 90 {
        Some(SignalErrorCode::DuplicatedMessage)
    } else if n == 100 {
        Some(SignalErrorCode::CallbackError)
    } else if n == 110 {
        Some(SignalErrorCode::VerificationFailure)
    } else if n == 120 {
        Some(SignalErrorCode::UsernameCannotBeEmpty)
    } else if n == 121 {
        Some(SignalErrorCode::UsernameCannotStartWithDigit)
    } else if n == 122 {
        Some(SignalErrorCode::UsernameMissingSeparator)
    } else if n == 123 {
        Some(SignalErrorCode::UsernameBadDiscriminatorCharacter)
    } else if n == 124 {
        Some(SignalErrorCode::UsernameBadNicknameCharacter)
    } else if n == 125 {
        Some(SignalErrorCode::UsernameTooShort)
    } else if n == 126 {
        Some(SignalErrorCode::UsernameTooLong)
    } else if n == 127 {
        Some(SignalErrorCode::UsernameLinkInvalidEntropyDataLength)
    } else if n == 128 {
        Some(SignalErrorCode::UsernameLinkInvalid)
    } else if n == 140 {
        Some(SignalErrorCode::UsernameDiscriminatorCannotBeEmpty)
    } else if n == 141 {
        Some(SignalErrorCode::UsernameDiscriminatorCannotBeZero)
    } else if n == 142 {
        Some(SignalErrorCode::UsernameDiscriminatorCannotBeSingleDigit)
    } else if n == 143 {
        Some(SignalErrorCode::UsernameDiscriminatorCannotHaveLeadingZeros)
    } else if n == 144 {
        Some(SignalErrorCode::UsernameDiscriminatorTooLarge)
    } else if n == 130 {
        Some(SignalErrorCode::IoError)
    } else if n == 131 {
        Some(SignalErrorCode::InvalidMediaInput)
    } else if n == 132 {
        Some(SignalErrorCode::UnsupportedMediaInput)
    } else if n == 133 {
        Some(SignalErrorCode::ConnectionTimedOut)
    } else if n == 134 {
        Some(SignalErrorCode::NetworkProtocol)
    } else if n == 135 {
        Some(SignalErrorCode::RateLimited)
    } else if n == 136 {
        Some(SignalErrorCode::WebSocket)
    } else if n == 137 {
        Some(SignalErrorCode::CdsiInvalidToken)
    } else if n == 138 {
        Some(SignalErrorCode::ConnectionFailed)
    } else if n == 139 {
        Some(SignalErrorCode::ChatServiceInactive)
    } else if n == 150 {
        Some(SignalErrorCode::SvrDataMissing)
    } else if n == 151 {
        Some(SignalErrorCode::SvrRestoreFailed)
    } else if n == 160 {
        Some(SignalErrorCode::AppExpired)
    } else if n == 161 {
        Some(SignalErrorCode::DeviceDeregistered)
    } else {
        None
    }
}

impl SignalErrorCode {
    /// The number that stands for this code.
    pub open spec fn value(self) -> int {
        match self {
            SignalErrorCode::UnknownError => 1,
            SignalErrorCode::InvalidState => 2,
            SignalErrorCode::InternalError => 3,
            SignalErrorCode::NullParameter => 4,
            SignalErrorCode::InvalidArgument => 5,
            SignalErrorCode::InvalidType => 6,
            SignalErrorCode::InvalidUtf8String => 7,
            SignalErrorCode::Cancelled => 8,
            SignalErrorCode::ProtobufError => 10,
            SignalErrorCode::LegacyCiphertextVersion => 21,
            SignalErrorCode::UnknownCiphertextVersion => 22,
            SignalErrorCode::UnrecognizedMessageVersion => 23,
            SignalErrorCode::InvalidMessage => 30,
            SignalErrorCode::SealedSenderSelfSend => 31,
            SignalErrorCode::InvalidKey => 40,
            SignalErrorCode::InvalidSignature => 41,
            SignalErrorCode::InvalidAttestationData => 42,
            SignalErrorCode::FingerprintVersionMismatch => 51,
            SignalErrorCode::FingerprintParsingError => 52,
            SignalErrorCode::UntrustedIdentity => 60,
            SignalErrorCode::InvalidKeyIdentifier => 70,
            SignalErrorCode::SessionNotFound => 80,
            SignalErrorCode::InvalidRegistrationId => 81,
            SignalErrorCode::InvalidSession => 82,
            SignalErrorCode::InvalidSenderKeySession => 83,
            SignalErrorCode::DuplicatedMessage => 90,
            SignalErrorCode::CallbackError => 100,
            SignalErrorCode::VerificationFailure => 110,
            SignalErrorCode::UsernameCannotBeEmpty => 120,
            SignalErrorCode::UsernameCannotStartWithDigit => 121,
            SignalErrorCode::UsernameMissingSeparator => 122,
            SignalErrorCode::UsernameBadDiscriminatorCharacter => 123,
            SignalErrorCode::UsernameBadNicknameCharacter => 124,
            SignalErrorCode::UsernameTooShort => 125,
            SignalErrorCode::UsernameTooLong => 126,
            SignalErrorCode::UsernameLinkInvalidEntropyDataLength => 127,
            SignalErrorCode::UsernameLinkInvalid => 128,
            SignalErrorCode::UsernameDiscriminatorCannotBeEmpty => 140,
            SignalErrorCode::UsernameDiscriminatorCannotBeZero => 141,
            SignalErrorCode::UsernameDiscriminatorCannotBeSingleDigit => 142,
            SignalErrorCode::UsernameDiscriminatorCannotHaveLeadingZeros => 143,
            SignalErrorCode::UsernameDiscriminatorTooLarge => 144,
            SignalErrorCode::IoError => 130,
            SignalErrorCode::InvalidMediaInput => 131,
            SignalErrorCode::UnsupportedMediaInput => 132,
            SignalErrorCode::ConnectionTimedOut => 133,
            SignalErrorCode::NetworkProtocol => 134,
            SignalErrorCode::RateLimited => 135,
            SignalErrorCode::WebSocket => 136,
            SignalErrorCode::CdsiInvalidToken => 137,
            SignalErrorCode::ConnectionFailed => 138,
            SignalErrorCode::ChatServiceInactive => 139,
            SignalErrorCode::SvrDataMissing => 150,
            SignalErrorCode::SvrRestoreFailed => 151,
            SignalErrorCode::AppExpired => 160,
            SignalErrorCode::DeviceDeregistered => 161,
        }
    }

    /// The category that this code belongs to.
    pub open spec fn category(self) -> ErrorCategory {
        match self {
            SignalErrorCode::UnknownError => ErrorCategory::Generic,
            SignalErrorCode::InvalidState => ErrorCategory::Generic,
            SignalErrorCode::InternalError => ErrorCategory::Generic,
            SignalErrorCode::NullParameter => ErrorCategory::Generic,
            SignalErrorCode::InvalidArgument => ErrorCategory::Generic,
            SignalErrorCode::InvalidType => ErrorCategory::Generic,
            SignalErrorCode::InvalidUtf8String => ErrorCategory::Generic,
            SignalErrorCode::Cancelled => ErrorCategory::Generic,
            SignalErrorCode::ProtobufError => ErrorCategory::Encoding,
            SignalErrorCode::LegacyCiphertextVersion => ErrorCategory::Version,
            SignalErrorCode::UnknownCiphertextVersion => ErrorCategory::Version,
            SignalErrorCode::UnrecognizedMessageVersion => ErrorCategory::Version,
            SignalErrorCode::InvalidMessage => ErrorCategory::MessageValidity,
            SignalErrorCode::SealedSenderSelfSend => ErrorCategory::MessageValidity,
            SignalErrorCode::InvalidKey => ErrorCategory::KeyMaterial,
            SignalErrorCode::InvalidSignature => ErrorCategory::KeyMaterial,
            SignalErrorCode::InvalidAttestationData => ErrorCategory::KeyMaterial,
            SignalErrorCode::FingerprintVersionMismatch => ErrorCategory::Fingerprint,
            SignalErrorCode::FingerprintParsingError => ErrorCategory::Fingerprint,
            SignalErrorCode::UntrustedIdentity => ErrorCategory::Trust,
            SignalErrorCode::InvalidKeyIdentifier => ErrorCategory::KeyIdentifier,
            SignalErrorCode::SessionNotFound => ErrorCategory::SessionState,
            SignalErrorCode::InvalidRegistrationId => ErrorCategory::SessionState,
            SignalErrorCode::InvalidSession => ErrorCategory::SessionState,
            SignalErrorCode::InvalidSenderKeySession => ErrorCategory::SessionState,
            SignalErrorCode::DuplicatedMessage => ErrorCategory::Duplication,
            SignalErrorCode::CallbackError => ErrorCategory::Callback,
            SignalErrorCode::VerificationFailure => ErrorCategory::Verification,
            SignalErrorCode::UsernameCannotBeEmpty => ErrorCategory::Username,
            SignalErrorCode::UsernameCannotStartWithDigit => ErrorCategory::Username,
            SignalErrorCode::UsernameMissingSeparator => ErrorCategory::Username,
            SignalErrorCode::UsernameBadDiscriminatorCharacter => ErrorCategory::Username,
            SignalErrorCode::UsernameBadNicknameCharacter => ErrorCategory::Username,
            SignalErrorCode::UsernameTooShort => ErrorCategory::Username,
            SignalErrorCode::UsernameTooLong => ErrorCategory::Username,
            SignalErrorCode::UsernameLinkInvalidEntropyDataLength => ErrorCategory::Username,
            SignalErrorCode::UsernameLinkInvalid => ErrorCategory::Username,
            SignalErrorCode::UsernameDiscriminatorCannotBeEmpty => ErrorCategory::Username,
            SignalErrorCode::UsernameDiscriminatorCannotBeZero => ErrorCategory::Username,
            SignalErrorCode::UsernameDiscriminatorCannotBeSingleDigit => ErrorCategory::Username,
            SignalErrorCode::UsernameDiscriminatorCannotHaveLeadingZeros => ErrorCategory::Username,
            SignalErrorCode::UsernameDiscriminatorTooLarge => ErrorCategory::Username,
            SignalErrorCode::IoError => ErrorCategory::IoNetwork,
            SignalErrorCode::InvalidMediaInput => ErrorCategory::Media,
            SignalErrorCode::UnsupportedMediaInput => ErrorCategory::Media,
            SignalErrorCode::ConnectionTimedOut => ErrorCategory::IoNetwork,
            SignalErrorCode::NetworkProtocol => ErrorCategory::IoNetwork,
            SignalErrorCode::RateLimited => ErrorCategory::IoNetwork,
            SignalErrorCode::WebSocket => ErrorCategory::IoNetwork,
            SignalErrorCode::CdsiInvalidToken => ErrorCategory::IoNetwork,
            SignalErrorCode::ConnectionFailed => ErrorCategory::IoNetwork,
            SignalErrorCode::ChatServiceInactive => ErrorCategory::IoNetwork,
            SignalErrorCode::SvrDataMissing => ErrorCategory::RecoveryService,
            SignalErrorCode::SvrRestoreFailed => ErrorCategory::RecoveryService,
            SignalErrorCode::AppExpired => ErrorCategory::Lifecycle,
            SignalErrorCode::DeviceDeregistered => ErrorCategory::Lifecycle,
        }
    }

    /// The number handed to the host for this code.
    pub fn code(&self) -> (r: u32)
        ensures
            r as int == self.value(),
    {
        match self {
            SignalErrorCode::UnknownError => 1,
            SignalErrorCode::InvalidState => 2,
            SignalErrorCode::InternalError => 3,
            SignalErrorCode::NullParameter => 4,
            SignalErrorCode::InvalidArgument => 5,
            SignalErrorCode::InvalidType => 6,
            SignalErrorCode::InvalidUtf8String => 7,
            SignalErrorCode::Cancelled => 8,
            SignalErrorCode::ProtobufError => 10,
            SignalErrorCode::LegacyCiphertextVersion => 21,
            SignalErrorCode::UnknownCiphertextVersion => 22,
            SignalErrorCode::UnrecognizedMessageVersion => 23,
            SignalErrorCode::InvalidMessage => 30,
            SignalErrorCode::SealedSenderSelfSend => 31,
            SignalErrorCode::InvalidKey => 40,
            SignalErrorCode::InvalidSignature => 41,
            SignalErrorCode::InvalidAttestationData => 42,
            SignalErrorCode::FingerprintVersionMismatch => 51,
            SignalErrorCode::FingerprintParsingError => 52,
            SignalErrorCode::UntrustedIdentity => 60,
            SignalErrorCode::InvalidKeyIdentifier => 70,
            SignalErrorCode::SessionNotFound => 80,
            SignalErrorCode::InvalidRegistrationId => 81,
            SignalErrorCode::InvalidSession => 82,
            SignalErrorCode::InvalidSenderKeySession => 83,
            SignalErrorCode::DuplicatedMessage => 90,
            SignalErrorCode::CallbackError => 100,
            SignalErrorCode::VerificationFailure => 110,
            SignalErrorCode::UsernameCannotBeEmpty => 120,
            SignalErrorCode::UsernameCannotStartWithDigit => 121,
            SignalErrorCode::UsernameMissingSeparator => 122,
            SignalErrorCode::UsernameBadDiscriminatorCharacter => 123,
            SignalErrorCode::UsernameBadNicknameCharacter => 124,
            SignalErrorCode::UsernameTooShort => 125,
            SignalErrorCode::UsernameTooLong => 126,
            SignalErrorCode::UsernameLinkInvalidEntropyDataLength => 127,
            SignalErrorCode::UsernameLinkInvalid => 128,
            SignalErrorCode::UsernameDiscriminatorCannotBeEmpty => 140,
            SignalErrorCode::UsernameDiscriminatorCannotBeZero => 141,
            SignalErrorCode::UsernameDiscriminatorCannotBeSingleDigit => 142,
            SignalErrorCode::UsernameDiscriminatorCannotHaveLeadingZeros => 143,
            SignalErrorCode::UsernameDiscriminatorTooLarge => 144,
            SignalErrorCode::IoError => 130,
            SignalErrorCode::InvalidMediaInput => 131,
            SignalErrorCode::UnsupportedMediaInput => 132,
            SignalErrorCode::ConnectionTimedOut => 133,
            SignalErrorCode::NetworkProtocol => 134,
            SignalErrorCode::RateLimited => 135,
            SignalErrorCode::WebSocket => 136,
            SignalErrorCode::CdsiInvalidToken => 137,
            SignalErrorCode::ConnectionFailed => 138,
            SignalErrorCode::ChatServiceInactive => 139,
            SignalErrorCode::SvrDataMissing => 150,
            SignalErrorCode::SvrRestoreFailed => 151,
            SignalErrorCode::AppExpired => 160,
            SignalErrorCode::DeviceDeregistered => 161,
        }
    }

    /// The code that a number stands for, or `None` for a number that no code has.
    pub fn from_code(n: u32) -> (r: Option<SignalErrorCode>)
        ensures
            r == code_of_value(n as int),
    {
        match n {
            1 => Some(SignalErrorCode::UnknownError),
            2 => Some(SignalErrorCode::InvalidState),
            3 => Some(SignalErrorCode::InternalError),
            4 => Some(SignalErrorCode::NullParameter),
            5 => Some(SignalErrorCode::InvalidArgument),
            6 => Some(SignalErrorCode::InvalidType),
            7 => Some(SignalErrorCode::InvalidUtf8String),
            8 => Some(SignalErrorCode::Cancelled),
            10 => Some(SignalErrorCode::ProtobufError),
            21 => Some(SignalErrorCode::LegacyCiphertextVersion),
            22 => Some(SignalErrorCode::UnknownCiphertextVersion),
            23 => Some(SignalErrorCode::UnrecognizedMessageVersion),
            30 => Some(SignalErrorCode::InvalidMessage),
            31 => Some(SignalErrorCode::SealedSenderSelfSend),
            40 => Some(SignalErrorCode::InvalidKey),
            41 => Some(SignalErrorCode::InvalidSignature),
            42 => Some(SignalErrorCode::InvalidAttestationData),
            51 => Some(SignalErrorCode::FingerprintVersionMismatch),
            52 => Some(SignalErrorCode::FingerprintParsingError),
            60 => Some(SignalErrorCode::UntrustedIdentity),
            70 => Some(SignalErrorCode::InvalidKeyIdentifier),
            80 => Some(SignalErrorCode::SessionNotFound),
            81 => Some(SignalErrorCode::InvalidRegistrationId),
            82 => Some(SignalErrorCode::InvalidSession),
            83 => Some(SignalErrorCode::InvalidSenderKeySession),
            90 => Some(SignalErrorCode::DuplicatedMessage),
            100 => Some(SignalErrorCode::CallbackError),
            110 => Some(SignalErrorCode::VerificationFailure),
            120 => Some(SignalErrorCode::UsernameCannotBeEmpty),
            121 => Some(SignalErrorCode::UsernameCannotStartWithDigit),
            122 => Some(SignalErrorCode::UsernameMissingSeparator),
            123 => Some(SignalErrorCode::UsernameBadDiscriminatorCharacter),
            124 => Some(SignalErrorCode::UsernameBadNicknameCharacter),
            125 => Some(SignalErrorCode::UsernameTooShort),
            126 => Some(SignalErrorCode::UsernameTooLong),
            127 => Some(SignalErrorCode::UsernameLinkInvalidEntropyDataLength),
            128 => Some(SignalErrorCode::UsernameLinkInvalid),
            140 => Some(SignalErrorCode::UsernameDiscriminatorCannotBeEmpty),
            141 => Some(SignalErrorCode::UsernameDiscriminatorCannotBeZero),
            142 => Some(SignalErrorCode::UsernameDiscriminatorCannotBeSingleDigit),
            143 => Some(SignalErrorCode::UsernameDiscriminatorCannotHaveLeadingZeros),
            144 => Some(SignalErrorCode::UsernameDiscriminatorTooLarge),
            130 => Some(SignalErrorCode::IoError),
            131 => Some(SignalErrorCode::InvalidMediaInput),
            132 => Some(SignalErrorCode::UnsupportedMediaInput),
            133 => Some(SignalErrorCode::ConnectionTimedOut),
            134 => Some(SignalErrorCode::NetworkProtocol),
            135 => Some(SignalErrorCode::RateLimited),
            136 => Some(SignalErrorCode::WebSocket),
            137 => Some(SignalErrorCode::CdsiInvalidToken),
            138 => Some(SignalErrorCode::ConnectionFailed),
            139 => Some(SignalErrorCode::ChatServiceInactive),
            150 => Some(SignalErrorCode::SvrDataMissing),
            151 => Some(SignalErrorCode::SvrRestoreFailed),
            160 => Some(SignalErrorCode::AppExpired),
            161 => Some(SignalErrorCode::DeviceDeregistered),
            _ => None,
        }
    }
}

/// Each code is the only one that stands for its number: reading the number back
/// gives the same code.
pub proof fn lemma_code_round_trip(c: SignalErrorCode)
    ensures
        code_of_value(c.value()) == Some(c),
{
}

/// No two codes share a number.
pub proof fn lemma_codes_distinct(c1: SignalErrorCode, c2: SignalErrorCode)
    ensures
        c1.value() == c2.value() ==> c1 == c2,
{
    lemma_code_round_trip(c1);
    lemma_code_round_trip(c2);
}

/// Every code is a positive number that lies in the documented range of its
/// own category, so the category of a number never depends on which code holds it.
pub proof fn lemma_code_in_category_range(c: SignalErrorCode)
    ensures
        c.value() >= 1,
        category_of_value(c.value()) == Some(c.category()),
{
}

/// A number that stands for a code lies in the range of that code's category.
pub proof fn lemma_value_category_stable(n: int)
    ensures
        code_of_value(n) matches Some(c) ==> category_of_value(n) == Some(c.category())
            && c.value() == n,
{
}

} // verus!
