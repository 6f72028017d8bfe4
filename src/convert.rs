//! Conversions of call arguments from their host representation and of results
//! into it. Every conversion that can fail does so with a classifiable
//! failure cause, never with a partially built value.
use vstd::prelude::*;
use crate::classify::classify;
use crate::error_code::SignalErrorCode;
use crate::errors::{SignalFfiError, SignalProtocolError};
use vstd::utf8::{decode_utf8, valid_utf8};

verus! {

/// The host's boolean `true`.
pub const HOST_TRUE: u8 = 1;

/// The host's boolean `false`.
pub const HOST_FALSE: u8 = 0;

/// Relies on `std::str::from_utf8`: it accepts exactly the well-formed UTF-8
/// sequences and returns the text that they encode.
#[verifier::external_body]
fn str_from_utf8(bytes: &[u8]) -> (r: Option<String>)
    ensures
        r is Some <==> valid_utf8(bytes@),
        r matches Some(t) ==> t@ == decode_utf8(bytes@),
{
    std::str::from_utf8(bytes).ok().map(String::from)
}

/// The text that Java's modified UTF-8 bytes stand for, or `None` where they
/// are not well-formed in that encoding.
pub uninterp spec fn java_text_decode(b: Seq<u8>) -> Option<Seq<char>>;

/// Relies on `cesu8::from_java_cesu8`: it decodes Java's modified UTF-8, fails
/// exactly where the bytes are not well-formed in it, and hands back bytes that
/// are already well-formed UTF-8 as the text they encode.
#[verifier::external_body]
fn java_cesu8_decode(bytes: &[u8]) -> (r: Option<String>)
    ensures
        r is Some <==> java_text_decode(bytes@) is Some,
        r matches Some(t) ==> java_text_decode(bytes@) == Some(t@),
        r is None ==> !valid_utf8(bytes@),
        r matches Some(t) ==> (valid_utf8(bytes@) ==> t@ == decode_utf8(bytes@)),
{
    cesu8::from_java_cesu8(bytes).ok().map(|text| text.into_owned())
}

/// The argument that a decoded host string gives: the text itself, or the
/// dedicated encoding failure where the bytes did not decode.
pub fn string_from_decoded(decoded: Option<String>) -> (r: Result<String, SignalFfiError>)
    ensures
        match decoded {
            Some(s) => r matches Ok(t) && t@ == s@,
            None => r matches Err(SignalFfiError::InvalidUtf8String),
        },
{
    match decoded {
        Some(s) => Ok(s),
        None => Err(SignalFfiError::InvalidUtf8String),
    }
}

/// A string argument from a Java host, given as the modified UTF-8 bytes that
/// the JVM hands out: the text they encode, or the dedicated encoding failure.
pub fn java_string_convert_from(foreign: &[u8]) -> (r: Result<String, SignalFfiError>)
    ensures
        match java_text_decode(foreign@) {
            Some(s) => r matches Ok(t) && t@ == s,
            None => r matches Err(SignalFfiError::InvalidUtf8String),
        },
        valid_utf8(foreign@) ==> (r matches Ok(t) && t@ == decode_utf8(foreign@)),
{
    string_from_decoded(java_cesu8_decode(foreign))
}

/// A native type that a host value of type `ArgType` converts into, by value.
pub trait ArgTypeInfo: Sized {
    type ArgType;

    /// Whether `r` is the outcome of converting `foreign`.
    spec fn converts_from(foreign: Self::ArgType, r: Result<Self, SignalFfiError>) -> bool;

    /// Validates `foreign` and converts it, or fails with a classifiable cause.
    fn convert_from(foreign: Self::ArgType) -> (r: Result<Self, SignalFfiError>)
        ensures
            Self::converts_from(foreign, r),
    ;
}

/// A native type that an argument is borrowed as: the conversion produces owned
/// storage of type `StoredType` that lives for the call and is dropped with it.
pub trait RefArgTypeInfo<'a> {
    type ArgType;
    type StoredType;

    /// Whether `r` is the storage produced for `foreign`.
    spec fn stores(foreign: Self::ArgType, r: Result<Self::StoredType, SignalFfiError>) -> bool;

    /// Builds the storage that the borrowed argument refers to during the call.
    fn convert_from(foreign: Self::ArgType) -> (r: Result<Self::StoredType, SignalFfiError>)
        ensures
            Self::stores(foreign, r),
    ;
}

/// A native type that converts into a host value of type `ResultType`.
pub trait ResultTypeInfo: Sized {
    type ResultType;

    /// Whether `r` is the outcome of converting `self` for the host.
    spec fn converts_into(self, r: Result<Self::ResultType, SignalFfiError>) -> bool;

    /// Converts a native result for the host, or fails with a classifiable cause.
    fn convert_into(self) -> (r: Result<Self::ResultType, SignalFfiError>)
        ensures
            self.converts_into(r),
    ;
}

/// An unsigned 32-bit argument comes from a host integer: negative values are
/// out of range and fail rather than wrap.
impl ArgTypeInfo for u32 {
    type ArgType = i32;

    open spec fn converts_from(foreign: i32, r: Result<u32, SignalFfiError>) -> bool {
        if foreign >= 0 {
            r == Ok::<u32, SignalFfiError>(foreign as u32)
        } else {
            r == Err::<u32, SignalFfiError>(SignalFfiError::IntegerOverflow(foreign as i64))
        }
    }

    fn convert_from(foreign: i32) -> (r: Result<u32, SignalFfiError>) {
        if foreign < 0 {
            Err(SignalFfiError::IntegerOverflow(foreign as i64))
        } else {
            Ok(foreign as u32)
        }
    }
}

/// A signed 32-bit integer has the same representation on both sides.
impl ArgTypeInfo for i32 {
    type ArgType = i32;

    open spec fn converts_from(foreign: i32, r: Result<i32, SignalFfiError>) -> bool {
        r == Ok::<i32, SignalFfiError>(foreign)
    }

    fn convert_from(foreign: i32) -> (r: Result<i32, SignalFfiError>) {
        Ok(foreign)
    }
}

impl ResultTypeInfo for i32 {
    type ResultType = i32;

    open spec fn converts_into(self, r: Result<i32, SignalFfiError>) -> bool {
        r == Ok::<i32, SignalFfiError>(self)
    }

    fn convert_into(self) -> (r: Result<i32, SignalFfiError>) {
        Ok(self)
    }
}

/// A string argument comes from the host's bytes in standard UTF-8, which must
/// be well-formed; the empty sequence is the empty string.
impl ArgTypeInfo for String {
    type ArgType = Vec<u8>;

    open spec fn converts_from(foreign: Vec<u8>, r: Result<String, SignalFfiError>) -> bool {
        if valid_utf8(foreign@) {
            r matches Ok(t) && t@ == decode_utf8(foreign@)
        } else {
            r matches Err(SignalFfiError::InvalidUtf8String)
        }
    }

    fn convert_from(foreign: Vec<u8>) -> (r: Result<String, SignalFfiError>) {
        match str_from_utf8(foreign.as_slice()) {
            Some(s) => Ok(s),
            None => Err(SignalFfiError::InvalidUtf8String),
        }
    }
}

/// A byte-slice argument is a native buffer of the same length and content; an
/// empty sequence gives an empty buffer, never a failure.
impl<'a> RefArgTypeInfo<'a> for &'a [u8] {
    type ArgType = &'a [u8];
    type StoredType = Vec<u8>;

    open spec fn stores(foreign: &'a [u8], r: Result<Vec<u8>, SignalFfiError>) -> bool {
        r matches Ok(buf) && buf@ == foreign@
    }

    fn convert_from(foreign: &'a [u8]) -> (r: Result<Vec<u8>, SignalFfiError>) {
        let mut out: Vec<u8> = Vec::with_capacity(foreign.len());
        let mut i: usize = 0;
        while i < foreign.len()
            invariant
                i <= foreign@.len(),
                out@ == foreign@.subrange(0, i as int),
            decreases foreign@.len() - i,
        {
            out.push(foreign[i]);
            i = i + 1;
            assert(out@ =~= foreign@.subrange(0, i as int));
        }
        assert(out@ =~= foreign@);
        Ok(out)
    }
}

/// A boolean result takes the host's convention.
impl ResultTypeInfo for bool {
    type ResultType = u8;

    open spec fn converts_into(self, r: Result<u8, SignalFfiError>) -> bool {
        r == Ok::<u8, SignalFfiError>(if self { HOST_TRUE } else { HOST_FALSE })
    }

    fn convert_into(self) -> (r: Result<u8, SignalFfiError>) {
        Ok(if self { HOST_TRUE } else { HOST_FALSE })
    }
}

/// The outcome of a protocol operation converts as its value does, and a
/// protocol failure becomes a boundary failure cause.
impl<T: ResultTypeInfo> ResultTypeInfo for Result<T, SignalProtocolError> {
    type ResultType = T::ResultType;

    open spec fn converts_into(self, r: Result<T::ResultType, SignalFfiError>) -> bool {
        match self {
            Ok(v) => v.converts_into(r),
            Err(e) => r == Err::<T::ResultType, SignalFfiError>(SignalFfiError::Signal(e)),
        }
    }

    fn convert_into(self) -> (r: Result<T::ResultType, SignalFfiError>) {
        match self {
            Ok(v) => v.convert_into(),
            Err(e) => Err(SignalFfiError::Signal(e)),
        }
    }
}

/// What the host receives from a call: the converted value, or exactly one code
/// for the failure, never both.
pub fn outcome_for_host<T>(outcome: Result<T, SignalFfiError>) -> (r: Result<T, SignalErrorCode>)
    ensures
        match outcome {
            Ok(v) => r == Ok::<T, SignalErrorCode>(v),
            Err(e) => r == Err::<T, SignalErrorCode>(classify(e)),
        },
{
    match outcome {
        Ok(v) => Ok(v),
        Err(e) => Err(e.error_code()),
    }
}

/// A negative host integer given for an unsigned argument reaches the host as
/// the invalid-argument code, never as a wrapped value.
pub proof fn lemma_out_of_range_integer_code(foreign: i32)
    requires
        foreign < 0,
    ensures
        classify(SignalFfiError::IntegerOverflow(foreign as i64)) == SignalErrorCode::InvalidArgument,
{
}

/// Malformed text reaches the host as the dedicated encoding code.
pub proof fn lemma_malformed_string_code()
    ensures
        classify(SignalFfiError::InvalidUtf8String) == SignalErrorCode::InvalidUtf8String,
        SignalErrorCode::InvalidUtf8String.value() == 7,
{
}

} // verus!
