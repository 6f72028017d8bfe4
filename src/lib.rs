//! Boundary layer between a protocol library and its host runtimes: a stable
//! numeric error vocabulary, the classification of every internal failure into
//! it, primitive argument and result conversions, and a registry of native
//! objects handed to the host as opaque tokens.

pub mod error_code;
pub mod errors;
pub mod classify;
pub mod convert;
pub mod handle;
