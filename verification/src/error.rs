//! The errors the wrapper reports.
use vstd::prelude::*;

verus! {

/// A caller's string holds a zero byte and so cannot be passed as a null-terminated
/// byte string.
#[derive(Clone, Copy, Debug, PartialEq, Eq, Structural)]
pub struct EncodingError {
    /// Index of the first zero byte in the string's UTF-8 encoding.
    pub position: usize,
}

/// The engine's initialiser reported a status other than success.
#[derive(Clone, Copy, Debug, PartialEq, Eq, Structural)]
pub struct InitError {
    /// The status as the engine gave it.
    pub status_code: i32,
}

/// Why an address could not be evaluated.
#[derive(Clone, Copy, Debug, PartialEq, Eq, Structural)]
pub enum EvalError {
    /// The address cannot be passed to the engine.
    Encoding(EncodingError),
    /// The engine's evaluation routine reported a status other than success.
    Engine {
        /// The status as the engine gave it.
        status_code: i32,
    },
}

/// Why a property value could not be returned.
#[derive(Clone, Debug, PartialEq, Eq)]
pub enum LookupError {
    /// The named property has no value for the evaluated address.
    NotFound(String),
    /// The property name cannot be passed to the engine.
    Encoding(EncodingError),
}

} // verus!
