use vstd::prelude::*;

verus! {

/// Every fallible operation of the library returns one of these kinds,
/// carrying its cause; no operation substitutes a default value on error.
#[derive(Debug)]
pub enum Error {
    /// A key-bound operation was attempted while no key is held.
    NoneError(String),
    /// The credential document is missing a field, malformed, or inconsistent.
    KeyLoadError(String),
    /// Encoded text is not valid URL-safe, unpadded base64.
    DecodeError(String),
    /// Producing a signature failed.
    SigningError(String),
    /// A signature did not check out against the given key and message.
    VerifyError,
}

/// Process-level error kinds of the surrounding client.
#[derive(Debug)]
pub enum ArweaveError {
    NetworkInfoError(String),
    UnknownError,
}

} // verus!
