//! Identity and integrity primitives for a client of a content-addressed
//! ledger: a URL-safe base64 codec, a recursive 48-byte "deep hash" digest
//! used as the signature pre-image for transactions, an RSA-PSS signer that
//! derives an account address from its public modulus, and a provider facade
//! that composes them and degrades cleanly when no key is present.

pub mod codec;
pub mod error;
pub mod hash;
pub mod provider;
pub mod sign;
