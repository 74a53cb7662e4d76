//! The composition root: pure hashing that is always available, beside
//! key-bound operations that fail with a named no-key error when no signer
//! is held, so a keyless process can still hash and verify.

use vstd::prelude::*;

use crate::codec::Base64;
use crate::error::Error;
use crate::hash::DeepHashItem;
use crate::hash::deep_hash_spec;
use crate::hash::sha256;
use crate::hash::sha256_of;
use crate::sign::Signer;

verus! {

/// Owns zero or one signer and no other state.
pub struct Provider {
    pub signer: Option<Box<Signer>>,
}

impl Default for Provider {
    /// A keyless provider: hashing still works, key-bound operations fail
    /// with the no-key error.
    fn default() -> (r: Provider)
        ensures
            !r.has_key(),
    {
        Provider { signer: None }
    }
}

impl Provider {
    /// Whether a signer is held.
    pub open spec fn has_key(&self) -> bool {
        self.signer is Some
    }

    /// The held signer.
    pub open spec fn held(&self) -> Signer
        recommends
            self.has_key(),
    {
        *self.signer->0
    }

    /// A provider around the given signer, or around none.
    pub fn new(signer: Option<Box<Signer>>) -> (r: Provider)
        ensures
            r.signer == signer,
    {
        Provider { signer }
    }

    /// A provider whose signer is loaded from a credential document. It
    /// succeeds exactly on a document that yields a keypair with the fixed
    /// exponent and an accepted modulus length, and fails with a key-load
    /// error on any other.
    pub fn from_jwk_str(jwk: &str) -> (r: Result<Provider, Error>)
        ensures
            r is Ok <==> crate::sign::jwk_ok(jwk@),
            r is Ok ==> r->Ok_0.has_key(),
            r is Ok ==> r->Ok_0.held().modulus_bytes() == crate::sign::strip_leading_zeros(
                crate::codec::b64_decode(crate::sign::jwk_field_of(jwk@, "n"@)->0)->0,
            ),
            r is Ok ==> crate::sign::modulus_len_ok(
                r->Ok_0.held().modulus_bytes().len() as int,
            ),
            r is Ok ==> r->Ok_0.held().exponent_bytes() == crate::sign::fixed_exponent_be(),
            r is Err ==> r->Err_0 is KeyLoadError,
    {
        match Signer::from_jwk_str(jwk) {
            Ok(signer) => Ok(Provider::new(Some(Box::new(signer)))),
            Err(e) => Err(e),
        }
    }

    /// The canonical 48-byte digest of an item tree; always succeeds.
    pub fn deep_hash(&self, deep_hash_item: DeepHashItem) -> (r: [u8; 48])
        ensures
            r@ == deep_hash_spec(deep_hash_item),
    {
        crate::hash::deep_hash(&deep_hash_item)
    }

    /// The general-purpose 32-byte digest of a message; always succeeds.
    pub fn hash_sha256(&self, message: &[u8]) -> (r: [u8; 32])
        ensures
            r@ == sha256_of(message@),
    {
        sha256(message)
    }

    /// Signs `message` with the held signer; fails with the no-key error,
    /// and only then, when none is held. Every signature produced verifies
    /// under the held signer's public key.
    pub fn sign(&self, message: &[u8]) -> (r: Result<Base64, Error>)
        ensures
            !self.has_key() <==> r is Err && r->Err_0 is NoneError,
            self.has_key() ==> (r is Err ==> r->Err_0 is SigningError),
            self.has_key() ==> (r is Ok ==> r->Ok_0.0@.len() > 0),
            self.has_key() ==> (r is Ok ==> crate::sign::pss_verifies(
                self.held().modulus_bytes(),
                self.held().exponent_bytes(),
                sha256_of(message@),
                r->Ok_0.0@,
            )),
    {
        if let Some(signer) = &self.signer {
            signer.sign(message)
        } else {
            Err(Error::NoneError("No private key present".to_string()))
        }
    }

    /// The held signer's modulus bytes; fails with the no-key error, and
    /// only then, when none is held.
    pub fn keypair_modulus(&self) -> (r: Result<Base64, Error>)
        ensures
            self.has_key() ==> r is Ok && r->Ok_0.0@ == self.held().modulus_bytes(),
            !self.has_key() <==> r is Err && r->Err_0 is NoneError,
    {
        if let Some(signer) = &self.signer {
            signer.keypair_modulus()
        } else {
            Err(Error::NoneError("No private key present".to_string()))
        }
    }

    /// The held signer's account address: the 32-byte digest of the modulus
    /// bytes. Fails with the no-key error, and only then, when none is held.
    pub fn wallet_address(&self) -> (r: Result<Base64, Error>)
        ensures
            self.has_key() ==> r is Ok && r->Ok_0.0@ == sha256_of(self.held().modulus_bytes()),
            self.has_key() ==> r->Ok_0.0@.len() == 32,
            !self.has_key() <==> r is Err && r->Err_0 is NoneError,
    {
        if let Some(signer) = &self.signer {
            signer.wallet_address()
        } else {
            Err(Error::NoneError("No private key present".to_string()))
        }
    }

    /// The held signer's public key: the same bytes as
    /// [`Self::keypair_modulus`]. Fails with the no-key error, and only
    /// then, when none is held.
    pub fn public_key(&self) -> (r: Result<Base64, Error>)
        ensures
            self.has_key() ==> r is Ok && r->Ok_0.0@ == self.held().modulus_bytes(),
            !self.has_key() <==> r is Err && r->Err_0 is NoneError,
    {
        if let Some(signer) = &self.signer {
            signer.public_key()
        } else {
            Err(Error::NoneError("No private key present".to_string()))
        }
    }
}

} // verus!
