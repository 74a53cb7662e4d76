//! The signing component: one immutable RSA keypair, loaded once from a
//! structured credential document, producing RSA-PSS signatures over the
//! SHA-256 digest of a message, and deriving the account address as the
//! 32-byte digest of the public modulus.
//!
//! Signature verification is a standalone pure operation needing only the
//! public modulus, the message and the signature.

use vstd::prelude::*;

use crate::codec;
use crate::codec::b64_decode;
use crate::codec::Base64;
use crate::error::Error;
use crate::hash::sha256;
use crate::hash::sha256_of;

verus! {

#[verifier::external_type_specification]
#[verifier::external_body]
pub struct ExRsaPrivateKey(rsa::RsaPrivateKey);

/// Whether the RSA-PSS check with SHA-256 accepts `sig` as a signature over
/// the 32-byte `digest` under the public key with big-endian modulus `n_be`
/// and exponent `e_be`. Stands for rsa's PSS verification: the outcome
/// depends on these values alone.
pub uninterp spec fn pss_verifies(n_be: Seq<u8>, e_be: Seq<u8>, digest: Seq<u8>, sig: Seq<u8>) -> bool;

/// The string under the given top-level key of a JSON document, if the
/// document parses and the key holds a string. Stands for serde_json's
/// lookup: the outcome depends on the document and the key alone.
pub uninterp spec fn jwk_field_of(doc: Seq<char>, key: Seq<char>) -> Option<Seq<char>>;

/// Whether the five big-endian byte strings pass rsa's key validation: the
/// factors are greater than one and multiply to the modulus, the exponents
/// invert each other modulo each factor less one, and the public parts are
/// well formed — the factors are never tested for primality. The outcome
/// depends on these values alone.
pub uninterp spec fn rsa_key_consistent(
    n: Seq<u8>,
    e: Seq<u8>,
    d: Seq<u8>,
    p: Seq<u8>,
    q: Seq<u8>,
) -> bool;

/// The fixed public exponent of the ledger's keys, big-endian: 65537.
pub open spec fn fixed_exponent_be() -> Seq<u8> {
    seq![1u8, 0u8, 1u8]
}

/// `s` without its leading zero bytes: the canonical big-endian form of the
/// unsigned integer the bytes spell.
pub open spec fn strip_leading_zeros(s: Seq<u8>) -> Seq<u8>
    decreases s.len(),
{
    if s.len() == 0 {
        s
    } else if s[0] == 0 {
        strip_leading_zeros(s.skip(1))
    } else {
        s
    }
}

/// The least and greatest accepted length of the modulus, in bytes: below
/// 67 the salted SHA-256 padding cannot fit into the encoded message, and
/// above 512 the verifier's 4096-bit cap rejects the key.
pub open spec fn modulus_len_ok(len: int) -> bool {
    67 <= len <= 512
}

/// Whether a credential document yields a keypair: a JSON object whose keys
/// `n`, `e`, `d`, `p` and `q` hold URL-safe base64 text, whose exponent is
/// the fixed one, whose modulus has an accepted length, and whose decoded
/// parameters are consistent key material.
pub open spec fn jwk_ok(doc: Seq<char>) -> bool {
    &&& jwk_field_of(doc, "n"@) is Some
    &&& jwk_field_of(doc, "e"@) is Some
    &&& jwk_field_of(doc, "d"@) is Some
    &&& jwk_field_of(doc, "p"@) is Some
    &&& jwk_field_of(doc, "q"@) is Some
    &&& b64_decode(jwk_field_of(doc, "n"@)->0) is Some
    &&& b64_decode(jwk_field_of(doc, "e"@)->0) is Some
    &&& b64_decode(jwk_field_of(doc, "d"@)->0) is Some
    &&& b64_decode(jwk_field_of(doc, "p"@)->0) is Some
    &&& b64_decode(jwk_field_of(doc, "q"@)->0) is Some
    &&& b64_decode(jwk_field_of(doc, "e"@)->0)->0 == fixed_exponent_be()
    &&& modulus_len_ok(strip_leading_zeros(b64_decode(jwk_field_of(doc, "n"@)->0)->0).len() as int)
    &&& rsa_key_consistent(
        b64_decode(jwk_field_of(doc, "n"@)->0)->0,
        fixed_exponent_be(),
        b64_decode(jwk_field_of(doc, "d"@)->0)->0,
        b64_decode(jwk_field_of(doc, "p"@)->0)->0,
        b64_decode(jwk_field_of(doc, "q"@)->0)->0,
    )
}

/// Relies on serde_json::from_str and Value::get: the string under the given
/// top-level key of a JSON document, a function of document and key alone.
#[verifier::external_body]
fn json_string_field(doc: &str, key: &str) -> (r: Option<String>)
    ensures
        r is Some <==> jwk_field_of(doc@, key@) is Some,
        r is Some ==> r->0@ == jwk_field_of(doc@, key@)->0,
{
    match serde_json::from_str::<serde_json::Value>(doc) {
        Ok(value) => match value.get(key) {
            Some(field) => field.as_str().map(|s| s.to_string()),
            None => None,
        },
        Err(_) => None,
    }
}

/// Relies on rsa::RsaPrivateKey::from_components, which deterministically
/// validates the big-endian key material (the factors are greater than one
/// and multiply to the modulus, the exponents invert each other modulo each
/// factor less one, the public parts are well formed) and rejects an
/// inconsistent set; and on PublicKeyParts::n with BigUint::to_bytes_be,
/// whose minimal big-endian bytes of the accepted (hence nonzero) modulus
/// are the given `n` with its leading zero bytes stripped.
#[verifier::external_body]
fn key_from_parts(n: &[u8], e: &[u8], d: &[u8], p: &[u8], q: &[u8]) -> (r: Option<
    (rsa::RsaPrivateKey, Vec<u8>),
>)
    ensures
        r is Some <==> rsa_key_consistent(n@, e@, d@, p@, q@),
        r is Some ==> (r->0).1@ == strip_leading_zeros(n@),
{
    let n = rsa::BigUint::from_bytes_be(n);
    let e = rsa::BigUint::from_bytes_be(e);
    let d = rsa::BigUint::from_bytes_be(d);
    let p = rsa::BigUint::from_bytes_be(p);
    let q = rsa::BigUint::from_bytes_be(q);
    match rsa::RsaPrivateKey::from_components(n, e, d, vec![p, q]) {
        Ok(key) => {
            let modulus = rsa::traits::PublicKeyParts::n(&key).to_bytes_be();
            Some((key, modulus))
        },
        Err(_) => None,
    }
}

/// Relies on rsa::RsaPrivateKey::sign_with_rng with PSS padding over SHA-256,
/// and on the signer holding the public parts of its own accepted keypair:
/// the padding is salted from the system's randomness, so the bytes vary
/// between calls, but before returning, signing re-encrypts the raw signature
/// under the public parts and fails unless it round-trips, so every signature
/// handed out verifies — provided the modulus also fits under the verifier's
/// 4096-bit cap, whence the length condition. No success is promised: the
/// validation behind the keypair never tests the factors for primality, and
/// signing fails inside the key operation when they are composite, or in the
/// padding when the modulus is shorter than digest, salt and two more bytes.
#[verifier::external_body]
fn pss_sign(signer: &Signer, digest: &[u8; 32]) -> (r: Result<Vec<u8>, ()>)
    ensures
        r is Ok ==> r->Ok_0@.len() > 0,
        signer.modulus_bytes().len() <= 512 ==> (r is Ok ==> pss_verifies(
            signer.modulus_bytes(),
            signer.exponent_bytes(),
            digest@,
            r->Ok_0@,
        )),
{
    let mut rng = rand::rngs::OsRng;
    signer.key.sign_with_rng(&mut rng, rsa::Pss::new::<sha2::Sha256>(), digest).map_err(|_| ())
}

/// Relies on rsa::RsaPublicKey::verify with PSS padding over SHA-256: the
/// check recovers the salt from the signature itself, so the outcome is a
/// function of key, digest and signature alone.
#[verifier::external_body]
fn pss_verify(n_be: &[u8], e_be: &[u8], digest: &[u8], sig: &[u8]) -> (r: bool)
    ensures
        r == pss_verifies(n_be@, e_be@, digest@, sig@),
{
    let n = rsa::BigUint::from_bytes_be(n_be);
    let e = rsa::BigUint::from_bytes_be(e_be);
    match rsa::RsaPublicKey::new(n, e) {
        Ok(key) => key.verify(rsa::Pss::new::<sha2::Sha256>(), digest, sig).is_ok(),
        Err(_) => false,
    }
}

/// Owns exactly one immutable keypair, fully usable from construction on;
/// there is no partially-loaded state.
pub struct Signer {
    key: rsa::RsaPrivateKey,
    modulus: Vec<u8>,
    exponent: Vec<u8>,
}

impl Signer {
    /// Every signer's modulus has an accepted length, by construction.
    #[verifier::type_invariant]
    closed spec fn well_sized(self) -> bool {
        modulus_len_ok(self.modulus@.len() as int)
    }

    /// The big-endian bytes of the public modulus, fixed at construction.
    pub closed spec fn modulus_bytes(&self) -> Seq<u8> {
        self.modulus@
    }

    /// The big-endian bytes of the public exponent, fixed at construction.
    pub closed spec fn exponent_bytes(&self) -> Seq<u8> {
        self.exponent@
    }

    /// Builds a signer from a credential document: a JSON object carrying the
    /// RSA key parameters as URL-safe base64 text under the keys `n`, `e`,
    /// `d`, `p` and `q`. Succeeds exactly on such a document whose exponent
    /// is the fixed one, whose modulus has an accepted length, and whose
    /// parameters are consistent; fails with a key-load error when a field is
    /// missing, not valid base64, the exponent is another one, the modulus is
    /// out of range, or the parameters disagree.
    pub fn from_jwk_str(jwk: &str) -> (r: Result<Signer, Error>)
        ensures
            r is Ok <==> jwk_ok(jwk@),
            r is Ok ==> r->Ok_0.modulus_bytes() == strip_leading_zeros(
                b64_decode(jwk_field_of(jwk@, "n"@)->0)->0,
            ),
            r is Ok ==> modulus_len_ok(r->Ok_0.modulus_bytes().len() as int),
            r is Ok ==> r->Ok_0.exponent_bytes() == fixed_exponent_be(),
            r is Err ==> r->Err_0 is KeyLoadError,
    {
        let n_text = match json_string_field(jwk, "n") {
            Some(s) => s,
            None => {
                return Err(Error::KeyLoadError("missing field: n".to_string()));
            },
        };
        let e_text = match json_string_field(jwk, "e") {
            Some(s) => s,
            None => {
                return Err(Error::KeyLoadError("missing field: e".to_string()));
            },
        };
        let d_text = match json_string_field(jwk, "d") {
            Some(s) => s,
            None => {
                return Err(Error::KeyLoadError("missing field: d".to_string()));
            },
        };
        let p_text = match json_string_field(jwk, "p") {
            Some(s) => s,
            None => {
                return Err(Error::KeyLoadError("missing field: p".to_string()));
            },
        };
        let q_text = match json_string_field(jwk, "q") {
            Some(s) => s,
            None => {
                return Err(Error::KeyLoadError("missing field: q".to_string()));
            },
        };
        let n = match codec::decode(n_text.as_str()) {
            Ok(v) => v,
            Err(_) => {
                return Err(Error::KeyLoadError("field n is not base64".to_string()));
            },
        };
        let e = match codec::decode(e_text.as_str()) {
            Ok(v) => v,
            Err(_) => {
                return Err(Error::KeyLoadError("field e is not base64".to_string()));
            },
        };
        let d = match codec::decode(d_text.as_str()) {
            Ok(v) => v,
            Err(_) => {
                return Err(Error::KeyLoadError("field d is not base64".to_string()));
            },
        };
        let p = match codec::decode(p_text.as_str()) {
            Ok(v) => v,
            Err(_) => {
                return Err(Error::KeyLoadError("field p is not base64".to_string()));
            },
        };
        let q = match codec::decode(q_text.as_str()) {
            Ok(v) => v,
            Err(_) => {
                return Err(Error::KeyLoadError("field q is not base64".to_string()));
            },
        };
        let exponent_is_fixed: bool = e.len() == 3 && e[0] == 1 && e[1] == 0 && e[2] == 1;
        if !exponent_is_fixed {
            proof {
                if e@ == fixed_exponent_be() {
                    assert(e@.len() == 3);
                    assert(e@[0] == 1u8 && e@[1] == 0u8 && e@[2] == 1u8);
                }
            }
            return Err(Error::KeyLoadError("unsupported public exponent".to_string()));
        }
        proof {
            assert(e@ =~= fixed_exponent_be());
        }
        let (key, modulus) = match key_from_parts(
            n.as_slice(),
            e.as_slice(),
            d.as_slice(),
            p.as_slice(),
            q.as_slice(),
        ) {
            Some(pair) => pair,
            None => {
                return Err(Error::KeyLoadError("inconsistent key parameters".to_string()));
            },
        };
        if modulus.len() < 67 || modulus.len() > 512 {
            return Err(Error::KeyLoadError("modulus length out of range".to_string()));
        }
        Ok(Signer { key, modulus, exponent: e })
    }

    /// Signs the SHA-256 digest of `message` with RSA-PSS. The padding is
    /// salted, so the signature varies between calls, but every signature
    /// produced verifies under this signer's public key; a failure is
    /// reported, never papered over with a default value.
    pub fn sign(&self, message: &[u8]) -> (r: Result<Base64, Error>)
        ensures
            r is Ok ==> r->Ok_0.0@.len() > 0,
            r is Ok ==> pss_verifies(
                self.modulus_bytes(),
                self.exponent_bytes(),
                sha256_of(message@),
                r->Ok_0.0@,
            ),
            r is Err ==> r->Err_0 is SigningError,
    {
        proof {
            use_type_invariant(&*self);
        }
        let digest = sha256(message);
        match pss_sign(self, &digest) {
            Ok(sig) => Ok(Base64(sig)),
            Err(_) => Err(Error::SigningError("signature could not be produced".to_string())),
        }
    }

    /// The public key: the big-endian bytes of the modulus.
    pub fn public_key(&self) -> (r: Result<Base64, Error>)
        ensures
            r is Ok,
            r->Ok_0.0@ == self.modulus_bytes(),
    {
        Ok(Base64(clone_bytes(&self.modulus)))
    }

    /// The modulus of the keypair: the same bytes as [`Self::public_key`],
    /// under the name some callers expect.
    pub fn keypair_modulus(&self) -> (r: Result<Base64, Error>)
        ensures
            r is Ok,
            r->Ok_0.0@ == self.modulus_bytes(),
    {
        Ok(Base64(clone_bytes(&self.modulus)))
    }

    /// The account address derived from the public key: the 32-byte digest
    /// of the modulus bytes.
    pub fn wallet_address(&self) -> (r: Result<Base64, Error>)
        ensures
            r is Ok,
            r->Ok_0.0@ == sha256_of(self.modulus_bytes()),
            r->Ok_0.0@.len() == 32,
    {
        let digest = sha256(self.modulus.as_slice());
        Ok(Base64(vstd::slice::slice_to_vec(digest.as_slice())))
    }
}

/// Law: the account address is stable — it is a function of the signer's
/// fixed modulus, so any two addresses derived from the same signer are
/// equal, whatever happens between the calls.
pub proof fn lemma_wallet_address_stable(signer: Signer, r1: Seq<u8>, r2: Seq<u8>)
    requires
        r1 == sha256_of(signer.modulus_bytes()),
        r2 == sha256_of(signer.modulus_bytes()),
    ensures
        r1 == r2,
{
}

/// A copy of a byte vector.
fn clone_bytes(v: &Vec<u8>) -> (r: Vec<u8>)
    ensures
        r@ == v@,
{
    vstd::slice::slice_to_vec(v.as_slice())
}

/// Checks `signature` against `message` under the public key whose
/// big-endian modulus is `public_key`, with the fixed public exponent.
/// A pure operation: no private key is involved, and an ordinary mismatch
/// is an explicit failure outcome, never a panic.
pub fn verify(public_key: &[u8], message: &[u8], signature: &[u8]) -> (r: Result<(), Error>)
    ensures
        r is Ok <==> pss_verifies(
            public_key@,
            fixed_exponent_be(),
            sha256_of(message@),
            signature@,
        ),
        r is Err ==> r->Err_0 is VerifyError,
{
    let digest = sha256(message);
    let mut exponent: Vec<u8> = Vec::new();
    exponent.push(1);
    exponent.push(0);
    exponent.push(1);
    proof {
        assert(exponent@ =~= seq![1u8, 0u8, 1u8]);
    }
    if pss_verify(public_key, exponent.as_slice(), digest.as_slice(), signature) {
        Ok(())
    } else {
        Err(Error::VerifyError)
    }
}

} // verus!
