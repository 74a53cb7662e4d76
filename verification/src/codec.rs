//! Lossless conversion between raw byte sequences and their URL-safe,
//! unpadded base64 text form (RFC 4648 section 5 alphabet, `-` and `_`,
//! no trailing `=`).
//!
//! The text form is specified exactly by [`b64_encode`] and [`b64_decode`],
//! and the two are proved inverse to one another: see
//! [`lemma_decode_of_encode`] and [`lemma_encode_of_decode`].

use vstd::prelude::*;

use crate::error::Error;

verus! {

/// The character of the URL-safe alphabet at index `v`.
pub open spec fn sextet_char(v: u8) -> char
    recommends
        v < 64,
{
    if v < 26 {
        (v + 65) as char  // 'A'..='Z'
    } else if v < 52 {
        (v + 71) as char  // 'a'..='z'
    } else if v < 62 {
        (v - 4) as char  // '0'..='9'
    } else if v == 62 {
        '-'
    } else {
        '_'
    }
}

/// Whether `c` belongs to the URL-safe alphabet.
pub open spec fn is_b64_char(c: char) -> bool {
    let i = c as int;
    (65 <= i && i <= 90) || (97 <= i && i <= 122) || (48 <= i && i <= 57) || c == '-' || c == '_'
}

/// The index of `c` in the URL-safe alphabet.
pub open spec fn sextet_val(c: char) -> u8
    recommends
        is_b64_char(c),
{
    let i = c as int;
    if 65 <= i && i <= 90 {
        (i - 65) as u8
    } else if 97 <= i && i <= 122 {
        (i - 71) as u8
    } else if 48 <= i && i <= 57 {
        (i + 4) as u8
    } else if c == '-' {
        62u8
    } else {
        63u8
    }
}

/// The URL-safe, unpadded base64 text of a byte sequence: full chunks of
/// three bytes become four characters; a final byte becomes two characters
/// and a final pair of bytes three, with the spare low bits left at zero.
pub open spec fn b64_encode(s: Seq<u8>) -> Seq<char>
    decreases s.len(),
{
    if s.len() == 0 {
        Seq::empty()
    } else if s.len() == 1 {
        seq![sextet_char(s[0] >> 2), sextet_char((s[0] & 3) << 4)]
    } else if s.len() == 2 {
        seq![
            sextet_char(s[0] >> 2),
            sextet_char(((s[0] & 3) << 4) | (s[1] >> 4)),
            sextet_char((s[1] & 15) << 2),
        ]
    } else {
        seq![
            sextet_char(s[0] >> 2),
            sextet_char(((s[0] & 3) << 4) | (s[1] >> 4)),
            sextet_char(((s[1] & 15) << 2) | (s[2] >> 6)),
            sextet_char(s[2] & 63),
        ] + b64_encode(s.skip(3))
    }
}

/// The bytes a URL-safe, unpadded base64 text stands for, or `None` where
/// the text is not one: a character outside the alphabet, a length one more
/// than a multiple of four, or nonzero spare bits in the final character.
pub open spec fn b64_decode(t: Seq<char>) -> Option<Seq<u8>>
    decreases t.len(),
{
    if t.len() == 0 {
        Some(Seq::empty())
    } else if t.len() == 1 {
        None
    } else if t.len() == 2 {
        if is_b64_char(t[0]) && is_b64_char(t[1]) && sextet_val(t[1]) & 15 == 0 {
            Some(seq![(sextet_val(t[0]) << 2) | (sextet_val(t[1]) >> 4)])
        } else {
            None
        }
    } else if t.len() == 3 {
        if is_b64_char(t[0]) && is_b64_char(t[1]) && is_b64_char(t[2]) && sextet_val(t[2]) & 3
            == 0 {
            Some(
                seq![
                    (sextet_val(t[0]) << 2) | (sextet_val(t[1]) >> 4),
                    ((sextet_val(t[1]) & 15) << 4) | (sextet_val(t[2]) >> 2),
                ],
            )
        } else {
            None
        }
    } else {
        if is_b64_char(t[0]) && is_b64_char(t[1]) && is_b64_char(t[2]) && is_b64_char(t[3]) {
            match b64_decode(t.skip(4)) {
                Some(rest) => Some(
                    seq![
                        (sextet_val(t[0]) << 2) | (sextet_val(t[1]) >> 4),
                        ((sextet_val(t[1]) & 15) << 4) | (sextet_val(t[2]) >> 2),
                        ((sextet_val(t[2]) & 3) << 6) | sextet_val(t[3]),
                    ] + rest,
                ),
                None => None,
            }
        } else {
            None
        }
    }
}

proof fn lemma_sextet_char_val(v: u8)
    requires
        v < 64,
    ensures
        is_b64_char(sextet_char(v)),
        sextet_val(sextet_char(v)) == v,
{
}

proof fn lemma_val_sextet_char(c: char)
    requires
        is_b64_char(c),
    ensures
        sextet_val(c) < 64,
        sextet_char(sextet_val(c)) == c,
{
}

proof fn lemma_split1(b0: u8)
    ensures
        b0 >> 2 < 64,
        (b0 & 3) << 4 < 64,
        ((b0 & 3) << 4) & 15 == 0,
        ((b0 >> 2) << 2) | (((b0 & 3) << 4) >> 4) == b0,
{
    assert(b0 >> 2 < 64 && (b0 & 3) << 4 < 64 && ((b0 & 3) << 4) & 15 == 0 && (((b0 >> 2) << 2) | (
    ((b0 & 3) << 4) >> 4)) == b0) by (bit_vector);
}

proof fn lemma_split2(b0: u8, b1: u8)
    ensures
        b0 >> 2 < 64,
        ((b0 & 3) << 4) | (b1 >> 4) < 64,
        (b1 & 15) << 2 < 64,
        ((b1 & 15) << 2) & 3 == 0,
        ((b0 >> 2) << 2) | ((((b0 & 3) << 4) | (b1 >> 4)) >> 4) == b0,
        (((((b0 & 3) << 4) | (b1 >> 4)) & 15) << 4) | (((b1 & 15) << 2) >> 2) == b1,
{
    assert(b0 >> 2 < 64 && ((b0 & 3) << 4) | (b1 >> 4) < 64 && (b1 & 15) << 2 < 64 && ((b1 & 15)
        << 2) & 3 == 0 && (((b0 >> 2) << 2) | ((((b0 & 3) << 4) | (b1 >> 4)) >> 4)) == b0 && ((((((
    b0 & 3) << 4) | (b1 >> 4)) & 15) << 4) | (((b1 & 15) << 2) >> 2)) == b1) by (bit_vector);
}

proof fn lemma_split3(b0: u8, b1: u8, b2: u8)
    ensures
        b0 >> 2 < 64,
        ((b0 & 3) << 4) | (b1 >> 4) < 64,
        ((b1 & 15) << 2) | (b2 >> 6) < 64,
        b2 & 63 < 64,
        ((b0 >> 2) << 2) | ((((b0 & 3) << 4) | (b1 >> 4)) >> 4) == b0,
        (((((b0 & 3) << 4) | (b1 >> 4)) & 15) << 4) | ((((b1 & 15) << 2) | (b2 >> 6)) >> 2) == b1,
        (((((b1 & 15) << 2) | (b2 >> 6)) & 3) << 6) | (b2 & 63) == b2,
{
    assert(b0 >> 2 < 64 && ((b0 & 3) << 4) | (b1 >> 4) < 64 && ((b1 & 15) << 2) | (b2 >> 6) < 64
        && b2 & 63 < 64 && (((b0 >> 2) << 2) | ((((b0 & 3) << 4) | (b1 >> 4)) >> 4)) == b0 && ((((((
    b0 & 3) << 4) | (b1 >> 4)) & 15) << 4) | ((((b1 & 15) << 2) | (b2 >> 6)) >> 2)) == b1 && ((((((
    b1 & 15) << 2) | (b2 >> 6)) & 3) << 6) | (b2 & 63)) == b2) by (bit_vector);
}

proof fn lemma_join1(v0: u8, v1: u8)
    requires
        v0 < 64,
        v1 < 64,
        v1 & 15 == 0,
    ensures
        ((v0 << 2) | (v1 >> 4)) >> 2 == v0,
        ((((v0 << 2) | (v1 >> 4)) & 3) << 4) == v1,
{
    assert(v0 < 64 && v1 < 64 && v1 & 15 == 0 ==> (((v0 << 2) | (v1 >> 4)) >> 2 == v0 && (((((v0
        << 2) | (v1 >> 4))) & 3) << 4) == v1)) by (bit_vector);
}

proof fn lemma_join2(v0: u8, v1: u8, v2: u8)
    requires
        v0 < 64,
        v1 < 64,
        v2 < 64,
        v2 & 3 == 0,
    ensures
        ((v0 << 2) | (v1 >> 4)) >> 2 == v0,
        ((((v0 << 2) | (v1 >> 4)) & 3) << 4) | ((((v1 & 15) << 4) | (v2 >> 2)) >> 4) == v1,
        ((((v1 & 15) << 4) | (v2 >> 2)) & 15) << 2 == v2,
{
    assert(v0 < 64 && v1 < 64 && v2 < 64 && v2 & 3 == 0 ==> (((v0 << 2) | (v1 >> 4)) >> 2 == v0
        && (((((v0 << 2) | (v1 >> 4)) & 3) << 4) | ((((v1 & 15) << 4) | (v2 >> 2)) >> 4)) == v1 && (
    ((((v1 & 15) << 4) | (v2 >> 2)) & 15) << 2) == v2)) by (bit_vector);
}

proof fn lemma_join3(v0: u8, v1: u8, v2: u8, v3: u8)
    requires
        v0 < 64,
        v1 < 64,
        v2 < 64,
        v3 < 64,
    ensures
        ((v0 << 2) | (v1 >> 4)) >> 2 == v0,
        ((((v0 << 2) | (v1 >> 4)) & 3) << 4) | ((((v1 & 15) << 4) | (v2 >> 2)) >> 4) == v1,
        (((((v1 & 15) << 4) | (v2 >> 2)) & 15) << 2) | ((((v2 & 3) << 6) | v3) >> 6) == v2,
        (((v2 & 3) << 6) | v3) & 63 == v3,
{
    assert(v0 < 64 && v1 < 64 && v2 < 64 && v3 < 64 ==> (((v0 << 2) | (v1 >> 4)) >> 2 == v0 && ((((
    (v0 << 2) | (v1 >> 4)) & 3) << 4) | ((((v1 & 15) << 4) | (v2 >> 2)) >> 4)) == v1 && ((((((v1
        & 15) << 4) | (v2 >> 2)) & 15) << 2) | ((((v2 & 3) << 6) | v3) >> 6)) == v2 && ((((v2 & 3)
        << 6) | v3) & 63) == v3)) by (bit_vector);
}

/// Law: decoding inverts encoding — every byte sequence survives the round
/// trip through its URL-safe base64 text unchanged.
pub proof fn lemma_decode_of_encode(s: Seq<u8>)
    ensures
        b64_decode(b64_encode(s)) == Some(s),
    decreases s.len(),
{
    let t = b64_encode(s);
    if s.len() == 0 {
        assert(s =~= Seq::<u8>::empty());
    } else if s.len() == 1 {
        lemma_split1(s[0]);
        lemma_sextet_char_val(s[0] >> 2);
        lemma_sextet_char_val((s[0] & 3) << 4);
        assert(b64_decode(t)->0 =~= s);
    } else if s.len() == 2 {
        lemma_split2(s[0], s[1]);
        lemma_sextet_char_val(s[0] >> 2);
        lemma_sextet_char_val(((s[0] & 3) << 4) | (s[1] >> 4));
        lemma_sextet_char_val((s[1] & 15) << 2);
        assert(b64_decode(t)->0 =~= s);
    } else {
        lemma_split3(s[0], s[1], s[2]);
        lemma_sextet_char_val(s[0] >> 2);
        lemma_sextet_char_val(((s[0] & 3) << 4) | (s[1] >> 4));
        lemma_sextet_char_val(((s[1] & 15) << 2) | (s[2] >> 6));
        lemma_sextet_char_val(s[2] & 63);
        lemma_decode_of_encode(s.skip(3));
        assert(t.skip(4) =~= b64_encode(s.skip(3)));
        assert(b64_decode(t) is Some);
        assert(b64_decode(t)->0 =~= s);
    }
}

/// Law: encoding inverts decoding — every validly-encoded text is exactly
/// the encoding of the bytes it decodes to.
pub proof fn lemma_encode_of_decode(t: Seq<char>)
    requires
        b64_decode(t) is Some,
    ensures
        b64_encode(b64_decode(t)->0) == t,
    decreases t.len(),
{
    let s = b64_decode(t)->0;
    if t.len() == 0 {
        assert(b64_encode(s) =~= t);
    } else if t.len() == 1 {
        // excluded: such a text does not decode
    } else if t.len() == 2 {
        lemma_val_sextet_char(t[0]);
        lemma_val_sextet_char(t[1]);
        lemma_join1(sextet_val(t[0]), sextet_val(t[1]));
        assert(b64_encode(s) =~= t);
    } else if t.len() == 3 {
        lemma_val_sextet_char(t[0]);
        lemma_val_sextet_char(t[1]);
        lemma_val_sextet_char(t[2]);
        lemma_join2(sextet_val(t[0]), sextet_val(t[1]), sextet_val(t[2]));
        assert(b64_encode(s) =~= t);
    } else {
        lemma_val_sextet_char(t[0]);
        lemma_val_sextet_char(t[1]);
        lemma_val_sextet_char(t[2]);
        lemma_val_sextet_char(t[3]);
        lemma_join3(sextet_val(t[0]), sextet_val(t[1]), sextet_val(t[2]), sextet_val(t[3]));
        lemma_encode_of_decode(t.skip(4));
        let rest = b64_decode(t.skip(4))->0;
        assert(s.skip(3) =~= rest);
        assert(b64_encode(s) =~= t);
    }
}

/// Relies on base64's `URL_SAFE_NO_PAD` engine: it encodes with the RFC 4648
/// section 5 alphabet and appends no padding.
#[verifier::external_body]
fn encode_raw(bytes: &[u8]) -> (r: String)
    ensures
        r@ == b64_encode(bytes@),
{
    base64::Engine::encode(&base64::engine::general_purpose::URL_SAFE_NO_PAD, bytes)
}

/// Relies on base64's `URL_SAFE_NO_PAD` engine: it accepts exactly the
/// canonical unpadded texts (alphabet characters only, no length one more
/// than a multiple of four, zero spare bits) and inverts the encoding.
#[verifier::external_body]
fn decode_raw(text: &str) -> (r: Option<Vec<u8>>)
    ensures
        r is Some <==> b64_decode(text@) is Some,
        r is Some ==> r->0@ == b64_decode(text@)->0,
{
    base64::Engine::decode(&base64::engine::general_purpose::URL_SAFE_NO_PAD, text).ok()
}

/// Encode bytes as URL-safe, unpadded base64 text.
pub fn encode(bytes: &[u8]) -> (r: String)
    ensures
        r@ == b64_encode(bytes@),
{
    encode_raw(bytes)
}

/// Decode URL-safe, unpadded base64 text, rejecting malformed input.
pub fn decode(text: &str) -> (r: Result<Vec<u8>, Error>)
    ensures
        r is Ok <==> b64_decode(text@) is Some,
        r is Ok ==> r->Ok_0@ == b64_decode(text@)->0,
        r is Err ==> r->Err_0 is DecodeError,
{
    match decode_raw(text) {
        Some(v) => Ok(v),
        None => Err(Error::DecodeError("not URL-safe unpadded base64".to_string())),
    }
}

/// A byte sequence whose URL-safe base64 text is a derived view.
pub struct Base64(pub Vec<u8>);

impl Base64 {
    /// The URL-safe, unpadded base64 text of the held bytes.
    pub fn to_text(&self) -> (r: String)
        ensures
            r@ == b64_encode(self.0@),
    {
        encode(self.0.as_slice())
    }

    /// The bytes a URL-safe, unpadded base64 text stands for.
    pub fn from_text(text: &str) -> (r: Result<Base64, Error>)
        ensures
            r is Ok <==> b64_decode(text@) is Some,
            r is Ok ==> r->Ok_0.0@ == b64_decode(text@)->0,
            r is Err ==> r->Err_0 is DecodeError,
    {
        match decode(text) {
            Ok(v) => Ok(Base64(v)),
            Err(e) => Err(e),
        }
    }
}

} // verus!
