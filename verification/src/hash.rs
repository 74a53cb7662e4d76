//! The recursive canonical digest over nested data ("deep hash"), and the
//! general-purpose 32-byte digest.
//!
//! A [`DeepHashItem`] is either a blob of bytes or an ordered list of items.
//! Its digest is 48 bytes for every input: a blob is hashed under a tag that
//! spells out its byte length in decimal, and a list is folded child by child
//! under a tag that spells out its length, so the digest is deterministic,
//! order-sensitive for lists, and length-tagged for blobs.

use vstd::prelude::*;

verus! {

/// The 32-byte digest of a byte sequence. Stands for SHA-256: the result
/// depends on the bytes alone.
pub uninterp spec fn sha256_of(m: Seq<u8>) -> Seq<u8>;

/// The 48-byte digest of a byte sequence. Stands for SHA-384: the result
/// depends on the bytes alone.
pub uninterp spec fn sha384_of(m: Seq<u8>) -> Seq<u8>;

/// Relies on sha2::Sha256: a 32-byte digest that is a function of the
/// input bytes alone.
#[verifier::external_body]
pub(crate) fn sha256(message: &[u8]) -> (r: [u8; 32])
    ensures
        r@ == sha256_of(message@),
{
    let digest = <sha2::Sha256 as sha2::Digest>::digest(message);
    digest.into()
}

/// Relies on sha2::Sha384: a 48-byte digest that is a function of the
/// input bytes alone.
#[verifier::external_body]
pub(crate) fn sha384(message: &[u8]) -> (r: [u8; 48])
    ensures
        r@ == sha384_of(message@),
{
    let digest = <sha2::Sha384 as sha2::Digest>::digest(message);
    digest.into()
}

/// A recursively structured item to be digested: an opaque byte sequence,
/// or an ordered sequence of items. Order within a list is significant.
pub enum DeepHashItem {
    Blob(Vec<u8>),
    List(Vec<DeepHashItem>),
}

/// The ASCII decimal numeral of `n`, most significant digit first.
pub open spec fn dec_ascii(n: nat) -> Seq<u8>
    decreases n,
{
    if n < 10 {
        seq![(48 + n) as u8]
    } else {
        dec_ascii(n / 10).push((48 + n % 10) as u8)
    }
}

/// The tag hashed ahead of a blob's bytes: `blob` followed by the decimal
/// byte count, so that blobs of different lengths never share a tag.
pub open spec fn blob_tag(len: nat) -> Seq<u8> {
    seq![98u8, 108u8, 111u8, 98u8] + dec_ascii(len)
}

/// The tag a list's fold starts from: `list` followed by the decimal
/// child count.
pub open spec fn list_tag(len: nat) -> Seq<u8> {
    seq![108u8, 105u8, 115u8, 116u8] + dec_ascii(len)
}

/// The canonical 48-byte digest of an item.
pub open spec fn deep_hash_spec(item: DeepHashItem) -> Seq<u8>
    decreases item,
{
    match item {
        DeepHashItem::Blob(b) => sha384_of(sha384_of(blob_tag(b@.len())) + sha384_of(b@)),
        DeepHashItem::List(items) => deep_hash_fold(items@, sha384_of(list_tag(items@.len()))),
    }
}

/// Folds the digests of `items` into `acc`, child by child, in order.
pub open spec fn deep_hash_fold(items: Seq<DeepHashItem>, acc: Seq<u8>) -> Seq<u8>
    decreases items,
{
    if items.len() == 0 {
        acc
    } else {
        deep_hash_fold(items.skip(1), sha384_of(acc + deep_hash_spec(items[0])))
    }
}

pub proof fn lemma_dec_ascii_len(n: nat)
    ensures
        dec_ascii(n).len() >= 1,
    decreases n,
{
    if n >= 10 {
        lemma_dec_ascii_len(n / 10);
    }
}

/// Law: decimal numerals are injective — distinct numbers never share one.
pub proof fn lemma_dec_ascii_injective(a: nat, b: nat)
    requires
        dec_ascii(a) == dec_ascii(b),
    ensures
        a == b,
    decreases a,
{
    if a < 10 && b < 10 {
        assert(dec_ascii(a) == seq![(48 + a) as u8]);
        assert(dec_ascii(b) == seq![(48 + b) as u8]);
        assert(seq![(48 + a) as u8][0] == (48 + a) as u8);
        assert(seq![(48 + b) as u8][0] == (48 + b) as u8);
        assert((48 + a) as u8 == (48 + b) as u8);
        assert(a == b);
    } else if a < 10 && b >= 10 {
        lemma_dec_ascii_len(b / 10);
        assert(dec_ascii(a).len() == 1);
        assert(dec_ascii(b).len() >= 2);
        assert(false);
    } else if a >= 10 && b < 10 {
        lemma_dec_ascii_len(a / 10);
        assert(dec_ascii(b).len() == 1);
        assert(dec_ascii(a).len() >= 2);
        assert(false);
    } else {
        assert(dec_ascii(a) == dec_ascii(a / 10).push((48 + a % 10) as u8));
        assert(dec_ascii(b) == dec_ascii(b / 10).push((48 + b % 10) as u8));
        assert(dec_ascii(a).last() == (48 + a % 10) as u8);
        assert(dec_ascii(b).last() == (48 + b % 10) as u8);
        assert((48 + a % 10) as u8 == (48 + b % 10) as u8);
        assert(a % 10 == b % 10);
        assert(dec_ascii(a / 10) =~= dec_ascii(a).drop_last());
        assert(dec_ascii(b / 10) =~= dec_ascii(b).drop_last());
        lemma_dec_ascii_injective(a / 10, b / 10);
        assert(a == (a / 10) * 10 + a % 10) by (nonlinear_arith);
        assert(b == (b / 10) * 10 + b % 10) by (nonlinear_arith);
        assert(a == b);
    }
}

/// Law: the length channel of blob digests — blobs of different lengths are
/// hashed under different tags, however much their content overlaps.
pub proof fn lemma_blob_tag_length_sensitive(xlen: nat, ylen: nat)
    requires
        xlen != ylen,
    ensures
        blob_tag(xlen) != blob_tag(ylen),
{
    if blob_tag(xlen) == blob_tag(ylen) {
        assert(dec_ascii(xlen) =~= blob_tag(xlen).skip(4));
        assert(dec_ascii(ylen) =~= blob_tag(ylen).skip(4));
        lemma_dec_ascii_injective(xlen, ylen);
    }
}

/// Law: the deep hash is deterministic — it is a function of the item tree,
/// so any two digests of the same unchanged tree are equal.
pub proof fn lemma_deep_hash_deterministic(r1: Seq<u8>, r2: Seq<u8>, item: DeepHashItem)
    requires
        r1 == deep_hash_spec(item),
        r2 == deep_hash_spec(item),
    ensures
        r1 == r2,
{
}

/// The concatenation of two byte slices.
fn concat_bytes(a: &[u8], b: &[u8]) -> (r: Vec<u8>)
    ensures
        r@ == a@ + b@,
{
    let mut r = vstd::slice::slice_to_vec(a);
    let mut tail = vstd::slice::slice_to_vec(b);
    r.append(&mut tail);
    r
}

/// The ASCII decimal numeral of `n`.
fn dec_ascii_bytes(n: u64) -> (r: Vec<u8>)
    ensures
        r@ == dec_ascii(n as nat),
    decreases n,
{
    if n < 10 {
        let mut r: Vec<u8> = Vec::new();
        r.push(48 + n as u8);
        assert(r@ =~= dec_ascii(n as nat));
        r
    } else {
        let mut r = dec_ascii_bytes(n / 10);
        r.push(48 + (n % 10) as u8);
        assert(r@ =~= dec_ascii(n as nat));
        r
    }
}

/// The tag bytes for an item: the four ASCII bytes of `kind` followed by
/// the decimal numeral of `len`.
fn tag_bytes(kind: [u8; 4], len: u64) -> (r: Vec<u8>)
    ensures
        r@ == kind@ + dec_ascii(len as nat),
{
    let mut numeral = dec_ascii_bytes(len);
    let mut r = vstd::slice::slice_to_vec(kind.as_slice());
    r.append(&mut numeral);
    r
}

/// The canonical digest of an item: 48 bytes for every input.
pub fn deep_hash(item: &DeepHashItem) -> (r: [u8; 48])
    ensures
        r@ == deep_hash_spec(*item),
    decreases *item,
{
    match item {
        DeepHashItem::Blob(b) => {
            let tag = tag_bytes([98, 108, 111, 98], b.len() as u64);
            assert(tag@ == blob_tag(b@.len()));
            let tag_digest = sha384(tag.as_slice());
            let blob_digest = sha384(b.as_slice());
            let joined = concat_bytes(tag_digest.as_slice(), blob_digest.as_slice());
            sha384(joined.as_slice())
        },
        DeepHashItem::List(items) => {
            let tag = tag_bytes([108, 105, 115, 116], items.len() as u64);
            assert(tag@ == list_tag(items@.len()));
            let mut acc = sha384(tag.as_slice());
            let ghost whole = deep_hash_spec(*item);
            proof {
                assert(*item == DeepHashItem::List(*items));
                assert(items@.skip(0) =~= items@);
            }
            let mut i: usize = 0;
            while i < items.len()
                invariant
                    i <= items.len(),
                    *item == DeepHashItem::List(*items),
                    deep_hash_fold(items@.skip(i as int), acc@) == whole,
                decreases items.len() - i,
            {
                proof {
                    assert(decreases_to!(*item => (*item)->List_0));
                    assert((*item)->List_0 == *items);
                    assert(decreases_to!(*items => (*items)[i as int]));
                }
                let child_digest = deep_hash(&items[i]);
                let joined = concat_bytes(acc.as_slice(), child_digest.as_slice());
                proof {
                    assert(items@.skip(i as int)[0] == items@[i as int]);
                    assert(items@.skip(i as int).skip(1) =~= items@.skip(i as int + 1));
                }
                acc = sha384(joined.as_slice());
                i = i + 1;
            }
            proof {
                assert(items@.skip(items@.len() as int) =~= Seq::<DeepHashItem>::empty());
            }
            acc
        },
    }
}

} // verus!
