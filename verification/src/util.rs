//! Deriving the cache key under which the space index stores a space: the
//! SHA-256 digest of the label's length-prefixed bytes, written as
//! lowercase hexadecimal.  The digest and the hex writing come from the
//! crates the wallet service itself uses.

use vstd::prelude::*;
use vstd::string::*;

use crate::slabel::{valid_space_label, is_valid_slabel};

verus! {

/// The lowercase hexadecimal digit for a value below sixteen.
pub open spec fn hex_char(d: int) -> char {
    if d == 10 {
        'a'
    } else if d == 11 {
        'b'
    } else if d == 12 {
        'c'
    } else if d == 13 {
        'd'
    } else if d == 14 {
        'e'
    } else if d == 15 {
        'f'
    } else {
        crate::helpers::digit_char(d)
    }
}

/// The lowercase hexadecimal writing of a byte string: two digits per
/// byte, high nibble first.
pub open spec fn hex_of(b: Seq<u8>) -> Seq<char> {
    Seq::new(
        2 * b.len(),
        |i: int|
            if i % 2 == 0 {
                hex_char((b[i / 2] >> 4) as int)
            } else {
                hex_char((b[i / 2] & 0xf) as int)
            },
    )
}

/// The SHA-256 digest of a byte string, named but not written out; it
/// depends on the bytes alone.
pub uninterp spec fn sha256_of(b: Seq<u8>) -> Seq<u8>;

/// Relies on `hex::encode`: the lowercase hexadecimal writing of the
/// bytes, two digits per byte, high nibble first.
#[verifier::external_body]
fn hex_encode(b: &Vec<u8>) -> (r: String)
    ensures
        r@ == hex_of(b@),
{
    hex::encode(b.as_slice())
}

/// Relies on `Sha256` of `spaces_client` (the key hasher of the space
/// index, SHA-256 underneath): a 32-byte digest of the input bytes alone.
#[verifier::external_body]
fn sha256_hash(b: &Vec<u8>) -> (r: Vec<u8>)
    ensures
        r@ == sha256_of(b@),
        r@.len() == 32,
{
    let h = <spaces_client::store::Sha256 as spaces_protocol::hasher::KeyHasher>::hash(
        b.as_slice(),
    );
    h.to_vec()
}

/// The byte encoding of a label as the protocol hashes it: one length
/// byte, then the label's characters as bytes.
pub open spec fn label_bytes(s: Seq<char>) -> Seq<u8> {
    seq![s.len() as u8] + Seq::new(s.len(), |i: int| s[i] as u8)
}

/// The key under which the space index stores a space: the hex writing of
/// the SHA-256 digest of the label's length-prefixed bytes.  A malformed
/// or reserved label has no key.
pub fn space_hash(label: &str) -> (r: Option<String>)
    ensures
        (r is Some) == valid_space_label(label@),
        r matches Some(h) ==> h@ == hex_of(sha256_of(label_bytes(label@))),
{
    if !is_valid_slabel(label) {
        return None;
    }
    let n = label.unicode_len();
    let mut bytes: Vec<u8> = Vec::new();
    bytes.push(n as u8);
    let mut k: usize = 0;
    while k < n
        invariant
            n == label@.len(),
            n <= 62,
            k <= n,
            bytes@.len() == k + 1,
            bytes@[0] == n as u8,
            forall|i: int| 0 <= i < k ==> bytes@[i + 1] == (#[trigger] label@[i]) as u8,
        decreases n - k,
    {
        let c = label.get_char(k);
        bytes.push(c as u8);
        k += 1;
    }
    proof {
        assert(bytes@ =~= label_bytes(label@));
    }
    let digest = sha256_hash(&bytes);
    Some(hex_encode(&digest))
}

} // verus!
