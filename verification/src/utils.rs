//! The content digest by which extracted snapshots are told apart.

use sha::sha512::Sha512;
use sha::utils::Digest;
use sha::utils::DigestExt;
use vstd::prelude::*;

verus! {

/// The SHA-512 digest of `bytes`, written as hexadecimal digits.
pub uninterp spec fn sha512_hex(bytes: Seq<u8>) -> Seq<char>;

/// The digest counts the bits of its input in 64 bits; a buffer can be
/// digested when its length in bits fits.
pub open spec fn hashable(bytes: Seq<u8>) -> bool {
    bytes.len() * 8 <= u64::MAX
}

/// Whether a buffer can be digested.
pub fn is_hashable(buf: &[u8]) -> (r: bool)
    ensures
        r == hashable(buf@),
{
    buf.len() as u64 <= u64::MAX / 8
}

/// The digest of a buffer. This calls `Sha512::default().digest(..)` and
/// `to_hex()` of the `sha` crate, whose work is not verified here: the
/// contract only gives the result its name, a function of the bytes alone.
/// The crate multiplies the length by eight in 64 bits, which is why a
/// longer buffer is left out.
#[verifier::external_body]
pub(crate) fn hash_buffer(buf: &[u8]) -> (r: String)
    requires
        hashable(buf@),
    ensures
        r@ == sha512_hex(buf@),
{
    Sha512::default().digest(buf).to_hex()
}

} // verus!
