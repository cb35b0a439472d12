//! Digest and message-authentication primitives over byte strings, and the
//! big-endian integer encodings that feed them.

use vstd::prelude::*;
use sha2::Digest;
use hmac::Mac;

verus! {

/// The SHA-256 digest of a byte string.
pub uninterp spec fn sha256(data: Seq<u8>) -> Seq<u8>;

/// The HMAC-SHA256 tag of a message under a key.
pub uninterp spec fn hmac_sha256(key: Seq<u8>, message: Seq<u8>) -> Seq<u8>;

/// Calls `sha2::Sha256::digest`. The contract claims that the 32 bytes
/// returned are the SHA-256 digest of `data`, a function of `data` alone.
#[verifier::external_body]
pub(crate) fn sha256_digest(data: &[u8]) -> (r: [u8; 32])
    ensures
        r@ == sha256(data@),
{
    sha2::Sha256::digest(data).into()
}

/// Keys `hmac::Hmac<sha2::Sha256>` with `new_from_slice`, feeds the message
/// with `update` and returns `finalize`'s bytes. HMAC takes keys of any
/// length, so `new_from_slice` does not fail. The contract claims that the
/// result is the HMAC-SHA256 tag of `message` under `key`, a function of the
/// two alone.
#[verifier::external_body]
pub(crate) fn hmac_sha256_tag(key: &[u8], message: &[u8]) -> (r: [u8; 32])
    ensures
        r@ == hmac_sha256(key@, message@),
{
    let mut mac = <hmac::Hmac<sha2::Sha256> as Mac>::new_from_slice(key).unwrap();
    mac.update(message);
    mac.finalize().into_bytes().into()
}

/// Big-endian bytes of a 64-bit integer.
pub open spec fn be_bytes_u64(x: u64) -> Seq<u8> {
    Seq::new(8, |i: int| ((x >> ((56 - 8 * i) as u64)) & 0xffu64) as u8)
}

/// Big-endian bytes of a 128-bit integer.
pub open spec fn be_bytes_u128(x: u128) -> Seq<u8> {
    Seq::new(16, |i: int| ((x >> ((120 - 8 * i) as u128)) & 0xffu128) as u8)
}

/// Appends the big-endian bytes of `x`.
pub fn push_be_u64(out: &mut Vec<u8>, x: u64)
    ensures
        final(out)@ == old(out)@ + be_bytes_u64(x),
{
    let mut i: u64 = 0;
    while i < 8
        invariant
            i <= 8,
            out@ == old(out)@ + be_bytes_u64(x).take(i as int),
        decreases 8 - i,
    {
        let shift: u64 = 56 - 8 * i;
        out.push(((x >> shift) & 0xffu64) as u8);
        i = i + 1;
        assert(out@ =~= old(out)@ + be_bytes_u64(x).take(i as int));
    }
    assert(be_bytes_u64(x).take(8) =~= be_bytes_u64(x));
}

/// Appends the big-endian bytes of `x`.
pub fn push_be_u128(out: &mut Vec<u8>, x: u128)
    ensures
        final(out)@ == old(out)@ + be_bytes_u128(x),
{
    let mut i: u128 = 0;
    while i < 16
        invariant
            i <= 16,
            out@ == old(out)@ + be_bytes_u128(x).take(i as int),
        decreases 16 - i,
    {
        let shift: u128 = 120 - 8 * i;
        out.push(((x >> shift) & 0xffu128) as u8);
        i = i + 1;
        assert(out@ =~= old(out)@ + be_bytes_u128(x).take(i as int));
    }
    assert(be_bytes_u128(x).take(16) =~= be_bytes_u128(x));
}

/// Little-endian bytes of a 64-bit integer.
pub open spec fn le_bytes_u64(x: u64) -> Seq<u8> {
    Seq::new(8, |i: int| ((x >> ((8 * i) as u64)) & 0xffu64) as u8)
}

/// Appends the little-endian bytes of `x`.
pub fn push_le_u64(out: &mut Vec<u8>, x: u64)
    ensures
        final(out)@ == old(out)@ + le_bytes_u64(x),
{
    let mut i: u64 = 0;
    while i < 8
        invariant
            i <= 8,
            out@ == old(out)@ + le_bytes_u64(x).take(i as int),
        decreases 8 - i,
    {
        out.push(((x >> (8 * i)) & 0xffu64) as u8);
        i = i + 1;
        assert(out@ =~= old(out)@ + le_bytes_u64(x).take(i as int));
    }
    assert(le_bytes_u64(x).take(8) =~= le_bytes_u64(x));
}

/// Appends bytes.
pub fn push_bytes(out: &mut Vec<u8>, bytes: &[u8])
    ensures
        final(out)@ == old(out)@ + bytes@,
{
    let mut i: usize = 0;
    while i < bytes.len()
        invariant
            i <= bytes@.len(),
            out@ == old(out)@ + bytes@.take(i as int),
        decreases bytes@.len() - i,
    {
        out.push(bytes[i]);
        i = i + 1;
        assert(out@ =~= old(out)@ + bytes@.take(i as int));
    }
    assert(bytes@.take(bytes@.len() as int) =~= bytes@);
}

/// Whether two byte strings are equal.
pub fn bytes_equal(a: &[u8], b: &[u8]) -> (r: bool)
    ensures
        r == (a@ == b@),
{
    if a.len() != b.len() {
        return false;
    }
    let mut i: usize = 0;
    while i < a.len()
        invariant
            a@.len() == b@.len(),
            i <= a@.len(),
            forall|j: int| 0 <= j < i ==> a@[j] == b@[j],
        decreases a@.len() - i,
    {
        if a[i] != b[i] {
            return false;
        }
        i = i + 1;
    }
    assert(a@ =~= b@);
    true
}

} // verus!
