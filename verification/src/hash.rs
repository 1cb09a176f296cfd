//! Streaming SHA-256 of the image payload.
//!
//! The payload lives on a serial-attached flash, so a caller on the device
//! reads it one bounded chunk at a time: `begin_payload_hash` starts the
//! stream and `absorb_payload_chunk` extends it, holding no more than one
//! chunk in RAM.  `hash_payload` runs the same chunked loop over an already
//! staged slice, for callers (and tests) that have one.  The hasher itself is
//! `sha2::Sha256`; what it has absorbed so far, and what digest a byte string
//! hashes to, are named abstractly and never restated.

use vstd::prelude::*;
use vstd::slice::slice_subrange;

verus! {

/// Size in bytes of one hashing chunk.  It bounds stack usage while the
/// payload is streamed in from the external flash; it has no cryptographic
/// meaning.
pub const HASH_CHUNK_SIZE: usize = 128;

#[verifier::external_type_specification]
#[verifier::external_body]
pub struct ExSha256(sha2::Sha256);

/// The bytes a hasher has absorbed so far, in order.
pub uninterp spec fn hasher_bytes(h: sha2::Sha256) -> Seq<u8>;

/// The SHA-256 digest (32 bytes) of a byte string.
pub uninterp spec fn sha256_of(data: Seq<u8>) -> Seq<u8>;

/// Relies on `sha2::Sha256::new` (`Digest::new`): a fresh hasher has absorbed
/// nothing.
#[verifier::external_body]
pub(crate) fn sha256_new() -> (h: sha2::Sha256)
    ensures
        hasher_bytes(h) == Seq::<u8>::empty(),
{
    <sha2::Sha256 as sha2::Digest>::new()
}

/// Relies on `Digest::update`: the hasher absorbs the given bytes after the
/// ones it already holds.
#[verifier::external_body]
pub(crate) fn sha256_update(h: &mut sha2::Sha256, data: &[u8])
    ensures
        hasher_bytes(*final(h)) == hasher_bytes(*old(h)) + data@,
{
    sha2::Digest::update(h, data)
}

/// Relies on `Digest::finalize` on a clone of the hasher: the digest of the
/// absorbed bytes, the hasher itself left as it was.
#[verifier::external_body]
pub(crate) fn sha256_digest(h: &sha2::Sha256) -> (d: [u8; 32])
    ensures
        d@ == sha256_of(hasher_bytes(*h)),
{
    sha2::Digest::finalize(h.clone()).into()
}

/// A fresh hasher holding nothing yet: the start of a payload stream.
pub fn begin_payload_hash() -> (h: sha2::Sha256)
    ensures
        hasher_bytes(h) == Seq::<u8>::empty(),
{
    sha256_new()
}

/// Absorbs the next chunk of the payload: afterwards the hasher holds the
/// bytes it held before, followed by the chunk.  A caller that cannot stage
/// the payload reads it chunk by chunk and feeds each chunk here in order;
/// `verify_signature` then judges exactly the bytes that were fed.
pub fn absorb_payload_chunk(h: &mut sha2::Sha256, chunk: &[u8])
    ensures
        hasher_bytes(*final(h)) == hasher_bytes(*old(h)) + chunk@,
{
    sha256_update(h, chunk)
}

/// Streams `payload_len` bytes of a staged image through a SHA-256 hasher,
/// chunk by chunk, and returns the hasher holding exactly those bytes.
pub fn hash_payload(image: &[u8], payload_len: usize) -> (h: sha2::Sha256)
    requires
        payload_len <= image@.len(),
    ensures
        hasher_bytes(h) == image@.subrange(0, payload_len as int),
{
    let mut hasher = begin_payload_hash();
    let mut offset: usize = 0;
    proof {
        assert(hasher_bytes(hasher) =~= image@.subrange(0, 0));
    }
    while offset < payload_len
        invariant
            offset <= payload_len <= image@.len(),
            hasher_bytes(hasher) == image@.subrange(0, offset as int),
        decreases payload_len - offset,
    {
        let remaining = payload_len - offset;
        let len: usize = if remaining < HASH_CHUNK_SIZE {
            remaining
        } else {
            HASH_CHUNK_SIZE
        };
        let chunk = slice_subrange(image, offset, offset + len);
        absorb_payload_chunk(&mut hasher, chunk);
        offset = offset + len;
        proof {
            assert(hasher_bytes(hasher) =~= image@.subrange(0, offset as int));
        }
    }
    hasher
}

/// The SHA-256 digest of the image's first `payload_len` bytes, streamed
/// through the hasher in chunks.
pub fn payload_digest(image: &[u8], payload_len: usize) -> (d: [u8; 32])
    requires
        payload_len <= image@.len(),
    ensures
        d@ == sha256_of(image@.subrange(0, payload_len as int)),
{
    let hasher = hash_payload(image, payload_len);
    sha256_digest(&hasher)
}

} // verus!
