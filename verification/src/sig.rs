//! Revocation check and ECDSA P-256 signature verification.
//!
//! The digest of the streamed payload is first held against the build-time
//! revocation list, then the trailing 64-byte signature is verified against
//! the build-time public key.  The curve arithmetic is `p256`'s; its verdict
//! on given key, digest and signature bytes is named abstractly and never
//! restated.

use vstd::prelude::*;

use p256::ecdsa::signature::hazmat::PrehashVerifier;

use crate::hash::hasher_bytes;

verus! {

/// Why a candidate image was refused at the verification stage.
#[derive(Clone, Copy, Debug, PartialEq, Eq, Structural)]
pub enum SignatureError {
    /// The payload digest is on the revocation list.
    Blacklisted,
    /// Malformed scalars, a malformed public key, or a failed curve check.
    Failed,
}

/// Whether a digest is on the revocation list: membership, nothing else.
pub open spec fn spec_blacklisted(hash: Seq<u8>, blacklist: Seq<Seq<u8>>) -> bool {
    blacklist.contains(hash)
}

/// The sequence of 32-byte entries of a revocation table, as byte strings.
pub open spec fn blacklist_view(blacklist: Seq<[u8; 32]>) -> Seq<Seq<u8>> {
    blacklist.map_values(|e: [u8; 32]| e@)
}

/// Whether a byte string equals the 32 bytes of a revocation entry.
fn bytes_match_entry(hash: &[u8], entry: &[u8; 32]) -> (r: bool)
    ensures
        r == (hash@ == entry@),
{
    if hash.len() != 32 {
        proof {
            assert(hash@.len() != entry@.len());
        }
        return false;
    }
    let mut i: usize = 0;
    while i < 32
        invariant
            i <= 32,
            hash@.len() == 32,
            entry@.len() == 32,
            forall|j: int| 0 <= j < i ==> hash@[j] == entry@[j],
        decreases 32 - i,
    {
        if hash[i] != entry[i] {
            return false;
        }
        i = i + 1;
    }
    proof {
        assert(hash@ =~= entry@);
    }
    true
}

/// Whether the given digest appears anywhere in the revocation table.
pub fn is_blacklisted(hash: &[u8], blacklist: &[[u8; 32]]) -> (r: bool)
    ensures
        r == spec_blacklisted(hash@, blacklist_view(blacklist@)),
{
    let n = blacklist.len();
    let mut i: usize = 0;
    while i < n
        invariant
            i <= n,
            n == blacklist@.len(),
            forall|j: int| 0 <= j < i ==> blacklist@[j]@ != hash@,
        decreases n - i,
    {
        let entry = &blacklist[i];
        if bytes_match_entry(hash, entry) {
            proof {
                assert(blacklist_view(blacklist@)[i as int] == hash@);
            }
            return true;
        }
        i = i + 1;
    }
    proof {
        assert(forall|j: int| 0 <= j < blacklist@.len()
            ==> blacklist_view(blacklist@)[j] != hash@);
    }
    false
}

/// The revocation verdict is membership in the set of listed digests; in
/// particular, the order of the table's entries cannot affect it.
pub proof fn lemma_blacklist_is_set_membership(hash: Seq<u8>, blacklist: Seq<Seq<u8>>)
    ensures
        spec_blacklisted(hash, blacklist) == blacklist.to_set().contains(hash),
{
}

/// Two revocation tables with the same entries, in whatever order and with
/// whatever repetition, give every digest the same verdict.
pub proof fn lemma_blacklist_order_irrelevant(
    hash: Seq<u8>,
    a: Seq<Seq<u8>>,
    b: Seq<Seq<u8>>,
)
    requires
        a.to_set() == b.to_set(),
    ensures
        spec_blacklisted(hash, a) == spec_blacklisted(hash, b),
{
    lemma_blacklist_is_set_membership(hash, a);
    lemma_blacklist_is_set_membership(hash, b);
    assert(a.to_set().contains(hash) == b.to_set().contains(hash));
}

/// Whether ECDSA P-256 accepts `sig` (R and S, big-endian, 32 bytes each) as
/// a signature by `pubkey` (an uncompressed SEC1 point, 65 bytes) over the
/// message whose SHA-256 digest is `digest`.
pub uninterp spec fn ecdsa_p256_accepts(pubkey: Seq<u8>, digest: Seq<u8>, sig: Seq<u8>) -> bool;

/// Relies on `p256`'s ECDSA implementation: `VerifyingKey::from_sec1_bytes`
/// accepts exactly the valid SEC1 encodings of a curve point,
/// `Signature::from_slice` accepts exactly 64 bytes whose two big-endian
/// scalars each lie in `[1, n-1]` for the group order `n`, and
/// `verify_prehash` runs the standard ECDSA curve equation over the digest
/// reduced modulo `n`.  The combined verdict is a function of the three byte
/// strings alone.
#[verifier::external_body]
fn ecdsa_p256_verify(pubkey: &[u8; 65], digest: &[u8; 32], sig: &[u8]) -> (r: bool)
    ensures
        r == ecdsa_p256_accepts(pubkey@, digest@, sig@),
{
    let key = match p256::ecdsa::VerifyingKey::from_sec1_bytes(pubkey) {
        Ok(k) => k,
        Err(_) => return false,
    };
    let parsed = match p256::ecdsa::Signature::from_slice(sig) {
        Ok(s) => s,
        Err(_) => return false,
    };
    key.verify_prehash(digest, &parsed).is_ok()
}

/// Verifies a hashed payload: refuses it when its digest is on the revocation
/// list, otherwise accepts it exactly when the signature verifies against the
/// public key.  The hasher holds the streamed payload; the digest the curve
/// check runs over is the SHA-256 of those same bytes.
pub fn verify_signature(
    hasher: sha2::Sha256,
    sig_bytes: &[u8],
    pubkey: &[u8; 65],
    blacklist: &[[u8; 32]],
) -> (r: Result<(), SignatureError>)
    ensures
        ({
            let digest = crate::hash::sha256_of(hasher_bytes(hasher));
            let revoked = spec_blacklisted(digest, blacklist_view(blacklist@));
            let accepted = ecdsa_p256_accepts(pubkey@, digest, sig_bytes@);
            &&& r is Ok <==> (!revoked && accepted)
            &&& r == Err::<(), SignatureError>(SignatureError::Blacklisted) <==> revoked
            &&& r == Err::<(), SignatureError>(SignatureError::Failed) <==> (!revoked
                && !accepted)
        }),
{
    let digest = crate::hash::sha256_digest(&hasher);
    if is_blacklisted(digest.as_slice(), blacklist) {
        return Err(SignatureError::Blacklisted);
    }
    if ecdsa_p256_verify(pubkey, &digest, sig_bytes) {
        Ok(())
    } else {
        Err(SignatureError::Failed)
    }
}

} // verus!
