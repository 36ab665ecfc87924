//! Verification of hardware-integrity attestations.
//!
//! A successful job may carry an attestation blob: at a fixed offset a
//! recovery indicator and a 64-byte signature over the digest of the
//! attestation version, the verifying-key hash and the public values. The
//! signer's address is recovered from the signature and accepted only if
//! the caller configured it as trusted; an empty allow-list rejects every
//! attestation, never silently accepts one.

use vstd::prelude::*;
use vstd::bytes::u32_to_le_bytes;
use vstd::bytes::spec_u32_to_le_bytes;
use vstd::slice::slice_subrange;
use vstd::slice::slice_to_vec;
use crate::errors::Error;
use tiny_keccak::Hasher;

verus! {

/// Version constant of the attestation format; its hash leads the signed
/// digest.
pub const ATTESTATION_VERSION: u32 = 1;

/// Index of the recovery indicator within an attestation blob.
pub const RECOVERY_BYTE_INDEX: usize = 4;

/// Offset of the recovery indicator: the indicator byte holds the recovery
/// identifier plus this base.
pub const RECOVERY_ID_BASE: u8 = 27;

/// Offset of the 64-byte signature within an attestation blob.
pub const SIGNATURE_OFFSET: usize = 5;

/// Bytes of an attestation blob up to and including the signature.
pub const MIN_ATTESTATION_LEN: usize = 69;

/// The Keccak-256 digest of a byte string.
pub uninterp spec fn keccak256_of(data: Seq<u8>) -> Seq<u8>;

/// The uncompressed public key (64 bytes, coordinates only) recovered from
/// a digest, a 64-byte signature and a recovery identifier, or nothing if
/// the signature does not parse or yields no key.
pub uninterp spec fn recovered_key(digest: Seq<u8>, signature: Seq<u8>, recovery_id: u8) -> Option<
    Seq<u8>,
>;

/// Relies on tiny-keccak's Keccak::v256: a 32-byte digest determined by
/// the input alone.
#[verifier::external_body]
pub fn keccak256(bytes: &[u8]) -> (r: [u8; 32])
    ensures
        r@ == keccak256_of(bytes@),
{
    let mut output = [0u8; 32];
    let mut hasher = tiny_keccak::Keccak::v256();
    hasher.update(bytes);
    hasher.finalize(&mut output);
    output
}

/// Relies on k256's VerifyingKey::recover_from_prehash, with
/// Signature::from_slice converting the raw signature bytes and
/// to_encoded_point converting the result: the recovered public key's 64
/// coordinate bytes, or nothing when the signature bytes do not parse or
/// no key can be recovered.
#[verifier::external_body]
fn recover_verifying_key(digest: &Vec<u8>, signature: &Vec<u8>, recovery_id: u8) -> (r: Option<
    Vec<u8>,
>)
    requires
        digest@.len() == 32,
        signature@.len() == 64,
        recovery_id <= 3,
    ensures
        match recovered_key(digest@, signature@, recovery_id) {
            None => r is None,
            Some(k) => r matches Some(v) && v@ == k && v@.len() == 64,
        },
{
    let sig = match k256::ecdsa::Signature::from_slice(signature.as_slice()) {
        Ok(s) => s,
        Err(_) => return None,
    };
    let rid = k256::ecdsa::RecoveryId::from_byte(recovery_id)?;
    let key = match k256::ecdsa::VerifyingKey::recover_from_prehash(digest.as_slice(), &sig, rid) {
        Ok(k) => k,
        Err(_) => return None,
    };
    Some(key.to_encoded_point(false).as_bytes()[1..].to_vec())
}

/// The digest an attestation signs: the hash of the version constant's
/// hash, the verifying-key hash, and the public values' hash.
pub open spec fn spec_attestation_digest(vkey_hash: Seq<u8>, public_values: Seq<u8>) -> Seq<u8> {
    keccak256_of(
        keccak256_of(spec_u32_to_le_bytes(ATTESTATION_VERSION)) + vkey_hash + keccak256_of(
            public_values,
        ),
    )
}

/// The address of a public key: the last 20 bytes of its Keccak-256 hash.
pub open spec fn spec_address_of_key(key: Seq<u8>) -> Seq<u8> {
    keccak256_of(key).subrange(12, 32)
}

/// Whether an address is in the allow-list.
pub open spec fn spec_signer_allowed(signers: Seq<Vec<u8>>, address: Seq<u8>) -> bool {
    exists|i: int| 0 <= i < signers.len() && signers[i]@ == address
}

/// Whether a blob is long enough for the fixed layout and carries a
/// recovery indicator in range.
pub open spec fn spec_attestation_well_formed(tee_proof: Seq<u8>) -> bool {
    &&& tee_proof.len() >= MIN_ATTESTATION_LEN
    &&& RECOVERY_ID_BASE <= tee_proof[RECOVERY_BYTE_INDEX as int]
    &&& tee_proof[RECOVERY_BYTE_INDEX as int] <= RECOVERY_ID_BASE + 3
}

/// Whether an attestation is accepted: signers are configured, the blob is
/// well-formed, a signer is recovered, and it is allow-listed.
pub open spec fn spec_attestation_accepted(
    tee_proof: Seq<u8>,
    vkey_hash: Seq<u8>,
    public_values: Seq<u8>,
    signers: Seq<Vec<u8>>,
) -> bool {
    &&& signers.len() > 0
    &&& spec_attestation_well_formed(tee_proof)
    &&& recovered_key(
        spec_attestation_digest(vkey_hash, public_values),
        tee_proof.subrange(SIGNATURE_OFFSET as int, MIN_ATTESTATION_LEN as int),
        (tee_proof[RECOVERY_BYTE_INDEX as int] - RECOVERY_ID_BASE) as u8,
    ) matches Some(key) && spec_signer_allowed(signers, spec_address_of_key(key))
}

/// Computes the digest an attestation over these inputs must sign.
pub fn attestation_digest(vkey_hash: &Vec<u8>, public_values: &Vec<u8>) -> (r: Vec<u8>)
    ensures
        r@ == spec_attestation_digest(vkey_hash@, public_values@),
        r@.len() == 32,
{
    let version_bytes = u32_to_le_bytes(ATTESTATION_VERSION);
    let version_hash = keccak256(version_bytes.as_slice());
    let values_hash = keccak256(public_values.as_slice());
    let mut message: Vec<u8> = Vec::new();
    message.extend_from_slice(version_hash.as_slice());
    message.extend_from_slice(vkey_hash.as_slice());
    message.extend_from_slice(values_hash.as_slice());
    assert(message@ =~= keccak256_of(spec_u32_to_le_bytes(ATTESTATION_VERSION)) + vkey_hash@
        + keccak256_of(public_values@));
    let digest = keccak256(message.as_slice());
    slice_to_vec(digest.as_slice())
}

/// Whether two byte vectors hold the same bytes.
fn bytes_eq(a: &Vec<u8>, b: &Vec<u8>) -> (r: bool)
    ensures
        r == (a@ == b@),
{
    if a.len() != b.len() {
        return false;
    }
    let n = a.len();
    let mut i: usize = 0;
    while i < n
        invariant
            n == a@.len(),
            n == b@.len(),
            i <= n,
            forall|j: int| 0 <= j < i ==> a@[j] == b@[j],
        decreases n - i,
    {
        if a[i] != b[i] {
            return false;
        }
        i = i + 1;
    }
    assert(a@ =~= b@);
    true
}

/// Verifies a hardware-integrity attestation.
///
/// Fails if no trusted signers are configured at all; rejects a blob too
/// short for the fixed layout or whose recovery indicator is out of range;
/// recovers the signer of the attestation digest and accepts exactly when
/// the recovered address is allow-listed. This gate is additive trust in
/// front of ordinary proof verification, never a replacement for it.
pub fn verify_attestation(
    tee_proof: &Vec<u8>,
    vkey_hash: &Vec<u8>,
    public_values: &Vec<u8>,
    signers: &Vec<Vec<u8>>,
) -> (r: Result<(), Error>)
    ensures
        r is Ok <==> spec_attestation_accepted(tee_proof@, vkey_hash@, public_values@, signers@),
        signers@.len() == 0 ==> r == Result::<(), Error>::Err(Error::NoSignersConfigured),
        signers@.len() > 0 ==> ({
            if tee_proof@.len() < MIN_ATTESTATION_LEN || tee_proof@[RECOVERY_BYTE_INDEX as int]
                < RECOVERY_ID_BASE || tee_proof@[RECOVERY_BYTE_INDEX as int] > RECOVERY_ID_BASE + 3 {
                r == Result::<(), Error>::Err(Error::Serialization)
            } else {
                let digest = spec_attestation_digest(vkey_hash@, public_values@);
                let signature = tee_proof@.subrange(
                    SIGNATURE_OFFSET as int,
                    MIN_ATTESTATION_LEN as int,
                );
                let rid = (tee_proof@[RECOVERY_BYTE_INDEX as int] - RECOVERY_ID_BASE) as u8;
                match recovered_key(digest, signature, rid) {
                    None => r == Result::<(), Error>::Err(Error::SignatureRecovery),
                    Some(key) => {
                        let address = spec_address_of_key(key);
                        if spec_signer_allowed(signers@, address) {
                            r == Result::<(), Error>::Ok(())
                        } else {
                            r matches Err(Error::UntrustedSigner { address: a }) && a@ == address
                        }
                    },
                }
            }
        }),
{
    if signers.len() == 0 {
        return Err(Error::NoSignersConfigured);
    }
    if tee_proof.len() < MIN_ATTESTATION_LEN {
        return Err(Error::Serialization);
    }
    let indicator = tee_proof[RECOVERY_BYTE_INDEX];
    if indicator < RECOVERY_ID_BASE || indicator > RECOVERY_ID_BASE + 3 {
        return Err(Error::Serialization);
    }
    let recovery_id = indicator - RECOVERY_ID_BASE;
    let signature = slice_to_vec(
        slice_subrange(tee_proof.as_slice(), SIGNATURE_OFFSET, MIN_ATTESTATION_LEN),
    );
    let digest = attestation_digest(vkey_hash, public_values);
    let key = match recover_verifying_key(&digest, &signature, recovery_id) {
        Some(k) => k,
        None => {
            return Err(Error::SignatureRecovery);
        },
    };
    let key_hash = keccak256(key.as_slice());
    let address = slice_to_vec(slice_subrange(key_hash.as_slice(), 12, 32));
    let n = signers.len();
    let mut i: usize = 0;
    while i < n
        invariant
            n == signers@.len(),
            n > 0,
            i <= n,
            tee_proof@.len() >= MIN_ATTESTATION_LEN,
            RECOVERY_ID_BASE <= tee_proof@[RECOVERY_BYTE_INDEX as int],
            tee_proof@[RECOVERY_BYTE_INDEX as int] <= RECOVERY_ID_BASE + 3,
            recovered_key(
                spec_attestation_digest(vkey_hash@, public_values@),
                tee_proof@.subrange(SIGNATURE_OFFSET as int, MIN_ATTESTATION_LEN as int),
                (tee_proof@[RECOVERY_BYTE_INDEX as int] - RECOVERY_ID_BASE) as u8,
            ) is Some,
            address@ == spec_address_of_key(recovered_key(
                spec_attestation_digest(vkey_hash@, public_values@),
                tee_proof@.subrange(SIGNATURE_OFFSET as int, MIN_ATTESTATION_LEN as int),
                (tee_proof@[RECOVERY_BYTE_INDEX as int] - RECOVERY_ID_BASE) as u8,
            ).unwrap()),
            forall|j: int| 0 <= j < i ==> signers@[j]@ != address@,
        decreases n - i,
    {
        if bytes_eq(&signers[i], &address) {
            assert(spec_signer_allowed(signers@, address@));
            return Ok(());
        }
        i = i + 1;
    }
    assert(!spec_signer_allowed(signers@, address@));
    Err(Error::UntrustedSigner { address })
}

} // verus!
