//! Client authentication: a signed credential derived from a private key
//! and a freshly generated job identifier, nonce and timestamp, plus the
//! address derivation and private-key parsing that go with it.
//!
//! The signature covers the digest of `job_id || nonce || timestamp`, the
//! timestamp encoded as 8 little-endian bytes; the address is the base-58
//! form of the key's public component.

use vstd::prelude::*;
use vstd::bytes::u64_to_le_bytes;
use vstd::bytes::spec_u64_to_le_bytes;
use vstd::utf8::encode_utf8;
use crate::endpoint::has_prefix;
use crate::endpoint::spec_has_prefix;
use crate::errors::Error;
use crate::hexstr::hex_decode;
use crate::hexstr::spec_hex_decoded;
use ed25519_dalek::Signer;
use sha2::Digest;

verus! {

/// The SHA-256 digest of a byte string.
pub uninterp spec fn sha256_of(data: Seq<u8>) -> Seq<u8>;

/// The deterministic signature a private key produces over a message.
pub uninterp spec fn ed25519_sign_of(private_key: Seq<u8>, message: Seq<u8>) -> Seq<u8>;

/// The public key belonging to a private key.
pub uninterp spec fn ed25519_public_key_of(private_key: Seq<u8>) -> Seq<u8>;

/// The base-58 encoding of a byte string.
pub uninterp spec fn base58_of(data: Seq<u8>) -> Seq<char>;

/// The bytes a base-58 string stands for, or nothing if it is not one.
pub uninterp spec fn base58_decoded(s: Seq<char>) -> Option<Seq<u8>>;

/// Relies on sha2's Sha256: a 32-byte digest determined by the input
/// alone.
#[verifier::external_body]
fn sha256(data: &Vec<u8>) -> (r: Vec<u8>)
    ensures
        r@ == sha256_of(data@),
        r@.len() == 32,
{
    let mut hasher = sha2::Sha256::new();
    hasher.update(data.as_slice());
    hasher.finalize().to_vec()
}

/// Relies on ed25519-dalek's SigningKey::sign: a deterministic 64-byte
/// signature determined by the key and the message alone.
#[verifier::external_body]
fn ed25519_sign(private_key: &Vec<u8>, message: &Vec<u8>) -> (r: Vec<u8>)
    requires
        private_key@.len() == 32,
    ensures
        r@ == ed25519_sign_of(private_key@, message@),
        r@.len() == 64,
{
    let mut key = [0u8; 32];
    key.copy_from_slice(private_key.as_slice());
    let signing_key = ed25519_dalek::SigningKey::from_bytes(&key);
    signing_key.sign(message.as_slice()).to_bytes().to_vec()
}

/// Relies on ed25519-dalek's SigningKey::verifying_key: the 32-byte public
/// key determined by the private key alone.
#[verifier::external_body]
fn ed25519_public_key(private_key: &Vec<u8>) -> (r: Vec<u8>)
    requires
        private_key@.len() == 32,
    ensures
        r@ == ed25519_public_key_of(private_key@),
        r@.len() == 32,
{
    let mut key = [0u8; 32];
    key.copy_from_slice(private_key.as_slice());
    let signing_key = ed25519_dalek::SigningKey::from_bytes(&key);
    signing_key.verifying_key().to_bytes().to_vec()
}

/// Relies on bs58's encode: the base-58 string of the input bytes.
#[verifier::external_body]
fn base58_encode(data: &Vec<u8>) -> (r: String)
    ensures
        r@ == base58_of(data@),
{
    bs58::encode(data.as_slice()).into_string()
}

/// Relies on bs58's decode: the bytes of a base-58 string, or nothing if
/// the string is not valid base-58.
#[verifier::external_body]
fn base58_decode(s: &str) -> (r: Option<Vec<u8>>)
    ensures
        match base58_decoded(s@) {
            None => r is None,
            Some(b) => r matches Some(v) && v@ == b,
        },
{
    bs58::decode(s).into_vec().ok()
}

/// Relies on uuid's new_v4: a fresh random 128-bit identifier in its
/// 36-character hyphenated form. Random: no two calls need agree.
#[verifier::external_body]
fn fresh_identifier() -> (r: String)
    ensures
        r@.len() == 36,
{
    uuid::Uuid::new_v4().to_string()
}

/// Relies on std's SystemTime::now: the seconds since the Unix epoch, or
/// nothing if the clock reads before the epoch. Time-dependent: nothing
/// relates two calls.
#[verifier::external_body]
fn unix_now_secs() -> (r: Option<u64>)
{
    match std::time::SystemTime::now().duration_since(std::time::UNIX_EPOCH) {
        Ok(d) => Some(d.as_secs()),
        Err(_) => None,
    }
}

/// The bytes the authentication signature covers, before hashing: job
/// identifier, nonce, and the timestamp as 8 little-endian bytes.
pub open spec fn spec_auth_message(job_id: Seq<char>, nonce: Seq<char>, timestamp: i64) -> Seq<u8> {
    encode_utf8(job_id) + encode_utf8(nonce) + spec_u64_to_le_bytes(timestamp as u64)
}

/// Signs the client-authentication digest of `job_id || nonce ||
/// timestamp` with the supplied private key; rejects a key that is not
/// exactly 32 bytes.
pub fn sign_client_auth(private_key: &Vec<u8>, job_id: &str, nonce: &str, timestamp: i64) -> (r: Result<
    Vec<u8>,
    Error,
>)
    requires
        timestamp >= 0,
    ensures
        r is Ok <==> private_key@.len() == 32,
        r matches Ok(sig) ==> sig@ == ed25519_sign_of(
            private_key@,
            sha256_of(spec_auth_message(job_id@, nonce@, timestamp)),
        ),
        r is Err ==> r == Result::<Vec<u8>, Error>::Err(Error::KeyFormat),
{
    if private_key.len() != 32 {
        return Err(Error::KeyFormat);
    }
    let mut message: Vec<u8> = Vec::new();
    message.extend_from_slice(job_id.as_bytes());
    message.extend_from_slice(nonce.as_bytes());
    let mut ts_bytes = u64_to_le_bytes(timestamp as u64);
    message.append(&mut ts_bytes);
    assert(message@ =~= spec_auth_message(job_id@, nonce@, timestamp));
    let digest = sha256(&message);
    Ok(ed25519_sign(private_key, &digest))
}

/// Derives the caller's address from a private key: the base-58 form of
/// the public key; rejects a key that is not exactly 32 bytes.
pub fn derive_solana_address(private_key: &Vec<u8>) -> (r: Result<String, Error>)
    ensures
        r is Ok <==> private_key@.len() == 32,
        r matches Ok(addr) ==> addr@ == base58_of(ed25519_public_key_of(private_key@)),
        r is Err ==> r == Result::<String, Error>::Err(Error::KeyFormat),
{
    if private_key.len() != 32 {
        return Err(Error::KeyFormat);
    }
    let public_key = ed25519_public_key(private_key);
    Ok(base58_encode(&public_key))
}

/// A signed client-authentication credential: fresh job identifier and
/// nonce, the timestamp they were signed at, the signature, and the
/// caller's address.
#[derive(Debug, PartialEq, Eq)]
pub struct ClientAuthCredential {
    pub job_id: String,
    pub nonce: String,
    pub timestamp: i64,
    pub signature: Vec<u8>,
    pub address: String,
}

/// Whether a credential is the one a key produces for its identifier,
/// nonce and timestamp.
pub open spec fn spec_credential_signed_by(c: ClientAuthCredential, private_key: Seq<u8>) -> bool {
    &&& c.timestamp >= 0
    &&& c.signature@ == ed25519_sign_of(
        private_key,
        sha256_of(spec_auth_message(c.job_id@, c.nonce@, c.timestamp)),
    )
    &&& c.address@ == base58_of(ed25519_public_key_of(private_key))
}

/// Creates a client-authentication credential: a fresh job identifier and
/// nonce, the current time, the signature over their digest, and the
/// caller's address. Rejects a key that is not exactly 32 bytes; fails
/// only on the clock otherwise.
pub fn create_client_auth(private_key: &Vec<u8>) -> (r: Result<ClientAuthCredential, Error>)
    ensures
        r is Ok ==> private_key@.len() == 32,
        private_key@.len() == 32 ==> (r is Ok || r == Result::<ClientAuthCredential, Error>::Err(
            Error::ClockUnavailable,
        )),
        r matches Ok(c) ==> {
            &&& c.job_id@.len() == 36
            &&& c.nonce@.len() == 36
            &&& spec_credential_signed_by(c, private_key@)
        },
        r is Err ==> (r == Result::<ClientAuthCredential, Error>::Err(Error::KeyFormat) || r
            == Result::<ClientAuthCredential, Error>::Err(Error::ClockUnavailable)),
        r == Result::<ClientAuthCredential, Error>::Err(Error::KeyFormat) ==> private_key@.len() != 32,
{
    let job_id = fresh_identifier();
    let nonce = fresh_identifier();
    let secs = match unix_now_secs() {
        Some(s) => s,
        None => {
            return Err(Error::ClockUnavailable);
        },
    };
    if secs > i64::MAX as u64 {
        return Err(Error::ClockUnavailable);
    }
    let timestamp = secs as i64;
    let signature = match sign_client_auth(private_key, job_id.as_str(), nonce.as_str(), timestamp) {
        Ok(s) => s,
        Err(e) => {
            return Err(e);
        },
    };
    let address = match derive_solana_address(private_key) {
        Ok(a) => a,
        Err(e) => {
            return Err(e);
        },
    };
    Ok(ClientAuthCredential { job_id, nonce, timestamp, signature, address })
}

/// The bytes a private-key string stands for: hex if it carries the `0x`
/// prefix; otherwise base-58, falling back to bare hex if base-58 decoding
/// fails.
pub open spec fn spec_parse_private_key(s: Seq<char>) -> Option<Seq<u8>> {
    if spec_has_prefix(s, "0x"@) {
        spec_hex_decoded(s.subrange(2, s.len() as int))
    } else {
        match base58_decoded(s) {
            Some(v) => Some(v),
            None => spec_hex_decoded(s),
        }
    }
}

/// Parses a private-key string: `0x`-prefixed hex, or base-58 with bare
/// hex as fallback.
pub fn parse_private_key(s: &str) -> (r: Option<Vec<u8>>)
    ensures
        match spec_parse_private_key(s@) {
            None => r is None,
            Some(b) => r matches Some(v) && v@ == b,
        },
{
    if has_prefix(s, "0x") {
        proof {
            reveal_strlit("0x");
        }
        let n = s.unicode_len();
        hex_decode(s.substring_char(2, n))
    } else {
        match base58_decode(s) {
            Some(v) => Some(v),
            None => hex_decode(s),
        }
    }
}

} // verus!
