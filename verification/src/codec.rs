//! Wire format of a completed proof result.
//!
//! A successful job returns one byte blob; it decodes into the proof bytes,
//! the public values, and an optional hardware attestation. The format is
//! length-prefixed: each chunk is its length as 8 little-endian bytes
//! followed by its bytes, and the attestation is preceded by a one-byte
//! presence tag. Decoding accepts exactly the encodings and nothing else.

use vstd::prelude::*;
use vstd::bytes::*;
use vstd::slice::*;
use crate::errors::Error;

verus! {

/// A completed proof as the remote returns it: the proof itself, the public
/// values it commits to, and an optional hardware-integrity attestation.
#[derive(Debug, PartialEq, Eq)]
pub struct ProofBundle {
    pub proof: Vec<u8>,
    pub public_values: Vec<u8>,
    pub tee_proof: Option<Vec<u8>>,
}

/// A length-prefixed chunk.
pub open spec fn spec_chunk(s: Seq<u8>) -> Seq<u8> {
    spec_u64_to_le_bytes(s.len() as u64) + s
}

/// The encoding of a bundle.
pub open spec fn spec_encode(proof: Seq<u8>, public_values: Seq<u8>, tee_proof: Option<Seq<u8>>) -> Seq<u8> {
    spec_chunk(proof) + spec_chunk(public_values) + match tee_proof {
        None => seq![0u8],
        Some(t) => seq![1u8] + spec_chunk(t),
    }
}

/// Reads one length-prefixed chunk at `off`; yields the chunk and the offset
/// just past it.
pub open spec fn spec_read_chunk(s: Seq<u8>, off: int) -> Option<(Seq<u8>, int)> {
    if off + 8 <= s.len() {
        let n = spec_u64_from_le_bytes(s.subrange(off, off + 8)) as int;
        if off + 8 + n <= s.len() {
            Some((s.subrange(off + 8, off + 8 + n), off + 8 + n))
        } else {
            None
        }
    } else {
        None
    }
}

/// The decoding relation: the fields a blob decodes to, or nothing if the
/// blob is not exactly an encoding.
pub open spec fn spec_decode(s: Seq<u8>) -> Option<(Seq<u8>, Seq<u8>, Option<Seq<u8>>)> {
    match spec_read_chunk(s, 0) {
        None => None,
        Some((proof, o1)) => match spec_read_chunk(s, o1) {
            None => None,
            Some((public_values, o2)) => {
                if o2 < s.len() && s[o2] == 0u8 && o2 + 1 == s.len() {
                    Some((proof, public_values, None))
                } else if o2 < s.len() && s[o2] == 1u8 {
                    match spec_read_chunk(s, o2 + 1) {
                        None => None,
                        Some((t, o3)) => if o3 == s.len() {
                            Some((proof, public_values, Some(t)))
                        } else {
                            None
                        },
                    }
                } else {
                    None
                }
            },
        },
    }
}

/// Appends one length-prefixed chunk.
fn push_chunk(out: &mut Vec<u8>, s: &Vec<u8>)
    ensures
        final(out)@ == old(out)@ + spec_chunk(s@),
{
    let mut len_bytes = u64_to_le_bytes(s.len() as u64);
    out.append(&mut len_bytes);
    out.extend_from_slice(s.as_slice());
}

/// Encodes a completed proof bundle into one blob.
pub fn encode_bundle(b: &ProofBundle) -> (r: Vec<u8>)
    ensures
        r@ == spec_encode(b.proof@, b.public_values@, match b.tee_proof {
            None => None,
            Some(t) => Some(t@),
        }),
        r@.len() > 0,
{
    let mut out: Vec<u8> = Vec::new();
    push_chunk(&mut out, &b.proof);
    push_chunk(&mut out, &b.public_values);
    match &b.tee_proof {
        None => {
            out.push(0u8);
            assert(out@ =~= spec_encode(b.proof@, b.public_values@, None));
        },
        Some(t) => {
            out.push(1u8);
            push_chunk(&mut out, t);
            assert(out@ =~= spec_encode(b.proof@, b.public_values@, Some(t@)));
        },
    }
    out
}

/// Reads one length-prefixed chunk at `off`.
fn read_chunk(bytes: &[u8], off: usize) -> (r: Option<(Vec<u8>, usize)>)
    requires
        off <= bytes@.len(),
    ensures
        match spec_read_chunk(bytes@, off as int) {
            None => r is None,
            Some((chunk, end)) => {
                &&& r is Some
                &&& r.unwrap().0@ == chunk
                &&& r.unwrap().1 == end
                &&& off <= end <= bytes@.len()
            },
        },
{
    let len = bytes.len();
    if len - off < 8 {
        return None;
    }
    let n = u64_from_le_bytes(slice_subrange(bytes, off, off + 8));
    if n > (len - (off + 8)) as u64 {
        return None;
    }
    let n_usize = n as usize;
    let chunk = slice_to_vec(slice_subrange(bytes, off + 8, off + 8 + n_usize));
    Some((chunk, off + 8 + n_usize))
}

/// Decodes a blob into a proof bundle; fails on anything that is not
/// exactly an encoding, trailing bytes included.
pub fn decode_bundle(bytes: &[u8]) -> (r: Result<ProofBundle, Error>)
    ensures
        match spec_decode(bytes@) {
            None => r == Result::<ProofBundle, Error>::Err(Error::Serialization),
            Some((proof, public_values, tee)) => {
                &&& r is Ok
                &&& r.unwrap().proof@ == proof
                &&& r.unwrap().public_values@ == public_values
                &&& match (r.unwrap().tee_proof, tee) {
                    (None, None) => true,
                    (Some(t), Some(ts)) => t@ == ts,
                    _ => false,
                }
            },
        },
{
    let (proof, o1) = match read_chunk(bytes, 0) {
        None => {
            return Err(Error::Serialization);
        },
        Some(p) => p,
    };
    let (public_values, o2) = match read_chunk(bytes, o1) {
        None => {
            return Err(Error::Serialization);
        },
        Some(p) => p,
    };
    if o2 >= bytes.len() {
        return Err(Error::Serialization);
    }
    let tag = *slice_index_get(bytes, o2);
    if tag == 0u8 {
        if o2 + 1 == bytes.len() {
            Ok(ProofBundle { proof, public_values, tee_proof: None })
        } else {
            Err(Error::Serialization)
        }
    } else if tag == 1u8 {
        let (t, o3) = match read_chunk(bytes, o2 + 1) {
            None => {
                return Err(Error::Serialization);
            },
            Some(p) => p,
        };
        if o3 == bytes.len() {
            Ok(ProofBundle { proof, public_values, tee_proof: Some(t) })
        } else {
            Err(Error::Serialization)
        }
    } else {
        Err(Error::Serialization)
    }
}

/// Reading a chunk out of an encoding's prefix yields the chunk that was
/// written there.
proof fn lemma_read_chunk_of_prefix(s: Seq<u8>, off: int, chunk: Seq<u8>)
    requires
        0 <= off,
        off + 8 + chunk.len() <= s.len(),
        s.subrange(off, off + 8 + chunk.len()) == spec_chunk(chunk),
        chunk.len() <= u64::MAX,
    ensures
        spec_read_chunk(s, off) == Some((chunk, off + 8 + chunk.len())),
{
    lemma_auto_spec_u64_to_from_le_bytes();
    assert(spec_u64_to_le_bytes(chunk.len() as u64).len() == 8);
    assert(s.subrange(off, off + 8) =~= spec_chunk(chunk).subrange(0, 8));
    assert(spec_chunk(chunk).subrange(0, 8) =~= spec_u64_to_le_bytes(chunk.len() as u64));
    assert(spec_u64_from_le_bytes(s.subrange(off, off + 8)) == chunk.len() as u64);
    assert(s.subrange(off + 8, off + 8 + chunk.len()) =~= chunk) by {
        assert forall|i: int| 0 <= i < chunk.len() implies s[off + 8 + i] == chunk[i] by {
            assert(s.subrange(off, off + 8 + chunk.len())[8 + i] == chunk[i]);
        }
    }
}

/// Round trip: a blob built by `spec_encode` decodes to exactly the fields
/// that were encoded, for every proof, public-values and attestation value
/// whose lengths are representable.
pub proof fn lemma_codec_round_trip(proof: Seq<u8>, public_values: Seq<u8>, tee_proof: Option<Seq<u8>>)
    requires
        proof.len() <= u64::MAX,
        public_values.len() <= u64::MAX,
        tee_proof is Some ==> tee_proof.unwrap().len() <= u64::MAX,
    ensures
        spec_decode(spec_encode(proof, public_values, tee_proof)) == Some((proof, public_values, tee_proof)),
        spec_encode(proof, public_values, tee_proof).len() > 0,
{
    let s = spec_encode(proof, public_values, tee_proof);
    lemma_auto_spec_u64_to_from_le_bytes();
    let o1 = 8 + proof.len() as int;
    let o2 = o1 + 8 + public_values.len() as int;
    assert(s.subrange(0, o1) =~= spec_chunk(proof));
    lemma_read_chunk_of_prefix(s, 0, proof);
    assert(s.subrange(o1, o2) =~= spec_chunk(public_values));
    lemma_read_chunk_of_prefix(s, o1, public_values);
    match tee_proof {
        None => {
            assert(s[o2] == 0u8);
            assert(o2 + 1 == s.len());
        },
        Some(t) => {
            assert(s[o2] == 1u8);
            assert(s.subrange(o2 + 1, o2 + 1 + 8 + t.len() as int) =~= spec_chunk(t));
            lemma_read_chunk_of_prefix(s, o2 + 1, t);
            assert(o2 + 1 + 8 + t.len() == s.len());
        },
    }
}

} // verus!
