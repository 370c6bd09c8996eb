//! The proof generator: a layered hash commitment that binds a proof to the
//! bytes it was made from.

use vstd::prelude::*;
use crate::models::record::{CreditRecord, CreditRecordView};
use crate::utils::bytes::{bytes_equal, concat_bytes, le_bytes, u64_to_le_bytes};
use crate::utils::digest::{sha256, sha256_digest};

verus! {

/// Length of a proof in bytes: three digests.
pub const PROOF_LEN: usize = 96;

/// First layer: the digest of the content followed by the verification key.
pub open spec fn base_hash(content: Seq<u8>, verification_key: Seq<u8>) -> Seq<u8> {
    sha256_digest(content + verification_key)
}

/// Second layer: the digest of a hash followed by the secret, least
/// significant byte first.
pub open spec fn commitment_of(hash: Seq<u8>, secret: u64) -> Seq<u8> {
    sha256_digest(hash + le_bytes(secret))
}

/// Third layer: the digest of the commitment followed by the verification
/// key.
pub open spec fn opening_of(commitment: Seq<u8>, verification_key: Seq<u8>) -> Seq<u8> {
    sha256_digest(commitment + verification_key)
}

/// The proof of `content`: its base hash, the commitment to that hash under
/// the secret zero, and the opening of the commitment.
pub open spec fn proof_of(content: Seq<u8>, verification_key: Seq<u8>) -> Seq<u8> {
    let base = base_hash(content, verification_key);
    let commitment = commitment_of(base, 0);
    base + commitment + opening_of(commitment, verification_key)
}

/// The blinding value for a seed at the instant `now`: the digest of the
/// seed followed by the instant, least significant byte first.
pub open spec fn blinding_of(seed: Seq<u8>, now: u64) -> Seq<u8> {
    sha256_digest(seed + le_bytes(now))
}

/// The blinded commitment to a message at the instant `now`.
pub open spec fn blinded_commitment(message: Seq<u8>, now: u64) -> Seq<u8> {
    sha256_digest(message + blinding_of(message, now))
}

/// Whether `proof` is the proof of a record's encrypted content.
pub open spec fn proof_accepted(
    record: CreditRecordView,
    proof: Seq<u8>,
    verification_key: Seq<u8>,
) -> bool {
    proof == proof_of(record.encrypted_content, verification_key)
}

/// Generates and checks integrity proofs under one verification key.
pub struct ZKProofService {
    verification_key: Vec<u8>,
}

impl ZKProofService {
    /// The verification key mixed into every proof.
    pub closed spec fn verification_key(&self) -> Seq<u8> {
        self.verification_key@
    }

    /// A proof service with the empty verification key.
    pub fn new() -> (service: Self)
        ensures
            service.verification_key() == Seq::<u8>::empty(),
    {
        ZKProofService { verification_key: Vec::new() }
    }

    /// The blinding value for `seed` at the instant `now`.
    pub fn generate_deterministic_random(&self, seed: &[u8], now: u64) -> (random: Vec<u8>)
        ensures
            random@ == blinding_of(seed@, now),
            random@.len() == 32,
    {
        let now_bytes = u64_to_le_bytes(now);
        let seeded = concat_bytes(seed, now_bytes.as_slice());
        sha256(seeded.as_slice())
    }

    /// A commitment to `message`, blinded by the instant `now`, and its
    /// opening under `secret`: the digest of the commitment followed by the
    /// secret.
    pub fn generate_zk_proof(&self, message: &[u8], secret: u64, now: u64) -> (out: (
        Vec<u8>,
        Vec<u8>,
    ))
        ensures
            out.0@ == blinded_commitment(message@, now),
            out.1@ == commitment_of(out.0@, secret),
            out.0@.len() == 32,
            out.1@.len() == 32,
    {
        let random = self.generate_deterministic_random(message, now);
        let blinded = concat_bytes(message, random.as_slice());
        let commitment = sha256(blinded.as_slice());
        let secret_bytes = u64_to_le_bytes(secret);
        let opened = concat_bytes(commitment.as_slice(), secret_bytes.as_slice());
        let proof = sha256(opened.as_slice());
        (commitment, proof)
    }

    fn generate_zk_proof_other(&self, content_hash: &[u8], secret: u64) -> (out: (Vec<u8>, Vec<u8>))
        ensures
            out.0@ == commitment_of(content_hash@, secret),
            out.1@ == opening_of(out.0@, self.verification_key()),
            out.0@.len() == 32,
            out.1@.len() == 32,
    {
        let secret_bytes = u64_to_le_bytes(secret);
        let committed = concat_bytes(content_hash, secret_bytes.as_slice());
        let commitment = sha256(committed.as_slice());
        let opened = concat_bytes(commitment.as_slice(), self.verification_key.as_slice());
        let proof = sha256(opened.as_slice());
        (commitment, proof)
    }

    /// The 96-byte proof of `content_bytes`.
    pub fn generate_proof(&self, content_bytes: &[u8]) -> (proof: Vec<u8>)
        ensures
            proof@ == proof_of(content_bytes@, self.verification_key()),
            proof@.len() == 96,
    {
        let keyed = concat_bytes(content_bytes, self.verification_key.as_slice());
        let base = sha256(keyed.as_slice());
        let (commitment, opening) = self.generate_zk_proof_other(base.as_slice(), 0);
        let head = concat_bytes(base.as_slice(), commitment.as_slice());
        concat_bytes(head.as_slice(), opening.as_slice())
    }

    /// Whether `proof` is the proof of the record's encrypted content. A
    /// proof of any other length than 96 bytes is refused without being
    /// compared.
    pub fn verify_proof(&self, record: &CreditRecord, proof: &[u8]) -> (valid: bool)
        ensures
            valid == proof_accepted(record@, proof@, self.verification_key()),
            proof@.len() != 96 ==> !valid,
    {
        if proof.len() != PROOF_LEN {
            proof {
                lemma_proof_len(record@.encrypted_content, self.verification_key());
            }
            return false;
        }
        let current = self.generate_proof(record.encrypted_content.as_slice());
        bytes_equal(current.as_slice(), proof)
    }
}

/// A proof is always three digests long.
pub proof fn lemma_proof_len(content: Seq<u8>, verification_key: Seq<u8>)
    ensures
        proof_of(content, verification_key).len() == 96,
{
}

} // verus!
