//! The crypto provider: a keyed XOR stream for payloads and a keyed hash for
//! signatures. Key material is derived once, from the time the service is
//! created.

use vstd::prelude::*;
use vstd::slice::slice_subrange;
use vstd::string::*;
use crate::models::account::AccountId;
use crate::utils::bytes::{be_bytes, bytes_equal, concat_bytes, u64_to_be_bytes};
use crate::utils::digest::{hex_encode, hex_text, sha256, sha256_digest};
use crate::utils::text::join;

verus! {

/// Failures of the crypto provider.
#[derive(Debug)]
pub enum CryptoError {
    EncryptionError(String),
    DecryptionError(String),
    SignatureError(String),
    KeyGenerationError(String),
}

/// Length of keys, initialisation vectors and signatures, in bytes.
pub const KEY_LEN: usize = 32;

/// The initialisation vector used for a payload encrypted at time `now`.
pub open spec fn iv_at(now: u64) -> Seq<u8> {
    sha256_digest(be_bytes(now))
}

/// `data` with byte `i` combined by XOR with byte `i mod 32` of the key and
/// of the initialisation vector.
pub open spec fn xor_stream(data: Seq<u8>, key: Seq<u8>, iv: Seq<u8>) -> Seq<u8> {
    Seq::new(data.len(), |i: int| data[i] ^ key[i % 32] ^ iv[i % 32])
}

/// A ciphertext: the initialisation vector, then the XOR stream of the data.
pub open spec fn ciphertext(data: Seq<u8>, key: Seq<u8>, iv: Seq<u8>) -> Seq<u8> {
    iv + xor_stream(data, key, iv)
}

/// The plaintext of a ciphertext of at least 32 bytes.
pub open spec fn plaintext(encrypted: Seq<u8>, key: Seq<u8>) -> Seq<u8> {
    xor_stream(encrypted.subrange(32, encrypted.len() as int), key, encrypted.subrange(0, 32))
}

/// The signature of `data` under a private key.
pub open spec fn signature_of(data: Seq<u8>, private_key: Seq<u8>) -> Seq<u8> {
    sha256_digest(private_key + data)
}

/// The decentralised identifier derived from an identity hash and the
/// issuing institution.
pub open spec fn did_text(identity_hash: Seq<u8>, institution: Seq<u8>) -> Seq<char> {
    "did:decent_credit:"@ + hex_text(sha256_digest(identity_hash + institution))
}

/// Combines every byte of `data` by XOR with the key byte and the byte of the
/// initialisation vector at its position modulo 32. Applying the same key
/// and vector twice gives the data back.
pub fn apply_stream(data: &[u8], key: &[u8], iv: &[u8]) -> (out: Vec<u8>)
    requires
        key@.len() == 32,
        iv@.len() == 32,
    ensures
        out@ == xor_stream(data@, key@, iv@),
{
    let mut out: Vec<u8> = Vec::new();
    let mut i: usize = 0;
    while i < data.len()
        invariant
            0 <= i <= data@.len(),
            key@.len() == 32,
            iv@.len() == 32,
            out@ == xor_stream(data@.take(i as int), key@, iv@),
        decreases data@.len() - i,
    {
        out.push(data[i] ^ key[i % KEY_LEN] ^ iv[i % KEY_LEN]);
        assert(out@ =~= xor_stream(data@.take(i + 1), key@, iv@));
        i += 1;
    }
    assert(data@.take(data@.len() as int) =~= data@);
    out
}

/// The secret material of one service instance.
pub struct KeyState {
    current_key: Vec<u8>,
    private_key: Vec<u8>,
    public_key: Vec<u8>,
}

impl KeyState {
    /// The payload key.
    pub closed spec fn current_key(&self) -> Seq<u8> {
        self.current_key@
    }

    /// The signing key.
    pub closed spec fn private_key(&self) -> Seq<u8> {
        self.private_key@
    }

    /// The key published for signature checks.
    pub closed spec fn public_key(&self) -> Seq<u8> {
        self.public_key@
    }

    /// All three keys are 32 bytes long.
    pub open spec fn wf(&self) -> bool {
        &&& self.current_key().len() == 32
        &&& self.private_key().len() == 32
        &&& self.public_key().len() == 32
    }

    /// Derives the keys from a time-based seed: the payload key is the digest
    /// of the seed's big-endian bytes, the signing key the digest of the
    /// payload key, the public key the digest of the signing key.
    pub fn new(seed_time: u64) -> (keys: Self)
        ensures
            keys.wf(),
            keys.current_key() == sha256_digest(be_bytes(seed_time)),
            keys.private_key() == sha256_digest(keys.current_key()),
            keys.public_key() == sha256_digest(keys.private_key()),
    {
        let seed_bytes = u64_to_be_bytes(seed_time);
        let current_key = sha256(seed_bytes.as_slice());
        let private_key = sha256(current_key.as_slice());
        let public_key = sha256(private_key.as_slice());
        KeyState { current_key, private_key, public_key }
    }
}

/// Symmetric encryption and keyed signatures under one [`KeyState`].
pub struct CryptoService {
    keys: KeyState,
}

impl CryptoService {
    /// The keys this service works with.
    pub closed spec fn keys(&self) -> KeyState {
        self.keys
    }

    /// The keys are well formed.
    pub open spec fn wf(&self) -> bool {
        self.keys().wf()
    }

    /// A service whose keys are derived from `seed_time`.
    pub fn new(seed_time: u64) -> (service: Self)
        ensures
            service.wf(),
            service.keys().current_key() == sha256_digest(be_bytes(seed_time)),
            service.keys().private_key() == sha256_digest(service.keys().current_key()),
            service.keys().public_key() == sha256_digest(service.keys().private_key()),
    {
        CryptoService { keys: KeyState::new(seed_time) }
    }

    /// Encrypts `data` at time `now`: the initialisation vector for that
    /// time, then the data under the XOR stream. Never fails.
    pub fn encrypt(&self, data: &[u8], now: u64) -> (out: Result<Vec<u8>, CryptoError>)
        requires
            self.wf(),
        ensures
            out is Ok,
            out->Ok_0@ == ciphertext(data@, self.keys().current_key(), iv_at(now)),
            out->Ok_0@.len() == data@.len() + 32,
    {
        let now_bytes = u64_to_be_bytes(now);
        let iv = sha256(now_bytes.as_slice());
        let stream = apply_stream(data, self.keys.current_key.as_slice(), iv.as_slice());
        Ok(concat_bytes(iv.as_slice(), stream.as_slice()))
    }

    /// Decrypts a ciphertext. Fails with `DecryptionError("Invalid data
    /// length")` exactly when it is shorter than an initialisation vector.
    pub fn decrypt(&self, encrypted: &[u8]) -> (out: Result<Vec<u8>, CryptoError>)
        requires
            self.wf(),
        ensures
            encrypted@.len() < 32 ==> out is Err && out->Err_0 is DecryptionError
                && out->Err_0->DecryptionError_0@ == "Invalid data length"@,
            encrypted@.len() >= 32 ==> out is Ok && out->Ok_0@ == plaintext(
                encrypted@,
                self.keys().current_key(),
            ),
    {
        if encrypted.len() < KEY_LEN {
            return Err(CryptoError::DecryptionError(String::from_str("Invalid data length")));
        }
        let iv = slice_subrange(encrypted, 0, KEY_LEN);
        let data = slice_subrange(encrypted, KEY_LEN, encrypted.len());
        Ok(apply_stream(data, self.keys.current_key.as_slice(), iv))
    }

    /// Signs `data`: the digest of the signing key followed by the data.
    pub fn sign(&self, data: &[u8]) -> (out: Result<Vec<u8>, CryptoError>)
        requires
            self.wf(),
        ensures
            out is Ok,
            out->Ok_0@ == signature_of(data@, self.keys().private_key()),
            out->Ok_0@.len() == 32,
    {
        let keyed = concat_bytes(self.keys.private_key.as_slice(), data);
        Ok(sha256(keyed.as_slice()))
    }

    /// Checks a signature. Fails with `SignatureError("Invalid signature
    /// length")` exactly when the signature is not 32 bytes long; otherwise
    /// tells whether it is the signature of `data`.
    pub fn verify(&self, data: &[u8], signature: &[u8]) -> (out: Result<bool, CryptoError>)
        requires
            self.wf(),
        ensures
            signature@.len() != 32 ==> out is Err && out->Err_0 is SignatureError
                && out->Err_0->SignatureError_0@ == "Invalid signature length"@,
            signature@.len() == 32 ==> out is Ok && out->Ok_0 == (signature@ == signature_of(
                data@,
                self.keys().private_key(),
            )),
    {
        if signature.len() != KEY_LEN {
            return Err(CryptoError::SignatureError(String::from_str("Invalid signature length")));
        }
        let keyed = concat_bytes(self.keys.private_key.as_slice(), data);
        let expected = sha256(keyed.as_slice());
        Ok(bytes_equal(expected.as_slice(), signature))
    }

    /// The decentralised identifier for an identity hash registered by an
    /// institution.
    pub fn generate_did(&self, identity_hash: &str, institution_id: &AccountId) -> (did: String)
        ensures
            did@ == did_text(identity_hash.spec_bytes(), institution_id@),
    {
        let material = concat_bytes(identity_hash.as_bytes(), institution_id.as_bytes());
        let digest = sha256(material.as_slice());
        let hex = hex_encode(digest.as_slice());
        join("did:decent_credit:", hex.as_str())
    }
}

/// Creates the crypto service from a time-based seed. Never fails.
pub fn init_crypto_service(seed_time: u64) -> (out: Result<CryptoService, CryptoError>)
    ensures
        out is Ok,
        out->Ok_0.wf(),
        out->Ok_0.keys().current_key() == sha256_digest(be_bytes(seed_time)),
        out->Ok_0.keys().private_key() == sha256_digest(out->Ok_0.keys().current_key()),
        out->Ok_0.keys().public_key() == sha256_digest(out->Ok_0.keys().private_key()),
{
    Ok(CryptoService::new(seed_time))
}

/// Decrypting a ciphertext gives back the data that was encrypted, whatever
/// the key and the initialisation vector.
pub proof fn lemma_decrypt_inverts_encrypt(data: Seq<u8>, key: Seq<u8>, iv: Seq<u8>)
    requires
        key.len() == 32,
        iv.len() == 32,
    ensures
        ciphertext(data, key, iv).len() == data.len() + 32,
        plaintext(ciphertext(data, key, iv), key) == data,
{
    let c = ciphertext(data, key, iv);
    assert(c.subrange(0, 32) =~= iv);
    assert(c.subrange(32, c.len() as int) =~= xor_stream(data, key, iv));
    assert forall|i: int| 0 <= i < data.len() implies #[trigger] plaintext(c, key)[i] == data[i] by {
        let d = data[i];
        let k = key[i % 32];
        let v = iv[i % 32];
        assert(((d ^ k ^ v) ^ k ^ v) == d) by (bit_vector);
    }
    assert(plaintext(c, key) =~= data);
}

} // verus!
