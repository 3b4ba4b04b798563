//! Key material: the Ed25519 signing key decoded from a base64 secret, its
//! verifying key, and signatures. The signing key never leaves this module.

use crate::error::Error;
use vstd::prelude::*;

verus! {

/// The bytes that a standard (padded) base64 text stands for, or `None`
/// where the text is not valid base64.
pub uninterp spec fn base64_decoded(s: Seq<char>) -> Option<Seq<u8>>;

/// The standard (padded) base64 text of some bytes.
pub uninterp spec fn base64_text(b: Seq<u8>) -> Seq<char>;

/// The Ed25519 verifying key of a 32-byte secret seed.
pub uninterp spec fn ed25519_public_key(seed: Seq<u8>) -> Seq<u8>;

/// The Ed25519 signature of `message` under the 32-byte secret seed.
pub uninterp spec fn ed25519_signature(seed: Seq<u8>, message: Seq<u8>) -> Seq<u8>;

/// Relies on base64ct's `Base64::decode_vec`: the decoded bytes, or the
/// decoder's error as text.
#[verifier::external_body]
fn decode_base64(s: &str) -> (r: Result<Vec<u8>, String>)
    ensures
        match base64_decoded(s@) {
            Some(b) => r is Ok && r->Ok_0@ == b,
            None => r is Err,
        },
{
    <base64ct::Base64 as base64ct::Encoding>::decode_vec(s).map_err(|e| e.to_string())
}

/// Relies on base64ct's `Base64::encode_string`, which panics only past
/// `usize::MAX / 4` input bytes.
#[verifier::external_body]
fn encode_base64(b: &[u8]) -> (r: String)
    requires
        b@.len() <= usize::MAX / 4,
    ensures
        r@ == base64_text(b@),
{
    <base64ct::Base64 as base64ct::Encoding>::encode_string(b)
}

/// Relies on ed25519-dalek's `SigningKey::from_bytes`, `verifying_key` and
/// `VerifyingKey::to_bytes`: the 32-byte verifying key of the seed.
#[verifier::external_body]
fn public_key_of(seed: &[u8; 32]) -> (r: [u8; 32])
    ensures
        r@ == ed25519_public_key(seed@),
{
    ed25519_dalek::SigningKey::from_bytes(seed).verifying_key().to_bytes()
}

/// Relies on ed25519-dalek's `Signer::sign` for `SigningKey` and
/// `Signature::to_bytes`: the 64-byte signature of the message.
#[verifier::external_body]
fn signature_of(seed: &[u8; 32], message: &[u8]) -> (r: [u8; 64])
    ensures
        r@ == ed25519_signature(seed@, message@),
{
    ed25519_dalek::Signer::sign(&ed25519_dalek::SigningKey::from_bytes(seed), message).to_bytes()
}

/// The length in bytes of an Ed25519 secret seed.
pub const SECRET_KEY_LENGTH: usize = 32;

/// An Ed25519 signing key and its verifying key.
pub struct KeyPair {
    seed: [u8; 32],
    verifying_key: [u8; 32],
}

impl KeyPair {
    #[verifier::type_invariant]
    spec fn inv(&self) -> bool {
        self.verifying_key@ == ed25519_public_key(self.seed@)
    }

    /// The secret seed, for contracts only.
    pub closed spec fn seed_bytes(&self) -> Seq<u8> {
        self.seed@
    }

    /// Decodes a base64 secret into a key pair. Fails with `Base64Decode`
    /// where the text is not base64 and with `SecretKey` where it decodes to
    /// anything but 32 bytes.
    pub fn from_secret(secret: &str) -> (r: Result<KeyPair, Error>)
        ensures
            match base64_decoded(secret@) {
                None => r matches Err(Error::Base64Decode(_)),
                Some(b) => if b.len() == SECRET_KEY_LENGTH {
                    r is Ok && r->Ok_0.seed_bytes() == b
                } else {
                    r matches Err(Error::SecretKey)
                },
            },
    {
        let bytes = match decode_base64(secret) {
            Ok(b) => b,
            Err(message) => return Err(Error::Base64Decode(message)),
        };
        if bytes.len() != SECRET_KEY_LENGTH {
            return Err(Error::SecretKey);
        }
        let mut seed = [0u8; 32];
        let mut i: usize = 0;
        while i < 32
            invariant
                bytes@.len() == 32,
                i <= 32,
                seed@.len() == 32,
                forall|j: int| 0 <= j < i ==> seed@[j] == bytes@[j],
            decreases 32 - i,
        {
            seed[i] = bytes[i];
            i = i + 1;
        }
        assert(seed@ =~= bytes@);
        let verifying_key = public_key_of(&seed);
        Ok(KeyPair { seed, verifying_key })
    }

    /// The 32-byte verifying key.
    pub fn verifying_key(&self) -> (r: [u8; 32])
        ensures
            r@ == ed25519_public_key(self.seed_bytes()),
    {
        proof {
            use_type_invariant(self);
        }
        self.verifying_key
    }

    /// The verifying key as base64 text, as the API-key header carries it.
    pub fn verifying_key_base64(&self) -> (r: String)
        ensures
            r@ == base64_text(ed25519_public_key(self.seed_bytes())),
    {
        let vk = self.verifying_key();
        encode_base64(vk.as_slice())
    }

    /// The Ed25519 signature of `message`.
    pub fn sign(&self, message: &[u8]) -> (r: [u8; 64])
        ensures
            r@ == ed25519_signature(self.seed_bytes(), message@),
    {
        signature_of(&self.seed, message)
    }

    /// The signature of the UTF-8 bytes of `message`, as base64 text.
    pub fn sign_base64(&self, message: &str) -> (r: String)
        ensures
            r@ == base64_text(ed25519_signature(self.seed_bytes(), vstd::utf8::encode_utf8(message@))),
    {
        let sig = self.sign(message.as_bytes());
        encode_base64(sig.as_slice())
    }
}

} // verus!
