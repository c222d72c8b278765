//! Public keys and signatures, as the fixed-size byte strings that travel on
//! the wire, and the verification of a signature over a digest.

use vstd::prelude::*;
use vstd::slice::slice_subrange;
use crate::bytes::{bytes_equal, read_array};
use crate::error::DeserializeCause;
use ed25519_dalek::Verifier;

verus! {

/// Width of a public key in bytes.
pub const PUBLIC_KEY_SIZE_BYTES: usize = 32;

/// Width of a signature in bytes.
pub const SIGNATURE_SIZE_BYTES: usize = 64;

/// Whether 32 bytes are the compressed form of a curve point, that is,
/// whether `ed25519_dalek::VerifyingKey::from_bytes` accepts them.
pub uninterp spec fn is_public_key(bytes: Seq<u8>) -> bool;

/// Whether `ed25519_dalek::VerifyingKey::verify` accepts `signature` as a
/// signature of `message` under the key with bytes `public_key`; `false`
/// where those bytes are no key.
pub uninterp spec fn signature_verifies(
    public_key: Seq<u8>,
    message: Seq<u8>,
    signature: Seq<u8>,
) -> bool;

/// The error of the Ed25519 routines. Nothing is read from it.
#[verifier::external_type_specification]
#[verifier::external_body]
pub struct ExEd25519Error(ed25519_dalek::SignatureError);

/// Calls `ed25519_dalek::VerifyingKey::from_bytes`, which decompresses the
/// point and fails when the bytes are no point. The outcome depends on the
/// bytes alone.
#[verifier::external_body]
fn ed25519_is_public_key(bytes: &[u8; 32]) -> (ok: bool)
    ensures
        ok == is_public_key(bytes@),
{
    ed25519_dalek::VerifyingKey::from_bytes(bytes).is_ok()
}

/// Rebuilds the key with `ed25519_dalek::VerifyingKey::from_bytes` and calls
/// `ed25519_dalek::VerifyingKey::verify` on it. The call returns `Ok` exactly
/// when the bytes are a key and the signature is accepted; the outcome
/// depends on the three byte strings alone. Nothing is claimed of which
/// signatures are accepted.
#[verifier::external_body]
fn ed25519_verify(public_key: &[u8; 32], message: &[u8], signature: &[u8; 64]) -> (outcome: Result<
    (),
    ed25519_dalek::SignatureError,
>)
    ensures
        outcome.is_ok() == signature_verifies(public_key@, message@, signature@),
{
    let key = ed25519_dalek::VerifyingKey::from_bytes(public_key)?;
    key.verify(message, &ed25519_dalek::Signature::from_bytes(signature))
}

/// Why a key or a signature was turned down.
#[derive(Clone, Copy, Debug, PartialEq, Eq, Structural)]
pub enum MassaSignatureError {
    /// The bytes are not a public key.
    InvalidPublicKey,
    /// The signature does not verify under the key.
    VerificationFailed,
}

/// What checking `signature` against `message` under `public_key` gives.
pub open spec fn verification(public_key: Seq<u8>, message: Seq<u8>, signature: Seq<u8>) -> Result<
    (),
    MassaSignatureError,
> {
    if signature_verifies(public_key, message, signature) {
        Ok(())
    } else {
        Err(MassaSignatureError::VerificationFailed)
    }
}

/// A signature: 64 bytes, with no claim about what they sign.
#[derive(Clone, Copy, Debug)]
pub struct Signature {
    bytes: [u8; 64],
}

impl View for Signature {
    type V = Seq<u8>;

    closed spec fn view(&self) -> Seq<u8> {
        self.bytes@
    }
}

impl Signature {
    /// The signature with the bytes `bytes`, where they are as many as a
    /// signature has.
    pub closed spec fn of(bytes: Seq<u8>) -> Signature {
        choose|signature: Signature| signature@ == bytes
    }

    /// The signature whose bytes are `bytes`.
    pub fn from_bytes(bytes: &[u8; 64]) -> (signature: Signature)
        ensures
            signature@ == bytes@,
    {
        Signature { bytes: *bytes }
    }

    /// The bytes of the signature.
    pub fn to_bytes(&self) -> (bytes: &[u8; 64])
        ensures
            bytes@ == self@,
    {
        &self.bytes
    }

    /// Every signature is exactly `SIGNATURE_SIZE_BYTES` long, two
    /// signatures with the same bytes are the same signature, and a
    /// signature is the one made of its bytes.
    pub proof fn lemma_view(self, other: Signature)
        ensures
            self@.len() == SIGNATURE_SIZE_BYTES,
            self@ == other@ <==> self == other,
            Signature::of(self@) == self,
    {
        if self@ == other@ {
            assert(self.bytes =~= other.bytes);
        }
        let made = Signature::of(self@);
        assert(made@ == self@);
        assert(made.bytes =~= self.bytes);
    }
}

impl PartialEq for Signature {
    fn eq(&self, other: &Signature) -> (same: bool) {
        bytes_equal(self.bytes.as_slice(), other.bytes.as_slice())
    }
}

impl vstd::std_specs::cmp::PartialEqSpecImpl for Signature {
    open spec fn obeys_eq_spec() -> bool {
        true
    }

    open spec fn eq_spec(&self, other: &Signature) -> bool {
        self@ == other@
    }
}

impl Eq for Signature {}

/// A public key: 32 bytes that are known to be a curve point.
#[derive(Clone, Copy, Debug)]
pub struct PublicKey {
    bytes: [u8; 32],
}

impl View for PublicKey {
    type V = Seq<u8>;

    closed spec fn view(&self) -> Seq<u8> {
        self.bytes@
    }
}

impl PublicKey {
    #[verifier::type_invariant]
    closed spec fn is_point(self) -> bool {
        is_public_key(self.bytes@)
    }

    /// The key with the bytes `bytes`, where they are as many as a key has.
    pub closed spec fn of(bytes: Seq<u8>) -> PublicKey {
        choose|key: PublicKey| key@ == bytes
    }

    /// The key whose bytes are `bytes`, where they are a public key.
    pub fn from_bytes(bytes: &[u8; 32]) -> (outcome: Result<PublicKey, MassaSignatureError>)
        ensures
            match outcome {
                Ok(key) => is_public_key(bytes@) && key@ == bytes@,
                Err(e) => !is_public_key(bytes@) && e == MassaSignatureError::InvalidPublicKey,
            },
    {
        if ed25519_is_public_key(bytes) {
            Ok(PublicKey { bytes: *bytes })
        } else {
            Err(MassaSignatureError::InvalidPublicKey)
        }
    }

    /// The bytes of the key.
    pub fn to_bytes(&self) -> (bytes: &[u8; 32])
        ensures
            bytes@ == self@,
            is_public_key(self@),
    {
        proof {
            use_type_invariant(self);
        }
        &self.bytes
    }

    /// Checks `signature` against the digest `hash` under this key.
    pub fn verify_signature(&self, hash: &crate::hash::Hash, signature: &Signature) -> (outcome: Result<
        (),
        MassaSignatureError,
    >)
        ensures
            outcome == verification(self@, hash@, signature@),
    {
        match ed25519_verify(&self.bytes, hash.to_bytes().as_slice(), &signature.bytes) {
            Ok(()) => Ok(()),
            Err(_) => Err(MassaSignatureError::VerificationFailed),
        }
    }

    /// Every key is exactly `PUBLIC_KEY_SIZE_BYTES` long, two keys with the
    /// same bytes are the same key, and a key is the one made of its bytes.
    pub proof fn lemma_view(self, other: PublicKey)
        ensures
            self@.len() == PUBLIC_KEY_SIZE_BYTES,
            self@ == other@ <==> self == other,
            PublicKey::of(self@) == self,
    {
        if self@ == other@ {
            assert(self.bytes =~= other.bytes);
        }
        let made = PublicKey::of(self@);
        assert(made@ == self@);
        assert(made.bytes =~= self.bytes);
    }
}

impl PartialEq for PublicKey {
    fn eq(&self, other: &PublicKey) -> (same: bool) {
        bytes_equal(self.bytes.as_slice(), other.bytes.as_slice())
    }
}

impl vstd::std_specs::cmp::PartialEqSpecImpl for PublicKey {
    open spec fn obeys_eq_spec() -> bool {
        true
    }

    open spec fn eq_spec(&self, other: &PublicKey) -> bool {
        self@ == other@
    }
}

impl Eq for PublicKey {}

/// Reads a public key.
#[derive(Clone, Copy, Debug)]
pub struct PublicKeyDeserializer {}

impl PublicKeyDeserializer {
    /// A decoder.
    pub fn new() -> PublicKeyDeserializer {
        PublicKeyDeserializer {  }
    }

    /// What the decoder reads at the start of `bytes`: the key made of the
    /// first `PUBLIC_KEY_SIZE_BYTES` bytes, where there are that many and
    /// they are a public key.
    pub open spec fn spec_deserialize(&self, bytes: Seq<u8>) -> Result<PublicKey, DeserializeCause> {
        if bytes.len() < PUBLIC_KEY_SIZE_BYTES {
            Err(DeserializeCause::UnexpectedEnd)
        } else if !is_public_key(bytes.take(PUBLIC_KEY_SIZE_BYTES as int)) {
            Err(DeserializeCause::InvalidPublicKey)
        } else {
            Ok(PublicKey::of(bytes.take(PUBLIC_KEY_SIZE_BYTES as int)))
        }
    }

    /// Reads one key from the start of `buffer`, and returns it with the
    /// bytes that follow it.
    pub fn deserialize<'a>(&self, buffer: &'a [u8]) -> (outcome: Result<
        (&'a [u8], PublicKey),
        DeserializeCause,
    >)
        ensures
            match self.spec_deserialize(buffer@) {
                Ok(key) => outcome is Ok && outcome->Ok_0.1 == key && outcome->Ok_0.0@
                    == buffer@.skip(PUBLIC_KEY_SIZE_BYTES as int),
                Err(e) => outcome is Err && outcome->Err_0 == e,
            },
    {
        match read_array::<32>(buffer) {
            Some(bytes) => match PublicKey::from_bytes(&bytes) {
                Ok(key) => {
                    proof {
                        key.lemma_view(key);
                    }
                    Ok((slice_subrange(buffer, PUBLIC_KEY_SIZE_BYTES, buffer.len()), key))
                },
                Err(_) => Err(DeserializeCause::InvalidPublicKey),
            },
            None => Err(DeserializeCause::UnexpectedEnd),
        }
    }
}

/// Reads a signature.
#[derive(Clone, Copy, Debug)]
pub struct SignatureDeserializer {}

impl SignatureDeserializer {
    /// A decoder.
    pub fn new() -> SignatureDeserializer {
        SignatureDeserializer {  }
    }

    /// What the decoder reads at the start of `bytes`: the signature made
    /// of the first `SIGNATURE_SIZE_BYTES` bytes, where there are that many.
    pub open spec fn spec_deserialize(&self, bytes: Seq<u8>) -> Result<Signature, DeserializeCause> {
        if bytes.len() < SIGNATURE_SIZE_BYTES {
            Err(DeserializeCause::UnexpectedEnd)
        } else {
            Ok(Signature::of(bytes.take(SIGNATURE_SIZE_BYTES as int)))
        }
    }

    /// Reads one signature from the start of `buffer`, and returns it with
    /// the bytes that follow it.
    pub fn deserialize<'a>(&self, buffer: &'a [u8]) -> (outcome: Result<
        (&'a [u8], Signature),
        DeserializeCause,
    >)
        ensures
            match self.spec_deserialize(buffer@) {
                Ok(signature) => outcome is Ok && outcome->Ok_0.1 == signature && outcome->Ok_0.0@
                    == buffer@.skip(SIGNATURE_SIZE_BYTES as int),
                Err(e) => outcome is Err && outcome->Err_0 == e,
            },
    {
        match read_array::<64>(buffer) {
            Some(bytes) => {
                let signature = Signature { bytes };
                proof {
                    signature.lemma_view(signature);
                }
                Ok((slice_subrange(buffer, SIGNATURE_SIZE_BYTES, buffer.len()), signature))
            },
            None => Err(DeserializeCause::UnexpectedEnd),
        }
    }
}

} // verus!
