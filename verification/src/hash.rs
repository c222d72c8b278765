//! The digest that names a piece of content.

use vstd::prelude::*;
use vstd::slice::slice_subrange;
use crate::bytes::{append_bytes, bytes_equal, read_array};
use crate::error::DeserializeCause;

verus! {

/// Width of a digest in bytes.
pub const HASH_SIZE_BYTES: usize = 32;

/// The BLAKE3 digest of a byte string: 32 bytes.
pub uninterp spec fn digest(data: Seq<u8>) -> [u8; 32];

/// Calls `blake3::hash` and copies the 32 bytes of its result. The digest is a
/// function of the input alone, so the result is the named `digest` of it.
#[verifier::external_body]
fn blake3_digest(data: &[u8]) -> (out: [u8; 32])
    ensures
        out == digest(data@),
{
    *blake3::hash(data).as_bytes()
}

/// A fixed-size digest.
#[derive(Clone, Copy, Debug)]
pub struct Hash {
    bytes: [u8; 32],
}

impl View for Hash {
    type V = Seq<u8>;

    closed spec fn view(&self) -> Seq<u8> {
        self.bytes@
    }
}

impl Hash {
    /// The digest with the bytes `bytes`, where they are as many as a digest
    /// has.
    pub closed spec fn of(bytes: Seq<u8>) -> Hash {
        choose|hash: Hash| hash@ == bytes
    }

    /// Digest of `data`.
    pub fn compute_from(data: &[u8]) -> (hash: Hash)
        ensures
            hash@ == digest(data@)@,
            hash == Hash::of(digest(data@)@),
    {
        let hash = Hash { bytes: blake3_digest(data) };
        proof {
            hash.lemma_view(Hash::of(hash@));
        }
        hash
    }

    /// The digest whose bytes are `bytes`.
    pub fn from_bytes(bytes: &[u8; 32]) -> (hash: Hash)
        ensures
            hash@ == bytes@,
    {
        Hash { bytes: *bytes }
    }

    /// The bytes of the digest.
    pub fn to_bytes(&self) -> (bytes: &[u8; 32])
        ensures
            bytes@ == self@,
    {
        &self.bytes
    }

    /// Every digest is exactly `HASH_SIZE_BYTES` long, two digests with the
    /// same bytes are the same digest, and a digest is the one made of its
    /// bytes.
    pub proof fn lemma_view(self, other: Hash)
        ensures
            self@.len() == HASH_SIZE_BYTES,
            self@ == other@ <==> self == other,
            Hash::of(self@) == self,
    {
        if self@ == other@ {
            assert(self.bytes =~= other.bytes);
        }
        let made = Hash::of(self@);
        assert(made@ == self@);
        assert(made.bytes =~= self.bytes);
    }
}

/// The digest of any data is the bytes of a `Hash`.
pub proof fn lemma_digest_is_hash(data: Seq<u8>)
    ensures
        Hash::of(digest(data)@)@ == digest(data)@,
        digest(data)@.len() == HASH_SIZE_BYTES,
{
    let witness = Hash { bytes: digest(data) };
    assert(witness@ == digest(data)@);
}

impl PartialEq for Hash {
    fn eq(&self, other: &Hash) -> (same: bool) {
        bytes_equal(self.bytes.as_slice(), other.bytes.as_slice())
    }
}

impl vstd::std_specs::cmp::PartialEqSpecImpl for Hash {
    open spec fn obeys_eq_spec() -> bool {
        true
    }

    open spec fn eq_spec(&self, other: &Hash) -> bool {
        self@ == other@
    }
}

impl Eq for Hash {}

/// Writes a digest: its bytes, with nothing before them.
#[derive(Clone, Copy, Debug)]
pub struct HashSerializer {}

impl HashSerializer {
    /// A serializer.
    pub fn new() -> HashSerializer {
        HashSerializer {  }
    }

    /// Appends the bytes of `value` to `buffer`.
    pub fn serialize(&self, value: &Hash, buffer: &mut Vec<u8>)
        ensures
            final(buffer)@ == old(buffer)@ + value@,
    {
        append_bytes(buffer, value.bytes.as_slice());
    }
}

/// Reads a digest.
#[derive(Clone, Copy, Debug)]
pub struct HashDeserializer {}

impl HashDeserializer {
    /// A decoder.
    pub fn new() -> HashDeserializer {
        HashDeserializer {  }
    }

    /// What the decoder reads at the start of `bytes`: the digest made of
    /// the first `HASH_SIZE_BYTES` bytes, where there are that many.
    pub open spec fn spec_deserialize(&self, bytes: Seq<u8>) -> Result<Hash, DeserializeCause> {
        if bytes.len() < HASH_SIZE_BYTES {
            Err(DeserializeCause::UnexpectedEnd)
        } else {
            Ok(Hash::of(bytes.take(HASH_SIZE_BYTES as int)))
        }
    }

    /// Reads one digest from the start of `buffer`, and returns it with the
    /// bytes that follow it.
    pub fn deserialize<'a>(&self, buffer: &'a [u8]) -> (outcome: Result<
        (&'a [u8], Hash),
        DeserializeCause,
    >)
        ensures
            match self.spec_deserialize(buffer@) {
                Ok(hash) => outcome is Ok && outcome->Ok_0.1 == hash && outcome->Ok_0.0@
                    == buffer@.skip(HASH_SIZE_BYTES as int),
                Err(e) => outcome is Err && outcome->Err_0 == e,
            },
    {
        match read_array::<32>(buffer) {
            Some(bytes) => {
                let hash = Hash { bytes };
                proof {
                    hash.lemma_view(hash);
                }
                Ok((slice_subrange(buffer, HASH_SIZE_BYTES, buffer.len()), hash))
            },
            None => Err(DeserializeCause::UnexpectedEnd),
        }
    }
}

} // verus!
