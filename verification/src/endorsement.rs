//! Endorsements: what a validator signs to back a block, and the bytes that
//! are hashed and signed for one.

use vstd::prelude::*;
use crate::block_id::BlockId;
use crate::bytes::append_bytes;
use crate::error::SerializeError;
use crate::signature::{PublicKey, Signature};
use crate::slot::{Slot, SlotSerializer};
use crate::varint::{serialize_varint, varint_encoding};

verus! {

/// The identifier of a signed endorsement: a digest.
#[derive(Clone, Copy, Debug)]
pub struct EndorsementId(pub crate::hash::Hash);

impl EndorsementId {
    /// The digest behind the identifier.
    pub fn get_hash(&self) -> (hash: &crate::hash::Hash)
        ensures
            *hash == self.0,
    {
        &self.0
    }
}

impl PartialEq for EndorsementId {
    fn eq(&self, other: &EndorsementId) -> (same: bool) {
        self.0 == other.0
    }
}

impl vstd::std_specs::cmp::PartialEqSpecImpl for EndorsementId {
    open spec fn obeys_eq_spec() -> bool {
        true
    }

    open spec fn eq_spec(&self, other: &EndorsementId) -> bool {
        self.0@ == other.0@
    }
}

impl Eq for EndorsementId {}

/// The content of an endorsement.
#[derive(Clone, Copy, Debug)]
pub struct Endorsement {
    /// The slot of the endorsed block.
    pub slot: Slot,
    /// The place of the endorsement within the block.
    pub index: u32,
    /// The block that is endorsed.
    pub endorsed_block: BlockId,
}

impl Endorsement {
    /// The canonical bytes of the content: slot, index, endorsed block.
    pub open spec fn bytes(self) -> Seq<u8> {
        self.slot.bytes() + varint_encoding(self.index as nat) + self.endorsed_block.0@
    }

    /// The short form used inside a block header, where slot and block are
    /// those of the header: the index alone.
    pub open spec fn light_bytes(self) -> Seq<u8> {
        varint_encoding(self.index as nat)
    }
}

/// An endorsement with its author's key, signature and identifier.
#[derive(Clone, Copy, Debug)]
pub struct SecureShareEndorsement {
    /// What was signed.
    pub content: Endorsement,
    /// The author's signature.
    pub signature: Signature,
    /// The author's public key.
    pub content_creator_pub_key: PublicKey,
    /// The identifier of the signed endorsement.
    pub id: EndorsementId,
}

impl SecureShareEndorsement {
    /// The bytes of the signed endorsement inside a block header: signature,
    /// author's key, then the short form of the content.
    pub open spec fn light_bytes(self) -> Seq<u8> {
        self.signature@ + self.content_creator_pub_key@ + self.content.light_bytes()
    }
}

/// Writes the canonical bytes of an endorsement's content.
#[derive(Clone, Copy, Debug)]
pub struct EndorsementSerializer {}

impl EndorsementSerializer {
    /// A serializer.
    pub fn new() -> EndorsementSerializer {
        EndorsementSerializer {  }
    }

    /// Appends the canonical bytes of `value` to `buffer`. It never fails.
    pub fn serialize(&self, value: &Endorsement, buffer: &mut Vec<u8>) -> (outcome: Result<
        (),
        SerializeError,
    >)
        ensures
            outcome is Ok,
            final(buffer)@ == old(buffer)@ + value.bytes(),
    {
        let ghost start = buffer@;
        SlotSerializer::new().serialize(&value.slot, buffer);
        serialize_varint(value.index as u64, buffer);
        append_bytes(buffer, value.endorsed_block.0.to_bytes().as_slice());
        assert(buffer@ =~= start + value.bytes());
        Ok(())
    }
}

/// Writes the short form of an endorsement's content.
#[derive(Clone, Copy, Debug)]
pub struct EndorsementSerializerLW {}

impl EndorsementSerializerLW {
    /// A serializer.
    pub fn new() -> EndorsementSerializerLW {
        EndorsementSerializerLW {  }
    }

    /// Appends the short form of `value` to `buffer`. It never fails.
    pub fn serialize(&self, value: &Endorsement, buffer: &mut Vec<u8>) -> (outcome: Result<
        (),
        SerializeError,
    >)
        ensures
            outcome is Ok,
            final(buffer)@ == old(buffer)@ + value.light_bytes(),
    {
        serialize_varint(value.index as u64, buffer);
        Ok(())
    }
}

/// The position that an endorsement's signature is bound to: slot and index.
#[derive(Clone, Copy, Debug, PartialEq, Eq, Structural)]
pub struct EndorsementDenunciationData {
    /// The slot.
    pub slot: Slot,
    /// The index.
    pub index: u32,
}

impl EndorsementDenunciationData {
    /// The position of index `index` in `slot`.
    pub fn new(slot: Slot, index: u32) -> (data: EndorsementDenunciationData)
        ensures
            data == (EndorsementDenunciationData { slot, index }),
    {
        EndorsementDenunciationData { slot, index }
    }

    /// The bytes of the position: the slot, then the index as a
    /// variable-length integer.
    pub open spec fn bytes(self) -> Seq<u8> {
        self.slot.bytes() + varint_encoding(self.index as nat)
    }

    /// The bytes of the position.
    pub fn to_bytes(&self) -> (out: Vec<u8>)
        ensures
            out@ == self.bytes(),
    {
        let mut out: Vec<u8> = Vec::new();
        SlotSerializer::new().serialize(&self.slot, &mut out);
        serialize_varint(self.index as u64, &mut out);
        assert(out@ =~= self.bytes());
        out
    }
}

} // verus!
