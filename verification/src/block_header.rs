//! Block headers, and the bytes that are hashed and signed for one.

use vstd::prelude::*;
use crate::block_id::BlockId;
use crate::bytes::append_bytes;
use crate::endorsement::SecureShareEndorsement;
use crate::error::SerializeError;
use crate::signature::{PublicKey, Signature};
use crate::slot::{Slot, SlotSerializer};
use crate::varint::{serialize_varint, varint_encoding};

verus! {

/// The bytes of the first `count` identifiers of `ids`, one after the other.
pub open spec fn parents_bytes(ids: Seq<BlockId>, count: nat) -> Seq<u8>
    decreases count,
{
    if count == 0 {
        Seq::<u8>::empty()
    } else {
        parents_bytes(ids, (count - 1) as nat) + ids[count - 1].0@
    }
}

/// The bytes of the first `count` signed endorsements of `items`, each in
/// its short form, one after the other.
pub open spec fn endorsements_bytes(items: Seq<SecureShareEndorsement>, count: nat) -> Seq<u8>
    decreases count,
{
    if count == 0 {
        Seq::<u8>::empty()
    } else {
        endorsements_bytes(items, (count - 1) as nat) + items[count - 1].light_bytes()
    }
}

/// The content of a block header.
#[derive(Clone, Debug)]
pub struct BlockHeader {
    /// The slot of the block.
    pub slot: Slot,
    /// The parents of the block, one per thread; none for a genesis block.
    pub parents: Vec<BlockId>,
    /// The root of the block's operations.
    pub operation_merkle_root: crate::hash::Hash,
    /// The endorsements that the block carries.
    pub endorsements: Vec<SecureShareEndorsement>,
}

impl BlockHeader {
    /// Whether the header can be written: the count of its endorsements has
    /// to fit the 32 bits that carry it.
    pub open spec fn serializable(&self) -> bool {
        self.endorsements@.len() <= u32::MAX
    }

    /// The canonical bytes of the header: slot; one byte that tells whether
    /// parents follow, and the parents; the operations' root; the count of
    /// endorsements and the endorsements.
    pub open spec fn bytes(&self) -> Seq<u8> {
        self.slot.bytes() + seq![
            if self.parents@.len() == 0 {
                0u8
            } else {
                1u8
            },
        ] + parents_bytes(self.parents@, self.parents@.len()) + self.operation_merkle_root@
            + varint_encoding(self.endorsements@.len()) + endorsements_bytes(
            self.endorsements@,
            self.endorsements@.len(),
        )
    }
}

/// A block header with its author's key, signature and identifier.
#[derive(Clone, Debug)]
pub struct SecuredHeader {
    /// What was signed.
    pub content: BlockHeader,
    /// The author's signature.
    pub signature: Signature,
    /// The author's public key.
    pub content_creator_pub_key: PublicKey,
    /// The identifier of the block.
    pub id: BlockId,
}

/// The count of a header's endorsements as the 32 bits that carry it, where
/// it fits them.
pub fn endorsement_count(count: usize) -> (outcome: Result<u32, SerializeError>)
    ensures
        match outcome {
            Ok(carried) => carried == count,
            Err(e) => count > u32::MAX && e == SerializeError::NumberTooBig,
        },
{
    if count > 0xffff_ffff {
        Err(SerializeError::NumberTooBig)
    } else {
        Ok(count as u32)
    }
}

/// Writes the canonical bytes of a block header.
#[derive(Clone, Copy, Debug)]
pub struct BlockHeaderSerializer {}

impl BlockHeaderSerializer {
    /// A serializer.
    pub fn new() -> BlockHeaderSerializer {
        BlockHeaderSerializer {  }
    }

    /// Appends the canonical bytes of `value` to `buffer`. A header with
    /// more endorsements than 32 bits can count is refused, and `buffer`
    /// left as it was.
    pub fn serialize(&self, value: &BlockHeader, buffer: &mut Vec<u8>) -> (outcome: Result<
        (),
        SerializeError,
    >)
        ensures
            match outcome {
                Ok(_) => value.serializable() && final(buffer)@ == old(buffer)@ + value.bytes(),
                Err(e) => !value.serializable() && e == SerializeError::NumberTooBig
                    && final(buffer)@ == old(buffer)@,
            },
    {
        let ghost start = buffer@;
        let count: u32 = match endorsement_count(value.endorsements.len()) {
            Ok(carried) => carried,
            Err(e) => {
                return Err(e);
            },
        };
        SlotSerializer::new().serialize(&value.slot, buffer);
        if value.parents.len() == 0 {
            buffer.push(0);
        } else {
            buffer.push(1);
        }
        let ghost head = buffer@;
        let mut i: usize = 0;
        while i < value.parents.len()
            invariant
                i <= value.parents@.len(),
                buffer@ == head + parents_bytes(value.parents@, i as nat),
            decreases value.parents@.len() - i,
        {
            append_bytes(buffer, value.parents[i].0.to_bytes().as_slice());
            assert(buffer@ =~= head + parents_bytes(value.parents@, (i + 1) as nat));
            i += 1;
        }
        append_bytes(buffer, value.operation_merkle_root.to_bytes().as_slice());
        serialize_varint(count as u64, buffer);
        let ghost middle = buffer@;
        let mut j: usize = 0;
        while j < value.endorsements.len()
            invariant
                j <= value.endorsements@.len(),
                buffer@ == middle + endorsements_bytes(value.endorsements@, j as nat),
            decreases value.endorsements@.len() - j,
        {
            let item = &value.endorsements[j];
            append_bytes(buffer, item.signature.to_bytes().as_slice());
            append_bytes(buffer, item.content_creator_pub_key.to_bytes().as_slice());
            serialize_varint(item.content.index as u64, buffer);
            assert(buffer@ =~= middle + endorsements_bytes(value.endorsements@, (j + 1) as nat));
            j += 1;
        }
        assert(buffer@ =~= start + value.bytes());
        Ok(())
    }
}

/// The position that a block header's signature is bound to: its slot.
#[derive(Clone, Copy, Debug, PartialEq, Eq, Structural)]
pub struct BlockHeaderDenunciationData {
    /// The slot.
    pub slot: Slot,
}

impl BlockHeaderDenunciationData {
    /// The position `slot`.
    pub fn new(slot: Slot) -> (data: BlockHeaderDenunciationData)
        ensures
            data == (BlockHeaderDenunciationData { slot }),
    {
        BlockHeaderDenunciationData { slot }
    }

    /// The bytes of the position: the slot.
    pub open spec fn bytes(self) -> Seq<u8> {
        self.slot.bytes()
    }

    /// The bytes of the position.
    pub fn to_bytes(&self) -> (out: Vec<u8>)
        ensures
            out@ == self.bytes(),
    {
        let mut out: Vec<u8> = Vec::new();
        SlotSerializer::new().serialize(&self.slot, &mut out);
        out
    }
}

} // verus!
