//! The wire format of denunciations.
//!
//! A denunciation travels as the number of its kind, written as a
//! variable-length integer, followed by its fields: public key, slot, for an
//! endorsement the index, the two content hashes and the two signatures.
//! Keys, hashes and signatures have a fixed width and no length before them.

use vstd::prelude::*;
use crate::bytes::append_bytes;
use crate::denunciation::{BlockHeaderDenunciation, Denunciation, EndorsementDenunciation};
use crate::error::{
    DenunciationField, DeserializeCause, DeserializeContext, DeserializeError, SerializeError,
};
use crate::hash::{HashDeserializer, HashSerializer, HASH_SIZE_BYTES};
use crate::signature::{
    PublicKeyDeserializer, Signature, SignatureDeserializer, PUBLIC_KEY_SIZE_BYTES,
    SIGNATURE_SIZE_BYTES,
};
use crate::slot::{SlotDeserializer, SlotSerializer};
use crate::varint::{
    varint_encoding, U32VarIntDeserializer, U32VarIntSerializer, UpperBound,
};

verus! {

/// The kinds of denunciation, as numbered on the wire.
#[derive(Clone, Copy, Debug, PartialEq, Eq, Structural)]
pub enum DenunciationTypeId {
    /// Number 0: two endorsements.
    Endorsement,
    /// Number 1: two block headers.
    BlockHeader,
}

/// How many kinds of denunciation there are.
pub const DENUNCIATION_TYPE_ID_VARIANT_COUNT: u32 = 2;

impl DenunciationTypeId {
    /// The number of the kind.
    pub open spec fn number(self) -> u32 {
        match self {
            DenunciationTypeId::Endorsement => 0,
            DenunciationTypeId::BlockHeader => 1,
        }
    }

    /// The kind of a denunciation.
    pub open spec fn of(value: Denunciation) -> DenunciationTypeId {
        match value {
            Denunciation::Endorsement(_) => DenunciationTypeId::Endorsement,
            Denunciation::BlockHeader(_) => DenunciationTypeId::BlockHeader,
        }
    }
}

impl<'a> From<&'a Denunciation> for DenunciationTypeId {
    fn from(value: &'a Denunciation) -> (id: DenunciationTypeId) {
        match value {
            Denunciation::Endorsement(_) => DenunciationTypeId::Endorsement,
            Denunciation::BlockHeader(_) => DenunciationTypeId::BlockHeader,
        }
    }
}

impl<'a> vstd::std_specs::convert::FromSpecImpl<&'a Denunciation> for DenunciationTypeId {
    open spec fn obeys_from_spec() -> bool {
        true
    }

    open spec fn from_spec(value: &'a Denunciation) -> DenunciationTypeId {
        DenunciationTypeId::of(*value)
    }
}

impl From<DenunciationTypeId> for u32 {
    fn from(id: DenunciationTypeId) -> (number: u32) {
        match id {
            DenunciationTypeId::Endorsement => 0,
            DenunciationTypeId::BlockHeader => 1,
        }
    }
}

impl vstd::std_specs::convert::FromSpecImpl<DenunciationTypeId> for u32 {
    open spec fn obeys_from_spec() -> bool {
        true
    }

    open spec fn from_spec(id: DenunciationTypeId) -> u32 {
        id.number()
    }
}

/// A number that names no kind of denunciation.
#[derive(Clone, Copy, Debug, PartialEq, Eq, Structural)]
pub struct UnknownDenunciationTypeId {
    /// The number.
    pub number: u32,
}

impl TryFrom<u32> for DenunciationTypeId {
    type Error = UnknownDenunciationTypeId;

    fn try_from(number: u32) -> (outcome: Result<DenunciationTypeId, UnknownDenunciationTypeId>) {
        if number == 0 {
            Ok(DenunciationTypeId::Endorsement)
        } else if number == 1 {
            Ok(DenunciationTypeId::BlockHeader)
        } else {
            Err(UnknownDenunciationTypeId { number })
        }
    }
}

impl vstd::std_specs::convert::TryFromSpecImpl<u32> for DenunciationTypeId {
    open spec fn obeys_try_from_spec() -> bool {
        true
    }

    open spec fn try_from_spec(number: u32) -> Result<DenunciationTypeId, UnknownDenunciationTypeId> {
        if number == 0 {
            Ok(DenunciationTypeId::Endorsement)
        } else if number == 1 {
            Ok(DenunciationTypeId::BlockHeader)
        } else {
            Err(UnknownDenunciationTypeId { number })
        }
    }
}

impl EndorsementDenunciation {
    /// The bytes of the denunciation on the wire, after the number of its
    /// kind.
    pub open spec fn bytes(self) -> Seq<u8> {
        self.public_key@ + self.slot.bytes() + varint_encoding(self.index as nat) + self.hash_1@
            + self.hash_2@ + self.signature_1@ + self.signature_2@
    }
}

impl BlockHeaderDenunciation {
    /// The bytes of the denunciation on the wire, after the number of its
    /// kind.
    pub open spec fn bytes(self) -> Seq<u8> {
        self.public_key@ + self.slot.bytes() + self.hash_1@ + self.hash_2@ + self.signature_1@
            + self.signature_2@
    }
}

impl Denunciation {
    /// The bytes of the denunciation on the wire: the number of its kind,
    /// then its fields.
    pub open spec fn bytes(self) -> Seq<u8> {
        match self {
            Denunciation::Endorsement(de) => varint_encoding(0) + de.bytes(),
            Denunciation::BlockHeader(de) => varint_encoding(1) + de.bytes(),
        }
    }
}

/// Writes an endorsement denunciation.
#[derive(Clone, Copy, Debug)]
pub struct EndorsementDenunciationSerializer {
    slot_serializer: SlotSerializer,
    u32_serializer: U32VarIntSerializer,
    hash_serializer: HashSerializer,
}

impl EndorsementDenunciationSerializer {
    /// A serializer.
    pub fn new() -> EndorsementDenunciationSerializer {
        EndorsementDenunciationSerializer {
            slot_serializer: SlotSerializer::new(),
            u32_serializer: U32VarIntSerializer::new(),
            hash_serializer: HashSerializer::new(),
        }
    }

    /// Appends the bytes of `value` to `buffer`. It never fails.
    pub fn serialize(&self, value: &EndorsementDenunciation, buffer: &mut Vec<u8>) -> (outcome:
        Result<(), SerializeError>)
        ensures
            outcome is Ok,
            final(buffer)@ == old(buffer)@ + value.bytes(),
    {
        let ghost start = buffer@;
        append_bytes(buffer, value.public_key.to_bytes().as_slice());
        self.slot_serializer.serialize(&value.slot, buffer);
        self.u32_serializer.serialize(value.index, buffer);
        self.hash_serializer.serialize(&value.hash_1, buffer);
        self.hash_serializer.serialize(&value.hash_2, buffer);
        append_bytes(buffer, value.signature_1.to_bytes().as_slice());
        append_bytes(buffer, value.signature_2.to_bytes().as_slice());
        assert(buffer@ =~= start + value.bytes());
        Ok(())
    }
}

impl Default for EndorsementDenunciationSerializer {
    fn default() -> EndorsementDenunciationSerializer {
        Self::new()
    }
}

/// Writes a block header denunciation.
#[derive(Clone, Copy, Debug)]
pub struct BlockHeaderDenunciationSerializer {
    slot_serializer: SlotSerializer,
    hash_serializer: HashSerializer,
}

impl BlockHeaderDenunciationSerializer {
    /// A serializer.
    pub fn new() -> BlockHeaderDenunciationSerializer {
        BlockHeaderDenunciationSerializer {
            slot_serializer: SlotSerializer::new(),
            hash_serializer: HashSerializer::new(),
        }
    }

    /// Appends the bytes of `value` to `buffer`. It never fails.
    pub fn serialize(&self, value: &BlockHeaderDenunciation, buffer: &mut Vec<u8>) -> (outcome:
        Result<(), SerializeError>)
        ensures
            outcome is Ok,
            final(buffer)@ == old(buffer)@ + value.bytes(),
    {
        let ghost start = buffer@;
        append_bytes(buffer, value.public_key.to_bytes().as_slice());
        self.slot_serializer.serialize(&value.slot, buffer);
        self.hash_serializer.serialize(&value.hash_1, buffer);
        self.hash_serializer.serialize(&value.hash_2, buffer);
        append_bytes(buffer, value.signature_1.to_bytes().as_slice());
        append_bytes(buffer, value.signature_2.to_bytes().as_slice());
        assert(buffer@ =~= start + value.bytes());
        Ok(())
    }
}

impl Default for BlockHeaderDenunciationSerializer {
    fn default() -> BlockHeaderDenunciationSerializer {
        Self::new()
    }
}

/// Writes a denunciation of either kind.
#[derive(Clone, Copy, Debug)]
pub struct DenunciationSerializer {
    endo_de_serializer: EndorsementDenunciationSerializer,
    blkh_de_serializer: BlockHeaderDenunciationSerializer,
    type_id_serializer: U32VarIntSerializer,
}

impl DenunciationSerializer {
    /// A serializer.
    pub fn new() -> DenunciationSerializer {
        DenunciationSerializer {
            endo_de_serializer: EndorsementDenunciationSerializer::new(),
            blkh_de_serializer: BlockHeaderDenunciationSerializer::new(),
            type_id_serializer: U32VarIntSerializer::new(),
        }
    }

    /// Appends the bytes of `value` to `buffer`. It never fails.
    pub fn serialize(&self, value: &Denunciation, buffer: &mut Vec<u8>) -> (outcome: Result<
        (),
        SerializeError,
    >)
        ensures
            outcome is Ok,
            final(buffer)@ == old(buffer)@ + value.bytes(),
    {
        let ghost start = buffer@;
        let de_type_id = DenunciationTypeId::from(value);
        self.type_id_serializer.serialize(u32::from(de_type_id), buffer);
        match value {
            Denunciation::Endorsement(de) => {
                let _ = self.endo_de_serializer.serialize(de, buffer);
            },
            Denunciation::BlockHeader(de) => {
                let _ = self.blkh_de_serializer.serialize(de, buffer);
            },
        }
        assert(buffer@ =~= start + value.bytes());
        Ok(())
    }
}

impl Default for DenunciationSerializer {
    fn default() -> DenunciationSerializer {
        Self::new()
    }
}

/// What follows the position in a denunciation of either kind: two content
/// hashes and two signatures.
#[derive(Clone, Copy, Debug)]
pub struct Evidence {
    /// The first content hash.
    pub hash_1: crate::hash::Hash,
    /// The second content hash.
    pub hash_2: crate::hash::Hash,
    /// The first signature.
    pub signature_1: Signature,
    /// The second signature.
    pub signature_2: Signature,
}

/// The two hashes and two signatures at the start of `bytes`, with the
/// bytes that follow them, or the first of the four that `bytes` is too
/// short for.
pub open spec fn spec_evidence(bytes: Seq<u8>) -> Result<
    (Evidence, Seq<u8>),
    (DenunciationField, DeserializeCause),
> {
    let after_1 = bytes.skip(HASH_SIZE_BYTES as int);
    let after_2 = after_1.skip(HASH_SIZE_BYTES as int);
    let after_3 = after_2.skip(SIGNATURE_SIZE_BYTES as int);
    match (HashDeserializer {  }).spec_deserialize(bytes) {
        Err(cause) => Err((DenunciationField::Hash1, cause)),
        Ok(hash_1) => match (HashDeserializer {  }).spec_deserialize(after_1) {
            Err(cause) => Err((DenunciationField::Hash2, cause)),
            Ok(hash_2) => match (SignatureDeserializer {  }).spec_deserialize(after_2) {
                Err(cause) => Err((DenunciationField::Signature1, cause)),
                Ok(signature_1) => match (SignatureDeserializer {  }).spec_deserialize(after_3) {
                    Err(cause) => Err((DenunciationField::Signature2, cause)),
                    Ok(signature_2) => Ok(
                        (
                            Evidence { hash_1, hash_2, signature_1, signature_2 },
                            after_3.skip(SIGNATURE_SIZE_BYTES as int),
                        ),
                    ),
                },
            },
        },
    }
}

/// Reads two hashes and two signatures from the start of `buffer`, and
/// returns them with the bytes that follow them.
pub fn read_evidence<'a>(buffer: &'a [u8]) -> (outcome: Result<
    (&'a [u8], Evidence),
    (DenunciationField, DeserializeCause),
>)
    ensures
        match spec_evidence(buffer@) {
            Ok((evidence, rest)) => outcome is Ok && outcome->Ok_0.1 == evidence
                && outcome->Ok_0.0@ == rest,
            Err(e) => outcome is Err && outcome->Err_0 == e,
        },
{
    let hash_deserializer = HashDeserializer::new();
    let signature_deserializer = SignatureDeserializer::new();
    let (rest, hash_1) = match hash_deserializer.deserialize(buffer) {
        Ok(read) => read,
        Err(cause) => {
            return Err((DenunciationField::Hash1, cause));
        },
    };
    let (rest, hash_2) = match hash_deserializer.deserialize(rest) {
        Ok(read) => read,
        Err(cause) => {
            return Err((DenunciationField::Hash2, cause));
        },
    };
    let (rest, signature_1) = match signature_deserializer.deserialize(rest) {
        Ok(read) => read,
        Err(cause) => {
            return Err((DenunciationField::Signature1, cause));
        },
    };
    let (rest, signature_2) = match signature_deserializer.deserialize(rest) {
        Ok(read) => read,
        Err(cause) => {
            return Err((DenunciationField::Signature2, cause));
        },
    };
    Ok((rest, Evidence { hash_1, hash_2, signature_1, signature_2 }))
}

/// Reads an endorsement denunciation.
#[derive(Clone, Copy, Debug)]
pub struct EndorsementDenunciationDeserializer {
    /// The decoder of the slot.
    pub slot_deserializer: SlotDeserializer,
    /// The decoder of the index.
    pub index_deserializer: U32VarIntDeserializer,
    /// The decoder of the author's key.
    pub pubkey_deserializer: PublicKeyDeserializer,
}

impl EndorsementDenunciationDeserializer {
    /// Whether the decoder accepts the threads below `thread_count` and
    /// the indexes below `endorsement_count`, and every period.
    pub open spec fn configured(&self, thread_count: u8, endorsement_count: u32) -> bool {
        &&& self.slot_deserializer.period_deserializer.min == 0
        &&& self.slot_deserializer.period_deserializer.max == UpperBound::Included(u64::MAX)
        &&& self.slot_deserializer.thread_min == 0
        &&& self.slot_deserializer.thread_max == UpperBound::Excluded(thread_count as u64)
        &&& self.index_deserializer.min == 0
        &&& self.index_deserializer.max == UpperBound::Excluded(endorsement_count as u64)
    }

    /// A decoder for `thread_count` threads and `endorsement_count`
    /// endorsements per block.
    pub fn new(thread_count: u8, endorsement_count: u32) -> (decoder:
        EndorsementDenunciationDeserializer)
        ensures
            decoder.configured(thread_count, endorsement_count),
    {
        EndorsementDenunciationDeserializer {
            slot_deserializer: SlotDeserializer::new(
                0,
                UpperBound::Included(u64::MAX),
                0,
                UpperBound::Excluded(thread_count as u64),
            ),
            index_deserializer: U32VarIntDeserializer::new(
                0,
                UpperBound::Excluded(endorsement_count as u64),
            ),
            pubkey_deserializer: PublicKeyDeserializer::new(),
        }
    }

    /// What the decoder reads at the start of `bytes`: the denunciation and
    /// the bytes that follow it, or the first field at which reading
    /// stops, and why.
    pub open spec fn spec_deserialize(&self, bytes: Seq<u8>) -> Result<
        (EndorsementDenunciation, Seq<u8>),
        DeserializeError,
    > {
        let after_key = bytes.skip(PUBLIC_KEY_SIZE_BYTES as int);
        match self.pubkey_deserializer.spec_deserialize(bytes) {
            Err(cause) => Err(
                DeserializeError {
                    context: DeserializeContext::Endorsement(DenunciationField::PublicKey),
                    cause,
                },
            ),
            Ok(public_key) => match self.slot_deserializer.spec_deserialize(after_key) {
                Err(cause) => Err(
                    DeserializeError {
                        context: DeserializeContext::Endorsement(DenunciationField::Slot),
                        cause,
                    },
                ),
                Ok((slot, slot_len)) => match self.index_deserializer.spec_deserialize(
                    after_key.skip(slot_len as int),
                ) {
                    Err(cause) => Err(
                        DeserializeError {
                            context: DeserializeContext::Endorsement(DenunciationField::Index),
                            cause,
                        },
                    ),
                    Ok((index, index_len)) => match spec_evidence(
                        after_key.skip(slot_len as int).skip(index_len as int),
                    ) {
                        Err((field, cause)) => Err(
                            DeserializeError {
                                context: DeserializeContext::Endorsement(field),
                                cause,
                            },
                        ),
                        Ok((evidence, rest)) => Ok(
                            (
                                EndorsementDenunciation {
                                    public_key,
                                    slot,
                                    index: index as u32,
                                    hash_1: evidence.hash_1,
                                    hash_2: evidence.hash_2,
                                    signature_1: evidence.signature_1,
                                    signature_2: evidence.signature_2,
                                },
                                rest,
                            ),
                        ),
                    },
                },
            },
        }
    }

    /// Reads one denunciation from the start of `buffer`, and returns it
    /// with the bytes that follow it. Nothing is returned of a
    /// denunciation that is not whole.
    pub fn deserialize<'a>(&self, buffer: &'a [u8]) -> (outcome: Result<
        (&'a [u8], EndorsementDenunciation),
        DeserializeError,
    >)
        ensures
            match self.spec_deserialize(buffer@) {
                Ok((value, rest)) => outcome is Ok && outcome->Ok_0.1 == value
                    && outcome->Ok_0.0@ == rest,
                Err(e) => outcome is Err && outcome->Err_0 == e,
            },
    {
        let (rest, public_key) = match self.pubkey_deserializer.deserialize(buffer) {
            Ok(read) => read,
            Err(cause) => {
                return Err(
                    DeserializeError {
                        context: DeserializeContext::Endorsement(DenunciationField::PublicKey),
                        cause,
                    },
                );
            },
        };
        let (rest, slot) = match self.slot_deserializer.deserialize(rest) {
            Ok(read) => read,
            Err(cause) => {
                return Err(
                    DeserializeError {
                        context: DeserializeContext::Endorsement(DenunciationField::Slot),
                        cause,
                    },
                );
            },
        };
        let (rest, index) = match self.index_deserializer.deserialize(rest) {
            Ok(read) => read,
            Err(cause) => {
                return Err(
                    DeserializeError {
                        context: DeserializeContext::Endorsement(DenunciationField::Index),
                        cause,
                    },
                );
            },
        };
        let (rest, evidence) = match read_evidence(rest) {
            Ok(read) => read,
            Err((field, cause)) => {
                return Err(
                    DeserializeError { context: DeserializeContext::Endorsement(field), cause },
                );
            },
        };
        Ok(
            (
                rest,
                EndorsementDenunciation {
                    public_key,
                    slot,
                    index,
                    hash_1: evidence.hash_1,
                    hash_2: evidence.hash_2,
                    signature_1: evidence.signature_1,
                    signature_2: evidence.signature_2,
                },
            ),
        )
    }
}

/// Reads a block header denunciation.
#[derive(Clone, Copy, Debug)]
pub struct BlockHeaderDenunciationDeserializer {
    /// The decoder of the slot.
    pub slot_deserializer: SlotDeserializer,
    /// The decoder of the author's key.
    pub pubkey_deserializer: PublicKeyDeserializer,
}

impl BlockHeaderDenunciationDeserializer {
    /// Whether the decoder accepts the threads below `thread_count`, and
    /// every period.
    pub open spec fn configured(&self, thread_count: u8) -> bool {
        &&& self.slot_deserializer.period_deserializer.min == 0
        &&& self.slot_deserializer.period_deserializer.max == UpperBound::Included(u64::MAX)
        &&& self.slot_deserializer.thread_min == 0
        &&& self.slot_deserializer.thread_max == UpperBound::Excluded(thread_count as u64)
    }

    /// A decoder for `thread_count` threads.
    pub fn new(thread_count: u8) -> (decoder: BlockHeaderDenunciationDeserializer)
        ensures
            decoder.configured(thread_count),
    {
        BlockHeaderDenunciationDeserializer {
            slot_deserializer: SlotDeserializer::new(
                0,
                UpperBound::Included(u64::MAX),
                0,
                UpperBound::Excluded(thread_count as u64),
            ),
            pubkey_deserializer: PublicKeyDeserializer::new(),
        }
    }

    /// What the decoder reads at the start of `bytes`: the denunciation and
    /// the bytes that follow it, or the first field at which reading
    /// stops, and why.
    pub open spec fn spec_deserialize(&self, bytes: Seq<u8>) -> Result<
        (BlockHeaderDenunciation, Seq<u8>),
        DeserializeError,
    > {
        let after_key = bytes.skip(PUBLIC_KEY_SIZE_BYTES as int);
        match self.pubkey_deserializer.spec_deserialize(bytes) {
            Err(cause) => Err(
                DeserializeError {
                    context: DeserializeContext::BlockHeader(DenunciationField::PublicKey),
                    cause,
                },
            ),
            Ok(public_key) => match self.slot_deserializer.spec_deserialize(after_key) {
                Err(cause) => Err(
                    DeserializeError {
                        context: DeserializeContext::BlockHeader(DenunciationField::Slot),
                        cause,
                    },
                ),
                Ok((slot, slot_len)) => match spec_evidence(after_key.skip(slot_len as int)) {
                    Err((field, cause)) => Err(
                        DeserializeError { context: DeserializeContext::BlockHeader(field), cause },
                    ),
                    Ok((evidence, rest)) => Ok(
                        (
                            BlockHeaderDenunciation {
                                public_key,
                                slot,
                                hash_1: evidence.hash_1,
                                hash_2: evidence.hash_2,
                                signature_1: evidence.signature_1,
                                signature_2: evidence.signature_2,
                            },
                            rest,
                        ),
                    ),
                },
            },
        }
    }

    /// Reads one denunciation from the start of `buffer`, and returns it
    /// with the bytes that follow it. Nothing is returned of a
    /// denunciation that is not whole.
    pub fn deserialize<'a>(&self, buffer: &'a [u8]) -> (outcome: Result<
        (&'a [u8], BlockHeaderDenunciation),
        DeserializeError,
    >)
        ensures
            match self.spec_deserialize(buffer@) {
                Ok((value, rest)) => outcome is Ok && outcome->Ok_0.1 == value
                    && outcome->Ok_0.0@ == rest,
                Err(e) => outcome is Err && outcome->Err_0 == e,
            },
    {
        let (rest, public_key) = match self.pubkey_deserializer.deserialize(buffer) {
            Ok(read) => read,
            Err(cause) => {
                return Err(
                    DeserializeError {
                        context: DeserializeContext::BlockHeader(DenunciationField::PublicKey),
                        cause,
                    },
                );
            },
        };
        let (rest, slot) = match self.slot_deserializer.deserialize(rest) {
            Ok(read) => read,
            Err(cause) => {
                return Err(
                    DeserializeError {
                        context: DeserializeContext::BlockHeader(DenunciationField::Slot),
                        cause,
                    },
                );
            },
        };
        let (rest, evidence) = match read_evidence(rest) {
            Ok(read) => read,
            Err((field, cause)) => {
                return Err(
                    DeserializeError { context: DeserializeContext::BlockHeader(field), cause },
                );
            },
        };
        Ok(
            (
                rest,
                BlockHeaderDenunciation {
                    public_key,
                    slot,
                    hash_1: evidence.hash_1,
                    hash_2: evidence.hash_2,
                    signature_1: evidence.signature_1,
                    signature_2: evidence.signature_2,
                },
            ),
        )
    }
}

/// Reads a denunciation of either kind.
#[derive(Clone, Copy, Debug)]
pub struct DenunciationDeserializer {
    /// The decoder of endorsement denunciations.
    pub endo_de_deserializer: EndorsementDenunciationDeserializer,
    /// The decoder of block header denunciations.
    pub blkh_de_deserializer: BlockHeaderDenunciationDeserializer,
    /// The decoder of the number of the kind.
    pub type_id_deserializer: U32VarIntDeserializer,
}

impl DenunciationDeserializer {
    /// Whether the decoder accepts the numbers of the two kinds, the
    /// threads below `thread_count` and the indexes below
    /// `endorsement_count`.
    pub open spec fn configured(&self, thread_count: u8, endorsement_count: u32) -> bool {
        &&& self.endo_de_deserializer.configured(thread_count, endorsement_count)
        &&& self.blkh_de_deserializer.configured(thread_count)
        &&& self.type_id_deserializer.min == 0
        &&& self.type_id_deserializer.max == UpperBound::Excluded(
            DENUNCIATION_TYPE_ID_VARIANT_COUNT as u64,
        )
    }

    /// A decoder for `thread_count` threads and `endorsement_count`
    /// endorsements per block.
    pub fn new(thread_count: u8, endorsement_count: u32) -> (decoder: DenunciationDeserializer)
        ensures
            decoder.configured(thread_count, endorsement_count),
    {
        DenunciationDeserializer {
            endo_de_deserializer: EndorsementDenunciationDeserializer::new(
                thread_count,
                endorsement_count,
            ),
            blkh_de_deserializer: BlockHeaderDenunciationDeserializer::new(thread_count),
            type_id_deserializer: U32VarIntDeserializer::new(
                0,
                UpperBound::Excluded(DENUNCIATION_TYPE_ID_VARIANT_COUNT as u64),
            ),
        }
    }

    /// What the decoder reads at the start of `bytes`: the denunciation and
    /// the bytes that follow it, or where reading stops, and why. A number
    /// that the bounds let through and that names no kind is out of
    /// bounds all the same.
    pub open spec fn spec_deserialize(&self, bytes: Seq<u8>) -> Result<
        (Denunciation, Seq<u8>),
        DeserializeError,
    > {
        match self.type_id_deserializer.spec_deserialize(bytes) {
            Err(cause) => Err(DeserializeError { context: DeserializeContext::TypeId, cause }),
            Ok((number, used)) => if number == 0 {
                match self.endo_de_deserializer.spec_deserialize(bytes.skip(used as int)) {
                    Ok((de, rest)) => Ok((Denunciation::Endorsement(de), rest)),
                    Err(e) => Err(e),
                }
            } else if number == 1 {
                match self.blkh_de_deserializer.spec_deserialize(bytes.skip(used as int)) {
                    Ok((de, rest)) => Ok((Denunciation::BlockHeader(de), rest)),
                    Err(e) => Err(e),
                }
            } else {
                Err(
                    DeserializeError {
                        context: DeserializeContext::TypeId,
                        cause: DeserializeCause::OutOfBounds,
                    },
                )
            },
        }
    }

    /// Reads one denunciation from the start of `buffer`, and returns it
    /// with the bytes that follow it. Nothing is returned of a
    /// denunciation that is not whole; whether bytes may follow is for the
    /// caller to say.
    pub fn deserialize<'a>(&self, buffer: &'a [u8]) -> (outcome: Result<
        (&'a [u8], Denunciation),
        DeserializeError,
    >)
        ensures
            match self.spec_deserialize(buffer@) {
                Ok((value, rest)) => outcome is Ok && outcome->Ok_0.1 == value
                    && outcome->Ok_0.0@ == rest,
                Err(e) => outcome is Err && outcome->Err_0 == e,
            },
    {
        let (rem, de_type_id_) = match self.type_id_deserializer.deserialize(buffer) {
            Ok(read) => read,
            Err(cause) => {
                return Err(DeserializeError { context: DeserializeContext::TypeId, cause });
            },
        };
        let de_type_id = match DenunciationTypeId::try_from(de_type_id_) {
            Ok(id) => id,
            Err(_) => {
                return Err(
                    DeserializeError {
                        context: DeserializeContext::TypeId,
                        cause: DeserializeCause::OutOfBounds,
                    },
                );
            },
        };
        match de_type_id {
            DenunciationTypeId::Endorsement => {
                match self.endo_de_deserializer.deserialize(rem) {
                    Ok((rem2, endo_de)) => Ok((rem2, Denunciation::Endorsement(endo_de))),
                    Err(e) => Err(e),
                }
            },
            DenunciationTypeId::BlockHeader => {
                match self.blkh_de_deserializer.deserialize(rem) {
                    Ok((rem2, blkh_de)) => Ok((rem2, Denunciation::BlockHeader(blkh_de))),
                    Err(e) => Err(e),
                }
            },
        }
    }
}

} // verus!
