//! What can go wrong while bytes are written or read.

use vstd::prelude::*;

verus! {

/// Why the bytes of one field were turned down.
#[derive(Clone, Copy, Debug, PartialEq, Eq, Structural)]
pub enum DeserializeCause {
    /// The bytes do not start with the encoding of an integer of the type.
    Malformed,
    /// The value read lies outside the bounds of the decoder.
    OutOfBounds,
    /// The bytes end before the field does.
    UnexpectedEnd,
    /// The bytes of a public key are no curve point.
    InvalidPublicKey,
}

/// Why a value could not be written.
#[derive(Clone, Copy, Debug, PartialEq, Eq, Structural)]
pub enum SerializeError {
    /// A count does not fit the integer that carries it on the wire.
    NumberTooBig,
}

/// The fields of a denunciation, in the order of the wire.
#[derive(Clone, Copy, Debug, PartialEq, Eq, Structural)]
pub enum DenunciationField {
    /// The author's public key.
    PublicKey,
    /// The slot.
    Slot,
    /// The index of an endorsement.
    Index,
    /// The first content hash.
    Hash1,
    /// The second content hash.
    Hash2,
    /// The first signature.
    Signature1,
    /// The second signature.
    Signature2,
}

impl DenunciationField {
    /// The words that name a failure at this field.
    pub open spec fn spec_message(self) -> &'static str {
        match self {
            DenunciationField::PublicKey => "Failed public key deserialization",
            DenunciationField::Slot => "Failed slot deserialization",
            DenunciationField::Index => "Failed index deserialization",
            DenunciationField::Hash1 => "Failed hash 1 deserialization",
            DenunciationField::Hash2 => "Failed hash 2 deserialization",
            DenunciationField::Signature1 => "Failed signature 1 deserialization",
            DenunciationField::Signature2 => "Failed signature 2 deserialization",
        }
    }

    /// The words that name a failure at this field.
    pub fn message(&self) -> (words: &'static str)
        ensures
            words == self.spec_message(),
    {
        match self {
            DenunciationField::PublicKey => "Failed public key deserialization",
            DenunciationField::Slot => "Failed slot deserialization",
            DenunciationField::Index => "Failed index deserialization",
            DenunciationField::Hash1 => "Failed hash 1 deserialization",
            DenunciationField::Hash2 => "Failed hash 2 deserialization",
            DenunciationField::Signature1 => "Failed signature 1 deserialization",
            DenunciationField::Signature2 => "Failed signature 2 deserialization",
        }
    }
}

/// Where in a denunciation the bytes were turned down.
#[derive(Clone, Copy, Debug, PartialEq, Eq, Structural)]
pub enum DeserializeContext {
    /// At the number that tells the kind of denunciation.
    TypeId,
    /// At a field of an endorsement denunciation.
    Endorsement(DenunciationField),
    /// At a field of a block header denunciation.
    BlockHeader(DenunciationField),
}

/// Why bytes are no denunciation: where reading stopped, and for what
/// cause.
#[derive(Clone, Copy, Debug, PartialEq, Eq, Structural)]
pub struct DeserializeError {
    /// Where reading stopped.
    pub context: DeserializeContext,
    /// Why it stopped.
    pub cause: DeserializeCause,
}

impl DeserializeError {
    /// The words that name the failure, from the outermost context
    /// inwards.
    pub open spec fn spec_messages(self) -> Seq<&'static str> {
        match self.context {
            DeserializeContext::TypeId => seq!["Failed Denunciation type id deserialization"],
            DeserializeContext::Endorsement(field) => seq![
                "Failed Endorsement Denunciation deserialization",
                field.spec_message(),
            ],
            DeserializeContext::BlockHeader(field) => seq![
                "Failed BlockHeader Denunciation deserialization",
                field.spec_message(),
            ],
        }
    }

    /// The words that name the failure, from the outermost context
    /// inwards.
    pub fn messages(&self) -> (words: Vec<&'static str>)
        ensures
            words@ == self.spec_messages(),
    {
        let mut words: Vec<&'static str> = Vec::new();
        match self.context {
            DeserializeContext::TypeId => {
                words.push("Failed Denunciation type id deserialization");
            },
            DeserializeContext::Endorsement(field) => {
                words.push("Failed Endorsement Denunciation deserialization");
                words.push(field.message());
            },
            DeserializeContext::BlockHeader(field) => {
                words.push("Failed BlockHeader Denunciation deserialization");
                words.push(field.message());
            },
        }
        assert(words@ =~= self.spec_messages());
        words
    }
}

} // verus!
