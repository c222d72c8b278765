//! Denunciations: two signatures by one key over two contents at one
//! position, with what it takes to check them again.

use vstd::prelude::*;
use crate::block_header::{BlockHeader, BlockHeaderDenunciationData, BlockHeaderSerializer, SecuredHeader};
use crate::bytes::append_bytes;
use crate::endorsement::{
    Endorsement, EndorsementDenunciationData, EndorsementSerializer, SecureShareEndorsement,
};
use crate::error::SerializeError;
use crate::hash::digest;
use crate::signature::{verification, MassaSignatureError, PublicKey, Signature};
use crate::slot::Slot;

verus! {

/// Why a denunciation could not be made or checked.
#[derive(Clone, Copy, Debug, PartialEq, Eq, Structural)]
pub enum DenunciationError {
    /// The two pieces of evidence are one and the same, or differ in slot,
    /// index or author.
    InvalidInput,
    /// A signature of the evidence does not verify.
    Signature(MassaSignatureError),
    /// The content of the evidence could not be written.
    Serialization(SerializeError),
}

/// Two endorsements by one key for one slot and index.
#[derive(Clone, Copy, Debug)]
pub struct EndorsementDenunciation {
    /// The author of both endorsements.
    pub public_key: PublicKey,
    /// The slot of both.
    pub slot: Slot,
    /// The index of both.
    pub index: u32,
    /// The content hash of the first.
    pub hash_1: crate::hash::Hash,
    /// The content hash of the second.
    pub hash_2: crate::hash::Hash,
    /// The signature of the first.
    pub signature_1: Signature,
    /// The signature of the second.
    pub signature_2: Signature,
}

impl EndorsementDenunciation {
    /// The content hash of an endorsement: the digest of its canonical
    /// bytes.
    pub open spec fn content_hash(content: Endorsement) -> Seq<u8> {
        digest(content.bytes())@
    }

    /// What the author of an endorsement signs: key, position and content
    /// hash, one after the other.
    pub open spec fn signing_preimage(
        public_key: Seq<u8>,
        slot: Slot,
        index: u32,
        content_hash: Seq<u8>,
    ) -> Seq<u8> {
        public_key + (EndorsementDenunciationData { slot, index }).bytes() + content_hash
    }

    /// The digest that the signature of an endorsement is checked against.
    pub open spec fn signing_digest(
        public_key: Seq<u8>,
        slot: Slot,
        index: u32,
        content_hash: Seq<u8>,
    ) -> Seq<u8> {
        digest(Self::signing_preimage(public_key, slot, index, content_hash))@
    }

    /// Whether the two hashes differ, the two signatures differ, and each
    /// signature verifies for its hash at the denunciation's position.
    pub open spec fn valid(self) -> bool {
        &&& self.hash_1@ != self.hash_2@
        &&& self.signature_1@ != self.signature_2@
        &&& verification(
            self.public_key@,
            Self::signing_digest(self.public_key@, self.slot, self.index, self.hash_1@),
            self.signature_1@,
        ) is Ok
        &&& verification(
            self.public_key@,
            Self::signing_digest(self.public_key@, self.slot, self.index, self.hash_2@),
            self.signature_2@,
        ) is Ok
    }

    /// Whether `evidence` is one more endorsement by the same key at the
    /// same position, with a content other than the two already held and a
    /// signature that verifies.
    pub open spec fn covers(self, evidence: SecureShareEndorsement) -> bool {
        &&& self.slot == evidence.content.slot
        &&& self.index == evidence.content.index
        &&& self.public_key@ == evidence.content_creator_pub_key@
        &&& self.hash_1@ != Self::content_hash(evidence.content)
        &&& self.hash_2@ != Self::content_hash(evidence.content)
        &&& verification(
            self.public_key@,
            Self::signing_digest(
                self.public_key@,
                self.slot,
                self.index,
                Self::content_hash(evidence.content),
            ),
            evidence.signature@,
        ) is Ok
    }

    /// The content hash of `content`.
    pub fn compute_content_hash(content: &Endorsement) -> (outcome: Result<
        crate::hash::Hash,
        SerializeError,
    >)
        ensures
            outcome is Ok,
            outcome->Ok_0@ == Self::content_hash(*content),
            outcome->Ok_0 == crate::hash::Hash::of(Self::content_hash(*content)),
    {
        let mut buf: Vec<u8> = Vec::new();
        match EndorsementSerializer::new().serialize(content, &mut buf) {
            Ok(_) => {
                assert(buf@ =~= content.bytes());
                Ok(crate::hash::Hash::compute_from(buf.as_slice()))
            },
            Err(e) => Err(e),
        }
    }

    /// The digest that a signature over `content_hash` by `public_key` at
    /// `slot` and `index` is checked against.
    pub fn compute_hash_for_sig_verif(
        public_key: &PublicKey,
        slot: &Slot,
        index: &u32,
        content_hash: &crate::hash::Hash,
    ) -> (outcome: Result<crate::hash::Hash, SerializeError>)
        ensures
            outcome is Ok,
            outcome->Ok_0@ == Self::signing_digest(public_key@, *slot, *index, content_hash@),
    {
        let mut hash_data: Vec<u8> = Vec::new();
        append_bytes(&mut hash_data, public_key.to_bytes().as_slice());
        let denunciation_data = EndorsementDenunciationData::new(*slot, *index);
        append_bytes(&mut hash_data, denunciation_data.to_bytes().as_slice());
        append_bytes(&mut hash_data, content_hash.to_bytes().as_slice());
        assert(hash_data@ =~= Self::signing_preimage(public_key@, *slot, *index, content_hash@));
        Ok(crate::hash::Hash::compute_from(hash_data.as_slice()))
    }
}

/// Two block headers by one key for one slot.
#[derive(Clone, Copy, Debug)]
pub struct BlockHeaderDenunciation {
    /// The author of both headers.
    pub public_key: PublicKey,
    /// The slot of both.
    pub slot: Slot,
    /// The content hash of the first.
    pub hash_1: crate::hash::Hash,
    /// The content hash of the second.
    pub hash_2: crate::hash::Hash,
    /// The signature of the first.
    pub signature_1: Signature,
    /// The signature of the second.
    pub signature_2: Signature,
}

impl BlockHeaderDenunciation {
    /// The content hash of a header: the digest of its canonical bytes.
    pub open spec fn content_hash(content: BlockHeader) -> Seq<u8> {
        digest(content.bytes())@
    }

    /// What the author of a header signs: key, slot and content hash, one
    /// after the other.
    pub open spec fn signing_preimage(public_key: Seq<u8>, slot: Slot, content_hash: Seq<u8>) -> Seq<
        u8,
    > {
        public_key + (BlockHeaderDenunciationData { slot }).bytes() + content_hash
    }

    /// The digest that the signature of a header is checked against.
    pub open spec fn signing_digest(public_key: Seq<u8>, slot: Slot, content_hash: Seq<u8>) -> Seq<
        u8,
    > {
        digest(Self::signing_preimage(public_key, slot, content_hash))@
    }

    /// Whether the two hashes differ, the two signatures differ, and each
    /// signature verifies for its hash at the denunciation's slot.
    pub open spec fn valid(self) -> bool {
        &&& self.hash_1@ != self.hash_2@
        &&& self.signature_1@ != self.signature_2@
        &&& verification(
            self.public_key@,
            Self::signing_digest(self.public_key@, self.slot, self.hash_1@),
            self.signature_1@,
        ) is Ok
        &&& verification(
            self.public_key@,
            Self::signing_digest(self.public_key@, self.slot, self.hash_2@),
            self.signature_2@,
        ) is Ok
    }

    /// Whether `evidence` is one more header by the same key at the same
    /// slot, with a content other than the two already held and a signature
    /// that verifies.
    pub open spec fn covers(self, evidence: SecuredHeader) -> bool {
        &&& self.slot == evidence.content.slot
        &&& self.public_key@ == evidence.content_creator_pub_key@
        &&& self.hash_1@ != Self::content_hash(evidence.content)
        &&& self.hash_2@ != Self::content_hash(evidence.content)
        &&& verification(
            self.public_key@,
            Self::signing_digest(
                self.public_key@,
                self.slot,
                Self::content_hash(evidence.content),
            ),
            evidence.signature@,
        ) is Ok
    }

    /// The content hash of `content`, where the header can be written.
    pub fn compute_content_hash(content: &BlockHeader) -> (outcome: Result<
        crate::hash::Hash,
        SerializeError,
    >)
        ensures
            match outcome {
                Ok(hash) => content.serializable() && hash@ == Self::content_hash(*content)
                    && hash == crate::hash::Hash::of(Self::content_hash(*content)),
                Err(e) => !content.serializable() && e == SerializeError::NumberTooBig,
            },
    {
        let mut buf: Vec<u8> = Vec::new();
        match BlockHeaderSerializer::new().serialize(content, &mut buf) {
            Ok(_) => {
                assert(buf@ =~= content.bytes());
                Ok(crate::hash::Hash::compute_from(buf.as_slice()))
            },
            Err(e) => Err(e),
        }
    }

    /// The digest that a signature over `content_hash` by `public_key` at
    /// `slot` is checked against.
    pub fn compute_hash_for_sig_verif(
        public_key: &PublicKey,
        slot: &Slot,
        content_hash: &crate::hash::Hash,
    ) -> (outcome: Result<crate::hash::Hash, SerializeError>)
        ensures
            outcome is Ok,
            outcome->Ok_0@ == Self::signing_digest(public_key@, *slot, content_hash@),
    {
        let mut hash_data: Vec<u8> = Vec::new();
        append_bytes(&mut hash_data, public_key.to_bytes().as_slice());
        let de_data = BlockHeaderDenunciationData::new(*slot);
        append_bytes(&mut hash_data, de_data.to_bytes().as_slice());
        append_bytes(&mut hash_data, content_hash.to_bytes().as_slice());
        assert(hash_data@ =~= Self::signing_preimage(public_key@, *slot, content_hash@));
        Ok(crate::hash::Hash::compute_from(hash_data.as_slice()))
    }
}

impl PartialEq for EndorsementDenunciation {
    fn eq(&self, other: &EndorsementDenunciation) -> (same: bool) {
        proof {
            self.public_key.lemma_view(other.public_key);
            self.hash_1.lemma_view(other.hash_1);
            self.hash_2.lemma_view(other.hash_2);
            self.signature_1.lemma_view(other.signature_1);
            self.signature_2.lemma_view(other.signature_2);
        }
        self.public_key == other.public_key && self.slot == other.slot && self.index == other.index
            && self.hash_1 == other.hash_1 && self.hash_2 == other.hash_2 && self.signature_1
            == other.signature_1 && self.signature_2 == other.signature_2
    }
}

impl vstd::std_specs::cmp::PartialEqSpecImpl for EndorsementDenunciation {
    open spec fn obeys_eq_spec() -> bool {
        true
    }

    open spec fn eq_spec(&self, other: &EndorsementDenunciation) -> bool {
        *self == *other
    }
}

impl Eq for EndorsementDenunciation {}

impl PartialEq for BlockHeaderDenunciation {
    fn eq(&self, other: &BlockHeaderDenunciation) -> (same: bool) {
        proof {
            self.public_key.lemma_view(other.public_key);
            self.hash_1.lemma_view(other.hash_1);
            self.hash_2.lemma_view(other.hash_2);
            self.signature_1.lemma_view(other.signature_1);
            self.signature_2.lemma_view(other.signature_2);
        }
        self.public_key == other.public_key && self.slot == other.slot && self.hash_1
            == other.hash_1 && self.hash_2 == other.hash_2 && self.signature_1 == other.signature_1
            && self.signature_2 == other.signature_2
    }
}

impl vstd::std_specs::cmp::PartialEqSpecImpl for BlockHeaderDenunciation {
    open spec fn obeys_eq_spec() -> bool {
        true
    }

    open spec fn eq_spec(&self, other: &BlockHeaderDenunciation) -> bool {
        *self == *other
    }
}

impl Eq for BlockHeaderDenunciation {}

/// A proof that one key signed two conflicting endorsements, or two
/// conflicting block headers.
#[derive(Clone, Copy, Debug)]
pub enum Denunciation {
    /// Two endorsements.
    Endorsement(EndorsementDenunciation),
    /// Two block headers.
    BlockHeader(BlockHeaderDenunciation),
}

impl PartialEq for Denunciation {
    fn eq(&self, other: &Denunciation) -> (same: bool) {
        match (self, other) {
            (Denunciation::Endorsement(a), Denunciation::Endorsement(b)) => a == b,
            (Denunciation::BlockHeader(a), Denunciation::BlockHeader(b)) => a == b,
            _ => false,
        }
    }
}

impl vstd::std_specs::cmp::PartialEqSpecImpl for Denunciation {
    open spec fn obeys_eq_spec() -> bool {
        true
    }

    open spec fn eq_spec(&self, other: &Denunciation) -> bool {
        *self == *other
    }
}

impl Eq for Denunciation {}

impl Denunciation {
    /// The key that is denounced.
    pub open spec fn public_key(self) -> PublicKey {
        match self {
            Denunciation::Endorsement(de) => de.public_key,
            Denunciation::BlockHeader(de) => de.public_key,
        }
    }

    /// The first content hash.
    pub open spec fn hash_1(self) -> crate::hash::Hash {
        match self {
            Denunciation::Endorsement(de) => de.hash_1,
            Denunciation::BlockHeader(de) => de.hash_1,
        }
    }

    /// The second content hash.
    pub open spec fn hash_2(self) -> crate::hash::Hash {
        match self {
            Denunciation::Endorsement(de) => de.hash_2,
            Denunciation::BlockHeader(de) => de.hash_2,
        }
    }

    /// The first signature.
    pub open spec fn signature_1(self) -> Signature {
        match self {
            Denunciation::Endorsement(de) => de.signature_1,
            Denunciation::BlockHeader(de) => de.signature_1,
        }
    }

    /// The second signature.
    pub open spec fn signature_2(self) -> Signature {
        match self {
            Denunciation::Endorsement(de) => de.signature_2,
            Denunciation::BlockHeader(de) => de.signature_2,
        }
    }

    /// The digest that the signature over the content hash `content_hash`
    /// is checked against, at the position of this denunciation.
    pub open spec fn signing_digest(self, content_hash: Seq<u8>) -> Seq<u8> {
        match self {
            Denunciation::Endorsement(de) => EndorsementDenunciation::signing_digest(
                de.public_key@,
                de.slot,
                de.index,
                content_hash,
            ),
            Denunciation::BlockHeader(de) => BlockHeaderDenunciation::signing_digest(
                de.public_key@,
                de.slot,
                content_hash,
            ),
        }
    }

    /// Whether the denunciation proves what it claims: two distinct hashes,
    /// two distinct signatures, each signature verifying for its hash at
    /// the denunciation's position.
    pub open spec fn valid(self) -> bool {
        match self {
            Denunciation::Endorsement(de) => de.valid(),
            Denunciation::BlockHeader(de) => de.valid(),
        }
    }

    /// The verdict on a denunciation whose two signature checks came out as
    /// `check_1` and `check_2`.
    pub open spec fn verdict(
        self,
        check_1: Result<(), MassaSignatureError>,
        check_2: Result<(), MassaSignatureError>,
    ) -> bool {
        &&& self.hash_1()@ != self.hash_2()@
        &&& self.signature_1()@ != self.signature_2()@
        &&& check_1 is Ok
        &&& check_2 is Ok
    }

    /// Whether this denounces two endorsements.
    pub fn is_for_endorsement(&self) -> (yes: bool)
        ensures
            yes == (self is Endorsement),
    {
        matches!(self, Denunciation::Endorsement(_))
    }

    /// Whether this denounces two block headers.
    pub fn is_for_block_header(&self) -> (yes: bool)
        ensures
            yes == (self is BlockHeader),
    {
        matches!(self, Denunciation::BlockHeader(_))
    }

    /// The verdict on this denunciation, given the outcomes of the checks
    /// of its two signatures: it holds where the two hashes differ, the two
    /// signatures differ and both checks passed.
    pub fn judge(
        &self,
        check_1: &Result<(), MassaSignatureError>,
        check_2: &Result<(), MassaSignatureError>,
    ) -> (valid: bool)
        ensures
            valid == self.verdict(*check_1, *check_2),
    {
        let distinct = match self {
            Denunciation::Endorsement(de) => de.hash_1 != de.hash_2 && de.signature_1
                != de.signature_2,
            Denunciation::BlockHeader(de) => de.hash_1 != de.hash_2 && de.signature_1
                != de.signature_2,
        };
        distinct && check_1.is_ok() && check_2.is_ok()
    }

    /// Checks the denunciation, as one has to when it comes from the
    /// network: the answer is `Ok(true)` exactly when it is valid. A failed
    /// signature check makes it invalid; it is no error.
    pub fn is_valid(&self) -> (outcome: Result<bool, DenunciationError>)
        ensures
            outcome == Ok::<bool, DenunciationError>(self.valid()),
    {
        let (signature_1, signature_2, hash_1, hash_2, public_key) = match self {
            Denunciation::Endorsement(de) => {
                let hash_1 = match EndorsementDenunciation::compute_hash_for_sig_verif(
                    &de.public_key,
                    &de.slot,
                    &de.index,
                    &de.hash_1,
                ) {
                    Ok(hash) => hash,
                    Err(e) => {
                        return Err(DenunciationError::Serialization(e));
                    },
                };
                let hash_2 = match EndorsementDenunciation::compute_hash_for_sig_verif(
                    &de.public_key,
                    &de.slot,
                    &de.index,
                    &de.hash_2,
                ) {
                    Ok(hash) => hash,
                    Err(e) => {
                        return Err(DenunciationError::Serialization(e));
                    },
                };
                (de.signature_1, de.signature_2, hash_1, hash_2, de.public_key)
            },
            Denunciation::BlockHeader(de) => {
                let hash_1 = match BlockHeaderDenunciation::compute_hash_for_sig_verif(
                    &de.public_key,
                    &de.slot,
                    &de.hash_1,
                ) {
                    Ok(hash) => hash,
                    Err(e) => {
                        return Err(DenunciationError::Serialization(e));
                    },
                };
                let hash_2 = match BlockHeaderDenunciation::compute_hash_for_sig_verif(
                    &de.public_key,
                    &de.slot,
                    &de.hash_2,
                ) {
                    Ok(hash) => hash,
                    Err(e) => {
                        return Err(DenunciationError::Serialization(e));
                    },
                };
                (de.signature_1, de.signature_2, hash_1, hash_2, de.public_key)
            },
        };
        let check_1 = public_key.verify_signature(&hash_1, &signature_1);
        let check_2 = public_key.verify_signature(&hash_2, &signature_2);
        Ok(self.judge(&check_1, &check_2))
    }
}

impl EndorsementDenunciation {
    /// Whether a denunciation can be made of the two: they are not one and
    /// the same, and agree in slot, index and author.
    pub open spec fn can_pair(first: SecureShareEndorsement, second: SecureShareEndorsement) -> bool {
        &&& first.id.0@ != second.id.0@
        &&& first.content.slot == second.content.slot
        &&& first.content.index == second.content.index
        &&& first.content_creator_pub_key@ == second.content_creator_pub_key@
    }

    /// Whether `evidence` is covered, given its content hash and the
    /// outcome of the check of its signature.
    pub open spec fn covers_given(
        self,
        evidence: SecureShareEndorsement,
        content_hash: Seq<u8>,
        check: Result<(), MassaSignatureError>,
    ) -> bool {
        &&& self.slot == evidence.content.slot
        &&& self.index == evidence.content.index
        &&& self.public_key@ == evidence.content_creator_pub_key@
        &&& self.hash_1@ != content_hash
        &&& self.hash_2@ != content_hash
        &&& check is Ok
    }

    /// What becomes of two endorsements that can be paired, given their
    /// content hashes and the outcomes of the checks of their signatures:
    /// the first failed check is the error; with none, the denunciation
    /// takes key and position from the first, and hash and signature from
    /// each in turn.
    pub open spec fn assembled(
        first: SecureShareEndorsement,
        second: SecureShareEndorsement,
        hash_1: crate::hash::Hash,
        hash_2: crate::hash::Hash,
        check_1: Result<(), MassaSignatureError>,
        check_2: Result<(), MassaSignatureError>,
    ) -> Result<Denunciation, DenunciationError> {
        match check_1 {
            Err(e) => Err(DenunciationError::Signature(e)),
            Ok(_) => match check_2 {
                Err(e) => Err(DenunciationError::Signature(e)),
                Ok(_) => Ok(
                    Denunciation::Endorsement(
                        EndorsementDenunciation {
                            public_key: first.content_creator_pub_key,
                            slot: first.content.slot,
                            index: first.content.index,
                            hash_1,
                            hash_2,
                            signature_1: first.signature,
                            signature_2: second.signature,
                        },
                    ),
                ),
            },
        }
    }

    /// Whether `evidence` is covered by this denunciation, given the
    /// content hash of the evidence and the outcome of the check of its
    /// signature.
    pub fn matches_evidence(
        &self,
        evidence: &SecureShareEndorsement,
        content_hash: &crate::hash::Hash,
        check: &Result<(), MassaSignatureError>,
    ) -> (covered: bool)
        ensures
            covered == self.covers_given(*evidence, content_hash@, *check),
    {
        self.slot == evidence.content.slot && self.index == evidence.content.index
            && self.public_key == evidence.content_creator_pub_key && self.hash_1 != *content_hash
            && self.hash_2 != *content_hash && check.is_ok()
    }

    /// Makes the denunciation of two endorsements that can be paired, given
    /// their content hashes and the outcomes of the checks of their
    /// signatures.
    pub fn assemble(
        first: &SecureShareEndorsement,
        second: &SecureShareEndorsement,
        hash_1: crate::hash::Hash,
        hash_2: crate::hash::Hash,
        check_1: Result<(), MassaSignatureError>,
        check_2: Result<(), MassaSignatureError>,
    ) -> (outcome: Result<Denunciation, DenunciationError>)
        ensures
            outcome == Self::assembled(*first, *second, hash_1, hash_2, check_1, check_2),
    {
        if let Err(e) = check_1 {
            return Err(DenunciationError::Signature(e));
        }
        if let Err(e) = check_2 {
            return Err(DenunciationError::Signature(e));
        }
        Ok(
            Denunciation::Endorsement(
                EndorsementDenunciation {
                    public_key: first.content_creator_pub_key,
                    slot: first.content.slot,
                    index: first.content.index,
                    hash_1,
                    hash_2,
                    signature_1: first.signature,
                    signature_2: second.signature,
                },
            ),
        )
    }
}

impl BlockHeaderDenunciation {
    /// Whether a denunciation can be made of the two: they are not one and
    /// the same, and agree in slot and author.
    pub open spec fn can_pair(first: SecuredHeader, second: SecuredHeader) -> bool {
        &&& first.content.slot == second.content.slot
        &&& first.content_creator_pub_key@ == second.content_creator_pub_key@
        &&& first.id.0@ != second.id.0@
    }

    /// Whether `evidence` is covered, given its content hash and the
    /// outcome of the check of its signature.
    pub open spec fn covers_given(
        self,
        evidence: SecuredHeader,
        content_hash: Seq<u8>,
        check: Result<(), MassaSignatureError>,
    ) -> bool {
        &&& self.slot == evidence.content.slot
        &&& self.public_key@ == evidence.content_creator_pub_key@
        &&& self.hash_1@ != content_hash
        &&& self.hash_2@ != content_hash
        &&& check is Ok
    }

    /// What becomes of two headers that can be paired, given their content
    /// hashes and the outcomes of the checks of their signatures: the
    /// first failed check is the error; with none, the denunciation takes
    /// key and slot from the first, and hash and signature from each in
    /// turn.
    pub open spec fn assembled(
        first: SecuredHeader,
        second: SecuredHeader,
        hash_1: crate::hash::Hash,
        hash_2: crate::hash::Hash,
        check_1: Result<(), MassaSignatureError>,
        check_2: Result<(), MassaSignatureError>,
    ) -> Result<Denunciation, DenunciationError> {
        match check_1 {
            Err(e) => Err(DenunciationError::Signature(e)),
            Ok(_) => match check_2 {
                Err(e) => Err(DenunciationError::Signature(e)),
                Ok(_) => Ok(
                    Denunciation::BlockHeader(
                        BlockHeaderDenunciation {
                            public_key: first.content_creator_pub_key,
                            slot: first.content.slot,
                            hash_1,
                            hash_2,
                            signature_1: first.signature,
                            signature_2: second.signature,
                        },
                    ),
                ),
            },
        }
    }

    /// Whether `evidence` is covered by this denunciation, given the
    /// content hash of the evidence and the outcome of the check of its
    /// signature.
    pub fn matches_evidence(
        &self,
        evidence: &SecuredHeader,
        content_hash: &crate::hash::Hash,
        check: &Result<(), MassaSignatureError>,
    ) -> (covered: bool)
        ensures
            covered == self.covers_given(*evidence, content_hash@, *check),
    {
        self.slot == evidence.content.slot && self.public_key == evidence.content_creator_pub_key
            && self.hash_1 != *content_hash && self.hash_2 != *content_hash && check.is_ok()
    }

    /// Makes the denunciation of two headers that can be paired, given
    /// their content hashes and the outcomes of the checks of their
    /// signatures.
    pub fn assemble(
        first: &SecuredHeader,
        second: &SecuredHeader,
        hash_1: crate::hash::Hash,
        hash_2: crate::hash::Hash,
        check_1: Result<(), MassaSignatureError>,
        check_2: Result<(), MassaSignatureError>,
    ) -> (outcome: Result<Denunciation, DenunciationError>)
        ensures
            outcome == Self::assembled(*first, *second, hash_1, hash_2, check_1, check_2),
    {
        if let Err(e) = check_1 {
            return Err(DenunciationError::Signature(e));
        }
        if let Err(e) = check_2 {
            return Err(DenunciationError::Signature(e));
        }
        Ok(
            Denunciation::BlockHeader(
                BlockHeaderDenunciation {
                    public_key: first.content_creator_pub_key,
                    slot: first.content.slot,
                    hash_1,
                    hash_2,
                    signature_1: first.signature,
                    signature_2: second.signature,
                },
            ),
        )
    }
}

impl Denunciation {
    /// What `is_also_for_endorsement` answers for `evidence`.
    pub open spec fn covers_endorsement(self, evidence: SecureShareEndorsement) -> bool {
        match self {
            Denunciation::BlockHeader(_) => false,
            Denunciation::Endorsement(de) => de.covers(evidence),
        }
    }

    /// What `is_also_for_block_header` answers for `evidence`.
    pub open spec fn covers_block_header(self, evidence: SecuredHeader) -> Result<
        bool,
        DenunciationError,
    > {
        match self {
            Denunciation::Endorsement(_) => Ok(false),
            Denunciation::BlockHeader(de) => if evidence.content.serializable() {
                Ok(de.covers(evidence))
            } else {
                Err(DenunciationError::Serialization(SerializeError::NumberTooBig))
            },
        }
    }

    /// Whether `s_endorsement` is one more endorsement that this
    /// denunciation already accounts for: by the same key at the same slot
    /// and index, with a content other than the two held, and validly
    /// signed.
    pub fn is_also_for_endorsement(&self, s_endorsement: &SecureShareEndorsement) -> (outcome:
        Result<bool, DenunciationError>)
        ensures
            outcome == Ok::<bool, DenunciationError>(self.covers_endorsement(*s_endorsement)),
    {
        match self {
            Denunciation::BlockHeader(_) => Ok(false),
            Denunciation::Endorsement(endo_de) => {
                let content_hash = match EndorsementDenunciation::compute_content_hash(
                    &s_endorsement.content,
                ) {
                    Ok(hash) => hash,
                    Err(e) => {
                        return Err(DenunciationError::Serialization(e));
                    },
                };
                let hash_ = EndorsementDenunciation::compute_hash_for_sig_verif(
                    &endo_de.public_key,
                    &endo_de.slot,
                    &endo_de.index,
                    &content_hash,
                );
                if let Ok(hash) = hash_ {
                    let check = endo_de.public_key.verify_signature(&hash, &s_endorsement.signature);
                    Ok(endo_de.matches_evidence(s_endorsement, &content_hash, &check))
                } else {
                    Ok(false)
                }
            },
        }
    }

    /// Whether `s_block_header` is one more header that this denunciation
    /// already accounts for: by the same key at the same slot, with a
    /// content other than the two held, and validly signed. A header that
    /// cannot be written is an error.
    pub fn is_also_for_block_header(&self, s_block_header: &SecuredHeader) -> (outcome: Result<
        bool,
        DenunciationError,
    >)
        ensures
            outcome == self.covers_block_header(*s_block_header),
    {
        match self {
            Denunciation::Endorsement(_) => Ok(false),
            Denunciation::BlockHeader(endo_bh) => {
                let content_hash = match BlockHeaderDenunciation::compute_content_hash(
                    &s_block_header.content,
                ) {
                    Ok(hash) => hash,
                    Err(e) => {
                        return Err(DenunciationError::Serialization(e));
                    },
                };
                let hash_ = BlockHeaderDenunciation::compute_hash_for_sig_verif(
                    &endo_bh.public_key,
                    &endo_bh.slot,
                    &content_hash,
                );
                if let Ok(hash) = hash_ {
                    let check = endo_bh.public_key.verify_signature(
                        &hash,
                        &s_block_header.signature,
                    );
                    Ok(endo_bh.matches_evidence(s_block_header, &content_hash, &check))
                } else {
                    Ok(false)
                }
            },
        }
    }

    /// The denunciation that two signed endorsements give, or why they
    /// give none.
    pub open spec fn from_endorsements(
        first: SecureShareEndorsement,
        second: SecureShareEndorsement,
    ) -> Result<Denunciation, DenunciationError> {
        if !EndorsementDenunciation::can_pair(first, second) {
            Err(DenunciationError::InvalidInput)
        } else {
            let content_1 = EndorsementDenunciation::content_hash(first.content);
            let content_2 = EndorsementDenunciation::content_hash(second.content);
            let key = first.content_creator_pub_key@;
            EndorsementDenunciation::assembled(
                first,
                second,
                crate::hash::Hash::of(content_1),
                crate::hash::Hash::of(content_2),
                verification(
                    key,
                    EndorsementDenunciation::signing_digest(
                        key,
                        first.content.slot,
                        first.content.index,
                        content_1,
                    ),
                    first.signature@,
                ),
                verification(
                    key,
                    EndorsementDenunciation::signing_digest(
                        key,
                        first.content.slot,
                        first.content.index,
                        content_2,
                    ),
                    second.signature@,
                ),
            )
        }
    }

    /// The denunciation that two signed block headers give, or why they
    /// give none.
    pub open spec fn from_block_headers(first: SecuredHeader, second: SecuredHeader) -> Result<
        Denunciation,
        DenunciationError,
    > {
        if !BlockHeaderDenunciation::can_pair(first, second) {
            Err(DenunciationError::InvalidInput)
        } else if !first.content.serializable() || !second.content.serializable() {
            Err(DenunciationError::Serialization(SerializeError::NumberTooBig))
        } else {
            let content_1 = BlockHeaderDenunciation::content_hash(first.content);
            let content_2 = BlockHeaderDenunciation::content_hash(second.content);
            let key = first.content_creator_pub_key@;
            BlockHeaderDenunciation::assembled(
                first,
                second,
                crate::hash::Hash::of(content_1),
                crate::hash::Hash::of(content_2),
                verification(
                    key,
                    BlockHeaderDenunciation::signing_digest(key, first.content.slot, content_1),
                    first.signature@,
                ),
                verification(
                    key,
                    BlockHeaderDenunciation::signing_digest(key, first.content.slot, content_2),
                    second.signature@,
                ),
            )
        }
    }
}

/// A denunciation from two signed endorsements.
impl<'a> TryFrom<(&'a SecureShareEndorsement, &'a SecureShareEndorsement)> for Denunciation {
    type Error = DenunciationError;

    fn try_from(pair: (&'a SecureShareEndorsement, &'a SecureShareEndorsement)) -> (outcome: Result<
        Denunciation,
        DenunciationError,
    >) {
        let (s_e1, s_e2) = pair;
        // the same endorsement twice is no evidence
        if s_e1.id == s_e2.id {
            return Err(DenunciationError::InvalidInput);
        }
        // slot, index and author have to agree
        if s_e1.content.slot != s_e2.content.slot || s_e1.content.index != s_e2.content.index
            || s_e1.content_creator_pub_key != s_e2.content_creator_pub_key {
            return Err(DenunciationError::InvalidInput);
        }
        let s_e1_hash_content = match EndorsementDenunciation::compute_content_hash(&s_e1.content) {
            Ok(hash) => hash,
            Err(e) => {
                return Err(DenunciationError::Serialization(e));
            },
        };
        let s_e1_hash = match EndorsementDenunciation::compute_hash_for_sig_verif(
            &s_e1.content_creator_pub_key,
            &s_e1.content.slot,
            &s_e1.content.index,
            &s_e1_hash_content,
        ) {
            Ok(hash) => hash,
            Err(e) => {
                return Err(DenunciationError::Serialization(e));
            },
        };
        // the second is checked at the position and under the key of the first
        let s_e2_hash_content = match EndorsementDenunciation::compute_content_hash(&s_e2.content) {
            Ok(hash) => hash,
            Err(e) => {
                return Err(DenunciationError::Serialization(e));
            },
        };
        let s_e2_hash = match EndorsementDenunciation::compute_hash_for_sig_verif(
            &s_e1.content_creator_pub_key,
            &s_e1.content.slot,
            &s_e1.content.index,
            &s_e2_hash_content,
        ) {
            Ok(hash) => hash,
            Err(e) => {
                return Err(DenunciationError::Serialization(e));
            },
        };
        let check_1 = s_e1.content_creator_pub_key.verify_signature(&s_e1_hash, &s_e1.signature);
        let check_2 = s_e1.content_creator_pub_key.verify_signature(&s_e2_hash, &s_e2.signature);
        EndorsementDenunciation::assemble(
            s_e1,
            s_e2,
            s_e1_hash_content,
            s_e2_hash_content,
            check_1,
            check_2,
        )
    }
}

impl<'a> vstd::std_specs::convert::TryFromSpecImpl<(&'a SecureShareEndorsement, &'a SecureShareEndorsement)> for Denunciation {
    open spec fn obeys_try_from_spec() -> bool {
        true
    }

    open spec fn try_from_spec(pair: (&'a SecureShareEndorsement, &'a SecureShareEndorsement)) -> Result<
        Denunciation,
        DenunciationError,
    > {
        Denunciation::from_endorsements(*pair.0, *pair.1)
    }
}

/// A denunciation from two signed block headers.
impl<'a> TryFrom<(&'a SecuredHeader, &'a SecuredHeader)> for Denunciation {
    type Error = DenunciationError;

    fn try_from(pair: (&'a SecuredHeader, &'a SecuredHeader)) -> (outcome: Result<
        Denunciation,
        DenunciationError,
    >) {
        let (s_bh1, s_bh2) = pair;
        // slot and author have to agree, and the same header twice is no evidence
        if s_bh1.content.slot != s_bh2.content.slot || s_bh1.content_creator_pub_key
            != s_bh2.content_creator_pub_key || s_bh1.id == s_bh2.id {
            return Err(DenunciationError::InvalidInput);
        }
        let s_bh1_hash_content = match BlockHeaderDenunciation::compute_content_hash(
            &s_bh1.content,
        ) {
            Ok(hash) => hash,
            Err(e) => {
                return Err(DenunciationError::Serialization(e));
            },
        };
        let s_bh1_hash = match BlockHeaderDenunciation::compute_hash_for_sig_verif(
            &s_bh1.content_creator_pub_key,
            &s_bh1.content.slot,
            &s_bh1_hash_content,
        ) {
            Ok(hash) => hash,
            Err(e) => {
                return Err(DenunciationError::Serialization(e));
            },
        };
        // the second is checked at the slot and under the key of the first
        let s_bh2_hash_content = match BlockHeaderDenunciation::compute_content_hash(
            &s_bh2.content,
        ) {
            Ok(hash) => hash,
            Err(e) => {
                return Err(DenunciationError::Serialization(e));
            },
        };
        let s_bh2_hash = match BlockHeaderDenunciation::compute_hash_for_sig_verif(
            &s_bh1.content_creator_pub_key,
            &s_bh1.content.slot,
            &s_bh2_hash_content,
        ) {
            Ok(hash) => hash,
            Err(e) => {
                return Err(DenunciationError::Serialization(e));
            },
        };
        let check_1 = s_bh1.content_creator_pub_key.verify_signature(&s_bh1_hash, &s_bh1.signature);
        let check_2 = s_bh1.content_creator_pub_key.verify_signature(&s_bh2_hash, &s_bh2.signature);
        BlockHeaderDenunciation::assemble(
            s_bh1,
            s_bh2,
            s_bh1_hash_content,
            s_bh2_hash_content,
            check_1,
            check_2,
        )
    }
}

impl<'a> vstd::std_specs::convert::TryFromSpecImpl<(&'a SecuredHeader, &'a SecuredHeader)> for Denunciation {
    open spec fn obeys_try_from_spec() -> bool {
        true
    }

    open spec fn try_from_spec(pair: (&'a SecuredHeader, &'a SecuredHeader)) -> Result<
        Denunciation,
        DenunciationError,
    > {
        Denunciation::from_block_headers(*pair.0, *pair.1)
    }
}

} // verus!
