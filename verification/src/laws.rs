//! What holds of denunciations in general, proved from the contracts of the
//! functions that make, check, write and read them.

use vstd::prelude::*;
use crate::block_header::SecuredHeader;
use crate::codec::{
    spec_evidence, BlockHeaderDenunciationDeserializer, DenunciationDeserializer,
    EndorsementDenunciationDeserializer, Evidence,
};
use crate::denunciation::{
    BlockHeaderDenunciation, Denunciation, DenunciationError, EndorsementDenunciation,
};
use crate::endorsement::SecureShareEndorsement;
use crate::error::{DenunciationField, DeserializeCause, DeserializeContext, DeserializeError};
use crate::hash::lemma_digest_is_hash;
use crate::signature::{is_public_key, signature_verifies, PublicKey};
use crate::slot::Slot;
use crate::varint::{lemma_bounded_round_trip, lemma_decode_encode, varint_encoding};

verus! {

/// Two endorsements that can be paired and whose signatures verify, each
/// for its own content at its own position, give a denunciation; and that
/// denunciation is valid exactly when the two content hashes differ and the
/// two signatures differ.
pub proof fn law_endorsements_give_denunciation(
    first: SecureShareEndorsement,
    second: SecureShareEndorsement,
)
    requires
        EndorsementDenunciation::can_pair(first, second),
        signature_verifies(
            first.content_creator_pub_key@,
            EndorsementDenunciation::signing_digest(
                first.content_creator_pub_key@,
                first.content.slot,
                first.content.index,
                EndorsementDenunciation::content_hash(first.content),
            ),
            first.signature@,
        ),
        signature_verifies(
            second.content_creator_pub_key@,
            EndorsementDenunciation::signing_digest(
                second.content_creator_pub_key@,
                second.content.slot,
                second.content.index,
                EndorsementDenunciation::content_hash(second.content),
            ),
            second.signature@,
        ),
    ensures
        Denunciation::from_endorsements(first, second) is Ok,
        Denunciation::from_endorsements(first, second)->Ok_0 is Endorsement,
        Denunciation::from_endorsements(first, second)->Ok_0.valid() <==> (
        EndorsementDenunciation::content_hash(first.content)
            != EndorsementDenunciation::content_hash(second.content) && first.signature@
            != second.signature@),
{
    lemma_digest_is_hash(first.content.bytes());
    lemma_digest_is_hash(second.content.bytes());
}

/// Two block headers that can be written, can be paired and whose
/// signatures verify, each for its own content at its own slot, give a
/// denunciation; and that denunciation is valid exactly when the two
/// content hashes differ and the two signatures differ.
pub proof fn law_block_headers_give_denunciation(first: SecuredHeader, second: SecuredHeader)
    requires
        first.content.serializable(),
        second.content.serializable(),
        BlockHeaderDenunciation::can_pair(first, second),
        signature_verifies(
            first.content_creator_pub_key@,
            BlockHeaderDenunciation::signing_digest(
                first.content_creator_pub_key@,
                first.content.slot,
                BlockHeaderDenunciation::content_hash(first.content),
            ),
            first.signature@,
        ),
        signature_verifies(
            second.content_creator_pub_key@,
            BlockHeaderDenunciation::signing_digest(
                second.content_creator_pub_key@,
                second.content.slot,
                BlockHeaderDenunciation::content_hash(second.content),
            ),
            second.signature@,
        ),
    ensures
        Denunciation::from_block_headers(first, second) is Ok,
        Denunciation::from_block_headers(first, second)->Ok_0 is BlockHeader,
        Denunciation::from_block_headers(first, second)->Ok_0.valid() <==> (
        BlockHeaderDenunciation::content_hash(first.content)
            != BlockHeaderDenunciation::content_hash(second.content) && first.signature@
            != second.signature@),
{
    lemma_digest_is_hash(first.content.bytes());
    lemma_digest_is_hash(second.content.bytes());
}

/// One piece of evidence paired with itself gives no denunciation.
pub proof fn law_same_evidence_is_refused(endorsement: SecureShareEndorsement, header: SecuredHeader)
    ensures
        Denunciation::from_endorsements(endorsement, endorsement) == Err::<
            Denunciation,
            DenunciationError,
        >(DenunciationError::InvalidInput),
        Denunciation::from_block_headers(header, header) == Err::<Denunciation, DenunciationError>(
            DenunciationError::InvalidInput,
        ),
{
}

/// Two endorsements that differ in slot, in index or in author give no
/// denunciation.
pub proof fn law_mismatched_endorsements_are_refused(
    first: SecureShareEndorsement,
    second: SecureShareEndorsement,
)
    requires
        first.content.slot != second.content.slot || first.content.index != second.content.index
            || first.content_creator_pub_key != second.content_creator_pub_key,
    ensures
        Denunciation::from_endorsements(first, second) == Err::<Denunciation, DenunciationError>(
            DenunciationError::InvalidInput,
        ),
{
    first.content_creator_pub_key.lemma_view(second.content_creator_pub_key);
}

/// Two block headers that differ in slot or in author give no
/// denunciation.
pub proof fn law_mismatched_block_headers_are_refused(first: SecuredHeader, second: SecuredHeader)
    requires
        first.content.slot != second.content.slot || first.content_creator_pub_key
            != second.content_creator_pub_key,
    ensures
        Denunciation::from_block_headers(first, second) == Err::<Denunciation, DenunciationError>(
            DenunciationError::InvalidInput,
        ),
{
    first.content_creator_pub_key.lemma_view(second.content_creator_pub_key);
}

/// A denunciation one of whose signatures does not verify for the digest
/// of its own key, position and hash is not valid, whatever else it holds.
pub proof fn law_forgery_is_invalid(denunciation: Denunciation)
    requires
        !signature_verifies(
            denunciation.public_key()@,
            denunciation.signing_digest(denunciation.hash_1()@),
            denunciation.signature_1()@,
        ) || !signature_verifies(
            denunciation.public_key()@,
            denunciation.signing_digest(denunciation.hash_2()@),
            denunciation.signature_2()@,
        ),
    ensures
        !denunciation.valid(),
{
}

/// A denunciation whose two hashes are the same is not valid.
pub proof fn law_equal_hashes_are_invalid(denunciation: Denunciation)
    requires
        denunciation.hash_1() == denunciation.hash_2(),
    ensures
        !denunciation.valid(),
{
}

/// Two hashes and two signatures are read back from their bytes, and what
/// follows them is left.
pub proof fn lemma_evidence_round_trip(evidence: Evidence, rest: Seq<u8>)
    ensures
        spec_evidence(
            evidence.hash_1@ + evidence.hash_2@ + evidence.signature_1@ + evidence.signature_2@
                + rest,
        ) == Ok::<(Evidence, Seq<u8>), (DenunciationField, DeserializeCause)>((evidence, rest)),
{
    let bytes = evidence.hash_1@ + evidence.hash_2@ + evidence.signature_1@ + evidence.signature_2@
        + rest;
    evidence.hash_1.lemma_view(evidence.hash_1);
    evidence.hash_2.lemma_view(evidence.hash_2);
    evidence.signature_1.lemma_view(evidence.signature_1);
    evidence.signature_2.lemma_view(evidence.signature_2);
    let after_1 = bytes.skip(32);
    let after_2 = after_1.skip(32);
    let after_3 = after_2.skip(64);
    assert(bytes.take(32) =~= evidence.hash_1@);
    assert(after_1 =~= evidence.hash_2@ + evidence.signature_1@ + evidence.signature_2@ + rest);
    assert(after_1.take(32) =~= evidence.hash_2@);
    assert(after_2 =~= evidence.signature_1@ + evidence.signature_2@ + rest);
    assert(after_2.take(64) =~= evidence.signature_1@);
    assert(after_3 =~= evidence.signature_2@ + rest);
    assert(after_3.take(64) =~= evidence.signature_2@);
    assert(after_3.skip(64) =~= rest);
}

/// An endorsement denunciation whose thread and index lie within the
/// decoder's bounds is read back from its bytes, and what follows them is
/// left.
pub proof fn law_endorsement_denunciation_round_trip(
    decoder: EndorsementDenunciationDeserializer,
    thread_count: u8,
    endorsement_count: u32,
    value: EndorsementDenunciation,
    rest: Seq<u8>,
)
    requires
        decoder.configured(thread_count, endorsement_count),
        is_public_key(value.public_key@),
        value.slot.thread < thread_count,
        value.index < endorsement_count,
    ensures
        decoder.spec_deserialize(value.bytes() + rest) == Ok::<
            (EndorsementDenunciation, Seq<u8>),
            DeserializeError,
        >((value, rest)),
{
    let bytes = value.bytes() + rest;
    let evidence = Evidence {
        hash_1: value.hash_1,
        hash_2: value.hash_2,
        signature_1: value.signature_1,
        signature_2: value.signature_2,
    };
    let tail = value.hash_1@ + value.hash_2@ + value.signature_1@ + value.signature_2@ + rest;
    let index_bytes = varint_encoding(value.index as nat);
    value.public_key.lemma_view(value.public_key);
    assert(bytes.take(32) =~= value.public_key@);
    let after_key = bytes.skip(32);
    assert(after_key =~= value.slot.bytes() + (index_bytes + tail));
    decoder.slot_deserializer.lemma_round_trip(value.slot, index_bytes + tail);
    let after_slot = after_key.skip(value.slot.bytes().len() as int);
    assert(after_slot == index_bytes + tail);
    lemma_bounded_round_trip(
        value.index as nat,
        tail,
        u32::MAX as nat,
        0,
        decoder.index_deserializer.max,
    );
    lemma_evidence_round_trip(evidence, rest);
}

/// A block header denunciation whose thread lies within the decoder's
/// bounds is read back from its bytes, and what follows them is left.
pub proof fn law_block_header_denunciation_round_trip(
    decoder: BlockHeaderDenunciationDeserializer,
    thread_count: u8,
    value: BlockHeaderDenunciation,
    rest: Seq<u8>,
)
    requires
        decoder.configured(thread_count),
        is_public_key(value.public_key@),
        value.slot.thread < thread_count,
    ensures
        decoder.spec_deserialize(value.bytes() + rest) == Ok::<
            (BlockHeaderDenunciation, Seq<u8>),
            DeserializeError,
        >((value, rest)),
{
    let bytes = value.bytes() + rest;
    let evidence = Evidence {
        hash_1: value.hash_1,
        hash_2: value.hash_2,
        signature_1: value.signature_1,
        signature_2: value.signature_2,
    };
    let tail = value.hash_1@ + value.hash_2@ + value.signature_1@ + value.signature_2@ + rest;
    value.public_key.lemma_view(value.public_key);
    assert(bytes.take(32) =~= value.public_key@);
    let after_key = bytes.skip(32);
    assert(after_key =~= value.slot.bytes() + tail);
    decoder.slot_deserializer.lemma_round_trip(value.slot, tail);
    lemma_evidence_round_trip(evidence, rest);
}

/// Whether the thread of `value`, and its index where it has one, lie
/// within the bounds of a decoder for `thread_count` threads and
/// `endorsement_count` endorsements.
pub open spec fn within_bounds(value: Denunciation, thread_count: u8, endorsement_count: u32) -> bool {
    match value {
        Denunciation::Endorsement(de) => de.slot.thread < thread_count && de.index
            < endorsement_count,
        Denunciation::BlockHeader(de) => de.slot.thread < thread_count,
    }
}

/// Decoding undoes encoding: a denunciation within the decoder's bounds is
/// read back from its bytes, and what follows them is left; with nothing
/// after them, nothing is left.
pub proof fn law_denunciation_round_trip(
    decoder: DenunciationDeserializer,
    thread_count: u8,
    endorsement_count: u32,
    value: Denunciation,
    rest: Seq<u8>,
)
    requires
        decoder.configured(thread_count, endorsement_count),
        is_public_key(value.public_key()@),
        within_bounds(value, thread_count, endorsement_count),
    ensures
        decoder.spec_deserialize(value.bytes() + rest) == Ok::<
            (Denunciation, Seq<u8>),
            DeserializeError,
        >((value, rest)),
        decoder.spec_deserialize(value.bytes()) == Ok::<(Denunciation, Seq<u8>), DeserializeError>(
            (value, Seq::<u8>::empty()),
        ),
{
    lemma_denunciation_round_trip(decoder, thread_count, endorsement_count, value, rest);
    lemma_denunciation_round_trip(
        decoder,
        thread_count,
        endorsement_count,
        value,
        Seq::<u8>::empty(),
    );
    assert(value.bytes() + Seq::<u8>::empty() =~= value.bytes());
}

proof fn lemma_denunciation_round_trip(
    decoder: DenunciationDeserializer,
    thread_count: u8,
    endorsement_count: u32,
    value: Denunciation,
    rest: Seq<u8>,
)
    requires
        decoder.configured(thread_count, endorsement_count),
        is_public_key(value.public_key()@),
        within_bounds(value, thread_count, endorsement_count),
    ensures
        decoder.spec_deserialize(value.bytes() + rest) == Ok::<
            (Denunciation, Seq<u8>),
            DeserializeError,
        >((value, rest)),
{
    match value {
        Denunciation::Endorsement(de) => {
            assert(value.bytes() + rest =~= varint_encoding(0) + (de.bytes() + rest));
            lemma_bounded_round_trip(
                0,
                de.bytes() + rest,
                u32::MAX as nat,
                0,
                decoder.type_id_deserializer.max,
            );
            law_endorsement_denunciation_round_trip(
                decoder.endo_de_deserializer,
                thread_count,
                endorsement_count,
                de,
                rest,
            );
        },
        Denunciation::BlockHeader(de) => {
            assert(value.bytes() + rest =~= varint_encoding(1) + (de.bytes() + rest));
            lemma_bounded_round_trip(
                1,
                de.bytes() + rest,
                u32::MAX as nat,
                0,
                decoder.type_id_deserializer.max,
            );
            law_block_header_denunciation_round_trip(
                decoder.blkh_de_deserializer,
                thread_count,
                de,
                rest,
            );
        },
    }
}

/// The kind of a denunciation, as the context of a failure at one of its
/// fields.
pub open spec fn context_of(value: Denunciation, field: DenunciationField) -> DeserializeContext {
    match value {
        Denunciation::Endorsement(_) => DeserializeContext::Endorsement(field),
        Denunciation::BlockHeader(_) => DeserializeContext::BlockHeader(field),
    }
}

/// The thread of a denunciation.
pub open spec fn thread_of(value: Denunciation) -> u8 {
    match value {
        Denunciation::Endorsement(de) => de.slot.thread,
        Denunciation::BlockHeader(de) => de.slot.thread,
    }
}

proof fn lemma_endorsement_thread_refused(
    decoder: EndorsementDenunciationDeserializer,
    thread_count: u8,
    endorsement_count: u32,
    value: EndorsementDenunciation,
    rest: Seq<u8>,
)
    requires
        decoder.configured(thread_count, endorsement_count),
        is_public_key(value.public_key@),
        value.slot.thread >= thread_count,
    ensures
        decoder.spec_deserialize(value.bytes() + rest) == Err::<
            (EndorsementDenunciation, Seq<u8>),
            DeserializeError,
        >(
            DeserializeError {
                context: DeserializeContext::Endorsement(DenunciationField::Slot),
                cause: DeserializeCause::OutOfBounds,
            },
        ),
{
    let bytes = value.bytes() + rest;
    let after_slot = varint_encoding(value.index as nat) + value.hash_1@ + value.hash_2@
        + value.signature_1@ + value.signature_2@ + rest;
    value.public_key.lemma_view(value.public_key);
    assert(bytes.take(32) =~= value.public_key@);
    assert(bytes.skip(32) =~= value.slot.bytes() + after_slot);
    decoder.slot_deserializer.lemma_thread_refused(value.slot, after_slot);
}

proof fn lemma_block_header_thread_refused(
    decoder: BlockHeaderDenunciationDeserializer,
    thread_count: u8,
    value: BlockHeaderDenunciation,
    rest: Seq<u8>,
)
    requires
        decoder.configured(thread_count),
        is_public_key(value.public_key@),
        value.slot.thread >= thread_count,
    ensures
        decoder.spec_deserialize(value.bytes() + rest) == Err::<
            (BlockHeaderDenunciation, Seq<u8>),
            DeserializeError,
        >(
            DeserializeError {
                context: DeserializeContext::BlockHeader(DenunciationField::Slot),
                cause: DeserializeCause::OutOfBounds,
            },
        ),
{
    let bytes = value.bytes() + rest;
    let after_slot = value.hash_1@ + value.hash_2@ + value.signature_1@ + value.signature_2@ + rest;
    value.public_key.lemma_view(value.public_key);
    assert(bytes.take(32) =~= value.public_key@);
    assert(bytes.skip(32) =~= value.slot.bytes() + after_slot);
    decoder.slot_deserializer.lemma_thread_refused(value.slot, after_slot);
}

/// The bytes of a denunciation whose thread is not below the decoder's
/// count of threads are refused at the slot, as out of bounds.
pub proof fn law_thread_out_of_bounds_is_refused(
    decoder: DenunciationDeserializer,
    thread_count: u8,
    endorsement_count: u32,
    value: Denunciation,
    rest: Seq<u8>,
)
    requires
        decoder.configured(thread_count, endorsement_count),
        is_public_key(value.public_key()@),
        thread_of(value) >= thread_count,
    ensures
        decoder.spec_deserialize(value.bytes() + rest) == Err::<
            (Denunciation, Seq<u8>),
            DeserializeError,
        >(
            DeserializeError {
                context: context_of(value, DenunciationField::Slot),
                cause: DeserializeCause::OutOfBounds,
            },
        ),
{
    match value {
        Denunciation::Endorsement(de) => {
            assert(value.bytes() + rest =~= varint_encoding(0) + (de.bytes() + rest));
            lemma_bounded_round_trip(
                0,
                de.bytes() + rest,
                u32::MAX as nat,
                0,
                decoder.type_id_deserializer.max,
            );
            lemma_endorsement_thread_refused(
                decoder.endo_de_deserializer,
                thread_count,
                endorsement_count,
                de,
                rest,
            );
        },
        Denunciation::BlockHeader(de) => {
            assert(value.bytes() + rest =~= varint_encoding(1) + (de.bytes() + rest));
            lemma_bounded_round_trip(
                1,
                de.bytes() + rest,
                u32::MAX as nat,
                0,
                decoder.type_id_deserializer.max,
            );
            lemma_block_header_thread_refused(
                decoder.blkh_de_deserializer,
                thread_count,
                de,
                rest,
            );
        },
    }
}

/// The bytes of an endorsement denunciation whose thread is within bounds
/// and whose index is not below the decoder's count of endorsements are
/// refused at the index, as out of bounds.
pub proof fn law_index_out_of_bounds_is_refused(
    decoder: DenunciationDeserializer,
    thread_count: u8,
    endorsement_count: u32,
    value: EndorsementDenunciation,
    rest: Seq<u8>,
)
    requires
        decoder.configured(thread_count, endorsement_count),
        is_public_key(value.public_key@),
        value.slot.thread < thread_count,
        value.index >= endorsement_count,
    ensures
        decoder.spec_deserialize(Denunciation::Endorsement(value).bytes() + rest) == Err::<
            (Denunciation, Seq<u8>),
            DeserializeError,
        >(
            DeserializeError {
                context: DeserializeContext::Endorsement(DenunciationField::Index),
                cause: DeserializeCause::OutOfBounds,
            },
        ),
{
    let tail = value.hash_1@ + value.hash_2@ + value.signature_1@ + value.signature_2@ + rest;
    let index_bytes = varint_encoding(value.index as nat);
    assert(Denunciation::Endorsement(value).bytes() + rest =~= varint_encoding(0) + (value.bytes()
        + rest));
    lemma_bounded_round_trip(
        0,
        value.bytes() + rest,
        u32::MAX as nat,
        0,
        decoder.type_id_deserializer.max,
    );
    value.public_key.lemma_view(value.public_key);
    assert((value.bytes() + rest).take(32) =~= value.public_key@);
    let after_key = (value.bytes() + rest).skip(32);
    assert(after_key =~= value.slot.bytes() + (index_bytes + tail));
    decoder.endo_de_deserializer.slot_deserializer.lemma_round_trip(value.slot, index_bytes + tail);
    lemma_decode_encode(value.index as nat, tail);
}

/// Bytes that start with a number that names no kind of denunciation are
/// refused at that number, as out of bounds.
pub proof fn law_unknown_kind_is_refused(
    decoder: DenunciationDeserializer,
    thread_count: u8,
    endorsement_count: u32,
    number: u32,
    rest: Seq<u8>,
)
    requires
        decoder.configured(thread_count, endorsement_count),
        number >= 2,
    ensures
        decoder.spec_deserialize(varint_encoding(number as nat) + rest) == Err::<
            (Denunciation, Seq<u8>),
            DeserializeError,
        >(
            DeserializeError {
                context: DeserializeContext::TypeId,
                cause: DeserializeCause::OutOfBounds,
            },
        ),
{
    lemma_decode_encode(number as nat, rest);
}

/// Two byte strings that start with the encoding of an integer and are the
/// same start with the same integer and go on in the same way.
proof fn lemma_same_start(first: nat, after_first: Seq<u8>, second: nat, after_second: Seq<u8>)
    requires
        varint_encoding(first) + after_first == varint_encoding(second) + after_second,
    ensures
        first == second,
        after_first == after_second,
{
    lemma_decode_encode(first, after_first);
    lemma_decode_encode(second, after_second);
    let whole = varint_encoding(first) + after_first;
    assert(whole.skip(varint_encoding(first).len() as int) =~= after_first);
    assert(whole.skip(varint_encoding(second).len() as int) =~= after_second);
}

/// What is signed for an endorsement binds key, position and content: two
/// preimages are the same only where key, slot, index and content hash
/// are. A signature cannot be carried over to another slot or index
/// without changing what it would have to sign.
pub proof fn law_endorsement_preimage_binds(
    key_a: PublicKey,
    slot_a: Slot,
    index_a: u32,
    hash_a: crate::hash::Hash,
    key_b: PublicKey,
    slot_b: Slot,
    index_b: u32,
    hash_b: crate::hash::Hash,
)
    requires
        EndorsementDenunciation::signing_preimage(key_a@, slot_a, index_a, hash_a@)
            == EndorsementDenunciation::signing_preimage(key_b@, slot_b, index_b, hash_b@),
    ensures
        key_a == key_b,
        slot_a == slot_b,
        index_a == index_b,
        hash_a == hash_b,
{
    key_a.lemma_view(key_b);
    key_b.lemma_view(key_a);
    hash_a.lemma_view(hash_b);
    hash_b.lemma_view(hash_a);
    let whole_a = EndorsementDenunciation::signing_preimage(key_a@, slot_a, index_a, hash_a@);
    let whole_b = EndorsementDenunciation::signing_preimage(key_b@, slot_b, index_b, hash_b@);
    let index_on_a = varint_encoding(index_a as nat) + hash_a@;
    let index_on_b = varint_encoding(index_b as nat) + hash_b@;
    let thread_on_a = seq![slot_a.thread] + index_on_a;
    let thread_on_b = seq![slot_b.thread] + index_on_b;
    assert(whole_a.take(32) =~= key_a@);
    assert(whole_b.take(32) =~= key_b@);
    assert(whole_a.skip(32) =~= varint_encoding(slot_a.period as nat) + thread_on_a);
    assert(whole_b.skip(32) =~= varint_encoding(slot_b.period as nat) + thread_on_b);
    lemma_same_start(slot_a.period as nat, thread_on_a, slot_b.period as nat, thread_on_b);
    assert(thread_on_a[0] == slot_a.thread);
    assert(thread_on_b[0] == slot_b.thread);
    assert(thread_on_a.skip(1) =~= index_on_a);
    assert(thread_on_b.skip(1) =~= index_on_b);
    lemma_same_start(index_a as nat, hash_a@, index_b as nat, hash_b@);
}

/// What is signed for a block header binds key, slot and content: two
/// preimages are the same only where key, slot and content hash are.
pub proof fn law_block_header_preimage_binds(
    key_a: PublicKey,
    slot_a: Slot,
    hash_a: crate::hash::Hash,
    key_b: PublicKey,
    slot_b: Slot,
    hash_b: crate::hash::Hash,
)
    requires
        BlockHeaderDenunciation::signing_preimage(key_a@, slot_a, hash_a@)
            == BlockHeaderDenunciation::signing_preimage(key_b@, slot_b, hash_b@),
    ensures
        key_a == key_b,
        slot_a == slot_b,
        hash_a == hash_b,
{
    key_a.lemma_view(key_b);
    key_b.lemma_view(key_a);
    hash_a.lemma_view(hash_b);
    hash_b.lemma_view(hash_a);
    let whole_a = BlockHeaderDenunciation::signing_preimage(key_a@, slot_a, hash_a@);
    let whole_b = BlockHeaderDenunciation::signing_preimage(key_b@, slot_b, hash_b@);
    let thread_on_a = seq![slot_a.thread] + hash_a@;
    let thread_on_b = seq![slot_b.thread] + hash_b@;
    assert(whole_a.take(32) =~= key_a@);
    assert(whole_b.take(32) =~= key_b@);
    assert(whole_a.skip(32) =~= varint_encoding(slot_a.period as nat) + thread_on_a);
    assert(whole_b.skip(32) =~= varint_encoding(slot_b.period as nat) + thread_on_b);
    lemma_same_start(slot_a.period as nat, thread_on_a, slot_b.period as nat, thread_on_b);
    assert(thread_on_a[0] == slot_a.thread);
    assert(thread_on_b[0] == slot_b.thread);
    assert(thread_on_a.skip(1) =~= hash_a@);
    assert(thread_on_b.skip(1) =~= hash_b@);
}

} // verus!
