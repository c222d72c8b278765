use denunciation::block_header::{BlockHeader, SecuredHeader};
use denunciation::block_id::BlockId;
use denunciation::codec::{
    read_evidence, BlockHeaderDenunciationDeserializer, DenunciationDeserializer,
    DenunciationSerializer, DenunciationTypeId,
    EndorsementDenunciationDeserializer, UnknownDenunciationTypeId,
    DENUNCIATION_TYPE_ID_VARIANT_COUNT,
};
use denunciation::config::{ENDORSEMENT_COUNT, THREAD_COUNT};
use denunciation::denunciation::{BlockHeaderDenunciation, Denunciation, EndorsementDenunciation};
use denunciation::endorsement::{Endorsement, EndorsementId, SecureShareEndorsement};
use denunciation::error::{
    DenunciationField, DeserializeCause, DeserializeContext, DeserializeError,
};
use denunciation::signature::{PublicKey, Signature};
use denunciation::slot::Slot;
use ed25519_dalek::{Signer, SigningKey};

fn public_key(keypair: &SigningKey) -> PublicKey {
    PublicKey::from_bytes(keypair.verifying_key().as_bytes()).unwrap()
}

fn sign(keypair: &SigningKey, digest: &denunciation::hash::Hash) -> Signature {
    Signature::from_bytes(&keypair.sign(digest.to_bytes()).to_bytes())
}

fn digest(data: &[u8]) -> denunciation::hash::Hash {
    denunciation::hash::Hash::compute_from(data)
}

fn signed_endorsement(slot: Slot, index: u32, block: &str) -> SecureShareEndorsement {
    let keypair = SigningKey::from_bytes(&[1u8; 32]);
    let key = public_key(&keypair);
    let content = Endorsement { slot, index, endorsed_block: BlockId(digest(block.as_bytes())) };
    let content_hash = EndorsementDenunciation::compute_content_hash(&content).unwrap();
    let to_sign =
        EndorsementDenunciation::compute_hash_for_sig_verif(&key, &slot, &index, &content_hash)
            .unwrap();
    SecureShareEndorsement {
        content,
        signature: sign(&keypair, &to_sign),
        content_creator_pub_key: key,
        id: EndorsementId(content_hash),
    }
}

fn signed_header(slot: Slot, root: &str) -> SecuredHeader {
    let keypair = SigningKey::from_bytes(&[1u8; 32]);
    let key = public_key(&keypair);
    let content = BlockHeader {
        slot,
        parents: Vec::new(),
        operation_merkle_root: digest(root.as_bytes()),
        endorsements: Vec::new(),
    };
    let content_hash = BlockHeaderDenunciation::compute_content_hash(&content).unwrap();
    let to_sign =
        BlockHeaderDenunciation::compute_hash_for_sig_verif(&key, &slot, &content_hash).unwrap();
    SecuredHeader {
        content,
        signature: sign(&keypair, &to_sign),
        content_creator_pub_key: key,
        id: BlockId(content_hash),
    }
}

fn endorsement_denunciation(slot: Slot, index: u32) -> Denunciation {
    let first = signed_endorsement(slot, index, "blk1");
    let second = signed_endorsement(slot, index, "blk2");
    Denunciation::try_from((&first, &second)).unwrap()
}

fn header_denunciation(slot: Slot) -> Denunciation {
    let first = signed_header(slot, "abc");
    let second = signed_header(slot, "def");
    Denunciation::try_from((&first, &second)).unwrap()
}

fn wire(denunciation: &Denunciation) -> Vec<u8> {
    let mut buffer = Vec::new();
    DenunciationSerializer::new().serialize(denunciation, &mut buffer).unwrap();
    buffer
}

fn failure(context: DeserializeContext, cause: DeserializeCause) -> DeserializeError {
    DeserializeError { context, cause }
}

#[test]
fn endorsement_denunciation_is_laid_out_field_by_field() {
    let denunciation = endorsement_denunciation(Slot::new(300, 7), 9);
    let de = match denunciation {
        Denunciation::Endorsement(de) => de,
        Denunciation::BlockHeader(_) => unreachable!(),
    };
    let mut expected = vec![0];
    expected.extend_from_slice(de.public_key.to_bytes());
    expected.extend_from_slice(&[0xac, 0x02, 7]);
    expected.push(9);
    expected.extend_from_slice(de.hash_1.to_bytes());
    expected.extend_from_slice(de.hash_2.to_bytes());
    expected.extend_from_slice(de.signature_1.to_bytes());
    expected.extend_from_slice(de.signature_2.to_bytes());
    assert_eq!(expected.len(), 1 + 32 + 3 + 1 + 32 + 32 + 64 + 64);
    assert_eq!(wire(&denunciation), expected);
}

#[test]
fn block_header_denunciation_is_laid_out_field_by_field() {
    let denunciation = header_denunciation(Slot::new(2, 1));
    let de = match denunciation {
        Denunciation::BlockHeader(de) => de,
        Denunciation::Endorsement(_) => unreachable!(),
    };
    let mut expected = vec![1];
    expected.extend_from_slice(de.public_key.to_bytes());
    expected.extend_from_slice(&[2, 1]);
    expected.extend_from_slice(de.hash_1.to_bytes());
    expected.extend_from_slice(de.hash_2.to_bytes());
    expected.extend_from_slice(de.signature_1.to_bytes());
    expected.extend_from_slice(de.signature_2.to_bytes());
    assert_eq!(wire(&denunciation), expected);
}

#[test]
fn serializer_appends_and_default_is_new() {
    let denunciation = header_denunciation(Slot::new(2, 1));
    let mut buffer = vec![0xee, 0xee];
    DenunciationSerializer::default().serialize(&denunciation, &mut buffer).unwrap();
    assert_eq!(&buffer[..2], &[0xee, 0xee]);
    assert_eq!(&buffer[2..], &wire(&denunciation)[..]);
}

#[test]
fn bytes_after_a_denunciation_are_handed_back() {
    let decoder = DenunciationDeserializer::new(THREAD_COUNT, ENDORSEMENT_COUNT);
    for denunciation in [
        endorsement_denunciation(Slot::new(3, 7), 0),
        endorsement_denunciation(Slot::new(u64::MAX, 31), 15),
        header_denunciation(Slot::new(2, 1)),
        header_denunciation(Slot::new(0, 0)),
    ] {
        let mut buffer = wire(&denunciation);
        buffer.extend_from_slice(&[1, 2, 3]);
        let (rest, read) = decoder.deserialize(&buffer).unwrap();
        assert_eq!(rest, &[1u8, 2, 3][..]);
        assert_eq!(read, denunciation);
        assert_eq!(read.is_valid(), Ok(true));
    }
}

#[test]
fn thread_at_or_over_the_count_is_refused_at_the_slot() {
    let decoder = DenunciationDeserializer::new(THREAD_COUNT, ENDORSEMENT_COUNT);
    let buffer = wire(&endorsement_denunciation(Slot::new(3, THREAD_COUNT), 0));
    assert_eq!(
        decoder.deserialize(&buffer),
        Err(failure(
            DeserializeContext::Endorsement(DenunciationField::Slot),
            DeserializeCause::OutOfBounds
        ))
    );
    let buffer = wire(&header_denunciation(Slot::new(3, 255)));
    assert_eq!(
        decoder.deserialize(&buffer),
        Err(failure(
            DeserializeContext::BlockHeader(DenunciationField::Slot),
            DeserializeCause::OutOfBounds
        ))
    );
    // one below the count passes
    let buffer = wire(&header_denunciation(Slot::new(3, THREAD_COUNT - 1)));
    assert!(decoder.deserialize(&buffer).is_ok());
}

#[test]
fn index_at_or_over_the_count_is_refused_at_the_index() {
    let decoder = DenunciationDeserializer::new(THREAD_COUNT, ENDORSEMENT_COUNT);
    let buffer = wire(&endorsement_denunciation(Slot::new(3, 7), ENDORSEMENT_COUNT));
    assert_eq!(
        decoder.deserialize(&buffer),
        Err(failure(
            DeserializeContext::Endorsement(DenunciationField::Index),
            DeserializeCause::OutOfBounds
        ))
    );
    let buffer = wire(&endorsement_denunciation(Slot::new(3, 7), ENDORSEMENT_COUNT - 1));
    assert!(decoder.deserialize(&buffer).is_ok());
    // thread is looked at first
    let buffer = wire(&endorsement_denunciation(Slot::new(3, 200), 200));
    assert_eq!(
        decoder.deserialize(&buffer).unwrap_err().context,
        DeserializeContext::Endorsement(DenunciationField::Slot)
    );
}

#[test]
fn unknown_kind_is_refused_at_the_type_id() {
    let decoder = DenunciationDeserializer::new(THREAD_COUNT, ENDORSEMENT_COUNT);
    let mut buffer = wire(&header_denunciation(Slot::new(2, 1)));
    buffer[0] = 2;
    assert_eq!(
        decoder.deserialize(&buffer),
        Err(failure(DeserializeContext::TypeId, DeserializeCause::OutOfBounds))
    );
    buffer[0] = 0x80;
    assert_eq!(
        decoder.deserialize(&buffer[..1]),
        Err(failure(DeserializeContext::TypeId, DeserializeCause::Malformed))
    );
    assert_eq!(
        decoder.deserialize(&[]),
        Err(failure(DeserializeContext::TypeId, DeserializeCause::Malformed))
    );
}

#[test]
fn truncated_endorsement_denunciation_names_the_field_it_stops_at() {
    let decoder = EndorsementDenunciationDeserializer::new(THREAD_COUNT, ENDORSEMENT_COUNT);
    let buffer = wire(&endorsement_denunciation(Slot::new(3, 7), 9));
    let body = &buffer[1..];
    assert_eq!(body.len(), 32 + 2 + 1 + 32 + 32 + 64 + 64);
    let stops = |len: usize| decoder.deserialize(&body[..len]).unwrap_err();
    let at = |field, cause| failure(DeserializeContext::Endorsement(field), cause);
    assert_eq!(stops(0), at(DenunciationField::PublicKey, DeserializeCause::UnexpectedEnd));
    assert_eq!(stops(31), at(DenunciationField::PublicKey, DeserializeCause::UnexpectedEnd));
    assert_eq!(stops(32), at(DenunciationField::Slot, DeserializeCause::Malformed));
    assert_eq!(stops(33), at(DenunciationField::Slot, DeserializeCause::UnexpectedEnd));
    assert_eq!(stops(34), at(DenunciationField::Index, DeserializeCause::Malformed));
    assert_eq!(stops(35), at(DenunciationField::Hash1, DeserializeCause::UnexpectedEnd));
    assert_eq!(stops(66), at(DenunciationField::Hash1, DeserializeCause::UnexpectedEnd));
    assert_eq!(stops(67), at(DenunciationField::Hash2, DeserializeCause::UnexpectedEnd));
    assert_eq!(stops(99), at(DenunciationField::Signature1, DeserializeCause::UnexpectedEnd));
    assert_eq!(stops(163), at(DenunciationField::Signature2, DeserializeCause::UnexpectedEnd));
    assert_eq!(stops(226), at(DenunciationField::Signature2, DeserializeCause::UnexpectedEnd));
    assert!(decoder.deserialize(body).is_ok());
}

#[test]
fn truncated_block_header_denunciation_names_the_field_it_stops_at() {
    let decoder = BlockHeaderDenunciationDeserializer::new(THREAD_COUNT);
    let buffer = wire(&header_denunciation(Slot::new(2, 1)));
    let body = &buffer[1..];
    let stops = |len: usize| decoder.deserialize(&body[..len]).unwrap_err();
    let at = |field, cause| failure(DeserializeContext::BlockHeader(field), cause);
    assert_eq!(stops(10), at(DenunciationField::PublicKey, DeserializeCause::UnexpectedEnd));
    assert_eq!(stops(33), at(DenunciationField::Slot, DeserializeCause::UnexpectedEnd));
    assert_eq!(stops(34), at(DenunciationField::Hash1, DeserializeCause::UnexpectedEnd));
    assert_eq!(stops(66), at(DenunciationField::Hash2, DeserializeCause::UnexpectedEnd));
    assert_eq!(stops(98), at(DenunciationField::Signature1, DeserializeCause::UnexpectedEnd));
    assert_eq!(stops(162), at(DenunciationField::Signature2, DeserializeCause::UnexpectedEnd));
    assert!(decoder.deserialize(body).is_ok());
}

#[test]
fn bytes_that_are_no_key_are_refused_at_the_key() {
    let decoder = DenunciationDeserializer::new(THREAD_COUNT, ENDORSEMENT_COUNT);
    let mut buffer = wire(&header_denunciation(Slot::new(2, 1)));
    let mut found = false;
    for first in 0..=255u8 {
        let mut key = [0u8; 32];
        key[0] = first;
        if PublicKey::from_bytes(&key).is_err() {
            buffer[1..33].copy_from_slice(&key);
            found = true;
            break;
        }
    }
    assert!(found);
    assert_eq!(
        decoder.deserialize(&buffer),
        Err(failure(
            DeserializeContext::BlockHeader(DenunciationField::PublicKey),
            DeserializeCause::InvalidPublicKey
        ))
    );
}

#[test]
fn evidence_is_two_hashes_and_two_signatures() {
    let mut buffer = vec![1u8; 32];
    buffer.extend_from_slice(&[2u8; 32]);
    buffer.extend_from_slice(&[3u8; 64]);
    buffer.extend_from_slice(&[4u8; 64]);
    buffer.push(5);
    let (rest, evidence) = read_evidence(&buffer).unwrap();
    assert_eq!(rest, &[5u8][..]);
    assert_eq!(evidence.hash_1.to_bytes(), &[1u8; 32]);
    assert_eq!(evidence.hash_2.to_bytes(), &[2u8; 32]);
    assert_eq!(evidence.signature_1.to_bytes(), &[3u8; 64]);
    assert_eq!(evidence.signature_2.to_bytes(), &[4u8; 64]);
    assert_eq!(
        read_evidence(&buffer[..191]).unwrap_err(),
        (DenunciationField::Signature2, DeserializeCause::UnexpectedEnd)
    );
}

#[test]
fn failures_are_named_from_the_outside_in() {
    assert_eq!(
        failure(DeserializeContext::TypeId, DeserializeCause::Malformed).messages(),
        vec!["Failed Denunciation type id deserialization"]
    );
    assert_eq!(
        failure(
            DeserializeContext::Endorsement(DenunciationField::Hash1),
            DeserializeCause::UnexpectedEnd
        )
        .messages(),
        vec![
            "Failed Endorsement Denunciation deserialization",
            "Failed hash 1 deserialization"
        ]
    );
    assert_eq!(
        failure(
            DeserializeContext::BlockHeader(DenunciationField::Signature2),
            DeserializeCause::UnexpectedEnd
        )
        .messages(),
        vec![
            "Failed BlockHeader Denunciation deserialization",
            "Failed signature 2 deserialization"
        ]
    );
    assert_eq!(DenunciationField::PublicKey.message(), "Failed public key deserialization");
    assert_eq!(DenunciationField::Slot.message(), "Failed slot deserialization");
    assert_eq!(DenunciationField::Index.message(), "Failed index deserialization");
    assert_eq!(DenunciationField::Hash2.message(), "Failed hash 2 deserialization");
    assert_eq!(DenunciationField::Signature1.message(), "Failed signature 1 deserialization");
}

#[test]
fn kinds_are_numbered_zero_and_one() {
    assert_eq!(u32::from(DenunciationTypeId::Endorsement), 0);
    assert_eq!(u32::from(DenunciationTypeId::BlockHeader), 1);
    assert_eq!(DenunciationTypeId::try_from(0), Ok(DenunciationTypeId::Endorsement));
    assert_eq!(DenunciationTypeId::try_from(1), Ok(DenunciationTypeId::BlockHeader));
    assert_eq!(
        DenunciationTypeId::try_from(2),
        Err(UnknownDenunciationTypeId { number: 2 })
    );
    assert_eq!(DENUNCIATION_TYPE_ID_VARIANT_COUNT, 2);
    assert_eq!(
        DenunciationTypeId::from(&endorsement_denunciation(Slot::new(3, 7), 0)),
        DenunciationTypeId::Endorsement
    );
    assert_eq!(
        DenunciationTypeId::from(&header_denunciation(Slot::new(3, 7))),
        DenunciationTypeId::BlockHeader
    );
}
