use denunciation::block_header::{BlockHeader, SecuredHeader};
use denunciation::block_id::BlockId;
use denunciation::codec::{
    BlockHeaderDenunciationDeserializer, BlockHeaderDenunciationSerializer,
    DenunciationDeserializer, DenunciationSerializer, EndorsementDenunciationDeserializer,
    EndorsementDenunciationSerializer,
};
use denunciation::config::{ENDORSEMENT_COUNT, THREAD_COUNT};
use denunciation::denunciation::{
    BlockHeaderDenunciation, Denunciation, DenunciationError, EndorsementDenunciation,
};
use denunciation::endorsement::{Endorsement, EndorsementId, SecureShareEndorsement};
use denunciation::signature::{PublicKey, Signature};
use denunciation::slot::Slot;
use ed25519_dalek::{Signer, SigningKey};

fn keypair(seed: u8) -> SigningKey {
    SigningKey::from_bytes(&[seed; 32])
}

fn public_key(keypair: &SigningKey) -> PublicKey {
    PublicKey::from_bytes(keypair.verifying_key().as_bytes()).unwrap()
}

fn sign(keypair: &SigningKey, digest: &denunciation::hash::Hash) -> Signature {
    Signature::from_bytes(&keypair.sign(digest.to_bytes()).to_bytes())
}

fn new_verifiable_endorsement(content: Endorsement, keypair: &SigningKey) -> SecureShareEndorsement {
    let key = public_key(keypair);
    let content_hash = EndorsementDenunciation::compute_content_hash(&content).unwrap();
    let to_sign = EndorsementDenunciation::compute_hash_for_sig_verif(
        &key,
        &content.slot,
        &content.index,
        &content_hash,
    )
    .unwrap();
    SecureShareEndorsement {
        content,
        signature: sign(keypair, &to_sign),
        content_creator_pub_key: key,
        id: EndorsementId(content_hash),
    }
}

fn new_verifiable_header(content: BlockHeader, keypair: &SigningKey) -> SecuredHeader {
    let key = public_key(keypair);
    let content_hash = BlockHeaderDenunciation::compute_content_hash(&content).unwrap();
    let to_sign =
        BlockHeaderDenunciation::compute_hash_for_sig_verif(&key, &content.slot, &content_hash)
            .unwrap();
    SecuredHeader {
        content,
        signature: sign(keypair, &to_sign),
        content_creator_pub_key: key,
        id: BlockId(content_hash),
    }
}

fn endorsement(slot: Slot, index: u32, block: &str) -> Endorsement {
    Endorsement {
        slot,
        index,
        endorsed_block: BlockId(denunciation::hash::Hash::compute_from(block.as_bytes())),
    }
}

fn gen_endorsements_for_denunciation() -> (
    Slot,
    SigningKey,
    SecureShareEndorsement,
    SecureShareEndorsement,
    SecureShareEndorsement,
) {
    let keypair = keypair(1);
    let slot = Slot::new(3, 7);
    let v_endorsement1 = new_verifiable_endorsement(endorsement(slot, 0, "blk1"), &keypair);
    let v_endorsement2 = new_verifiable_endorsement(endorsement(slot, 0, "blk2"), &keypair);
    let v_endorsement_3 = new_verifiable_endorsement(endorsement(slot, 0, "blk3"), &keypair);
    (slot, keypair, v_endorsement1, v_endorsement2, v_endorsement_3)
}

fn parents(offset: u8) -> Vec<BlockId> {
    (0..THREAD_COUNT)
        .map(|i| BlockId(denunciation::hash::Hash::compute_from(&[i + offset])))
        .collect()
}

fn gen_block_headers_for_denunciation() -> (Slot, SigningKey, SecuredHeader, SecuredHeader, SecuredHeader)
{
    let keypair = keypair(2);
    let slot = Slot::new(2, 1);
    let s_endorsement_1 =
        new_verifiable_endorsement(endorsement(Slot::new(1, 1), 1, "blk1"), &keypair);
    let header = |parents: Vec<BlockId>| BlockHeader {
        slot,
        parents,
        operation_merkle_root: denunciation::hash::Hash::compute_from("mno".as_bytes()),
        endorsements: vec![s_endorsement_1.clone()],
    };
    let s_block_header_1 = new_verifiable_header(header(parents(0)), &keypair);
    let s_block_header_2 = new_verifiable_header(header(parents(1)), &keypair);
    let s_block_header_3 = new_verifiable_header(header(parents(2)), &keypair);
    (slot, keypair, s_block_header_1.clone(), s_block_header_2, s_block_header_3)
}

#[test]
fn test_endorsement_denunciation() {
    let (_slot, _keypair, s_endorsement_1, s_endorsement_2, _s_endorsement_3) =
        gen_endorsements_for_denunciation();
    let denunciation: Denunciation = (&s_endorsement_1, &s_endorsement_2).try_into().unwrap();

    assert_eq!(denunciation.is_for_endorsement(), true);
    assert_eq!(denunciation.is_valid().unwrap(), true);
}

#[test]
fn test_endorsement_denunciation_invalid_1() {
    let (slot, keypair, s_endorsement_1, _s_endorsement_2, _s_endorsement_3) =
        gen_endorsements_for_denunciation();

    // two endorsements at different indexes
    let s_endorsement_4 = new_verifiable_endorsement(endorsement(slot, 9, "foo"), &keypair);

    let denunciation = Denunciation::try_from((&s_endorsement_1, &s_endorsement_4));

    assert!(matches!(denunciation, Err(DenunciationError::InvalidInput)));

    // one endorsement, twice
    let denunciation = Denunciation::try_from((&s_endorsement_1, &s_endorsement_1));

    assert!(matches!(denunciation, Err(DenunciationError::InvalidInput)));
}

#[test]
fn test_endorsement_denunciation_is_for() {
    let (slot, keypair, s_endorsement_1, s_endorsement_2, s_endorsement_3) =
        gen_endorsements_for_denunciation();

    let denunciation: Denunciation = (&s_endorsement_1, &s_endorsement_2).try_into().unwrap();

    assert_eq!(denunciation.is_for_endorsement(), true);
    assert_eq!(denunciation.is_valid().unwrap(), true);

    let s_endorsement_4 = new_verifiable_endorsement(endorsement(slot, 9, "foo"), &keypair);

    assert_eq!(
        denunciation
            .is_also_for_endorsement(&s_endorsement_4)
            .unwrap(),
        false
    );
    assert_eq!(
        denunciation
            .is_also_for_endorsement(&s_endorsement_3)
            .unwrap(),
        true
    );
    assert_eq!(denunciation.is_valid().unwrap(), true);
}

#[test]
fn test_block_header_denunciation() {
    let (_slot, _keypair, s_block_header_1, s_block_header_2, s_block_header_3) =
        gen_block_headers_for_denunciation();
    let denunciation: Denunciation = (&s_block_header_1, &s_block_header_2).try_into().unwrap();

    assert_eq!(denunciation.is_for_block_header(), true);
    assert_eq!(denunciation.is_valid().unwrap(), true);
    assert_eq!(
        denunciation
            .is_also_for_block_header(&s_block_header_3)
            .unwrap(),
        true
    );
}

#[test]
fn test_forge_invalid_denunciation() {
    let keypair = keypair(3);
    let slot_1 = Slot::new(4, 2);
    let slot_2 = Slot::new(3, 7);

    let s_endorsement_1: SecureShareEndorsement =
        new_verifiable_endorsement(endorsement(slot_1, 0, "blk1"), &keypair);

    let s_endorsement_2: SecureShareEndorsement =
        new_verifiable_endorsement(endorsement(slot_2, 0, "blk2"), &keypair);

    // an attacker builds a denunciation by hand, of one endorsement alone
    let de_forged_1 = Denunciation::Endorsement(EndorsementDenunciation {
        public_key: public_key(&keypair),
        slot: slot_1,
        index: 0,
        hash_1: *s_endorsement_1.id.get_hash(),
        hash_2: *s_endorsement_1.id.get_hash(),
        signature_1: s_endorsement_1.signature,
        signature_2: s_endorsement_1.signature,
    });

    // hash_1 == hash_2: invalid
    assert_eq!(de_forged_1.is_valid().unwrap(), false);

    // an attacker reuses an old endorsement at another slot
    let de_forged_2 = Denunciation::Endorsement(EndorsementDenunciation {
        public_key: public_key(&keypair),
        slot: slot_2,
        index: 0,
        hash_1: *s_endorsement_1.id.get_hash(),
        hash_2: *s_endorsement_2.id.get_hash(),
        signature_1: s_endorsement_1.signature,
        signature_2: s_endorsement_2.signature,
    });

    assert_eq!(de_forged_2.is_valid().unwrap(), false);
}

#[test]
fn test_endorsement_denunciation_ser_der() {
    let (_, _, s_endorsement_1, s_endorsement_2, _) = gen_endorsements_for_denunciation();

    let denunciation = Denunciation::try_from((&s_endorsement_1, &s_endorsement_2)).unwrap();

    let mut buffer = Vec::new();
    let de_ser = EndorsementDenunciationSerializer::new();

    match denunciation {
        Denunciation::Endorsement(de) => {
            de_ser.serialize(&de, &mut buffer).unwrap();
            let de_der = EndorsementDenunciationDeserializer::new(THREAD_COUNT, ENDORSEMENT_COUNT);

            let (rem, de_der_res) = de_der.deserialize(&buffer).unwrap();

            assert_eq!(rem.is_empty(), true);
            assert_eq!(de, de_der_res);
        }
        Denunciation::BlockHeader(_) => {
            unreachable!()
        }
    }
}

#[test]
fn test_block_header_denunciation_ser_der() {
    let (_, _, s_block_header_1, s_block_header_2, _) = gen_block_headers_for_denunciation();
    let denunciation: Denunciation = (&s_block_header_1, &s_block_header_2).try_into().unwrap();

    let mut buffer = Vec::new();
    let de_ser = BlockHeaderDenunciationSerializer::new();

    match denunciation {
        Denunciation::Endorsement(_) => {
            unreachable!()
        }
        Denunciation::BlockHeader(de) => {
            de_ser.serialize(&de, &mut buffer).unwrap();
            let de_der = BlockHeaderDenunciationDeserializer::new(THREAD_COUNT);

            let (rem, de_der_res) = de_der.deserialize(&buffer).unwrap();

            assert_eq!(rem.is_empty(), true);
            assert_eq!(de, de_der_res);
        }
    }
}

#[test]
fn test_denunciation_ser_der() {
    let (_, _, s_block_header_1, s_block_header_2, _) = gen_block_headers_for_denunciation();
    let denunciation: Denunciation = (&s_block_header_1, &s_block_header_2).try_into().unwrap();

    let mut buffer = Vec::new();
    let de_ser = DenunciationSerializer::new();

    de_ser.serialize(&denunciation, &mut buffer).unwrap();
    let de_der = DenunciationDeserializer::new(THREAD_COUNT, ENDORSEMENT_COUNT);

    let (rem, de_der_res) = de_der.deserialize(&buffer).unwrap();

    assert_eq!(rem.is_empty(), true);
    assert_eq!(denunciation, de_der_res);

    let (_, _, s_endorsement_1, s_endorsement_2, _) = gen_endorsements_for_denunciation();
    let denunciation = Denunciation::try_from((&s_endorsement_1, &s_endorsement_2)).unwrap();
    buffer.clear();

    de_ser.serialize(&denunciation, &mut buffer).unwrap();
    let (rem, de_der_res) = de_der.deserialize(&buffer).unwrap();
    assert_eq!(rem.is_empty(), true);
    assert_eq!(denunciation, de_der_res);
}
