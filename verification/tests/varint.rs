use denunciation::error::DeserializeCause;
use denunciation::slot::{Slot, SlotDeserializer, SlotSerializer};
use denunciation::varint::{
    deserialize_varint, serialize_varint, U32VarIntDeserializer, U32VarIntSerializer,
    U64VarIntDeserializer, U64VarIntSerializer, UpperBound,
};

fn encoded(value: u64) -> Vec<u8> {
    let mut buffer = Vec::new();
    serialize_varint(value, &mut buffer);
    buffer
}

#[test]
fn varint_encodes_one_byte_values() {
    assert_eq!(encoded(0), vec![0x00]);
    assert_eq!(encoded(1), vec![0x01]);
    assert_eq!(encoded(127), vec![0x7f]);
}

#[test]
fn varint_encodes_longer_values() {
    assert_eq!(encoded(128), vec![0x80, 0x01]);
    assert_eq!(encoded(300), vec![0xac, 0x02]);
    assert_eq!(encoded(16384), vec![0x80, 0x80, 0x01]);
    assert_eq!(encoded(u32::MAX as u64), vec![0xff, 0xff, 0xff, 0xff, 0x0f]);
    assert_eq!(
        encoded(u64::MAX),
        vec![0xff, 0xff, 0xff, 0xff, 0xff, 0xff, 0xff, 0xff, 0xff, 0x01]
    );
}

#[test]
fn varint_appends_after_what_is_there() {
    let mut buffer = vec![9, 9];
    serialize_varint(300, &mut buffer);
    assert_eq!(buffer, vec![9, 9, 0xac, 0x02]);
    U32VarIntSerializer::new().serialize(5, &mut buffer);
    U64VarIntSerializer::new().serialize(128, &mut buffer);
    assert_eq!(buffer, vec![9, 9, 0xac, 0x02, 5, 0x80, 0x01]);
}

#[test]
fn varint_decodes_and_counts_bytes() {
    assert_eq!(deserialize_varint(&[0x00], u64::MAX), Some((0, 1)));
    assert_eq!(deserialize_varint(&[0xac, 0x02, 0x55], u64::MAX), Some((300, 2)));
    assert_eq!(
        deserialize_varint(&[0xff, 0xff, 0xff, 0xff, 0x0f], u32::MAX as u64),
        Some((u32::MAX as u64, 5))
    );
    assert_eq!(
        deserialize_varint(
            &[0xff, 0xff, 0xff, 0xff, 0xff, 0xff, 0xff, 0xff, 0xff, 0x01, 0x07],
            u64::MAX
        ),
        Some((u64::MAX, 10))
    );
}

#[test]
fn varint_refuses_what_ends_early() {
    assert_eq!(deserialize_varint(&[], u64::MAX), None);
    assert_eq!(deserialize_varint(&[0x80], u64::MAX), None);
    assert_eq!(deserialize_varint(&[0xff, 0xff, 0xff], u64::MAX), None);
}

#[test]
fn varint_refuses_padding() {
    assert_eq!(deserialize_varint(&[0x80, 0x00], u64::MAX), None);
    assert_eq!(deserialize_varint(&[0xac, 0x82, 0x00], u64::MAX), None);
}

#[test]
fn varint_refuses_what_does_not_fit() {
    // 2^32 as a u32
    assert_eq!(
        deserialize_varint(&[0x80, 0x80, 0x80, 0x80, 0x10], u32::MAX as u64),
        None
    );
    // 2^64 as a u64
    assert_eq!(
        deserialize_varint(
            &[0x80, 0x80, 0x80, 0x80, 0x80, 0x80, 0x80, 0x80, 0x80, 0x02],
            u64::MAX
        ),
        None
    );
    // eleven bytes
    assert_eq!(
        deserialize_varint(
            &[0x80, 0x80, 0x80, 0x80, 0x80, 0x80, 0x80, 0x80, 0x80, 0x80, 0x01],
            u64::MAX
        ),
        None
    );
}

#[test]
fn varint_round_trips() {
    let values: [u64; 12] = [
        0,
        1,
        127,
        128,
        255,
        256,
        16383,
        16384,
        u32::MAX as u64,
        u32::MAX as u64 + 1,
        u64::MAX - 1,
        u64::MAX,
    ];
    for value in values {
        let mut buffer = encoded(value);
        let used = buffer.len();
        buffer.push(0xee);
        assert_eq!(deserialize_varint(&buffer, u64::MAX), Some((value, used)));
    }
}

#[test]
fn upper_bound_is_inclusive_or_exclusive() {
    assert!(UpperBound::Included(16).allows(16));
    assert!(!UpperBound::Included(16).allows(17));
    assert!(UpperBound::Excluded(16).allows(15));
    assert!(!UpperBound::Excluded(16).allows(16));
    assert!(!UpperBound::Excluded(0).allows(0));
}

#[test]
fn u32_decoder_holds_values_to_its_bounds() {
    let decoder = U32VarIntDeserializer::new(5, UpperBound::Excluded(16));
    assert_eq!(decoder.deserialize(&[15, 1, 2]), Ok((&[1u8, 2u8][..], 15)));
    assert_eq!(decoder.deserialize(&[5]), Ok((&[][..], 5)));
    assert_eq!(decoder.deserialize(&[16]), Err(DeserializeCause::OutOfBounds));
    assert_eq!(decoder.deserialize(&[4]), Err(DeserializeCause::OutOfBounds));
    assert_eq!(decoder.deserialize(&[]), Err(DeserializeCause::Malformed));
    assert_eq!(decoder.deserialize(&[0x80, 0x00]), Err(DeserializeCause::Malformed));
    let inclusive = U32VarIntDeserializer::new(0, UpperBound::Included(16));
    assert_eq!(inclusive.deserialize(&[16]), Ok((&[][..], 16)));
    assert_eq!(inclusive.deserialize(&[17]), Err(DeserializeCause::OutOfBounds));
    let wide = U32VarIntDeserializer::new(0, UpperBound::Included(u64::MAX));
    assert_eq!(
        wide.deserialize(&[0x80, 0x80, 0x80, 0x80, 0x10]),
        Err(DeserializeCause::Malformed)
    );
}

#[test]
fn u64_decoder_holds_values_to_its_bounds() {
    let decoder = U64VarIntDeserializer::new(0, UpperBound::Included(u64::MAX));
    assert_eq!(
        decoder.deserialize(&[0xff, 0xff, 0xff, 0xff, 0xff, 0xff, 0xff, 0xff, 0xff, 0x01, 3]),
        Ok((&[3u8][..], u64::MAX))
    );
    let narrow = U64VarIntDeserializer::new(300, UpperBound::Excluded(301));
    assert_eq!(narrow.deserialize(&[0xac, 0x02]), Ok((&[][..], 300)));
    assert_eq!(narrow.deserialize(&[0xad, 0x02]), Err(DeserializeCause::OutOfBounds));
    assert_eq!(narrow.deserialize(&[0xab, 0x02]), Err(DeserializeCause::OutOfBounds));
    assert_eq!(narrow.deserialize(&[0xac]), Err(DeserializeCause::Malformed));
}

#[test]
fn slot_is_period_then_thread() {
    let mut buffer = Vec::new();
    SlotSerializer::new().serialize(&Slot::new(3, 7), &mut buffer);
    assert_eq!(buffer, vec![3, 7]);
    SlotSerializer::new().serialize(&Slot::new(300, 31), &mut buffer);
    assert_eq!(buffer, vec![3, 7, 0xac, 0x02, 31]);
}

#[test]
fn slot_decoder_holds_the_thread_to_its_bounds() {
    let decoder = SlotDeserializer::new(
        0,
        UpperBound::Included(u64::MAX),
        0,
        UpperBound::Excluded(32),
    );
    assert_eq!(
        decoder.deserialize(&[0xac, 0x02, 31, 8]),
        Ok((&[8u8][..], Slot::new(300, 31)))
    );
    assert_eq!(decoder.deserialize(&[3, 32]), Err(DeserializeCause::OutOfBounds));
    assert_eq!(decoder.deserialize(&[3]), Err(DeserializeCause::UnexpectedEnd));
    assert_eq!(decoder.deserialize(&[0x80]), Err(DeserializeCause::Malformed));
    assert_eq!(decoder.deserialize(&[]), Err(DeserializeCause::Malformed));
    let late = SlotDeserializer::new(10, UpperBound::Included(20), 2, UpperBound::Included(4));
    assert_eq!(late.deserialize(&[9, 3]), Err(DeserializeCause::OutOfBounds));
    assert_eq!(late.deserialize(&[10, 1]), Err(DeserializeCause::OutOfBounds));
    assert_eq!(late.deserialize(&[20, 4]), Ok((&[][..], Slot::new(20, 4))));
    assert_eq!(late.deserialize(&[21, 4]), Err(DeserializeCause::OutOfBounds));
}
