//! A slot: a period and a thread.

use vstd::prelude::*;
use vstd::slice::slice_subrange;
use crate::error::DeserializeCause;
use crate::varint::{
    lemma_bounded_round_trip, serialize_varint, varint_encoding, U64VarIntDeserializer,
    UpperBound,
};

verus! {

/// A time slice of the chain: a period and, within it, a thread.
#[derive(Clone, Copy, Debug, PartialEq, Eq, Structural)]
pub struct Slot {
    /// The period.
    pub period: u64,
    /// The thread.
    pub thread: u8,
}

impl Slot {
    /// The slot of `thread` in `period`.
    pub fn new(period: u64, thread: u8) -> (slot: Slot)
        ensures
            slot == (Slot { period, thread }),
    {
        Slot { period, thread }
    }

    /// The bytes of the slot: its period as a variable-length integer, then
    /// its thread.
    pub open spec fn bytes(self) -> Seq<u8> {
        varint_encoding(self.period as nat) + seq![self.thread]
    }
}

/// Writes a slot.
#[derive(Clone, Copy, Debug)]
pub struct SlotSerializer {}

impl SlotSerializer {
    /// A serializer.
    pub fn new() -> SlotSerializer {
        SlotSerializer {  }
    }

    /// Appends the bytes of `slot` to `buffer`.
    pub fn serialize(&self, slot: &Slot, buffer: &mut Vec<u8>)
        ensures
            final(buffer)@ == old(buffer)@ + slot.bytes(),
    {
        let ghost start = buffer@;
        serialize_varint(slot.period, buffer);
        buffer.push(slot.thread);
        assert(buffer@ =~= start + slot.bytes());
    }
}

/// Reads a slot and holds its period and its thread to bounds.
#[derive(Clone, Copy, Debug)]
pub struct SlotDeserializer {
    /// The decoder of the period.
    pub period_deserializer: U64VarIntDeserializer,
    /// The least thread accepted.
    pub thread_min: u8,
    /// The upper end of the threads accepted.
    pub thread_max: UpperBound,
}

impl SlotDeserializer {
    /// A decoder for the slots whose period lies from `period_min` up to
    /// `period_max` and whose thread lies from `thread_min` up to
    /// `thread_max`.
    pub fn new(period_min: u64, period_max: UpperBound, thread_min: u8, thread_max: UpperBound) -> (decoder:
        SlotDeserializer)
        ensures
            decoder.period_deserializer.min == period_min,
            decoder.period_deserializer.max == period_max,
            decoder.thread_min == thread_min,
            decoder.thread_max == thread_max,
    {
        SlotDeserializer {
            period_deserializer: U64VarIntDeserializer::new(period_min, period_max),
            thread_min,
            thread_max,
        }
    }

    /// What the decoder reads at the start of `bytes`: the slot and the
    /// number of bytes that hold it.
    pub open spec fn spec_deserialize(&self, bytes: Seq<u8>) -> Result<(Slot, nat), DeserializeCause> {
        match self.period_deserializer.spec_deserialize(bytes) {
            Ok((period, used)) => if bytes.len() <= used {
                Err(DeserializeCause::UnexpectedEnd)
            } else if self.thread_min <= bytes[used as int] && self.thread_max.admits(
                bytes[used as int] as nat,
            ) {
                Ok((Slot { period: period as u64, thread: bytes[used as int] }, used + 1))
            } else {
                Err(DeserializeCause::OutOfBounds)
            },
            Err(e) => Err(e),
        }
    }

    /// Reads one slot from the start of `buffer`, and returns it with the
    /// bytes that follow it.
    pub fn deserialize<'a>(&self, buffer: &'a [u8]) -> (outcome: Result<
        (&'a [u8], Slot),
        DeserializeCause,
    >)
        ensures
            match self.spec_deserialize(buffer@) {
                Ok((slot, used)) => outcome is Ok && outcome->Ok_0.1 == slot && used
                    <= buffer@.len() && outcome->Ok_0.0@ == buffer@.skip(used as int),
                Err(e) => outcome is Err && outcome->Err_0 == e,
            },
    {
        match self.period_deserializer.deserialize(buffer) {
            Ok((rest, period)) => {
                if rest.len() == 0 {
                    return Err(DeserializeCause::UnexpectedEnd);
                }
                let thread: u8 = rest[0];
                if self.thread_min <= thread && self.thread_max.allows(thread as u64) {
                    let after = slice_subrange(rest, 1, rest.len());
                    proof {
                        let used = self.period_deserializer.spec_deserialize(buffer@)->Ok_0.1;
                        assert(after@ =~= buffer@.skip((used + 1) as int));
                    }
                    Ok((after, Slot { period, thread }))
                } else {
                    Err(DeserializeCause::OutOfBounds)
                }
            },
            Err(e) => Err(e),
        }
    }

    /// The decoder reads back a slot within its bounds from the slot's
    /// bytes, and leaves what follows them.
    pub proof fn lemma_round_trip(&self, slot: Slot, rest: Seq<u8>)
        requires
            self.period_deserializer.min <= slot.period,
            self.period_deserializer.max.admits(slot.period as nat),
            self.thread_min <= slot.thread,
            self.thread_max.admits(slot.thread as nat),
        ensures
            self.spec_deserialize(slot.bytes() + rest) == Ok::<(Slot, nat), DeserializeCause>(
                (slot, slot.bytes().len()),
            ),
            (slot.bytes() + rest).skip(slot.bytes().len() as int) == rest,
    {
        let period = varint_encoding(slot.period as nat);
        let after = seq![slot.thread] + rest;
        assert(slot.bytes() + rest =~= period + after);
        lemma_bounded_round_trip(
            slot.period as nat,
            after,
            u64::MAX as nat,
            self.period_deserializer.min as nat,
            self.period_deserializer.max,
        );
        assert((slot.bytes() + rest).skip(slot.bytes().len() as int) =~= rest);
    }
}

impl SlotDeserializer {
    /// The decoder refuses the bytes of a slot whose period lies within
    /// its bounds and whose thread does not, as out of bounds.
    pub proof fn lemma_thread_refused(&self, slot: Slot, rest: Seq<u8>)
        requires
            self.period_deserializer.min <= slot.period,
            self.period_deserializer.max.admits(slot.period as nat),
            !(self.thread_min <= slot.thread && self.thread_max.admits(slot.thread as nat)),
        ensures
            self.spec_deserialize(slot.bytes() + rest) == Err::<(Slot, nat), DeserializeCause>(
                DeserializeCause::OutOfBounds,
            ),
    {
        let period = varint_encoding(slot.period as nat);
        let after = seq![slot.thread] + rest;
        assert(slot.bytes() + rest =~= period + after);
        lemma_bounded_round_trip(
            slot.period as nat,
            after,
            u64::MAX as nat,
            self.period_deserializer.min as nat,
            self.period_deserializer.max,
        );
    }
}

} // verus!
