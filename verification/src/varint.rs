//! Unsigned variable-length integers: groups of seven bits, least significant
//! group first, the top bit of a byte telling that another byte follows.

use vstd::prelude::*;
use vstd::slice::slice_subrange;
use crate::error::DeserializeCause;

verus! {

/// The most bytes that the encoding of a `u64` takes.
pub const MAX_VARINT_BYTES: usize = 10;

/// The bytes that encode `value`.
pub open spec fn varint_encoding(value: nat) -> Seq<u8>
    decreases value,
{
    if value < 128 {
        seq![value as u8]
    } else {
        seq![(128 + value % 128) as u8] + varint_encoding(value / 128)
    }
}

/// The value that the start of `bytes` encodes and the number of bytes that
/// encode it, or `None` where `bytes` ends inside an integer or pads one with
/// a zero group at its top.
pub open spec fn varint_decoding(bytes: Seq<u8>) -> Option<(nat, nat)>
    decreases bytes.len(),
{
    if bytes.len() == 0 {
        None
    } else if bytes[0] < 128 {
        Some((bytes[0] as nat, 1nat))
    } else {
        match varint_decoding(bytes.skip(1)) {
            Some((high, used)) => if high == 0 {
                None
            } else {
                Some((((bytes[0] - 128) + 128 * high) as nat, used + 1))
            },
            None => None,
        }
    }
}

/// What a decoder that accepts values up to `max` reads at the start of
/// `bytes`.
pub open spec fn varint_decoding_up_to(bytes: Seq<u8>, max: nat) -> Option<(nat, nat)> {
    match varint_decoding(bytes) {
        Some((value, used)) => if value <= max {
            Some((value, used))
        } else {
            None
        },
        None => None,
    }
}

/// 128 to the power `k`.
pub open spec fn pow128(k: nat) -> nat
    decreases k,
{
    if k == 0 {
        1
    } else {
        128 * pow128((k - 1) as nat)
    }
}

/// An encoding is never empty, and a value below `128^k` takes at most `k`
/// bytes.
pub proof fn lemma_encoding_len(value: nat, k: nat)
    requires
        k >= 1,
        value < pow128(k),
    ensures
        1 <= varint_encoding(value).len() <= k,
    decreases value,
{
    if value >= 128 {
        assert(pow128(k) == 128 * pow128((k - 1) as nat));
        if k == 1 {
            assert(pow128(0) == 1);
        }
        lemma_encoding_len(value / 128, (k - 1) as nat);
    }
}

/// The encoding of a `u64` takes from one to `MAX_VARINT_BYTES` bytes.
pub proof fn lemma_encoding_fits(value: u64)
    ensures
        1 <= varint_encoding(value as nat).len() <= MAX_VARINT_BYTES,
{
    reveal_with_fuel(pow128, 11);
    lemma_encoding_len(value as nat, 10);
}

/// Decoding reads back what encoding wrote, whatever follows it.
pub proof fn lemma_decode_encode(value: nat, rest: Seq<u8>)
    ensures
        varint_decoding(varint_encoding(value) + rest) == Some(
            (value, varint_encoding(value).len()),
        ),
    decreases value,
{
    let bytes = varint_encoding(value) + rest;
    if value >= 128 {
        let tail = varint_encoding(value / 128);
        assert(bytes.skip(1) =~= tail + rest);
        assert(bytes[0] == (128 + value % 128) as u8);
        lemma_decode_encode(value / 128, rest);
    } else {
        assert(bytes[0] == value as u8);
    }
}

/// What decoding accepts is the encoding of the value it returns: no value
/// has two encodings.
pub proof fn lemma_encode_decode(bytes: Seq<u8>)
    ensures
        match varint_decoding(bytes) {
            Some((value, used)) => 1 <= used <= bytes.len() && bytes.take(used as int)
                == varint_encoding(value),
            None => true,
        },
    decreases bytes.len(),
{
    if bytes.len() > 0 && bytes[0] >= 128 {
        lemma_encode_decode(bytes.skip(1));
        match varint_decoding(bytes.skip(1)) {
            Some((high, used)) => {
                if high != 0 {
                    let value = ((bytes[0] - 128) + 128 * high) as nat;
                    assert(value / 128 == high);
                    assert(value % 128 == bytes[0] - 128);
                    assert(bytes.take((used + 1) as int) =~= seq![bytes[0]] + bytes.skip(1).take(
                        used as int,
                    ));
                }
            },
            None => {},
        }
    } else if bytes.len() > 0 {
        assert(bytes.take(1) =~= seq![bytes[0]]);
    }
}

/// Where the first `k` bytes all announce a successor, a decoded value is at
/// least `128^k`.
proof fn lemma_continued_is_large(bytes: Seq<u8>, k: nat)
    requires
        k <= bytes.len(),
        forall|i: int| 0 <= i < k ==> bytes[i] >= 128,
    ensures
        match varint_decoding(bytes) {
            Some((value, used)) => (k > 0 ==> value >= pow128(k)) && used > k,
            None => true,
        },
    decreases k,
{
    if k > 0 {
        let tail = bytes.skip(1);
        assert forall|i: int| 0 <= i < k - 1 implies tail[i] >= 128 by {
            assert(tail[i] == bytes[i + 1]);
        }
        lemma_continued_is_large(tail, (k - 1) as nat);
        match varint_decoding(tail) {
            Some((high, used)) => {
                if high != 0 && k > 1 {
                    assert(128 * high >= 128 * pow128((k - 1) as nat)) by (nonlinear_arith)
                        requires
                            high >= pow128((k - 1) as nat),
                    ;
                }
                assert(pow128(1) == 128 * pow128(0));
            },
            None => {},
        }
    } else {
        lemma_encode_decode(bytes);
    }
}

/// Where the first `k` bytes all announce a successor and what follows them
/// decodes to nothing, or to a value over `max`, the whole does too.
proof fn lemma_prefix_keeps_failure(bytes: Seq<u8>, k: nat, max: nat)
    requires
        k <= bytes.len(),
        forall|i: int| 0 <= i < k ==> bytes[i] >= 128,
        varint_decoding_up_to(bytes.skip(k as int), max) is None,
    ensures
        varint_decoding_up_to(bytes, max) is None,
    decreases k,
{
    if k > 0 {
        let tail = bytes.skip(1);
        assert forall|i: int| 0 <= i < k - 1 implies tail[i] >= 128 by {
            assert(tail[i] == bytes[i + 1]);
        }
        assert(tail.skip(k - 1) =~= bytes.skip(k as int));
        lemma_prefix_keeps_failure(tail, (k - 1) as nat, max);
    } else {
        assert(bytes.skip(0) =~= bytes);
    }
}

/// Appends the encoding of `value` to `buffer`.
pub fn serialize_varint(value: u64, buffer: &mut Vec<u8>)
    ensures
        final(buffer)@ == old(buffer)@ + varint_encoding(value as nat),
{
    let ghost start = buffer@;
    let mut rest: u64 = value;
    while rest >= 128
        invariant
            start + varint_encoding(value as nat) == buffer@ + varint_encoding(rest as nat),
        decreases rest,
    {
        let ghost before = buffer@;
        let group: u8 = (rest % 128) as u8;
        buffer.push(group + 128);
        assert(before + varint_encoding(rest as nat) =~= buffer@ + varint_encoding(
            (rest / 128) as nat,
        ));
        rest = rest / 128;
    }
    let ghost before = buffer@;
    buffer.push(rest as u8);
    assert(before + varint_encoding(rest as nat) =~= buffer@);
}

/// Reads one integer of at most `max` from the start of `buffer`, and returns
/// it with the number of bytes read.
pub fn deserialize_varint(buffer: &[u8], max: u64) -> (outcome: Option<(u64, usize)>)
    ensures
        match outcome {
            Some((value, used)) => varint_decoding_up_to(buffer@, max as nat) == Some(
                (value as nat, used as nat),
            ) && 1 <= used <= buffer.len() && used <= MAX_VARINT_BYTES,
            None => varint_decoding_up_to(buffer@, max as nat) is None,
        },
{
    // the position of the byte that ends the integer
    let mut last: usize = 0;
    while last < buffer.len() && last < MAX_VARINT_BYTES && buffer[last] >= 128
        invariant
            last <= buffer.len(),
            last <= MAX_VARINT_BYTES,
            forall|i: int| 0 <= i < last ==> buffer@[i] >= 128,
        decreases buffer.len() - last,
    {
        last += 1;
    }
    if last == buffer.len() {
        proof {
            assert(varint_decoding(buffer@.skip(last as int)) is None);
            lemma_prefix_keeps_failure(buffer@, last as nat, max as nat);
        }
        return None;
    }
    if last == MAX_VARINT_BYTES {
        proof {
            lemma_continued_is_large(buffer@, 10);
            reveal_with_fuel(pow128, 11);
            assert(pow128(10) > u64::MAX);
        }
        return None;
    }
    if last > 0 && buffer[last] == 0 {
        proof {
            let at_last = buffer@.skip(last as int);
            let before = buffer@.skip(last - 1);
            assert(at_last[0] == 0);
            assert(before.skip(1) =~= at_last);
            assert(before[0] == buffer@[last - 1]);
            assert(varint_decoding(before) is None);
            lemma_prefix_keeps_failure(buffer@, (last - 1) as nat, max as nat);
        }
        return None;
    }
    let mut value: u64 = buffer[last] as u64;
    if value > max {
        proof {
            assert(buffer@.skip(last as int)[0] == buffer@[last as int]);
            lemma_prefix_keeps_failure(buffer@, last as nat, max as nat);
        }
        return None;
    }
    let mut at: usize = last;
    proof {
        assert(buffer@.skip(last as int)[0] == buffer@[last as int]);
    }
    while at > 0
        invariant
            at <= last < buffer.len(),
            last < MAX_VARINT_BYTES,
            forall|i: int| 0 <= i < last ==> buffer@[i] >= 128,
            value <= max,
            last > 0 ==> value > 0,
            varint_decoding(buffer@.skip(at as int)) == Some(
                (value as nat, (last + 1 - at) as nat),
            ),
        decreases at,
    {
        let group: u64 = (buffer[at - 1] - 128) as u64;
        proof {
            let here = buffer@.skip(at - 1);
            assert(here.skip(1) =~= buffer@.skip(at as int));
            assert(here[0] == buffer@[at - 1]);
        }
        if max < group || value > (max - group) / 128 {
            proof {
                lemma_prefix_keeps_failure(buffer@, (at - 1) as nat, max as nat);
            }
            return None;
        }
        value = group + 128 * value;
        at -= 1;
    }
    proof {
        assert(buffer@.skip(0) =~= buffer@);
    }
    Some((value, last + 1))
}

/// The upper end of the values that a decoder accepts.
#[derive(Clone, Copy, Debug, PartialEq, Eq, Structural)]
pub enum UpperBound {
    /// Values up to and including this one.
    Included(u64),
    /// Values below this one.
    Excluded(u64),
}

impl UpperBound {
    /// Whether `value` lies under the bound.
    pub open spec fn admits(self, value: nat) -> bool {
        match self {
            UpperBound::Included(most) => value <= most,
            UpperBound::Excluded(limit) => value < limit,
        }
    }

    /// Whether `value` lies under the bound.
    pub fn allows(&self, value: u64) -> (ok: bool)
        ensures
            ok == self.admits(value as nat),
    {
        match self {
            UpperBound::Included(most) => value <= *most,
            UpperBound::Excluded(limit) => value < *limit,
        }
    }
}

/// Writes a `u32` as a variable-length integer.
#[derive(Clone, Copy, Debug)]
pub struct U32VarIntSerializer {}

impl U32VarIntSerializer {
    /// A serializer.
    pub fn new() -> U32VarIntSerializer {
        U32VarIntSerializer {  }
    }

    /// Appends the encoding of `value` to `buffer`.
    pub fn serialize(&self, value: u32, buffer: &mut Vec<u8>)
        ensures
            final(buffer)@ == old(buffer)@ + varint_encoding(value as nat),
    {
        serialize_varint(value as u64, buffer)
    }
}

/// Writes a `u64` as a variable-length integer.
#[derive(Clone, Copy, Debug)]
pub struct U64VarIntSerializer {}

impl U64VarIntSerializer {
    /// A serializer.
    pub fn new() -> U64VarIntSerializer {
        U64VarIntSerializer {  }
    }

    /// Appends the encoding of `value` to `buffer`.
    pub fn serialize(&self, value: u64, buffer: &mut Vec<u8>)
        ensures
            final(buffer)@ == old(buffer)@ + varint_encoding(value as nat),
    {
        serialize_varint(value, buffer)
    }
}

/// What a bounded decoder reads at the start of `bytes`: the value and the
/// number of bytes that hold it. `type_max` is the largest value of the
/// integer type, `min` and `max` are the decoder's own bounds.
pub open spec fn bounded_varint(bytes: Seq<u8>, type_max: nat, min: nat, max: UpperBound) -> Result<
    (nat, nat),
    DeserializeCause,
> {
    match varint_decoding_up_to(bytes, type_max) {
        Some((value, used)) => if min <= value && max.admits(value) {
            Ok((value, used))
        } else {
            Err(DeserializeCause::OutOfBounds)
        },
        None => Err(DeserializeCause::Malformed),
    }
}

/// Reads a `u32` written as a variable-length integer and holds it to
/// bounds.
#[derive(Clone, Copy, Debug)]
pub struct U32VarIntDeserializer {
    /// The least value accepted.
    pub min: u32,
    /// The upper end of the values accepted.
    pub max: UpperBound,
}

impl U32VarIntDeserializer {
    /// A decoder for the values from `min` up to `max`.
    pub fn new(min: u32, max: UpperBound) -> (decoder: U32VarIntDeserializer)
        ensures
            decoder.min == min,
            decoder.max == max,
    {
        U32VarIntDeserializer { min, max }
    }

    /// What the decoder reads at the start of `bytes`.
    pub open spec fn spec_deserialize(&self, bytes: Seq<u8>) -> Result<(nat, nat), DeserializeCause> {
        bounded_varint(bytes, u32::MAX as nat, self.min as nat, self.max)
    }

    /// Reads one value from the start of `buffer`, and returns it with the
    /// bytes that follow it.
    pub fn deserialize<'a>(&self, buffer: &'a [u8]) -> (outcome: Result<
        (&'a [u8], u32),
        DeserializeCause,
    >)
        ensures
            match self.spec_deserialize(buffer@) {
                Ok((value, used)) => outcome is Ok && outcome->Ok_0.1 == value && used
                    <= buffer@.len() && outcome->Ok_0.0@ == buffer@.skip(used as int),
                Err(e) => outcome is Err && outcome->Err_0 == e,
            },
    {
        match deserialize_varint(buffer, u32::MAX as u64) {
            Some((value, used)) => {
                if self.min as u64 <= value && self.max.allows(value) {
                    Ok((slice_subrange(buffer, used, buffer.len()), value as u32))
                } else {
                    Err(DeserializeCause::OutOfBounds)
                }
            },
            None => Err(DeserializeCause::Malformed),
        }
    }
}

/// Reads a `u64` written as a variable-length integer and holds it to
/// bounds.
#[derive(Clone, Copy, Debug)]
pub struct U64VarIntDeserializer {
    /// The least value accepted.
    pub min: u64,
    /// The upper end of the values accepted.
    pub max: UpperBound,
}

impl U64VarIntDeserializer {
    /// A decoder for the values from `min` up to `max`.
    pub fn new(min: u64, max: UpperBound) -> (decoder: U64VarIntDeserializer)
        ensures
            decoder.min == min,
            decoder.max == max,
    {
        U64VarIntDeserializer { min, max }
    }

    /// What the decoder reads at the start of `bytes`.
    pub open spec fn spec_deserialize(&self, bytes: Seq<u8>) -> Result<(nat, nat), DeserializeCause> {
        bounded_varint(bytes, u64::MAX as nat, self.min as nat, self.max)
    }

    /// Reads one value from the start of `buffer`, and returns it with the
    /// bytes that follow it.
    pub fn deserialize<'a>(&self, buffer: &'a [u8]) -> (outcome: Result<
        (&'a [u8], u64),
        DeserializeCause,
    >)
        ensures
            match self.spec_deserialize(buffer@) {
                Ok((value, used)) => outcome is Ok && outcome->Ok_0.1 == value && used
                    <= buffer@.len() && outcome->Ok_0.0@ == buffer@.skip(used as int),
                Err(e) => outcome is Err && outcome->Err_0 == e,
            },
    {
        match deserialize_varint(buffer, u64::MAX) {
            Some((value, used)) => {
                if self.min <= value && self.max.allows(value) {
                    Ok((slice_subrange(buffer, used, buffer.len()), value))
                } else {
                    Err(DeserializeCause::OutOfBounds)
                }
            },
            None => Err(DeserializeCause::Malformed),
        }
    }
}

/// A bounded decoder reads back a value within its bounds from the value's
/// encoding, and leaves what follows it.
pub proof fn lemma_bounded_round_trip(
    value: nat,
    rest: Seq<u8>,
    type_max: nat,
    min: nat,
    max: UpperBound,
)
    requires
        value <= type_max,
        min <= value,
        max.admits(value),
    ensures
        bounded_varint(varint_encoding(value) + rest, type_max, min, max) == Ok::<
            (nat, nat),
            DeserializeCause,
        >((value, varint_encoding(value).len())),
        (varint_encoding(value) + rest).skip(varint_encoding(value).len() as int) == rest,
{
    lemma_decode_encode(value, rest);
    assert((varint_encoding(value) + rest).skip(varint_encoding(value).len() as int) =~= rest);
}

} // verus!
