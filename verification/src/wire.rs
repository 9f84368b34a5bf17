//! Wire layout of the records exchanged with the kernel driver.
//!
//! The effect descriptor and the play-request record cross the kernel
//! boundary as fixed-layout little-endian buffers matching the input
//! subsystem's 64-bit ABI: the descriptor is a 48-byte image of
//! `ff_effect` (header, two bytes of alignment padding, then the payload
//! union padded to its full 32-byte size), the play request a 24-byte image
//! of `input_event` with a zero timestamp. The driver loop passes these
//! buffers to the upload ioctl and the device write unchanged, and reads
//! the kernel-assigned effect id back out of the descriptor buffer.

use vstd::prelude::*;

use crate::effect::{Effect, PlayEvent};

verus! {

/// Size in bytes of the effect descriptor's wire image.
pub const EFFECT_BYTES: usize = 48;

/// Size in bytes of the play request's wire image.
pub const PLAY_EVENT_BYTES: usize = 24;

/// Byte offset of the effect id within the effect descriptor's wire image.
pub const EFFECT_ID_OFFSET: usize = 2;

/// The two's-complement 16-bit image of a signed 16-bit value.
pub open spec fn spec_u16_of_i16(x: i16) -> u16 {
    if x >= 0 {
        x as u16
    } else {
        (x + 0x10000) as u16
    }
}

/// The signed 16-bit value whose two's-complement image is `x`.
pub open spec fn spec_i16_of_u16(x: u16) -> i16 {
    if x < 0x8000 {
        x as i16
    } else {
        (x - 0x10000) as i16
    }
}

/// The two's-complement 32-bit image of a signed 32-bit value.
pub open spec fn spec_u32_of_i32(x: i32) -> u32 {
    if x >= 0 {
        x as u32
    } else {
        (x + 0x1_0000_0000) as u32
    }
}

/// A 16-bit value as two little-endian bytes.
pub open spec fn spec_le2(x: u16) -> Seq<u8> {
    seq![(x & 0xff) as u8, ((x >> 8) & 0xff) as u8]
}

/// A 32-bit value as four little-endian bytes.
pub open spec fn spec_le4(x: u32) -> Seq<u8> {
    spec_le2((x & 0xffff) as u16) + spec_le2(((x >> 16) & 0xffff) as u16)
}

/// The 16-bit value stored little-endian at offset `i` of `b`.
pub open spec fn spec_read_le2(b: Seq<u8>, i: int) -> u16 {
    (b[i] as u16) | ((b[i + 1] as u16) << 8)
}

/// The wire image of an effect descriptor: the `ff_effect` header fields in
/// order, two bytes of alignment padding, the rumble magnitudes, and the
/// remainder of the payload union zeroed.
pub open spec fn spec_effect_bytes(e: Effect) -> Seq<u8> {
    spec_le2(e.effect_type) + spec_le2(spec_u16_of_i16(e.id)) + spec_le2(e.direction)
        + spec_le2(e.trigger.interval) + spec_le2(e.trigger.button) + spec_le2(e.replay.length)
        + spec_le2(e.replay.delay) + spec_le2(0) + spec_le2(e.rumble.strong)
        + spec_le2(e.rumble.weak) + Seq::new(28, |i: int| 0u8)
}

/// The wire image of a play request: a zeroed 16-byte timestamp, then the
/// event type, the code and the value, all little-endian.
pub open spec fn spec_play_event_bytes(p: PlayEvent) -> Seq<u8> {
    Seq::new(16, |i: int| 0u8) + spec_le2(p.event_type) + spec_le2(p.code)
        + spec_le4(spec_u32_of_i32(p.value))
}

/// The two's-complement image of a signed 16-bit value.
pub fn u16_of_i16(x: i16) -> (r: u16)
    ensures
        r == spec_u16_of_i16(x),
{
    if x >= 0 {
        x as u16
    } else {
        (x as i32 + 0x10000) as u16
    }
}

/// The signed 16-bit value with a given two's-complement image.
pub fn i16_of_u16(x: u16) -> (r: i16)
    ensures
        r == spec_i16_of_u16(x),
{
    if x < 0x8000 {
        x as i16
    } else {
        (x as i32 - 0x10000) as i16
    }
}

/// Append the two little-endian bytes of `x`.
fn push_le2(v: &mut Vec<u8>, x: u16)
    ensures
        final(v)@ == old(v)@ + spec_le2(x),
{
    proof {
        assert(x & 0xff <= 0xff && (x >> 8) & 0xff <= 0xff) by (bit_vector);
    }
    v.push((x & 0xff) as u8);
    v.push(((x >> 8) & 0xff) as u8);
    proof {
        assert(v@ =~= old(v)@ + spec_le2(x));
    }
}

/// Encode an effect descriptor into its 48-byte wire image.
pub fn encode_effect(e: &Effect) -> (r: Vec<u8>)
    ensures
        r@ == spec_effect_bytes(*e),
        r@.len() == EFFECT_BYTES,
{
    let mut v: Vec<u8> = Vec::new();
    push_le2(&mut v, e.effect_type);
    push_le2(&mut v, u16_of_i16(e.id));
    push_le2(&mut v, e.direction);
    push_le2(&mut v, e.trigger.interval);
    push_le2(&mut v, e.trigger.button);
    push_le2(&mut v, e.replay.length);
    push_le2(&mut v, e.replay.delay);
    push_le2(&mut v, 0);
    push_le2(&mut v, e.rumble.strong);
    push_le2(&mut v, e.rumble.weak);
    let ghost head = v@;
    proof {
        assert(v@ =~= head + Seq::new(0, |i: int| 0u8));
    }
    let mut k: usize = 0;
    while k < 28
        invariant
            k <= 28,
            v@ == head + Seq::new(k as nat, |i: int| 0u8),
        decreases 28 - k,
    {
        v.push(0);
        proof {
            assert(v@ =~= head + Seq::new((k + 1) as nat, |i: int| 0u8));
        }
        k = k + 1;
    }
    proof {
        assert(v@ =~= spec_effect_bytes(*e));
    }
    v
}

/// Encode a play request into its 24-byte wire image.
pub fn encode_play_event(p: &PlayEvent) -> (r: Vec<u8>)
    ensures
        r@ == spec_play_event_bytes(*p),
        r@.len() == PLAY_EVENT_BYTES,
{
    let mut v: Vec<u8> = Vec::new();
    proof {
        assert(v@ =~= Seq::new(0, |i: int| 0u8));
    }
    let mut k: usize = 0;
    while k < 16
        invariant
            k <= 16,
            v@ == Seq::new(k as nat, |i: int| 0u8),
        decreases 16 - k,
    {
        v.push(0);
        proof {
            assert(v@ =~= Seq::new((k + 1) as nat, |i: int| 0u8));
        }
        k = k + 1;
    }
    push_le2(&mut v, p.event_type);
    push_le2(&mut v, p.code);
    let w: u32 = if p.value >= 0 {
        p.value as u32
    } else {
        (p.value as i64 + 0x1_0000_0000) as u32
    };
    proof {
        assert(w == spec_u32_of_i32(p.value));
        assert(w & 0xffff <= 0xffff && (w >> 16) & 0xffff <= 0xffff) by (bit_vector);
    }
    push_le2(&mut v, (w & 0xffff) as u16);
    push_le2(&mut v, ((w >> 16) & 0xffff) as u16);
    proof {
        assert(v@ =~= spec_play_event_bytes(*p));
    }
    v
}

/// Read the kernel-assigned effect id back out of an uploaded descriptor's
/// wire image.
pub fn effect_id_from_bytes(b: &Vec<u8>) -> (r: i16)
    requires
        b@.len() >= EFFECT_ID_OFFSET + 2,
    ensures
        r == spec_i16_of_u16(spec_read_le2(b@, EFFECT_ID_OFFSET as int)),
{
    let lo = b[EFFECT_ID_OFFSET];
    let hi = b[EFFECT_ID_OFFSET + 1];
    let raw: u16 = lo as u16 | ((hi as u16) << 8);
    i16_of_u16(raw)
}

/// Reading a 16-bit field back from where its little-endian bytes were laid
/// down yields the field unchanged.
proof fn lemma_read_le2_of_le2(b: Seq<u8>, x: u16, i: int)
    requires
        0 <= i,
        i + 1 < b.len(),
        b[i] == spec_le2(x)[0],
        b[i + 1] == spec_le2(x)[1],
    ensures
        spec_read_le2(b, i) == x,
{
    assert(((x & 0xff) as u8) as u16 | (((((x >> 8) & 0xff) as u8) as u16) << 8) == x)
        by (bit_vector);
}

/// The two's-complement 16-bit image is lossless: decoding it yields the
/// original signed value.
pub proof fn lemma_i16_image_round_trip(x: i16)
    ensures
        spec_i16_of_u16(spec_u16_of_i16(x)) == x,
{
}

/// The descriptor's wire image carries every field bit for bit: each field
/// of the encoded descriptor can be read back from the buffer unchanged.
pub proof fn lemma_effect_bytes_round_trip(e: Effect)
    ensures
        spec_read_le2(spec_effect_bytes(e), 0) == e.effect_type,
        spec_i16_of_u16(spec_read_le2(spec_effect_bytes(e), EFFECT_ID_OFFSET as int)) == e.id,
        spec_read_le2(spec_effect_bytes(e), 4) == e.direction,
        spec_read_le2(spec_effect_bytes(e), 6) == e.trigger.interval,
        spec_read_le2(spec_effect_bytes(e), 8) == e.trigger.button,
        spec_read_le2(spec_effect_bytes(e), 10) == e.replay.length,
        spec_read_le2(spec_effect_bytes(e), 12) == e.replay.delay,
        spec_read_le2(spec_effect_bytes(e), 16) == e.rumble.strong,
        spec_read_le2(spec_effect_bytes(e), 18) == e.rumble.weak,
{
    let b = spec_effect_bytes(e);
    assert(b[0] == spec_le2(e.effect_type)[0] && b[1] == spec_le2(e.effect_type)[1]);
    lemma_read_le2_of_le2(b, e.effect_type, 0);
    assert(b[2] == spec_le2(spec_u16_of_i16(e.id))[0] && b[3] == spec_le2(
        spec_u16_of_i16(e.id),
    )[1]);
    lemma_read_le2_of_le2(b, spec_u16_of_i16(e.id), 2);
    lemma_i16_image_round_trip(e.id);
    assert(b[4] == spec_le2(e.direction)[0] && b[5] == spec_le2(e.direction)[1]);
    lemma_read_le2_of_le2(b, e.direction, 4);
    assert(b[6] == spec_le2(e.trigger.interval)[0] && b[7] == spec_le2(e.trigger.interval)[1]);
    lemma_read_le2_of_le2(b, e.trigger.interval, 6);
    assert(b[8] == spec_le2(e.trigger.button)[0] && b[9] == spec_le2(e.trigger.button)[1]);
    lemma_read_le2_of_le2(b, e.trigger.button, 8);
    assert(b[10] == spec_le2(e.replay.length)[0] && b[11] == spec_le2(e.replay.length)[1]);
    lemma_read_le2_of_le2(b, e.replay.length, 10);
    assert(b[12] == spec_le2(e.replay.delay)[0] && b[13] == spec_le2(e.replay.delay)[1]);
    lemma_read_le2_of_le2(b, e.replay.delay, 12);
    assert(b[16] == spec_le2(e.rumble.strong)[0] && b[17] == spec_le2(e.rumble.strong)[1]);
    lemma_read_le2_of_le2(b, e.rumble.strong, 16);
    assert(b[18] == spec_le2(e.rumble.weak)[0] && b[19] == spec_le2(e.rumble.weak)[1]);
    lemma_read_le2_of_le2(b, e.rumble.weak, 18);
}

} // verus!
