//! The records exchanged with the kernel's force-feedback driver, and the
//! rules for building them.

use vstd::prelude::*;

verus! {

/// Input-event type code for force-feedback events (`EV_FF`).
pub const EV_FF: u16 = 0x15;

/// Force-feedback feature bit and effect type code for rumble (`FF_RUMBLE`).
pub const FF_RUMBLE: u16 = 0x50;

/// Number of force-feedback feature codes; the capability bitmask covers
/// bits `0 .. FF_CNT`.
pub const FF_CNT: u16 = 0x80;

/// Number of 64-bit words in a capability bitmask of `FF_CNT` bits.
pub const FF_BITMASK_WORDS: usize = 2;

/// Magnitude driving the strong rumble motor at full strength.
pub const FULL_STRENGTH: u16 = 0xffff;

/// Trigger sub-record of an effect descriptor; unused for rumble and kept
/// zeroed.
#[derive(Clone, Copy, Debug, PartialEq, Eq)]
pub struct Trigger {
    pub interval: u16,
    pub button: u16,
}

/// Replay sub-record of an effect descriptor: how long one vibration lasts
/// and the delay before it repeats, both in milliseconds.
#[derive(Clone, Copy, Debug, PartialEq, Eq)]
pub struct Replay {
    pub length: u16,
    pub delay: u16,
}

/// Rumble payload of an effect descriptor: magnitudes for the strong and
/// weak motor.
#[derive(Clone, Copy, Debug, PartialEq, Eq)]
pub struct Rumble {
    pub strong: u16,
    pub weak: u16,
}

/// Effect descriptor uploaded to the kernel. On upload the descriptor is
/// sent with `id == -1` ("allocate a new effect") and the kernel writes the
/// assigned non-negative id back; every other field is ours.
#[derive(Clone, Copy, Debug, PartialEq, Eq)]
pub struct Effect {
    pub effect_type: u16,
    pub id: i16,
    pub direction: u16,
    pub trigger: Trigger,
    pub replay: Replay,
    pub rumble: Rumble,
}

/// Play-request record written to the device to start playback: an
/// input-event with a zero timestamp, whose code is the uploaded effect id
/// and whose value is the repeat count.
#[derive(Clone, Copy, Debug, PartialEq, Eq)]
pub struct PlayEvent {
    pub event_type: u16,
    pub code: u16,
    pub value: i32,
}

/// The effect descriptor for one rumble session: a new (`id == -1`)
/// max-strength rumble effect playing for `length` ms with `interval` ms
/// between repeats.
pub open spec fn spec_build_effect(length: u16, interval: u16) -> Effect {
    Effect {
        effect_type: FF_RUMBLE,
        id: -1i16,
        direction: 0,
        trigger: Trigger { interval: 0, button: 0 },
        replay: Replay { length: length, delay: interval },
        rumble: Rumble { strong: FULL_STRENGTH, weak: 0 },
    }
}

/// Build the effect descriptor for one rumble session.
pub fn build_effect(length: u16, interval: u16) -> (e: Effect)
    ensures
        e == spec_build_effect(length, interval),
{
    Effect {
        effect_type: FF_RUMBLE,
        id: -1i16,
        direction: 0,
        trigger: Trigger { interval: 0, button: 0 },
        replay: Replay { length: length, delay: interval },
        rumble: Rumble { strong: FULL_STRENGTH, weak: 0 },
    }
}

/// The play request for an uploaded effect: play it `count` times.
pub open spec fn spec_build_play_event(effect_id: i16, count: u16) -> PlayEvent {
    PlayEvent { event_type: EV_FF, code: effect_id as u16, value: count as i32 }
}

/// Build the play request for an uploaded effect.
pub fn build_play_event(effect_id: i16, count: u16) -> (p: PlayEvent)
    requires
        effect_id >= 0,
    ensures
        p == spec_build_play_event(effect_id, count),
{
    PlayEvent { event_type: EV_FF, code: effect_id as u16, value: count as i32 }
}

/// Total playback time of one session in milliseconds:
/// `(length + interval) * count`, as exact integer arithmetic.
pub open spec fn spec_wait_millis(length: u16, interval: u16, count: u16) -> int {
    (length + interval) * count
}

/// How long playback of the whole session takes, in milliseconds.
///
/// Computed in 64-bit arithmetic, where `(length + interval) * count` cannot
/// overflow for any 16-bit inputs, so the result is always the exact
/// mathematical product.
pub fn wait_duration_ms(length: u16, interval: u16, count: u16) -> (d: u64)
    ensures
        d == spec_wait_millis(length, interval, count),
{
    let sum: u64 = length as u64 + interval as u64;
    proof {
        assert(sum * count <= 0x1fffe * 0xffff) by (nonlinear_arith)
            requires
                sum <= 0x1fffe,
                count <= 0xffff,
        ;
    }
    sum * count as u64
}

} // verus!
