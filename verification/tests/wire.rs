use rumble::effect::{build_effect, build_play_event, Effect, PlayEvent, Replay, Rumble, Trigger};
use rumble::wire::{encode_effect, encode_play_event, effect_id_from_bytes, i16_of_u16, u16_of_i16};

#[test]
fn play_event_wire_image() {
    let p = build_play_event(2, 3);
    assert_eq!(p, PlayEvent { event_type: 0x15, code: 2, value: 3 });
    let bytes = encode_play_event(&p);
    let mut expected = vec![0u8; 16];
    expected.extend_from_slice(&[0x15, 0, 2, 0, 3, 0, 0, 0]);
    assert_eq!(bytes, expected);
}

#[test]
fn effect_wire_image() {
    let e = build_effect(100, 50);
    let bytes = encode_effect(&e);
    let mut expected: Vec<u8> = Vec::new();
    expected.extend_from_slice(&[0x50, 0]); // effect type: rumble
    expected.extend_from_slice(&[0xff, 0xff]); // id -1: allocate a new effect
    expected.extend_from_slice(&[0, 0]); // direction
    expected.extend_from_slice(&[0, 0, 0, 0]); // trigger, zeroed
    expected.extend_from_slice(&[100, 0, 50, 0]); // replay length and delay
    expected.extend_from_slice(&[0, 0]); // alignment padding
    expected.extend_from_slice(&[0xff, 0xff, 0, 0]); // rumble strong and weak
    expected.extend_from_slice(&[0u8; 28]); // rest of the payload union
    assert_eq!(bytes, expected);
}

#[test]
fn effect_wire_image_large_fields() {
    let e = Effect {
        effect_type: 0x1234,
        id: 300,
        direction: 0xabcd,
        trigger: Trigger { interval: 0x0102, button: 0x0304 },
        replay: Replay { length: 0xfffe, delay: 0x8000 },
        rumble: Rumble { strong: 0x55aa, weak: 0xaa55 },
    };
    let bytes = encode_effect(&e);
    assert_eq!(bytes.len(), 48);
    assert_eq!(&bytes[0..2], &[0x34, 0x12]);
    assert_eq!(&bytes[2..4], &[44, 1]); // 300 = 0x012c
    assert_eq!(&bytes[4..6], &[0xcd, 0xab]);
    assert_eq!(&bytes[6..10], &[0x02, 0x01, 0x04, 0x03]);
    assert_eq!(&bytes[10..14], &[0xfe, 0xff, 0x00, 0x80]);
    assert_eq!(&bytes[16..20], &[0xaa, 0x55, 0x55, 0xaa]);
}

#[test]
fn kernel_id_write_back_is_read_out() {
    let e = build_effect(100, 50);
    let mut bytes = encode_effect(&e);
    assert_eq!(effect_id_from_bytes(&bytes), -1);
    // The kernel assigns effect id 7 by writing it into the buffer.
    bytes[2] = 7;
    bytes[3] = 0;
    assert_eq!(effect_id_from_bytes(&bytes), 7);
}

#[test]
fn id_image_round_trips() {
    assert_eq!(u16_of_i16(-1), 0xffff);
    assert_eq!(u16_of_i16(0), 0);
    assert_eq!(u16_of_i16(i16::MIN), 0x8000);
    assert_eq!(u16_of_i16(i16::MAX), 0x7fff);
    assert_eq!(i16_of_u16(0xffff), -1);
    assert_eq!(i16_of_u16(0x8000), i16::MIN);
    assert_eq!(i16_of_u16(0x7fff), i16::MAX);
    for x in [i16::MIN, -300, -1, 0, 1, 300, i16::MAX] {
        assert_eq!(i16_of_u16(u16_of_i16(x)), x);
    }
}
