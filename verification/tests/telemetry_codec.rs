use robot_car::telemetry::{assemble, byte_kind, ByteKind, TelemetryFrame};

fn frame(left_boundary: bool, right_boundary: bool, distance_cm: u16) -> TelemetryFrame {
    TelemetryFrame { left_boundary, right_boundary, distance_cm }
}

#[test]
fn assemble_puts_the_first_byte_high() {
    assert_eq!(assemble(0x12, 0x34), 0x1234);
    assert_eq!(assemble(0x00, 0xff), 0x00ff);
    assert_eq!(assemble(0xff, 0x00), 0xff00);
    assert_eq!(assemble(0x80, 0x01), u16::from_be_bytes([0x80, 0x01]));
}

#[test]
fn byte_kind_reads_the_lowest_bit() {
    assert_eq!(byte_kind(0b0000_0000), ByteKind::First);
    assert_eq!(byte_kind(0b1111_1110), ByteKind::First);
    assert_eq!(byte_kind(0b0000_0001), ByteKind::Second);
    assert_eq!(byte_kind(0b1111_1111), ByteKind::Second);
}

#[test]
fn initial_frame_is_all_clear() {
    assert_eq!(TelemetryFrame::new(), frame(false, false, 0));
    assert_eq!(TelemetryFrame::new(), TelemetryFrame::from_word(0));
}

#[test]
fn left_flag_is_bit_15() {
    assert_eq!(TelemetryFrame::from_word(0b1000_0000_0000_0000), frame(true, false, 0));
    let decoded = TelemetryFrame::from_word(0b1001_0010_0011_0101);
    assert!(decoded.left_boundary);
    assert!(!decoded.right_boundary);
}

#[test]
fn right_flag_is_bit_14() {
    assert_eq!(TelemetryFrame::from_word(0b0100_0000_0000_0000), frame(false, true, 0));
    let decoded = TelemetryFrame::from_word(0b0101_0010_0011_0101);
    assert!(!decoded.left_boundary);
    assert!(decoded.right_boundary);
}

#[test]
fn both_flags_and_neither() {
    assert_eq!(TelemetryFrame::from_word(0b1100_0000_0000_0000), frame(true, true, 0));
    assert_eq!(TelemetryFrame::from_word(0b0011_1111_1111_1111), frame(false, false, 1007));
}

#[test]
fn flags_follow_their_bits_for_every_word() {
    for word in 0..=u16::MAX {
        let decoded = TelemetryFrame::from_word(word);
        assert_eq!(decoded.left_boundary, word & (1 << 15) != 0);
        assert_eq!(decoded.right_boundary, word & (1 << 14) != 0);
    }
}

#[test]
fn distance_of_the_sample_word() {
    let word = 0b11_0001_0101_0000;
    let high5 = 0b1_0001;
    let low4 = 0b0101;
    assert_eq!(TelemetryFrame::from_word(word), frame(false, false, (high5 << 5) | low4));
    assert_eq!(TelemetryFrame::from_word(word).distance_cm, 549);
}

#[test]
fn distance_at_the_nibble_boundaries_of_the_word() {
    assert_eq!(TelemetryFrame::from_word(0).distance_cm, 0);
    assert_eq!(TelemetryFrame::from_word(15).distance_cm, 0);
    assert_eq!(TelemetryFrame::from_word(16).distance_cm, 1);
    assert_eq!(TelemetryFrame::from_word(255).distance_cm, 15);
    assert_eq!(TelemetryFrame::from_word(256).distance_cm, 32);
    assert_eq!(TelemetryFrame::from_word(511).distance_cm, 47);
    assert_eq!(TelemetryFrame::from_word(0x1fff).distance_cm, 1007);
    assert_eq!(TelemetryFrame::from_word(0x2000).distance_cm, 0);
}

#[test]
fn distance_is_high_bits_joined_with_low_bits_for_every_word() {
    for word in 0..=u16::MAX {
        let high5 = (word >> 8) & 0b1_1111;
        let low4 = (word >> 4) & 0b1111;
        assert_eq!(TelemetryFrame::from_word(word).distance_cm, (high5 << 5) | low4);
    }
}

#[test]
fn distances_with_bit_4_set_never_occur() {
    for word in 0..=u16::MAX {
        let distance = TelemetryFrame::from_word(word).distance_cm;
        assert!(distance <= 1007);
        assert_eq!(distance & 0b1_0000, 0);
        assert_ne!(distance, 16);
        assert_ne!(distance, 511);
    }
}

#[test]
fn unused_bits_do_not_change_the_reading() {
    let base = 0b1001_0010_0011_0000;
    let expected = TelemetryFrame::from_word(base);
    for low in 0..16u16 {
        assert_eq!(TelemetryFrame::from_word(base | low), expected);
        assert_eq!(TelemetryFrame::from_word(base | low | 1 << 13), expected);
    }
}

#[test]
fn decode_reads_the_pair_in_order() {
    assert_eq!(TelemetryFrame::decode(0b1000_0010, 0b0011_0001), frame(true, false, 2 * 32 + 3));
    assert_eq!(TelemetryFrame::decode(0b0100_0000, 0b1111_0001), frame(false, true, 15));
    assert_eq!(TelemetryFrame::decode(0b1101_1110, 0b1111_1111), frame(true, true, 30 * 32 + 15));
    for first in 0..=255u8 {
        for second in [0u8, 1, 0x0f, 0x10, 0x80, 0xff] {
            assert_eq!(
                TelemetryFrame::decode(first, second),
                TelemetryFrame::from_word(u16::from_be_bytes([first, second]))
            );
        }
    }
}

#[test]
fn decoding_the_same_pair_twice_gives_the_same_frame() {
    for first in [0u8, 0x40, 0x80, 0xc0, 0x1e, 0xfe] {
        for second in 0..=255u8 {
            assert_eq!(TelemetryFrame::decode(first, second), TelemetryFrame::decode(first, second));
        }
    }
}
