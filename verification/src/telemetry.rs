//! Telemetry sent from the robot to the operator: two boundary sensors and
//! one distance sensor, packed into a frame of two bytes.
//!
//! Each byte names its place in the frame by its least significant bit:
//! 0 for the first byte, 1 for the second. The two bytes form a 16-bit word,
//! first byte high. In that word bit 15 is the left boundary flag, bit 14 the
//! right boundary flag, bits 12..8 are the high five bits of the distance
//! and bits 7..4 its low four bits.

use vstd::prelude::*;

verus! {

/// The latest reading of the robot's sensors.
#[derive(Clone, Copy, Debug, PartialEq, Eq, Structural)]
pub struct TelemetryFrame {
    /// The left boundary sensor sees the boundary.
    pub left_boundary: bool,
    /// The right boundary sensor sees the boundary.
    pub right_boundary: bool,
    /// Distance to the nearest obstacle ahead, in centimetres.
    pub distance_cm: u16,
}

/// The place of a byte in its frame.
#[derive(Clone, Copy, Debug, PartialEq, Eq, Structural)]
pub enum ByteKind {
    /// The high byte of the word: least significant bit 0.
    First,
    /// The low byte of the word: least significant bit 1.
    Second,
}

/// The place that a byte claims by its least significant bit.
pub open spec fn kind_of(byte: u8) -> ByteKind {
    if byte % 2 == 0 {
        ByteKind::First
    } else {
        ByteKind::Second
    }
}

/// The 16-bit word of a frame, first byte high.
pub open spec fn assembled(first: u8, second: u8) -> u16 {
    (first * 256 + second) as u16
}

/// The high five bits of the distance: bits 12..8 of the word.
pub open spec fn distance_high(word: u16) -> u16 {
    (word / 256) % 32
}

/// The low four bits of the distance: bits 7..4 of the word.
pub open spec fn distance_low(word: u16) -> u16 {
    (word / 16) % 16
}

/// The distance held in a word: the high bits shifted left by five places,
/// joined with the low bits.
pub open spec fn distance_of(word: u16) -> u16 {
    (distance_high(word) * 32 + distance_low(word)) as u16
}

/// The reading held in a word.
pub open spec fn frame_of(word: u16) -> TelemetryFrame {
    TelemetryFrame {
        left_boundary: word >= 0x8000,
        right_boundary: (word / 0x4000) % 2 == 1,
        distance_cm: distance_of(word),
    }
}

/// Shifts and masks on a word are arithmetic.
pub proof fn lemma_word_fields(word: u16)
    by (bit_vector)
    ensures
        (word >> 15 == 1) == (word >= 0x8000),
        (word & 0x8000 != 0) == (word >= 0x8000),
        (word >> 14) & 1 == (word / 0x4000) % 2,
        (word & 0x4000 != 0) == ((word / 0x4000) % 2 == 1),
        (word >> 8) & 0b1_1111 == (word / 256) % 32,
        (word & 0b1111_0000) >> 4 == (word / 16) % 16,
{
}

/// Joining five high bits, shifted left by five places, with four low bits
/// adds the two.
pub proof fn lemma_distance_join(high: u16, low: u16)
    by (bit_vector)
    requires
        high < 32,
        low < 16,
    ensures
        (high << 5) | low == high * 32 + low,
{
}

/// Two bytes side by side are the first times 256 plus the second.
pub proof fn lemma_assembled(first: u8, second: u8)
    by (bit_vector)
    ensures
        ((first as u16) << 8) | (second as u16) == first as u16 * 256 + second as u16,
        (first as u16 * 256 + second as u16) / 256 == first as u16,
{
}

/// Tells which place in the frame a byte claims.
pub fn byte_kind(byte: u8) -> (kind: ByteKind)
    ensures
        kind == kind_of(byte),
        (kind == ByteKind::Second) == (byte & 1 == 1),
{
    assert(byte & 1 == byte % 2) by (bit_vector);
    if byte & 0b0000_0001 == 0 {
        ByteKind::First
    } else {
        ByteKind::Second
    }
}

/// Forms the 16-bit word of a frame from its two bytes, first byte high.
pub fn assemble(first: u8, second: u8) -> (word: u16)
    ensures
        word == assembled(first, second),
        word == ((first as u16) << 8) | (second as u16),
{
    proof {
        lemma_assembled(first, second);
    }
    ((first as u16) << 8) | (second as u16)
}

impl TelemetryFrame {
    /// The reading before anything was received: no boundary, distance 0.
    pub fn new() -> (frame: Self)
        ensures
            frame == (TelemetryFrame { left_boundary: false, right_boundary: false, distance_cm: 0 }),
            frame == frame_of(0),
    {
        TelemetryFrame { left_boundary: false, right_boundary: false, distance_cm: 0 }
    }

    /// Reads the sensors out of an assembled word.
    pub fn from_word(word: u16) -> (frame: Self)
        ensures
            frame == frame_of(word),
            frame.left_boundary == (word & 0x8000 != 0),
            frame.right_boundary == (word & 0x4000 != 0),
            frame.distance_cm == (((word >> 8) & 0b1_1111) << 5) | ((word & 0b1111_0000) >> 4),
            frame.distance_cm == distance_high(word) * 32 + distance_low(word),
    {
        let left = (word >> 15) == 1;
        let right = ((word >> 14) & 1) == 1;
        let low: u16 = (word & 0b1111_0000) >> 4;
        let high: u16 = (word >> 8) & 0b0001_1111;
        proof {
            lemma_word_fields(word);
            lemma_distance_join(high, low);
        }
        TelemetryFrame { left_boundary: left, right_boundary: right, distance_cm: (high << 5) | low }
    }

    /// Decodes the two bytes of a frame, given in their places.
    pub fn decode(first: u8, second: u8) -> (frame: Self)
        ensures
            frame == frame_of(assembled(first, second)),
            frame.left_boundary == (first >= 128),
            frame.right_boundary == ((first / 64) % 2 == 1),
            frame.distance_cm == (first % 32) * 32 + second / 16,
    {
        TelemetryFrame::from_word(assemble(first, second))
    }
}

/// Decoding is a function of the two bytes and of nothing else: the same
/// pair always gives the same frame.
pub proof fn lemma_same_pair_same_frame(first: u8, second: u8, first_again: u8, second_again: u8)
    requires
        first == first_again,
        second == second_again,
    ensures
        frame_of(assembled(first, second)) == frame_of(assembled(first_again, second_again)),
{
}

/// Each boundary flag is its own bit of the word: bit 15 the left one, bit
/// 14 the right one. A word with bit 15 set and bit 14 clear reads left and
/// not right, and the other way round.
pub proof fn lemma_boundary_flags(word: u16)
    ensures
        frame_of(word).left_boundary == (word & 0x8000 != 0),
        frame_of(word).right_boundary == (word & 0x4000 != 0),
        word & 0x8000 != 0 && word & 0x4000 == 0 ==> frame_of(word).left_boundary && !frame_of(
            word,
        ).right_boundary,
        word & 0x8000 == 0 && word & 0x4000 != 0 ==> !frame_of(word).left_boundary && frame_of(
            word,
        ).right_boundary,
{
    lemma_word_fields(word);
}

/// The distance is bits 12..8 of the word, shifted left by five places,
/// joined with bits 7..4.
pub proof fn lemma_distance_bits(word: u16)
    ensures
        frame_of(word).distance_cm == (((word >> 8) & 0b1_1111) << 5) | ((word & 0b1111_0000) >> 4),
{
    lemma_word_fields(word);
    lemma_distance_join((word >> 8) & 0b1_1111, (word & 0b1111_0000) >> 4);
}

/// A distance has ten bits, of which bit 4 is always clear: it is at most
/// 1007, and its remainder modulo 32 is the low four bits of the reading.
pub proof fn lemma_distance_range(word: u16)
    ensures
        distance_of(word) <= 1007,
        distance_of(word) % 32 == distance_low(word),
        distance_of(word) / 32 == distance_high(word),
        distance_low(word) < 16,
        distance_high(word) < 32,
{
}

/// The bits of the word that hold no sensor do not change the reading:
/// two words that agree on bits 15, 14, 12..8 and 7..4 decode alike.
pub proof fn lemma_unused_bits_ignored(word: u16, other: u16)
    requires
        word & 0b1101_1111_1111_0000 == other & 0b1101_1111_1111_0000,
    ensures
        frame_of(word) == frame_of(other),
{
    assert(word >= 0x8000 <==> other >= 0x8000) by (bit_vector)
        requires
            word & 0b1101_1111_1111_0000 == other & 0b1101_1111_1111_0000,
    ;
    assert((word / 0x4000) % 2 == (other / 0x4000) % 2 && (word / 256) % 32 == (other / 256) % 32
        && (word / 16) % 16 == (other / 16) % 16) by (bit_vector)
        requires
            word & 0b1101_1111_1111_0000 == other & 0b1101_1111_1111_0000,
    ;
}

} // verus!
