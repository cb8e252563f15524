//! Commands sent from the operator to the robot, and their one-byte wire form.
//!
//! Bits 2..0 of a wire byte hold the command tag, bits 7..3 hold auxiliary
//! data. Only `SetSpeed` carries data: the five most significant bits of its
//! level. The tags 6 and 7 are reserved.

use vstd::prelude::*;

verus! {

/// Mask of the three tag bits of a wire byte.
pub const TAG_MASK: u8 = 0b0000_0111;

/// Mask of the five data bits of a wire byte.
pub const DATA_MASK: u8 = 0b1111_1000;

/// A directive for the robot. One command is one byte on the wire.
#[derive(Clone, Copy, Debug, PartialEq, Eq, Structural)]
pub enum Command {
    Forward,
    Backward,
    Left,
    Right,
    Stop,
    /// Sets the duty cycle of both motors. Only the five most significant
    /// bits of the level survive the wire.
    SetSpeed(u8),
}

/// The tag of a wire byte: its value modulo 8, that is, its three low bits.
pub open spec fn tag_of(byte: u8) -> u8 {
    byte % 8
}

/// The data of a wire byte: the byte with its three low bits cleared, that
/// is, the largest multiple of 8 that does not exceed it.
pub open spec fn data_of(byte: u8) -> u8 {
    (byte - byte % 8) as u8
}

/// Masking a byte is arithmetic: the tag mask takes the remainder modulo 8,
/// the data mask takes the rest.
pub proof fn lemma_masks(byte: u8)
    by (bit_vector)
    ensures
        byte & 0b0000_0111 == byte % 8,
        byte & 0b1111_1000 == byte - byte % 8,
        byte & 0b0000_0111 < 8,
{
}

/// Placing a tag under data whose low three bits are clear adds the two.
pub proof fn lemma_join(tag: u8, data: u8)
    by (bit_vector)
    requires
        tag < 8,
        data % 8 == 0,
    ensures
        tag | data == tag + data,
{
}

impl Command {
    /// The tag that identifies this kind of command on the wire.
    pub open spec fn tag(self) -> u8 {
        match self {
            Command::Forward => 0,
            Command::Backward => 1,
            Command::Left => 2,
            Command::Right => 3,
            Command::Stop => 4,
            Command::SetSpeed(_) => 5,
        }
    }

    /// The auxiliary data this command carries on the wire: for `SetSpeed`
    /// the level without its three low bits, for every other command 0.
    pub open spec fn data(self) -> u8 {
        match self {
            Command::SetSpeed(level) => data_of(level),
            _ => 0,
        }
    }

    /// The wire byte of this command: its tag in the low three bits, its
    /// data above them.
    pub open spec fn wire(self) -> u8 {
        (self.tag() + self.data()) as u8
    }

    /// The command as the robot receives it: a `SetSpeed` level loses its
    /// three low bits, every other command arrives unchanged.
    pub open spec fn quantized(self) -> Command {
        match self {
            Command::SetSpeed(level) => Command::SetSpeed(data_of(level)),
            other => other,
        }
    }

    /// What a wire byte means to the robot. The data bits count only under
    /// the `SetSpeed` tag; the reserved tags 6 and 7 mean nothing.
    pub open spec fn decode(byte: u8) -> Option<Command> {
        let tag = tag_of(byte);
        if tag == 0 {
            Some(Command::Forward)
        } else if tag == 1 {
            Some(Command::Backward)
        } else if tag == 2 {
            Some(Command::Left)
        } else if tag == 3 {
            Some(Command::Right)
        } else if tag == 4 {
            Some(Command::Stop)
        } else if tag == 5 {
            Some(Command::SetSpeed(data_of(byte)))
        } else {
            None
        }
    }

    /// Encodes the command as its wire byte.
    pub fn to_byte(self) -> (byte: u8)
        ensures
            byte == self.wire(),
            tag_of(byte) == self.tag(),
            data_of(byte) == self.data(),
            byte & TAG_MASK == self.tag(),
            byte & DATA_MASK == self.data(),
            self matches Command::SetSpeed(level) ==> byte & DATA_MASK == level & DATA_MASK,
    {
        let byte: u8 = match self {
            Command::Forward => 0b0000_0000,
            Command::Backward => 0b0000_0001,
            Command::Left => 0b0000_0010,
            Command::Right => 0b0000_0011,
            Command::Stop => 0b0000_0100,
            Command::SetSpeed(level) => {
                proof {
                    lemma_masks(level);
                    lemma_join(0b0000_0101, level & DATA_MASK);
                }
                0b0000_0101 | (level & DATA_MASK)
            },
        };
        proof {
            lemma_masks(byte);
        }
        byte
    }

    /// Decodes a wire byte as the robot does: the tag selects the command,
    /// and an unknown tag yields nothing.
    pub fn from_byte(byte: u8) -> (command: Option<Command>)
        ensures
            command == Command::decode(byte),
    {
        let tag = decode_tag(byte);
        if tag == 0 {
            Some(Command::Forward)
        } else if tag == 1 {
            Some(Command::Backward)
        } else if tag == 2 {
            Some(Command::Left)
        } else if tag == 3 {
            Some(Command::Right)
        } else if tag == 4 {
            Some(Command::Stop)
        } else if tag == 5 {
            proof {
                lemma_masks(byte);
            }
            Some(Command::SetSpeed(byte & DATA_MASK))
        } else {
            None
        }
    }
}

/// Extracts the command tag from a wire byte.
pub fn decode_tag(byte: u8) -> (tag: u8)
    ensures
        tag == tag_of(byte),
        tag == byte & TAG_MASK,
        tag < 8,
{
    proof {
        lemma_masks(byte);
    }
    byte & TAG_MASK
}

/// The tag survives the wire: the tag read from an encoded command is the
/// command's own, whatever the command.
pub proof fn lemma_tag_survives(command: Command)
    ensures
        tag_of(command.wire()) == command.tag(),
        command.wire() & TAG_MASK == command.tag(),
{
    lemma_masks(command.wire());
}

/// A speed level crosses the wire without its three low bits, and with
/// nothing else changed.
pub proof fn lemma_speed_keeps_high_bits(level: u8)
    ensures
        Command::SetSpeed(level).wire() & DATA_MASK == level & DATA_MASK,
        data_of(Command::SetSpeed(level).wire()) == data_of(level),
        data_of(level) <= level < data_of(level) + 8,
{
    lemma_masks(Command::SetSpeed(level).wire());
    lemma_masks(level);
}

/// Decoding an encoded command gives the command back, a `SetSpeed` with
/// its level rounded down to a multiple of 8.
pub proof fn lemma_decode_after_encode(command: Command)
    ensures
        Command::decode(command.wire()) == Some(command.quantized()),
{
}

/// Encoding a decoded byte restores the tag, and under the `SetSpeed` tag
/// the whole byte; a byte decodes to nothing exactly when its tag is
/// reserved.
pub proof fn lemma_encode_after_decode(byte: u8)
    ensures
        Command::decode(byte) matches Some(command) ==> {
            &&& tag_of(command.wire()) == tag_of(byte)
            &&& command is SetSpeed ==> command.wire() == byte
            &&& !(command is SetSpeed) ==> command.wire() == tag_of(byte)
        },
        Command::decode(byte) is None <==> tag_of(byte) >= 6,
{
}

/// Rounding a level down happens once: a command that has crossed the wire
/// crosses it again unchanged.
pub proof fn lemma_quantized_is_stable(command: Command)
    ensures
        command.quantized().quantized() == command.quantized(),
        command.quantized().wire() == command.wire(),
{
}

} // verus!
