//! The eight-byte command frame.
//!
//! | offset | field        | value                          |
//! |--------|--------------|--------------------------------|
//! | 0      | head0        | 0xAA                           |
//! | 1      | head1        | 0xBB                           |
//! | 2      | chip-select  | 0x10 + channel / 32            |
//! | 3      | instruction  | 0xC8 + channel % 32            |
//! | 4, 5   | data         | output level, high byte first  |
//! | 6      | blank        | 0x00                           |
//! | 7      | checksum     | complement of the sum of 0..=5 |

use crate::level::{in_nominal_range, level_of_voltage, voltage_of_level};
use vstd::prelude::*;
use vstd::std_specs::convert::FromSpecImpl;

verus! {

/// First header byte of every frame.
pub const HEAD0: u8 = 0xAA;

/// Second header byte of every frame.
pub const HEAD1: u8 = 0xBB;

/// Chip-select byte of the first chip.
pub const CHIP_BASE: u8 = 0x10;

/// Instruction byte of the first channel of a chip.
pub const INSTRUCTION_BASE: u8 = 0xC8;

/// Channels served by one chip.
pub const CHANNELS_PER_CHIP: u8 = 32;

/// Chips that a one-byte channel number can reach.
pub const CHIP_COUNT: u8 = 8;

/// A command: drive one logical channel to one output level.
#[derive(Debug, Clone, Copy, PartialEq, Eq, Structural)]
pub struct State {
    /// Logical channel, 0 to 255.
    pub channel: u8,
    /// Normalised voltage: 0 is the lowest output, 65535 the highest.
    pub level: u16,
}

/// The fields of a command frame, in wire order.
#[derive(Debug, Clone, Copy, PartialEq, Eq, Structural)]
pub struct DataFormat {
    /// Always 0xAA.
    pub head0: u8,
    /// Always 0xBB.
    pub head1: u8,
    /// Selects the chip: 0x10 for channels 0 to 31, 0x11 for 32 to 63, and so on.
    pub fb_chip: u8,
    /// Function code and the channel's address within its chip.
    pub instruction: u8,
    /// Output level. It travels high byte first.
    pub data: u16,
    /// Reserved, always 0x00.
    pub blank: u8,
    /// Complement of the 8-bit sum of the six bytes before `blank`.
    pub check: u8,
}

/// The 8-bit sum of six bytes, complemented.
pub open spec fn checksum_of(b0: u8, b1: u8, b2: u8, b3: u8, b4: u8, b5: u8) -> u8 {
    (255 - (b0 + b1 + b2 + b3 + b4 + b5) % 256) as u8
}

/// Chip-select byte of the chip that serves `channel`.
pub open spec fn chip_select_of(channel: u8) -> u8 {
    (CHIP_BASE + channel / CHANNELS_PER_CHIP) as u8
}

/// Instruction byte that addresses `channel` within its chip.
pub open spec fn instruction_of(channel: u8) -> u8 {
    (INSTRUCTION_BASE + channel % CHANNELS_PER_CHIP) as u8
}

/// High byte of a 16-bit value.
pub open spec fn high_byte(value: u16) -> u8 {
    (value / 256) as u8
}

/// Low byte of a 16-bit value.
pub open spec fn low_byte(value: u16) -> u8 {
    (value % 256) as u8
}

/// The frame every command starts from: the first channel of the first chip,
/// level zero, and a checksum not yet computed.
pub open spec fn template() -> DataFormat {
    DataFormat {
        head0: HEAD0,
        head1: HEAD1,
        fb_chip: CHIP_BASE,
        instruction: INSTRUCTION_BASE,
        data: 0,
        blank: 0,
        check: 0,
    }
}

/// The frame that carries `state`.
pub open spec fn encode(state: State) -> DataFormat {
    DataFormat {
        head0: HEAD0,
        head1: HEAD1,
        fb_chip: chip_select_of(state.channel),
        instruction: instruction_of(state.channel),
        data: state.level,
        blank: 0,
        check: checksum_of(
            HEAD0,
            HEAD1,
            chip_select_of(state.channel),
            instruction_of(state.channel),
            high_byte(state.level),
            low_byte(state.level),
        ),
    }
}

/// One step of an 8-bit running sum: where `acc` holds `total` modulo 256,
/// adding `byte` with wrap-around holds `total + byte` modulo 256.
proof fn lemma_wrapping_step(total: int, acc: u8, byte: u8)
    requires
        0 <= total,
        acc == total % 256,
    ensures
        acc.wrapping_add(byte) == (total + byte) % 256,
{
}

/// Computes the complement of the wrapping sum of six bytes.
pub fn checksum(b0: u8, b1: u8, b2: u8, b3: u8, b4: u8, b5: u8) -> (c: u8)
    ensures
        c == checksum_of(b0, b1, b2, b3, b4, b5),
{
    let s1: u8 = b0.wrapping_add(b1);
    let s2: u8 = s1.wrapping_add(b2);
    let s3: u8 = s2.wrapping_add(b3);
    let s4: u8 = s3.wrapping_add(b4);
    let s5: u8 = s4.wrapping_add(b5);
    proof {
        lemma_wrapping_step(b0 as int, b0, b1);
        lemma_wrapping_step(b0 + b1, s1, b2);
        lemma_wrapping_step(b0 + b1 + b2, s2, b3);
        lemma_wrapping_step(b0 + b1 + b2 + b3, s3, b4);
        lemma_wrapping_step(b0 + b1 + b2 + b3 + b4, s4, b5);
        assert(!s5 == 255 - s5) by (bit_vector);
    }
    !s5
}

impl Default for DataFormat {
    /// The template frame. Its checksum field is still zero, so it is not yet
    /// a frame to send.
    fn default() -> (frame: DataFormat)
        ensures
            frame == template(),
    {
        DataFormat {
            head0: HEAD0,
            head1: HEAD1,
            fb_chip: CHIP_BASE,
            instruction: INSTRUCTION_BASE,
            data: 0,
            blank: 0,
            check: 0,
        }
    }
}

impl FromSpecImpl<State> for DataFormat {
    open spec fn obeys_from_spec() -> bool {
        true
    }

    open spec fn from_spec(value: State) -> DataFormat {
        encode(value)
    }
}

impl From<State> for DataFormat {
    /// Builds the frame for a command. Every command has a frame: there is no
    /// failure.
    fn from(value: State) -> (frame: DataFormat)
        ensures
            frame == encode(value),
    {
        let mut frame = DataFormat::default();
        frame.fb_chip = frame.fb_chip + value.channel / CHANNELS_PER_CHIP;
        frame.instruction = frame.instruction + value.channel % CHANNELS_PER_CHIP;
        frame.data = value.level;
        frame.check = checksum(
            frame.head0,
            frame.head1,
            frame.fb_chip,
            frame.instruction,
            frame.data_high(),
            frame.data_low(),
        );
        frame
    }
}

impl DataFormat {
    /// High byte of the data field, the fifth byte on the wire.
    pub fn data_high(&self) -> (b: u8)
        ensures
            b == high_byte(self.data),
    {
        (self.data / 256) as u8
    }

    /// Low byte of the data field, the sixth byte on the wire.
    pub fn data_low(&self) -> (b: u8)
        ensures
            b == low_byte(self.data),
    {
        (self.data % 256) as u8
    }

    /// The eight bytes of the frame as they travel.
    pub open spec fn wire(&self) -> Seq<u8> {
        seq![
            self.head0,
            self.head1,
            self.fb_chip,
            self.instruction,
            high_byte(self.data),
            low_byte(self.data),
            self.blank,
            self.check,
        ]
    }

    /// Writes the frame out field by field, the data field high byte first.
    pub fn to_bytes(&self) -> (bytes: [u8; 8])
        ensures
            bytes@ == self.wire(),
    {
        let bytes: [u8; 8] = [
            self.head0,
            self.head1,
            self.fb_chip,
            self.instruction,
            self.data_high(),
            self.data_low(),
            self.blank,
            self.check,
        ];
        assert(bytes@ =~= self.wire());
        bytes
    }

    /// The fields that eight wire bytes hold, whatever the bytes are.
    pub open spec fn parsed(wire: Seq<u8>) -> DataFormat
        recommends
            wire.len() == 8,
    {
        DataFormat {
            head0: wire[0],
            head1: wire[1],
            fb_chip: wire[2],
            instruction: wire[3],
            data: (wire[4] * 256 + wire[5]) as u16,
            blank: wire[6],
            check: wire[7],
        }
    }

    /// Reads the fields back from eight wire bytes. Nothing is checked here:
    /// `is_well_formed` tells whether the result is a frame a command gives.
    pub fn from_bytes(bytes: &[u8; 8]) -> (frame: DataFormat)
        ensures
            frame == DataFormat::parsed(bytes@),
            frame.wire() == bytes@,
    {
        let high: u16 = bytes[4] as u16;
        let low: u16 = bytes[5] as u16;
        let frame = DataFormat {
            head0: bytes[0],
            head1: bytes[1],
            fb_chip: bytes[2],
            instruction: bytes[3],
            data: high * 256 + low,
            blank: bytes[6],
            check: bytes[7],
        };
        assert(frame.wire() =~= bytes@);
        frame
    }

    /// Whether the frame is one that some command encodes to: the header and
    /// the blank byte are as fixed, the chip-select and instruction bytes
    /// address a channel, and the checksum closes the sum.
    pub open spec fn is_well_formed(&self) -> bool {
        &&& self.head0 == HEAD0
        &&& self.head1 == HEAD1
        &&& CHIP_BASE <= self.fb_chip < CHIP_BASE + CHIP_COUNT
        &&& INSTRUCTION_BASE <= self.instruction < INSTRUCTION_BASE + CHANNELS_PER_CHIP
        &&& self.blank == 0
        &&& self.check == checksum_of(
            self.head0,
            self.head1,
            self.fb_chip,
            self.instruction,
            high_byte(self.data),
            low_byte(self.data),
        )
    }

    /// The command of a well-formed frame.
    pub open spec fn command(&self) -> State
        recommends
            self.is_well_formed(),
    {
        State {
            channel: ((self.fb_chip - CHIP_BASE) * CHANNELS_PER_CHIP + (self.instruction
                - INSTRUCTION_BASE)) as u8,
            level: self.data,
        }
    }

    /// Decodes the frame: the command it carries, or `None` where no command
    /// encodes to it.
    pub fn state(&self) -> (decoded: Option<State>)
        ensures
            decoded == (if self.is_well_formed() {
                Some(self.command())
            } else {
                None
            }),
    {
        if self.head0 != HEAD0 || self.head1 != HEAD1 || self.blank != 0 {
            return None;
        }
        if self.fb_chip < CHIP_BASE || self.fb_chip - CHIP_BASE >= CHIP_COUNT {
            return None;
        }
        if self.instruction < INSTRUCTION_BASE || self.instruction - INSTRUCTION_BASE
            >= CHANNELS_PER_CHIP {
            return None;
        }
        let expected = checksum(
            self.head0,
            self.head1,
            self.fb_chip,
            self.instruction,
            self.data_high(),
            self.data_low(),
        );
        if self.check != expected {
            return None;
        }
        let chip: u8 = self.fb_chip - CHIP_BASE;
        let address: u8 = self.instruction - INSTRUCTION_BASE;
        Some(State { channel: chip * CHANNELS_PER_CHIP + address, level: self.data })
    }
}

/// Decoding undoes encoding: the frame of a command is well formed and
/// carries exactly that command, channel and level alike.
pub proof fn lemma_decode_encode(state: State)
    ensures
        encode(state).is_well_formed(),
        encode(state).command() == state,
{
}

/// Encoding undoes decoding: a well-formed frame is the frame of the command
/// it carries, so no two well-formed frames carry the same command.
pub proof fn lemma_encode_decode(frame: DataFormat)
    requires
        frame.is_well_formed(),
    ensures
        encode(frame.command()) == frame,
{
}

/// Reading the wire bytes of a frame gives the frame back, for every value of
/// its fields.
pub proof fn lemma_parse_wire(frame: DataFormat)
    ensures
        frame.wire().len() == 8,
        DataFormat::parsed(frame.wire()) == frame,
{
}

/// In the frame of every command the last byte is the complement of the
/// 8-bit sum of the first six: adding it to that sum gives 0xFF.
pub proof fn lemma_checksum_closes_sum(state: State)
    ensures
        ({
            let w = encode(state).wire();
            &&& w[7] == checksum_of(w[0], w[1], w[2], w[3], w[4], w[5])
            &&& w[7] == 255 - (w[0] + w[1] + w[2] + w[3] + w[4] + w[5]) % 256
            &&& (w[0] + w[1] + w[2] + w[3] + w[4] + w[5] + w[7]) % 256 == 255
        }),
{
}

/// A voltage in the nominal range that is normalised, framed, put on the
/// wire, read back and decoded comes back on the same channel and less than
/// one step of 20 / 65536 V below where it started.
pub proof fn lemma_round_trip(channel: u8, numer: int, denom: int)
    requires
        in_nominal_range(numer, denom),
    ensures
        ({
            let sent = State { channel, level: level_of_voltage(numer, denom) };
            let received = DataFormat::parsed(encode(sent).wire());
            &&& received.is_well_formed()
            &&& received.command().channel == channel
            &&& 0 <= numer * 65536 - voltage_of_level(received.command().level) * denom < 20
                * denom
        }),
{
    let sent = State { channel, level: level_of_voltage(numer, denom) };
    lemma_parse_wire(encode(sent));
    lemma_decode_encode(sent);
    crate::level::lemma_quantization_error(numer, denom);
}

} // verus!
