//! Display commands and their wire encoding.
//!
//! Every command encodes deterministically to a fixed seven-byte buffer plus
//! an explicit valid length (one opcode byte and up to six data bytes); the
//! transmitted payload is the prefix of that length. Encoding never fails.
//! Multi-bit-field commands mask every field to its legal bit width before
//! shifting, so illegal bits never leak into adjacent fields; other numeric
//! parameters are passed through unmasked, exactly as the chip's registers
//! take them.

use vstd::prelude::*;
use vstd::slice::slice_subrange;
use crate::error::TransportError;
use crate::interface::BusSink;

verus! {

/// SSD1327 commands.
#[derive(Debug, Copy, Clone)]
pub enum Command {
    /// Command 0x15.
    /// Set up column start and end address; values range over 0-63.
    /// Only for horizontal or vertical addressing mode.
    ColumnAddress(u8, u8),
    /// Command 0x75.
    /// Set up row start and end address; values range over 0-127.
    /// Only for horizontal or vertical addressing mode.
    RowAddress(u8, u8),
    /// Command 0x81.
    /// Set contrast; a higher value is a higher contrast.
    Contrast(u8),
    /// Command 0xB2.
    /// No operation.
    Noop,
    /// Command 0xA0.
    /// Remap configuration; values range over 0x00-0x7F.
    Remap(u8),
    /// Command 0xA1.
    /// Set display start line; values range over 0-0x57.
    DisplayStartLine(u8),
    /// Command 0xA2.
    /// Set display offset; values range over 0-0x3F.
    DisplayOffset(u8),
    /// Commands 0xA4-0xA7.
    /// Set display mode.
    DisplayMode(DisplayMode),
    /// Command 0xA8.
    /// Set multiplex ratio; values range over 0x10-0x80.
    MultiplexRatio(u8),
    /// Command 0xAB.
    /// Function selection A: enable or disable the Vdd regulator.
    VoltageRegulator(bool),
    /// Commands 0xAE/0xAF.
    /// Display off/on.
    DisplayOn(bool),
    /// Command 0xB1.
    /// Set phase length.
    PhaseLength(PhaseLength),
    /// Command 0xB3.
    /// Set display clock divide ratio / oscillator frequency.
    FrontClockDivideRatio(FrontClockDivideRatio),
    /// Command 0xB5.
    /// Set the GPIO0 and GPIO1 pin output levels.
    SetGPIO(u8),
    /// Command 0xB6.
    /// Set second pre-charge period; values range over 0-15.
    SecondPreChargePeriod(u8),
    /// Command 0xB8.
    /// Set gray scale table; the value is masked to 0-15.
    GrayScaleTable(u8),
    /// Command 0xB9.
    /// Select the default linear gray scale table.
    DefaultLinearGrayScaleTable,
    /// Command 0xBC.
    /// Set pre-charge voltage level.
    PreChargeVoltage(PreChargeVoltageLevel),
    /// Command 0xBE.
    /// Set VCOMH voltage.
    VcomhVoltage(VcomhLevel),
    /// Command 0xD5.
    /// Function selection B.
    FunctionSelectionB(u8),
    /// Command 0xFD.
    /// Set command lock.
    CommandLock(bool),
    /// Commands 0x26/0x27 (left/right).
    /// Horizontal scroll setup: direction, column start, column end,
    /// row start, row end, and frames per scroll step.
    HorizontalScrollSetup(HScrollDir, u8, u8, u8, u8, NFrames),
    /// Commands 0x2E/0x2F.
    /// Deactivate/activate scroll.
    EnableScroll(bool),
}

impl Command {
    /// The full seven-byte encoding buffer of this command.
    pub open spec fn encode_bytes(self) -> Seq<u8> {
        match self {
            Command::ColumnAddress(start, end) => seq![0x15u8, start, end, 0u8, 0u8, 0u8, 0u8],
            Command::RowAddress(start, end) => seq![0x75u8, start, end, 0u8, 0u8, 0u8, 0u8],
            Command::Contrast(val) => seq![0x81u8, val, 0u8, 0u8, 0u8, 0u8, 0u8],
            Command::Noop => seq![0xB2u8, 0u8, 0u8, 0u8, 0u8, 0u8, 0u8],
            Command::Remap(val) => seq![0xA0u8, val, 0u8, 0u8, 0u8, 0u8, 0u8],
            Command::DisplayStartLine(val) => seq![0xA1u8, val, 0u8, 0u8, 0u8, 0u8, 0u8],
            Command::DisplayOffset(val) => seq![0xA2u8, val, 0u8, 0u8, 0u8, 0u8, 0u8],
            Command::DisplayMode(val) => seq![val.spec_value(), 0u8, 0u8, 0u8, 0u8, 0u8, 0u8],
            Command::MultiplexRatio(val) => seq![0xA8u8, val, 0u8, 0u8, 0u8, 0u8, 0u8],
            Command::VoltageRegulator(val) => seq![
                0xABu8,
                (if val { 1u8 } else { 0u8 }),
                0u8, 0u8, 0u8, 0u8, 0u8,
            ],
            Command::DisplayOn(on) => seq![
                (if on { 0xAFu8 } else { 0xAEu8 }),
                0u8, 0u8, 0u8, 0u8, 0u8, 0u8,
            ],
            Command::PhaseLength(val) => seq![0xB1u8, val.spec_value(), 0u8, 0u8, 0u8, 0u8, 0u8],
            Command::FrontClockDivideRatio(val) => seq![
                0xB3u8, val.spec_value(), 0u8, 0u8, 0u8, 0u8, 0u8,
            ],
            Command::SetGPIO(val) => seq![0xB5u8, val, 0u8, 0u8, 0u8, 0u8, 0u8],
            Command::SecondPreChargePeriod(val) => seq![0xB6u8, val, 0u8, 0u8, 0u8, 0u8, 0u8],
            Command::GrayScaleTable(val) => seq![0xB8u8, val & 0xF, 0u8, 0u8, 0u8, 0u8, 0u8],
            Command::DefaultLinearGrayScaleTable => seq![0xB9u8, 0u8, 0u8, 0u8, 0u8, 0u8, 0u8],
            Command::PreChargeVoltage(val) => seq![
                0xBCu8, val.spec_value(), 0u8, 0u8, 0u8, 0u8, 0u8,
            ],
            Command::VcomhVoltage(val) => seq![0xBEu8, val.spec_value(), 0u8, 0u8, 0u8, 0u8, 0u8],
            Command::FunctionSelectionB(val) => seq![0xD5u8, val, 0u8, 0u8, 0u8, 0u8, 0u8],
            Command::CommandLock(val) => seq![
                0xFDu8,
                (if val { 0x16u8 } else { 0x12u8 }),
                0u8, 0u8, 0u8, 0u8, 0u8,
            ],
            Command::HorizontalScrollSetup(dir, col_start, col_end, row_start, row_end, frames) => seq![
                (match dir {
                    HScrollDir::LeftToRight => 0x26u8,
                    HScrollDir::RightToLeft => 0x27u8,
                }),
                0u8,
                row_start & 0x7F,
                frames.spec_value(),
                row_end & 0x7F,
                col_start & 0x3F,
                col_end & 0x3F,
            ],
            Command::EnableScroll(enable) => seq![
                (if enable { 0x2Fu8 } else { 0x2Eu8 }),
                0u8, 0u8, 0u8, 0u8, 0u8, 0u8,
            ],
        }
    }

    /// How many leading bytes of the encoding buffer are transmitted.
    pub open spec fn encode_len(self) -> int {
        match self {
            Command::ColumnAddress(_, _) => 3,
            Command::RowAddress(_, _) => 3,
            Command::Contrast(_) => 2,
            Command::Noop => 1,
            Command::Remap(_) => 2,
            Command::DisplayStartLine(_) => 2,
            Command::DisplayOffset(_) => 2,
            Command::DisplayMode(_) => 1,
            Command::MultiplexRatio(_) => 2,
            Command::VoltageRegulator(_) => 2,
            Command::DisplayOn(_) => 1,
            Command::PhaseLength(_) => 2,
            Command::FrontClockDivideRatio(_) => 2,
            Command::SetGPIO(_) => 2,
            Command::SecondPreChargePeriod(_) => 2,
            Command::GrayScaleTable(_) => 2,
            Command::DefaultLinearGrayScaleTable => 1,
            Command::PreChargeVoltage(_) => 2,
            Command::VcomhVoltage(_) => 2,
            Command::FunctionSelectionB(_) => 2,
            Command::CommandLock(_) => 2,
            Command::HorizontalScrollSetup(_, _, _, _, _, _) => 7,
            Command::EnableScroll(_) => 1,
        }
    }

    /// The payload that actually goes on the bus: the valid prefix of the
    /// encoding buffer.
    pub open spec fn wire_bytes(self) -> Seq<u8> {
        self.encode_bytes().subrange(0, self.encode_len())
    }

    /// Encode this command into a fixed seven-byte buffer plus the number of
    /// leading bytes that are valid. Encoding cannot fail.
    pub fn encode(self) -> (r: ([u8; 7], usize))
        ensures
            r.0@ == self.encode_bytes(),
            r.1 == self.encode_len(),
            1 <= r.1 <= 7,
    {
        let r: ([u8; 7], usize) = match self {
            Command::ColumnAddress(start, end) => ([0x15, start, end, 0, 0, 0, 0], 3),
            Command::RowAddress(start, end) => ([0x75, start, end, 0, 0, 0, 0], 3),
            Command::Contrast(val) => ([0x81, val, 0, 0, 0, 0, 0], 2),
            Command::Noop => ([0xB2, 0, 0, 0, 0, 0, 0], 1),
            Command::Remap(val) => ([0xA0, val, 0, 0, 0, 0, 0], 2),
            Command::DisplayStartLine(val) => ([0xA1, val, 0, 0, 0, 0, 0], 2),
            Command::DisplayOffset(val) => ([0xA2, val, 0, 0, 0, 0, 0], 2),
            Command::DisplayMode(val) => ([val.value(), 0, 0, 0, 0, 0, 0], 1),
            Command::MultiplexRatio(val) => ([0xA8, val, 0, 0, 0, 0, 0], 2),
            Command::VoltageRegulator(val) => {
                ([0xAB, if val { 1 } else { 0 }, 0, 0, 0, 0, 0], 2)
            }
            Command::DisplayOn(on) => ([if on { 0xAF } else { 0xAE }, 0, 0, 0, 0, 0, 0], 1),
            Command::PhaseLength(val) => ([0xB1, val.value(), 0, 0, 0, 0, 0], 2),
            Command::FrontClockDivideRatio(val) => ([0xB3, val.value(), 0, 0, 0, 0, 0], 2),
            Command::SetGPIO(val) => ([0xB5, val, 0, 0, 0, 0, 0], 2),
            Command::SecondPreChargePeriod(val) => ([0xB6, val, 0, 0, 0, 0, 0], 2),
            Command::GrayScaleTable(val) => ([0xB8, val & 0xF, 0, 0, 0, 0, 0], 2),
            Command::DefaultLinearGrayScaleTable => ([0xB9, 0, 0, 0, 0, 0, 0], 1),
            Command::PreChargeVoltage(val) => ([0xBC, val.value(), 0, 0, 0, 0, 0], 2),
            Command::VcomhVoltage(val) => ([0xBE, val.value(), 0, 0, 0, 0, 0], 2),
            Command::FunctionSelectionB(val) => ([0xD5, val, 0, 0, 0, 0, 0], 2),
            Command::CommandLock(val) => {
                ([0xFD, if val { 0x16 } else { 0x12 }, 0, 0, 0, 0, 0], 2)
            }
            Command::HorizontalScrollSetup(dir, col_start, col_end, row_start, row_end, frames) => {
                (
                    [
                        (match dir {
                            HScrollDir::LeftToRight => 0x26,
                            HScrollDir::RightToLeft => 0x27,
                        }),
                        0,
                        row_start & 0x7F,
                        frames.value(),
                        row_end & 0x7F,
                        col_start & 0x3F,
                        col_end & 0x3F,
                    ],
                    7,
                )
            }
            Command::EnableScroll(enable) => {
                ([if enable { 0x2F } else { 0x2E }, 0, 0, 0, 0, 0, 0], 1)
            }
        };
        proof {
            assert(r.0@ =~= self.encode_bytes());
        }
        r
    }

    /// Send this command over the sink as one command-class payload holding
    /// exactly the command's wire bytes. Success or not, it costs exactly
    /// one send attempt and leaves the data channel untouched: there is no
    /// retry, and a failed send delivers nothing.
    pub fn send<S: BusSink>(self, iface: &mut S) -> (r: Result<(), TransportError>)
        ensures
            final(iface).attempts() == old(iface).attempts() + 1,
            final(iface).data() == old(iface).data(),
            r is Ok ==> final(iface).cmds() == old(iface).cmds().push(self.wire_bytes()),
            r is Err ==> final(iface).cmds() == old(iface).cmds(),
    {
        let (bytes, len) = self.encode();
        iface.send_commands(slice_subrange(bytes.as_slice(), 0, len))
    }
}

/// Horizontal scroll direction.
#[derive(Debug, Clone, Copy)]
pub enum HScrollDir {
    /// Left to right.
    LeftToRight,
    /// Right to left.
    RightToLeft,
}

/// Display clock frequency preset.
#[derive(Debug, Clone, Copy)]
pub enum FrontClockDivideRatio {
    /// 80 Hz.
    Hz80,
    /// 90 Hz.
    Hz90,
    /// 100 Hz.
    Hz100,
    /// 110 Hz.
    Hz110,
    /// 120 Hz.
    Hz120,
    /// 130 Hz.
    Hz130,
}

impl FrontClockDivideRatio {
    /// The register value of this frequency preset.
    pub open spec fn spec_value(self) -> u8 {
        match self {
            FrontClockDivideRatio::Hz80 => 0xC1,
            FrontClockDivideRatio::Hz90 => 0xE1,
            FrontClockDivideRatio::Hz100 => 0x00,
            FrontClockDivideRatio::Hz110 => 0x30,
            FrontClockDivideRatio::Hz120 => 0x50,
            FrontClockDivideRatio::Hz130 => 0x70,
        }
    }

    /// The register value of this frequency preset.
    pub fn value(self) -> (b: u8)
        ensures
            b == self.spec_value(),
    {
        match self {
            FrontClockDivideRatio::Hz80 => 0xC1,
            FrontClockDivideRatio::Hz90 => 0xE1,
            FrontClockDivideRatio::Hz100 => 0x00,
            FrontClockDivideRatio::Hz110 => 0x30,
            FrontClockDivideRatio::Hz120 => 0x50,
            FrontClockDivideRatio::Hz130 => 0x70,
        }
    }
}

/// Scroll step interval in frames.
#[derive(Debug, Clone, Copy)]
pub enum NFrames {
    /// 2 frames.
    F2,
    /// 3 frames.
    F3,
    /// 4 frames.
    F4,
    /// 5 frames.
    F5,
    /// 6 frames.
    F6,
    /// 32 frames.
    F32,
    /// 64 frames.
    F64,
    /// 256 frames.
    F256,
}

impl NFrames {
    /// The register value of this frame interval.
    pub open spec fn spec_value(self) -> u8 {
        match self {
            NFrames::F2 => 0b111,
            NFrames::F3 => 0b100,
            NFrames::F4 => 0b101,
            NFrames::F5 => 0b110,
            NFrames::F6 => 0b000,
            NFrames::F32 => 0b001,
            NFrames::F64 => 0b010,
            NFrames::F256 => 0b011,
        }
    }

    /// The register value of this frame interval.
    pub fn value(self) -> (b: u8)
        ensures
            b == self.spec_value(),
    {
        match self {
            NFrames::F2 => 0b111,
            NFrames::F3 => 0b100,
            NFrames::F4 => 0b101,
            NFrames::F5 => 0b110,
            NFrames::F6 => 0b000,
            NFrames::F32 => 0b001,
            NFrames::F64 => 0b010,
            NFrames::F256 => 0b011,
        }
    }
}

/// VCOMH deselect level.
#[derive(Debug, Clone, Copy)]
pub enum VcomhLevel {
    /// 0.72 * Vcc.
    V072,
    /// 0.82 * Vcc.
    V082,
    /// 0.86 * Vcc.
    V086,
}

impl VcomhLevel {
    /// The register value of this deselect level.
    pub open spec fn spec_value(self) -> u8 {
        match self {
            VcomhLevel::V072 => 0b000,
            VcomhLevel::V082 => 0b101,
            VcomhLevel::V086 => 0b111,
        }
    }

    /// The register value of this deselect level.
    pub fn value(self) -> (b: u8)
        ensures
            b == self.spec_value(),
    {
        match self {
            VcomhLevel::V072 => 0b000,
            VcomhLevel::V082 => 0b101,
            VcomhLevel::V086 => 0b111,
        }
    }
}

/// Display mode.
#[derive(Debug, Clone, Copy)]
pub enum DisplayMode {
    /// Normal mode.
    Normal,
    /// Entire display on.
    AllOn,
    /// Entire display off.
    AllOff,
    /// Inverted mode.
    Invert,
}

impl DisplayMode {
    /// The full opcode byte of this display mode.
    pub open spec fn spec_value(self) -> u8 {
        match self {
            DisplayMode::Normal => 0xA4,
            DisplayMode::AllOn => 0xA5,
            DisplayMode::AllOff => 0xA6,
            DisplayMode::Invert => 0xA7,
        }
    }

    /// The full opcode byte of this display mode.
    pub fn value(self) -> (b: u8)
        ensures
            b == self.spec_value(),
    {
        match self {
            DisplayMode::Normal => 0xA4,
            DisplayMode::AllOn => 0xA5,
            DisplayMode::AllOff => 0xA6,
            DisplayMode::Invert => 0xA7,
        }
    }
}

/// Period of phases 1 and 2.
#[derive(Debug, Clone, Copy)]
pub enum PhaseLength {
    /// Phase 1: reset.
    PhaseReset,
    /// Phase 2: pre-charge.
    PhasePreCharge,
    /// Both phases.
    PhaseAuto,
}

impl PhaseLength {
    /// The register value of this phase setting.
    pub open spec fn spec_value(self) -> u8 {
        match self {
            PhaseLength::PhaseReset => 0x0F,
            PhaseLength::PhasePreCharge => 0xF0,
            PhaseLength::PhaseAuto => 0xF1,
        }
    }

    /// The register value of this phase setting.
    pub fn value(self) -> (b: u8)
        ensures
            b == self.spec_value(),
    {
        match self {
            PhaseLength::PhaseReset => 0x0F,
            PhaseLength::PhasePreCharge => 0xF0,
            PhaseLength::PhaseAuto => 0xF1,
        }
    }
}

/// Pre-charge voltage level.
#[derive(Debug, Clone, Copy)]
pub enum PreChargeVoltageLevel {
    /// 0.20 * Vcc.
    V020,
    /// 0.50 * Vcc.
    V050,
    /// 0.613 * Vcc.
    V0613,
    /// VCOMH.
    Vcomh,
}

impl PreChargeVoltageLevel {
    /// The register value of this voltage level.
    pub open spec fn spec_value(self) -> u8 {
        match self {
            PreChargeVoltageLevel::V020 => 0x00,
            PreChargeVoltageLevel::V050 => 0x05,
            PreChargeVoltageLevel::V0613 => 0x07,
            PreChargeVoltageLevel::Vcomh => 0x08,
        }
    }

    /// The register value of this voltage level.
    pub fn value(self) -> (b: u8)
        ensures
            b == self.spec_value(),
    {
        match self {
            PreChargeVoltageLevel::V020 => 0x00,
            PreChargeVoltageLevel::V050 => 0x05,
            PreChargeVoltageLevel::V0613 => 0x07,
            PreChargeVoltageLevel::Vcomh => 0x08,
        }
    }
}

/// The remap configuration byte built from the seven orientation flags.
///
/// Flag `i` of the argument order occupies bit `i`; bit 7 is always clear.
pub open spec fn spec_generate_remap(
    col_remap: bool,
    nibble_remap: bool,
    dir_increment: bool,
    vertical_scale: bool,
    com_remap: bool,
    horizontal_scale: bool,
    odd_even_com_split: bool,
) -> u8 {
    0x7F & ((if col_remap { 1u8 } else { 0u8 })
        | (if nibble_remap { 1u8 } else { 0u8 }) << 1
        | (if dir_increment { 1u8 } else { 0u8 }) << 2
        | (if vertical_scale { 1u8 } else { 0u8 }) << 3
        | (if com_remap { 1u8 } else { 0u8 }) << 4
        | (if horizontal_scale { 1u8 } else { 0u8 }) << 5
        | (if odd_even_com_split { 1u8 } else { 0u8 }) << 6)
}

/// Build a remap configuration byte from seven independent orientation
/// flags, masked to the register's seven significant bits.
pub fn generate_remap(
    col_remap: bool,
    nibble_remap: bool,
    dir_increment: bool,
    vertical_scale: bool,
    com_remap: bool,
    horizontal_scale: bool,
    odd_even_com_split: bool,
) -> (r: u8)
    ensures
        r == spec_generate_remap(
            col_remap,
            nibble_remap,
            dir_increment,
            vertical_scale,
            com_remap,
            horizontal_scale,
            odd_even_com_split,
        ),
{
    0x7F & ((if col_remap { 1u8 } else { 0u8 })
        | (if nibble_remap { 1u8 } else { 0u8 }) << 1u8
        | (if dir_increment { 1u8 } else { 0u8 }) << 2u8
        | (if vertical_scale { 1u8 } else { 0u8 }) << 3u8
        | (if com_remap { 1u8 } else { 0u8 }) << 4u8
        | (if horizontal_scale { 1u8 } else { 0u8 }) << 5u8
        | (if odd_even_com_split { 1u8 } else { 0u8 }) << 6u8)
}

proof fn lemma_remap_mask_bits(b0: u8, b1: u8, b2: u8, b3: u8, b4: u8, b5: u8, b6: u8)
    by (bit_vector)
    requires
        b0 <= 1,
        b1 <= 1,
        b2 <= 1,
        b3 <= 1,
        b4 <= 1,
        b5 <= 1,
        b6 <= 1,
    ensures
        ({
            let r = 0x7F & (b0 | b1 << 1 | b2 << 2 | b3 << 3 | b4 << 4 | b5 << 5 | b6 << 6);
            &&& r & 0x80 == 0
            &&& ((r & 0x01) != 0) == (b0 == 1)
            &&& ((r & 0x02) != 0) == (b1 == 1)
            &&& ((r & 0x04) != 0) == (b2 == 1)
            &&& ((r & 0x08) != 0) == (b3 == 1)
            &&& ((r & 0x10) != 0) == (b4 == 1)
            &&& ((r & 0x20) != 0) == (b5 == 1)
            &&& ((r & 0x40) != 0) == (b6 == 1)
        }),
{
}

/// Each orientation flag governs exactly its own bit of the remap byte
/// (flag `i` of the argument order is bit `i`), and bit 7 is always clear,
/// for every combination of the seven flags.
pub proof fn lemma_generate_remap_bits(
    col_remap: bool,
    nibble_remap: bool,
    dir_increment: bool,
    vertical_scale: bool,
    com_remap: bool,
    horizontal_scale: bool,
    odd_even_com_split: bool,
)
    ensures
        ({
            let r = spec_generate_remap(
                col_remap,
                nibble_remap,
                dir_increment,
                vertical_scale,
                com_remap,
                horizontal_scale,
                odd_even_com_split,
            );
            &&& r & 0x80 == 0
            &&& ((r & 0x01) != 0) == col_remap
            &&& ((r & 0x02) != 0) == nibble_remap
            &&& ((r & 0x04) != 0) == dir_increment
            &&& ((r & 0x08) != 0) == vertical_scale
            &&& ((r & 0x10) != 0) == com_remap
            &&& ((r & 0x20) != 0) == horizontal_scale
            &&& ((r & 0x40) != 0) == odd_even_com_split
        }),
{
    let b0: u8 = if col_remap { 1 } else { 0 };
    let b1: u8 = if nibble_remap { 1 } else { 0 };
    let b2: u8 = if dir_increment { 1 } else { 0 };
    let b3: u8 = if vertical_scale { 1 } else { 0 };
    let b4: u8 = if com_remap { 1 } else { 0 };
    let b5: u8 = if horizontal_scale { 1 } else { 0 };
    let b6: u8 = if odd_even_com_split { 1 } else { 0 };
    lemma_remap_mask_bits(b0, b1, b2, b3, b4, b5, b6);
}

/// Encoding a column-address command yields the opcode 0x15 followed by the
/// two boundary bytes, unmasked, with a reported length of 3, for all
/// boundary values: this layer passes column addresses through as given and
/// leaves the chip's own register masking to the chip.
pub proof fn lemma_column_address_encoding(start: u8, end: u8)
    ensures
        Command::ColumnAddress(start, end).encode_bytes() == seq![
            0x15u8,
            start,
            end,
            0u8,
            0u8,
            0u8,
            0u8,
        ],
        Command::ColumnAddress(start, end).encode_len() == 3,
        Command::ColumnAddress(start, end).wire_bytes() == seq![0x15u8, start, end],
{
    assert(Command::ColumnAddress(start, end).wire_bytes() =~= seq![0x15u8, start, end]);
}

/// Every command encodes to a full seven-byte buffer of which between one
/// and seven leading bytes are valid and transmitted.
pub proof fn lemma_encoding_bounded(c: Command)
    ensures
        c.encode_bytes().len() == 7,
        1 <= c.encode_len() <= 7,
        c.wire_bytes().len() == c.encode_len(),
{
}

} // verus!
