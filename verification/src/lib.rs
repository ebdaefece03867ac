//! Driver core for the SSD1327 monochrome OLED controller.
//!
//! The crate translates high-level configuration and drawing requests into
//! the exact byte sequences the controller chip understands, tracks the
//! chip-visible state (rotation, addressing window, power), and keeps the
//! amount of data transferred during a redraw to the dirty region only.
//!
//! All traffic leaves through the [`interface::BusSink`] capability: a
//! write-only command/data sink that the application supplies (I2C or SPI).

pub mod brightness;
pub mod command;
pub mod error;
pub mod flush;
pub mod interface;
pub mod mode;
pub mod rotation;
pub mod size;

use vstd::prelude::*;
use crate::brightness::Brightness;
use crate::command::Command;
use crate::command::DisplayMode;
use crate::command::FrontClockDivideRatio;
use crate::command::HScrollDir;
use crate::command::NFrames;
use crate::command::PhaseLength;
use crate::command::PreChargeVoltageLevel;
use crate::command::VcomhLevel;
use crate::error::TransportError;
use crate::flush::flush_region;
use crate::flush::flushed_pages;
use crate::flush::pages_written;
use crate::flush::region_in_bounds;
use crate::interface::BusSink;
use crate::mode::BasicMode;
use crate::mode::BufferedGraphicsMode;
use crate::mode::TerminalMode;
use crate::rotation::DisplayRotation;
use crate::rotation::RotationMapper;
use crate::rotation::spec_dimensions;
use crate::rotation::spec_mirror_remap_value;
use crate::rotation::spec_remap_value;
use crate::rotation::spec_start_line;
use crate::size::DisplaySize;

verus! {

/// The SSD1327 driver.
///
/// It owns the bus sink exclusively, the native size, the logical rotation,
/// and a mode-specific payload; some methods are only available in certain
/// modes. Every command or data transfer it issues is stated against the
/// sink's command and data logs, so the exact wire traffic of an operation
/// is part of its contract.
#[derive(Debug)]
pub struct Ssd1327<S, MODE> {
    /// The command/data sink the display was constructed with.
    pub interface: S,
    /// The mode-specific payload.
    pub mode: MODE,
    /// The native display size.
    pub size: DisplaySize,
    /// The current logical rotation.
    pub rotation: DisplayRotation,
}

/// The wire payloads of the full chip bring-up sequence, in order: power
/// off, size addressing, rotation remap and start line, offset and mode,
/// phase, clock and regulator, brightness pair, voltage levels, lock and
/// scroll setup, power on.
pub open spec fn init_command_wires(size: DisplaySize, rotation: DisplayRotation) -> Seq<
    Seq<u8>,
> {
    seq![
        Command::DisplayOn(false).wire_bytes(),
        Command::MultiplexRatio((size.height - 1) as u8).wire_bytes(),
        Command::Remap(spec_remap_value(rotation)).wire_bytes(),
        Command::DisplayStartLine(spec_start_line(rotation)).wire_bytes(),
        Command::DisplayOffset(0x00).wire_bytes(),
        Command::DisplayMode(DisplayMode::Normal).wire_bytes(),
        Command::PhaseLength(PhaseLength::PhaseAuto).wire_bytes(),
        Command::FrontClockDivideRatio(FrontClockDivideRatio::Hz100).wire_bytes(),
        Command::VoltageRegulator(true).wire_bytes(),
        Command::SecondPreChargePeriod(Brightness::spec_default().precharge).wire_bytes(),
        Command::Contrast(Brightness::spec_default().contrast).wire_bytes(),
        Command::VcomhVoltage(VcomhLevel::V082).wire_bytes(),
        Command::PreChargeVoltage(PreChargeVoltageLevel::V050).wire_bytes(),
        Command::FunctionSelectionB(0x62).wire_bytes(),
        Command::CommandLock(false).wire_bytes(),
        Command::HorizontalScrollSetup(
            HScrollDir::LeftToRight,
            0,
            0x3F,
            0,
            0x7F,
            NFrames::F2,
        ).wire_bytes(),
        Command::EnableScroll(false).wire_bytes(),
        Command::DisplayOn(true).wire_bytes(),
    ]
}

impl<S: BusSink> Ssd1327<S, BasicMode> {
    /// A display over the given sink, in basic mode.
    ///
    /// Use the `into_*_mode` methods to enable more functionality.
    pub fn new(interface: S, size: DisplaySize, rotation: DisplayRotation) -> (d: Ssd1327<
        S,
        BasicMode,
    >)
        ensures
            d.interface == interface,
            d.size == size,
            d.rotation == rotation,
            d.mode == BasicMode,
    {
        Ssd1327 { interface, mode: BasicMode, size, rotation }
    }
}

impl<S: BusSink, MODE> Ssd1327<S, MODE> {
    /// Convert the display into another mode, keeping sink, size and
    /// rotation.
    fn into_mode<MODE2>(self, mode: MODE2) -> (d: Ssd1327<S, MODE2>)
        ensures
            d.interface == self.interface,
            d.size == self.size,
            d.rotation == self.rotation,
            d.mode == mode,
    {
        Ssd1327 { mode, interface: self.interface, size: self.size, rotation: self.rotation }
    }

    /// Convert the display into the buffered graphics mode: the payload
    /// becomes a fresh all-zero framebuffer of `ceil(height / 8) * width`
    /// bytes.
    pub fn into_buffered_graphics_mode(self) -> (d: Ssd1327<S, BufferedGraphicsMode>)
        ensures
            d.interface == self.interface,
            d.size == self.size,
            d.rotation == self.rotation,
            d.mode.buffer@ == Seq::new(self.size.spec_buffer_len() as nat, |i: int| 0u8),
    {
        let mode = BufferedGraphicsMode::new(self.size);
        self.into_mode(mode)
    }

    /// Convert the display into the text-only terminal mode: the payload
    /// becomes a zeroed cursor.
    pub fn into_terminal_mode(self) -> (d: Ssd1327<S, TerminalMode>)
        ensures
            d.interface == self.interface,
            d.size == self.size,
            d.rotation == self.rotation,
            d.mode.cursor == (0u8, 0u8),
    {
        self.into_mode(TerminalMode::new())
    }

    /// Run the full chip bring-up sequence. The chip retains nothing across
    /// a power cycle, so every register the driver relies on is programmed:
    /// on success the sink has received exactly
    /// [`init_command_wires`] of this size and rotation, in order. The
    /// first transport failure aborts the remaining commands and is
    /// returned unchanged, leaving exactly the sequence prefix before the
    /// failing send delivered; the chip is then left partially configured.
    /// Nothing is retried and nothing is sent after a failure: at most the
    /// sequence's eighteen sends are ever attempted.
    pub fn init_basic(&mut self) -> (r: Result<(), TransportError>)
        requires
            old(self).size.wf(),
        ensures
            final(self).size == old(self).size,
            final(self).rotation == old(self).rotation,
            final(self).mode == old(self).mode,
            final(self).interface.data() == old(self).interface.data(),
            old(self).interface.attempts() + 1 <= final(self).interface.attempts() <= old(
                self,
            ).interface.attempts() + 18,
            r is Ok ==> final(self).interface.attempts() == old(self).interface.attempts() + 18,
            r is Ok ==> final(self).interface.cmds() == old(self).interface.cmds()
                + init_command_wires(old(self).size, old(self).rotation),
            r is Err ==> final(self).interface.cmds() == old(self).interface.cmds()
                + init_command_wires(old(self).size, old(self).rotation).take(
                final(self).interface.attempts() - old(self).interface.attempts() - 1,
            ),
    {
        let (remap, start_line) = RotationMapper::apply(self.rotation);
        let brightness = Brightness::default();
        let commands: [Command; 18] = [
            Command::DisplayOn(false),
            Command::MultiplexRatio(self.size.height - 1),
            Command::Remap(remap),
            Command::DisplayStartLine(start_line),
            Command::DisplayOffset(0x00),
            Command::DisplayMode(DisplayMode::Normal),
            Command::PhaseLength(PhaseLength::PhaseAuto),
            Command::FrontClockDivideRatio(FrontClockDivideRatio::Hz100),
            Command::VoltageRegulator(true),
            Command::SecondPreChargePeriod(brightness.precharge),
            Command::Contrast(brightness.contrast),
            Command::VcomhVoltage(VcomhLevel::V082),
            Command::PreChargeVoltage(PreChargeVoltageLevel::V050),
            Command::FunctionSelectionB(0x62),
            Command::CommandLock(false),
            Command::HorizontalScrollSetup(HScrollDir::LeftToRight, 0, 0x3F, 0, 0x7F, NFrames::F2),
            Command::EnableScroll(false),
            Command::DisplayOn(true),
        ];
        let ghost wires = init_command_wires(self.size, self.rotation);
        proof {
            assert(commands@.map_values(|c: Command| c.wire_bytes()) =~= wires);
        }

        let mut i: usize = 0;
        while i < 18
            invariant
                i <= 18,
                self.size == old(self).size,
                self.rotation == old(self).rotation,
                self.mode == old(self).mode,
                commands@.len() == 18,
                commands@.map_values(|c: Command| c.wire_bytes()) == wires,
                wires == init_command_wires(old(self).size, old(self).rotation),
                self.interface.cmds() == old(self).interface.cmds() + wires.take(i as int),
                self.interface.data() == old(self).interface.data(),
                self.interface.attempts() == old(self).interface.attempts() + i,
            decreases 18 - i,
        {
            let command = commands[i];
            proof {
                assert(commands@.map_values(|c: Command| c.wire_bytes())[i as int]
                    == command.wire_bytes());
            }
            match command.send(&mut self.interface) {
                Ok(_) => {},
                Err(e) => {
                    return Err(e);
                },
            }
            proof {
                assert(wires.take(i as int).push(wires[i as int]) =~= wires.take(i as int + 1));
            }
            i = i + 1;
        }
        proof {
            assert(wires.take(18) =~= wires);
        }
        Ok(())
    }

    /// Send the dirty rectangle of `buffer` to the display, one data write
    /// per covered page, through the flush engine. The address window must
    /// already match the same rectangle (see [`Self::set_draw_area`]) or
    /// the pixels land in the wrong screen position.
    pub fn bounded_draw(
        &mut self,
        buffer: &[u8],
        disp_width: usize,
        upper_left: (u8, u8),
        lower_right: (u8, u8),
    ) -> (r: Result<(), TransportError>)
        requires
            disp_width >= 1,
            upper_left.0 <= lower_right.0,
            upper_left.1 <= lower_right.1,
            region_in_bounds(buffer@.len() as int, disp_width as int, upper_left, lower_right),
        ensures
            final(self).size == old(self).size,
            final(self).rotation == old(self).rotation,
            final(self).mode == old(self).mode,
            final(self).interface.attempts() <= old(self).interface.attempts() + pages_written(
                buffer@.len() as int,
                disp_width as int,
                upper_left,
                lower_right,
            ),
            r is Ok ==> final(self).interface.attempts() == old(self).interface.attempts()
                + pages_written(buffer@.len() as int, disp_width as int, upper_left, lower_right),
            final(self).interface.cmds() == old(self).interface.cmds(),
            r is Ok ==> final(self).interface.data() == old(self).interface.data()
                + flushed_pages(buffer@, disp_width as int, upper_left, lower_right),
            r is Err ==> final(self).interface.data() == old(self).interface.data()
                + flushed_pages(buffer@, disp_width as int, upper_left, lower_right).take(
                final(self).interface.attempts() - old(self).interface.attempts() - 1,
            ),
    {
        flush_region(&mut self.interface, buffer, disp_width, upper_left, lower_right)
    }

    /// Send a raw buffer to the display as one data write.
    pub fn draw(&mut self, buffer: &[u8]) -> (r: Result<(), TransportError>)
        ensures
            final(self).size == old(self).size,
            final(self).rotation == old(self).rotation,
            final(self).mode == old(self).mode,
            final(self).interface.attempts() == old(self).interface.attempts() + 1,
            final(self).interface.cmds() == old(self).interface.cmds(),
            r is Ok ==> final(self).interface.data() == old(self).interface.data().push(buffer@),
            r is Err ==> final(self).interface.data() == old(self).interface.data(),
    {
        self.interface.send_data(buffer)
    }

    /// The display dimensions under the current rotation: the native size,
    /// transposed at 90 and 270 degrees.
    pub fn dimensions(&self) -> (r: (u8, u8))
        ensures
            r == spec_dimensions(self.rotation, (self.size.width, self.size.height)),
    {
        RotationMapper::dimensions(self.rotation, (self.size.width, self.size.height))
    }

    /// The current display rotation.
    pub fn rotation(&self) -> (r: DisplayRotation)
        ensures
            r == self.rotation,
    {
        self.rotation
    }

    /// Set the display rotation: store it and send the rotation's remap
    /// bit pattern and start line register pair. The stored rotation is
    /// updated even when a send fails.
    pub fn set_rotation(&mut self, rotation: DisplayRotation) -> (r: Result<(), TransportError>)
        ensures
            final(self).size == old(self).size,
            final(self).mode == old(self).mode,
            final(self).rotation == rotation,
            old(self).interface.attempts() + 1 <= final(self).interface.attempts() <= old(
                self,
            ).interface.attempts() + 2,
            r is Ok ==> final(self).interface.attempts() == old(self).interface.attempts() + 2,
            final(self).interface.data() == old(self).interface.data(),
            r is Ok ==> final(self).interface.cmds() == old(self).interface.cmds().push(
                Command::Remap(spec_remap_value(rotation)).wire_bytes(),
            ).push(Command::DisplayStartLine(spec_start_line(rotation)).wire_bytes()),
            r is Err ==> final(self).interface.cmds() == (if final(self).interface.attempts()
                == old(self).interface.attempts() + 1 {
                old(self).interface.cmds()
            } else {
                old(self).interface.cmds().push(
                    Command::Remap(spec_remap_value(rotation)).wire_bytes(),
                )
            }),
    {
        self.rotation = rotation;

        let (remap, start_line) = RotationMapper::apply(rotation);
        Command::Remap(remap).send(&mut self.interface)?;
        Command::DisplayStartLine(start_line).send(&mut self.interface)?;

        Ok(())
    }

    /// Enable or disable mirroring. Enabling sends the current rotation's
    /// remap pattern with the column-remap bit flipped, without changing
    /// the stored rotation; disabling re-applies the plain rotation
    /// mapping.
    pub fn set_mirror(&mut self, mirror: bool) -> (r: Result<(), TransportError>)
        ensures
            final(self).size == old(self).size,
            final(self).mode == old(self).mode,
            final(self).rotation == old(self).rotation,
            old(self).interface.attempts() + 1 <= final(self).interface.attempts() <= old(
                self,
            ).interface.attempts() + 2,
            r is Ok ==> final(self).interface.attempts() == old(self).interface.attempts() + 2,
            final(self).interface.data() == old(self).interface.data(),
            r is Ok ==> final(self).interface.cmds() == old(self).interface.cmds().push(
                Command::Remap(
                    if mirror {
                        spec_mirror_remap_value(old(self).rotation)
                    } else {
                        spec_remap_value(old(self).rotation)
                    },
                ).wire_bytes(),
            ).push(
                Command::DisplayStartLine(spec_start_line(old(self).rotation)).wire_bytes(),
            ),
            r is Err ==> final(self).interface.cmds() == (if final(self).interface.attempts()
                == old(self).interface.attempts() + 1 {
                old(self).interface.cmds()
            } else {
                old(self).interface.cmds().push(
                    Command::Remap(
                        if mirror {
                            spec_mirror_remap_value(old(self).rotation)
                        } else {
                            spec_remap_value(old(self).rotation)
                        },
                    ).wire_bytes(),
                )
            }),
    {
        if mirror {
            let (remap, start_line) = RotationMapper::apply_mirrored(self.rotation);
            Command::Remap(remap).send(&mut self.interface)?;
            Command::DisplayStartLine(start_line).send(&mut self.interface)?;
            Ok(())
        } else {
            let rotation = self.rotation;
            self.set_rotation(rotation)
        }
    }

    /// Change the display brightness: the second pre-charge period, then
    /// the contrast.
    pub fn set_brightness(&mut self, brightness: Brightness) -> (r: Result<(), TransportError>)
        ensures
            final(self).size == old(self).size,
            final(self).mode == old(self).mode,
            final(self).rotation == old(self).rotation,
            old(self).interface.attempts() + 1 <= final(self).interface.attempts() <= old(
                self,
            ).interface.attempts() + 2,
            r is Ok ==> final(self).interface.attempts() == old(self).interface.attempts() + 2,
            final(self).interface.data() == old(self).interface.data(),
            r is Ok ==> final(self).interface.cmds() == old(self).interface.cmds().push(
                Command::SecondPreChargePeriod(brightness.precharge).wire_bytes(),
            ).push(Command::Contrast(brightness.contrast).wire_bytes()),
            r is Err ==> final(self).interface.cmds() == (if final(self).interface.attempts()
                == old(self).interface.attempts() + 1 {
                old(self).interface.cmds()
            } else {
                old(self).interface.cmds().push(
                    Command::SecondPreChargePeriod(brightness.precharge).wire_bytes(),
                )
            }),
    {
        Command::SecondPreChargePeriod(brightness.precharge).send(&mut self.interface)?;
        Command::Contrast(brightness.contrast).send(&mut self.interface)
    }

    /// Turn the display on or off. The chip can be drawn to and retains
    /// all of its memory while off.
    pub fn set_display_on(&mut self, on: bool) -> (r: Result<(), TransportError>)
        ensures
            final(self).size == old(self).size,
            final(self).mode == old(self).mode,
            final(self).rotation == old(self).rotation,
            final(self).interface.attempts() == old(self).interface.attempts() + 1,
            final(self).interface.data() == old(self).interface.data(),
            r is Ok ==> final(self).interface.cmds() == old(self).interface.cmds().push(
                Command::DisplayOn(on).wire_bytes(),
            ),
            r is Err ==> final(self).interface.cmds() == old(self).interface.cmds(),
    {
        Command::DisplayOn(on).send(&mut self.interface)
    }

    /// Program the address window that bounds where sent data is drawn.
    /// Callers supply exclusive end coordinates; the chip takes inclusive
    /// ones, so each end value is sent decremented by one (saturating at
    /// zero). The window is not persistent state of this driver: it is
    /// re-issued before every bounded write.
    pub fn set_draw_area(&mut self, start: (u8, u8), end: (u8, u8)) -> (r: Result<
        (),
        TransportError,
    >)
        ensures
            final(self).size == old(self).size,
            final(self).mode == old(self).mode,
            final(self).rotation == old(self).rotation,
            old(self).interface.attempts() + 1 <= final(self).interface.attempts() <= old(
                self,
            ).interface.attempts() + 2,
            r is Ok ==> final(self).interface.attempts() == old(self).interface.attempts() + 2,
            final(self).interface.data() == old(self).interface.data(),
            r is Ok ==> final(self).interface.cmds() == old(self).interface.cmds().push(
                Command::ColumnAddress(start.0, end.0.saturating_sub(1)).wire_bytes(),
            ).push(Command::RowAddress(start.1, end.1.saturating_sub(1)).wire_bytes()),
            r is Err ==> final(self).interface.cmds() == (if final(self).interface.attempts()
                == old(self).interface.attempts() + 1 {
                old(self).interface.cmds()
            } else {
                old(self).interface.cmds().push(
                    Command::ColumnAddress(start.0, end.0.saturating_sub(1)).wire_bytes(),
                )
            }),
    {
        Command::ColumnAddress(start.0, end.0.saturating_sub(1)).send(&mut self.interface)?;
        Command::RowAddress(start.1, end.1.saturating_sub(1)).send(&mut self.interface)?;

        Ok(())
    }

    /// Set the column address where the next sent data is drawn. The end
    /// bound is sent as `width - column`, the chip-facing convention this
    /// driver keeps for the single-coordinate form (unlike the inclusive
    /// `end - 1` of [`Self::set_draw_area`]).
    pub fn set_column(&mut self, column: u8) -> (r: Result<(), TransportError>)
        requires
            column <= old(self).size.width,
        ensures
            final(self).size == old(self).size,
            final(self).mode == old(self).mode,
            final(self).rotation == old(self).rotation,
            final(self).interface.attempts() == old(self).interface.attempts() + 1,
            final(self).interface.data() == old(self).interface.data(),
            r is Ok ==> final(self).interface.cmds() == old(self).interface.cmds().push(
                Command::ColumnAddress(
                    column,
                    (old(self).size.width - column) as u8,
                ).wire_bytes(),
            ),
            r is Err ==> final(self).interface.cmds() == old(self).interface.cmds(),
    {
        let width: u8 = self.size.width;
        Command::ColumnAddress(column, width - column).send(&mut self.interface)
    }

    /// Set the row address where the next sent data is drawn. The
    /// parameter is in pixels; the chip starts at the page containing the
    /// row. The end bound is sent as `height - row`, matching
    /// [`Self::set_column`].
    pub fn set_row(&mut self, row: u8) -> (r: Result<(), TransportError>)
        requires
            row <= old(self).size.height,
        ensures
            final(self).size == old(self).size,
            final(self).mode == old(self).mode,
            final(self).rotation == old(self).rotation,
            final(self).interface.attempts() == old(self).interface.attempts() + 1,
            final(self).interface.data() == old(self).interface.data(),
            r is Ok ==> final(self).interface.cmds() == old(self).interface.cmds().push(
                Command::RowAddress(row, (old(self).size.height - row) as u8).wire_bytes(),
            ),
            r is Err ==> final(self).interface.cmds() == old(self).interface.cmds(),
    {
        let height: u8 = self.size.height;
        Command::RowAddress(row, height - row).send(&mut self.interface)
    }
}

} // verus!
