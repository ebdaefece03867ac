//! Display operating modes.
//!
//! The operating mode is part of the display's type, not a runtime flag:
//! a display is constructed in [`BasicMode`] and may be converted, once and
//! consuming it, into [`BufferedGraphicsMode`] or [`TerminalMode`]. There is
//! no way back and no transition between the two target modes, so an
//! operation illegal in a mode is unrepresentable rather than checked.

use vstd::prelude::*;
use crate::Ssd1327;
use crate::command::Command;
use crate::error::TransportError;
use crate::init_command_wires;
use crate::interface::BusSink;
use crate::rotation::DisplayRotation;
use crate::rotation::spec_remap_value;
use crate::rotation::spec_start_line;
use crate::size::DisplaySize;

verus! {

/// Common capability of every operating mode.
///
/// The ghost accessors expose what the capability works on — the sink's two
/// traffic logs, the native size, the stored rotation and the mode payload —
/// so that code generic over the mode gets the same exact guarantees as the
/// inherent [`Ssd1327`] methods that each implementation forwards to:
/// `init` emits exactly the bring-up sequence of the display's size and
/// rotation, and `set_rotation` stores the rotation and emits exactly its
/// remap/start-line register pair.
pub trait DisplayConfig {
    /// Error of configuration operations.
    type Error;

    /// The mode-specific payload carried by the display.
    type Payload;

    /// Whether configuration calls may be made on this value.
    spec fn wf_config(&self) -> bool;

    /// Command payloads the display's sink has delivered so far.
    spec fn cmd_traffic(&self) -> Seq<Seq<u8>>;

    /// Data payloads the display's sink has delivered so far.
    spec fn data_traffic(&self) -> Seq<Seq<u8>>;

    /// The native display size.
    spec fn config_size(&self) -> DisplaySize;

    /// The stored logical rotation.
    spec fn config_rotation(&self) -> DisplayRotation;

    /// The mode payload.
    spec fn config_payload(&self) -> Self::Payload;

    /// How many sends the display's sink has seen attempted, delivered or
    /// not.
    spec fn send_attempts(&self) -> int;

    /// Set the display rotation: store it (even when a send fails) and send
    /// the rotation's remap and start-line register pair, with no retry.
    fn set_rotation(&mut self, rotation: DisplayRotation) -> (r: Result<(), Self::Error>)
        requires
            old(self).wf_config(),
        ensures
            final(self).wf_config(),
            final(self).config_size() == old(self).config_size(),
            final(self).config_rotation() == rotation,
            final(self).config_payload() == old(self).config_payload(),
            old(self).send_attempts() + 1 <= final(self).send_attempts() <= old(
                self,
            ).send_attempts() + 2,
            r is Ok ==> final(self).send_attempts() == old(self).send_attempts() + 2,
            final(self).data_traffic() == old(self).data_traffic(),
            r is Ok ==> final(self).cmd_traffic() == old(self).cmd_traffic().push(
                Command::Remap(spec_remap_value(rotation)).wire_bytes(),
            ).push(Command::DisplayStartLine(spec_start_line(rotation)).wire_bytes()),
            r is Err ==> final(self).cmd_traffic() == (if final(self).send_attempts() == old(
                self,
            ).send_attempts() + 1 {
                old(self).cmd_traffic()
            } else {
                old(self).cmd_traffic().push(
                    Command::Remap(spec_remap_value(rotation)).wire_bytes(),
                )
            }),
    ;

    /// Initialise and configure the display for this mode: on success the
    /// sink has received exactly the full bring-up sequence of this size
    /// and rotation, and nothing on the data channel. A failure aborts the
    /// sequence with exactly the prefix before the failing send delivered:
    /// nothing is retried, and no more than its eighteen sends are ever
    /// attempted.
    fn init(&mut self) -> (r: Result<(), Self::Error>)
        requires
            old(self).wf_config(),
        ensures
            final(self).wf_config(),
            final(self).config_size() == old(self).config_size(),
            final(self).config_rotation() == old(self).config_rotation(),
            final(self).config_payload() == old(self).config_payload(),
            old(self).send_attempts() + 1 <= final(self).send_attempts() <= old(
                self,
            ).send_attempts() + 18,
            r is Ok ==> final(self).send_attempts() == old(self).send_attempts() + 18,
            final(self).data_traffic() == old(self).data_traffic(),
            r is Ok ==> final(self).cmd_traffic() == old(self).cmd_traffic()
                + init_command_wires(old(self).config_size(), old(self).config_rotation()),
            r is Err ==> final(self).cmd_traffic() == old(self).cmd_traffic()
                + init_command_wires(old(self).config_size(), old(self).config_rotation()).take(
                final(self).send_attempts() - old(self).send_attempts() - 1,
            ),
    ;
}

/// A mode with no functionality beyond the base [`Ssd1327`] methods.
#[derive(Debug, Copy, Clone)]
pub struct BasicMode;

/// A mode holding a full local framebuffer: one bit per pixel, packed eight
/// rows per byte in page layout, sized at construction and never resized.
#[derive(Debug)]
pub struct BufferedGraphicsMode {
    /// The local framebuffer, `ceil(height / 8) * width` bytes.
    pub buffer: Vec<u8>,
}

/// A bufferless mode that tracks only a character cursor position.
#[derive(Debug, Copy, Clone)]
pub struct TerminalMode {
    /// Cursor position in character cells, zeroed at construction.
    pub cursor: (u8, u8),
}

/// A vector of `len` zero bytes.
fn zeroed_buffer(len: usize) -> (v: Vec<u8>)
    ensures
        v@ == Seq::new(len as nat, |i: int| 0u8),
{
    let mut v: Vec<u8> = Vec::new();
    while v.len() < len
        invariant
            v@.len() <= len,
            forall|i: int| 0 <= i < v@.len() ==> v@[i] == 0u8,
        decreases len - v@.len(),
    {
        v.push(0u8);
    }
    proof {
        assert(v@ =~= Seq::new(len as nat, |i: int| 0u8));
    }
    v
}

impl BufferedGraphicsMode {
    /// A fresh, all-zero framebuffer for a display of the given size.
    pub fn new(size: DisplaySize) -> (m: BufferedGraphicsMode)
        ensures
            m.buffer@ == Seq::new(size.spec_buffer_len() as nat, |i: int| 0u8),
    {
        let pages: usize = (size.height as usize + 7) / 8;
        let width: usize = size.width as usize;
        proof {
            assert(pages * width <= 32 * 255) by (nonlinear_arith)
                requires
                    pages <= 32,
                    width <= 255,
            ;
        }
        let buffer = zeroed_buffer(pages * width);
        BufferedGraphicsMode { buffer }
    }
}

impl TerminalMode {
    /// A terminal mode with the cursor at the origin.
    pub fn new() -> (m: TerminalMode)
        ensures
            m.cursor == (0u8, 0u8),
    {
        TerminalMode { cursor: (0, 0) }
    }
}

impl<S: BusSink> Ssd1327<S, BasicMode> {
    /// Clear the display: program the address window to the full screen and
    /// write one all-zero buffer covering the chip's whole pixel capacity.
    pub fn clear(&mut self) -> (r: Result<(), TransportError>)
        requires
            old(self).size.wf(),
        ensures
            final(self).size == old(self).size,
            final(self).rotation == old(self).rotation,
            final(self).mode == old(self).mode,
            old(self).interface.attempts() + 1 <= final(self).interface.attempts() <= old(
                self,
            ).interface.attempts() + 3,
            r is Ok ==> final(self).interface.attempts() == old(self).interface.attempts() + 3,
            r is Ok ==> final(self).interface.cmds() == old(self).interface.cmds().push(
                Command::ColumnAddress(1, (old(self).size.width - 1) as u8).wire_bytes(),
            ).push(Command::RowAddress(1, (old(self).size.height - 1) as u8).wire_bytes()),
            r is Ok ==> final(self).interface.data() == old(self).interface.data().push(
                Seq::new(old(self).size.spec_capacity_bytes() as nat, |i: int| 0u8),
            ),
            r is Err ==> final(self).interface.data() == old(self).interface.data(),
            r is Err ==> final(self).interface.cmds() == (if final(self).interface.attempts()
                == old(self).interface.attempts() + 1 {
                old(self).interface.cmds()
            } else if final(self).interface.attempts() == old(self).interface.attempts() + 2 {
                old(self).interface.cmds().push(
                    Command::ColumnAddress(1, (old(self).size.width - 1) as u8).wire_bytes(),
                )
            } else {
                old(self).interface.cmds().push(
                    Command::ColumnAddress(1, (old(self).size.width - 1) as u8).wire_bytes(),
                ).push(Command::RowAddress(1, (old(self).size.height - 1) as u8).wire_bytes())
            }),
    {
        let width: u8 = self.size.width;
        let height: u8 = self.size.height;
        self.set_draw_area((1, 1), (width, height))?;

        let w: usize = width as usize;
        let h: usize = height as usize;
        proof {
            assert(w * h <= 255 * 255) by (nonlinear_arith)
                requires
                    w <= 255,
                    h <= 255,
            ;
        }
        let capacity: usize = (w * h + 7) / 8;
        let zeros = zeroed_buffer(capacity);
        self.draw(zeros.as_slice())
    }
}

impl<S: BusSink> DisplayConfig for Ssd1327<S, BasicMode> {
    type Error = TransportError;

    type Payload = BasicMode;

    open spec fn wf_config(&self) -> bool {
        self.size.wf()
    }

    open spec fn cmd_traffic(&self) -> Seq<Seq<u8>> {
        self.interface.cmds()
    }

    open spec fn data_traffic(&self) -> Seq<Seq<u8>> {
        self.interface.data()
    }

    open spec fn config_size(&self) -> DisplaySize {
        self.size
    }

    open spec fn config_rotation(&self) -> DisplayRotation {
        self.rotation
    }

    open spec fn config_payload(&self) -> BasicMode {
        self.mode
    }

    open spec fn send_attempts(&self) -> int {
        self.interface.attempts()
    }

    fn set_rotation(&mut self, rotation: DisplayRotation) -> (r: Result<(), TransportError>) {
        Ssd1327::set_rotation(self, rotation)
    }

    fn init(&mut self) -> (r: Result<(), TransportError>) {
        self.init_basic()
    }
}

impl<S: BusSink> DisplayConfig for Ssd1327<S, BufferedGraphicsMode> {
    type Error = TransportError;

    type Payload = BufferedGraphicsMode;

    open spec fn wf_config(&self) -> bool {
        self.size.wf()
    }

    open spec fn cmd_traffic(&self) -> Seq<Seq<u8>> {
        self.interface.cmds()
    }

    open spec fn data_traffic(&self) -> Seq<Seq<u8>> {
        self.interface.data()
    }

    open spec fn config_size(&self) -> DisplaySize {
        self.size
    }

    open spec fn config_rotation(&self) -> DisplayRotation {
        self.rotation
    }

    open spec fn config_payload(&self) -> BufferedGraphicsMode {
        self.mode
    }

    open spec fn send_attempts(&self) -> int {
        self.interface.attempts()
    }

    fn set_rotation(&mut self, rotation: DisplayRotation) -> (r: Result<(), TransportError>) {
        Ssd1327::set_rotation(self, rotation)
    }

    fn init(&mut self) -> (r: Result<(), TransportError>) {
        self.init_basic()
    }
}

impl<S: BusSink> DisplayConfig for Ssd1327<S, TerminalMode> {
    type Error = TransportError;

    type Payload = TerminalMode;

    open spec fn wf_config(&self) -> bool {
        self.size.wf()
    }

    open spec fn cmd_traffic(&self) -> Seq<Seq<u8>> {
        self.interface.cmds()
    }

    open spec fn data_traffic(&self) -> Seq<Seq<u8>> {
        self.interface.data()
    }

    open spec fn config_size(&self) -> DisplaySize {
        self.size
    }

    open spec fn config_rotation(&self) -> DisplayRotation {
        self.rotation
    }

    open spec fn config_payload(&self) -> TerminalMode {
        self.mode
    }

    open spec fn send_attempts(&self) -> int {
        self.interface.attempts()
    }

    fn set_rotation(&mut self, rotation: DisplayRotation) -> (r: Result<(), TransportError>) {
        Ssd1327::set_rotation(self, rotation)
    }

    fn init(&mut self) -> (r: Result<(), TransportError>) {
        self.init_basic()
    }
}

} // verus!
