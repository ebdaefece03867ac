//! Native display dimensions.

use vstd::prelude::*;
use crate::command::Command;
use crate::error::TransportError;
use crate::interface::BusSink;

verus! {

/// The native (width, height) of a display variant in pixels, fixed at
/// construction time and never mutated.
#[derive(Debug, Clone, Copy, PartialEq, Eq)]
pub struct DisplaySize {
    /// Native width in pixels.
    pub width: u8,
    /// Native height in pixels.
    pub height: u8,
}

impl DisplaySize {
    /// A size is valid when both dimensions hold at least one pixel.
    pub open spec fn wf(self) -> bool {
        self.width >= 1 && self.height >= 1
    }

    /// Bytes of a full framebuffer at this size: one bit per pixel, packed
    /// eight rows per byte, whole pages.
    pub open spec fn spec_buffer_len(self) -> int {
        ((self.height + 7) / 8) * self.width
    }

    /// Bytes of the full pixel capacity of the chip's memory at this size,
    /// rounded up to whole bytes.
    pub open spec fn spec_capacity_bytes(self) -> int {
        (self.width * self.height + 7) / 8
    }

    /// A display size of the given dimensions.
    pub fn new(width: u8, height: u8) -> (s: DisplaySize)
        requires
            width >= 1,
            height >= 1,
        ensures
            s.width == width,
            s.height == height,
            s.wf(),
    {
        DisplaySize { width, height }
    }

    /// The 128 by 128 pixel display variant.
    pub fn new_128x128() -> (s: DisplaySize)
        ensures
            s.width == 128,
            s.height == 128,
            s.wf(),
    {
        DisplaySize { width: 128, height: 128 }
    }

    /// The 128 by 64 pixel display variant.
    pub fn new_128x64() -> (s: DisplaySize)
        ensures
            s.width == 128,
            s.height == 64,
            s.wf(),
    {
        DisplaySize { width: 128, height: 64 }
    }

    /// Program the size-dependent addressing configuration: the multiplex
    /// ratio, which tells the chip how many of its rows this variant drives.
    pub fn configure<S: BusSink>(&self, iface: &mut S) -> (r: Result<(), TransportError>)
        requires
            self.wf(),
        ensures
            final(iface).attempts() == old(iface).attempts() + 1,
            final(iface).data() == old(iface).data(),
            r is Ok ==> final(iface).cmds() == old(iface).cmds().push(
                Command::MultiplexRatio((self.height - 1) as u8).wire_bytes(),
            ),
            r is Err ==> final(iface).cmds() == old(iface).cmds(),
    {
        Command::MultiplexRatio(self.height - 1).send(iface)
    }
}

} // verus!
