//! Error type for command and data transfers.

use vstd::prelude::*;

verus! {

/// The command/data sink failed to deliver bytes to the chip.
///
/// This is the single caller-facing failure mode of the driver core: bus
/// NACK, timeout and disconnection are all reported uniformly, and the first
/// failure aborts the remaining command sequence. Range-violating parameters
/// are never an error; they are masked to the register's legal bit width.
#[derive(Debug, Clone, Copy, PartialEq, Eq)]
pub struct TransportError;

} // verus!
