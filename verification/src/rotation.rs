//! Logical display rotation and its mapping to chip registers.
//!
//! A rotation is realized purely through the chip's remap register and its
//! display-start-line register, without moving any pixel data. The mapper
//! here is the single place that knows the four fixed register pairs, the
//! mirrored variants, and how a rotation transposes the logical dimensions.

use vstd::prelude::*;

verus! {

/// Logical rotation of the display.
#[derive(Debug, Clone, Copy, PartialEq, Eq)]
pub enum DisplayRotation {
    /// No rotation.
    Rotate0,
    /// Rotated by 90 degrees clockwise.
    Rotate90,
    /// Rotated by 180 degrees clockwise.
    Rotate180,
    /// Rotated by 270 degrees clockwise.
    Rotate270,
}

/// Pure mapping from a logical rotation to the chip's remap bit pattern and
/// start-line register value, and to the effective logical dimensions.
#[derive(Debug, Clone, Copy)]
pub struct RotationMapper;

/// The remap register bit pattern of a rotation.
pub open spec fn spec_remap_value(rotation: DisplayRotation) -> u8 {
    match rotation {
        DisplayRotation::Rotate0 => 0x5C,
        DisplayRotation::Rotate90 => 0x58,
        DisplayRotation::Rotate180 => 0x15,
        DisplayRotation::Rotate270 => 0x17,
    }
}

/// The display-start-line register value of a rotation.
pub open spec fn spec_start_line(rotation: DisplayRotation) -> u8 {
    match rotation {
        DisplayRotation::Rotate0 => 0x00,
        DisplayRotation::Rotate90 => 0x00,
        DisplayRotation::Rotate180 => 0x00,
        DisplayRotation::Rotate270 => 0x78,
    }
}

/// The remap bit pattern of a rotation with mirroring enabled: the
/// rotation's plain pattern with the column-remap bit (bit 0) flipped.
pub open spec fn spec_mirror_remap_value(rotation: DisplayRotation) -> u8 {
    match rotation {
        DisplayRotation::Rotate0 => 0x5D,
        DisplayRotation::Rotate90 => 0x59,
        DisplayRotation::Rotate180 => 0x14,
        DisplayRotation::Rotate270 => 0x16,
    }
}

/// The effective (width, height) of a native (width, height) under a
/// rotation: transposed at 90 and 270 degrees, unchanged otherwise.
pub open spec fn spec_dimensions(rotation: DisplayRotation, native: (u8, u8)) -> (u8, u8) {
    match rotation {
        DisplayRotation::Rotate0 => native,
        DisplayRotation::Rotate90 => (native.1, native.0),
        DisplayRotation::Rotate180 => native,
        DisplayRotation::Rotate270 => (native.1, native.0),
    }
}

impl RotationMapper {
    /// The (remap bit pattern, start line) register pair of a rotation.
    pub fn apply(rotation: DisplayRotation) -> (r: (u8, u8))
        ensures
            r.0 == spec_remap_value(rotation),
            r.1 == spec_start_line(rotation),
    {
        match rotation {
            DisplayRotation::Rotate0 => (0x5C, 0x00),
            DisplayRotation::Rotate90 => (0x58, 0x00),
            DisplayRotation::Rotate180 => (0x15, 0x00),
            DisplayRotation::Rotate270 => (0x17, 0x78),
        }
    }

    /// The (remap bit pattern, start line) register pair of a rotation with
    /// mirroring enabled: the plain pair with the column-remap bit of the
    /// pattern flipped. The stored rotation itself is unaffected by
    /// mirroring; disabling it re-applies the plain pair.
    pub fn apply_mirrored(rotation: DisplayRotation) -> (r: (u8, u8))
        ensures
            r.0 == spec_mirror_remap_value(rotation),
            r.1 == spec_start_line(rotation),
    {
        match rotation {
            DisplayRotation::Rotate0 => (0x5D, 0x00),
            DisplayRotation::Rotate90 => (0x59, 0x00),
            DisplayRotation::Rotate180 => (0x14, 0x00),
            DisplayRotation::Rotate270 => (0x16, 0x78),
        }
    }

    /// The effective (width, height) of a native size under a rotation.
    pub fn dimensions(rotation: DisplayRotation, native: (u8, u8)) -> (r: (u8, u8))
        ensures
            r == spec_dimensions(rotation, native),
    {
        match rotation {
            DisplayRotation::Rotate0 => native,
            DisplayRotation::Rotate90 => (native.1, native.0),
            DisplayRotation::Rotate180 => native,
            DisplayRotation::Rotate270 => (native.1, native.0),
        }
    }
}

/// Mirroring flips exactly the column-remap bit (bit 0) of the rotation's
/// plain remap pattern, for every rotation; the start line is shared.
pub proof fn lemma_mirror_flips_column_remap(rotation: DisplayRotation)
    ensures
        spec_mirror_remap_value(rotation) == spec_remap_value(rotation) ^ 0x01,
{
    assert(0x5Cu8 ^ 0x01 == 0x5D) by (bit_vector);
    assert(0x58u8 ^ 0x01 == 0x59) by (bit_vector);
    assert(0x15u8 ^ 0x01 == 0x14) by (bit_vector);
    assert(0x17u8 ^ 0x01 == 0x16) by (bit_vector);
}

/// Every rotation maps to one of exactly four fixed (remap, start line)
/// register pairs, and the effective dimensions are the native ones,
/// transposed exactly at 90 and 270 degrees.
pub proof fn lemma_rotation_mapping(rotation: DisplayRotation, native: (u8, u8))
    ensures
        (spec_remap_value(rotation), spec_start_line(rotation)) == (0x5Cu8, 0x00u8)
            || (spec_remap_value(rotation), spec_start_line(rotation)) == (0x58u8, 0x00u8)
            || (spec_remap_value(rotation), spec_start_line(rotation)) == (0x15u8, 0x00u8)
            || (spec_remap_value(rotation), spec_start_line(rotation)) == (0x17u8, 0x78u8),
        rotation == DisplayRotation::Rotate90 || rotation == DisplayRotation::Rotate270
            ==> spec_dimensions(rotation, native) == (native.1, native.0),
        rotation == DisplayRotation::Rotate0 || rotation == DisplayRotation::Rotate180
            ==> spec_dimensions(rotation, native) == native,
{
}

} // verus!
