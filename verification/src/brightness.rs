//! Display brightness: a paired contrast and second pre-charge period.

use vstd::prelude::*;

verus! {

/// A brightness setting: the contrast register value together with the
/// second pre-charge period that matches it.
#[derive(Debug, Clone, Copy, PartialEq, Eq)]
pub struct Brightness {
    /// Second pre-charge period register value, four significant bits.
    pub precharge: u8,
    /// Contrast register value.
    pub contrast: u8,
}

impl Brightness {
    /// The chip's reset brightness setting.
    pub open spec fn spec_default() -> Brightness {
        Brightness { precharge: 0x04, contrast: 0x7F }
    }

    /// A brightness from a raw contrast value and pre-charge period. The
    /// period is masked to the register's four significant bits; out of
    /// range input is truncated, never rejected.
    pub fn custom(precharge: u8, contrast: u8) -> (b: Brightness)
        ensures
            b.precharge == precharge & 0x0F,
            b.contrast == contrast,
    {
        Brightness { precharge: precharge & 0x0F, contrast }
    }
}

impl Default for Brightness {
    /// The chip's reset brightness: contrast 0x7F with the reset second
    /// pre-charge period of 0x04.
    fn default() -> (b: Brightness)
        ensures
            b == Brightness::spec_default(),
    {
        Brightness { precharge: 0x04, contrast: 0x7F }
    }
}

} // verus!
