//! Frequency values used throughout the clock configuration API.

use vstd::prelude::*;

verus! {

/// A frequency in hertz.
#[derive(Debug, Clone, Copy, PartialEq, Eq, Structural)]
pub struct Hertz(pub u32);

impl Hertz {
    /// Construct a frequency from a raw hertz count.
    pub fn from_raw(raw: u32) -> (r: Hertz)
        ensures
            r.0 == raw,
    {
        Hertz(raw)
    }

    /// The raw hertz count.
    pub fn raw(self) -> (r: u32)
        ensures
            r == self.0,
    {
        self.0
    }
}

/// `v` kilohertz as a [`Hertz`] value.
pub fn khz(v: u32) -> (r: Hertz)
    requires
        v * 1000 <= u32::MAX,
    ensures
        r.0 == v * 1000,
{
    Hertz(v * 1000)
}

/// `v` megahertz as a [`Hertz`] value.
pub fn mhz(v: u32) -> (r: Hertz)
    requires
        v * 1_000_000 <= u32::MAX,
    ensures
        r.0 == v * 1_000_000,
{
    Hertz(v * 1_000_000)
}

} // verus!
