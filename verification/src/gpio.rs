//! General Purpose Input / Output: the type-state vocabulary shared by the
//! pin abstractions.
//!
//! Pin mode and alternate function are encoded as zero-sized marker types
//! checked at compile time.  The register pokes that move a concrete pin
//! between these states are hardware-side one-liners and live outside the
//! verified core; the markers themselves, and the drive-current encoding,
//! are defined here.

use vstd::prelude::*;

verus! {

/// Extension trait to split a GPIO peripheral into independent pins and
/// registers.
pub trait GpioExt {
    /// The parts to split the GPIO into.
    type Parts;

    /// Splits the GPIO block into independent pins and registers.
    fn split(self) -> Self::Parts;
}

/// Output mode (type state).
/// `MODE` describes the output type.
pub struct Output<MODE> {
    pub mode: core::marker::PhantomData<MODE>,
}

/// Open drain output (type state).
pub struct OpenDrain;

/// Push pull output (type state).
pub struct PushPull;

/// Input mode (type state).
/// `MODE` describes the input type.
pub struct Input<MODE> {
    pub mode: core::marker::PhantomData<MODE>,
}

/// Pulled up input (type state).
pub struct PullUp;

/// Pulled down input (type state).
pub struct PullDown;

/// Floating input (type state).
pub struct Floating;

/// Disabled input (type state).
/// Holtek chips allow a pin to be configured as input without actually
/// reading any data.
pub struct Disabled;

/// Alternate function 0 (type state).
pub struct AF0;

/// Alternate function 1 (type state).
pub struct AF1;

/// Alternate function 2 (type state).
pub struct AF2;

/// Alternate function 3 (type state).
pub struct AF3;

/// Alternate function 4 (type state).
pub struct AF4;

/// Alternate function 5 (type state).
pub struct AF5;

/// Alternate function 6 (type state).
pub struct AF6;

/// Alternate function 7 (type state).
pub struct AF7;

/// Alternate function 8 (type state).
pub struct AF8;

/// Alternate function 9 (type state).
pub struct AF9;

/// Alternate function 10 (type state).
pub struct AF10;

/// Alternate function 11 (type state).
pub struct AF11;

/// Alternate function 12 (type state).
pub struct AF12;

/// Alternate function 13 (type state).
pub struct AF13;

/// Alternate function 14 (type state).
pub struct AF14;

/// Alternate function 15 (type state).
pub struct AF15;

/// The drive-current values that can be used for output pins.
#[derive(Debug, Clone, Copy, PartialEq, Eq, Structural)]
pub enum GpioCurrent {
    MA4,
    MA8,
}

impl GpioCurrent {
    /// The bit encoding of the drive current in the GPIO drive register.
    pub fn to_bits(self) -> (r: u8)
        ensures
            self == GpioCurrent::MA4 ==> r == 0,
            self == GpioCurrent::MA8 ==> r == 1,
    {
        match self {
            GpioCurrent::MA4 => 0b0,
            GpioCurrent::MA8 => 0b1,
        }
    }
}

} // verus!
