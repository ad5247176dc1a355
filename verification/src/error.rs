//! The driver's error taxonomy.

use vstd::prelude::*;

verus! {

/// All possible errors
#[derive(Clone, Copy, Debug)]
pub enum Error<E> {
    /// reserved for future use: connectivity is surfaced as a boolean result,
    /// not an error
    NotConnected,
    /// parameter out of range, rejected before any bus traffic
    OutOfRange(u8),
    /// reserved for future use: the no-hold protocol used here never exercises
    /// a chip-side timeout
    MeasurementTimeout(),
    /// An error in the underlying I²C system
    I2c(E),
}

} // verus!
