//! Errors of the chip logic.

use vstd::prelude::*;

verus! {

/// Why a chip operation was refused before any register was touched.
#[derive(Debug, Clone, PartialEq, Eq)]
pub enum Error {
    /// The chip has no such feature (reported as the I2C bus error of that name).
    FeatureNotSupported,
    /// Any other refusal, with its message.
    Other(String),
}

} // verus!
