//! What can be wrong with a payload, and how outcomes are compared.

use vstd::prelude::*;

verus! {

/// Number of bytes in the keyer's EEPROM image.
pub const EEPROM_SIZE: usize = 256;

/// Number of values in the block that loads all operating parameters at once.
pub const SETTINGS_SIZE: usize = 15;

/// Why a value cannot be put on the wire.
#[derive(Clone, Copy, Debug, PartialEq, Eq, Structural)]
pub enum EncodeError {
    /// An EEPROM image that is not exactly `EEPROM_SIZE` bytes long.
    InvalidEepromLength,
    /// A settings block that is not exactly `SETTINGS_SIZE` bytes long.
    InvalidSettingsLength,
}

/// The outcome of an encoding, with the bytes taken as a sequence.
pub open spec fn encoding_of(r: Result<Vec<u8>, EncodeError>) -> Result<Seq<u8>, EncodeError> {
    match r {
        Ok(bytes) => Ok(bytes@),
        Err(e) => Err(e),
    }
}

} // verus!
