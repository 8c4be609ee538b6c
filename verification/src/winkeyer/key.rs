//! The paddle states of the keying command.

use vstd::prelude::*;
use crate::winkeyer::error::EncodeError;

verus! {

/// State of the two paddle inputs, the payload of the keying command.
#[derive(Clone, Copy, Debug, PartialEq, Eq, Structural)]
pub enum KeyInput {
    Release,
    Dit,
    Dah,
    /// Both paddles pressed; the keyer resolves this by its own iambic configuration.
    Both,
}

impl KeyInput {
    /// The byte that stands for this input on the wire.
    pub open spec fn spec_discriminant(self) -> u8 {
        match self {
            KeyInput::Release => 0x00,
            KeyInput::Dit => 0x01,
            KeyInput::Dah => 0x02,
            KeyInput::Both => 0x03,
        }
    }

    /// Computes the byte that stands for this input on the wire.
    pub fn discriminant(&self) -> (d: u8)
        ensures
            d == self.spec_discriminant(),
    {
        match self {
            KeyInput::Release => 0x00,
            KeyInput::Dit => 0x01,
            KeyInput::Dah => 0x02,
            KeyInput::Both => 0x03,
        }
    }

    /// Encodes the input as its single byte. Never fails.
    pub fn try_into(self) -> (r: Result<u8, EncodeError>)
        ensures
            r == Ok::<u8, EncodeError>(self.spec_discriminant()),
    {
        Ok(self.discriminant())
    }
}

} // verus!
