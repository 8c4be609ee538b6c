//! The command catalogs of the keyer and their wire encodings.

pub mod admin;
pub mod command;
pub mod error;
mod frame;
pub mod key;
pub mod laws;

pub use admin::AdminCommand;
pub use command::Command;
pub use error::{encoding_of, EncodeError, EEPROM_SIZE, SETTINGS_SIZE};
pub use key::KeyInput;
