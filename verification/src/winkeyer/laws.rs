//! What holds of every encoding.

use vstd::prelude::*;
use crate::winkeyer::admin::AdminCommand;
use crate::winkeyer::command::Command;
use crate::winkeyer::error::{encoding_of, EncodeError, EEPROM_SIZE, SETTINGS_SIZE};
use crate::winkeyer::key::KeyInput;

verus! {

/// An encoded administrative operation starts with its opcode, and the bytes
/// after it are its payload fields in order.
pub proof fn lemma_admin_layout(admin: AdminCommand)
    ensures
        admin.encoding() matches Ok(bytes) ==> {
            &&& bytes.len() == 1 + admin.payload().len()
            &&& bytes[0] == admin.spec_discriminant()
            &&& bytes.skip(1) == admin.payload()
        },
{
    assert(admin.wire().skip(1) =~= admin.payload());
}

/// An encoded command starts with the opcode that the catalog fixes for it.
/// `Other` has no opcode of its own: its one byte is the raw opcode it carries.
pub proof fn lemma_command_leading_byte(command: Command)
    ensures
        command.encoding() matches Ok(bytes) ==> {
            &&& bytes.len() >= 1
            &&& command.spec_discriminant() matches Some(fixed) ==> bytes[0] == fixed
            &&& command matches Command::Other(raw) ==> bytes == seq![raw]
        },
{
    if let Command::Other(raw) = command {
        assert(command.wire() =~= seq![raw]);
    }
}

/// Wrapping an administrative operation puts the opcode of `Admin` in front of
/// the operation's own encoding and changes nothing else; an operation that is
/// rejected alone is rejected wrapped, for the same reason.
pub proof fn lemma_admin_composition(admin: AdminCommand)
    ensures
        Command::Admin(admin).spec_discriminant() == Some(0x00u8),
        Command::Admin(admin).encoding() == match admin.encoding() {
            Ok(inner) => Ok::<Seq<u8>, EncodeError>(seq![0x00u8] + inner),
            Err(e) => Err(e),
        },
{
}

/// A keying command is its opcode followed by the one byte of the paddle input.
pub proof fn lemma_key_composition(input: KeyInput)
    ensures
        Command::DoKey(input).spec_discriminant() == Some(0x14u8),
        Command::DoKey(input).encoding() == Ok::<Seq<u8>, EncodeError>(
            seq![0x14u8] + seq![input.spec_discriminant()],
        ),
{
}

/// A raw opcode is encoded as that one byte, whatever it is.
pub proof fn lemma_other_is_raw(raw: u8)
    ensures
        Command::Other(raw).encoding() == Ok::<Seq<u8>, EncodeError>(seq![raw]),
{
    assert(Command::Other(raw).wire() =~= seq![raw]);
}

/// An EEPROM image is encoded only at the EEPROM's size, and then whole and in
/// order; at any other length it is rejected, alone and wrapped in a command.
pub proof fn lemma_eeprom_length_checked(image: Vec<u8>)
    ensures
        image@.len() == EEPROM_SIZE ==> AdminCommand::LoadEEPROM(image).encoding() == Ok::<
            Seq<u8>,
            EncodeError,
        >(seq![0x13u8] + image@),
        image@.len() != EEPROM_SIZE ==> AdminCommand::LoadEEPROM(image).encoding() == Err::<
            Seq<u8>,
            EncodeError,
        >(EncodeError::InvalidEepromLength),
        image@.len() != EEPROM_SIZE ==> Command::Admin(AdminCommand::LoadEEPROM(image)).encoding()
            == Err::<Seq<u8>, EncodeError>(EncodeError::InvalidEepromLength),
{
}

/// No two paddle inputs share a byte.
pub proof fn lemma_key_bytes_distinct(a: KeyInput, b: KeyInput)
    ensures
        a.spec_discriminant() == b.spec_discriminant() <==> a == b,
{
}

/// No two entries of the administrative catalog share an opcode.
pub proof fn lemma_admin_opcodes_distinct(a: AdminCommand, b: AdminCommand)
    ensures
        a.spec_discriminant() == b.spec_discriminant() <==> a.same_variant(b),
{
}

/// No two entries of the command catalog share an opcode, and only `Other`
/// has none.
pub proof fn lemma_command_opcodes_distinct(a: Command, b: Command)
    ensures
        a.spec_discriminant() == b.spec_discriminant() <==> a.same_variant(b),
        a.spec_discriminant() is None <==> a is Other,
{
}

/// Two encodings of one paddle input are the same byte.
pub proof fn lemma_key_deterministic(
    input: KeyInput,
    first: Result<u8, EncodeError>,
    second: Result<u8, EncodeError>,
)
    requires
        call_ensures(KeyInput::try_into, (input,), first),
        call_ensures(KeyInput::try_into, (input,), second),
    ensures
        first == second,
{
}

/// Two encodings of one administrative operation agree byte for byte, or
/// fail with the same error.
pub proof fn lemma_admin_deterministic(
    admin: AdminCommand,
    first: Result<Vec<u8>, EncodeError>,
    second: Result<Vec<u8>, EncodeError>,
)
    requires
        call_ensures(AdminCommand::try_into, (admin,), first),
        call_ensures(AdminCommand::try_into, (admin,), second),
    ensures
        encoding_of(first) == encoding_of(second),
{
}

/// Two encodings of one command agree byte for byte, or fail with the same
/// error.
pub proof fn lemma_command_deterministic(
    command: Command,
    first: Result<Vec<u8>, EncodeError>,
    second: Result<Vec<u8>, EncodeError>,
)
    requires
        call_ensures(Command::try_into, (command,), first),
        call_ensures(Command::try_into, (command,), second),
    ensures
        encoding_of(first) == encoding_of(second),
{
}

/// Every administrative operation has an outcome: at least its opcode, or a
/// rejection, which only an EEPROM image of the wrong length gets.
pub proof fn lemma_admin_total(admin: AdminCommand)
    ensures
        match admin.encoding() {
            Ok(bytes) => bytes.len() >= 1,
            Err(e) => {
                &&& e == EncodeError::InvalidEepromLength
                &&& admin matches AdminCommand::LoadEEPROM(image)
                &&& image@.len() != EEPROM_SIZE
            },
        },
{
}

/// Every command has an outcome: at least its opcode, or a rejection, which
/// only a settings block or an embedded EEPROM image of the wrong length gets.
pub proof fn lemma_command_total(command: Command)
    ensures
        match command.encoding() {
            Ok(bytes) => bytes.len() >= 1,
            Err(EncodeError::InvalidSettingsLength) => {
                &&& command matches Command::LoadSettings(block)
                &&& block@.len() != SETTINGS_SIZE
            },
            Err(EncodeError::InvalidEepromLength) => {
                &&& command matches Command::Admin(AdminCommand::LoadEEPROM(image))
                &&& image@.len() != EEPROM_SIZE
            },
        },
{
}

} // verus!
