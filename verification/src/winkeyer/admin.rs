//! The administrative catalog and its encoder.

use vstd::prelude::*;
use crate::winkeyer::error::{encoding_of, EncodeError, EEPROM_SIZE};
use crate::winkeyer::frame::frame;

verus! {

/// Administrative operations, reachable only through `Command::Admin`.
///
/// Each has an opcode of its own, in a numbering space apart from that of
/// `Command`, followed by the payload bytes that the operation takes.
#[derive(Clone, Debug)]
pub enum AdminCommand {
    /// Calibration; ignored by later keyer generations.
    Calibrate,
    /// Cold reboot of the keyer's processor.
    ResetKeyer,
    /// Opens the host session; the keyer answers with its revision code.
    OpenHostConnection,
    /// Closes the host session; the keyer returns to standby.
    CloseHostConnection,
    /// The keyer echoes the given byte back to the host.
    EchoTest(u8),
    /// Reserved for the manufacturer's debugging.
    DebugInternal,
    /// Asks for the major firmware revision.
    GetFirmwareMajorVersion,
    /// Selects first-generation reporting: no pushbutton reports.
    SetReportingV1,
    /// Selects second-generation reporting: pushbutton reports, alternate status.
    SetReportingV2,
    /// Asks for a dump of the whole EEPROM.
    DumpEEPROM,
    /// Writes the whole EEPROM; the image must be exactly `EEPROM_SIZE` bytes.
    LoadEEPROM(Vec<u8>),
    /// Sends one of the keyer's stored messages.
    SendMessageByID,
    /// Loads the first mode extension register.
    LoadExtensionR1,
    /// Starts a firmware image upload.
    FirmwareUpdate,
    /// Switches the serial line to 1200 baud, the default.
    SetBaudRateLow,
    /// Switches the serial line to 9600 baud.
    SetBaudRateHigh,
    /// Selects the RTTY mode registers.
    SetRTTYRegisters,
    /// Selects third-generation reporting and the extended mode registers.
    SetReportingV3,
    /// Asks for the minor firmware revision.
    GetFirmwareMinorVersion,
    /// Sets the sidetone volume. The keyer defines the levels 0x1 (low) and
    /// 0x4 (high); the byte is passed on as given, whatever it is.
    SetSidetoneVolume(u8),
}

impl AdminCommand {
    /// The opcode of this operation.
    pub open spec fn spec_discriminant(self) -> u8 {
        match self {
            AdminCommand::Calibrate => 0x00,
            AdminCommand::ResetKeyer => 0x01,
            AdminCommand::OpenHostConnection => 0x02,
            AdminCommand::CloseHostConnection => 0x03,
            AdminCommand::EchoTest(_) => 0x04,
            AdminCommand::DebugInternal => 0x08,
            AdminCommand::GetFirmwareMajorVersion => 0x09,
            AdminCommand::SetReportingV1 => 0x10,
            AdminCommand::SetReportingV2 => 0x11,
            AdminCommand::DumpEEPROM => 0x12,
            AdminCommand::LoadEEPROM(_) => 0x13,
            AdminCommand::SendMessageByID => 0x14,
            AdminCommand::LoadExtensionR1 => 0x15,
            AdminCommand::FirmwareUpdate => 0x16,
            AdminCommand::SetBaudRateLow => 0x17,
            AdminCommand::SetBaudRateHigh => 0x18,
            AdminCommand::SetRTTYRegisters => 0x19,
            AdminCommand::SetReportingV3 => 0x20,
            AdminCommand::GetFirmwareMinorVersion => 0x23,
            AdminCommand::SetSidetoneVolume(_) => 0x24,
        }
    }

    /// Whether the two operations are the same entry of the catalog, whatever
    /// their payloads.
    pub open spec fn same_variant(self, other: Self) -> bool {
        &&& (self is Calibrate) == (other is Calibrate)
        &&& (self is ResetKeyer) == (other is ResetKeyer)
        &&& (self is OpenHostConnection) == (other is OpenHostConnection)
        &&& (self is CloseHostConnection) == (other is CloseHostConnection)
        &&& (self is EchoTest) == (other is EchoTest)
        &&& (self is DebugInternal) == (other is DebugInternal)
        &&& (self is GetFirmwareMajorVersion) == (other is GetFirmwareMajorVersion)
        &&& (self is SetReportingV1) == (other is SetReportingV1)
        &&& (self is SetReportingV2) == (other is SetReportingV2)
        &&& (self is DumpEEPROM) == (other is DumpEEPROM)
        &&& (self is LoadEEPROM) == (other is LoadEEPROM)
        &&& (self is SendMessageByID) == (other is SendMessageByID)
        &&& (self is LoadExtensionR1) == (other is LoadExtensionR1)
        &&& (self is FirmwareUpdate) == (other is FirmwareUpdate)
        &&& (self is SetBaudRateLow) == (other is SetBaudRateLow)
        &&& (self is SetBaudRateHigh) == (other is SetBaudRateHigh)
        &&& (self is SetRTTYRegisters) == (other is SetRTTYRegisters)
        &&& (self is SetReportingV3) == (other is SetReportingV3)
        &&& (self is GetFirmwareMinorVersion) == (other is GetFirmwareMinorVersion)
        &&& (self is SetSidetoneVolume) == (other is SetSidetoneVolume)
    }

    /// The bytes that follow the opcode, in wire order.
    pub open spec fn payload(self) -> Seq<u8> {
        match self {
            AdminCommand::EchoTest(byte) => seq![byte],
            AdminCommand::LoadEEPROM(image) => image@,
            AdminCommand::SetSidetoneVolume(level) => seq![level],
            _ => Seq::empty(),
        }
    }

    /// The reason for which this operation cannot be sent, if there is one.
    pub open spec fn defect(self) -> Option<EncodeError> {
        match self {
            AdminCommand::LoadEEPROM(image) if image@.len() != EEPROM_SIZE => Some(
                EncodeError::InvalidEepromLength,
            ),
            _ => None,
        }
    }

    /// The opcode followed by the payload, with nothing in between.
    pub open spec fn wire(self) -> Seq<u8> {
        seq![self.spec_discriminant()] + self.payload()
    }

    /// What encoding this operation gives: its wire bytes, or its defect.
    pub open spec fn encoding(self) -> Result<Seq<u8>, EncodeError> {
        match self.defect() {
            Some(e) => Err(e),
            None => Ok(self.wire()),
        }
    }

    /// Computes the opcode of this operation.
    pub fn discriminant(&self) -> (d: u8)
        ensures
            d == self.spec_discriminant(),
    {
        match self {
            AdminCommand::Calibrate => 0x00,
            AdminCommand::ResetKeyer => 0x01,
            AdminCommand::OpenHostConnection => 0x02,
            AdminCommand::CloseHostConnection => 0x03,
            AdminCommand::EchoTest(_) => 0x04,
            AdminCommand::DebugInternal => 0x08,
            AdminCommand::GetFirmwareMajorVersion => 0x09,
            AdminCommand::SetReportingV1 => 0x10,
            AdminCommand::SetReportingV2 => 0x11,
            AdminCommand::DumpEEPROM => 0x12,
            AdminCommand::LoadEEPROM(_) => 0x13,
            AdminCommand::SendMessageByID => 0x14,
            AdminCommand::LoadExtensionR1 => 0x15,
            AdminCommand::FirmwareUpdate => 0x16,
            AdminCommand::SetBaudRateLow => 0x17,
            AdminCommand::SetBaudRateHigh => 0x18,
            AdminCommand::SetRTTYRegisters => 0x19,
            AdminCommand::SetReportingV3 => 0x20,
            AdminCommand::GetFirmwareMinorVersion => 0x23,
            AdminCommand::SetSidetoneVolume(_) => 0x24,
        }
    }

    /// Encodes the operation: the opcode, then the payload bytes in order.
    ///
    /// An EEPROM image of the wrong length is rejected and no bytes are given.
    pub fn try_into(self) -> (r: Result<Vec<u8>, EncodeError>)
        ensures
            encoding_of(r) == self.encoding(),
            r matches Ok(bytes) ==> bytes@.len() >= 1,
    {
        let opcode: u8 = self.discriminant();
        let ghost payload: Seq<u8> = self.payload();
        let fields: Vec<u8> = match self {
            AdminCommand::EchoTest(byte) => vec![byte],
            AdminCommand::SetSidetoneVolume(level) => vec![level],
            AdminCommand::LoadEEPROM(image) => {
                if image.len() != EEPROM_SIZE {
                    return Err(EncodeError::InvalidEepromLength);
                }
                image
            },
            _ => Vec::new(),
        };
        assert(fields@ =~= payload);
        Ok(frame(opcode, fields))
    }
}

} // verus!
