//! The top-level catalog and its encoder.

use vstd::prelude::*;
use crate::winkeyer::admin::AdminCommand;
use crate::winkeyer::error::{encoding_of, EncodeError, SETTINGS_SIZE};
use crate::winkeyer::frame::frame;
use crate::winkeyer::key::KeyInput;

verus! {

/// Everything the host can ask of the keyer.
///
/// A variant's fields are its payload, in the order in which they go on the
/// wire after the opcode.
#[derive(Clone, Debug)]
pub enum Command {
    /// An administrative operation, encoded after this command's own opcode.
    Admin(AdminCommand),
    /// Sidetone frequency and paddle-only sidetone.
    SidetoneControl(u8),
    /// Keying speed in words per minute.
    SetSpeedWPM(u8),
    /// Keying weight.
    SetWeighting(u8),
    /// PTT lead-in time, then tail time.
    SetPTTLeadAndTail(u8, u8),
    /// Speed pot setup: lowest speed, range, and a third value that the keyer ignores.
    SetSpeedPOT(u8, u8, u8),
    /// Pauses or resumes sending.
    SetPaused(u8),
    /// Asks for the speed pot's position.
    GetSpeedPOT,
    /// Drops the last character of the serial input buffer.
    DropSerialInputBufferCharacter,
    /// Output pin configuration.
    SetPincfg(u8),
    /// Empties the input buffer.
    BufferClearBuffer,
    /// Asserts or releases the key output.
    SetKeyDown(u8),
    /// High-speed CW rate.
    SetHighSpeedCW(u8),
    /// Farnsworth speed in words per minute.
    SetSpeedFarnsworthWPM(u8),
    /// Keyer mode register.
    SetKeyerMode(u8),
    /// All operating parameters in one block of exactly `SETTINGS_SIZE` values:
    /// mode register, speed, sidetone frequency, weight, lead-in time, tail
    /// time, lowest speed, speed range, second extension mode, key
    /// compensation, Farnsworth speed, paddle setpoint, dit/dah ratio, pin
    /// configuration, first extension mode.
    LoadSettings(Vec<u8>),
    /// First-element extension.
    SetKeyingExtendedFirstSend(u8),
    /// Keying compensation.
    SetKeyingCompensation(u8),
    /// Does nothing.
    NoOp,
    /// Paddle input from the host.
    DoKey(KeyInput),
    /// Asks for the keyer's status byte.
    GetKeyerStatus,
    /// Moves the input buffer's cursor.
    SetInputBufferCursor(u8),
    /// Dit/dah ratio.
    SetKeyerDitDahRatio,
    /// Buffered: asserts or releases PTT.
    BufferDoPTT(u8),
    /// Buffered: holds the key down for a number of seconds.
    BufferAssertKey(u8),
    /// Buffered: waits for a number of seconds.
    BufferSleep(u8),
    /// Buffered: sends two letters merged into one prosign.
    BufferMergeLetters(u8, u8),
    /// Buffered: changes the speed.
    BufferSetSpeedWPM(u8),
    /// Buffered: changes the high-speed CW rate.
    BufferSetHighSpeedCW(u8),
    /// Buffered: ends a buffered speed change.
    BufferCancelSpeedChange,
    /// Buffered: does nothing.
    BufferedNoOp,
    /// A raw opcode that the catalog does not model, sent as it is.
    Other(u8),
}

impl Command {
    /// The first byte on the wire: the opcode that the catalog fixes for this
    /// command, or the raw byte that `Other` carries.
    pub open spec fn spec_opcode(self) -> u8 {
        match self {
            Command::Admin(_) => 0x00,
            Command::SidetoneControl(_) => 0x01,
            Command::SetSpeedWPM(_) => 0x02,
            Command::SetWeighting(_) => 0x03,
            Command::SetPTTLeadAndTail(_, _) => 0x04,
            Command::SetSpeedPOT(_, _, _) => 0x05,
            Command::SetPaused(_) => 0x06,
            Command::GetSpeedPOT => 0x07,
            Command::DropSerialInputBufferCharacter => 0x08,
            Command::SetPincfg(_) => 0x09,
            Command::BufferClearBuffer => 0x0a,
            Command::SetKeyDown(_) => 0x0b,
            Command::SetHighSpeedCW(_) => 0x0c,
            Command::SetSpeedFarnsworthWPM(_) => 0x0d,
            Command::SetKeyerMode(_) => 0x0e,
            Command::LoadSettings(_) => 0x0f,
            Command::SetKeyingExtendedFirstSend(_) => 0x10,
            Command::SetKeyingCompensation(_) => 0x11,
            Command::NoOp => 0x13,
            Command::DoKey(_) => 0x14,
            Command::GetKeyerStatus => 0x15,
            Command::SetInputBufferCursor(_) => 0x16,
            Command::SetKeyerDitDahRatio => 0x17,
            Command::BufferDoPTT(_) => 0x18,
            Command::BufferAssertKey(_) => 0x19,
            Command::BufferSleep(_) => 0x1a,
            Command::BufferMergeLetters(_, _) => 0x1b,
            Command::BufferSetSpeedWPM(_) => 0x1c,
            Command::BufferSetHighSpeedCW(_) => 0x1d,
            Command::BufferCancelSpeedChange => 0x1e,
            Command::BufferedNoOp => 0x1f,
            Command::Other(raw) => raw,
        }
    }

    /// The opcode that the catalog fixes for this command. `Other` has none:
    /// the byte it carries is the opcode.
    pub open spec fn spec_discriminant(self) -> Option<u8> {
        match self {
            Command::Other(_) => None,
            _ => Some(self.spec_opcode()),
        }
    }

    /// Whether the two commands are the same entry of the catalog, whatever
    /// their payloads.
    pub open spec fn same_variant(self, other: Self) -> bool {
        &&& (self is Admin) == (other is Admin)
        &&& (self is SidetoneControl) == (other is SidetoneControl)
        &&& (self is SetSpeedWPM) == (other is SetSpeedWPM)
        &&& (self is SetWeighting) == (other is SetWeighting)
        &&& (self is SetPTTLeadAndTail) == (other is SetPTTLeadAndTail)
        &&& (self is SetSpeedPOT) == (other is SetSpeedPOT)
        &&& (self is SetPaused) == (other is SetPaused)
        &&& (self is GetSpeedPOT) == (other is GetSpeedPOT)
        &&& (self is DropSerialInputBufferCharacter) == (other is DropSerialInputBufferCharacter)
        &&& (self is SetPincfg) == (other is SetPincfg)
        &&& (self is BufferClearBuffer) == (other is BufferClearBuffer)
        &&& (self is SetKeyDown) == (other is SetKeyDown)
        &&& (self is SetHighSpeedCW) == (other is SetHighSpeedCW)
        &&& (self is SetSpeedFarnsworthWPM) == (other is SetSpeedFarnsworthWPM)
        &&& (self is SetKeyerMode) == (other is SetKeyerMode)
        &&& (self is LoadSettings) == (other is LoadSettings)
        &&& (self is SetKeyingExtendedFirstSend) == (other is SetKeyingExtendedFirstSend)
        &&& (self is SetKeyingCompensation) == (other is SetKeyingCompensation)
        &&& (self is NoOp) == (other is NoOp)
        &&& (self is DoKey) == (other is DoKey)
        &&& (self is GetKeyerStatus) == (other is GetKeyerStatus)
        &&& (self is SetInputBufferCursor) == (other is SetInputBufferCursor)
        &&& (self is SetKeyerDitDahRatio) == (other is SetKeyerDitDahRatio)
        &&& (self is BufferDoPTT) == (other is BufferDoPTT)
        &&& (self is BufferAssertKey) == (other is BufferAssertKey)
        &&& (self is BufferSleep) == (other is BufferSleep)
        &&& (self is BufferMergeLetters) == (other is BufferMergeLetters)
        &&& (self is BufferSetSpeedWPM) == (other is BufferSetSpeedWPM)
        &&& (self is BufferSetHighSpeedCW) == (other is BufferSetHighSpeedCW)
        &&& (self is BufferCancelSpeedChange) == (other is BufferCancelSpeedChange)
        &&& (self is BufferedNoOp) == (other is BufferedNoOp)
        &&& (self is Other) == (other is Other)
    }

    /// The bytes that follow the opcode, in wire order.
    pub open spec fn payload(self) -> Seq<u8> {
        match self {
            Command::Admin(admin) => admin.wire(),
            Command::DoKey(input) => seq![input.spec_discriminant()],
            Command::LoadSettings(block) => block@,
            Command::SetPTTLeadAndTail(lead, tail) => seq![lead, tail],
            Command::SetSpeedPOT(lowest, range, unused) => seq![lowest, range, unused],
            Command::BufferMergeLetters(first, second) => seq![first, second],
            Command::SidetoneControl(value)
            | Command::SetSpeedWPM(value)
            | Command::SetWeighting(value)
            | Command::SetPaused(value)
            | Command::SetPincfg(value)
            | Command::SetKeyDown(value)
            | Command::SetHighSpeedCW(value)
            | Command::SetSpeedFarnsworthWPM(value)
            | Command::SetKeyerMode(value)
            | Command::SetKeyingExtendedFirstSend(value)
            | Command::SetKeyingCompensation(value)
            | Command::SetInputBufferCursor(value)
            | Command::BufferDoPTT(value)
            | Command::BufferAssertKey(value)
            | Command::BufferSleep(value)
            | Command::BufferSetSpeedWPM(value)
            | Command::BufferSetHighSpeedCW(value) => seq![value],
            Command::GetSpeedPOT
            | Command::DropSerialInputBufferCharacter
            | Command::BufferClearBuffer
            | Command::NoOp
            | Command::GetKeyerStatus
            | Command::SetKeyerDitDahRatio
            | Command::BufferCancelSpeedChange
            | Command::BufferedNoOp
            | Command::Other(_) => Seq::empty(),
        }
    }

    /// The reason for which this command cannot be sent, if there is one.
    pub open spec fn defect(self) -> Option<EncodeError> {
        match self {
            Command::Admin(admin) => admin.defect(),
            Command::LoadSettings(block) if block@.len() != SETTINGS_SIZE => Some(
                EncodeError::InvalidSettingsLength,
            ),
            _ => None,
        }
    }

    /// The opcode followed by the payload, with nothing in between.
    pub open spec fn wire(self) -> Seq<u8> {
        seq![self.spec_opcode()] + self.payload()
    }

    /// What encoding this command gives: its wire bytes, or its defect.
    pub open spec fn encoding(self) -> Result<Seq<u8>, EncodeError> {
        match self.defect() {
            Some(e) => Err(e),
            None => Ok(self.wire()),
        }
    }

    /// Computes the first byte on the wire.
    pub fn opcode(&self) -> (op: u8)
        ensures
            op == self.spec_opcode(),
    {
        match self {
            Command::Admin(_) => 0x00,
            Command::SidetoneControl(_) => 0x01,
            Command::SetSpeedWPM(_) => 0x02,
            Command::SetWeighting(_) => 0x03,
            Command::SetPTTLeadAndTail(_, _) => 0x04,
            Command::SetSpeedPOT(_, _, _) => 0x05,
            Command::SetPaused(_) => 0x06,
            Command::GetSpeedPOT => 0x07,
            Command::DropSerialInputBufferCharacter => 0x08,
            Command::SetPincfg(_) => 0x09,
            Command::BufferClearBuffer => 0x0a,
            Command::SetKeyDown(_) => 0x0b,
            Command::SetHighSpeedCW(_) => 0x0c,
            Command::SetSpeedFarnsworthWPM(_) => 0x0d,
            Command::SetKeyerMode(_) => 0x0e,
            Command::LoadSettings(_) => 0x0f,
            Command::SetKeyingExtendedFirstSend(_) => 0x10,
            Command::SetKeyingCompensation(_) => 0x11,
            Command::NoOp => 0x13,
            Command::DoKey(_) => 0x14,
            Command::GetKeyerStatus => 0x15,
            Command::SetInputBufferCursor(_) => 0x16,
            Command::SetKeyerDitDahRatio => 0x17,
            Command::BufferDoPTT(_) => 0x18,
            Command::BufferAssertKey(_) => 0x19,
            Command::BufferSleep(_) => 0x1a,
            Command::BufferMergeLetters(_, _) => 0x1b,
            Command::BufferSetSpeedWPM(_) => 0x1c,
            Command::BufferSetHighSpeedCW(_) => 0x1d,
            Command::BufferCancelSpeedChange => 0x1e,
            Command::BufferedNoOp => 0x1f,
            Command::Other(raw) => *raw,
        }
    }

    /// Computes the opcode that the catalog fixes for this command.
    pub fn discriminant(&self) -> (d: Option<u8>)
        ensures
            d == self.spec_discriminant(),
    {
        match self {
            Command::Other(_) => None,
            _ => Some(self.opcode()),
        }
    }

    /// Encodes the command: the opcode, then the payload bytes in order. An
    /// embedded administrative operation or paddle input is encoded in full
    /// and appended.
    ///
    /// A command with a defect is rejected and no bytes are given.
    pub fn try_into(self) -> (r: Result<Vec<u8>, EncodeError>)
        ensures
            encoding_of(r) == self.encoding(),
            r matches Ok(bytes) ==> bytes@.len() >= 1,
    {
        let opcode: u8 = self.opcode();
        let ghost payload: Seq<u8> = self.payload();
        let fields: Vec<u8> = match self {
            Command::Admin(admin) => match admin.try_into() {
                Ok(inner) => inner,
                Err(e) => { return Err(e); },
            },
            Command::DoKey(input) => vec![input.discriminant()],
            Command::LoadSettings(block) => {
                if block.len() != SETTINGS_SIZE {
                    return Err(EncodeError::InvalidSettingsLength);
                }
                block
            },
            Command::SetPTTLeadAndTail(lead, tail) => vec![lead, tail],
            Command::SetSpeedPOT(lowest, range, unused) => vec![lowest, range, unused],
            Command::BufferMergeLetters(first, second) => vec![first, second],
            Command::SidetoneControl(value)
            | Command::SetSpeedWPM(value)
            | Command::SetWeighting(value)
            | Command::SetPaused(value)
            | Command::SetPincfg(value)
            | Command::SetKeyDown(value)
            | Command::SetHighSpeedCW(value)
            | Command::SetSpeedFarnsworthWPM(value)
            | Command::SetKeyerMode(value)
            | Command::SetKeyingExtendedFirstSend(value)
            | Command::SetKeyingCompensation(value)
            | Command::SetInputBufferCursor(value)
            | Command::BufferDoPTT(value)
            | Command::BufferAssertKey(value)
            | Command::BufferSleep(value)
            | Command::BufferSetSpeedWPM(value)
            | Command::BufferSetHighSpeedCW(value) => vec![value],
            Command::GetSpeedPOT
            | Command::DropSerialInputBufferCharacter
            | Command::BufferClearBuffer
            | Command::NoOp
            | Command::GetKeyerStatus
            | Command::SetKeyerDitDahRatio
            | Command::BufferCancelSpeedChange
            | Command::BufferedNoOp
            | Command::Other(_) => Vec::new(),
        };
        assert(fields@ =~= payload);
        Ok(frame(opcode, fields))
    }
}

} // verus!
