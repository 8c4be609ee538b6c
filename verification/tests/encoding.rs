use winkeyer::winkeyer::{AdminCommand, Command, EncodeError, KeyInput, EEPROM_SIZE, SETTINGS_SIZE};

fn image_of(len: usize) -> Vec<u8> {
    let mut image: Vec<u8> = Vec::new();
    let mut i: usize = 0;
    while i < len {
        image.push((i % 251) as u8);
        i += 1;
    }
    image
}

#[test]
fn admin_command() {
    let admin_command = Command::Admin(AdminCommand::EchoTest(0x88));

    let cmd: Vec<u8> = admin_command.try_into().expect("cmd bytes");

    assert_eq!(cmd, vec![0x00, 0x04, 0x88]);

    // Three bytes are no EEPROM image: the command is refused whole.
    let admin_command = Command::Admin(AdminCommand::LoadEEPROM(vec![0xf0, 0xe0, 0xd0]));

    assert_eq!(admin_command.try_into(), Err(EncodeError::InvalidEepromLength));
}

#[test]
fn key_input() {
    let key_command = Command::DoKey(KeyInput::Dah);

    let cmd: Vec<u8> = key_command.try_into().expect("cmd bytes");

    assert_eq!(cmd, vec![0x14, 0x02]);
}

#[test]
fn full_eeprom_image_follows_both_opcodes() {
    let mut image: Vec<u8> = vec![0xf0, 0xe0, 0xd0];
    image.resize(EEPROM_SIZE, 0x5a);
    let cmd: Vec<u8> = Command::Admin(AdminCommand::LoadEEPROM(image.clone()))
        .try_into()
        .expect("cmd bytes");
    assert_eq!(cmd.len(), 258);
    assert_eq!(cmd[..5].to_vec(), vec![0x00, 0x13, 0xf0, 0xe0, 0xd0]);
    assert_eq!(cmd[2..].to_vec(), image);
}

#[test]
fn eeprom_image_keeps_byte_order() {
    let image: Vec<u8> = image_of(EEPROM_SIZE);
    let cmd: Vec<u8> = AdminCommand::LoadEEPROM(image.clone()).try_into().expect("cmd bytes");
    assert_eq!(cmd[0], 0x13);
    assert_eq!(cmd[1..].to_vec(), image);
    assert_eq!(cmd[1], 0);
    assert_eq!(cmd[2], 1);
    assert_eq!(cmd[252], 0);
    assert_eq!(cmd[256], 4);
}

#[test]
fn eeprom_image_of_wrong_length_is_rejected() {
    assert_eq!(EEPROM_SIZE, 256);
    for len in [0usize, 1, 3, 255, 257, 512] {
        let alone: Result<Vec<u8>, EncodeError> = AdminCommand::LoadEEPROM(image_of(len)).try_into();
        assert_eq!(alone, Err(EncodeError::InvalidEepromLength));
        let wrapped: Result<Vec<u8>, EncodeError> =
            Command::Admin(AdminCommand::LoadEEPROM(image_of(len))).try_into();
        assert_eq!(wrapped, Err(EncodeError::InvalidEepromLength));
    }
    assert!(AdminCommand::LoadEEPROM(image_of(256)).try_into().is_ok());
}

#[test]
fn settings_block_is_sent_in_order() {
    assert_eq!(SETTINGS_SIZE, 15);
    let block: Vec<u8> = vec![1, 2, 3, 4, 5, 6, 7, 8, 9, 10, 11, 12, 13, 14, 15];
    let cmd: Vec<u8> = Command::LoadSettings(block).try_into().expect("cmd bytes");
    assert_eq!(cmd, vec![0x0f, 1, 2, 3, 4, 5, 6, 7, 8, 9, 10, 11, 12, 13, 14, 15]);
}

#[test]
fn settings_block_of_wrong_length_is_rejected() {
    for len in [0usize, 14, 16, 256] {
        let r: Result<Vec<u8>, EncodeError> = Command::LoadSettings(image_of(len)).try_into();
        assert_eq!(r, Err(EncodeError::InvalidSettingsLength));
    }
}

#[test]
fn key_input_bytes() {
    assert_eq!(KeyInput::Release.try_into(), Ok(0x00));
    assert_eq!(KeyInput::Dit.try_into(), Ok(0x01));
    assert_eq!(KeyInput::Dah.try_into(), Ok(0x02));
    assert_eq!(KeyInput::Both.try_into(), Ok(0x03));
    assert_eq!(KeyInput::Release.discriminant(), 0x00);
    assert_eq!(KeyInput::Dit.discriminant(), 0x01);
    assert_eq!(KeyInput::Dah.discriminant(), 0x02);
    assert_eq!(KeyInput::Both.discriminant(), 0x03);
}

#[test]
fn key_command_for_each_input() {
    assert_eq!(Command::DoKey(KeyInput::Release).try_into(), Ok(vec![0x14, 0x00]));
    assert_eq!(Command::DoKey(KeyInput::Dit).try_into(), Ok(vec![0x14, 0x01]));
    assert_eq!(Command::DoKey(KeyInput::Dah).try_into(), Ok(vec![0x14, 0x02]));
    assert_eq!(Command::DoKey(KeyInput::Both).try_into(), Ok(vec![0x14, 0x03]));
}

#[test]
fn key_command_is_opcode_then_input_byte() {
    for input in [KeyInput::Release, KeyInput::Dit, KeyInput::Dah, KeyInput::Both] {
        let byte: u8 = input.try_into().expect("key byte");
        assert_eq!(Command::DoKey(input).try_into(), Ok(vec![0x14, byte]));
    }
}

fn admin_table() -> Vec<(AdminCommand, Vec<u8>)> {
    vec![
        (AdminCommand::Calibrate, vec![0x00]),
        (AdminCommand::ResetKeyer, vec![0x01]),
        (AdminCommand::OpenHostConnection, vec![0x02]),
        (AdminCommand::CloseHostConnection, vec![0x03]),
        (AdminCommand::EchoTest(0x88), vec![0x04, 0x88]),
        (AdminCommand::DebugInternal, vec![0x08]),
        (AdminCommand::GetFirmwareMajorVersion, vec![0x09]),
        (AdminCommand::SetReportingV1, vec![0x10]),
        (AdminCommand::SetReportingV2, vec![0x11]),
        (AdminCommand::DumpEEPROM, vec![0x12]),
        (AdminCommand::SendMessageByID, vec![0x14]),
        (AdminCommand::LoadExtensionR1, vec![0x15]),
        (AdminCommand::FirmwareUpdate, vec![0x16]),
        (AdminCommand::SetBaudRateLow, vec![0x17]),
        (AdminCommand::SetBaudRateHigh, vec![0x18]),
        (AdminCommand::SetRTTYRegisters, vec![0x19]),
        (AdminCommand::SetReportingV3, vec![0x20]),
        (AdminCommand::GetFirmwareMinorVersion, vec![0x23]),
        (AdminCommand::SetSidetoneVolume(0x04), vec![0x24, 0x04]),
    ]
}

#[test]
fn admin_bytes_for_each_operation() {
    for (admin, expected) in admin_table() {
        assert_eq!(admin.discriminant(), expected[0]);
        assert_eq!(admin.try_into(), Ok(expected));
    }
    assert_eq!(AdminCommand::LoadEEPROM(Vec::new()).discriminant(), 0x13);
}

#[test]
fn wrapped_admin_is_opcode_then_admin_bytes() {
    for (admin, expected) in admin_table() {
        let mut whole: Vec<u8> = vec![0x00];
        whole.extend(admin.clone().try_into().expect("admin bytes"));
        assert_eq!(whole[1..].to_vec(), expected);
        assert_eq!(Command::Admin(admin).try_into(), Ok(whole));
    }
}

#[test]
fn echo_test_carries_its_byte() {
    assert_eq!(AdminCommand::EchoTest(0x88).try_into(), Ok(vec![0x04, 0x88]));
    assert_eq!(AdminCommand::EchoTest(0x65).try_into(), Ok(vec![0x04, 0x65]));
    assert_eq!(Command::Admin(AdminCommand::EchoTest(0x65)).try_into(), Ok(vec![0x00, 0x04, 0x65]));
}

#[test]
fn sidetone_volume_is_passed_through() {
    assert_eq!(AdminCommand::SetSidetoneVolume(0x01).try_into(), Ok(vec![0x24, 0x01]));
    assert_eq!(AdminCommand::SetSidetoneVolume(0x04).try_into(), Ok(vec![0x24, 0x04]));
    assert_eq!(AdminCommand::SetSidetoneVolume(0xff).try_into(), Ok(vec![0x24, 0xff]));
}

fn command_table() -> Vec<(Command, Vec<u8>)> {
    vec![
        (Command::Admin(AdminCommand::OpenHostConnection), vec![0x00, 0x02]),
        (Command::SidetoneControl(0x85), vec![0x01, 0x85]),
        (Command::SetSpeedWPM(20), vec![0x02, 20]),
        (Command::SetWeighting(50), vec![0x03, 50]),
        (Command::SetPTTLeadAndTail(1, 160), vec![0x04, 1, 160]),
        (Command::SetSpeedPOT(5, 25, 0), vec![0x05, 5, 25, 0]),
        (Command::SetPaused(1), vec![0x06, 1]),
        (Command::GetSpeedPOT, vec![0x07]),
        (Command::DropSerialInputBufferCharacter, vec![0x08]),
        (Command::SetPincfg(0x0f), vec![0x09, 0x0f]),
        (Command::BufferClearBuffer, vec![0x0a]),
        (Command::SetKeyDown(1), vec![0x0b, 1]),
        (Command::SetHighSpeedCW(30), vec![0x0c, 30]),
        (Command::SetSpeedFarnsworthWPM(12), vec![0x0d, 12]),
        (Command::SetKeyerMode(0xc4), vec![0x0e, 0xc4]),
        (Command::SetKeyingExtendedFirstSend(7), vec![0x10, 7]),
        (Command::SetKeyingCompensation(3), vec![0x11, 3]),
        (Command::NoOp, vec![0x13]),
        (Command::DoKey(KeyInput::Both), vec![0x14, 0x03]),
        (Command::GetKeyerStatus, vec![0x15]),
        (Command::SetInputBufferCursor(9), vec![0x16, 9]),
        (Command::SetKeyerDitDahRatio, vec![0x17]),
        (Command::BufferDoPTT(1), vec![0x18, 1]),
        (Command::BufferAssertKey(2), vec![0x19, 2]),
        (Command::BufferSleep(3), vec![0x1a, 3]),
        (Command::BufferMergeLetters(0x41, 0x52), vec![0x1b, 0x41, 0x52]),
        (Command::BufferSetSpeedWPM(28), vec![0x1c, 28]),
        (Command::BufferSetHighSpeedCW(40), vec![0x1d, 40]),
        (Command::BufferCancelSpeedChange, vec![0x1e]),
        (Command::BufferedNoOp, vec![0x1f]),
    ]
}

#[test]
fn command_bytes_for_each_command() {
    for (command, expected) in command_table() {
        assert_eq!(command.opcode(), expected[0]);
        assert_eq!(command.discriminant(), Some(expected[0]));
        assert_eq!(command.try_into(), Ok(expected));
    }
    assert_eq!(Command::LoadSettings(Vec::new()).discriminant(), Some(0x0f));
}

#[test]
fn pair_fields_keep_their_order() {
    assert_eq!(Command::SetPTTLeadAndTail(0x11, 0x22).try_into(), Ok(vec![0x04, 0x11, 0x22]));
    assert_eq!(Command::SetPTTLeadAndTail(0x22, 0x11).try_into(), Ok(vec![0x04, 0x22, 0x11]));
    assert_eq!(Command::SetSpeedPOT(1, 2, 3).try_into(), Ok(vec![0x05, 1, 2, 3]));
    assert_eq!(Command::BufferMergeLetters(2, 1).try_into(), Ok(vec![0x1b, 2, 1]));
}

#[test]
fn other_is_the_raw_byte() {
    let mut raw: u8 = 0;
    loop {
        assert_eq!(Command::Other(raw).try_into(), Ok(vec![raw]));
        assert_eq!(Command::Other(raw).opcode(), raw);
        assert_eq!(Command::Other(raw).discriminant(), None);
        if raw == u8::MAX {
            break;
        }
        raw += 1;
    }
}

#[test]
fn encoding_twice_gives_the_same_bytes() {
    for (command, expected) in command_table() {
        let first: Result<Vec<u8>, EncodeError> = command.clone().try_into();
        let second: Result<Vec<u8>, EncodeError> = command.try_into();
        assert_eq!(first, second);
        assert_eq!(first, Ok(expected));
    }
    let broken = Command::LoadSettings(vec![1, 2, 3]);
    assert_eq!(broken.clone().try_into(), broken.try_into());
    let image: Vec<u8> = image_of(EEPROM_SIZE);
    let load = AdminCommand::LoadEEPROM(image);
    assert_eq!(load.clone().try_into(), load.try_into());
}

#[test]
fn every_encoding_has_at_least_one_byte() {
    for (command, _) in command_table() {
        let bytes: Vec<u8> = command.try_into().expect("cmd bytes");
        assert!(!bytes.is_empty());
    }
    for (admin, _) in admin_table() {
        let bytes: Vec<u8> = admin.try_into().expect("admin bytes");
        assert!(!bytes.is_empty());
    }
}

#[test]
fn opcodes_do_not_collide() {
    let commands: Vec<(Command, Vec<u8>)> = command_table();
    for (i, (a, _)) in commands.iter().enumerate() {
        for (j, (b, _)) in commands.iter().enumerate() {
            if i != j {
                assert_ne!(a.discriminant(), b.discriminant());
            }
        }
        assert_ne!(a.discriminant(), Some(0x0f));
    }
    let admins: Vec<(AdminCommand, Vec<u8>)> = admin_table();
    for (i, (a, _)) in admins.iter().enumerate() {
        for (j, (b, _)) in admins.iter().enumerate() {
            if i != j {
                assert_ne!(a.discriminant(), b.discriminant());
            }
        }
        assert_ne!(a.discriminant(), 0x13);
    }
}
