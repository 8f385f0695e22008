use pn532::{
    BorrowedRequest, CardType, Command, MifareAuthKey, MifareCommand, NTAGCommand, Request,
    SAMMode, TxFraming, TxSpeed,
};

#[test]
fn new_keeps_command_and_data() {
    let r = Request::new(Command::InSelect, [7u8, 8, 9]);
    assert_eq!(r.command, Command::InSelect);
    assert_eq!(r.data, [7, 8, 9]);
}

#[test]
fn borrowed_request_from_request() {
    let r = Request::new(Command::WriteRegister, [1u8, 2, 3, 4]);
    let b = BorrowedRequest::from(&r);
    assert_eq!(b.command, Command::WriteRegister);
    assert_eq!(b.data, &[1u8, 2, 3, 4][..]);
    let b2 = BorrowedRequest::new(Command::Diagnose, &[]);
    assert_eq!(b2.command, Command::Diagnose);
    assert!(b2.data.is_empty());
}

#[test]
fn command_codes() {
    assert_eq!(Command::Diagnose.code(), 0x00);
    assert_eq!(Command::GetFirmwareVersion.code(), 0x02);
    assert_eq!(Command::SAMConfiguration.code(), 0x14);
    assert_eq!(Command::RFConfiguration.code(), 0x32);
    assert_eq!(Command::RFRegulationTest.code(), 0x58);
    assert_eq!(Command::InListPassiveTarget.code(), 0x4A);
    assert_eq!(Command::InDataExchange.code(), 0x40);
    assert_eq!(Command::InCommunicateThru.code(), 0x42);
    assert_eq!(Command::TgInitAsTarget.code(), 0x8C);
    assert_eq!(Command::TgGetData.code(), 0x86);
    assert_eq!(Command::TgGetTargetStatus.code(), 0x8A);
}

#[test]
fn command_codes_are_distinct() {
    let all = [
        Command::Diagnose, Command::GetFirmwareVersion, Command::GetGeneralStatus,
        Command::ReadRegister, Command::WriteRegister, Command::ReadGPIO, Command::WriteGPIO,
        Command::SetSerialBaudRate, Command::SetParameters, Command::SAMConfiguration,
        Command::PowerDown, Command::RFConfiguration, Command::RFRegulationTest,
        Command::InJumpForDEP, Command::InJumpForPSL, Command::InListPassiveTarget,
        Command::InATR, Command::InPSL, Command::InDataExchange, Command::InCommunicateThru,
        Command::InDeselect, Command::InRelease, Command::InSelect, Command::InAutoPoll,
        Command::TgInitAsTarget, Command::TgSetGeneralBytes, Command::TgGetData,
        Command::TgSetData, Command::TgSetMetaData, Command::TgGetInitiatorCommand,
        Command::TgResponseToInitiator, Command::TgGetTargetStatus,
    ];
    for (i, a) in all.iter().enumerate() {
        for (j, b) in all.iter().enumerate() {
            assert_eq!(i == j, a.code() == b.code());
        }
    }
}

#[test]
fn parameter_codes() {
    assert_eq!(CardType::IsoTypeA.code(), 0x00);
    assert_eq!(CardType::Jewel.code(), 0x04);
    assert_eq!(TxSpeed::Tx848kbps.code(), 0b0011_0000);
    assert_eq!(TxFraming::FeliCa.code(), 0b0000_0010);
    assert_eq!(NTAGCommand::FastRead.code(), 0x3A);
    assert_eq!(NTAGCommand::ReadSig.code(), 0x3C);
    assert_eq!(MifareCommand::Transfer.code(), 0xB0);
    assert_eq!(MifareCommand::Restore.code(), 0xC2);
}

#[test]
fn fixed_requests() {
    let r = Request::GET_FIRMWARE_VERSION();
    assert_eq!(r.command, Command::GetFirmwareVersion);
    assert_eq!(r.data.len(), 0);
    assert_eq!(Request::INLIST_ONE_ISO_A_TARGET(), Request::new(Command::InListPassiveTarget, [1, 0]));
    assert_eq!(Request::SELECT_TAG_1(), Request::new(Command::InSelect, [1]));
    assert_eq!(Request::SELECT_TAG_2(), Request::new(Command::InSelect, [2]));
    assert_eq!(Request::DESELECT_TAG_1(), Request::new(Command::InDeselect, [1]));
    assert_eq!(Request::DESELECT_TAG_2(), Request::new(Command::InDeselect, [2]));
    assert_eq!(Request::RELEASE_TAG_1(), Request::new(Command::InRelease, [1]));
    assert_eq!(Request::RELEASE_TAG_2(), Request::new(Command::InRelease, [2]));
    assert_eq!(Request::TG_GET_DATA(), Request::new(Command::TgGetData, []));
}

#[test]
fn tg_init_as_target_requests() {
    let r1 = Request::TG_INIT_AS_TARGET1();
    assert_eq!(r1.command, Command::TgInitAsTarget);
    assert_eq!(&r1.data[..7], &[0x04, 0x08, 0x00, 0x11, 0x22, 0x33, 0x60]);
    assert_eq!(&r1.data[35..], &[0x00, 0x00]);
    let r3 = Request::TG_INIT_AS_TARGET3();
    assert_eq!(r3.data.len(), 43);
    assert_eq!(&r3.data[35..], &[0x06, 0x46, 0x66, 0x6D, 0x01, 0x01, 0x10, 0x00]);
    let r2 = Request::TG_INIT_AS_TARGET2();
    assert_eq!(&r2.data[..7], &[5, 0x04, 0x00, 0, 0, 0, 0x20]);
    assert!(r2.data[7..].iter().all(|b| *b == 0));
}

#[test]
fn tg_init_as_target_defaults_give_target2() {
    assert_eq!(Request::tg_init_as_target(None, None), Request::TG_INIT_AS_TARGET2());
}

#[test]
fn tg_init_as_target_fills_mode_and_uid() {
    let r = Request::tg_init_as_target(Some(0x01), Some([0xDE, 0xAD, 0xBE]));
    let mut expected = Request::TG_INIT_AS_TARGET2().data;
    expected[0] = 0x01;
    expected[3] = 0xDE;
    expected[4] = 0xAD;
    expected[5] = 0xBE;
    assert_eq!(r, Request::new(Command::TgInitAsTarget, expected));
}

#[test]
fn sam_configuration_modes() {
    assert_eq!(Request::sam_configuration(SAMMode::Normal, false), Request::new(Command::SAMConfiguration, [1, 0, 0]));
    assert_eq!(
        Request::sam_configuration(SAMMode::VirtualCard { timeout: 20 }, true),
        Request::new(Command::SAMConfiguration, [2, 20, 1])
    );
    assert_eq!(Request::sam_configuration(SAMMode::WiredCard, true), Request::new(Command::SAMConfiguration, [3, 0, 1]));
    assert_eq!(Request::sam_configuration(SAMMode::DualCard, false), Request::new(Command::SAMConfiguration, [4, 0, 0]));
}

#[test]
fn rf_regulation_test_combines_bits() {
    assert_eq!(
        Request::rf_regulation_test(TxSpeed::Tx424kbps, TxFraming::FeliCa),
        Request::new(Command::RFRegulationTest, [0x22])
    );
    assert_eq!(
        Request::rf_regulation_test(TxSpeed::Tx106kbps, TxFraming::Mifare),
        Request::new(Command::RFRegulationTest, [0x00])
    );
    let b = Request::rf_regulation_test(TxSpeed::Tx848kbps, TxFraming::FeliCa).data[0];
    assert_eq!(b & 0x30, TxSpeed::Tx848kbps.code());
    assert_eq!(b & 0x02, TxFraming::FeliCa.code());
}

#[test]
fn ntag_requests() {
    assert_eq!(Request::ntag_read(4), Request::new(Command::InDataExchange, [0x01, 0x30, 4]));
    assert_eq!(
        Request::ntag_write(5, &[0xA, 0xB, 0xC, 0xD]),
        Request::new(Command::InDataExchange, [0x01, 0xA2, 5, 0xA, 0xB, 0xC, 0xD])
    );
    assert_eq!(
        Request::ntag_pwd_auth(&[1, 2, 3, 4]),
        Request::new(Command::InCommunicateThru, [0x1B, 1, 2, 3, 4])
    );
    assert_eq!(Request::ntag_get_version(), Request::new(Command::InCommunicateThru, [0x60]));
}

#[test]
fn mifare_authenticate_uses_last_four_uid_bytes() {
    let key = [0xFFu8; 6];
    let r = Request::mifare_classic_authenticate_block(&[1, 2, 3, 4, 5, 6, 7], 8, MifareAuthKey::A(&key));
    assert_eq!(
        r,
        Request::new(
            Command::InDataExchange,
            [0x01, 0x60, 8, 0xFF, 0xFF, 0xFF, 0xFF, 0xFF, 0xFF, 4, 5, 6, 7]
        )
    );
    let r2 = Request::mifare_classic_authenticate_block(&[9, 4, 5, 6, 7], 8, MifareAuthKey::A(&key));
    assert_eq!(r, r2);
}

#[test]
fn mifare_authenticate_key_b_and_short_uid() {
    let key = [1u8, 2, 3, 4, 5, 6];
    let r = Request::mifare_classic_authenticate_block(&[0xA, 0xB, 0xC, 0xD], 0, MifareAuthKey::B(&key));
    assert_eq!(
        r,
        Request::new(Command::InDataExchange, [0x01, 0x61, 0, 1, 2, 3, 4, 5, 6, 0xA, 0xB, 0xC, 0xD])
    );
}

#[test]
fn mifare_read_block_matches_ntag_read() {
    assert_eq!(Request::mifare_classic_read_data_block(12), Request::new(Command::InDataExchange, [0x01, 0x30, 12]));
    assert_eq!(Request::mifare_classic_read_data_block(12), Request::ntag_read(12));
}

#[test]
fn set_timeout_request() {
    assert_eq!(
        Request::pn532_set_timeout(0x0B, 0x0A),
        Request::new(Command::RFConfiguration, [0x02, 0x00, 0x0B, 0x0A])
    );
}
