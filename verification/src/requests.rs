//! PN532 requests: a [`Command`] together with the bytes that follow it, and
//! the constructors of the requests this crate knows how to build.

use vstd::prelude::*;

use crate::codes::{Command, MifareAuthKey, MifareCommand, NTAGCommand, SAMMode, TxFraming, TxSpeed, CardType};

verus! {

/// PN532 request consisting of a [`Command`] and extra command data
#[derive(Clone, Debug, PartialEq, Eq)]
pub struct Request<const N: usize> {
    pub command: Command,
    pub data: [u8; N],
}

/// PN532 request consisting of a [`Command`] and a reference to extra command data
pub struct BorrowedRequest<'a> {
    pub command: Command,
    pub data: &'a [u8],
}

impl<'a, const N: usize> From<&'a Request<N>> for BorrowedRequest<'a> {
    fn from(value: &'a Request<N>) -> (r: BorrowedRequest<'a>)
        ensures
            r.command == value.command,
            r.data@ == value.data@,
    {
        BorrowedRequest::new(value.command, &value.data)
    }
}

impl<'a, const N: usize> vstd::std_specs::convert::FromSpecImpl<&'a Request<N>> for BorrowedRequest<'a> {
    open spec fn obeys_from_spec() -> bool {
        true
    }

    open spec fn from_spec(value: &'a Request<N>) -> Self {
        BorrowedRequest {
            command: value.command,
            data: vstd::array::spec_array_as_slice(&value.data),
        }
    }
}

impl<const N: usize> Request<N> {
    /// Builds a request from a command and its data.
    pub fn new(command: Command, data: [u8; N]) -> (r: Self)
        ensures
            r.command == command,
            r.data@ == data@,
    {
        Request { command, data }
    }
}

impl<'a> BorrowedRequest<'a> {
    /// Builds a request that borrows its data.
    pub fn new(command: Command, data: &'a [u8]) -> (r: Self)
        ensures
            r.command == command,
            r.data == data,
    {
        Self { command, data }
    }
}

/// `n` zero bytes.
pub open spec fn zeros(n: nat) -> Seq<u8> {
    Seq::new(n, |i: int| 0u8)
}

/// Data of a `TgInitAsTarget` request in the layout of
/// [`Request::tg_init_as_target`]: the mode, the sensor response `04 00`,
/// the three bytes of NFCID1, the select response `20`, then zeros for the
/// FeliCa parameters, NFCID3t and the lengths of the general and the
/// historical bytes.
pub open spec fn tg_init_as_target_data(mode: u8, uid: Seq<u8>) -> Seq<u8> {
    seq![mode, 0x04u8, 0x00u8, uid[0], uid[1], uid[2], 0x20u8] + zeros(30)
}

/// The mode byte of a `SAMConfiguration` request.
pub open spec fn sam_mode_byte(mode: SAMMode) -> u8 {
    match mode {
        SAMMode::Normal => 1,
        SAMMode::VirtualCard { .. } => 2,
        SAMMode::WiredCard => 3,
        SAMMode::DualCard => 4,
    }
}

/// The timeout byte of a `SAMConfiguration` request: the timeout of the
/// virtual card mode, zero in every other mode.
pub open spec fn sam_timeout_byte(mode: SAMMode) -> u8 {
    match mode {
        SAMMode::VirtualCard { timeout } => timeout,
        _ => 0,
    }
}

/// Data of a `SAMConfiguration` request.
pub open spec fn sam_configuration_data(mode: SAMMode, use_irq_pin: bool) -> Seq<u8> {
    seq![sam_mode_byte(mode), sam_timeout_byte(mode), if use_irq_pin { 1u8 } else { 0u8 }]
}

/// The byte of an `RFRegulationTest` request: the bits of the speed and of
/// the framing together.
pub open spec fn rf_regulation_test_byte(tx_speed: TxSpeed, tx_framing: TxFraming) -> u8 {
    tx_speed.spec_code() | tx_framing.spec_code()
}

/// Data of an `InDataExchange` request to target 1 that reads an NTAG page.
pub open spec fn ntag_read_data(page: u8) -> Seq<u8> {
    seq![0x01u8, NTAGCommand::Read.spec_code(), page]
}

/// Data of an `InDataExchange` request to target 1 that writes the four
/// bytes of an NTAG page.
pub open spec fn ntag_write_data(page: u8, bytes: Seq<u8>) -> Seq<u8> {
    seq![0x01u8, NTAGCommand::Write.spec_code(), page] + bytes
}

/// The MIFARE command that authenticates with a key of the kind of `key`.
pub open spec fn mifare_auth_command(key: MifareAuthKey<'_>) -> MifareCommand {
    match key {
        MifareAuthKey::A(_) => MifareCommand::AuthenticationWithKeyA,
        MifareAuthKey::B(_) => MifareCommand::AuthenticationWithKeyB,
    }
}

/// The six bytes of a MIFARE key.
pub open spec fn mifare_key_bytes(key: MifareAuthKey<'_>) -> Seq<u8> {
    match key {
        MifareAuthKey::A(k) => k@,
        MifareAuthKey::B(k) => k@,
    }
}

/// The last four bytes of a UID.
pub open spec fn uid_tail(uid: Seq<u8>) -> Seq<u8> {
    uid.subrange(uid.len() - 4, uid.len() as int)
}

/// Data of an `InDataExchange` request to target 1 that authenticates a
/// MIFARE Classic block: the authentication command of the key's kind, the
/// block, the six key bytes, then the last four bytes of the card's UID.
pub open spec fn mifare_auth_data(uid: Seq<u8>, block_number: u8, key: MifareAuthKey<'_>) -> Seq<u8> {
    seq![0x01u8, mifare_auth_command(key).spec_code(), block_number] + mifare_key_bytes(key)
        + uid_tail(uid)
}

/// Data of an `InDataExchange` request to target 1 that reads a MIFARE
/// Classic block.
pub open spec fn mifare_read_data(block_number: u8) -> Seq<u8> {
    seq![0x01u8, MifareCommand::Read.spec_code(), block_number]
}

/// Data of an `InCommunicateThru` request that authenticates to an NTAG with
/// a four-byte password.
pub open spec fn ntag_pwd_auth_data(bytes: Seq<u8>) -> Seq<u8> {
    seq![NTAGCommand::PwdAuth.spec_code()] + bytes
}

/// Data of an `RFConfiguration` request that sets the timeouts (configuration
/// item 2, an RFU byte, then the two timeouts).
pub open spec fn set_timeout_data(atr_res_timeout: u8, retry_timeout: u8) -> Seq<u8> {
    seq![0x02u8, 0x00u8, atr_res_timeout, retry_timeout]
}

impl Request<0> {
    /// Asks for the firmware version.
    #[allow(non_snake_case)]
    pub fn GET_FIRMWARE_VERSION() -> (r: Request<0>)
        ensures
            r.command == Command::GetFirmwareVersion,
            r.data@ == Seq::<u8>::empty(),
    {
        Request::new(Command::GetFirmwareVersion, [])
    }

    /// Lists one ISO/IEC14443 type A target.
    #[allow(non_snake_case)]
    pub fn INLIST_ONE_ISO_A_TARGET() -> (r: Request<2>)
        ensures
            r.command == Command::InListPassiveTarget,
            r.data@ == seq![1u8, CardType::IsoTypeA.spec_code()],
    {
        Request::new(Command::InListPassiveTarget, [1, CardType::IsoTypeA.code()])
    }

    /// Builds a `TgInitAsTarget` request that makes the PN532 a passive
    /// ISO/IEC14443 type A target. `mode` defaults to 5 (PICC only, passive
    /// only) and `short_uid`, the three bytes of NFCID1, to zeros.
    pub fn tg_init_as_target(mode: Option<u8>, short_uid: Option<[u8; 3]>) -> (r: Request<37>)
        ensures
            r.command == Command::TgInitAsTarget,
            r.data@ == tg_init_as_target_data(
                match mode { Some(m) => m, None => 0x05u8 },
                match short_uid { Some(u) => u@, None => seq![0u8, 0u8, 0u8] },
            ),
    {
        let uid: [u8; 3] = match short_uid {
            Some(u) => u,
            None => [0u8, 0, 0],
        };
        let mode: u8 = match mode {
            Some(m) => m,
            None => 0x05,
        };
        let r = Request::new(
            Command::TgInitAsTarget,
            [
                mode,
                0x04, 0x00,
                uid[0], uid[1], uid[2],
                0x20,
                0, 0, 0, 0, 0, 0, 0, 0,
                0, 0, 0, 0, 0, 0, 0, 0,
                0, 0,
                0, 0, 0, 0, 0, 0, 0, 0, 0, 0,
                0,
                0,
            ],
        );
        assert(r.data@ =~= tg_init_as_target_data(mode, uid@));
        r
    }
    /// Selects target 1.
    #[allow(non_snake_case)]
    pub fn SELECT_TAG_1() -> (r: Request<1>)
        ensures
            r.command == Command::InSelect,
            r.data@ == seq![1u8],
    {
        Request::new(Command::InSelect, [1])
    }

    /// Selects target 2.
    #[allow(non_snake_case)]
    pub fn SELECT_TAG_2() -> (r: Request<1>)
        ensures
            r.command == Command::InSelect,
            r.data@ == seq![2u8],
    {
        Request::new(Command::InSelect, [2])
    }

    /// Deselects target 1.
    #[allow(non_snake_case)]
    pub fn DESELECT_TAG_1() -> (r: Request<1>)
        ensures
            r.command == Command::InDeselect,
            r.data@ == seq![1u8],
    {
        Request::new(Command::InDeselect, [1])
    }

    /// Deselects target 2.
    #[allow(non_snake_case)]
    pub fn DESELECT_TAG_2() -> (r: Request<1>)
        ensures
            r.command == Command::InDeselect,
            r.data@ == seq![2u8],
    {
        Request::new(Command::InDeselect, [2])
    }

    /// Releases target 1.
    #[allow(non_snake_case)]
    pub fn RELEASE_TAG_1() -> (r: Request<1>)
        ensures
            r.command == Command::InRelease,
            r.data@ == seq![1u8],
    {
        Request::new(Command::InRelease, [1])
    }

    /// Releases target 2.
    #[allow(non_snake_case)]
    pub fn RELEASE_TAG_2() -> (r: Request<1>)
        ensures
            r.command == Command::InRelease,
            r.data@ == seq![2u8],
    {
        Request::new(Command::InRelease, [2])
    }

    /// `TgInitAsTarget` with the parameters of the pn532 Python library:
    /// MIFARE, FeliCa and NFCID3t parameters filled in.
    #[allow(non_snake_case)]
    pub fn TG_INIT_AS_TARGET1() -> (r: Request<37>)
        ensures
            r.command == Command::TgInitAsTarget,
            r.data@ == seq![
                0x04u8,
                0x08u8, 0x00u8,
                0x11u8, 0x22u8, 0x33u8,
                0x60u8,
                0x01u8, 0xFEu8,
                0xA2u8, 0xA3u8, 0xA4u8,
                0xA5u8, 0xA6u8, 0xA7u8,
                0xC0u8, 0xC1u8,
                0xC2u8, 0xC3u8, 0xC4u8,
                0xC5u8, 0xC6u8, 0xC7u8,
                0xFFu8, 0xFFu8,
                0xAAu8, 0x99u8, 0x88u8,
                0x77u8, 0x66u8, 0x55u8, 0x44u8,
                0x33u8, 0x22u8, 0x11u8,
                0x00u8,
                0x00u8,
            ],
    {
        let r = Request::new(
            Command::TgInitAsTarget,
            [
                0x04,
                // MIFARE parameters
                0x08, 0x00,
                0x11, 0x22, 0x33,
                0x60,
                // FeliCa parameters
                0x01, 0xFE,
                0xA2, 0xA3, 0xA4,
                0xA5, 0xA6, 0xA7,
                0xC0, 0xC1,
                0xC2, 0xC3, 0xC4,
                0xC5, 0xC6, 0xC7,
                0xFF, 0xFF,
                // NFCID3t
                0xAA, 0x99, 0x88,
                0x77, 0x66, 0x55, 0x44,
                0x33, 0x22, 0x11,
                // lengths of the general and of the historical bytes
                0x00,
                0x00,
            ],
        );
        assert(r.data@ =~= seq![
            0x04u8, 0x08u8, 0x00u8, 0x11u8, 0x22u8, 0x33u8, 0x60u8, 0x01u8, 0xFEu8,
            0xA2u8, 0xA3u8, 0xA4u8, 0xA5u8, 0xA6u8, 0xA7u8, 0xC0u8, 0xC1u8, 0xC2u8, 0xC3u8,
            0xC4u8, 0xC5u8, 0xC6u8, 0xC7u8, 0xFFu8, 0xFFu8, 0xAAu8, 0x99u8, 0x88u8, 0x77u8,
            0x66u8, 0x55u8, 0x44u8, 0x33u8, 0x22u8, 0x11u8, 0x00u8, 0x00u8,
        ]);
        r
    }

    /// `TgInitAsTarget` as a passive ISO/IEC14443 type A target (PICC only,
    /// passive only) with a zero NFCID1: the request that
    /// [`Request::tg_init_as_target`] builds from its defaults.
    #[allow(non_snake_case)]
    pub fn TG_INIT_AS_TARGET2() -> (r: Request<37>)
        ensures
            r.command == Command::TgInitAsTarget,
            r.data@ == seq![5u8, 0x04u8, 0x00u8, 0x00u8, 0x00u8, 0x00u8, 0x20u8] + zeros(30),
    {
        let r = Request::new(
            Command::TgInitAsTarget,
            [
                // mode: PICC only, passive only
                5,
                // SENS_RES
                0x04, 0x00,
                // NFCID1
                0x00, 0x00, 0x00,
                // SEL_RES
                0x20,
                // FeliCa parameters
                0, 0, 0, 0, 0, 0, 0, 0,
                0, 0, 0, 0, 0, 0, 0, 0,
                0, 0,
                // NFCID3t
                0, 0, 0, 0, 0, 0, 0, 0, 0, 0,
                // lengths of the general and of the historical bytes
                0,
                0,
            ],
        );
        assert(r.data@ =~= seq![5u8, 0x04u8, 0x00u8, 0x00u8, 0x00u8, 0x00u8, 0x20u8] + zeros(30));
        r
    }

    /// `TgInitAsTarget` for peer to peer: a zero MIFARE part, FeliCa and
    /// NFCID3t parameters, and the LLCP magic number and version as general
    /// bytes.
    #[allow(non_snake_case)]
    pub fn TG_INIT_AS_TARGET3() -> (r: Request<43>)
        ensures
            r.command == Command::TgInitAsTarget,
            r.data@ == seq![
                0x00u8,
                0x00u8, 0x00u8,
                0x00u8, 0x00u8, 0x00u8,
                0x40u8,
                0x01u8, 0xFEu8, 0x0Fu8, 0xBBu8, 0xBAu8, 0xA6u8, 0xC9u8, 0x89u8,
                0x00u8, 0x00u8, 0x00u8, 0x00u8, 0x00u8, 0x00u8, 0x00u8, 0x00u8,
                0xFFu8, 0xFFu8,
                0x01u8, 0xFEu8, 0x0Fu8, 0xBBu8, 0xBAu8, 0xA6u8, 0xC9u8, 0x89u8, 0x00u8, 0x00u8,
                0x06u8, 0x46u8, 0x66u8, 0x6Du8, 0x01u8, 0x01u8, 0x10u8, 0x00u8,
            ],
    {
        let r = Request::new(
            Command::TgInitAsTarget,
            [
                0,
                // SENS_RES
                0x00, 0x00,
                // NFCID1
                0x00, 0x00, 0x00,
                // SEL_RES
                0x40,
                // POL_RES
                0x01, 0xFE, 0x0F, 0xBB, 0xBA, 0xA6, 0xC9, 0x89,
                0x00, 0x00, 0x00, 0x00, 0x00, 0x00, 0x00, 0x00,
                0xFF, 0xFF,
                // NFCID3t
                0x01, 0xFE, 0x0F, 0xBB, 0xBA, 0xA6, 0xC9, 0x89, 0x00, 0x00,
                // LLCP magic number and version parameter
                0x06, 0x46, 0x66, 0x6D, 0x01, 0x01, 0x10, 0x00,
            ],
        );
        assert(r.data@ =~= seq![
            0x00u8, 0x00u8, 0x00u8, 0x00u8, 0x00u8, 0x00u8, 0x40u8, 0x01u8, 0xFEu8, 0x0Fu8,
            0xBBu8, 0xBAu8, 0xA6u8, 0xC9u8, 0x89u8, 0x00u8, 0x00u8, 0x00u8, 0x00u8, 0x00u8,
            0x00u8, 0x00u8, 0x00u8, 0xFFu8, 0xFFu8, 0x01u8, 0xFEu8, 0x0Fu8, 0xBBu8, 0xBAu8,
            0xA6u8, 0xC9u8, 0x89u8, 0x00u8, 0x00u8, 0x06u8, 0x46u8, 0x66u8, 0x6Du8, 0x01u8,
            0x01u8, 0x10u8, 0x00u8,
        ]);
        r
    }

    /// Gets the data that the PN532, as a target, received from its initiator.
    #[allow(non_snake_case)]
    pub fn TG_GET_DATA() -> (r: Request<0>)
        ensures
            r.command == Command::TgGetData,
            r.data@ == Seq::<u8>::empty(),
    {
        Request::new(Command::TgGetData, [])
    }

    /// Configures the SAM: the mode, its timeout (virtual card mode only)
    /// and whether the PN532 drives its IRQ pin.
    pub fn sam_configuration(mode: SAMMode, use_irq_pin: bool) -> (r: Request<3>)
        ensures
            r.command == Command::SAMConfiguration,
            r.data@ == sam_configuration_data(mode, use_irq_pin),
    {
        let (mode_byte, timeout): (u8, u8) = match mode {
            SAMMode::Normal => (1, 0),
            SAMMode::VirtualCard { timeout } => (2, timeout),
            SAMMode::WiredCard => (3, 0),
            SAMMode::DualCard => (4, 0),
        };
        let irq: u8 = if use_irq_pin { 1 } else { 0 };
        let r = Request::new(Command::SAMConfiguration, [mode_byte, timeout, irq]);
        assert(r.data@ =~= sam_configuration_data(mode, use_irq_pin));
        r
    }

    /// Radio regulation test with the given bitrate and modulation.
    pub fn rf_regulation_test(tx_speed: TxSpeed, tx_framing: TxFraming) -> (r: Request<1>)
        ensures
            r.command == Command::RFRegulationTest,
            r.data@ == seq![rf_regulation_test_byte(tx_speed, tx_framing)],
    {
        Request::new(Command::RFRegulationTest, [tx_speed.code() | tx_framing.code()])
    }

    /// Reads page `page` of an NTAG on target 1.
    pub fn ntag_read(page: u8) -> (r: Request<3>)
        ensures
            r.command == Command::InDataExchange,
            r.data@ == ntag_read_data(page),
    {
        Request::new(Command::InDataExchange, [0x01, NTAGCommand::Read.code(), page])
    }

    /// Writes the four `bytes` to page `page` of an NTAG on target 1.
    pub fn ntag_write(page: u8, bytes: &[u8; 4]) -> (r: Request<7>)
        ensures
            r.command == Command::InDataExchange,
            r.data@ == ntag_write_data(page, bytes@),
    {
        let r = Request::new(
            Command::InDataExchange,
            [0x01, NTAGCommand::Write.code(), page, bytes[0], bytes[1], bytes[2], bytes[3]],
        );
        assert(r.data@ =~= ntag_write_data(page, bytes@));
        r
    }

    /// Authenticates block `block_number` of the MIFARE Classic card on
    /// target 1 with `key`; the card is named by the last four bytes of
    /// `uid`, which must hold at least four.
    pub fn mifare_classic_authenticate_block(uid: &[u8], block_number: u8, key: MifareAuthKey) -> (r: Request<13>)
        requires
            uid@.len() >= 4,
        ensures
            r.command == Command::InDataExchange,
            r.data@ == mifare_auth_data(uid@, block_number, key),
    {
        let n = uid.len();
        let (key_type, key_val): (u8, &[u8; 6]) = match key {
            MifareAuthKey::A(key_val) => (MifareCommand::AuthenticationWithKeyA.code(), key_val),
            MifareAuthKey::B(key_val) => (MifareCommand::AuthenticationWithKeyB.code(), key_val),
        };
        let r = Request::new(
            Command::InDataExchange,
            [
                0x01,
                key_type,
                block_number,
                key_val[0],
                key_val[1],
                key_val[2],
                key_val[3],
                key_val[4],
                key_val[5],
                uid[n - 4],
                uid[n - 3],
                uid[n - 2],
                uid[n - 1],
            ],
        );
        assert(r.data@ =~= mifare_auth_data(uid@, block_number, key));
        r
    }

    /// Reads block `block_number` of the MIFARE Classic card on target 1.
    pub fn mifare_classic_read_data_block(block_number: u8) -> (r: Request<3>)
        ensures
            r.command == Command::InDataExchange,
            r.data@ == mifare_read_data(block_number),
    {
        Request::new(Command::InDataExchange, [0x01, MifareCommand::Read.code(), block_number])
    }

    /// Authenticates to an NTAG with the four-byte password `bytes`.
    pub fn ntag_pwd_auth(bytes: &[u8; 4]) -> (r: Request<5>)
        ensures
            r.command == Command::InCommunicateThru,
            r.data@ == ntag_pwd_auth_data(bytes@),
    {
        let r = Request::new(
            Command::InCommunicateThru,
            [NTAGCommand::PwdAuth.code(), bytes[0], bytes[1], bytes[2], bytes[3]],
        );
        assert(r.data@ =~= ntag_pwd_auth_data(bytes@));
        r
    }

    /// Asks an NTAG for its version; the response holds a status byte and
    /// eight bytes of version.
    pub fn ntag_get_version() -> (r: Request<1>)
        ensures
            r.command == Command::InCommunicateThru,
            r.data@ == seq![NTAGCommand::GetVersion.spec_code()],
    {
        Request::new(Command::InCommunicateThru, [NTAGCommand::GetVersion.code()])
    }

    /// Sets the ATR_RES timeout and the retry timeout of the PN532.
    #[allow(non_snake_case)]
    pub fn pn532_set_timeout(fATR_RES_Timeout: u8, fRetryTimeout: u8) -> (r: Request<4>)
        ensures
            r.command == Command::RFConfiguration,
            r.data@ == set_timeout_data(fATR_RES_Timeout, fRetryTimeout),
    {
        let rf_configuration_timeout_sub_command: u8 = 0x02;
        let r = Request::new(
            Command::RFConfiguration,
            [rf_configuration_timeout_sub_command, 0, fATR_RES_Timeout, fRetryTimeout],
        );
        assert(r.data@ =~= set_timeout_data(fATR_RES_Timeout, fRetryTimeout));
        r
    }
}

} // verus!
