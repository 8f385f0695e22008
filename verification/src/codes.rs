//! Command codes of the PN532 and the parameter codes that its requests carry.

use vstd::prelude::*;

verus! {

/// Commands supported by the PN532
///
/// These commands are fully described in section 7 of the PN532 User Manual.
#[derive(Clone, Copy, Debug, PartialEq, Eq)]
pub enum Command {
    /// This command is used for self-diagnosis.
    ///
    /// For more information, see 7.2.1 Diagnose
    Diagnose,
    /// This command is used to get the version of the embedded firmware from PN532.
    ///
    /// For more information, see 7.2.2 GetFirmwareVersion
    GetFirmwareVersion,
    /// This command allows the host controller to know at a given moment the complete situation of
    /// the PN532.
    ///
    /// For more information, see 7.2.3 GetGeneralStatus
    GetGeneralStatus,
    /// This command is used to read the content of one or several internal registers of the PN532.
    ///
    /// For more information, see 7.2.4 ReadRegister
    ReadRegister,
    /// This command is used to overwrite the content of one or several internal registers of the
    /// PN532.
    ///
    /// For more information, see 7.2.5 WriteRegister
    WriteRegister,
    /// Tells the PN532 to read the value for each GPIO port and return the information to the host
    /// controller.
    ///
    /// For more information, see 7.2.6 ReadGPIO
    ReadGPIO,
    /// Tells the PN532 to apply the value for each port specified by the host controller.
    ///
    /// For more information, see 7.2.7 WriteGPIO
    WriteGPIO,
    /// Selects the baud rate on the serial link between the host controller and the PN532.
    ///
    /// For more information, see 7.2.8 SetSerialBaudRate
    SetSerialBaudRate,
    /// This command is used to set internal parameters of the PN532, and then to configure its
    /// behavior regarding different cases.
    ///
    /// For more information, see 7.2.9 SetParameters
    SetParameters,
    /// This command is used to select the data flow path by configuring the internal serial data
    /// switch.
    ///
    /// For more information, see 7.2.10 SAMConfiguration
    SAMConfiguration,
    /// This command can be used to put the PN532 into Power Down mode in order to save power
    /// consumption.
    ///
    /// For more information, see 7.2.11 PowerDown
    PowerDown,
    /// This command is used to configure the different settings of the PN532.
    ///
    /// For more information, see 7.3.1 RFConfiguration
    RFConfiguration,
    /// This command is used for radio regulation test.
    ///
    /// For more information, see 7.3.2 RFRegulationTest
    RFRegulationTest,
    /// This command is used by a host controller to activate a target using either active or
    /// passive communication mode during communication over DEP protocol.
    ///
    /// For more information, see 7.3.3 InJumpForDEP
    InJumpForDEP,
    /// This command is used by a host controller to activate a target using either active or
    /// passive communication mode during communication over PSL or DEP protocols.
    ///
    /// For more information, see 7.3.4 InJumpForPSL
    InJumpForPSL,
    /// This command tells PN532 to detect as many targets as possible in passive mode.
    ///
    /// For more information, see 7.3.5 InListPassiveTarget
    InListPassiveTarget,
    /// This command is used by a host controller to launch an activation of a target in case of
    /// passive mode.
    ///
    /// For more information, see 7.3.6 InATR
    InATR,
    /// This command is used by a host controller to change the defined bit rates either with a TPE
    /// target or with a ISO/IEC14443-4 target.
    ///
    /// For more information, see 7.3.7 InPSL
    InPSL,
    /// This command is used to support protocol data exchanges between the PN532 as initiator and
    /// a target.
    ///
    /// For more information, see 7.3.8 InDataExchange
    InDataExchange,
    /// This command is used to support basic data exchanges between the PN532 and a target.
    ///
    /// For more information, see 7.3.9 InCommunicateThru
    InCommunicateThru,
    /// Command to deselect specified targets(s).
    ///
    /// For more information, see 7.3.10 InDeselect
    InDeselect,
    /// Command to release the specified target(s).
    ///
    /// For more information, see 7.3.11 InRelease
    InRelease,
    /// Command to select the specified target.
    ///
    /// For more information, see 7.3.12 InSelect
    InSelect,
    /// This command is used to poll card(s) / target(s) of specified Type present in the RF field.
    ///
    /// For more information, see 7.3.13 InAutoPoll
    InAutoPoll,
    /// The host controller uses this command to configure the PN532 as target.
    ///
    /// For more information, see 7.3.14 TgInitAsTarget
    TgInitAsTarget,
    /// This command is used to give General Bytes to the PN532.
    ///
    /// For more information, see 7.3.15 TgSetGeneralBytes
    TgSetGeneralBytes,
    /// This command allows the host controller to get back the data received by the PN532 from its
    /// initiator.
    ///
    /// For more information, see 7.3.16 TgGetData
    TgGetData,
    /// This command allows the host controller to supply PN532 with the data that it wants to send
    /// back to the initiator.
    ///
    /// For more information, see 7.3.17 TgSetData
    TgSetData,
    /// This command is used if the overall amount of data to be sent cannot be transmitted in one
    /// frame.
    ///
    /// For more information, see 7.3.18 TgSetMetaData
    TgSetMetaData,
    /// This command is used to get a packet of data from an initiator and to send it back to the
    /// host controller.
    ///
    /// For more information, see 7.3.19 TgGetInitiatorCommand
    TgGetInitiatorCommand,
    /// This command is used to send a response packet of data to an initiator.
    ///
    /// For more information, see 7.3.20 TgResponseToInitiator
    TgResponseToInitiator,
    /// This command is used by the host controller to know what the current state of the PN532 is.
    ///
    /// For more information, see 7.3.21 TgGetTargetStatus
    TgGetTargetStatus,
}

impl Command {
    /// The byte that stands for this value on the wire.
    pub open spec fn spec_code(self) -> u8 {
        match self {
            Command::Diagnose => 0x00,
            Command::GetFirmwareVersion => 0x02,
            Command::GetGeneralStatus => 0x04,
            Command::ReadRegister => 0x06,
            Command::WriteRegister => 0x08,
            Command::ReadGPIO => 0x0C,
            Command::WriteGPIO => 0x0E,
            Command::SetSerialBaudRate => 0x10,
            Command::SetParameters => 0x12,
            Command::SAMConfiguration => 0x14,
            Command::PowerDown => 0x16,
            Command::RFConfiguration => 0x32,
            Command::RFRegulationTest => 0x58,
            Command::InJumpForDEP => 0x56,
            Command::InJumpForPSL => 0x46,
            Command::InListPassiveTarget => 0x4A,
            Command::InATR => 0x50,
            Command::InPSL => 0x4E,
            Command::InDataExchange => 0x40,
            Command::InCommunicateThru => 0x42,
            Command::InDeselect => 0x44,
            Command::InRelease => 0x52,
            Command::InSelect => 0x54,
            Command::InAutoPoll => 0x60,
            Command::TgInitAsTarget => 0x8C,
            Command::TgSetGeneralBytes => 0x92,
            Command::TgGetData => 0x86,
            Command::TgSetData => 0x8E,
            Command::TgSetMetaData => 0x94,
            Command::TgGetInitiatorCommand => 0x88,
            Command::TgResponseToInitiator => 0x90,
            Command::TgGetTargetStatus => 0x8A,
        }
    }

    /// The byte that stands for this value on the wire.
    #[verifier::when_used_as_spec(spec_code)]
    pub fn code(self) -> (c: u8)
        ensures
            c == self.spec_code(),
    {
        match self {
            Command::Diagnose => 0x00,
            Command::GetFirmwareVersion => 0x02,
            Command::GetGeneralStatus => 0x04,
            Command::ReadRegister => 0x06,
            Command::WriteRegister => 0x08,
            Command::ReadGPIO => 0x0C,
            Command::WriteGPIO => 0x0E,
            Command::SetSerialBaudRate => 0x10,
            Command::SetParameters => 0x12,
            Command::SAMConfiguration => 0x14,
            Command::PowerDown => 0x16,
            Command::RFConfiguration => 0x32,
            Command::RFRegulationTest => 0x58,
            Command::InJumpForDEP => 0x56,
            Command::InJumpForPSL => 0x46,
            Command::InListPassiveTarget => 0x4A,
            Command::InATR => 0x50,
            Command::InPSL => 0x4E,
            Command::InDataExchange => 0x40,
            Command::InCommunicateThru => 0x42,
            Command::InDeselect => 0x44,
            Command::InRelease => 0x52,
            Command::InSelect => 0x54,
            Command::InAutoPoll => 0x60,
            Command::TgInitAsTarget => 0x8C,
            Command::TgSetGeneralBytes => 0x92,
            Command::TgGetData => 0x86,
            Command::TgSetData => 0x8E,
            Command::TgSetMetaData => 0x94,
            Command::TgGetInitiatorCommand => 0x88,
            Command::TgResponseToInitiator => 0x90,
            Command::TgGetTargetStatus => 0x8A,
        }
    }
}

/// SAM mode parameter to be used in [`Command::SAMConfiguration`]
#[derive(Clone, Copy, Debug, PartialEq, Eq)]
pub enum SAMMode {
    /// The SAM is not used; this is the default mode
    Normal,
    /// The couple PN532+SAM is seen as only one contactless SAM card
    /// from the external world
    VirtualCard {
        /// In multiples of 50ms
        timeout: u8,
    },
    /// The host controller can access to the SAM with standard PCD commands
    /// (InListPassiveTarget, InDataExchange, ...)
    WiredCard,
    /// Both the PN532 and the SAM are visible from the external world
    /// as two separated targets
    DualCard,
}

/// Card type parameter to be used in [`Command::InListPassiveTarget`]
#[derive(Clone, Copy, Debug, PartialEq, Eq)]
pub enum CardType {
    /// 106 kbps type A (ISO/IEC14443 Type A)
    IsoTypeA,
    /// 212 kbps (FeliCa polling)
    FeliCa212kbps,
    /// 424 kbps (FeliCa polling)
    FeliCa424kbps,
    /// 106 kbps type B (ISO/IEC14443-3B)
    IsoTypeB,
    /// 106 kbps Innovision Jewel tag
    Jewel,
}

impl CardType {
    /// The byte that stands for this value on the wire.
    pub open spec fn spec_code(self) -> u8 {
        match self {
            CardType::IsoTypeA => 0x00,
            CardType::FeliCa212kbps => 0x01,
            CardType::FeliCa424kbps => 0x02,
            CardType::IsoTypeB => 0x03,
            CardType::Jewel => 0x04,
        }
    }

    /// The byte that stands for this value on the wire.
    #[verifier::when_used_as_spec(spec_code)]
    pub fn code(self) -> (c: u8)
        ensures
            c == self.spec_code(),
    {
        match self {
            CardType::IsoTypeA => 0x00,
            CardType::FeliCa212kbps => 0x01,
            CardType::FeliCa424kbps => 0x02,
            CardType::IsoTypeB => 0x03,
            CardType::Jewel => 0x04,
        }
    }
}

/// Bitrate to be used in [`Command::RFRegulationTest`]
#[derive(Clone, Copy, Debug, PartialEq, Eq)]
pub enum TxSpeed {
    /// 106 kbps
    Tx106kbps,
    /// 212 kbps
    Tx212kbps,
    /// 424 kbps
    Tx424kbps,
    /// 848 kbps
    Tx848kbps,
}

impl TxSpeed {
    /// The byte that stands for this value on the wire.
    pub open spec fn spec_code(self) -> u8 {
        match self {
            TxSpeed::Tx106kbps => 0x00,
            TxSpeed::Tx212kbps => 0x10,
            TxSpeed::Tx424kbps => 0x20,
            TxSpeed::Tx848kbps => 0x30,
        }
    }

    /// The byte that stands for this value on the wire.
    #[verifier::when_used_as_spec(spec_code)]
    pub fn code(self) -> (c: u8)
        ensures
            c == self.spec_code(),
    {
        match self {
            TxSpeed::Tx106kbps => 0x00,
            TxSpeed::Tx212kbps => 0x10,
            TxSpeed::Tx424kbps => 0x20,
            TxSpeed::Tx848kbps => 0x30,
        }
    }
}

/// Type of modulation to be used in [`Command::RFRegulationTest`]
#[derive(Clone, Copy, Debug, PartialEq, Eq)]
pub enum TxFraming {
    Mifare,
    FeliCa,
}

impl TxFraming {
    /// The byte that stands for this value on the wire.
    pub open spec fn spec_code(self) -> u8 {
        match self {
            TxFraming::Mifare => 0x00,
            TxFraming::FeliCa => 0x02,
        }
    }

    /// The byte that stands for this value on the wire.
    #[verifier::when_used_as_spec(spec_code)]
    pub fn code(self) -> (c: u8)
        ensures
            c == self.spec_code(),
    {
        match self {
            TxFraming::Mifare => 0x00,
            TxFraming::FeliCa => 0x02,
        }
    }
}

/// Commands of NTAG tags, sent to the tag through the PN532
#[derive(Clone, Copy, Debug, PartialEq, Eq)]
pub enum NTAGCommand {
    GetVersion,
    Read,
    FastRead,
    Write,
    CompWrite,
    ReadCnt,
    PwdAuth,
    ReadSig,
}

impl NTAGCommand {
    /// The byte that stands for this value on the wire.
    pub open spec fn spec_code(self) -> u8 {
        match self {
            NTAGCommand::GetVersion => 0x60,
            NTAGCommand::Read => 0x30,
            NTAGCommand::FastRead => 0x3A,
            NTAGCommand::Write => 0xA2,
            NTAGCommand::CompWrite => 0xA0,
            NTAGCommand::ReadCnt => 0x39,
            NTAGCommand::PwdAuth => 0x1B,
            NTAGCommand::ReadSig => 0x3C,
        }
    }

    /// The byte that stands for this value on the wire.
    #[verifier::when_used_as_spec(spec_code)]
    pub fn code(self) -> (c: u8)
        ensures
            c == self.spec_code(),
    {
        match self {
            NTAGCommand::GetVersion => 0x60,
            NTAGCommand::Read => 0x30,
            NTAGCommand::FastRead => 0x3A,
            NTAGCommand::Write => 0xA2,
            NTAGCommand::CompWrite => 0xA0,
            NTAGCommand::ReadCnt => 0x39,
            NTAGCommand::PwdAuth => 0x1B,
            NTAGCommand::ReadSig => 0x3C,
        }
    }
}

/// Commands of MIFARE Classic cards, sent to the card through the PN532
#[derive(Clone, Copy, Debug, PartialEq, Eq)]
pub enum MifareCommand {
    AuthenticationWithKeyA,
    AuthenticationWithKeyB,
    PersonalizeUIDUsage,
    SetModType,
    Read,
    Write,
    Decrement,
    Increment,
    Restore,
    Transfer,
}

impl MifareCommand {
    /// The byte that stands for this value on the wire.
    pub open spec fn spec_code(self) -> u8 {
        match self {
            MifareCommand::AuthenticationWithKeyA => 0x60,
            MifareCommand::AuthenticationWithKeyB => 0x61,
            MifareCommand::PersonalizeUIDUsage => 0x40,
            MifareCommand::SetModType => 0x43,
            MifareCommand::Read => 0x30,
            MifareCommand::Write => 0xA0,
            MifareCommand::Decrement => 0xC0,
            MifareCommand::Increment => 0xC1,
            MifareCommand::Restore => 0xC2,
            MifareCommand::Transfer => 0xB0,
        }
    }

    /// The byte that stands for this value on the wire.
    #[verifier::when_used_as_spec(spec_code)]
    pub fn code(self) -> (c: u8)
        ensures
            c == self.spec_code(),
    {
        match self {
            MifareCommand::AuthenticationWithKeyA => 0x60,
            MifareCommand::AuthenticationWithKeyB => 0x61,
            MifareCommand::PersonalizeUIDUsage => 0x40,
            MifareCommand::SetModType => 0x43,
            MifareCommand::Read => 0x30,
            MifareCommand::Write => 0xA0,
            MifareCommand::Decrement => 0xC0,
            MifareCommand::Increment => 0xC1,
            MifareCommand::Restore => 0xC2,
            MifareCommand::Transfer => 0xB0,
        }
    }
}

/// A MIFARE Classic sector key, of type A or of type B
#[derive(Clone, Copy, Debug, PartialEq, Eq)]
pub enum MifareAuthKey<'a> {
    A(&'a [u8; 6]),
    B(&'a [u8; 6]),
}

} // verus!
