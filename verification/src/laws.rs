//! Properties that span the code tables and the request constructors.

use vstd::prelude::*;

use crate::codes::{CardType, Command, MifareAuthKey, MifareCommand, NTAGCommand, SAMMode, TxFraming, TxSpeed};
use crate::requests::{
    mifare_auth_data, mifare_read_data, ntag_pwd_auth_data, ntag_read_data, ntag_write_data,
    rf_regulation_test_byte, sam_configuration_data, set_timeout_data, tg_init_as_target_data,
    uid_tail, zeros,
};

verus! {

/// Distinct commands have distinct command codes, so the PN532 can tell every
/// request's command from its code.
pub proof fn lemma_command_codes_distinct(a: Command, b: Command)
    ensures
        a.spec_code() == b.spec_code() ==> a == b,
{
}

/// Distinct card types, NTAG commands and MIFARE commands have distinct codes.
pub proof fn lemma_parameter_codes_distinct(
    c1: CardType,
    c2: CardType,
    n1: NTAGCommand,
    n2: NTAGCommand,
    m1: MifareCommand,
    m2: MifareCommand,
)
    ensures
        c1.spec_code() == c2.spec_code() ==> c1 == c2,
        n1.spec_code() == n2.spec_code() ==> n1 == n2,
        m1.spec_code() == m2.spec_code() ==> m1 == m2,
{
}

/// The byte of a radio regulation test holds the speed in bits 4 and 5 and the
/// framing in bit 1, so each can be read back from it and distinct settings
/// give distinct bytes.
pub proof fn lemma_rf_regulation_test_byte_decodes(s1: TxSpeed, f1: TxFraming, s2: TxSpeed, f2: TxFraming)
    ensures
        rf_regulation_test_byte(s1, f1) & 0x30u8 == s1.spec_code(),
        rf_regulation_test_byte(s1, f1) & 0x02u8 == f1.spec_code(),
        rf_regulation_test_byte(s1, f1) == rf_regulation_test_byte(s2, f2) ==> s1 == s2 && f1 == f2,
{
    let a: u8 = s1.spec_code();
    let b: u8 = f1.spec_code();
    assert(a == 0x00 || a == 0x10 || a == 0x20 || a == 0x30);
    assert(b == 0x00 || b == 0x02);
    assert((a == 0x00 || a == 0x10 || a == 0x20 || a == 0x30) && (b == 0x00 || b == 0x02) ==> (a | b)
        & 0x30u8 == a && (a | b) & 0x02u8 == b) by (bit_vector);
    let c: u8 = s2.spec_code();
    let d: u8 = f2.spec_code();
    assert(c == 0x00 || c == 0x10 || c == 0x20 || c == 0x30);
    assert(d == 0x00 || d == 0x02);
    assert((c == 0x00 || c == 0x10 || c == 0x20 || c == 0x30) && (d == 0x00 || d == 0x02) ==> (c | d)
        & 0x30u8 == c && (c | d) & 0x02u8 == d) by (bit_vector);
}

/// Distinct SAM configurations give distinct requests: the mode (with its
/// timeout in virtual card mode) and the IRQ setting can be read back from the
/// data.
pub proof fn lemma_sam_configuration_injective(m1: SAMMode, irq1: bool, m2: SAMMode, irq2: bool)
    ensures
        sam_configuration_data(m1, irq1) == sam_configuration_data(m2, irq2) ==> m1 == m2 && irq1 == irq2,
{
    if sam_configuration_data(m1, irq1) == sam_configuration_data(m2, irq2) {
        assert(sam_configuration_data(m1, irq1)[0] == sam_configuration_data(m2, irq2)[0]);
        assert(sam_configuration_data(m1, irq1)[1] == sam_configuration_data(m2, irq2)[1]);
        assert(sam_configuration_data(m1, irq1)[2] == sam_configuration_data(m2, irq2)[2]);
    }
}

/// `tg_init_as_target` fills in the layout of the fixed request
/// `TG_INIT_AS_TARGET2`: the two differ at most in the mode byte and in the
/// three bytes of NFCID1.
pub proof fn lemma_tg_init_as_target_layout(mode: u8, uid: Seq<u8>)
    requires
        uid.len() == 3,
    ensures
        tg_init_as_target_data(mode, uid) == (seq![5u8, 0x04u8, 0x00u8, 0x00u8, 0x00u8, 0x00u8, 0x20u8]
            + zeros(30)).update(0, mode).update(3, uid[0]).update(4, uid[1]).update(5, uid[2]),
{
    assert(tg_init_as_target_data(mode, uid) =~= (seq![5u8, 0x04u8, 0x00u8, 0x00u8, 0x00u8, 0x00u8, 0x20u8]
        + zeros(30)).update(0, mode).update(3, uid[0]).update(4, uid[1]).update(5, uid[2]));
}

/// MIFARE authentication names the card by the last four bytes of its UID
/// only: two UIDs that end alike give the same request.
pub proof fn lemma_mifare_auth_uses_uid_tail(
    uid1: Seq<u8>,
    uid2: Seq<u8>,
    block_number: u8,
    key: MifareAuthKey<'_>,
)
    requires
        uid1.len() >= 4,
        uid2.len() >= 4,
        uid_tail(uid1) == uid_tail(uid2),
    ensures
        mifare_auth_data(uid1, block_number, key) == mifare_auth_data(uid2, block_number, key),
{
}

/// Reading an NTAG page and reading a MIFARE Classic block send the same
/// bytes to the card.
pub proof fn lemma_ntag_and_mifare_read_agree(n: u8)
    ensures
        ntag_read_data(n) == mifare_read_data(n),
{
}

/// An NTAG page write sends `01 A2`, then the page asked for, unchanged, then
/// the four data bytes in order.
pub proof fn lemma_ntag_write_bytes(page: u8, bytes: Seq<u8>)
    requires
        bytes.len() == 4,
    ensures
        ntag_write_data(page, bytes).len() == 7,
        ntag_write_data(page, bytes)[0] == 0x01u8,
        ntag_write_data(page, bytes)[1] == 0xA2u8,
        ntag_write_data(page, bytes)[2] == page,
        ntag_write_data(page, bytes).subrange(3, 7) == bytes,
        forall|i: int| 0 <= i < 4 ==> #[trigger] ntag_write_data(page, bytes)[3 + i] == bytes[i],
{
    assert(ntag_write_data(page, bytes).subrange(3, 7) =~= bytes);
}

/// Writes of different pages, or of different bytes, are different requests.
pub proof fn lemma_ntag_write_injective(p1: u8, b1: Seq<u8>, p2: u8, b2: Seq<u8>)
    requires
        b1.len() == 4,
        b2.len() == 4,
    ensures
        ntag_write_data(p1, b1) == ntag_write_data(p2, b2) <==> p1 == p2 && b1 == b2,
{
    lemma_ntag_write_bytes(p1, b1);
    lemma_ntag_write_bytes(p2, b2);
}

/// An NTAG page read sends `01 30`, then the page asked for, unchanged.
pub proof fn lemma_ntag_read_bytes(page: u8)
    ensures
        ntag_read_data(page) == seq![0x01u8, 0x30u8, page],
{
    assert(ntag_read_data(page) =~= seq![0x01u8, 0x30u8, page]);
}

/// NTAG password authentication sends `1B`, then the four password bytes
/// unchanged and in order; different passwords give different requests.
pub proof fn lemma_ntag_pwd_auth_bytes(bytes: Seq<u8>, other: Seq<u8>)
    requires
        bytes.len() == 4,
        other.len() == 4,
    ensures
        ntag_pwd_auth_data(bytes).len() == 5,
        ntag_pwd_auth_data(bytes)[0] == 0x1Bu8,
        ntag_pwd_auth_data(bytes).subrange(1, 5) == bytes,
        forall|i: int| 0 <= i < 4 ==> #[trigger] ntag_pwd_auth_data(bytes)[1 + i] == bytes[i],
        ntag_pwd_auth_data(bytes) == ntag_pwd_auth_data(other) <==> bytes == other,
{
    assert(ntag_pwd_auth_data(bytes).subrange(1, 5) =~= bytes);
    assert(ntag_pwd_auth_data(other).subrange(1, 5) =~= other);
}

/// The timeout request sends configuration item `02` and the RFU byte `00`,
/// then the ATR_RES timeout and then the retry timeout, each as given.
pub proof fn lemma_set_timeout_bytes(atr_res_timeout: u8, retry_timeout: u8)
    ensures
        set_timeout_data(atr_res_timeout, retry_timeout).len() == 4,
        set_timeout_data(atr_res_timeout, retry_timeout)[0] == 0x02u8,
        set_timeout_data(atr_res_timeout, retry_timeout)[1] == 0x00u8,
        set_timeout_data(atr_res_timeout, retry_timeout)[2] == atr_res_timeout,
        set_timeout_data(atr_res_timeout, retry_timeout)[3] == retry_timeout,
{
}

/// The SAM configuration sends the mode (1 normal, 2 virtual card, 3 wired
/// card, 4 dual card), then the virtual card timeout (0 in every other mode),
/// then 1 when the IRQ pin is used and 0 when it is not.
pub proof fn lemma_sam_configuration_bytes(mode: SAMMode, use_irq_pin: bool)
    ensures
        sam_configuration_data(mode, use_irq_pin).len() == 3,
        mode is Normal ==> sam_configuration_data(mode, use_irq_pin)[0] == 1u8,
        mode is VirtualCard ==> sam_configuration_data(mode, use_irq_pin)[0] == 2u8,
        mode is WiredCard ==> sam_configuration_data(mode, use_irq_pin)[0] == 3u8,
        mode is DualCard ==> sam_configuration_data(mode, use_irq_pin)[0] == 4u8,
        mode matches SAMMode::VirtualCard { timeout } ==> sam_configuration_data(mode, use_irq_pin)[1]
            == timeout,
        !(mode is VirtualCard) ==> sam_configuration_data(mode, use_irq_pin)[1] == 0u8,
        use_irq_pin ==> sam_configuration_data(mode, use_irq_pin)[2] == 1u8,
        !use_irq_pin ==> sam_configuration_data(mode, use_irq_pin)[2] == 0u8,
{
}

/// MIFARE authentication sends `01`, then `60` for a key A or `61` for a key
/// B, then the block asked for, then the six bytes of the key given, unchanged
/// and in order, then the last four bytes of the UID in order.
pub proof fn lemma_mifare_auth_bytes(uid: Seq<u8>, block_number: u8, key: MifareAuthKey<'_>)
    requires
        uid.len() >= 4,
    ensures
        mifare_auth_data(uid, block_number, key).len() == 13,
        mifare_auth_data(uid, block_number, key)[0] == 0x01u8,
        key is A ==> mifare_auth_data(uid, block_number, key)[1] == 0x60u8,
        key is B ==> mifare_auth_data(uid, block_number, key)[1] == 0x61u8,
        mifare_auth_data(uid, block_number, key)[2] == block_number,
        key matches MifareAuthKey::A(k) ==> mifare_auth_data(uid, block_number, key).subrange(3, 9)
            == k@,
        key matches MifareAuthKey::B(k) ==> mifare_auth_data(uid, block_number, key).subrange(3, 9)
            == k@,
        mifare_auth_data(uid, block_number, key).subrange(9, 13) == uid.subrange(
            uid.len() - 4,
            uid.len() as int,
        ),
        forall|i: int|
            0 <= i < 4 ==> #[trigger] mifare_auth_data(uid, block_number, key)[9 + i] == uid[uid.len()
                - 4 + i],
{
    let d = mifare_auth_data(uid, block_number, key);
    match key {
        MifareAuthKey::A(k) => {
            assert(d.subrange(3, 9) =~= k@);
        },
        MifareAuthKey::B(k) => {
            assert(d.subrange(3, 9) =~= k@);
        },
    }
    assert(d.subrange(9, 13) =~= uid.subrange(uid.len() - 4, uid.len() as int));
}

/// Authenticating with the same six bytes as a key A or as a key B gives
/// requests that differ only in the command byte.
pub proof fn lemma_mifare_auth_key_kind(uid: Seq<u8>, block_number: u8, k: &[u8; 6])
    requires
        uid.len() >= 4,
    ensures
        mifare_auth_data(uid, block_number, MifareAuthKey::A(k)) == mifare_auth_data(
            uid,
            block_number,
            MifareAuthKey::B(k),
        ).update(1, 0x60u8),
{
    assert(mifare_auth_data(uid, block_number, MifareAuthKey::A(k)) =~= mifare_auth_data(
        uid,
        block_number,
        MifareAuthKey::B(k),
    ).update(1, 0x60u8));
}

/// The command codes are those of the PN532 User Manual, section 7.
pub proof fn lemma_command_code_values(x: Command)
    ensures
        x is Diagnose ==> x.spec_code() == 0x00u8,
        x is GetFirmwareVersion ==> x.spec_code() == 0x02u8,
        x is GetGeneralStatus ==> x.spec_code() == 0x04u8,
        x is ReadRegister ==> x.spec_code() == 0x06u8,
        x is WriteRegister ==> x.spec_code() == 0x08u8,
        x is ReadGPIO ==> x.spec_code() == 0x0Cu8,
        x is WriteGPIO ==> x.spec_code() == 0x0Eu8,
        x is SetSerialBaudRate ==> x.spec_code() == 0x10u8,
        x is SetParameters ==> x.spec_code() == 0x12u8,
        x is SAMConfiguration ==> x.spec_code() == 0x14u8,
        x is PowerDown ==> x.spec_code() == 0x16u8,
        x is RFConfiguration ==> x.spec_code() == 0x32u8,
        x is RFRegulationTest ==> x.spec_code() == 0x58u8,
        x is InJumpForDEP ==> x.spec_code() == 0x56u8,
        x is InJumpForPSL ==> x.spec_code() == 0x46u8,
        x is InListPassiveTarget ==> x.spec_code() == 0x4Au8,
        x is InATR ==> x.spec_code() == 0x50u8,
        x is InPSL ==> x.spec_code() == 0x4Eu8,
        x is InDataExchange ==> x.spec_code() == 0x40u8,
        x is InCommunicateThru ==> x.spec_code() == 0x42u8,
        x is InDeselect ==> x.spec_code() == 0x44u8,
        x is InRelease ==> x.spec_code() == 0x52u8,
        x is InSelect ==> x.spec_code() == 0x54u8,
        x is InAutoPoll ==> x.spec_code() == 0x60u8,
        x is TgInitAsTarget ==> x.spec_code() == 0x8Cu8,
        x is TgSetGeneralBytes ==> x.spec_code() == 0x92u8,
        x is TgGetData ==> x.spec_code() == 0x86u8,
        x is TgSetData ==> x.spec_code() == 0x8Eu8,
        x is TgSetMetaData ==> x.spec_code() == 0x94u8,
        x is TgGetInitiatorCommand ==> x.spec_code() == 0x88u8,
        x is TgResponseToInitiator ==> x.spec_code() == 0x90u8,
        x is TgGetTargetStatus ==> x.spec_code() == 0x8Au8,
{
}

/// The card type codes of `InListPassiveTarget` (the BrTy parameter).
pub proof fn lemma_card_type_code_values(x: CardType)
    ensures
        x is IsoTypeA ==> x.spec_code() == 0x00u8,
        x is FeliCa212kbps ==> x.spec_code() == 0x01u8,
        x is FeliCa424kbps ==> x.spec_code() == 0x02u8,
        x is IsoTypeB ==> x.spec_code() == 0x03u8,
        x is Jewel ==> x.spec_code() == 0x04u8,
{
}

/// The bitrate codes of `RFRegulationTest`: the rate in bits 4 and 5.
pub proof fn lemma_tx_speed_code_values(x: TxSpeed)
    ensures
        x is Tx106kbps ==> x.spec_code() == 0x00u8,
        x is Tx212kbps ==> x.spec_code() == 0x10u8,
        x is Tx424kbps ==> x.spec_code() == 0x20u8,
        x is Tx848kbps ==> x.spec_code() == 0x30u8,
{
}

/// The modulation codes of `RFRegulationTest`: the framing in bit 1.
pub proof fn lemma_tx_framing_code_values(x: TxFraming)
    ensures
        x is Mifare ==> x.spec_code() == 0x00u8,
        x is FeliCa ==> x.spec_code() == 0x02u8,
{
}

/// The NTAG command codes of the NTAG21x data sheet.
pub proof fn lemma_ntag_command_code_values(x: NTAGCommand)
    ensures
        x is GetVersion ==> x.spec_code() == 0x60u8,
        x is Read ==> x.spec_code() == 0x30u8,
        x is FastRead ==> x.spec_code() == 0x3Au8,
        x is Write ==> x.spec_code() == 0xA2u8,
        x is CompWrite ==> x.spec_code() == 0xA0u8,
        x is ReadCnt ==> x.spec_code() == 0x39u8,
        x is PwdAuth ==> x.spec_code() == 0x1Bu8,
        x is ReadSig ==> x.spec_code() == 0x3Cu8,
{
}

/// The MIFARE Classic command codes.
pub proof fn lemma_mifare_command_code_values(x: MifareCommand)
    ensures
        x is AuthenticationWithKeyA ==> x.spec_code() == 0x60u8,
        x is AuthenticationWithKeyB ==> x.spec_code() == 0x61u8,
        x is PersonalizeUIDUsage ==> x.spec_code() == 0x40u8,
        x is SetModType ==> x.spec_code() == 0x43u8,
        x is Read ==> x.spec_code() == 0x30u8,
        x is Write ==> x.spec_code() == 0xA0u8,
        x is Decrement ==> x.spec_code() == 0xC0u8,
        x is Increment ==> x.spec_code() == 0xC1u8,
        x is Restore ==> x.spec_code() == 0xC2u8,
        x is Transfer ==> x.spec_code() == 0xB0u8,
{
}

/// The byte of a radio regulation test carries nothing but the speed bits and
/// the framing bit: it is the sum of the two codes.
pub proof fn lemma_rf_regulation_test_byte_exact(s: TxSpeed, f: TxFraming)
    ensures
        rf_regulation_test_byte(s, f) & 0xCDu8 == 0u8,
        rf_regulation_test_byte(s, f) == s.spec_code() + f.spec_code(),
{
    let a: u8 = s.spec_code();
    let b: u8 = f.spec_code();
    assert(a == 0x00 || a == 0x10 || a == 0x20 || a == 0x30);
    assert(b == 0x00 || b == 0x02);
    assert((a == 0x00 || a == 0x10 || a == 0x20 || a == 0x30) && (b == 0x00 || b == 0x02) ==> (a | b)
        & 0xCDu8 == 0u8 && (a | b) == a + b) by (bit_vector);
}

} // verus!
