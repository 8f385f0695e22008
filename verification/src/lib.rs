//! Requests for the PN532 NFC controller: the command codes it understands and
//! the data of the requests a host sends to it.

pub mod codes;
pub mod laws;
pub mod requests;

pub use codes::{
    CardType, Command, MifareAuthKey, MifareCommand, NTAGCommand, SAMMode, TxFraming, TxSpeed,
};
pub use requests::{BorrowedRequest, Request};
