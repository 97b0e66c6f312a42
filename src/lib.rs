//! Native helpers for driving a simulated ledger from a foreign test driver:
//! decoding of the fields that cross the boundary, assembly and signing of
//! transactions, and the mapping of ledger outcomes to status bytes.

pub mod ledger;
pub mod logger;
pub mod marshal;
pub mod pipeline;

pub use logger::FtLogger;
pub use marshal::{account_from_fields, AccountRecord, Address};
pub use pipeline::{
    decode_message, reconstruct_signers, sign_transaction, status_code, ProcessError, SubmitOutcome,
    SIGNER_KEY_LEN,
};
