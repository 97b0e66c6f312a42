//! The diagnostics sink installed for the ledger's log records.

use vstd::prelude::*;

verus! {

#[verifier::external_type_specification]
#[verifier::external_body]
pub struct ExMetadata<'a>(log::Metadata<'a>);

/// A log sink that keeps the ledger's records quiet: no record is enabled,
/// so nothing is written.
pub struct FtLogger;

impl FtLogger {
    /// Whether records described by `metadata` are to be written: never.
    pub fn enabled(&self, metadata: &log::Metadata) -> (r: bool)
        ensures
            !r,
    {
        false
    }

    /// Flushes buffered records; the sink buffers none.
    pub fn flush(&self) {
    }
}

} // verus!
