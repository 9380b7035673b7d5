//! The validation and forwarding error kinds.

use vstd::prelude::*;

verus! {

/// Every way an operation can be refused or can fail.  Each validation
/// failure aborts the whole operation before any state change, and no
/// error is ever downgraded to a generic failure.
#[derive(Clone, Copy, PartialEq, Eq, Structural, Debug)]
pub enum ErrorCode {
    /// The presented authority account does not equal the derived
    /// authority stored in the vault's configuration record.
    InvalidAuthority,
    /// The presented collateral holding account is not a valid vault
    /// holding account: it is not the configured account, is not owned by
    /// the derived authority, or carries the wrong collateral denomination.
    InvalidCollateralAccountAuthority,
    /// The caller is not the configured administrator.
    Unauthorized,
    /// The configuration record, or its upstream references, are already
    /// set; they are write-once and are never overwritten.
    AlreadyInitialized,
    /// The forwarded upstream call reported failure; the verdict is
    /// propagated verbatim.
    UpstreamCallFailed,
    /// The local value transfer could not be applied.
    TransferFailed,
}

} // verus!
