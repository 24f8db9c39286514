//! Failure taxonomy of the payment handler.

use vstd::prelude::*;

verus! {

/// Why one invocation of the payment handler failed.
///
/// Every failure aborts the whole invocation immediately: the handler
/// performs no partial work, retries nothing, and surfaces each failure
/// verbatim to the host.
#[derive(Clone, Copy, Debug, PartialEq, Eq)]
pub enum PaymentError {
    /// The payload is not an exact fixed-layout payment record.
    DecodeFailure,
    /// Fewer than the three required accounts were supplied.
    MissingAccount,
    /// The sender account does not carry the host's signer flag.
    Unauthorized,
    /// The native transfer service rejected the move; carries the host's
    /// error code unchanged.
    TransferFailure(u64),
}

} // verus!
