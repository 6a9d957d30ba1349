use vstd::prelude::*;

verus! {

/// Why a creation is refused; any of them aborts the whole transaction.
#[derive(Clone, Copy, Debug, PartialEq, Eq, Structural)]
pub enum CreateError {
    /// A supplied derived address does not match its derivation.
    AddressMismatch,
    /// An allocation lacks funding or finds its address taken.
    AllocationFailure,
    /// The transfer-hook account list's buffer disagrees with its encoded size.
    SizeMismatch,
    /// A call into the token sub-protocol rejected the request.
    SubProtocolFailure,
    /// A required signer did not sign.
    AuthorizationFailure,
}

} // verus!
