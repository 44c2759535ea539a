use vstd::prelude::*;

verus! {

/// The error taxonomy of the module. Every failing operation reports exactly
/// one of these and leaves all module state unchanged; the host ledger's
/// transaction boundary makes the rollback atomic.
#[derive(Clone, Copy, Debug, PartialEq, Eq, Structural)]
pub enum ErrorCode {
    /// An amount was zero or below the operation's minimum.
    InvalidAmount,
    /// Fee or balance arithmetic would overflow or underflow.
    AmountOverflow,
    /// A requested fee rate exceeds the ceiling of 1000 basis points.
    InvalidFee,
    /// A swap was submitted at a time strictly after its deadline.
    SwapExpired,
    /// The module is paused and the operation is gated by the pause flag.
    ProgramPaused,
    /// The custody account does not hold enough of the asset.
    InsufficientBalance,
    /// The caller is not the registered admin.
    Unauthorized,
    /// The external exchange rejected the delegated call.
    DelegatedCallRejected,
}

} // verus!
