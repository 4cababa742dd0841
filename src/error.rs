use vstd::prelude::*;

verus! {

/// Why a request is refused. Any error aborts the whole request.
#[derive(Clone, Copy, Debug, PartialEq, Eq, Structural)]
pub enum CustomError {
    /// The number of pools is outside the accepted range.
    InvalidTokenLength,
    /// The supplied fee wallet is not the configured one, or the configured
    /// address is not a valid key.
    FeeWalletMismatch,
    /// The total payment does not fit in a 64-bit amount.
    AmountOverflow,
    /// The flat list of pool accounts has no entry at `offset`.
    MissingRemainingAccount { offset: usize },
}

} // verus!
