use vstd::prelude::*;

verus! {

/// Every way an instruction of this module can fail.
///
/// Identity mismatches (`InvalidTreasury`, `InvalidMint`, `Unauthorized`) and
/// structural violations (`AddressDerivationMismatch`, `AlreadyExists`,
/// `RecordNotFound`) are caller errors; `PurchaseThresholdExceeded` is the
/// expected steady-state outcome while balance accrues; `BalanceBelowReserve`
/// reports a ledger whose balance fell under the storage reserve (an integrity
/// violation); `InsufficientTokenBalance` reports a token destruction that the
/// holding token account cannot cover.
#[derive(Clone, Copy, Debug, PartialEq, Eq, Structural)]
pub enum ErrorCode {
    InvalidTreasury,
    InvalidMint,
    PurchaseThresholdExceeded,
    Unauthorized,
    AddressDerivationMismatch,
    AlreadyExists,
    RecordNotFound,
    BalanceBelowReserve,
    InsufficientTokenBalance,
}

} // verus!
