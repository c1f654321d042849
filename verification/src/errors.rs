use vstd::prelude::*;

verus! {

/// Why a transition was rejected.
///
/// A failed transition leaves all state unchanged; the caller decides from
/// the category whether to retry (a precondition such as the time lock may
/// hold later), give up (authorization), or reconcile (a duplicate open).
#[derive(Clone, Copy, Debug, PartialEq, Eq, Structural)]
pub enum EscrowError {
    /// Settlement was attempted before the record's maturity timestamp.
    TimeLockNotExpired,
    /// A caller other than the stored maker tried a maker-only action.
    InvalidMaker,
    /// The scheduler envelope for the automatic refund could not be built.
    CompileTransactionFailed,
    /// An open names a `(maker, nonce)` address that is already in use.
    RecordAlreadyExists,
    /// The addressed escrow record does not exist (or was already closed).
    RecordNotFound,
    /// An open asked for a zero requested amount.
    InvalidAmount,
    /// The paying side cannot cover the amount to be moved.
    InsufficientBalance,
    /// A credit would push a token balance past its representable range.
    BalanceOverflow,
    /// The caller-supplied asset identifier does not match the record.
    MintMismatch,
}

impl EscrowError {
    /// A short stable label for logs and messages.
    pub fn label(&self) -> (r: &'static str)
        ensures
            self is TimeLockNotExpired ==> r@ == "time lock not expired"@,
            self is InvalidMaker ==> r@ == "invalid maker"@,
            self is CompileTransactionFailed ==> r@ == "compile transaction failed"@,
            self is RecordAlreadyExists ==> r@ == "record already exists"@,
            self is RecordNotFound ==> r@ == "record not found"@,
            self is InvalidAmount ==> r@ == "invalid amount"@,
            self is InsufficientBalance ==> r@ == "insufficient balance"@,
            self is BalanceOverflow ==> r@ == "balance overflow"@,
            self is MintMismatch ==> r@ == "mint mismatch"@,
    {
        match self {
            EscrowError::TimeLockNotExpired => "time lock not expired",
            EscrowError::InvalidMaker => "invalid maker",
            EscrowError::CompileTransactionFailed => "compile transaction failed",
            EscrowError::RecordAlreadyExists => "record already exists",
            EscrowError::RecordNotFound => "record not found",
            EscrowError::InvalidAmount => "invalid amount",
            EscrowError::InsufficientBalance => "insufficient balance",
            EscrowError::BalanceOverflow => "balance overflow",
            EscrowError::MintMismatch => "mint mismatch",
        }
    }
}

} // verus!
