use vstd::prelude::*;

verus! {

/// Fixed delay, in seconds, between opening an escrow and the moment the
/// time-gated transitions become eligible: five days.
pub const MATURITY_OFFSET_SECONDS: i64 = 5 * 24 * 60 * 60;

/// Durable record of one pending swap.
///
/// Parties and asset types are plain numeric identities; the host account
/// addresses they stand for are recomputed on demand by the bridge module.
/// The record's address is determined by `(maker, seed)`, so one maker can
/// keep several escrows open under distinct seeds.
#[derive(Clone, Copy, Debug, PartialEq, Eq, Structural)]
pub struct Escrow {
    /// Caller-chosen nonce that makes the record's address deterministic.
    pub seed: u64,
    /// The party that opened the escrow and funded its vault.
    pub maker: u64,
    /// Asset type the maker deposited (held by the vault).
    pub mint_a: u64,
    /// Asset type the maker asks for in return.
    pub mint_b: u64,
    /// Amount of `mint_b` a counterparty must pay to settle.
    pub receive: u64,
    /// Proof byte completing the keyless authority derivation.
    pub bump: u8,
    /// Clock reading when the escrow was opened; the maturity anchor.
    pub made_at: i64,
}

impl Escrow {
    /// The moment from which the time-gated transitions are eligible.
    pub open spec fn maturity(self) -> int {
        self.made_at + MATURITY_OFFSET_SECONDS
    }

    /// Internal validity of a record: a swap that asks for nothing could
    /// never be settled meaningfully, so open rejects it.
    pub open spec fn valid(self) -> bool {
        self.receive > 0
    }
}

/// A single-asset custodial balance, one per escrow record, owned by the
/// record's derived authority rather than by any user key.  Created empty,
/// funded at open, and drained to exactly zero before it is closed.
#[derive(Clone, Copy, Debug, PartialEq, Eq, Structural)]
pub struct Vault {
    /// Asset type this vault holds (the record's offered asset).
    pub mint: u64,
    /// Units currently in custody.
    pub balance: u64,
}

} // verus!
