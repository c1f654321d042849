use vstd::prelude::*;

use crate::errors::EscrowError;
use crate::protocol::{spec_auto_refund, spec_make, spec_refund, spec_take, StateView};

verus! {

/// Data-model invariants of the durable state: every record sits at the
/// address derived from its own maker and seed and asks for a positive
/// amount; a record exists exactly as long as its vault has not been
/// drained and closed (the two are created and consumed together); and
/// the vault holds the record's offered asset.
pub open spec fn state_inv(s: StateView) -> bool {
    &&& forall|k: (u64, u64)|
        s.records.dom().contains(k) ==> (#[trigger] s.records[k]).maker == k.0
            && s.records[k].seed == k.1 && s.records[k].valid()
    &&& forall|k: (u64, u64)|
        #[trigger] s.records.dom().contains(k) <==> #[trigger] s.vaults.dom().contains(k)
    &&& forall|k: (u64, u64)|
        s.records.dom().contains(k) && s.vaults.dom().contains(k) ==> (#[trigger] s.vaults[k]).mint
            == s.records[k].mint_a
}

/// Every successful open leaves a vault holding exactly the deposit and
/// a record asking exactly the requested amount, anchored at the clock
/// reading of the call.
pub proof fn lemma_make_funds_vault(
    s: StateView,
    maker: u64,
    seed: u64,
    mint_a: u64,
    mint_b: u64,
    deposit: u64,
    receive: u64,
    bump: u8,
    now: i64,
)
    ensures
        ({
            let (s2, r) = spec_make(s, maker, seed, mint_a, mint_b, deposit, receive, bump, now);
            r is Ok ==> {
                &&& s2.vaults[(maker, seed)].balance == deposit
                &&& s2.vaults[(maker, seed)].mint == mint_a
                &&& s2.records[(maker, seed)].receive == receive
                &&& s2.records[(maker, seed)].made_at == now
                &&& s2.balances[(maker, mint_a)] == s.balances[(maker, mint_a)] - deposit
            }
        }),
{
}

/// A settlement at or after maturity, by a counterparty distinct from the
/// maker who can cover the requested amount, succeeds; afterwards the
/// record and vault addresses are empty, the maker's requested-asset
/// balance has grown by exactly the requested amount, and the
/// counterparty's offered-asset balance by exactly the vaulted deposit.
/// (With the two parties or the two assets identical the payments alias
/// and the deltas cancel out, so the law is stated for distinct ones.)
pub proof fn lemma_take_settles_exactly(s: StateView, taker: u64, maker: u64, seed: u64, now: i64)
    requires
        s.records.dom().contains((maker, seed)),
        s.vaults.dom().contains((maker, seed)),
        now >= s.records[(maker, seed)].maturity(),
        taker != maker,
        s.vaults[(maker, seed)].mint != s.records[(maker, seed)].mint_b,
        s.balances[(taker, s.records[(maker, seed)].mint_b)] >= s.records[(maker, seed)].receive,
        s.balances[(maker, s.records[(maker, seed)].mint_b)] + s.records[(maker, seed)].receive
            <= u64::MAX,
        s.balances[(taker, s.vaults[(maker, seed)].mint)] + s.vaults[(maker, seed)].balance
            <= u64::MAX,
    ensures
        ({
            let (s2, r) = spec_take(s, taker, maker, seed, now);
            let e = s.records[(maker, seed)];
            let v = s.vaults[(maker, seed)];
            &&& r is Ok
            &&& !s2.records.dom().contains((maker, seed))
            &&& !s2.vaults.dom().contains((maker, seed))
            &&& s2.balances[(maker, e.mint_b)] == s.balances[(maker, e.mint_b)] + e.receive
            &&& s2.balances[(taker, v.mint)] == s.balances[(taker, v.mint)] + v.balance
            &&& s2.balances[(taker, e.mint_b)] == s.balances[(taker, e.mint_b)] - e.receive
        }),
{
}

/// A refund by the maker succeeds whenever record and vault stand at the
/// address: the vault's whole balance returns to the maker and both
/// accounts close.
pub proof fn lemma_refund_returns_deposit(s: StateView, maker: u64, seed: u64)
    requires
        s.records.dom().contains((maker, seed)),
        s.records[(maker, seed)].maker == maker,
        s.vaults.dom().contains((maker, seed)),
        s.balances[(maker, s.vaults[(maker, seed)].mint)] + s.vaults[(maker, seed)].balance
            <= u64::MAX,
    ensures
        ({
            let (s2, r) = spec_refund(s, maker, maker, seed);
            let v = s.vaults[(maker, seed)];
            &&& r is Ok
            &&& !s2.records.dom().contains((maker, seed))
            &&& !s2.vaults.dom().contains((maker, seed))
            &&& s2.balances[(maker, v.mint)] == s.balances[(maker, v.mint)] + v.balance
        }),
{
}

/// Escrows under distinct `(maker, seed)` addresses do not interfere:
/// opening one touches no other record, no other vault, and no balance
/// but the maker's in the offered asset.
pub proof fn lemma_make_touches_only_its_slot(
    s: StateView,
    maker: u64,
    seed: u64,
    mint_a: u64,
    mint_b: u64,
    deposit: u64,
    receive: u64,
    bump: u8,
    now: i64,
)
    ensures
        ({
            let s2 = spec_make(s, maker, seed, mint_a, mint_b, deposit, receive, bump, now).0;
            &&& forall|k: (u64, u64)|
                k != (maker, seed) ==> #[trigger] s2.records.dom().contains(k)
                    == s.records.dom().contains(k) && (s.records.dom().contains(k) ==> s2.records[k]
                    == s.records[k])
            &&& forall|k: (u64, u64)|
                k != (maker, seed) ==> #[trigger] s2.vaults.dom().contains(k)
                    == s.vaults.dom().contains(k) && (s.vaults.dom().contains(k) ==> s2.vaults[k]
                    == s.vaults[k])
            &&& forall|k: (u64, u64)| k != (maker, mint_a) ==> #[trigger] s2.balances[k]
                == s.balances[k]
        }),
{
}

/// The automatic refund is idempotent: once a call has succeeded, firing
/// it again observes the already-closed record and succeeds without
/// touching any state -- no error, no fund movement.  A rejected call
/// replays to the same rejection, the state still untouched.
pub proof fn lemma_auto_refund_idempotent(s: StateView, maker: u64, seed: u64, mint_a: u64)
    ensures
        ({
            let (s1, r1) = spec_auto_refund(s, maker, seed, mint_a);
            &&& (r1 is Ok ==> spec_auto_refund(s1, maker, seed, mint_a) == (
                s1,
                Result::<(), EscrowError>::Ok(()),
            ))
            &&& (r1 is Err ==> spec_auto_refund(s1, maker, seed, mint_a) == (s1, r1))
        }),
{
}

/// A settled escrow is inert for the scheduler: after a successful
/// settlement the automatic refund succeeds as a pure no-op and never
/// moves funds a second time.
pub proof fn lemma_auto_refund_after_take(
    s: StateView,
    taker: u64,
    maker: u64,
    seed: u64,
    now: i64,
    mint_a: u64,
)
    ensures
        ({
            let (s1, r1) = spec_take(s, taker, maker, seed, now);
            r1 is Ok ==> spec_auto_refund(s1, maker, seed, mint_a) == (
                s1,
                Result::<(), EscrowError>::Ok(()),
            )
        }),
{
}

/// A manually refunded escrow is likewise inert for the scheduler.
pub proof fn lemma_auto_refund_after_refund(
    s: StateView,
    caller: u64,
    maker: u64,
    seed: u64,
    mint_a: u64,
)
    ensures
        ({
            let (s1, r1) = spec_refund(s, caller, maker, seed);
            r1 is Ok ==> spec_auto_refund(s1, maker, seed, mint_a) == (
                s1,
                Result::<(), EscrowError>::Ok(()),
            )
        }),
{
}

/// A record is consumed exactly once: after a successful settlement or
/// refund, settling again and refunding again both fail on the absent
/// record and leave the state unchanged.
pub proof fn lemma_record_consumed_once(
    s: StateView,
    maker: u64,
    seed: u64,
    taker2: u64,
    now2: i64,
    caller2: u64,
)
    requires
        !s.records.dom().contains((maker, seed)),
    ensures
        spec_take(s, taker2, maker, seed, now2) == (
            s,
            Result::<(), EscrowError>::Err(EscrowError::RecordNotFound),
        ),
        spec_refund(s, caller2, maker, seed) == (
            s,
            Result::<(), EscrowError>::Err(EscrowError::RecordNotFound),
        ),
{
}

/// A refund attempted by anybody but the maker is rejected as an
/// authorization failure and alters neither the vault nor the record.
pub proof fn lemma_refund_requires_maker(s: StateView, caller: u64, maker: u64, seed: u64)
    requires
        s.records.dom().contains((maker, seed)),
        caller != s.records[(maker, seed)].maker,
    ensures
        spec_refund(s, caller, maker, seed) == (
            s,
            Result::<(), EscrowError>::Err(EscrowError::InvalidMaker),
        ),
{
}

/// Settlement is gated by the time lock: before the record's maturity it
/// is rejected and the state is untouched.
pub proof fn lemma_take_gated_by_maturity(
    s: StateView,
    taker: u64,
    maker: u64,
    seed: u64,
    now: i64,
)
    requires
        s.records.dom().contains((maker, seed)),
        now < s.records[(maker, seed)].maturity(),
    ensures
        spec_take(s, taker, maker, seed, now) == (
            s,
            Result::<(), EscrowError>::Err(EscrowError::TimeLockNotExpired),
        ),
{
}

/// Opening preserves the data-model invariants.
pub proof fn lemma_make_preserves_inv(
    s: StateView,
    maker: u64,
    seed: u64,
    mint_a: u64,
    mint_b: u64,
    deposit: u64,
    receive: u64,
    bump: u8,
    now: i64,
)
    requires
        state_inv(s),
    ensures
        state_inv(spec_make(s, maker, seed, mint_a, mint_b, deposit, receive, bump, now).0),
{
}

/// Settlement preserves the data-model invariants.
pub proof fn lemma_take_preserves_inv(s: StateView, taker: u64, maker: u64, seed: u64, now: i64)
    requires
        state_inv(s),
    ensures
        state_inv(spec_take(s, taker, maker, seed, now).0),
{
}

/// The manual refund preserves the data-model invariants.
pub proof fn lemma_refund_preserves_inv(s: StateView, caller: u64, maker: u64, seed: u64)
    requires
        state_inv(s),
    ensures
        state_inv(spec_refund(s, caller, maker, seed).0),
{
}

/// The automatic refund preserves the data-model invariants.
pub proof fn lemma_auto_refund_preserves_inv(s: StateView, maker: u64, seed: u64, mint_a: u64)
    requires
        state_inv(s),
    ensures
        state_inv(spec_auto_refund(s, maker, seed, mint_a).0),
{
}

} // verus!
