use vstd::prelude::*;

use crate::errors::EscrowError;
use crate::pairmap::PairMap;
use crate::state::{Escrow, Vault, MATURITY_OFFSET_SECONDS};

verus! {

/// Mathematical model of all durable state the protocol touches: the open
/// escrow records and their vaults, both addressed by `(maker, seed)`, and
/// every party's balance of every asset type, addressed by `(owner, mint)`.
/// The balance map is total: an account that was never credited holds zero.
pub struct StateView {
    pub records: Map<(u64, u64), Escrow>,
    pub vaults: Map<(u64, u64), Vault>,
    pub balances: Map<(u64, u64), u64>,
}

/// Credit `amount` to one balance, or report the overflow.
pub open spec fn spec_credit(
    b: Map<(u64, u64), u64>,
    owner: u64,
    mint: u64,
    amount: u64,
) -> Result<Map<(u64, u64), u64>, EscrowError> {
    if b[(owner, mint)] + amount > u64::MAX {
        Err(EscrowError::BalanceOverflow)
    } else {
        Ok(b.insert((owner, mint), (b[(owner, mint)] + amount) as u64))
    }
}

/// Debit `amount` from one balance, or report that it cannot be covered.
pub open spec fn spec_debit(
    b: Map<(u64, u64), u64>,
    owner: u64,
    mint: u64,
    amount: u64,
) -> Result<Map<(u64, u64), u64>, EscrowError> {
    if b[(owner, mint)] < amount {
        Err(EscrowError::InsufficientBalance)
    } else {
        Ok(b.insert((owner, mint), (b[(owner, mint)] - amount) as u64))
    }
}

/// Move `amount` of `mint` from one party to another: a debit followed by
/// a credit.  Self-transfers net to an unchanged balance and cannot
/// overflow.
pub open spec fn spec_transfer(
    b: Map<(u64, u64), u64>,
    from: u64,
    to: u64,
    mint: u64,
    amount: u64,
) -> Result<Map<(u64, u64), u64>, EscrowError> {
    match spec_debit(b, from, mint, amount) {
        Err(e) => Err(e),
        Ok(b1) => spec_credit(b1, to, mint, amount),
    }
}

/// Open: allocate the record and vault at `(maker, seed)` and move the
/// maker's deposit of the offered asset into the vault.  Rejected when the
/// address is already in use, when nothing is asked in return, or when the
/// maker cannot cover the deposit; a rejected call changes nothing.
pub open spec fn spec_make(
    s: StateView,
    maker: u64,
    seed: u64,
    mint_a: u64,
    mint_b: u64,
    deposit: u64,
    receive: u64,
    bump: u8,
    now: i64,
) -> (StateView, Result<(), EscrowError>) {
    let key = (maker, seed);
    if s.records.dom().contains(key) || s.vaults.dom().contains(key) {
        (s, Err(EscrowError::RecordAlreadyExists))
    } else if receive == 0 {
        (s, Err(EscrowError::InvalidAmount))
    } else if s.balances[(maker, mint_a)] < deposit {
        (s, Err(EscrowError::InsufficientBalance))
    } else {
        let record = Escrow { seed, maker, mint_a, mint_b, receive, bump, made_at: now };
        (
            StateView {
                records: s.records.insert(key, record),
                vaults: s.vaults.insert(key, Vault { mint: mint_a, balance: deposit }),
                balances: s.balances.insert(
                    (maker, mint_a),
                    (s.balances[(maker, mint_a)] - deposit) as u64,
                ),
            },
            Ok(()),
        )
    }
}

/// Settle: after the time lock has elapsed, the counterparty pays the
/// requested amount to the maker, the vault drains to the counterparty,
/// and record and vault are both closed -- all of it or none of it.
///
/// The maturity gate blocks settlement only.  The refund paths carry no
/// gate of their own: the manual refund is the maker reclaiming an offer
/// nobody took, and the automatic one fires at whatever trigger time was
/// registered with the scheduler.
pub open spec fn spec_take(
    s: StateView,
    taker: u64,
    maker: u64,
    seed: u64,
    now: i64,
) -> (StateView, Result<(), EscrowError>) {
    let key = (maker, seed);
    if !s.records.dom().contains(key) {
        (s, Err(EscrowError::RecordNotFound))
    } else {
        let e = s.records[key];
        if now < e.maturity() {
            (s, Err(EscrowError::TimeLockNotExpired))
        } else if !s.vaults.dom().contains(key) {
            (s, Err(EscrowError::RecordNotFound))
        } else {
            let v = s.vaults[key];
            match spec_transfer(s.balances, taker, maker, e.mint_b, e.receive) {
                Err(err) => (s, Err(err)),
                Ok(b1) => match spec_credit(b1, taker, v.mint, v.balance) {
                    Err(err) => (s, Err(err)),
                    Ok(b2) => (
                        StateView {
                            records: s.records.remove(key),
                            vaults: s.vaults.remove(key),
                            balances: b2,
                        },
                        Ok(()),
                    ),
                },
            }
        }
    }
}

/// Manual refund: only the maker may reclaim the deposit; the vault's full
/// balance returns to the maker and both accounts close.  No time gate.
pub open spec fn spec_refund(s: StateView, caller: u64, maker: u64, seed: u64) -> (
    StateView,
    Result<(), EscrowError>,
) {
    let key = (maker, seed);
    if !s.records.dom().contains(key) {
        (s, Err(EscrowError::RecordNotFound))
    } else if caller != s.records[key].maker {
        (s, Err(EscrowError::InvalidMaker))
    } else if !s.vaults.dom().contains(key) {
        (s, Err(EscrowError::RecordNotFound))
    } else {
        let v = s.vaults[key];
        match spec_credit(s.balances, s.records[key].maker, v.mint, v.balance) {
            Err(err) => (s, Err(err)),
            Ok(b1) => (
                StateView {
                    records: s.records.remove(key),
                    vaults: s.vaults.remove(key),
                    balances: b1,
                },
                Ok(()),
            ),
        }
    }
}

/// Automatic refund, fired by the external scheduler with no live caller.
/// It must tolerate replay and arbitrary ordering against the other
/// transitions, so every already-done observation is a success:
/// - record gone: nothing to do, succeed;
/// - record present but its stored identifiers differ from the supplied
///   ones: reject the spoofed addressing;
/// - vault already drained and closed: close the record and succeed;
/// - otherwise: vault's full balance to the maker, close vault and record.
pub open spec fn spec_auto_refund(s: StateView, maker: u64, seed: u64, mint_a: u64) -> (
    StateView,
    Result<(), EscrowError>,
) {
    let key = (maker, seed);
    if !s.records.dom().contains(key) {
        (s, Ok(()))
    } else {
        let e = s.records[key];
        if e.maker != maker {
            (s, Err(EscrowError::InvalidMaker))
        } else if e.mint_a != mint_a {
            (s, Err(EscrowError::MintMismatch))
        } else if !s.vaults.dom().contains(key) {
            (
                StateView { records: s.records.remove(key), vaults: s.vaults, balances: s.balances },
                Ok(()),
            )
        } else {
            let v = s.vaults[key];
            match spec_credit(s.balances, maker, v.mint, v.balance) {
                Err(err) => (s, Err(err)),
                Ok(b1) => (
                    StateView {
                        records: s.records.remove(key),
                        vaults: s.vaults.remove(key),
                        balances: b1,
                    },
                    Ok(()),
                ),
            }
        }
    }
}

/// The totalized reading of a stored balance table: absent keys hold zero.
pub open spec fn total_balances(m: Map<(u64, u64), u64>) -> Map<(u64, u64), u64> {
    Map::new(
        |k: (u64, u64)| true,
        |k: (u64, u64)|
            if m.dom().contains(k) {
                m[k]
            } else {
                0u64
            },
    )
}

/// Executable holder of the protocol's durable state.  Each transition
/// handler is proved equal to its mathematical counterpart above, and a
/// failed call leaves the state exactly as it was.
pub struct EscrowLedger {
    records: PairMap<Escrow>,
    vaults: PairMap<Vault>,
    balances: PairMap<u64>,
}

impl View for EscrowLedger {
    type V = StateView;

    closed spec fn view(&self) -> StateView {
        StateView {
            records: self.records@,
            vaults: self.vaults@,
            balances: total_balances(self.balances@),
        }
    }
}

impl EscrowLedger {
    /// A fresh world: no records, no vaults, all balances zero.
    pub fn new() -> (r: Self)
        ensures
            r@.records == Map::<(u64, u64), Escrow>::empty(),
            r@.vaults == Map::<(u64, u64), Vault>::empty(),
            forall|k: (u64, u64)| #[trigger] r@.balances[k] == 0,
    {
        EscrowLedger { records: PairMap::new(), vaults: PairMap::new(), balances: PairMap::new() }
    }

    /// Current balance of one party in one asset type.
    pub fn balance_of(&self, owner: u64, mint: u64) -> (r: u64)
        ensures
            r == self@.balances[(owner, mint)],
    {
        match self.balances.get(owner, mint) {
            Some(v) => *v,
            None => 0,
        }
    }

    /// The open record at `(maker, seed)`, if any.
    pub fn record(&self, maker: u64, seed: u64) -> (r: Option<Escrow>)
        ensures
            match r {
                Some(e) => self@.records.dom().contains((maker, seed)) && e == self@.records[
                    (maker, seed)
                ],
                None => !self@.records.dom().contains((maker, seed)),
            },
    {
        match self.records.get(maker, seed) {
            Some(e) => Some(*e),
            None => None,
        }
    }

    /// The vault at `(maker, seed)`, if any.
    pub fn vault(&self, maker: u64, seed: u64) -> (r: Option<Vault>)
        ensures
            match r {
                Some(v) => self@.vaults.dom().contains((maker, seed)) && v == self@.vaults[
                    (maker, seed)
                ],
                None => !self@.vaults.dom().contains((maker, seed)),
            },
    {
        match self.vaults.get(maker, seed) {
            Some(v) => Some(*v),
            None => None,
        }
    }

    /// Mint `amount` of `mint` to `owner`: the test harness's and host's
    /// way of funding parties before they interact with the escrow.
    pub fn mint_to(&mut self, owner: u64, mint: u64, amount: u64) -> (r: Result<(), EscrowError>)
        ensures
            ({
                let c = spec_credit(old(self)@.balances, owner, mint, amount);
                match r {
                    Ok(()) => c is Ok && final(self)@ == (StateView {
                        balances: c.unwrap(),
                        ..old(self)@
                    }),
                    Err(e) => c == Result::<Map<(u64, u64), u64>, EscrowError>::Err(e)
                        && final(self)@ == old(self)@,
                }
            }),
    {
        let b = self.balance_of(owner, mint);
        if amount > u64::MAX - b {
            return Err(EscrowError::BalanceOverflow);
        }
        self.set_balance(owner, mint, b + amount);
        Ok(())
    }

    /// Write one balance entry; every other part of the state is kept.
    fn set_balance(&mut self, owner: u64, mint: u64, amount: u64)
        ensures
            final(self)@.balances == old(self)@.balances.insert((owner, mint), amount),
            final(self)@.records == old(self)@.records,
            final(self)@.vaults == old(self)@.vaults,
    {
        self.balances.insert(owner, mint, amount);
        proof {
            assert(self@.balances =~= old(self)@.balances.insert((owner, mint), amount));
        }
    }

    /// Open an escrow.  On success the record carries exactly the given
    /// parameters with the clock reading as its maturity anchor, and the
    /// vault holds exactly the deposit, paid out of the maker's balance.
    pub fn make(
        &mut self,
        maker: u64,
        seed: u64,
        mint_a: u64,
        mint_b: u64,
        deposit: u64,
        receive: u64,
        bump: u8,
        now: i64,
    ) -> (r: Result<(), EscrowError>)
        ensures
            ({
                let (s2, r2) = spec_make(
                    old(self)@,
                    maker,
                    seed,
                    mint_a,
                    mint_b,
                    deposit,
                    receive,
                    bump,
                    now,
                );
                final(self)@ == s2 && r == r2
            }),
            r is Err ==> final(self)@ == old(self)@,
            r is Ok ==> final(self)@.records[(maker, seed)] == (Escrow {
                seed,
                maker,
                mint_a,
                mint_b,
                receive,
                bump,
                made_at: now,
            }),
            r is Ok ==> final(self)@.vaults[(maker, seed)] == (Vault {
                mint: mint_a,
                balance: deposit,
            }),
            r is Ok ==> final(self)@.balances[(maker, mint_a)] == old(self)@.balances[
                (maker, mint_a)
            ] - deposit,
    {
        if self.records.contains(maker, seed) || self.vaults.contains(maker, seed) {
            return Err(EscrowError::RecordAlreadyExists);
        }
        if receive == 0 {
            return Err(EscrowError::InvalidAmount);
        }
        let b = self.balance_of(maker, mint_a);
        if b < deposit {
            return Err(EscrowError::InsufficientBalance);
        }
        self.records.insert(maker, seed, Escrow { seed, maker, mint_a, mint_b, receive, bump, made_at: now });
        self.vaults.insert(maker, seed, Vault { mint: mint_a, balance: deposit });
        self.set_balance(maker, mint_a, b - deposit);
        Ok(())
    }

    /// Settle an escrow as the counterparty.
    pub fn take(&mut self, taker: u64, maker: u64, seed: u64, now: i64) -> (r: Result<
        (),
        EscrowError,
    >)
        ensures
            ({
                let (s2, r2) = spec_take(old(self)@, taker, maker, seed, now);
                final(self)@ == s2 && r == r2
            }),
            r is Err ==> final(self)@ == old(self)@,
            r is Ok ==> !final(self)@.records.dom().contains((maker, seed)),
            r is Ok ==> !final(self)@.vaults.dom().contains((maker, seed)),
    {
        let rec = match self.record(maker, seed) {
            None => return Err(EscrowError::RecordNotFound),
            Some(e) => e,
        };
        if (now as i128) < (rec.made_at as i128) + (MATURITY_OFFSET_SECONDS as i128) {
            return Err(EscrowError::TimeLockNotExpired);
        }
        let vault = match self.vault(maker, seed) {
            None => return Err(EscrowError::RecordNotFound),
            Some(v) => v,
        };
        let t_mb = self.balance_of(taker, rec.mint_b);
        if t_mb < rec.receive {
            return Err(EscrowError::InsufficientBalance);
        }
        let t_mb_after: u64 = t_mb - rec.receive;
        let m_mb: u64 = if maker == taker {
            t_mb_after
        } else {
            self.balance_of(maker, rec.mint_b)
        };
        if (m_mb as u128) + (rec.receive as u128) > (u64::MAX as u128) {
            return Err(EscrowError::BalanceOverflow);
        }
        let m_mb_after: u64 = m_mb + rec.receive;
        let t_vm: u64 = if vault.mint == rec.mint_b {
            if taker == maker {
                m_mb_after
            } else {
                t_mb_after
            }
        } else {
            self.balance_of(taker, vault.mint)
        };
        if (t_vm as u128) + (vault.balance as u128) > (u64::MAX as u128) {
            return Err(EscrowError::BalanceOverflow);
        }
        self.set_balance(taker, rec.mint_b, t_mb_after);
        self.set_balance(maker, rec.mint_b, m_mb_after);
        self.set_balance(taker, vault.mint, t_vm + vault.balance);
        self.records.remove(maker, seed);
        self.vaults.remove(maker, seed);
        Ok(())
    }

    /// Reclaim the deposit as the maker.
    pub fn refund(&mut self, caller: u64, maker: u64, seed: u64) -> (r: Result<(), EscrowError>)
        ensures
            ({
                let (s2, r2) = spec_refund(old(self)@, caller, maker, seed);
                final(self)@ == s2 && r == r2
            }),
            r is Err ==> final(self)@ == old(self)@,
            r is Ok ==> !final(self)@.records.dom().contains((maker, seed)),
            r is Ok ==> !final(self)@.vaults.dom().contains((maker, seed)),
    {
        let rec = match self.record(maker, seed) {
            None => return Err(EscrowError::RecordNotFound),
            Some(e) => e,
        };
        if caller != rec.maker {
            return Err(EscrowError::InvalidMaker);
        }
        let vault = match self.vault(maker, seed) {
            None => return Err(EscrowError::RecordNotFound),
            Some(v) => v,
        };
        let m_vm = self.balance_of(rec.maker, vault.mint);
        if (m_vm as u128) + (vault.balance as u128) > (u64::MAX as u128) {
            return Err(EscrowError::BalanceOverflow);
        }
        self.set_balance(rec.maker, vault.mint, m_vm + vault.balance);
        self.records.remove(maker, seed);
        self.vaults.remove(maker, seed);
        Ok(())
    }

    /// Replay-safe automatic refund, as the external scheduler fires it.
    pub fn auto_refund(&mut self, maker: u64, seed: u64, mint_a: u64) -> (r: Result<
        (),
        EscrowError,
    >)
        ensures
            ({
                let (s2, r2) = spec_auto_refund(old(self)@, maker, seed, mint_a);
                final(self)@ == s2 && r == r2
            }),
            r is Err ==> final(self)@ == old(self)@,
            r is Ok ==> !final(self)@.records.dom().contains((maker, seed)),
    {
        let rec = match self.record(maker, seed) {
            None => return Ok(()),
            Some(e) => e,
        };
        if rec.maker != maker {
            return Err(EscrowError::InvalidMaker);
        }
        if rec.mint_a != mint_a {
            return Err(EscrowError::MintMismatch);
        }
        let vault = match self.vault(maker, seed) {
            None => {
                self.records.remove(maker, seed);
                return Ok(());
            },
            Some(v) => v,
        };
        let m_vm = self.balance_of(maker, vault.mint);
        if (m_vm as u128) + (vault.balance as u128) > (u64::MAX as u128) {
            return Err(EscrowError::BalanceOverflow);
        }
        self.set_balance(maker, vault.mint, m_vm + vault.balance);
        self.records.remove(maker, seed);
        self.vaults.remove(maker, seed);
        Ok(())
    }
}

} // verus!
