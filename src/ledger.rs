//! A model of the token collaborator: per-account balances and the share
//! mint's supply, with transfer, mint and burn, and an all-or-nothing unit of
//! work that applies a sequence of them.

use vstd::prelude::*;

use crate::error::PoolError;

verus! {

/// Who authorizes a token operation.
#[derive(Clone, Copy, Debug, PartialEq, Eq, Structural)]
pub enum Signer {
    /// The party acting on its own accounts.
    User,
    /// The pool's derived authority (pool identity plus the stored nonce).
    Pool,
}

/// One call into the token collaborator. Accounts are indices into the ledger.
#[derive(Clone, Copy, Debug, PartialEq, Eq, Structural)]
pub enum TokenOp {
    /// Moves `amount` from `source` to `destination`.
    Transfer { source: usize, destination: usize, amount: u64, signer: Signer },
    /// Creates `amount` share tokens in `account`.
    MintTo { account: usize, amount: u64, signer: Signer },
    /// Destroys `amount` share tokens held by `account`.
    Burn { account: usize, amount: u64, signer: Signer },
}

/// Balances of the token accounts, by index, and the supply of the share mint.
#[derive(Debug)]
pub struct Ledger {
    pub balances: Vec<u64>,
    pub share_supply: u64,
}

/// The abstract state of a ledger.
pub struct LedgerState {
    pub balances: Seq<u64>,
    pub share_supply: u64,
}

impl View for Ledger {
    type V = LedgerState;

    open spec fn view(&self) -> LedgerState {
        LedgerState { balances: self.balances@, share_supply: self.share_supply }
    }
}

/// The outcome of one token operation on `l`.
pub open spec fn step(l: LedgerState, op: TokenOp) -> Result<LedgerState, PoolError> {
    let n = l.balances.len();
    match op {
        TokenOp::Transfer { source, destination, amount, .. } => {
            if source >= n || destination >= n {
                Err(PoolError::InvalidArgument)
            } else if l.balances[source as int] < amount {
                Err(PoolError::InsufficientFunds)
            } else if source == destination {
                Ok(l)
            } else if l.balances[destination as int] + amount > u64::MAX {
                Err(PoolError::TokenOverflow)
            } else {
                Ok(
                    LedgerState {
                        balances: l.balances.update(
                            source as int,
                            (l.balances[source as int] - amount) as u64,
                        ).update(destination as int, (l.balances[destination as int] + amount) as u64),
                        share_supply: l.share_supply,
                    },
                )
            }
        },
        TokenOp::MintTo { account, amount, .. } => {
            if account >= n {
                Err(PoolError::InvalidArgument)
            } else if l.share_supply + amount > u64::MAX || l.balances[account as int] + amount
                > u64::MAX {
                Err(PoolError::TokenOverflow)
            } else {
                Ok(
                    LedgerState {
                        balances: l.balances.update(
                            account as int,
                            (l.balances[account as int] + amount) as u64,
                        ),
                        share_supply: (l.share_supply + amount) as u64,
                    },
                )
            }
        },
        TokenOp::Burn { account, amount, .. } => {
            if account >= n {
                Err(PoolError::InvalidArgument)
            } else if l.balances[account as int] < amount {
                Err(PoolError::InsufficientFunds)
            } else if l.share_supply < amount {
                Err(PoolError::TokenOverflow)
            } else {
                Ok(
                    LedgerState {
                        balances: l.balances.update(
                            account as int,
                            (l.balances[account as int] - amount) as u64,
                        ),
                        share_supply: (l.share_supply - amount) as u64,
                    },
                )
            }
        },
    }
}

/// The outcome of the operations `ops`, in order, stopping at the first failure.
pub open spec fn run(l: LedgerState, ops: Seq<TokenOp>) -> Result<LedgerState, PoolError>
    decreases ops.len(),
{
    if ops.len() == 0 {
        Ok(l)
    } else {
        match step(l, ops[0]) {
            Ok(next) => run(next, ops.drop_first()),
            Err(e) => Err(e),
        }
    }
}

impl Ledger {
    /// Applies one token operation; on failure the ledger is left as it was.
    pub fn apply(&mut self, op: TokenOp) -> (r: Result<(), PoolError>)
        ensures
            match step(old(self)@, op) {
                Ok(next) => r is Ok && final(self)@ == next,
                Err(e) => r == Err::<(), PoolError>(e) && final(self)@ == old(self)@,
            },
    {
        let n = self.balances.len();
        match op {
            TokenOp::Transfer { source, destination, amount, .. } => {
                if source >= n || destination >= n {
                    return Err(PoolError::InvalidArgument);
                }
                if self.balances[source] < amount {
                    return Err(PoolError::InsufficientFunds);
                }
                if source == destination {
                    return Ok(());
                }
                if self.balances[destination] > u64::MAX - amount {
                    return Err(PoolError::TokenOverflow);
                }
                let from = self.balances[source] - amount;
                let to = self.balances[destination] + amount;
                self.balances.set(source, from);
                self.balances.set(destination, to);
                Ok(())
            },
            TokenOp::MintTo { account, amount, .. } => {
                if account >= n {
                    return Err(PoolError::InvalidArgument);
                }
                if self.share_supply > u64::MAX - amount || self.balances[account] > u64::MAX
                    - amount {
                    return Err(PoolError::TokenOverflow);
                }
                let to = self.balances[account] + amount;
                self.balances.set(account, to);
                self.share_supply = self.share_supply + amount;
                Ok(())
            },
            TokenOp::Burn { account, amount, .. } => {
                if account >= n {
                    return Err(PoolError::InvalidArgument);
                }
                if self.balances[account] < amount {
                    return Err(PoolError::InsufficientFunds);
                }
                if self.share_supply < amount {
                    return Err(PoolError::TokenOverflow);
                }
                let from = self.balances[account] - amount;
                self.balances.set(account, from);
                self.share_supply = self.share_supply - amount;
                Ok(())
            },
        }
    }

    /// A copy of the ledger with the same state.
    pub fn snapshot(&self) -> (r: Ledger)
        ensures
            r@ == self@,
    {
        let mut balances: Vec<u64> = Vec::with_capacity(self.balances.len());
        let mut i: usize = 0;
        while i < self.balances.len()
            invariant
                i <= self.balances@.len(),
                balances@ == self.balances@.subrange(0, i as int),
            decreases self.balances@.len() - i,
        {
            balances.push(self.balances[i]);
            i += 1;
            assert(balances@ =~= self.balances@.subrange(0, i as int));
        }
        assert(self.balances@.subrange(0, i as int) =~= self.balances@);
        Ledger { balances, share_supply: self.share_supply }
    }

    /// Applies `ops` in order as one unit of work: either every operation
    /// takes effect, or the first failure is returned and the ledger is left
    /// exactly as it was.
    pub fn apply_all(&mut self, ops: &Vec<TokenOp>) -> (r: Result<(), PoolError>)
        ensures
            match run(old(self)@, ops@) {
                Ok(next) => r is Ok && final(self)@ == next,
                Err(e) => r == Err::<(), PoolError>(e) && final(self)@ == old(self)@,
            },
    {
        let mut work = self.snapshot();
        let mut i: usize = 0;
        assert(ops@.skip(0) =~= ops@);
        while i < ops.len()
            invariant
                i <= ops@.len(),
                run(self@, ops@) == run(work@, ops@.skip(i as int)),
            decreases ops@.len() - i,
        {
            let ghost rest = ops@.skip(i as int);
            assert(rest[0] == ops@[i as int]);
            assert(rest.drop_first() =~= ops@.skip(i + 1));
            let res = work.apply(ops[i]);
            if let Err(e) = res {
                return Err(e);
            }
            i += 1;
        }
        assert(ops@.skip(i as int).len() == 0);
        *self = work;
        Ok(())
    }
}

} // verus!
