//! The pool state machine: initialization, the ratio-to-amount conversion,
//! share creation (deposit) and share redemption (withdraw).

use vstd::bytes::u64_from_le_bytes;
use vstd::prelude::*;
use vstd::slice::{slice_subrange, slice_to_vec};

use crate::codec::{decode_ratios, decode_words};
use crate::error::{ETFError, PoolError};
use crate::ledger::{run, step, Ledger, LedgerState, Signer, TokenOp};
use crate::mint::{mint_supply_outcome, unpack_mint_supply};

verus! {

/// The persistent state of an initialized pool.
#[derive(Debug)]
pub struct PoolState {
    /// The number of assets in the basket; asset indices run over `0 .. asset_count`.
    pub asset_count: usize,
    /// One little-endian 64-bit ratio per asset, in asset order.
    pub custom_state: Vec<u8>,
    /// The nonce from which the pool's vault authority is derived.
    pub vault_signer_nonce: u8,
}

impl PoolState {
    /// The ratio bytes hold exactly one word per asset.
    pub open spec fn wf(&self) -> bool {
        self.custom_state@.len() == 8 * self.asset_count
    }

    /// The basket ratio of each asset, in asset order.
    pub open spec fn ratios(&self) -> Seq<u64> {
        decode_words(self.custom_state@, self.asset_count as nat)
    }
}

/// How the initializer constrains the ratios it is given.
#[derive(Clone, Copy, Debug, PartialEq, Eq, Structural)]
pub enum RatioPolicy {
    /// Any non-negative ratios are accepted.
    AnyRatios,
    /// All ratios must be equal and non-zero (a single-weight basket).
    EqualNonZero,
}

/// The accounts of the party that creates or redeems shares.
#[derive(Debug)]
pub struct UserAccounts {
    /// One account per asset, in asset order.
    pub asset_accounts: Vec<usize>,
    /// The account that holds the party's share tokens.
    pub pool_token_account: usize,
}

/// The pool program. Its operations are associated functions.
pub struct EtfPool;

/// `ratios` satisfy `policy`.
pub open spec fn policy_admits(policy: RatioPolicy, ratios: Seq<u64>) -> bool {
    match policy {
        RatioPolicy::AnyRatios => true,
        RatioPolicy::EqualNonZero => forall|i: int|
            #![trigger ratios[i]]
            0 <= i < ratios.len() ==> ratios[i] != 0 && ratios[i] == ratios[0],
    }
}

/// What initialization does: the stored ratio bytes, or the error.
pub open spec fn init_outcome(
    data: Option<Seq<u8>>,
    asset_count: nat,
    mint_supply: u64,
    policy: RatioPolicy,
) -> Result<Seq<u8>, PoolError> {
    match data {
        None => Err(PoolError::Etf(ETFError::MissingInitializationData)),
        Some(d) => if d.len() != 8 * asset_count || !policy_admits(
            policy,
            decode_words(d, asset_count),
        ) {
            Err(PoolError::Etf(ETFError::InvalidInitializationCustomData))
        } else if mint_supply != 0 {
            Err(PoolError::InvalidAccountData)
        } else {
            Ok(d)
        },
    }
}

/// What initialization from the share mint's account data does: the payload
/// is checked first, then the mint is read and its supply must be zero.
pub open spec fn init_from_mint_outcome(
    data: Option<Seq<u8>>,
    asset_count: nat,
    mint_data: Seq<u8>,
    policy: RatioPolicy,
) -> Result<Seq<u8>, PoolError> {
    match init_outcome(data, asset_count, 0, policy) {
        Err(e) => Err(e),
        Ok(_) => match mint_supply_outcome(mint_data) {
            Err(e) => Err(e),
            Ok(supply) => init_outcome(data, asset_count, supply, policy),
        },
    }
}

/// The bytes of an optional payload.
pub open spec fn payload_view(data: Option<&[u8]>) -> Option<Seq<u8>> {
    match data {
        Some(d) => Some(d@),
        None => None,
    }
}

/// `r` is the pool state that `outcome` describes, or its error.
pub open spec fn state_matches(
    outcome: Result<Seq<u8>, PoolError>,
    r: Result<PoolState, PoolError>,
    asset_count: usize,
    vault_signer_nonce: u8,
) -> bool {
    match outcome {
        Ok(bytes) => r matches Ok(s) && s.custom_state@ == bytes && s.asset_count == asset_count
            && s.vault_signer_nonce == vault_signer_nonce && s.wf(),
        Err(e) => r matches Err(f) && f == e,
    }
}

/// Some ratio times `shares` leaves the 64-bit range.
pub open spec fn amounts_overflow(ratios: Seq<u64>, shares: u64) -> bool {
    exists|i: int| 0 <= i < ratios.len() && #[trigger] ratios[i] * shares > u64::MAX
}

/// The amount of each asset that backs `shares` shares.
pub open spec fn amounts_for_shares(ratios: Seq<u64>, shares: u64) -> Result<Seq<u64>, ETFError> {
    if amounts_overflow(ratios, shares) {
        Err(ETFError::AmountOverflow)
    } else {
        Ok(Seq::new(ratios.len(), |i: int| (ratios[i] * shares) as u64))
    }
}

/// One transfer per asset, `amounts[i]` from `from[i]` to `to[i]`.
pub open spec fn transfers(
    amounts: Seq<u64>,
    from: Seq<usize>,
    to: Seq<usize>,
    signer: Signer,
) -> Seq<TokenOp> {
    Seq::new(
        amounts.len(),
        |i: int|
            TokenOp::Transfer {
                source: from[i],
                destination: to[i],
                amount: amounts[i],
                signer: signer,
            },
    )
}

/// The account bundle matches the pool's assets.
pub open spec fn bundle_fits(asset_count: nat, user_assets: Seq<usize>, vaults: Seq<usize>) -> bool {
    user_assets.len() == asset_count && vaults.len() == asset_count
}

/// The token operations of a deposit: every asset into its vault, in asset
/// order, then the shares minted to the depositor.
pub open spec fn creation_ops(
    amounts: Seq<u64>,
    user_assets: Seq<usize>,
    share_account: usize,
    vaults: Seq<usize>,
    shares: u64,
) -> Seq<TokenOp> {
    transfers(amounts, user_assets, vaults, Signer::User).push(
        TokenOp::MintTo { account: share_account, amount: shares, signer: Signer::Pool },
    )
}

/// The burn that opens a withdrawal.
pub open spec fn redemption_burn(share_account: usize, shares: u64) -> TokenOp {
    TokenOp::Burn { account: share_account, amount: shares, signer: Signer::User }
}

/// What a deposit does to the ledger, or the error it fails with.
pub open spec fn creation_outcome(
    l: LedgerState,
    ratios: Seq<u64>,
    shares: u64,
    user_assets: Seq<usize>,
    share_account: usize,
    vaults: Seq<usize>,
) -> Result<LedgerState, PoolError> {
    if shares == 0 || !bundle_fits(ratios.len(), user_assets, vaults) {
        Err(PoolError::InvalidArgument)
    } else {
        match amounts_for_shares(ratios, shares) {
            Err(e) => Err(PoolError::Etf(e)),
            Ok(a) => run(l, creation_ops(a, user_assets, share_account, vaults, shares)),
        }
    }
}

/// What a withdrawal does to the ledger, or the error it fails with: the
/// shares are burnt before any amount is computed or moved.
pub open spec fn redemption_outcome(
    l: LedgerState,
    ratios: Seq<u64>,
    shares: u64,
    user_assets: Seq<usize>,
    share_account: usize,
    vaults: Seq<usize>,
) -> Result<LedgerState, PoolError> {
    if !bundle_fits(ratios.len(), user_assets, vaults) {
        Err(PoolError::InvalidArgument)
    } else {
        match step(l, redemption_burn(share_account, shares)) {
            Err(e) => Err(e),
            Ok(burnt) => match amounts_for_shares(ratios, shares) {
                Err(e) => Err(PoolError::Etf(e)),
                Ok(a) => run(burnt, transfers(a, vaults, user_assets, Signer::Pool)),
            },
        }
    }
}

/// The call returned `r` and left the ledger at `after`, as `outcome` says:
/// the new state on success, the state `before` on failure.
pub open spec fn settles(
    outcome: Result<LedgerState, PoolError>,
    r: Result<(), PoolError>,
    before: LedgerState,
    after: LedgerState,
) -> bool {
    match outcome {
        Ok(next) => r is Ok && after == next,
        Err(e) => r == Err::<(), PoolError>(e) && after == before,
    }
}

/// The result of a plan: the operations on success, the error otherwise.
pub open spec fn plan_matches(
    outcome: Result<Seq<TokenOp>, PoolError>,
    r: Result<Vec<TokenOp>, PoolError>,
) -> bool {
    match outcome {
        Ok(ops) => r matches Ok(v) && v@ == ops,
        Err(e) => r matches Err(f) && f == e,
    }
}

/// The operations of a deposit, or why it cannot go ahead.
pub open spec fn creation_plan_outcome(
    ratios: Seq<u64>,
    shares: u64,
    user_assets: Seq<usize>,
    share_account: usize,
    vaults: Seq<usize>,
) -> Result<Seq<TokenOp>, PoolError> {
    if shares == 0 || !bundle_fits(ratios.len(), user_assets, vaults) {
        Err(PoolError::InvalidArgument)
    } else {
        match amounts_for_shares(ratios, shares) {
            Err(e) => Err(PoolError::Etf(e)),
            Ok(a) => Ok(creation_ops(a, user_assets, share_account, vaults, shares)),
        }
    }
}

/// The transfers of a withdrawal that follow its burn, or why it cannot go ahead.
pub open spec fn redemption_plan_outcome(
    ratios: Seq<u64>,
    shares: u64,
    user_assets: Seq<usize>,
    vaults: Seq<usize>,
) -> Result<Seq<TokenOp>, PoolError> {
    if !bundle_fits(ratios.len(), user_assets, vaults) {
        Err(PoolError::InvalidArgument)
    } else {
        match amounts_for_shares(ratios, shares) {
            Err(e) => Err(PoolError::Etf(e)),
            Ok(a) => Ok(transfers(a, vaults, user_assets, Signer::Pool)),
        }
    }
}

/// One transfer per asset, `amounts[i]` from `from[i]` to `to[i]`, signed by `signer`.
fn build_transfers(amounts: &Vec<u64>, from: &Vec<usize>, to: &Vec<usize>, signer: Signer) -> (r:
    Vec<TokenOp>)
    requires
        from@.len() == amounts@.len(),
        to@.len() == amounts@.len(),
    ensures
        r@ == transfers(amounts@, from@, to@, signer),
{
    let mut ops: Vec<TokenOp> = Vec::with_capacity(amounts.len());
    let mut i: usize = 0;
    while i < amounts.len()
        invariant
            from@.len() == amounts@.len(),
            to@.len() == amounts@.len(),
            i <= amounts@.len(),
            ops@ == transfers(amounts@.subrange(0, i as int), from@, to@, signer),
        decreases amounts@.len() - i,
    {
        ops.push(
            TokenOp::Transfer {
                source: from[i],
                destination: to[i],
                amount: amounts[i],
                signer: signer,
            },
        );
        i += 1;
        assert(ops@ =~= transfers(amounts@.subrange(0, i as int), from@, to@, signer));
    }
    assert(amounts@.subrange(0, i as int) =~= amounts@);
    ops
}

/// Whether `ratios` satisfy `policy`.
fn check_policy(policy: RatioPolicy, ratios: &Vec<u64>) -> (r: bool)
    ensures
        r == policy_admits(policy, ratios@),
{
    match policy {
        RatioPolicy::AnyRatios => true,
        RatioPolicy::EqualNonZero => {
            let mut i: usize = 0;
            while i < ratios.len()
                invariant
                    policy == RatioPolicy::EqualNonZero,
                    i <= ratios@.len(),
                    forall|j: int|
                        #![trigger ratios@[j]]
                        0 <= j < i ==> ratios@[j] != 0 && ratios@[j] == ratios@[0],
                decreases ratios@.len() - i,
            {
                if ratios[i] == 0 || ratios[i] != ratios[0] {
                    assert(!(ratios@[i as int] != 0 && ratios@[i as int] == ratios@[0]));
                    return false;
                }
                i += 1;
            }
            true
        },
    }
}

impl EtfPool {
    /// Creates the state of a pool of `asset_count` assets from its
    /// initialization payload: `8 * asset_count` bytes, one little-endian ratio
    /// per asset, which `policy` must admit. The share mint must have no supply
    /// yet. The payload is stored as it is.
    pub fn initialize_pool(
        custom_data: Option<&[u8]>,
        asset_count: usize,
        vault_signer_nonce: u8,
        current_mint_supply: u64,
        policy: RatioPolicy,
    ) -> (r: Result<PoolState, PoolError>)
        ensures
            state_matches(
                init_outcome(
                    payload_view(custom_data),
                    asset_count as nat,
                    current_mint_supply,
                    policy,
                ),
                r,
                asset_count,
                vault_signer_nonce,
            ),
    {
        let data = match custom_data {
            Some(d) => d,
            None => return Err(PoolError::Etf(ETFError::MissingInitializationData)),
        };
        let ratios = match decode_ratios(data, asset_count) {
            Ok(v) => v,
            Err(e) => return Err(PoolError::Etf(e)),
        };
        if !check_policy(policy, &ratios) {
            return Err(PoolError::Etf(ETFError::InvalidInitializationCustomData));
        }
        if current_mint_supply != 0 {
            return Err(PoolError::InvalidAccountData);
        }
        Ok(PoolState { asset_count, custom_state: slice_to_vec(data), vault_signer_nonce })
    }

    /// Creates the state of a pool as `initialize_pool` does, reading the
    /// share mint's supply from its packed account data. The payload is
    /// checked before the mint is read.
    pub fn initialize_pool_from_mint(
        custom_data: Option<&[u8]>,
        asset_count: usize,
        vault_signer_nonce: u8,
        mint_data: &[u8],
        policy: RatioPolicy,
    ) -> (r: Result<PoolState, PoolError>)
        ensures
            state_matches(
                init_from_mint_outcome(
                    payload_view(custom_data),
                    asset_count as nat,
                    mint_data@,
                    policy,
                ),
                r,
                asset_count,
                vault_signer_nonce,
            ),
    {
        let checked = Self::initialize_pool(custom_data, asset_count, vault_signer_nonce, 0, policy);
        if let Err(e) = checked {
            return Err(e);
        }
        let supply = match unpack_mint_supply(mint_data) {
            Ok(s) => s,
            Err(e) => return Err(e),
        };
        if supply != 0 {
            return Err(PoolError::InvalidAccountData);
        }
        checked
    }

    /// The amount of each asset that backs `shares` shares: `ratio[i] * shares`
    /// for each asset `i` in order, or `AmountOverflow` where a product leaves
    /// the 64-bit range.
    pub fn get_token_amounts_for_given_shares(state: &PoolState, shares: u64) -> (r: Result<
        Vec<u64>,
        ETFError,
    >)
        requires
            state.wf(),
        ensures
            match amounts_for_shares(state.ratios(), shares) {
                Ok(a) => r matches Ok(v) && v@ == a,
                Err(e) => r matches Err(f) && f == e,
            },
    {
        let ghost ratios = state.ratios();
        let bytes = state.custom_state.as_slice();
        let total: usize = bytes.len();
        let mut out: Vec<u64> = Vec::with_capacity(state.asset_count);
        let mut i: usize = 0;
        while i < state.asset_count
            invariant
                state.wf(),
                bytes@ == state.custom_state@,
                total == bytes@.len(),
                ratios == state.ratios(),
                i <= state.asset_count,
                out@ == Seq::new(i as nat, |j: int| (ratios[j] * shares) as u64),
                forall|j: int| 0 <= j < i ==> #[trigger] ratios[j] * shares <= u64::MAX,
            decreases state.asset_count - i,
        {
            assert(8 * i + 8 <= 8 * state.asset_count) by (nonlinear_arith)
                requires
                    i < state.asset_count,
            ;
            let ratio = u64_from_le_bytes(slice_subrange(bytes, 8 * i, 8 * i + 8));
            assert(ratio == ratios[i as int]);
            match ratio.checked_mul(shares) {
                None => {
                    assert(amounts_overflow(ratios, shares));
                    return Err(ETFError::AmountOverflow);
                },
                Some(amount) => {
                    out.push(amount);
                },
            }
            i += 1;
            assert(out@ =~= Seq::new(i as nat, |j: int| (ratios[j] * shares) as u64));
        }
        assert(!amounts_overflow(ratios, shares));
        assert(out@ =~= Seq::new(ratios.len(), |j: int| (ratios[j] * shares) as u64));
        Ok(out)
    }

    /// The token operations of a deposit of `requested_shares` shares: each
    /// asset's amount from the depositor's account into the pool's vault, in
    /// asset order, then the shares minted to the depositor's share account.
    pub fn creation_plan(
        state: &PoolState,
        requested_shares: u64,
        user_accounts: &UserAccounts,
        vaults: &Vec<usize>,
    ) -> (r: Result<Vec<TokenOp>, PoolError>)
        requires
            state.wf(),
        ensures
            plan_matches(
                creation_plan_outcome(
                    state.ratios(),
                    requested_shares,
                    user_accounts.asset_accounts@,
                    user_accounts.pool_token_account,
                    vaults@,
                ),
                r,
            ),
    {
        if requested_shares == 0 || user_accounts.asset_accounts.len() != state.asset_count
            || vaults.len() != state.asset_count {
            return Err(PoolError::InvalidArgument);
        }
        let amounts = match Self::get_token_amounts_for_given_shares(state, requested_shares) {
            Ok(a) => a,
            Err(e) => return Err(PoolError::Etf(e)),
        };
        let mut ops = build_transfers(&amounts, &user_accounts.asset_accounts, vaults, Signer::User);
        ops.push(
            TokenOp::MintTo {
                account: user_accounts.pool_token_account,
                amount: requested_shares,
                signer: Signer::Pool,
            },
        );
        Ok(ops)
    }

    /// The transfers of a withdrawal of `shares_to_redeem` shares, which
    /// follow the burn of those shares: each asset's amount from the pool's
    /// vault to the holder's account, in asset order.
    pub fn redemption_plan(
        state: &PoolState,
        shares_to_redeem: u64,
        user_accounts: &UserAccounts,
        vaults: &Vec<usize>,
    ) -> (r: Result<Vec<TokenOp>, PoolError>)
        requires
            state.wf(),
        ensures
            plan_matches(
                redemption_plan_outcome(
                    state.ratios(),
                    shares_to_redeem,
                    user_accounts.asset_accounts@,
                    vaults@,
                ),
                r,
            ),
    {
        if user_accounts.asset_accounts.len() != state.asset_count || vaults.len()
            != state.asset_count {
            return Err(PoolError::InvalidArgument);
        }
        let amounts = match Self::get_token_amounts_for_given_shares(state, shares_to_redeem) {
            Ok(a) => a,
            Err(e) => return Err(PoolError::Etf(e)),
        };
        Ok(build_transfers(&amounts, vaults, &user_accounts.asset_accounts, Signer::Pool))
    }

    /// Deposits a basket and issues `requested_shares` shares, as one unit of
    /// work: on any failure the ledger is left exactly as it was. A missing
    /// account bundle, a zero share count, or account lists whose lengths
    /// differ from the number of assets give `InvalidArgument`.
    pub fn process_creation(
        ledger: &mut Ledger,
        state: &PoolState,
        requested_shares: u64,
        user_accounts: Option<&UserAccounts>,
        vaults: &Vec<usize>,
    ) -> (r: Result<(), PoolError>)
        requires
            state.wf(),
        ensures
            match user_accounts {
                None => r == Err::<(), PoolError>(PoolError::InvalidArgument) && final(ledger)@
                    == old(ledger)@,
                Some(u) => settles(
                    creation_outcome(
                        old(ledger)@,
                        state.ratios(),
                        requested_shares,
                        u.asset_accounts@,
                        u.pool_token_account,
                        vaults@,
                    ),
                    r,
                    old(ledger)@,
                    final(ledger)@,
                ),
            },
    {
        let user = match user_accounts {
            Some(u) => u,
            None => return Err(PoolError::InvalidArgument),
        };
        let ops = match Self::creation_plan(state, requested_shares, user, vaults) {
            Ok(ops) => ops,
            Err(e) => return Err(e),
        };
        ledger.apply_all(&ops)
    }

    /// Burns `shares_to_redeem` shares and pays out the basket they stand for,
    /// as one unit of work: the burn comes before any amount is computed or
    /// moved, and on any failure the ledger is left exactly as it was. A
    /// missing account bundle, or account lists whose lengths differ from the
    /// number of assets, give `InvalidArgument`.
    pub fn process_redemption(
        ledger: &mut Ledger,
        state: &PoolState,
        shares_to_redeem: u64,
        user_accounts: Option<&UserAccounts>,
        vaults: &Vec<usize>,
    ) -> (r: Result<(), PoolError>)
        requires
            state.wf(),
        ensures
            match user_accounts {
                None => r == Err::<(), PoolError>(PoolError::InvalidArgument) && final(ledger)@
                    == old(ledger)@,
                Some(u) => settles(
                    redemption_outcome(
                        old(ledger)@,
                        state.ratios(),
                        shares_to_redeem,
                        u.asset_accounts@,
                        u.pool_token_account,
                        vaults@,
                    ),
                    r,
                    old(ledger)@,
                    final(ledger)@,
                ),
            },
    {
        let user = match user_accounts {
            Some(u) => u,
            None => return Err(PoolError::InvalidArgument),
        };
        if user.asset_accounts.len() != state.asset_count || vaults.len() != state.asset_count {
            return Err(PoolError::InvalidArgument);
        }
        let mut work = ledger.snapshot();
        let burn = TokenOp::Burn {
            account: user.pool_token_account,
            amount: shares_to_redeem,
            signer: Signer::User,
        };
        if let Err(e) = work.apply(burn) {
            return Err(e);
        }
        let ops = match Self::redemption_plan(state, shares_to_redeem, user, vaults) {
            Ok(ops) => ops,
            Err(e) => return Err(e),
        };
        if let Err(e) = work.apply_all(&ops) {
            return Err(e);
        }
        *ledger = work;
        Ok(())
    }
}

} // verus!
