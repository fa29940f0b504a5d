//! Facts about the pool's operations that relate several calls: linearity of
//! the ratio conversion, initialization, and the deposit/withdraw round trip.

use vstd::prelude::*;

use crate::codec::{decode_words, encode_words, lemma_decode_encode};
use crate::error::PoolError;
use crate::mint::mint_supply_outcome;
use crate::ledger::{run, step, LedgerState, Signer, TokenOp};
use crate::pool::{
    amounts_for_shares, creation_ops, creation_outcome, init_from_mint_outcome, init_outcome, redemption_burn,
    redemption_outcome, transfers, RatioPolicy,
};

verus! {

/// The change that `op` makes to the balance of account `k`, if it succeeds.
pub open spec fn balance_delta(op: TokenOp, k: int) -> int {
    match op {
        TokenOp::Transfer { source, destination, amount, .. } => (if k == destination {
            amount as int
        } else {
            0
        }) - (if k == source {
            amount as int
        } else {
            0
        }),
        TokenOp::MintTo { account, amount, .. } => if k == account {
            amount as int
        } else {
            0
        },
        TokenOp::Burn { account, amount, .. } => if k == account {
            -(amount as int)
        } else {
            0
        },
    }
}

/// The change that `op` makes to the share supply, if it succeeds.
pub open spec fn supply_delta(op: TokenOp) -> int {
    match op {
        TokenOp::Transfer { .. } => 0,
        TokenOp::MintTo { amount, .. } => amount as int,
        TokenOp::Burn { amount, .. } => -(amount as int),
    }
}

/// The total change that `ops` make to the balance of account `k`.
pub open spec fn net_balance(ops: Seq<TokenOp>, k: int) -> int
    decreases ops.len(),
{
    if ops.len() == 0 {
        0
    } else {
        balance_delta(ops[0], k) + net_balance(ops.drop_first(), k)
    }
}

/// The total change that `ops` make to the share supply.
pub open spec fn net_supply(ops: Seq<TokenOp>) -> int
    decreases ops.len(),
{
    if ops.len() == 0 {
        0
    } else {
        supply_delta(ops[0]) + net_supply(ops.drop_first())
    }
}

/// `after` is `before` shifted by the given per-account and supply changes.
pub open spec fn shifted(
    before: LedgerState,
    after: LedgerState,
    d: spec_fn(int) -> int,
    ds: int,
) -> bool {
    &&& after.balances.len() == before.balances.len()
    &&& forall|k: int|
        0 <= k < before.balances.len() ==> #[trigger] after.balances[k] == before.balances[k]
            + d(k)
    &&& after.share_supply == before.share_supply + ds
}

/// A successful operation changes the ledger by exactly its deltas.
pub proof fn lemma_step_delta(l: LedgerState, op: TokenOp)
    requires
        step(l, op) is Ok,
    ensures
        shifted(l, step(l, op)->Ok_0, |k: int| balance_delta(op, k), supply_delta(op)),
{
}

/// Successful operations change the ledger by exactly the sum of their deltas.
pub proof fn lemma_run_delta(l: LedgerState, ops: Seq<TokenOp>)
    requires
        run(l, ops) is Ok,
    ensures
        shifted(l, run(l, ops)->Ok_0, |k: int| net_balance(ops, k), net_supply(ops)),
    decreases ops.len(),
{
    if ops.len() > 0 {
        lemma_step_delta(l, ops[0]);
        let next = step(l, ops[0])->Ok_0;
        lemma_run_delta(next, ops.drop_first());
    }
}

/// The deltas of `ops` followed by `op`.
pub proof fn lemma_net_push(ops: Seq<TokenOp>, op: TokenOp, k: int)
    ensures
        net_balance(ops.push(op), k) == net_balance(ops, k) + balance_delta(op, k),
        net_supply(ops.push(op)) == net_supply(ops) + supply_delta(op),
    decreases ops.len(),
{
    if ops.len() == 0 {
        assert(ops.push(op).drop_first() =~= Seq::<TokenOp>::empty());
        assert(net_balance(Seq::<TokenOp>::empty(), k) == 0);
        assert(net_supply(Seq::<TokenOp>::empty()) == 0);
    } else {
        assert(ops.push(op)[0] == ops[0]);
        assert(ops.push(op).drop_first() =~= ops.drop_first().push(op));
        lemma_net_push(ops.drop_first(), op, k);
    }
}

/// Transfers in the opposite direction undo each other's deltas, and
/// transfers move no supply.
pub proof fn lemma_reverse_transfers(
    amounts: Seq<u64>,
    a: Seq<usize>,
    b: Seq<usize>,
    s1: Signer,
    s2: Signer,
    k: int,
)
    requires
        a.len() == amounts.len(),
        b.len() == amounts.len(),
    ensures
        net_balance(transfers(amounts, b, a, s2), k) == -net_balance(
            transfers(amounts, a, b, s1),
            k,
        ),
        net_supply(transfers(amounts, a, b, s1)) == 0,
    decreases amounts.len(),
{
    if amounts.len() > 0 {
        let (am, ar, br) = (amounts.drop_first(), a.drop_first(), b.drop_first());
        assert(transfers(amounts, b, a, s2).drop_first() =~= transfers(am, br, ar, s2));
        assert(transfers(amounts, a, b, s1).drop_first() =~= transfers(am, ar, br, s1));
        lemma_reverse_transfers(am, ar, br, s1, s2, k);
    }
}

/// Creating shares and then redeeming the same number of shares, with the
/// same accounts, leaves every balance and the share supply as they were
/// before, whenever both calls succeed.
pub proof fn lemma_create_then_redeem(
    l: LedgerState,
    ratios: Seq<u64>,
    shares: u64,
    user_assets: Seq<usize>,
    share_account: usize,
    vaults: Seq<usize>,
)
    requires
        creation_outcome(l, ratios, shares, user_assets, share_account, vaults) is Ok,
        redemption_outcome(
            creation_outcome(l, ratios, shares, user_assets, share_account, vaults)->Ok_0,
            ratios,
            shares,
            user_assets,
            share_account,
            vaults,
        ) is Ok,
    ensures
        redemption_outcome(
            creation_outcome(l, ratios, shares, user_assets, share_account, vaults)->Ok_0,
            ratios,
            shares,
            user_assets,
            share_account,
            vaults,
        )->Ok_0 == l,
{
    let a = amounts_for_shares(ratios, shares)->Ok_0;
    let forward = transfers(a, user_assets, vaults, Signer::User);
    let back = transfers(a, vaults, user_assets, Signer::Pool);
    let mint = TokenOp::MintTo { account: share_account, amount: shares, signer: Signer::Pool };
    let burn = redemption_burn(share_account, shares);
    let cops = creation_ops(a, user_assets, share_account, vaults, shares);
    let l1 = run(l, cops)->Ok_0;
    lemma_run_delta(l, cops);
    lemma_step_delta(l1, burn);
    let l1b = step(l1, burn)->Ok_0;
    lemma_run_delta(l1b, back);
    let l2 = run(l1b, back)->Ok_0;
    assert forall|k: int| 0 <= k < l.balances.len() implies #[trigger] l2.balances[k]
        == l.balances[k] by {
        lemma_net_push(forward, mint, k);
        lemma_reverse_transfers(a, user_assets, vaults, Signer::User, Signer::Pool, k);
    }
    lemma_net_push(forward, mint, 0);
    lemma_reverse_transfers(a, user_assets, vaults, Signer::User, Signer::Pool, 0);
    lemma_reverse_transfers(a, vaults, user_assets, Signer::Pool, Signer::User, 0);
    assert(l2.balances =~= l.balances);
}

/// Zero shares stand for zero of every asset.
pub proof fn lemma_zero_shares(ratios: Seq<u64>)
    ensures
        amounts_for_shares(ratios, 0) == Ok::<Seq<u64>, crate::error::ETFError>(
            Seq::new(ratios.len(), |i: int| 0u64),
        ),
{
    assert forall|i: int| 0 <= i < ratios.len() implies #[trigger] ratios[i] * 0 == 0 by {}
    assert(Seq::new(ratios.len(), |i: int| (ratios[i] * 0) as u64) =~= Seq::new(
        ratios.len(),
        |i: int| 0u64,
    ));
}

/// The amounts for `s1 + s2` shares are, asset by asset, the sum of the
/// amounts for `s1` and for `s2`, whenever the amounts for `s1 + s2` do not
/// overflow; those for `s1` and `s2` then do not overflow either.
pub proof fn lemma_amounts_linear(ratios: Seq<u64>, s1: u64, s2: u64)
    requires
        s1 + s2 <= u64::MAX,
        amounts_for_shares(ratios, (s1 + s2) as u64) is Ok,
    ensures
        amounts_for_shares(ratios, s1) is Ok,
        amounts_for_shares(ratios, s2) is Ok,
        forall|i: int|
            0 <= i < ratios.len() ==> #[trigger] amounts_for_shares(ratios, (s1 + s2) as u64)->Ok_0[i]
                == amounts_for_shares(ratios, s1)->Ok_0[i] + amounts_for_shares(ratios, s2)->Ok_0[i],
{
    let s = (s1 + s2) as u64;
    assert forall|i: int| 0 <= i < ratios.len() implies #[trigger] ratios[i] * s1 + ratios[i] * s2
        == ratios[i] * s && ratios[i] * s1 <= u64::MAX && ratios[i] * s2 <= u64::MAX by {
        let r = ratios[i];
        assert(r * s <= u64::MAX);
        assert(r * s1 + r * s2 == r * s && r * s1 <= r * s && r * s2 <= r * s) by (nonlinear_arith)
            requires
                s == s1 + s2,
        ;
    }
}

/// A pool initialized from the encoding of `ratios` stores those bytes,
/// eight per asset, and decoding them gives `ratios` back.
pub proof fn lemma_initialized_ratios(ratios: Seq<u64>)
    ensures
        init_outcome(Some(encode_words(ratios)), ratios.len(), 0, RatioPolicy::AnyRatios) == Ok::<
            Seq<u8>,
            PoolError,
        >(encode_words(ratios)),
        encode_words(ratios).len() == 8 * ratios.len(),
        decode_words(encode_words(ratios), ratios.len()) == ratios,
{
    lemma_decode_encode(ratios);
}

/// Initialization fails whenever the share mint already has supply.
pub proof fn lemma_init_needs_empty_mint(
    data: Option<Seq<u8>>,
    asset_count: nat,
    mint_supply: u64,
    policy: RatioPolicy,
)
    requires
        mint_supply != 0,
    ensures
        init_outcome(data, asset_count, mint_supply, policy) is Err,
{
}

/// Initialization from the share mint's account data fails whenever that
/// mint already has supply.
pub proof fn lemma_init_from_mint_needs_empty_mint(
    data: Option<Seq<u8>>,
    asset_count: nat,
    mint_data: Seq<u8>,
    policy: RatioPolicy,
)
    requires
        mint_supply_outcome(mint_data) matches Ok(supply) && supply != 0,
    ensures
        init_from_mint_outcome(data, asset_count, mint_data, policy) is Err,
{
}

} // verus!
