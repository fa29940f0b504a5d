use etf_pool::codec::{decode_ratios, encode_ratios};
use etf_pool::error::{ETFError, PoolError};
use etf_pool::ledger::{Ledger, Signer, TokenOp};
use etf_pool::pool::{EtfPool, PoolState, RatioPolicy, UserAccounts};

fn payload(ratios: &[u64]) -> Vec<u8> {
    let mut out = Vec::new();
    for r in ratios {
        out.extend_from_slice(&r.to_le_bytes());
    }
    out
}

fn pool(ratios: &[u64]) -> PoolState {
    let data = payload(ratios);
    EtfPool::initialize_pool(Some(&data), ratios.len(), 7, 0, RatioPolicy::AnyRatios).unwrap()
}

// accounts: 0, 1 user assets; 2, 3 vaults; 4 user shares
fn two_asset_setup() -> (PoolState, Ledger, UserAccounts, Vec<usize>) {
    let state = pool(&[100, 50]);
    let ledger = Ledger { balances: vec![5000, 5000, 0, 0, 0], share_supply: 0 };
    let user = UserAccounts { asset_accounts: vec![0, 1], pool_token_account: 4 };
    (state, ledger, user, vec![2, 3])
}

#[test]
fn initialize_stores_payload() {
    let data = payload(&[100, 50]);
    let state =
        EtfPool::initialize_pool(Some(&data), 2, 9, 0, RatioPolicy::AnyRatios).unwrap();
    assert_eq!(state.asset_count, 2);
    assert_eq!(state.custom_state, data);
    assert_eq!(state.custom_state.len(), 16);
    assert_eq!(state.vault_signer_nonce, 9);
    assert_eq!(decode_ratios(&state.custom_state, 2).unwrap(), vec![100, 50]);
}

#[test]
fn initialize_missing_payload() {
    let r = EtfPool::initialize_pool(None, 2, 0, 0, RatioPolicy::AnyRatios);
    assert_eq!(r.unwrap_err(), PoolError::Etf(ETFError::MissingInitializationData));
}

#[test]
fn initialize_wrong_length() {
    let mut data = payload(&[100, 50]);
    data.push(1);
    let r = EtfPool::initialize_pool(Some(&data), 2, 0, 0, RatioPolicy::AnyRatios);
    assert_eq!(r.unwrap_err(), PoolError::Etf(ETFError::InvalidInitializationCustomData));
    let short = payload(&[100]);
    let r = EtfPool::initialize_pool(Some(&short), 2, 0, 0, RatioPolicy::AnyRatios);
    assert_eq!(r.unwrap_err(), PoolError::Etf(ETFError::InvalidInitializationCustomData));
}

#[test]
fn initialize_refuses_existing_supply() {
    let data = payload(&[100, 50]);
    for supply in [1u64, 42, u64::MAX] {
        let r = EtfPool::initialize_pool(Some(&data), 2, 0, supply, RatioPolicy::AnyRatios);
        assert_eq!(r.unwrap_err(), PoolError::InvalidAccountData);
    }
}

#[test]
fn initialize_equal_ratio_policy() {
    let equal = payload(&[5, 5, 5]);
    assert!(EtfPool::initialize_pool(Some(&equal), 3, 0, 0, RatioPolicy::EqualNonZero).is_ok());
    let unequal = payload(&[100, 50]);
    let r = EtfPool::initialize_pool(Some(&unequal), 2, 0, 0, RatioPolicy::EqualNonZero);
    assert_eq!(r.unwrap_err(), PoolError::Etf(ETFError::InvalidInitializationCustomData));
    let zero = payload(&[0, 0]);
    let r = EtfPool::initialize_pool(Some(&zero), 2, 0, 0, RatioPolicy::EqualNonZero);
    assert_eq!(r.unwrap_err(), PoolError::Etf(ETFError::InvalidInitializationCustomData));
    assert!(EtfPool::initialize_pool(Some(&zero), 2, 0, 0, RatioPolicy::AnyRatios).is_ok());
}

#[test]
fn ratio_payload_round_trip() {
    let ratios = vec![0u64, 1, 256, u64::MAX, 100];
    let bytes = encode_ratios(&ratios);
    assert_eq!(bytes, payload(&ratios));
    assert_eq!(bytes.len(), ratios.len() * 8);
    assert_eq!(decode_ratios(&bytes, ratios.len()).unwrap(), ratios);
    assert_eq!(
        decode_ratios(&bytes, 4).unwrap_err(),
        ETFError::InvalidInitializationCustomData
    );
}

#[test]
fn amounts_scale_each_ratio() {
    let state = pool(&[100, 50]);
    assert_eq!(EtfPool::get_token_amounts_for_given_shares(&state, 10).unwrap(), vec![1000, 500]);
}

#[test]
fn amounts_for_zero_shares() {
    let state = pool(&[100, 50, u64::MAX]);
    assert_eq!(EtfPool::get_token_amounts_for_given_shares(&state, 0).unwrap(), vec![0, 0, 0]);
}

#[test]
fn amounts_are_linear() {
    let state = pool(&[100, 50, 7]);
    let a = EtfPool::get_token_amounts_for_given_shares(&state, 3).unwrap();
    let b = EtfPool::get_token_amounts_for_given_shares(&state, 8).unwrap();
    let c = EtfPool::get_token_amounts_for_given_shares(&state, 11).unwrap();
    for i in 0..3 {
        assert_eq!(c[i], a[i] + b[i]);
    }
}

#[test]
fn amounts_overflow_detected() {
    let state = pool(&[1, 1u64 << 63]);
    assert_eq!(
        EtfPool::get_token_amounts_for_given_shares(&state, 3).unwrap_err(),
        ETFError::AmountOverflow
    );
    assert_eq!(
        EtfPool::get_token_amounts_for_given_shares(&state, 1).unwrap(),
        vec![1, 1u64 << 63]
    );
}

#[test]
fn create_two_asset_scenario() {
    let (state, mut ledger, user, vaults) = two_asset_setup();
    EtfPool::process_creation(&mut ledger, &state, 10, Some(&user), &vaults).unwrap();
    assert_eq!(ledger.balances, vec![4000, 4500, 1000, 500, 10]);
    assert_eq!(ledger.share_supply, 10);
}

#[test]
fn redeem_two_asset_scenario() {
    let (state, mut ledger, user, vaults) = two_asset_setup();
    EtfPool::process_creation(&mut ledger, &state, 10, Some(&user), &vaults).unwrap();
    EtfPool::process_redemption(&mut ledger, &state, 10, Some(&user), &vaults).unwrap();
    assert_eq!(ledger.balances, vec![5000, 5000, 0, 0, 0]);
    assert_eq!(ledger.share_supply, 0);
}

#[test]
fn create_then_redeem_restores_ledger() {
    let state = pool(&[3, 0, 9]);
    let mut ledger = Ledger { balances: vec![100, 7, 50, 60, 70, 80, 4], share_supply: 4 };
    let user = UserAccounts { asset_accounts: vec![0, 1, 2], pool_token_account: 6 };
    let vaults = vec![3, 4, 5];
    EtfPool::process_creation(&mut ledger, &state, 5, Some(&user), &vaults).unwrap();
    assert_eq!(ledger.balances, vec![85, 7, 5, 75, 70, 125, 9]);
    assert_eq!(ledger.share_supply, 9);
    EtfPool::process_redemption(&mut ledger, &state, 5, Some(&user), &vaults).unwrap();
    assert_eq!(ledger.balances, vec![100, 7, 50, 60, 70, 80, 4]);
    assert_eq!(ledger.share_supply, 4);
}

#[test]
fn create_failure_leaves_ledger_unchanged() {
    let (state, mut ledger, user, vaults) = two_asset_setup();
    ledger.balances[1] = 499;
    let r = EtfPool::process_creation(&mut ledger, &state, 10, Some(&user), &vaults);
    assert_eq!(r.unwrap_err(), PoolError::InsufficientFunds);
    assert_eq!(ledger.balances, vec![5000, 499, 0, 0, 0]);
    assert_eq!(ledger.share_supply, 0);
}

#[test]
fn create_mint_overflow_leaves_ledger_unchanged() {
    let (state, mut ledger, user, vaults) = two_asset_setup();
    ledger.share_supply = u64::MAX - 5;
    let r = EtfPool::process_creation(&mut ledger, &state, 10, Some(&user), &vaults);
    assert_eq!(r.unwrap_err(), PoolError::TokenOverflow);
    assert_eq!(ledger.balances, vec![5000, 5000, 0, 0, 0]);
    assert_eq!(ledger.share_supply, u64::MAX - 5);
}

#[test]
fn create_amount_overflow() {
    let state = pool(&[1u64 << 63]);
    let mut ledger = Ledger { balances: vec![u64::MAX, 0, 0], share_supply: 0 };
    let user = UserAccounts { asset_accounts: vec![0], pool_token_account: 2 };
    let r = EtfPool::process_creation(&mut ledger, &state, 3, Some(&user), &vec![1]);
    assert_eq!(r.unwrap_err(), PoolError::Etf(ETFError::AmountOverflow));
    assert_eq!(ledger.balances, vec![u64::MAX, 0, 0]);
}

#[test]
fn create_argument_errors() {
    let (state, mut ledger, user, vaults) = two_asset_setup();
    let r = EtfPool::process_creation(&mut ledger, &state, 10, None, &vaults);
    assert_eq!(r.unwrap_err(), PoolError::InvalidArgument);
    let r = EtfPool::process_creation(&mut ledger, &state, 0, Some(&user), &vaults);
    assert_eq!(r.unwrap_err(), PoolError::InvalidArgument);
    let r = EtfPool::process_creation(&mut ledger, &state, 10, Some(&user), &vec![2]);
    assert_eq!(r.unwrap_err(), PoolError::InvalidArgument);
    let bad = UserAccounts { asset_accounts: vec![0, 99], pool_token_account: 4 };
    let r = EtfPool::process_creation(&mut ledger, &state, 10, Some(&bad), &vaults);
    assert_eq!(r.unwrap_err(), PoolError::InvalidArgument);
    assert_eq!(ledger.balances, vec![5000, 5000, 0, 0, 0]);
}

#[test]
fn redeem_without_shares_moves_nothing() {
    let (state, mut ledger, user, vaults) = two_asset_setup();
    ledger.balances = vec![0, 0, 1000, 500, 9];
    ledger.share_supply = 9;
    let r = EtfPool::process_redemption(&mut ledger, &state, 10, Some(&user), &vaults);
    assert_eq!(r.unwrap_err(), PoolError::InsufficientFunds);
    assert_eq!(ledger.balances, vec![0, 0, 1000, 500, 9]);
    assert_eq!(ledger.share_supply, 9);
}

#[test]
fn redeem_vault_shortfall_rolls_back_burn() {
    let (state, mut ledger, user, vaults) = two_asset_setup();
    ledger.balances = vec![0, 0, 1000, 499, 10];
    ledger.share_supply = 10;
    let r = EtfPool::process_redemption(&mut ledger, &state, 10, Some(&user), &vaults);
    assert_eq!(r.unwrap_err(), PoolError::InsufficientFunds);
    assert_eq!(ledger.balances, vec![0, 0, 1000, 499, 10]);
    assert_eq!(ledger.share_supply, 10);
}

#[test]
fn redeem_burn_error_comes_before_overflow() {
    let state = pool(&[1u64 << 63]);
    let mut ledger = Ledger { balances: vec![0, 0, 2], share_supply: 2 };
    let user = UserAccounts { asset_accounts: vec![0], pool_token_account: 2 };
    let r = EtfPool::process_redemption(&mut ledger, &state, 3, Some(&user), &vec![1]);
    assert_eq!(r.unwrap_err(), PoolError::InsufficientFunds);
    ledger.balances[2] = 3;
    ledger.share_supply = 3;
    let r = EtfPool::process_redemption(&mut ledger, &state, 3, Some(&user), &vec![1]);
    assert_eq!(r.unwrap_err(), PoolError::Etf(ETFError::AmountOverflow));
    assert_eq!(ledger.balances, vec![0, 0, 3]);
    assert_eq!(ledger.share_supply, 3);
}

#[test]
fn plans_list_operations_in_asset_order() {
    let (state, _, user, vaults) = two_asset_setup();
    let ops = EtfPool::creation_plan(&state, 10, &user, &vaults).unwrap();
    assert_eq!(
        ops,
        vec![
            TokenOp::Transfer { source: 0, destination: 2, amount: 1000, signer: Signer::User },
            TokenOp::Transfer { source: 1, destination: 3, amount: 500, signer: Signer::User },
            TokenOp::MintTo { account: 4, amount: 10, signer: Signer::Pool },
        ]
    );
    let ops = EtfPool::redemption_plan(&state, 10, &user, &vaults).unwrap();
    assert_eq!(
        ops,
        vec![
            TokenOp::Transfer { source: 2, destination: 0, amount: 1000, signer: Signer::Pool },
            TokenOp::Transfer { source: 3, destination: 1, amount: 500, signer: Signer::Pool },
        ]
    );
}

#[test]
fn ledger_self_transfer_is_no_op() {
    let mut ledger = Ledger { balances: vec![10, 0], share_supply: 0 };
    ledger
        .apply(TokenOp::Transfer { source: 0, destination: 0, amount: 10, signer: Signer::User })
        .unwrap();
    assert_eq!(ledger.balances, vec![10, 0]);
    let r = ledger.apply(TokenOp::Transfer {
        source: 0,
        destination: 0,
        amount: 11,
        signer: Signer::User,
    });
    assert_eq!(r.unwrap_err(), PoolError::InsufficientFunds);
}

#[test]
fn error_codes_follow_declaration_order() {
    assert_eq!(ETFError::InvalidInitializationCustomData.code(), 0);
    assert_eq!(ETFError::AmountOverflow.code(), 5);
}
