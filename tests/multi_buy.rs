use anchor_lang::prelude::Pubkey;
use multi_buy::{
    fee_amount, funding_amount, multi_buy, partition_pool_groups, validate_token_length,
    AccountKey, Action, CustomError, MultiBuy, FEE_RATE_PER_MILLE,
};

fn key(n: u8) -> AccountKey {
    AccountKey { bytes: [n; 32] }
}

fn base58(k: &AccountKey) -> String {
    Pubkey::new_from_array(k.bytes).to_string()
}

fn fixed_accounts() -> MultiBuy {
    MultiBuy {
        cp_swap_program: key(1),
        payer: key(2),
        fee_wallet1: key(3),
        authority: key(4),
        amm_config: key(5),
        wsol_account: key(6),
        token_program: key(7),
        wsol_mint: key(8),
        system_program: key(9),
    }
}

fn flat_list(len: usize) -> Vec<AccountKey> {
    (0..len).map(|i| key(100 + i as u8)).collect()
}

fn swaps(actions: &[Action]) -> Vec<multi_buy::SwapCall> {
    actions
        .iter()
        .filter_map(|a| match a {
            Action::Swap { call } => Some(*call),
            _ => None,
        })
        .collect()
}

#[test]
fn token_length_range_is_one_to_twelve() {
    for n in 0..=255u8 {
        let r = validate_token_length(n);
        if (1..=12).contains(&n) {
            assert_eq!(r, Ok(()));
        } else {
            assert_eq!(r, Err(CustomError::InvalidTokenLength));
        }
    }
}

#[test]
fn fee_is_one_percent_rounded_down() {
    assert_eq!(FEE_RATE_PER_MILLE, 10);
    assert_eq!(fee_amount(3_000_000, FEE_RATE_PER_MILLE), 30_000);
    assert_eq!(fee_amount(199, FEE_RATE_PER_MILLE), 1);
    assert_eq!(fee_amount(99, FEE_RATE_PER_MILLE), 0);
    assert_eq!(fee_amount(u64::MAX, FEE_RATE_PER_MILLE), u64::MAX / 100);
}

#[test]
fn funding_amount_detects_overflow() {
    assert_eq!(funding_amount(1_000_000, 3), Some(3_000_000));
    assert_eq!(funding_amount(u64::MAX, 1), Some(u64::MAX));
    assert_eq!(funding_amount(u64::MAX, 2), None);
}

#[test]
fn partition_takes_consecutive_groups_of_six() {
    let list = flat_list(19);
    let groups = partition_pool_groups(&list, 3).unwrap();
    assert_eq!(groups.len(), 3);
    for (i, g) in groups.iter().enumerate() {
        let b = 6 * i;
        assert_eq!(g.pool_state, list[b]);
        assert_eq!(g.output_token_account, list[b + 1]);
        assert_eq!(g.input_vault, list[b + 2]);
        assert_eq!(g.output_vault, list[b + 3]);
        assert_eq!(g.output_token_mint, list[b + 4]);
        assert_eq!(g.observation_state, list[b + 5]);
    }
}

#[test]
fn partition_fails_at_first_missing_offset() {
    assert_eq!(
        partition_pool_groups(&flat_list(17), 3),
        Err(CustomError::MissingRemainingAccount { offset: 17 })
    );
    assert_eq!(
        partition_pool_groups(&Vec::new(), 1),
        Err(CustomError::MissingRemainingAccount { offset: 0 })
    );
}

#[test]
fn three_pools_of_one_million() {
    let a = fixed_accounts();
    let list = flat_list(18);
    let plan = multi_buy(&a, &list, &base58(&a.fee_wallet1), 1_000_000, 5, 3).unwrap();
    assert_eq!(plan.len(), 6);
    assert_eq!(
        plan[0],
        Action::Transfer { from: a.payer, to: a.wsol_account, lamports: 3_000_000 }
    );
    assert_eq!(plan[1], Action::SyncNative { account: a.wsol_account });
    let calls = swaps(&plan);
    assert_eq!(calls.len(), 3);
    for (i, c) in calls.iter().enumerate() {
        assert_eq!(c.amount_in, 1_000_000);
        assert_eq!(c.minimum_amount_out, 5);
        assert_eq!(c.input_token_account, a.wsol_account);
        assert_eq!(c.input_token_mint, a.wsol_mint);
        assert_eq!(c.input_token_program, a.token_program);
        assert_eq!(c.output_token_program, a.token_program);
        assert_eq!(c.authority, a.authority);
        assert_eq!(c.amm_config, a.amm_config);
        assert_eq!(c.payer, a.payer);
        assert_eq!(c.pool_state, list[6 * i]);
        assert_eq!(c.output_token_account, list[6 * i + 1]);
        assert_eq!(c.input_vault, list[6 * i + 2]);
        assert_eq!(c.output_vault, list[6 * i + 3]);
        assert_eq!(c.output_token_mint, list[6 * i + 4]);
        assert_eq!(c.observation_state, list[6 * i + 5]);
    }
    assert_eq!(
        plan[5],
        Action::Transfer { from: a.payer, to: a.fee_wallet1, lamports: 30_000 }
    );
}

#[test]
fn payer_debit_is_total_plus_fee() {
    let a = fixed_accounts();
    let plan = multi_buy(&a, &flat_list(72), &base58(&a.fee_wallet1), 777_777, 0, 12).unwrap();
    let debited: u128 = plan
        .iter()
        .map(|c| match c {
            Action::Transfer { from, lamports, .. } if *from == a.payer => *lamports as u128,
            _ => 0,
        })
        .sum();
    let total = 777_777u128 * 12;
    assert_eq!(debited, total + total * 10 / 1000);
    assert_eq!(swaps(&plan).len(), 12);
}

#[test]
fn zero_token_length_is_rejected() {
    let a = fixed_accounts();
    let r = multi_buy(&a, &flat_list(18), &base58(&a.fee_wallet1), 1_000_000, 0, 0);
    assert_eq!(r, Err(CustomError::InvalidTokenLength));
}

#[test]
fn thirteen_token_length_is_rejected() {
    let a = fixed_accounts();
    let r = multi_buy(&a, &flat_list(78), &base58(&a.fee_wallet1), 1_000_000, 0, 13);
    assert_eq!(r, Err(CustomError::InvalidTokenLength));
}

#[test]
fn short_list_fails_before_any_fee() {
    let a = fixed_accounts();
    let r = multi_buy(&a, &flat_list(17), &base58(&a.fee_wallet1), 1_000_000, 0, 3);
    assert_eq!(r, Err(CustomError::MissingRemainingAccount { offset: 17 }));
}

#[test]
fn overflowing_total_is_rejected() {
    let a = fixed_accounts();
    let r = multi_buy(&a, &flat_list(12), &base58(&a.fee_wallet1), u64::MAX, 0, 2);
    assert_eq!(r, Err(CustomError::AmountOverflow));
}

#[test]
fn fee_wallet_must_be_the_configured_one() {
    let a = fixed_accounts();
    let list = flat_list(6);
    assert_eq!(
        multi_buy(&a, &list, &base58(&key(42)), 10, 0, 1),
        Err(CustomError::FeeWalletMismatch)
    );
    assert_eq!(
        multi_buy(&a, &list, "not a key", 10, 0, 1),
        Err(CustomError::FeeWalletMismatch)
    );
    assert!(multi_buy(&a, &list, &base58(&a.fee_wallet1), 10, 0, 1).is_ok());
}

#[test]
fn reordering_groups_keeps_funding_and_fee() {
    let a = fixed_accounts();
    let list = flat_list(18);
    let mut reordered = Vec::new();
    reordered.extend_from_slice(&list[12..18]);
    reordered.extend_from_slice(&list[0..6]);
    reordered.extend_from_slice(&list[6..12]);
    let cfg = base58(&a.fee_wallet1);
    let p1 = multi_buy(&a, &list, &cfg, 500, 1, 3).unwrap();
    let p2 = multi_buy(&a, &reordered, &cfg, 500, 1, 3).unwrap();
    assert_eq!(p1[0], p2[0]);
    assert_eq!(p1[5], p2[5]);
    assert_ne!(p1[2], p2[2]);
    assert_eq!(swaps(&p2)[0].pool_state, list[12]);
}
