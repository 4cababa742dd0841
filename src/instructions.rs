use vstd::prelude::*;

use crate::accounts::{check_fee_wallet, fee_wallet_matches, AccountKey, MultiBuy, PoolGroup};
use crate::amounts::{
    fee_amount, fee_spec, funding_amount, token_length_valid, validate_token_length,
    FEE_RATE_PER_MILLE,
};
use crate::error::CustomError;

verus! {

/// The accounts and amounts of one call to the swap program's
/// `swap_base_input`.
#[derive(Clone, Copy, Debug, PartialEq, Eq)]
pub struct SwapCall {
    pub payer: AccountKey,
    pub authority: AccountKey,
    pub amm_config: AccountKey,
    pub pool_state: AccountKey,
    pub input_token_account: AccountKey,
    pub output_token_account: AccountKey,
    pub input_vault: AccountKey,
    pub output_vault: AccountKey,
    pub input_token_program: AccountKey,
    pub output_token_program: AccountKey,
    pub input_token_mint: AccountKey,
    pub output_token_mint: AccountKey,
    pub observation_state: AccountKey,
    pub amount_in: u64,
    pub minimum_amount_out: u64,
}

/// One external call of a request. The calls of a request are made in order,
/// and the first that fails aborts the whole request.
#[derive(Clone, Copy, Debug, PartialEq, Eq)]
pub enum Action {
    /// Move `lamports` of native currency from `from` to `to`.
    Transfer { from: AccountKey, to: AccountKey, lamports: u64 },
    /// Bring the token balance of a wrapped-native account in line with its
    /// native balance.
    SyncNative { account: AccountKey },
    /// Swap on one pool.
    Swap { call: SwapCall },
}

/// The `i`-th group of six consecutive accounts of the flat list.
pub open spec fn group_at(remaining: Seq<AccountKey>, i: int) -> PoolGroup {
    PoolGroup {
        pool_state: remaining[6 * i],
        output_token_account: remaining[6 * i + 1],
        input_vault: remaining[6 * i + 2],
        output_vault: remaining[6 * i + 3],
        output_token_mint: remaining[6 * i + 4],
        observation_state: remaining[6 * i + 5],
    }
}

/// The first `n` groups of the flat list.
pub open spec fn groups_spec(remaining: Seq<AccountKey>, n: nat) -> Seq<PoolGroup> {
    Seq::new(n, |i: int| group_at(remaining, i))
}

/// The swap of `amount_in` from the staging account into the pool of `g`.
pub open spec fn swap_for(a: MultiBuy, g: PoolGroup, amount_in: u64, minimum_amount_out: u64) -> SwapCall {
    SwapCall {
        payer: a.payer,
        authority: a.authority,
        amm_config: a.amm_config,
        pool_state: g.pool_state,
        input_token_account: a.wsol_account,
        output_token_account: g.output_token_account,
        input_vault: g.input_vault,
        output_vault: g.output_vault,
        input_token_program: a.token_program,
        output_token_program: a.token_program,
        input_token_mint: a.wsol_mint,
        output_token_mint: g.output_token_mint,
        observation_state: g.observation_state,
        amount_in,
        minimum_amount_out,
    }
}

/// One swap for each of the first `n` groups, in the order of the list.
pub open spec fn swaps_spec(
    a: MultiBuy,
    remaining: Seq<AccountKey>,
    amount_in: u64,
    minimum_amount_out: u64,
    n: nat,
) -> Seq<Action> {
    Seq::new(
        n,
        |i: int| Action::Swap { call: swap_for(a, group_at(remaining, i), amount_in, minimum_amount_out) },
    )
}

/// The total payment of a request.
pub open spec fn total_spec(amount_in: u64, token_length: u8) -> int {
    amount_in * token_length
}

/// The protocol fee of a request.
pub open spec fn request_fee(amount_in: u64, token_length: u8) -> int {
    fee_spec(total_spec(amount_in, token_length), FEE_RATE_PER_MILLE as int)
}

/// The calls of a request: fund the staging account, sync it, swap on each
/// pool in turn, then pay the fee.
pub open spec fn plan_spec(
    a: MultiBuy,
    remaining: Seq<AccountKey>,
    amount_in: u64,
    minimum_amount_out: u64,
    token_length: u8,
) -> Seq<Action> {
    seq![
        Action::Transfer {
            from: a.payer,
            to: a.wsol_account,
            lamports: total_spec(amount_in, token_length) as u64,
        },
        Action::SyncNative { account: a.wsol_account },
    ] + swaps_spec(a, remaining, amount_in, minimum_amount_out, token_length as nat) + seq![
        Action::Transfer {
            from: a.payer,
            to: a.fee_wallet1,
            lamports: request_fee(amount_in, token_length) as u64,
        },
    ]
}

/// Splits the flat list into `token_length` groups of six accounts. Entries
/// past the last group are not used; a list too short for the last group
/// fails at its first missing offset, which is its length.
pub fn partition_pool_groups(remaining: &Vec<AccountKey>, token_length: u8) -> (r: Result<
    Vec<PoolGroup>,
    CustomError,
>)
    ensures
        r is Ok <==> remaining@.len() >= 6 * token_length,
        r is Ok ==> r->Ok_0@ == groups_spec(remaining@, token_length as nat),
        r is Err ==> r == Err::<Vec<PoolGroup>, _>(
            CustomError::MissingRemainingAccount { offset: remaining@.len() as usize },
        ),
{
    let n = token_length as usize;
    if remaining.len() < 6 * n {
        return Err(CustomError::MissingRemainingAccount { offset: remaining.len() });
    }
    let mut groups: Vec<PoolGroup> = Vec::new();
    let mut i: usize = 0;
    while i < n
        invariant
            i <= n,
            n == token_length,
            remaining@.len() >= 6 * n,
            groups@ =~= groups_spec(remaining@, i as nat),
        decreases n - i,
    {
        let base = i * 6;
        let g = PoolGroup {
            pool_state: remaining[base],
            output_token_account: remaining[base + 1],
            input_vault: remaining[base + 2],
            output_vault: remaining[base + 3],
            output_token_mint: remaining[base + 4],
            observation_state: remaining[base + 5],
        };
        groups.push(g);
        i = i + 1;
        assert(groups@ =~= groups_spec(remaining@, i as nat));
    }
    Ok(groups)
}

fn swap_call(a: &MultiBuy, g: &PoolGroup, amount_in: u64, minimum_amount_out: u64) -> (r: SwapCall)
    ensures
        r == swap_for(*a, *g, amount_in, minimum_amount_out),
{
    SwapCall {
        payer: a.payer,
        authority: a.authority,
        amm_config: a.amm_config,
        pool_state: g.pool_state,
        input_token_account: a.wsol_account,
        output_token_account: g.output_token_account,
        input_vault: g.input_vault,
        output_vault: g.output_vault,
        input_token_program: a.token_program,
        output_token_program: a.token_program,
        input_token_mint: a.wsol_mint,
        output_token_mint: g.output_token_mint,
        observation_state: g.observation_state,
        amount_in,
        minimum_amount_out,
    }
}

/// Whether a request succeeds: the fee wallet is the configured one, the
/// pool count is in range, the total payment fits, and the flat list holds
/// every group.
pub open spec fn request_accepted(
    a: MultiBuy,
    fee_wallet_config: Seq<char>,
    remaining: Seq<AccountKey>,
    amount_in: u64,
    token_length: u8,
) -> bool {
    &&& fee_wallet_matches(a.fee_wallet1, fee_wallet_config)
    &&& token_length_valid(token_length)
    &&& total_spec(amount_in, token_length) <= u64::MAX
    &&& remaining.len() >= 6 * token_length
}

/// Decides a request: either the ordered calls that carry it out, or why it
/// is refused. Checks come in this order: fee wallet, pool count, total
/// payment, then the flat list of pool accounts.
pub fn multi_buy(
    accounts: &MultiBuy,
    remaining_accounts: &Vec<AccountKey>,
    fee_wallet_config: &str,
    amount_in: u64,
    minimum_amount_out: u64,
    token_length: u8,
) -> (r: Result<Vec<Action>, CustomError>)
    ensures
        r is Ok <==> request_accepted(
            *accounts,
            fee_wallet_config@,
            remaining_accounts@,
            amount_in,
            token_length,
        ),
        r is Ok ==> r->Ok_0@ == plan_spec(
            *accounts,
            remaining_accounts@,
            amount_in,
            minimum_amount_out,
            token_length,
        ),
        !fee_wallet_matches(accounts.fee_wallet1, fee_wallet_config@) ==> r == Err::<
            Vec<Action>,
            _,
        >(CustomError::FeeWalletMismatch),
        fee_wallet_matches(accounts.fee_wallet1, fee_wallet_config@) && !token_length_valid(
            token_length,
        ) ==> r == Err::<Vec<Action>, _>(CustomError::InvalidTokenLength),
        fee_wallet_matches(accounts.fee_wallet1, fee_wallet_config@) && token_length_valid(
            token_length,
        ) && total_spec(amount_in, token_length) > u64::MAX ==> r == Err::<Vec<Action>, _>(
            CustomError::AmountOverflow,
        ),
        fee_wallet_matches(accounts.fee_wallet1, fee_wallet_config@) && token_length_valid(
            token_length,
        ) && total_spec(amount_in, token_length) <= u64::MAX && remaining_accounts@.len() < 6
            * token_length ==> r == Err::<Vec<Action>, _>(
            CustomError::MissingRemainingAccount { offset: remaining_accounts@.len() as usize },
        ),
{
    check_fee_wallet(&accounts.fee_wallet1, fee_wallet_config)?;
    validate_token_length(token_length)?;
    let total = match funding_amount(amount_in, token_length) {
        Some(t) => t,
        None => return Err(CustomError::AmountOverflow),
    };
    let groups = partition_pool_groups(remaining_accounts, token_length)?;
    let ghost plan = plan_spec(
        *accounts,
        remaining_accounts@,
        amount_in,
        minimum_amount_out,
        token_length,
    );
    let mut actions: Vec<Action> = Vec::new();
    actions.push(Action::Transfer { from: accounts.payer, to: accounts.wsol_account, lamports: total });
    actions.push(Action::SyncNative { account: accounts.wsol_account });
    let mut i: usize = 0;
    while i < groups.len()
        invariant
            i <= groups@.len(),
            groups@ == groups_spec(remaining_accounts@, token_length as nat),
            actions@ =~= plan.subrange(0, 2 + i as int),
            plan.len() == 3 + token_length,
            plan == plan_spec(
                *accounts,
                remaining_accounts@,
                amount_in,
                minimum_amount_out,
                token_length,
            ),
            total == total_spec(amount_in, token_length),
        decreases groups@.len() - i,
    {
        let call = swap_call(accounts, &groups[i], amount_in, minimum_amount_out);
        actions.push(Action::Swap { call });
        i = i + 1;
        assert(actions@ =~= plan.subrange(0, 2 + i as int));
    }
    let fee = fee_amount(total, FEE_RATE_PER_MILLE);
    actions.push(Action::Transfer { from: accounts.payer, to: accounts.fee_wallet1, lamports: fee });
    assert(actions@ =~= plan);
    Ok(actions)
}

} // verus!
