use vstd::prelude::*;

use crate::accounts::{AccountKey, MultiBuy};
use crate::amounts::{fee_spec, FEE_RATE_PER_MILLE};
use crate::instructions::{
    group_at, plan_spec, request_accepted, request_fee, swap_for, total_spec, Action,
};

verus! {

/// The sum of `f` over the calls of `actions`.
pub open spec fn sum_over(actions: Seq<Action>, f: spec_fn(Action) -> int) -> int
    decreases actions.len(),
{
    if actions.len() == 0 {
        0
    } else {
        sum_over(actions.drop_last(), f) + f(actions.last())
    }
}

/// The native currency that one call takes from `who`.
pub open spec fn debit_of(who: AccountKey) -> spec_fn(Action) -> int {
    |c: Action|
        match c {
            Action::Transfer { from, lamports, .. } => if from == who {
                lamports as int
            } else {
                0
            },
            _ => 0,
        }
}

/// One for a swap call, zero for any other call.
pub open spec fn swap_mark() -> spec_fn(Action) -> int {
    |c: Action|
        match c {
            Action::Swap { .. } => 1,
            _ => 0,
        }
}

/// The input amount that one call hands to a swap.
pub open spec fn swap_input() -> spec_fn(Action) -> int {
    |c: Action|
        match c {
            Action::Swap { call } => call.amount_in as int,
            _ => 0,
        }
}

/// The native currency that `actions` take from `who` in all.
pub open spec fn debited_from(actions: Seq<Action>, who: AccountKey) -> int {
    sum_over(actions, debit_of(who))
}

/// The number of swap calls in `actions`.
pub open spec fn swap_count(actions: Seq<Action>) -> int {
    sum_over(actions, swap_mark())
}

/// The input amounts of all swap calls in `actions`, added up.
pub open spec fn swap_input_total(actions: Seq<Action>) -> int {
    sum_over(actions, swap_input())
}

proof fn lemma_sum_over_concat(a: Seq<Action>, b: Seq<Action>, f: spec_fn(Action) -> int)
    ensures
        sum_over(a + b, f) == sum_over(a, f) + sum_over(b, f),
    decreases b.len(),
{
    if b.len() == 0 {
        assert(a + b =~= a);
    } else {
        lemma_sum_over_concat(a, b.drop_last(), f);
        assert((a + b).drop_last() =~= a + b.drop_last());
    }
}

proof fn lemma_sum_over_constant(s: Seq<Action>, f: spec_fn(Action) -> int, k: int)
    requires
        forall|i: int| 0 <= i < s.len() ==> f(s[i]) == k,
    ensures
        sum_over(s, f) == k * s.len(),
    decreases s.len(),
{
    if s.len() > 0 {
        lemma_sum_over_constant(s.drop_last(), f, k);
        assert(k * s.len() == k * (s.len() - 1) + k) by (nonlinear_arith);
    }
}

proof fn lemma_plan_sums(
    a: MultiBuy,
    remaining: Seq<AccountKey>,
    amount_in: u64,
    minimum_amount_out: u64,
    token_length: u8,
    f: spec_fn(Action) -> int,
    k: int,
)
    requires
        forall|i: int|
            0 <= i < token_length ==> f(
                Action::Swap {
                    call: swap_for(a, #[trigger] group_at(remaining, i), amount_in, minimum_amount_out),
                },
            ) == k,
    ensures
        ({
            let plan = plan_spec(a, remaining, amount_in, minimum_amount_out, token_length);
            sum_over(plan, f) == f(plan[0]) + f(plan[1]) + k * token_length + f(plan[plan.len() - 1])
        }),
{
    let plan = plan_spec(a, remaining, amount_in, minimum_amount_out, token_length);
    let head = plan.subrange(0, 2);
    let mid = plan.subrange(2, 2 + token_length);
    let tail = plan.subrange(2 + token_length, plan.len() as int);
    assert(plan =~= head + mid + tail);
    lemma_sum_over_concat(head + mid, tail, f);
    lemma_sum_over_concat(head, mid, f);
    assert forall|i: int| 0 <= i < mid.len() implies f(mid[i]) == k by {
        assert(mid[i] == Action::Swap {
            call: swap_for(a, group_at(remaining, i), amount_in, minimum_amount_out),
        });
    }
    lemma_sum_over_constant(mid, f, k);
    assert(head.drop_last().drop_last() =~= Seq::<Action>::empty());
    assert(sum_over(head.drop_last().drop_last(), f) == 0);
    assert(head.drop_last().last() == plan[0]);
    assert(sum_over(head.drop_last(), f) == f(plan[0]));
    assert(sum_over(head, f) == f(plan[0]) + f(plan[1]));
    assert(tail.drop_last() =~= Seq::<Action>::empty());
    assert(sum_over(tail, f) == f(plan[plan.len() - 1]));
}

proof fn lemma_fee_within_total(total: int)
    requires
        0 <= total,
    ensures
        0 <= fee_spec(total, FEE_RATE_PER_MILLE as int) <= total,
{
    assert(0 <= total * 10 / 1000 <= total) by (nonlinear_arith)
        requires 0 <= total;
}

/// For every accepted request, the payer is debited the total payment,
/// `amount_in` for each pool, plus the fee of one percent of that total,
/// rounded down.
pub proof fn lemma_total_debited(
    a: MultiBuy,
    fee_wallet_config: Seq<char>,
    remaining: Seq<AccountKey>,
    amount_in: u64,
    minimum_amount_out: u64,
    token_length: u8,
)
    requires
        request_accepted(a, fee_wallet_config, remaining, amount_in, token_length),
    ensures
        debited_from(plan_spec(a, remaining, amount_in, minimum_amount_out, token_length), a.payer)
            == amount_in * token_length + (amount_in * token_length) * 10 / 1000,
{
    lemma_fee_within_total(total_spec(amount_in, token_length));
    lemma_plan_sums(a, remaining, amount_in, minimum_amount_out, token_length, debit_of(a.payer), 0);
}

/// For every accepted request there are exactly `token_length` swap calls;
/// the `i`-th of them, in call order, takes the `i`-th group of six
/// consecutive accounts of the flat list, swaps `amount_in` out of the shared
/// staging account, and all of them together draw exactly the funded total.
pub proof fn lemma_swap_calls(
    a: MultiBuy,
    fee_wallet_config: Seq<char>,
    remaining: Seq<AccountKey>,
    amount_in: u64,
    minimum_amount_out: u64,
    token_length: u8,
)
    requires
        request_accepted(a, fee_wallet_config, remaining, amount_in, token_length),
    ensures
        ({
            let plan = plan_spec(a, remaining, amount_in, minimum_amount_out, token_length);
            &&& swap_count(plan) == token_length
            &&& forall|i: int|
                0 <= i < token_length ==> {
                    let g = group_at(remaining, i);
                    #[trigger] plan[2 + i] == Action::Swap {
                        call: swap_for(a, g, amount_in, minimum_amount_out),
                    } && g.pool_state == remaining[6 * i] && g.output_token_account == remaining[6 * i + 1]
                        && g.input_vault == remaining[6 * i + 2] && g.output_vault == remaining[6 * i + 3]
                        && g.output_token_mint == remaining[6 * i + 4] && g.observation_state
                        == remaining[6 * i + 5] && swap_for(a, g, amount_in, minimum_amount_out).amount_in
                        == amount_in && swap_for(a, g, amount_in, minimum_amount_out).input_token_account
                        == a.wsol_account
                }
            &&& swap_input_total(plan) == amount_in * token_length
            &&& plan[0] == Action::Transfer {
                from: a.payer,
                to: a.wsol_account,
                lamports: (amount_in * token_length) as u64,
            }
        }),
{
    lemma_plan_sums(a, remaining, amount_in, minimum_amount_out, token_length, swap_mark(), 1);
    lemma_plan_sums(
        a,
        remaining,
        amount_in,
        minimum_amount_out,
        token_length,
        swap_input(),
        amount_in as int,
    );
    assert(amount_in * token_length == token_length * amount_in) by (nonlinear_arith);
}

/// Whether the first `token_length` groups of `r2` are those of `r1` in
/// some order.
pub open spec fn groups_permuted(r1: Seq<AccountKey>, r2: Seq<AccountKey>, token_length: u8) -> bool {
    exists|p: Seq<int>|
        {
            &&& p.len() == token_length
            &&& forall|i: int| 0 <= i < token_length ==> 0 <= #[trigger] p[i] < token_length
            &&& forall|i: int, j: int|
                0 <= i < j < token_length ==> #[trigger] p[i] != #[trigger] p[j]
            &&& forall|i: int|
                0 <= i < token_length ==> #[trigger] group_at(r2, i) == group_at(r1, p[i])
        }
}

/// Reordering the groups of the flat list changes which pool gets which
/// swap, but neither the funding transfer, nor the fee transfer, nor the
/// total debited from the payer, nor the number of swaps.
pub proof fn lemma_totals_ignore_group_order(
    a: MultiBuy,
    fee_wallet_config: Seq<char>,
    r1: Seq<AccountKey>,
    r2: Seq<AccountKey>,
    amount_in: u64,
    minimum_amount_out: u64,
    token_length: u8,
)
    requires
        request_accepted(a, fee_wallet_config, r1, amount_in, token_length),
        request_accepted(a, fee_wallet_config, r2, amount_in, token_length),
        groups_permuted(r1, r2, token_length),
    ensures
        ({
            let p1 = plan_spec(a, r1, amount_in, minimum_amount_out, token_length);
            let p2 = plan_spec(a, r2, amount_in, minimum_amount_out, token_length);
            &&& p1[0] == p2[0]
            &&& p1.last() == p2.last()
            &&& p1.last() == Action::Transfer {
                from: a.payer,
                to: a.fee_wallet1,
                lamports: request_fee(amount_in, token_length) as u64,
            }
            &&& debited_from(p1, a.payer) == debited_from(p2, a.payer)
            &&& swap_count(p1) == swap_count(p2)
        }),
{
    lemma_total_debited(a, fee_wallet_config, r1, amount_in, minimum_amount_out, token_length);
    lemma_total_debited(a, fee_wallet_config, r2, amount_in, minimum_amount_out, token_length);
    lemma_swap_calls(a, fee_wallet_config, r1, amount_in, minimum_amount_out, token_length);
    lemma_swap_calls(a, fee_wallet_config, r2, amount_in, minimum_amount_out, token_length);
}

} // verus!
