//! What holds of the program as a whole.
use crate::accounts::{CloseInputAccounts, CreateInputAccounts};
use crate::bytes::{be_bytes, be_bytes_injective, be_bytes_len, byte_range_of_u64};
use crate::closing::{settlement, transfer_unless_zero, withdraw_fee};
use crate::constants::SEED_LABEL;
use crate::cpi::{ddca_seeds, CloseAccount, CpiContext, TokenCall, Transfer};
use crate::funding::{deposit_refusal, first_deposit_refusal, recurring_fees};
use crate::pubkey::{pubkey_determined_by_bytes, Pubkey};
use crate::schedule::{
    checkpoints_are_an_interval_apart, checkpoints_enclose_now, due, next_due_checkpoint_is_later,
    schedule_in_range, tolerance,
};
use crate::state::DdcaAccount;
use crate::swap::swap_rate;
use crate::token::VaultBalances;
use vstd::arithmetic::div_mod::{
    lemma_div_is_ordered, lemma_div_nonincreasing, lemma_div_pos_is_pos, lemma_fundamental_div_mod,
    lemma_fundamental_div_mod_converse, lemma_mod_adds,
};
use vstd::prelude::*;

verus! {

/// A recurring swap that is made on accounts that may be used for it is well-formed, and has made
/// no swap yet.
pub proof fn created_account_is_well_formed(
    accounts: CreateInputAccounts,
    block_height: u64,
    pda_bump: u8,
    deposit_amount: u64,
    amount_per_swap: u64,
    interval_in_seconds: u64,
    now: u64,
)
    requires
        accounts.constraints(deposit_amount, amount_per_swap, interval_in_seconds),
        accounts.ddca_account.data.is_new(),
        first_deposit_refusal(deposit_amount, amount_per_swap) is None,
    ensures
        accounts.created(
            block_height,
            pda_bump,
            deposit_amount,
            amount_per_swap,
            interval_in_seconds,
            now,
        ).well_formed(),
        accounts.created(
            block_height,
            pda_bump,
            deposit_amount,
            amount_per_swap,
            interval_in_seconds,
            now,
        ).is_new(),
{
}

/// The time at which a recurring swap is made is its first checkpoint, and that checkpoint is due
/// at once.
pub proof fn first_checkpoint_is_due_at_once(ddca: DdcaAccount)
    requires
        ddca.well_formed(),
        ddca.is_new(),
        0 < ddca.start_ts,
    ensures
        ddca.is_due(ddca.start_ts, ddca.start_ts as int),
{
    let interval = ddca.interval_in_seconds as int;
    assert(0int % interval == 0) by (nonlinear_arith)
        requires
            0 < interval,
    ;
}

/// A deposit keeps a recurring swap well-formed.
pub proof fn deposit_keeps_well_formed(ddca: DdcaAccount, deposit_amount: u64, now: u64)
    requires
        ddca.well_formed(),
        deposit_refusal(deposit_amount, ddca.amount_per_swap) is None,
        ddca.total_deposits_amount + deposit_amount <= u64::MAX,
    ensures
        ddca.after_deposit(deposit_amount, now).well_formed(),
{
    lemma_mod_adds(
        ddca.total_deposits_amount as int,
        deposit_amount as int,
        ddca.amount_per_swap as int,
    );
    let sum = ddca.total_deposits_amount + deposit_amount;
    lemma_fundamental_div_mod(sum, ddca.amount_per_swap as int);
    lemma_div_is_ordered(
        ddca.total_deposits_amount as int,
        sum,
        ddca.amount_per_swap as int,
    );
}

/// A swap keeps a recurring swap well-formed. The checkpoint that was served last, if there was
/// one, was served within the tolerance of some time that is not after `now`.
pub proof fn wake_keeps_well_formed(ddca: DdcaAccount, served_at: int, now: u64, t: u64)
    requires
        ddca.well_formed(),
        ddca.is_due(now, t as int),
        ddca.swap_count < u64::MAX,
        0 < ddca.swap_count ==> served_at <= now && ddca.last_completed_swap_ts <= served_at
            + tolerance(ddca.interval_in_seconds as int),
    ensures
        ddca.after_wake(t).well_formed(),
        0 < ddca.swap_count ==> ddca.last_completed_swap_ts < t,
{
    let start = ddca.start_ts as int;
    let interval = ddca.interval_in_seconds as int;
    let last = ddca.last_completed_swap_ts as int;
    lemma_div_pos_is_pos(t - start, interval);
    if 0 < ddca.swap_count {
        assert(2 * tolerance(interval) < interval);
        if t < last {
            checkpoints_are_an_interval_apart(start, interval, t as int, last);
        } else {
            checkpoints_are_an_interval_apart(start, interval, last, t as int);
        }
        lemma_fundamental_div_mod(last - start, interval);
        lemma_fundamental_div_mod(t - start, interval);
        let i = (last - start) / interval;
        let j = (t - start) / interval;
        assert(i + 1 <= j) by (nonlinear_arith)
            requires
                0 < interval,
                interval * j >= interval * i + interval,
        ;
    }
}

/// Taking note of the outcome of a swap keeps a recurring swap well-formed.
pub proof fn swap_keeps_well_formed(
    ddca: DdcaAccount,
    before: VaultBalances,
    after: VaultBalances,
)
    requires
        ddca.well_formed(),
    ensures
        ddca.after_swap(before, after).well_formed(),
{
}

/// Whether two states are of the same recurring swap, on the same terms.
pub open spec fn same_terms(a: DdcaAccount, b: DdcaAccount) -> bool {
    &&& a.owner_acc_addr == b.owner_acc_addr
    &&& a.from_mint == b.from_mint
    &&& a.from_mint_decimals == b.from_mint_decimals
    &&& a.from_tacc_addr == b.from_tacc_addr
    &&& a.to_mint == b.to_mint
    &&& a.to_mint_decimals == b.to_mint_decimals
    &&& a.to_tacc_addr == b.to_tacc_addr
    &&& a.block_height == b.block_height
    &&& a.pda_bump == b.pda_bump
    &&& a.amount_per_swap == b.amount_per_swap
    &&& a.start_ts == b.start_ts
    &&& a.interval_in_seconds == b.interval_in_seconds
    &&& a.is_paused == b.is_paused
}

/// Neither swaps nor deposits change the terms of a recurring swap; a deposit leaves the record of
/// the swaps as it is, and a swap that of the deposits.
pub proof fn terms_never_change(
    ddca: DdcaAccount,
    t: u64,
    before: VaultBalances,
    after: VaultBalances,
    deposit_amount: u64,
    now: u64,
)
    ensures
        same_terms(ddca, ddca.after_wake(t)),
        same_terms(ddca, ddca.after_swap(before, after)),
        same_terms(ddca, ddca.after_deposit(deposit_amount, now)),
        ddca.after_deposit(deposit_amount, now).last_completed_swap_ts
            == ddca.last_completed_swap_ts,
        ddca.after_deposit(deposit_amount, now).swap_count == ddca.swap_count,
        ddca.after_deposit(deposit_amount, now).swap_avg_rate == ddca.swap_avg_rate,
        ddca.after_wake(t).total_deposits_amount == ddca.total_deposits_amount,
        ddca.after_swap(before, after).total_deposits_amount == ddca.total_deposits_amount,
{
}

/// Whether the checkpoint `served[i]` is due at the time `times[i]`, the one before it in `served`,
/// or `last`, having been served last.
pub open spec fn serves(
    start: int,
    interval: int,
    last: int,
    times: Seq<int>,
    served: Seq<int>,
    i: int,
) -> bool {
    due(
        start,
        interval,
        if i == 0 {
            last
        } else {
            served[i - 1]
        },
        times[i],
        served[i],
    )
}

/// Whether the checkpoints `served` can be served one after the other at the times `times`, which
/// do not go back, where `last` was served before.
pub open spec fn is_run(
    start: int,
    interval: int,
    last: int,
    times: Seq<int>,
    served: Seq<int>,
) -> bool {
    &&& times.len() == served.len()
    &&& forall|i: int, j: int| 0 <= i <= j < times.len() ==> times[i] <= times[j]
    &&& forall|i: int|
        0 <= i < served.len() ==> #[trigger] serves(start, interval, last, times, served, i)
}

/// However many swaps are made, no checkpoint is served twice: of any two swaps, the later one
/// serves a checkpoint that is later by at least an interval for each swap in between and itself.
pub proof fn no_checkpoint_is_served_twice(
    start: int,
    interval: int,
    last: int,
    times: Seq<int>,
    served: Seq<int>,
    i: int,
    j: int,
)
    requires
        0 < interval,
        is_run(start, interval, last, times, served),
        0 <= i < j < served.len(),
    ensures
        served[i] + (j - i) * interval <= served[j],
        served[i] != served[j],
    decreases j - i,
{
    let earlier_last = if j == 1 {
        last
    } else {
        served[j - 2]
    };
    assert(serves(start, interval, last, times, served, j - 1));
    assert(serves(start, interval, last, times, served, j));
    next_due_checkpoint_is_later(
        start,
        interval,
        earlier_last,
        times[j - 1],
        served[j - 1],
        times[j],
        served[j],
    );
    if i < j - 1 {
        no_checkpoint_is_served_twice(start, interval, last, times, served, i, j - 1);
        assert((j - i) * interval == (j - 1 - i) * interval + interval) by (nonlinear_arith);
    } else {
        assert((j - i) * interval == interval) by (nonlinear_arith)
            requires
                j - i == 1,
        ;
    }
    assert(0 < (j - i) * interval) by (nonlinear_arith)
        requires
            0 < interval,
            0 < j - i,
    ;
}

/// The tolerance is at most a percent of the interval, and at most an hour.
pub proof fn tolerance_is_small(interval: int)
    requires
        0 <= interval,
    ensures
        0 <= tolerance(interval) <= 3600,
        100 * tolerance(interval) <= interval,
{
}

/// A swap can be asked for at any time from the start on, as long as the times around it are not
/// at the very ends of what 64 bits hold.
pub proof fn well_formed_account_can_be_woken(ddca: DdcaAccount, now: u64)
    requires
        ddca.well_formed(),
        tolerance(ddca.interval_in_seconds as int) <= ddca.start_ts <= now,
        now + ddca.interval_in_seconds + tolerance(ddca.interval_in_seconds as int) <= u64::MAX,
    ensures
        schedule_in_range(
            ddca.start_ts,
            ddca.interval_in_seconds,
            ddca.last_completed_swap_ts,
            now,
        ),
{
    checkpoints_enclose_now(ddca.start_ts as int, ddca.interval_in_seconds as int, now as int);
}

/// The average rate never falls, and never passes the rate of the swap that is counted in.
pub proof fn average_moves_towards_rate(
    ddca: DdcaAccount,
    before: VaultBalances,
    after: VaultBalances,
)
    requires
        ddca.swap_in_range(before, after),
    ensures
        ddca.swap_avg_rate <= ddca.after_swap(before, after).swap_avg_rate <= swap_rate(
            before,
            after,
        ),
{
    let gap = swap_rate(before, after) - ddca.swap_avg_rate;
    lemma_div_pos_is_pos(gap, ddca.swap_count + 1);
    lemma_div_nonincreasing(gap, ddca.swap_count + 1);
    lemma_div_nonincreasing(
        after.to_amount - before.to_amount,
        before.from_amount - after.from_amount,
    );
}

/// Deposits made one after the other come with the same lamports for fees as their sum: every swap
/// that the deposits pay for is given its fees.
pub proof fn fees_add_up(first: u64, second: u64, amount_per_swap: u64)
    requires
        0 < amount_per_swap,
        deposit_refusal(first, amount_per_swap) is None,
        deposit_refusal(second, amount_per_swap) is None,
        first + second <= u64::MAX,
    ensures
        recurring_fees(first, amount_per_swap) + recurring_fees(second, amount_per_swap)
            == recurring_fees((first + second) as u64, amount_per_swap),
{
    let d = amount_per_swap as int;
    let p = first as int / d;
    let q = second as int / d;
    lemma_fundamental_div_mod(first as int, d);
    lemma_fundamental_div_mod(second as int, d);
    assert(first + second == (p + q) * d + 0) by (nonlinear_arith)
        requires
            first == d * p,
            second == d * q,
    ;
    lemma_fundamental_div_mod_converse(first + second, d, p + q, 0);
}

/// The fee is never more than half a percent, and there is none on less than 200 tokens; the fee
/// on more is not less.
pub proof fn fee_is_half_a_percent(amount: u64, more: u64)
    requires
        amount <= more,
    ensures
        0 <= withdraw_fee(amount) <= amount,
        200 * withdraw_fee(amount) <= amount < 200 * (withdraw_fee(amount) + 1),
        withdraw_fee(amount) == 0 <==> amount < 200,
        withdraw_fee(amount) <= withdraw_fee(more),
{
    lemma_div_is_ordered(amount * 50, more * 50, 10000);
}

/// What the transfers among `calls` take out of `account`, less what they put into it.
pub open spec fn net_outflow(calls: Seq<TokenCall>, account: Pubkey) -> int
    decreases calls.len(),
{
    if calls.len() == 0 {
        0
    } else {
        net_outflow(calls.drop_last(), account) + match calls.last() {
            TokenCall::Transfer(context, amount) => (if context.accounts.from == account {
                amount as int
            } else {
                0
            }) - (if context.accounts.to == account {
                amount as int
            } else {
                0
            }),
            TokenCall::CloseAccount(_) => 0,
        }
    }
}

/// The outflow of two runs of calls is the sum of theirs.
pub(crate) proof fn lemma_net_outflow_adds(a: Seq<TokenCall>, b: Seq<TokenCall>, account: Pubkey)
    ensures
        net_outflow(a + b, account) == net_outflow(a, account) + net_outflow(b, account),
    decreases b.len(),
{
    if b.len() == 0 {
        assert(a + b =~= a);
    } else {
        assert((a + b).drop_last() =~= a + b.drop_last());
        assert((a + b).last() == b.last());
        lemma_net_outflow_adds(a, b.drop_last(), account);
    }
}

/// The outflow of a transfer that may be left out.
pub(crate) proof fn lemma_net_outflow_of_transfer(
    context: CpiContext<Transfer>,
    amount: int,
    account: Pubkey,
)
    requires
        0 <= amount <= u64::MAX,
    ensures
        net_outflow(transfer_unless_zero(context, amount), account) == (
        if context.accounts.from == account {
            amount
        } else {
            0
        }) - (if context.accounts.to == account {
            amount
        } else {
            0
        }),
{
    let calls = transfer_unless_zero(context, amount);
    reveal_with_fuel(net_outflow, 2);
    if amount > 0 {
        assert(calls.drop_last() =~= Seq::empty());
    }
}

/// The calls that settle a vault, but for its closing, move as much as the vault holds, and the
/// closing is the last of them.
proof fn lemma_settlement(
    amount: u64,
    fee: CpiContext<Transfer>,
    rest: CpiContext<Transfer>,
    closing: CpiContext<CloseAccount>,
    account: Pubkey,
)
    ensures
        settlement(amount, fee, rest, closing).len() > 0,
        settlement(amount, fee, rest, closing).last() == TokenCall::CloseAccount(closing),
        net_outflow(settlement(amount, fee, rest, closing).drop_last(), account) == net_outflow(
            transfer_unless_zero(fee, withdraw_fee(amount)),
            account,
        ) + net_outflow(transfer_unless_zero(rest, amount - withdraw_fee(amount)), account),
        net_outflow(settlement(amount, fee, rest, closing), account) == net_outflow(
            settlement(amount, fee, rest, closing).drop_last(),
            account,
        ),
{
    let first = transfer_unless_zero(fee, withdraw_fee(amount));
    let second = transfer_unless_zero(rest, amount - withdraw_fee(amount));
    let all = settlement(amount, fee, rest, closing);
    assert(all.drop_last() =~= first + second);
    lemma_net_outflow_adds(first, second, account);
}

/// When the vault of the tokens that were not swapped is closed, it is empty: the fee and what its
/// owner gets are all that it held. The vault is none of the accounts that anything of it goes to.
pub proof fn from_vault_is_empty_when_closed(accounts: CloseInputAccounts)
    requires
        0 < withdraw_fee(accounts.ddca_from_token_account.data.amount)
            ==> accounts.ddca_from_token_account.key != accounts.operating_from_token_account.key,
        0 < accounts.ddca_from_token_account.data.amount ==> accounts.ddca_from_token_account.key
            != accounts.owner_from_token_account.key,
    ensures
        accounts.from_settlement().len() > 0,
        accounts.from_settlement().last() == TokenCall::CloseAccount(
            accounts.vault_closing(accounts.ddca_from_token_account.key),
        ),
        net_outflow(
            accounts.from_settlement().drop_last(),
            accounts.ddca_from_token_account.key,
        ) == accounts.ddca_from_token_account.data.amount,
{
    let amount = accounts.ddca_from_token_account.data.amount;
    let vault = accounts.ddca_from_token_account.key;
    let fee = accounts.vault_transfer(vault, accounts.operating_from_token_account.key);
    let rest = accounts.vault_transfer(vault, accounts.owner_from_token_account.key);
    fee_is_half_a_percent(amount, amount);
    lemma_settlement(amount, fee, rest, accounts.vault_closing(vault), vault);
    lemma_net_outflow_of_transfer(fee, withdraw_fee(amount), vault);
    lemma_net_outflow_of_transfer(rest, amount - withdraw_fee(amount), vault);
}

/// When the vault of the tokens that were swapped for is closed, which is the last call of all, it
/// is empty: the fee and what its owner gets are all that it held. The vault has no part in what
/// the other vault gave away, and is none of the accounts that anything of it goes to.
pub proof fn to_vault_is_empty_when_closed(accounts: CloseInputAccounts)
    requires
        0 < accounts.ddca_from_token_account.data.amount ==> {
            &&& accounts.ddca_to_token_account.key != accounts.ddca_from_token_account.key
            &&& accounts.ddca_to_token_account.key != accounts.owner_from_token_account.key
        },
        0 < withdraw_fee(accounts.ddca_from_token_account.data.amount)
            ==> accounts.ddca_to_token_account.key != accounts.operating_from_token_account.key,
        0 < withdraw_fee(accounts.ddca_to_token_account.data.amount)
            ==> accounts.ddca_to_token_account.key != accounts.operating_to_token_account.key,
        0 < accounts.ddca_to_token_account.data.amount ==> accounts.ddca_to_token_account.key
            != accounts.owner_to_token_account.key,
    ensures
        (accounts.from_settlement() + accounts.to_settlement()).last() == TokenCall::CloseAccount(
            accounts.vault_closing(accounts.ddca_to_token_account.key),
        ),
        net_outflow(
            (accounts.from_settlement() + accounts.to_settlement()).drop_last(),
            accounts.ddca_to_token_account.key,
        ) == accounts.ddca_to_token_account.data.amount,
{
    let vault = accounts.ddca_to_token_account.key;

    let from_amount = accounts.ddca_from_token_account.data.amount;
    let from_vault = accounts.ddca_from_token_account.key;
    let from_fee = accounts.vault_transfer(from_vault, accounts.operating_from_token_account.key);
    let from_rest = accounts.vault_transfer(from_vault, accounts.owner_from_token_account.key);
    fee_is_half_a_percent(from_amount, from_amount);
    lemma_settlement(from_amount, from_fee, from_rest, accounts.vault_closing(from_vault), vault);
    lemma_net_outflow_of_transfer(from_fee, withdraw_fee(from_amount), vault);
    lemma_net_outflow_of_transfer(from_rest, from_amount - withdraw_fee(from_amount), vault);

    let amount = accounts.ddca_to_token_account.data.amount;
    let fee = accounts.vault_transfer(vault, accounts.operating_to_token_account.key);
    let rest = accounts.vault_transfer(vault, accounts.owner_to_token_account.key);
    fee_is_half_a_percent(amount, amount);
    lemma_settlement(amount, fee, rest, accounts.vault_closing(vault), vault);
    lemma_net_outflow_of_transfer(fee, withdraw_fee(amount), vault);
    lemma_net_outflow_of_transfer(rest, amount - withdraw_fee(amount), vault);

    let from = accounts.from_settlement();
    let to = accounts.to_settlement();
    assert((from + to).drop_last() =~= from + to.drop_last());
    lemma_net_outflow_adds(from, to.drop_last(), vault);
}

/// The bytes of the seeds of an account, one after the other.
proof fn lemma_flattened_seeds(owner: Pubkey, block_height: u64, pda_bump: u8)
    ensures
        ddca_seeds(owner, block_height, pda_bump).flatten() == owner@ + be_bytes(
            block_height as nat,
            8,
        ) + SEED_LABEL@ + seq![pda_bump],
{
    let seeds = ddca_seeds(owner, block_height, pda_bump);
    reveal_with_fuel(Seq::flatten, 5);
    assert(seeds.drop_first().drop_first().drop_first().drop_first().flatten() =~= Seq::empty());
    assert(seeds.flatten() =~= owner@ + be_bytes(block_height as nat, 8) + SEED_LABEL@
        + seq![pda_bump]);
}

/// The seeds, even when run together, tell one account of the program from all others.
pub proof fn seeds_identify_account(
    owner_a: Pubkey,
    block_height_a: u64,
    pda_bump_a: u8,
    owner_b: Pubkey,
    block_height_b: u64,
    pda_bump_b: u8,
)
    requires
        ddca_seeds(owner_a, block_height_a, pda_bump_a).flatten() == ddca_seeds(
            owner_b,
            block_height_b,
            pda_bump_b,
        ).flatten(),
    ensures
        owner_a == owner_b,
        block_height_a == block_height_b,
        pda_bump_a == pda_bump_b,
{
    lemma_flattened_seeds(owner_a, block_height_a, pda_bump_a);
    lemma_flattened_seeds(owner_b, block_height_b, pda_bump_b);
    be_bytes_len(block_height_a as nat, 8);
    be_bytes_len(block_height_b as nat, 8);
    let all_a = owner_a@ + be_bytes(block_height_a as nat, 8) + SEED_LABEL@ + seq![pda_bump_a];
    let all_b = owner_b@ + be_bytes(block_height_b as nat, 8) + SEED_LABEL@ + seq![pda_bump_b];
    assert(owner_a@ =~= all_a.subrange(0, 32));
    assert(owner_b@ =~= all_b.subrange(0, 32));
    pubkey_determined_by_bytes(owner_a, owner_b);
    assert(be_bytes(block_height_a as nat, 8) =~= all_a.subrange(32, 40));
    assert(be_bytes(block_height_b as nat, 8) =~= all_b.subrange(32, 40));
    byte_range_of_u64();
    be_bytes_injective(block_height_a as nat, block_height_b as nat, 8);
    assert(all_a.last() == pda_bump_a);
    assert(all_b.last() == pda_bump_b);
}

/// The program signs for a recurring swap with the seeds it was made with: on the terms that
/// `create` sets, which never change, the seeds that a swap signs with are those of its owner, its
/// block height and its bump, and the seeds that a closing signs with are the same, because only
/// the owner may close.
pub proof fn same_seeds_from_creation_to_closing(
    creation: CreateInputAccounts,
    block_height: u64,
    pda_bump: u8,
    deposit_amount: u64,
    amount_per_swap: u64,
    interval_in_seconds: u64,
    now: u64,
    later: DdcaAccount,
    closing: CloseInputAccounts,
)
    requires
        same_terms(
            creation.created(
                block_height,
                pda_bump,
                deposit_amount,
                amount_per_swap,
                interval_in_seconds,
                now,
            ),
            later,
        ),
        closing.ddca_account.data == later,
        closing.owner_matches(),
    ensures
        ddca_seeds(later.owner_acc_addr, later.block_height, later.pda_bump) == ddca_seeds(
            creation.owner_account,
            block_height,
            pda_bump,
        ),
        ddca_seeds(
            closing.owner_account,
            closing.ddca_account.data.block_height,
            closing.ddca_account.data.pda_bump,
        ) == ddca_seeds(creation.owner_account, block_height, pda_bump),
{
}

} // verus!
