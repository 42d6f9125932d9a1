//! What each operation does, said of its arguments and of what it returns or leaves behind.
use crate::accounts::{
    AddFundsInputAccounts, CloseInputAccounts, CreateInputAccounts, WakeAndSwapInputAccounts,
};
use crate::bytes::{
    be_bytes, byte_range, byte_range_of_u64, le_bytes, le_value, le_value_of_le_bytes,
};
use crate::closing::{close_in_range, settlement, transfer_unless_zero, withdraw_fee, Closing};
use crate::constants::{DDCA_OPERATING_ACCOUNT_ID, HLA_OPS_ACCOUNT_ID, SEED_LABEL};
use crate::cpi::{
    ddca_seeds, is_system_transfer, CpiContext, Instruction, TokenCall, Transfer,
};
use crate::entry::{add_funds_refusal, close_refusal, create_refusal, wake_refusal, Refusal};
use crate::error::{ConstraintError, ErrorCode};
use crate::funding::{
    add_funds_in_range, create_in_range, deposit_refusal, first_deposit_refusal, is_deposit,
    Deposit,
};
use crate::laws::{lemma_net_outflow_adds, lemma_net_outflow_of_transfer, net_outflow};
use crate::pubkey::Pubkey;
use crate::schedule::{checkpoints_enclose_now, on_schedule, schedule_in_range, tolerance};
use crate::state::{clock_seconds, DdcaAccount};
use crate::swap::{swap_rate, swap_refusal, wake_in_range, SwapCall};
use crate::token::VaultBalances;
use vstd::arithmetic::div_mod::{
    lemma_div_pos_is_pos, lemma_fundamental_div_mod, lemma_fundamental_div_mod_converse,
};
use vstd::prelude::*;

verus! {

// The schedule.

/// The tolerance is the largest number of seconds that is at most an hour and at most a percent of
/// the interval.
pub proof fn tolerance_is_the_largest(interval: int, seconds: int)
    requires
        0 <= interval,
    ensures
        360000 <= interval ==> tolerance(interval) == 3600,
        interval < 360000 ==> 100 * tolerance(interval) <= interval < 100 * (tolerance(interval)
            + 1),
        seconds <= tolerance(interval) <==> seconds <= 3600 && 100 * seconds <= interval,
{
}

/// The checkpoints are the start and every whole number of intervals after it, and no other time
/// is one: `t`, which lies `r` seconds after the `k`-th, is a checkpoint only if `r` is zero.
pub proof fn checkpoints_are_multiples(start: int, interval: int, k: int, r: int)
    requires
        0 < interval,
        0 <= r < interval,
    ensures
        on_schedule(start, interval, start + k * interval + r) <==> 0 <= k && r == 0,
{
    let t = start + k * interval + r;
    assert(t - start == k * interval + r);
    lemma_fundamental_div_mod_converse(t - start, interval, k, r);
    if 0 <= k {
        assert(0 <= k * interval) by (nonlinear_arith)
            requires
                0 <= k,
                0 < interval,
        ;
    } else {
        assert(k * interval <= -interval) by (nonlinear_arith)
            requires
                k <= -1,
                0 < interval,
        ;
    }
}

/// The `k`-th checkpoint of a recurring swap is due at exactly the times that are at most an hour,
/// and at most a percent of the interval, away from it, unless it is the one served last.
pub proof fn checkpoint_is_due_within_its_window(ddca: DdcaAccount, now: u64, k: int)
    requires
        0 < ddca.interval_in_seconds,
    ensures
        ({
            let t = ddca.start_ts + k * ddca.interval_in_seconds;
            ddca.is_due(now, t) <==> {
                &&& 0 <= k
                &&& -3600 <= now - t <= 3600
                &&& -ddca.interval_in_seconds <= 100 * (now - t) <= ddca.interval_in_seconds
                &&& t != ddca.last_completed_swap_ts
            }
        }),
{
    let interval = ddca.interval_in_seconds as int;
    checkpoints_are_multiples(ddca.start_ts as int, interval, k, 0);
    let t = ddca.start_ts + k * interval;
    tolerance_is_the_largest(interval, now - t);
    tolerance_is_the_largest(interval, t - now);
}

/// Nothing but a checkpoint is ever due.
pub proof fn only_checkpoints_are_due(ddca: DdcaAccount, now: u64, t: int) -> (k: int)
    requires
        0 < ddca.interval_in_seconds,
        ddca.is_due(now, t),
    ensures
        0 <= k,
        t == ddca.start_ts + k * ddca.interval_in_seconds,
{
    let start = ddca.start_ts as int;
    let interval = ddca.interval_in_seconds as int;
    let k = (t - start) / interval;
    lemma_fundamental_div_mod(t - start, interval);
    lemma_div_pos_is_pos(t - start, interval);
    assert(interval * k == k * interval) by (nonlinear_arith);
    k
}

/// With an interval of a week or more, a checkpoint that is not the one served last is due at
/// every time within an hour of it, and at no other.
pub proof fn weekly_checkpoint_is_due_for_an_hour_each_way(ddca: DdcaAccount, now: u64, k: int)
    requires
        604800 <= ddca.interval_in_seconds,
        0 <= k,
        ddca.start_ts + k * ddca.interval_in_seconds != ddca.last_completed_swap_ts,
    ensures
        ddca.is_due(now, ddca.start_ts + k * ddca.interval_in_seconds) <==> -3600 <= now - (
        ddca.start_ts + k * ddca.interval_in_seconds) <= 3600,
{
    checkpoint_is_due_within_its_window(ddca, now, k);
}

/// What has to fit in 64 bits for a swap request to be looked at: the checkpoint after `now`; the
/// beginning of the window around the one before, unless that was served last; and the end of the
/// window around the one after, if it is asked about. Here `before` is the checkpoint before `now`,
/// and `margin` the tolerance.
pub proof fn schedule_range(
    start: u64,
    interval: u64,
    last: u64,
    now: u64,
    k: int,
    before: int,
    margin: int,
)
    requires
        0 < interval,
        start <= now,
        before == start + k * interval,
        before <= now < before + interval,
        0 <= margin <= 3600,
        100 * margin <= interval,
        margin == 3600 || interval < 100 * (margin + 1),
    ensures
        schedule_in_range(start, interval, last, now) <==> {
            &&& before + interval <= u64::MAX
            &&& last == before || margin <= before
            &&& {
                ||| last != before && now <= before + margin
                ||| last == before + interval
                ||| now < before + interval - margin
                ||| before + interval + margin <= u64::MAX
            }
        },
{
    checkpoints_enclose_now(start as int, interval as int, now as int);
    lemma_fundamental_div_mod_converse(now - start, interval as int, k, now - before);
    assert(margin == tolerance(interval as int));
}

/// Without an interval, or before the start, there is nothing to look at.
pub proof fn schedule_range_needs_an_interval_and_a_start(
    start: u64,
    interval: u64,
    last: u64,
    now: u64,
)
    requires
        interval == 0 || now < start,
    ensures
        !schedule_in_range(start, interval, last, now),
{
}

/// Any ordinary time is in range: from the start on, where the start is more than an hour after
/// zero, and an interval and an hour before the end of what 64 bits hold.
pub proof fn ordinary_times_are_in_range(ddca: DdcaAccount, now: u64)
    requires
        0 < ddca.interval_in_seconds,
        3600 <= ddca.start_ts <= now,
        now + ddca.interval_in_seconds + 3600 <= u64::MAX,
    ensures
        schedule_in_range(
            ddca.start_ts,
            ddca.interval_in_seconds,
            ddca.last_completed_swap_ts,
            now,
        ),
{
    checkpoints_enclose_now(ddca.start_ts as int, ddca.interval_in_seconds as int, now as int);
}

/// The clock is read as it stands, and wraps around only before the epoch.
pub proof fn clock_is_read_as_it_stands(unix_timestamp: i64)
    ensures
        0 <= unix_timestamp ==> clock_seconds(unix_timestamp) == unix_timestamp,
        unix_timestamp < 0 ==> clock_seconds(unix_timestamp) == unix_timestamp
            + 18446744073709551616,
{
}

// Creation and deposits.

/// A recurring swap is made on the terms that were asked for: every argument, and every account
/// that was handed over, is found again in its state, it starts now, and the rest of the state and
/// the other accounts are left as they were.
pub proof fn creation_keeps_to_the_terms(
    accounts: CreateInputAccounts,
    block_height: u64,
    pda_bump: u8,
    deposit_amount: u64,
    amount_per_swap: u64,
    interval_in_seconds: u64,
    now: u64,
)
    ensures
        ({
            let after = accounts.after_create(
                block_height,
                pda_bump,
                deposit_amount,
                amount_per_swap,
                interval_in_seconds,
                now,
            );
            let before = accounts.ddca_account.data;
            let made = after.ddca_account.data;
            &&& made.owner_acc_addr == accounts.owner_account
            &&& made.from_mint == accounts.from_mint.key
            &&& made.from_mint_decimals == accounts.from_mint.data.decimals
            &&& made.from_tacc_addr == accounts.from_token_account.key
            &&& made.to_mint == accounts.to_mint.key
            &&& made.to_mint_decimals == accounts.to_mint.data.decimals
            &&& made.to_tacc_addr == accounts.to_token_account.key
            &&& made.block_height == block_height
            &&& made.pda_bump == pda_bump
            &&& made.total_deposits_amount == deposit_amount
            &&& made.amount_per_swap == amount_per_swap
            &&& made.interval_in_seconds == interval_in_seconds
            &&& made.start_ts == now
            &&& made.last_deposit_ts == now
            &&& made.last_completed_swap_ts == before.last_completed_swap_ts
            &&& made.is_paused == before.is_paused
            &&& made.swap_count == before.swap_count
            &&& made.swap_avg_rate == before.swap_avg_rate
            &&& after.ddca_account.key == accounts.ddca_account.key
            &&& after.owner_account == accounts.owner_account
            &&& after.owner_from_token_account == accounts.owner_from_token_account
            &&& after.from_mint == accounts.from_mint
            &&& after.from_token_account == accounts.from_token_account
            &&& after.to_mint == accounts.to_mint
            &&& after.to_token_account == accounts.to_token_account
            &&& after.token_program == accounts.token_program
        }),
{
}

/// The first checkpoint is at the time of the creation, the second one interval after it, and
/// there is none before, nor in between.
pub proof fn first_two_checkpoints(
    accounts: CreateInputAccounts,
    block_height: u64,
    pda_bump: u8,
    deposit_amount: u64,
    amount_per_swap: u64,
    interval_in_seconds: u64,
    now: u64,
    t: int,
)
    requires
        0 < interval_in_seconds,
    ensures
        ({
            let made = accounts.after_create(
                block_height,
                pda_bump,
                deposit_amount,
                amount_per_swap,
                interval_in_seconds,
                now,
            ).ddca_account.data;
            let start = made.start_ts as int;
            let interval = made.interval_in_seconds as int;
            &&& on_schedule(start, interval, now as int)
            &&& on_schedule(start, interval, now + interval_in_seconds)
            &&& t < now || now < t < now + interval_in_seconds ==> !on_schedule(
                start,
                interval,
                t,
            )
        }),
{
    let interval = interval_in_seconds as int;
    assert(0 * interval == 0 && 1 * interval == interval) by (nonlinear_arith);
    checkpoints_are_multiples(now as int, interval, 0, 0);
    checkpoints_are_multiples(now as int, interval, 1, 0);
    if now < t < now + interval {
        checkpoints_are_multiples(now as int, interval, 0, t - now);
    }
}

/// A deposit is accepted if and only if it is a whole number of swaps: `n` swaps and `r` tokens are
/// refused unless `r` is zero.
pub proof fn deposits_are_whole_numbers_of_swaps(
    deposit_amount: u64,
    amount_per_swap: u64,
    n: int,
    r: int,
)
    requires
        0 <= r < amount_per_swap,
        deposit_amount == n * amount_per_swap + r,
    ensures
        r == 0 ==> deposit_refusal(deposit_amount, amount_per_swap) == None::<ErrorCode>,
        r != 0 ==> deposit_refusal(deposit_amount, amount_per_swap) == Some(
            ErrorCode::InvalidAmounts,
        ),
        r != 0 ==> first_deposit_refusal(deposit_amount, amount_per_swap) == Some(
            ErrorCode::InvalidAmounts,
        ),
        r == 0 && n <= 1 ==> first_deposit_refusal(deposit_amount, amount_per_swap) == Some(
            ErrorCode::InvalidSwapsCount,
        ),
        r == 0 && 1 < n ==> first_deposit_refusal(deposit_amount, amount_per_swap) == None::<
            ErrorCode,
        >,
{
    lemma_fundamental_div_mod_converse(deposit_amount as int, amount_per_swap as int, n, r);
}

/// Whatever the amount per swap, a deposit for `n` swaps moves `n` times that amount of tokens, by
/// the transfer given, and `n` times twenty million lamports, from the owner to the account of the
/// recurring swap.
pub proof fn deposit_moves_tokens_and_fees(
    deposit: Deposit,
    owner: Pubkey,
    ddca: Pubkey,
    transfer: CpiContext<Transfer>,
    deposit_amount: u64,
    amount_per_swap: u64,
    n: int,
)
    requires
        0 < amount_per_swap,
        deposit_amount == n * amount_per_swap,
        is_deposit(deposit, owner, ddca, transfer, deposit_amount, amount_per_swap),
    ensures
        deposit.swap_count == n,
        deposit.lamports == n * 20000000,
        deposit.lamports == deposit.swap_count * 20000000,
        deposit.amount == n * amount_per_swap,
        deposit.transfer == transfer,
        deposit.gas.accounts@.len() == 2,
        deposit.gas.accounts@[0].pubkey == owner,
        deposit.gas.accounts@[1].pubkey == ddca,
        deposit.gas.data@.len() == 12,
        le_value(deposit.gas.data@.subrange(4, 12)) == n * 20000000,
{
    lemma_fundamental_div_mod_converse(deposit_amount as int, amount_per_swap as int, n, 0);
    system_transfer_says_what_it_moves(deposit.gas, owner, ddca, deposit.lamports);
}

/// The instruction that moves lamports names the system program, whose address is all zeros, has
/// the payer sign, lets both accounts change, and spells the number of the instruction and the
/// lamports, lowest byte first.
pub proof fn system_transfer_says_what_it_moves(
    instruction: Instruction,
    from: Pubkey,
    to: Pubkey,
    lamports: u64,
)
    requires
        is_system_transfer(instruction, from, to, lamports),
    ensures
        forall|i: int| 0 <= i < 32 ==> #[trigger] instruction.program_id.bytes@[i] == 0,
        instruction.accounts@.len() == 2,
        instruction.accounts@[0].pubkey == from,
        instruction.accounts@[0].is_signer,
        instruction.accounts@[0].is_writable,
        instruction.accounts@[1].pubkey == to,
        !instruction.accounts@[1].is_signer,
        instruction.accounts@[1].is_writable,
        instruction.data@.len() == 12,
        instruction.data@[0] == 2,
        instruction.data@[1] == 0,
        instruction.data@[2] == 0,
        instruction.data@[3] == 0,
        le_value(instruction.data@.subrange(4, 12)) == lamports,
        le_value(instruction.data@.subrange(0, 4)) == 2,
{
    reveal_with_fuel(le_bytes, 9);
    let number = le_bytes(2, 4);
    let spelled = le_bytes(lamports as nat, 8);
    assert(number.len() == 4 && spelled.len() == 8);
    assert(number =~= seq![2u8, 0u8, 0u8, 0u8]);
    assert(instruction.data@.subrange(4, 12) =~= spelled);
    assert(instruction.data@.subrange(0, 4) =~= number);
    byte_range_of_u64();
    le_value_of_le_bytes(lamports as nat, 8);
    le_value_by_weight(spelled);
    assert(le_value(number) == 2) by {
        reveal_with_fuel(byte_range, 5);
        le_value_of_le_bytes(2, 4);
    }
    assert forall|i: int| 0 <= i < 32 implies #[trigger] instruction.program_id.bytes@[i] == 0 by {
        assert(instruction.program_id@[i] == 0);
    }
}

/// Eight bytes spell a number, lowest first, each weighing 256 times the one before it.
pub proof fn le_value_by_weight(b: Seq<u8>)
    requires
        b.len() == 8,
    ensures
        le_value(b) == b[0] + 0x100 * b[1] + 0x10000 * b[2] + 0x1000000 * b[3] + 0x100000000 * b[4]
            + 0x10000000000 * b[5] + 0x1000000000000 * b[6] + 0x100000000000000 * b[7],
{
    reveal_with_fuel(le_value, 9);
    let c = b.drop_first();
    let d = c.drop_first();
    let e = d.drop_first();
    let f = e.drop_first();
    let g = f.drop_first();
    let h = g.drop_first();
    let i = h.drop_first();
    assert(c[0] == b[1] && d[0] == b[2] && e[0] == b[3] && f[0] == b[4] && g[0] == b[5] && h[0]
        == b[6] && i[0] == b[7]);
    assert(i.drop_first().len() == 0);
}

/// The eight bytes of a number, highest first, each weigh 256 times the one after it.
pub proof fn be_bytes_by_weight(x: u64)
    ensures
        be_bytes(x as nat, 8).len() == 8,
        ({
            let b = be_bytes(x as nat, 8);
            x == b[7] + 0x100 * b[6] + 0x10000 * b[5] + 0x1000000 * b[4] + 0x100000000 * b[3]
                + 0x10000000000 * b[2] + 0x1000000000000 * b[1] + 0x100000000000000 * b[0]
        }),
{
    reveal_with_fuel(be_bytes, 9);
}

/// The deposit that comes with a creation goes from the owner's tokens to the vault, on the
/// owner's word, through the token program that was handed over.
pub proof fn first_deposit_goes_to_the_vault(accounts: CreateInputAccounts)
    ensures
        accounts.transfer_to_vault().program == accounts.token_program,
        accounts.transfer_to_vault().accounts.from == accounts.owner_from_token_account.key,
        accounts.transfer_to_vault().accounts.to == accounts.from_token_account.key,
        accounts.transfer_to_vault().accounts.authority == accounts.owner_account,
{
}

/// A further deposit goes from the owner's tokens to the vault, on the owner's word, through the
/// token program that was handed over.
pub proof fn further_deposit_goes_to_the_vault(accounts: AddFundsInputAccounts)
    ensures
        accounts.transfer_to_ddca().program == accounts.token_program,
        accounts.transfer_to_ddca().accounts.from == accounts.owner_from_token_account.key,
        accounts.transfer_to_ddca().accounts.to == accounts.from_token_account.key,
        accounts.transfer_to_ddca().accounts.authority == accounts.owner_account,
{
}

/// Whether two states agree on everything but the deposits.
pub open spec fn same_but_for_deposits(a: DdcaAccount, b: DdcaAccount) -> bool {
    &&& same_identity(a, b)
    &&& a.last_completed_swap_ts == b.last_completed_swap_ts
    &&& a.swap_count == b.swap_count
    &&& a.swap_avg_rate == b.swap_avg_rate
}

/// Whether two states agree on all that neither swaps nor deposits may change.
pub open spec fn same_identity(a: DdcaAccount, b: DdcaAccount) -> bool {
    &&& a.owner_acc_addr == b.owner_acc_addr
    &&& a.from_mint == b.from_mint
    &&& a.from_mint_decimals == b.from_mint_decimals
    &&& a.from_tacc_addr == b.from_tacc_addr
    &&& a.to_mint == b.to_mint
    &&& a.to_mint_decimals == b.to_mint_decimals
    &&& a.to_tacc_addr == b.to_tacc_addr
    &&& a.block_height == b.block_height
    &&& a.pda_bump == b.pda_bump
    &&& a.amount_per_swap == b.amount_per_swap
    &&& a.start_ts == b.start_ts
    &&& a.interval_in_seconds == b.interval_in_seconds
    &&& a.is_paused == b.is_paused
}

/// A further deposit is added to the deposits so far, and its time is noted; nothing else changes.
pub proof fn further_deposit_is_added(
    accounts: AddFundsInputAccounts,
    deposit_amount: u64,
    now: u64,
)
    requires
        accounts.ddca_account.data.total_deposits_amount + deposit_amount <= u64::MAX,
    ensures
        ({
            let after = accounts.after_add_funds(deposit_amount, now);
            let ddca = accounts.ddca_account.data;
            let added = after.ddca_account.data;
            &&& added.total_deposits_amount == ddca.total_deposits_amount + deposit_amount
            &&& added.last_deposit_ts == now
            &&& same_but_for_deposits(ddca, added)
            &&& ddca.after_deposit(deposit_amount, now) == added
            &&& after.ddca_account.key == accounts.ddca_account.key
            &&& after.owner_account == accounts.owner_account
            &&& after.owner_from_token_account == accounts.owner_from_token_account
            &&& after.from_token_account == accounts.from_token_account
            &&& after.token_program == accounts.token_program
        }),
{
}

/// Whether a first deposit for `n` swaps and `r` tokens can be dealt with: unless it is refused,
/// the fees of the swaps have to fit in 64 bits.
pub proof fn range_of_first_deposits(deposit_amount: u64, amount_per_swap: u64, n: int, r: int)
    requires
        0 <= r < amount_per_swap,
        deposit_amount == n * amount_per_swap + r,
    ensures
        create_in_range(deposit_amount, amount_per_swap) <==> r != 0 || n <= 1 || n * 20000000
            <= u64::MAX,
{
    deposits_are_whole_numbers_of_swaps(deposit_amount, amount_per_swap, n, r);
    lemma_fundamental_div_mod_converse(deposit_amount as int, amount_per_swap as int, n, r);
}

/// Whether a further deposit for `n` swaps and `r` tokens can be dealt with: unless it is refused,
/// the fees of the swaps, and the sum of the deposits, have to fit in 64 bits.
pub proof fn range_of_further_deposits(ddca: DdcaAccount, deposit_amount: u64, n: int, r: int)
    requires
        0 <= r < ddca.amount_per_swap,
        deposit_amount == n * ddca.amount_per_swap + r,
    ensures
        add_funds_in_range(ddca, deposit_amount) <==> r != 0 || {
            &&& n * 20000000 <= u64::MAX
            &&& ddca.total_deposits_amount + deposit_amount <= u64::MAX
        },
{
    deposits_are_whole_numbers_of_swaps(deposit_amount, ddca.amount_per_swap, n, r);
    lemma_fundamental_div_mod_converse(deposit_amount as int, ddca.amount_per_swap as int, n, r);
}

/// No deposit can be dealt with where a swap is of nothing.
pub proof fn swaps_of_nothing_are_out_of_range(ddca: DdcaAccount, deposit_amount: u64)
    ensures
        !create_in_range(deposit_amount, 0),
        ddca.amount_per_swap == 0 ==> !add_funds_in_range(ddca, deposit_amount),
{
}

// Swaps.

/// Serving a checkpoint notes it and counts the swap; nothing else changes.
pub proof fn wake_notes_the_checkpoint(accounts: WakeAndSwapInputAccounts, t: u64)
    requires
        accounts.ddca_account.data.swap_count < u64::MAX,
    ensures
        ({
            let after = accounts.after_wake(t);
            let ddca = accounts.ddca_account.data;
            let woken = after.ddca_account.data;
            &&& woken.last_completed_swap_ts == t
            &&& woken.swap_count == ddca.swap_count + 1
            &&& woken.swap_avg_rate == ddca.swap_avg_rate
            &&& woken.total_deposits_amount == ddca.total_deposits_amount
            &&& woken.last_deposit_ts == ddca.last_deposit_ts
            &&& same_identity(ddca, woken)
            &&& ddca.after_wake(t) == woken
            &&& after.ddca_account.key == accounts.ddca_account.key
            &&& after.owner_account == accounts.owner_account
            &&& after.from_mint == accounts.from_mint
            &&& after.from_token_account == accounts.from_token_account
            &&& after.to_mint == accounts.to_mint
            &&& after.to_token_account == accounts.to_token_account
            &&& after.hla_program == accounts.hla_program
            &&& after.hla_operating_account == accounts.hla_operating_account
            &&& after.hla_operating_from_token_account == accounts.hla_operating_from_token_account
            &&& after.token_program == accounts.token_program
        }),
{
}

/// A swap request is refused while swaps are paused; otherwise for a slippage of none or of more
/// than a hundred; otherwise where the vault holds less than one swap; and for nothing else that
/// does not depend on the time.
pub proof fn when_swaps_are_refused(accounts: WakeAndSwapInputAccounts, swap_slippage: u64)
    ensures
        ({
            let refusal = swap_refusal(accounts, swap_slippage);
            let paused = accounts.ddca_account.data.is_paused;
            let slippage_is_fine = 1 <= swap_slippage <= 100;
            let funded = accounts.ddca_account.data.amount_per_swap
                <= accounts.from_token_account.data.amount;
            &&& refusal == Some(ErrorCode::DdcaIsPaused) <==> paused
            &&& refusal == Some(ErrorCode::InvalidSwapSlippage) <==> !paused && !slippage_is_fine
            &&& refusal == Some(ErrorCode::InsufficientBalanceForSwap) <==> !paused
                && slippage_is_fine && !funded
            &&& refusal == None::<ErrorCode> <==> !paused && slippage_is_fine && funded
        }),
{
}

/// What the liquidity aggregator is asked for: the agreed amount, with the limits that were given,
/// between the accounts that were handed over, on behalf of the recurring swap and with its seeds.
pub proof fn swap_call_asks_for_the_agreed_swap(
    accounts: WakeAndSwapInputAccounts,
    call: SwapCall,
    swap_min_out_amount: u64,
    swap_slippage: u64,
)
    requires
        accounts.is_swap_call(call, swap_min_out_amount, swap_slippage),
    ensures
        call.amount == accounts.ddca_account.data.amount_per_swap,
        call.min_out_amount == swap_min_out_amount,
        call.slippage == swap_slippage,
        call.context.program == accounts.hla_program,
        call.context.accounts.hla_ops_account == accounts.hla_operating_account,
        call.context.accounts.hla_ops_token_account
            == accounts.hla_operating_from_token_account.key,
        call.context.accounts.vault_account == accounts.ddca_account.key,
        call.context.accounts.from_token_account == accounts.from_token_account.key,
        call.context.accounts.from_token_mint == accounts.from_mint.key,
        call.context.accounts.to_token_account == accounts.to_token_account.key,
        call.context.accounts.to_token_mint == accounts.to_mint.key,
        call.context.accounts.token_program_account == accounts.token_program,
        are_seeds_of(
            call.seeds@,
            accounts.ddca_account.data.owner_acc_addr,
            accounts.ddca_account.data.block_height,
            accounts.ddca_account.data.pda_bump,
        ),
{
    seeds_spell_the_account(
        accounts.ddca_account.data.owner_acc_addr,
        accounts.ddca_account.data.block_height,
        accounts.ddca_account.data.pda_bump,
    );
}

/// Whether `seeds` are four: the bytes of the owner, the block height in eight bytes, highest
/// first, the letters of `ddca-seed`, and the bump in one byte.
pub open spec fn are_seeds_of(
    seeds: Seq<Seq<u8>>,
    owner: Pubkey,
    block_height: u64,
    pda_bump: u8,
) -> bool {
    &&& seeds.len() == 4
    &&& seeds[0] == owner.bytes@
    &&& seeds[1].len() == 8
    &&& block_height == seeds[1][7] + 0x100 * seeds[1][6] + 0x10000 * seeds[1][5] + 0x1000000
        * seeds[1][4] + 0x100000000 * seeds[1][3] + 0x10000000000 * seeds[1][2] + 0x1000000000000
        * seeds[1][1] + 0x100000000000000 * seeds[1][0]
    &&& seeds[2] == seq![100u8, 100u8, 99u8, 97u8, 45u8, 115u8, 101u8, 101u8, 100u8]
    &&& seeds[3] == seq![pda_bump]
}

/// The seeds of an account spell its owner, its block height, the label of the program and its
/// bump.
pub proof fn seeds_spell_the_account(owner: Pubkey, block_height: u64, pda_bump: u8)
    ensures
        are_seeds_of(ddca_seeds(owner, block_height, pda_bump), owner, block_height, pda_bump),
{
    be_bytes_by_weight(block_height);
    assert(SEED_LABEL@ =~= seq![
        100u8,
        100u8,
        99u8,
        97u8,
        45u8,
        115u8,
        101u8,
        101u8,
        100u8,
    ]);
}

/// The rate of a swap is the whole number of tokens that came in for each that went out.
pub proof fn rate_is_in_over_out(before: VaultBalances, after: VaultBalances)
    requires
        after.from_amount < before.from_amount,
        before.to_amount <= after.to_amount,
    ensures
        ({
            let rate = swap_rate(before, after);
            let went_out = before.from_amount - after.from_amount;
            let came_in = after.to_amount - before.to_amount;
            rate * went_out <= came_in < (rate + 1) * went_out
        }),
{
    let rate = swap_rate(before, after);
    let went_out = before.from_amount - after.from_amount;
    let came_in = after.to_amount - before.to_amount;
    lemma_fundamental_div_mod(came_in, went_out);
    assert(went_out * rate == rate * went_out) by (nonlinear_arith);
    assert((rate + 1) * went_out == rate * went_out + went_out) by (nonlinear_arith);
}

/// The weight of a new rate falls with the number of swaps: of the way from the old average to the
/// rate, the average goes the whole part of one over one more than the number of swaps. Nothing
/// else changes. Here `rate` is the whole number of tokens that came in for each that went out.
pub proof fn average_goes_its_share_of_the_way(
    ddca: DdcaAccount,
    before: VaultBalances,
    after: VaultBalances,
    rate: int,
)
    requires
        after.from_amount < before.from_amount,
        before.to_amount <= after.to_amount,
        rate * (before.from_amount - after.from_amount) <= after.to_amount - before.to_amount,
        after.to_amount - before.to_amount < (rate + 1) * (before.from_amount - after.from_amount),
        ddca.swap_avg_rate <= rate,
    ensures
        ({
            let noted = ddca.after_swap(before, after);
            let step = noted.swap_avg_rate - ddca.swap_avg_rate;
            &&& 0 <= step
            &&& step * (ddca.swap_count + 1) <= rate - ddca.swap_avg_rate
            &&& rate - ddca.swap_avg_rate < (step + 1) * (ddca.swap_count + 1)
            &&& noted.swap_avg_rate <= rate
            &&& noted.swap_count == ddca.swap_count
            &&& noted.last_completed_swap_ts == ddca.last_completed_swap_ts
            &&& noted.total_deposits_amount == ddca.total_deposits_amount
            &&& noted.last_deposit_ts == ddca.last_deposit_ts
            &&& same_identity(ddca, noted)
        }),
{
    let went_out = before.from_amount - after.from_amount;
    let came_in = after.to_amount - before.to_amount;
    lemma_quotient(came_in, went_out, rate);
    assert(swap_rate(before, after) == rate);
    let gap = rate - ddca.swap_avg_rate;
    let n = ddca.swap_count + 1;
    let step = gap / n;
    lemma_fundamental_div_mod(gap, n);
    lemma_div_pos_is_pos(gap, n);
    assert(n * step == step * n) by (nonlinear_arith);
    assert((step + 1) * n == step * n + n) by (nonlinear_arith);
    assert(step <= step * n) by (nonlinear_arith)
        requires
            0 <= step,
            1 <= n,
    ;
    assert(rate <= came_in) by (nonlinear_arith)
        requires
            rate * went_out <= came_in,
            0 <= rate,
            1 <= went_out,
    ;
}

/// A quotient is told by the multiples that enclose the dividend.
proof fn lemma_quotient(x: int, d: int, q: int)
    requires
        0 < d,
        q * d <= x < (q + 1) * d,
    ensures
        x / d == q,
{
    assert((q + 1) * d == q * d + d) by (nonlinear_arith);
    lemma_fundamental_div_mod_converse(x, d, q, x - q * d);
}

/// The outcome of a swap can be counted in if and only if tokens went out, none were lost from the
/// other vault, the rate is at least the average, and there is room for another swap to be counted.
pub proof fn range_of_outcomes(
    ddca: DdcaAccount,
    before: VaultBalances,
    after: VaultBalances,
    rate: int,
)
    requires
        after.from_amount < before.from_amount && before.to_amount <= after.to_amount ==> {
            &&& rate * (before.from_amount - after.from_amount) <= after.to_amount
                - before.to_amount
            &&& after.to_amount - before.to_amount < (rate + 1) * (before.from_amount
                - after.from_amount)
        },
    ensures
        ddca.swap_in_range(before, after) <==> {
            &&& after.from_amount < before.from_amount
            &&& before.to_amount <= after.to_amount
            &&& ddca.swap_avg_rate <= rate
            &&& ddca.swap_count < 18446744073709551615
        },
{
    if after.from_amount < before.from_amount && before.to_amount <= after.to_amount {
        lemma_quotient(
            after.to_amount - before.to_amount,
            before.from_amount - after.from_amount,
            rate,
        );
    }
}

/// A swap request that is refused whatever the time needs no range; any other needs that of its
/// times and, if a checkpoint is due, room for another swap to be counted.
pub proof fn range_of_requests(
    accounts: WakeAndSwapInputAccounts,
    swap_slippage: u64,
    unix_timestamp: i64,
    t: int,
)
    ensures
        ({
            let ddca = accounts.ddca_account.data;
            let now = clock_seconds(unix_timestamp);
            let refused = ddca.is_paused || swap_slippage < 1 || 100 < swap_slippage
                || accounts.from_token_account.data.amount < ddca.amount_per_swap;
            let times_fit = schedule_in_range(
                ddca.start_ts,
                ddca.interval_in_seconds,
                ddca.last_completed_swap_ts,
                now,
            );
            let fits = wake_in_range(accounts, swap_slippage, unix_timestamp);
            &&& refused ==> fits
            &&& !refused && !times_fit ==> !fits
            &&& times_fit && ddca.swap_count < 18446744073709551615 ==> fits
            &&& !refused && ddca.swap_count == 18446744073709551615 && ddca.is_due(now, t)
                ==> !fits
            &&& times_fit && !fits ==> exists|u: int| ddca.is_due(now, u)
        }),
{
}

// Closing.

/// The fee on a withdrawal is a two-hundredth, rounded down.
pub proof fn fee_is_a_two_hundredth(amount: u64, fee: int)
    requires
        200 * fee <= amount < 200 * (fee + 1),
    ensures
        withdraw_fee(amount) == fee,
        0 <= fee <= amount,
{
}

/// A transfer between two token accounts on the word of the recurring swap.
spec fn payment(
    accounts: CloseInputAccounts,
    from: Pubkey,
    to: Pubkey,
    amount: int,
) -> TokenCall {
    TokenCall::Transfer(
        CpiContext {
            program: accounts.token_program,
            accounts: Transfer { from, to, authority: accounts.ddca_account.key },
        },
        amount as u64,
    )
}

/// The calls that settle one vault, one by one.
proof fn lemma_settlement_calls(
    accounts: CloseInputAccounts,
    vault: Pubkey,
    operating: Pubkey,
    owner: Pubkey,
    amount: u64,
    fee: int,
)
    requires
        200 * fee <= amount < 200 * (fee + 1),
    ensures
        ({
            let calls = settlement(
                amount,
                accounts.vault_transfer(vault, operating),
                accounts.vault_transfer(vault, owner),
                accounts.vault_closing(vault),
            );
            let n = (if fee > 0 {
                1int
            } else {
                0
            }) + (if amount > 0 {
                1int
            } else {
                0
            });
            &&& calls.len() == n + 1
            &&& fee > 0 ==> calls[0] == payment(accounts, vault, operating, fee)
            &&& amount > 0 ==> calls[n - 1] == payment(accounts, vault, owner, amount - fee)
            &&& calls[n] == TokenCall::CloseAccount(accounts.vault_closing(vault))
        }),
{
    fee_is_a_two_hundredth(amount, fee);
}

/// Whether `call` moves `amount` tokens between two token accounts, through the token program that
/// was handed over and on the word of the recurring swap.
pub open spec fn pays(
    accounts: CloseInputAccounts,
    call: TokenCall,
    from: Pubkey,
    to: Pubkey,
    amount: int,
) -> bool {
    match call {
        TokenCall::Transfer(context, moved) => {
            &&& context.program == accounts.token_program
            &&& context.accounts.from == from
            &&& context.accounts.to == to
            &&& context.accounts.authority == accounts.ddca_account.key
            &&& moved == amount
        },
        TokenCall::CloseAccount(_) => false,
    }
}

/// Whether `call` closes a token account, through the token program that was handed over, on the
/// word of the recurring swap, with its rent going to the owner.
pub open spec fn closes(accounts: CloseInputAccounts, call: TokenCall, account: Pubkey) -> bool {
    match call {
        TokenCall::Transfer(_, _) => false,
        TokenCall::CloseAccount(context) => {
            &&& context.program == accounts.token_program
            &&& context.accounts.account == account
            &&& context.accounts.destination == accounts.owner_account
            &&& context.accounts.authority == accounts.ddca_account.key
        },
    }
}

/// The calls of a closing, one by one: for each vault, first that of the tokens that were not
/// swapped, the fee to the operating account, if there is one, the rest to the owner, if there is
/// any, and then the closing. The fees are a two-hundredth of each vault, rounded down; the seeds
/// are those of the recurring swap of the one who asks. Returns the place of the first closing.
pub proof fn closing_pays_operator_then_owner(
    accounts: CloseInputAccounts,
    closing: Closing,
    from_fee: int,
    to_fee: int,
) -> (n: int)
    requires
        accounts.is_closing(closing),
        200 * from_fee <= accounts.ddca_from_token_account.data.amount < 200 * (from_fee + 1),
        200 * to_fee <= accounts.ddca_to_token_account.data.amount < 200 * (to_fee + 1),
    ensures
        ({
            let calls = closing.calls@;
            let from_amount = accounts.ddca_from_token_account.data.amount;
            let from_vault = accounts.ddca_from_token_account.key;
            let to_amount = accounts.ddca_to_token_account.data.amount;
            let to_vault = accounts.ddca_to_token_account.key;
            let last = calls.len() - 1;
            &&& n == (if from_fee > 0 {
                1int
            } else {
                0
            }) + (if from_amount > 0 {
                1int
            } else {
                0
            })
            &&& last == n + 1 + (if to_fee > 0 {
                1int
            } else {
                0
            }) + (if to_amount > 0 {
                1int
            } else {
                0
            })
            &&& from_fee > 0 ==> pays(
                accounts,
                calls[0],
                from_vault,
                accounts.operating_from_token_account.key,
                from_fee,
            )
            &&& from_amount > 0 ==> pays(
                accounts,
                calls[n - 1],
                from_vault,
                accounts.owner_from_token_account.key,
                from_amount - from_fee,
            )
            &&& closes(accounts, calls[n], from_vault)
            &&& to_fee > 0 ==> pays(
                accounts,
                calls[n + 1],
                to_vault,
                accounts.operating_to_token_account.key,
                to_fee,
            )
            &&& to_amount > 0 ==> pays(
                accounts,
                calls[last - 1],
                to_vault,
                accounts.owner_to_token_account.key,
                to_amount - to_fee,
            )
            &&& closes(accounts, calls[last], to_vault)
        }),
        are_seeds_of(
            closing.seeds@,
            accounts.owner_account,
            accounts.ddca_account.data.block_height,
            accounts.ddca_account.data.pda_bump,
        ),
{
    lemma_settlement_calls(
        accounts,
        accounts.ddca_from_token_account.key,
        accounts.operating_from_token_account.key,
        accounts.owner_from_token_account.key,
        accounts.ddca_from_token_account.data.amount,
        from_fee,
    );
    lemma_settlement_calls(
        accounts,
        accounts.ddca_to_token_account.key,
        accounts.operating_to_token_account.key,
        accounts.owner_to_token_account.key,
        accounts.ddca_to_token_account.data.amount,
        to_fee,
    );
    seeds_spell_the_account(
        accounts.owner_account,
        accounts.ddca_account.data.block_height,
        accounts.ddca_account.data.pda_bump,
    );
    accounts.from_settlement().len() - 1
}

/// What the settlement of a vault takes out of an account, less what it puts into it.
proof fn lemma_settlement_flow(
    accounts: CloseInputAccounts,
    vault: Pubkey,
    operating: Pubkey,
    owner: Pubkey,
    amount: u64,
    fee: int,
    account: Pubkey,
)
    requires
        200 * fee <= amount < 200 * (fee + 1),
    ensures
        net_outflow(
            settlement(
                amount,
                accounts.vault_transfer(vault, operating),
                accounts.vault_transfer(vault, owner),
                accounts.vault_closing(vault),
            ),
            account,
        ) == (if vault == account {
            amount as int
        } else {
            0
        }) - (if operating == account {
            fee
        } else {
            0
        }) - (if owner == account {
            amount - fee
        } else {
            0
        }),
{
    fee_is_a_two_hundredth(amount, fee);
    let fee_context = accounts.vault_transfer(vault, operating);
    let rest_context = accounts.vault_transfer(vault, owner);
    let first = transfer_unless_zero(fee_context, withdraw_fee(amount));
    let second = transfer_unless_zero(rest_context, amount - withdraw_fee(amount));
    let third = seq![TokenCall::CloseAccount(accounts.vault_closing(vault))];
    lemma_net_outflow_of_transfer(fee_context, fee, account);
    lemma_net_outflow_of_transfer(rest_context, amount - fee, account);
    lemma_net_outflow_adds(first, second, account);
    lemma_net_outflow_adds(first + second, third, account);
    assert(net_outflow(third, account) == 0) by {
        assert(third.drop_last() =~= Seq::empty());
        reveal_with_fuel(net_outflow, 2);
    }
}

/// Who is paid by a closing: where the six token accounts are all different, each vault gives away
/// all that it holds, each operating account gets a two-hundredth of its side, rounded down, each
/// account of the owner the rest, and nobody else anything.
pub proof fn closing_pays_nobody_else(
    accounts: CloseInputAccounts,
    closing: Closing,
    from_fee: int,
    to_fee: int,
    other: Pubkey,
)
    requires
        accounts.is_closing(closing),
        200 * from_fee <= accounts.ddca_from_token_account.data.amount < 200 * (from_fee + 1),
        200 * to_fee <= accounts.ddca_to_token_account.data.amount < 200 * (to_fee + 1),
        seq![
            accounts.ddca_from_token_account.key,
            accounts.ddca_to_token_account.key,
            accounts.operating_from_token_account.key,
            accounts.operating_to_token_account.key,
            accounts.owner_from_token_account.key,
            accounts.owner_to_token_account.key,
        ].no_duplicates(),
    ensures
        ({
            let calls = closing.calls@;
            let from_amount = accounts.ddca_from_token_account.data.amount;
            let to_amount = accounts.ddca_to_token_account.data.amount;
            &&& net_outflow(calls, accounts.ddca_from_token_account.key) == from_amount
            &&& net_outflow(calls, accounts.ddca_to_token_account.key) == to_amount
            &&& -net_outflow(calls, accounts.operating_from_token_account.key) == from_fee
            &&& -net_outflow(calls, accounts.operating_to_token_account.key) == to_fee
            &&& -net_outflow(calls, accounts.owner_from_token_account.key) == from_amount
                - from_fee
            &&& -net_outflow(calls, accounts.owner_to_token_account.key) == to_amount - to_fee
            &&& !{
                ||| other == accounts.ddca_from_token_account.key
                ||| other == accounts.ddca_to_token_account.key
                ||| other == accounts.operating_from_token_account.key
                ||| other == accounts.operating_to_token_account.key
                ||| other == accounts.owner_from_token_account.key
                ||| other == accounts.owner_to_token_account.key
            } ==> net_outflow(calls, other) == 0
        }),
{
    let keys = seq![
        accounts.ddca_from_token_account.key,
        accounts.ddca_to_token_account.key,
        accounts.operating_from_token_account.key,
        accounts.operating_to_token_account.key,
        accounts.owner_from_token_account.key,
        accounts.owner_to_token_account.key,
    ];
    assert forall|i: int, j: int| 0 <= i < j < 6 implies keys[i] != keys[j] by {}
    assert(keys[0] != keys[1] && keys[0] != keys[2] && keys[0] != keys[3] && keys[0] != keys[4]
        && keys[0] != keys[5]);
    assert(keys[1] != keys[2] && keys[1] != keys[3] && keys[1] != keys[4] && keys[1] != keys[5]);
    assert(keys[2] != keys[3] && keys[2] != keys[4] && keys[2] != keys[5]);
    assert(keys[3] != keys[4] && keys[3] != keys[5] && keys[4] != keys[5]);
    lemma_closing_flow(accounts, closing, from_fee, to_fee, keys[0]);
    lemma_closing_flow(accounts, closing, from_fee, to_fee, keys[1]);
    lemma_closing_flow(accounts, closing, from_fee, to_fee, keys[2]);
    lemma_closing_flow(accounts, closing, from_fee, to_fee, keys[3]);
    lemma_closing_flow(accounts, closing, from_fee, to_fee, keys[4]);
    lemma_closing_flow(accounts, closing, from_fee, to_fee, keys[5]);
    lemma_closing_flow(accounts, closing, from_fee, to_fee, other);
}

/// What a closing takes out of an account, less what it puts into it.
proof fn lemma_closing_flow(
    accounts: CloseInputAccounts,
    closing: Closing,
    from_fee: int,
    to_fee: int,
    account: Pubkey,
)
    requires
        accounts.is_closing(closing),
        200 * from_fee <= accounts.ddca_from_token_account.data.amount < 200 * (from_fee + 1),
        200 * to_fee <= accounts.ddca_to_token_account.data.amount < 200 * (to_fee + 1),
    ensures
        net_outflow(closing.calls@, account) == (if accounts.ddca_from_token_account.key
            == account {
            accounts.ddca_from_token_account.data.amount as int
        } else {
            0
        }) - (if accounts.operating_from_token_account.key == account {
            from_fee
        } else {
            0
        }) - (if accounts.owner_from_token_account.key == account {
            accounts.ddca_from_token_account.data.amount - from_fee
        } else {
            0
        }) + (if accounts.ddca_to_token_account.key == account {
            accounts.ddca_to_token_account.data.amount as int
        } else {
            0
        }) - (if accounts.operating_to_token_account.key == account {
            to_fee
        } else {
            0
        }) - (if accounts.owner_to_token_account.key == account {
            accounts.ddca_to_token_account.data.amount - to_fee
        } else {
            0
        }),
{
    lemma_settlement_flow(
        accounts,
        accounts.ddca_from_token_account.key,
        accounts.operating_from_token_account.key,
        accounts.owner_from_token_account.key,
        accounts.ddca_from_token_account.data.amount,
        from_fee,
        account,
    );
    lemma_settlement_flow(
        accounts,
        accounts.ddca_to_token_account.key,
        accounts.operating_to_token_account.key,
        accounts.owner_to_token_account.key,
        accounts.ddca_to_token_account.data.amount,
        to_fee,
        account,
    );
    lemma_net_outflow_adds(accounts.from_settlement(), accounts.to_settlement(), account);
}

/// Each context of a closing is a transfer, or a closing, of the accounts named, through the token
/// program that was handed over and on the word of the recurring swap.
pub proof fn contexts_of_a_closing(accounts: CloseInputAccounts, from: Pubkey, to: Pubkey)
    ensures
        accounts.vault_transfer(from, to).program == accounts.token_program,
        accounts.vault_transfer(from, to).accounts.from == from,
        accounts.vault_transfer(from, to).accounts.to == to,
        accounts.vault_transfer(from, to).accounts.authority == accounts.ddca_account.key,
        accounts.vault_closing(from).program == accounts.token_program,
        accounts.vault_closing(from).accounts.account == from,
        accounts.vault_closing(from).accounts.destination == accounts.owner_account,
        accounts.vault_closing(from).accounts.authority == accounts.ddca_account.key,
{
}

/// A recurring swap can be closed if and only if fifty times the contents of each vault fit in 64
/// bits.
pub proof fn range_of_closings(accounts: CloseInputAccounts)
    ensures
        close_in_range(accounts) <==> {
            &&& accounts.ddca_from_token_account.data.amount * 50 <= 18446744073709551615
            &&& accounts.ddca_to_token_account.data.amount * 50 <= 18446744073709551615
        },
{
}

// Who may do what.

/// The conditions on the accounts of each instruction.
pub proof fn who_may_do_what(
    creation: CreateInputAccounts,
    deposit_amount: u64,
    amount_per_swap: u64,
    interval_in_seconds: u64,
    wake: WakeAndSwapInputAccounts,
    hla_program_id: Pubkey,
    addition: AddFundsInputAccounts,
    closing: CloseInputAccounts,
)
    ensures
        creation.constraints(deposit_amount, amount_per_swap, interval_in_seconds) <==> {
            &&& deposit_amount <= creation.owner_from_token_account.data.amount
            &&& 1 <= amount_per_swap
            &&& 604800 <= interval_in_seconds
            &&& creation.from_mint.key != creation.to_mint.key
        },
        wake.mints_match() <==> {
            &&& wake.ddca_account.data.from_mint == wake.from_mint.key
            &&& wake.ddca_account.data.to_mint == wake.to_mint.key
        },
        wake.addresses_match(hla_program_id) <==> {
            &&& wake.hla_program == hla_program_id
            &&& wake.hla_operating_account.bytes == HLA_OPS_ACCOUNT_ID
        },
        addition.constraints(deposit_amount) <==> {
            &&& deposit_amount <= addition.owner_from_token_account.data.amount
            &&& addition.owner_account == addition.ddca_account.data.owner_acc_addr
        },
        closing.owner_matches() <==> closing.owner_account
            == closing.ddca_account.data.owner_acc_addr,
        closing.addresses_match() <==> closing.operating_account.bytes
            == DDCA_OPERATING_ACCOUNT_ID,
{
}

/// When a creation is refused, and why: here the deposit is for `n` swaps and `r` tokens.
pub proof fn when_creations_are_refused(
    accounts: CreateInputAccounts,
    deposit_amount: u64,
    amount_per_swap: u64,
    interval_in_seconds: u64,
    unix_timestamp: Option<i64>,
    n: int,
    r: int,
)
    requires
        0 < amount_per_swap ==> 0 <= r < amount_per_swap && deposit_amount == n * amount_per_swap
            + r,
    ensures
        ({
            let refusal = create_refusal(
                accounts,
                deposit_amount,
                amount_per_swap,
                interval_in_seconds,
                unix_timestamp,
            );
            let allowed = {
                &&& deposit_amount <= accounts.owner_from_token_account.data.amount
                &&& 1 <= amount_per_swap
                &&& 604800 <= interval_in_seconds
                &&& accounts.from_mint.key != accounts.to_mint.key
            };
            let fits = n * 20000000 <= 18446744073709551615;
            &&& refusal == Some(Refusal::Constraint(ConstraintError::Raw)) <==> !allowed
            &&& refusal == Some(Refusal::Error(ErrorCode::InvalidAmounts)) <==> allowed && r != 0
            &&& refusal == Some(Refusal::Error(ErrorCode::InvalidSwapsCount)) <==> allowed && r
                == 0 && n < 2
            &&& refusal == Some(Refusal::NoClock) <==> allowed && r == 0 && 2 <= n
                && unix_timestamp is None
            &&& refusal == Some(Refusal::OutOfRange) <==> allowed && r == 0 && 2 <= n
                && unix_timestamp is Some && !fits
            &&& refusal == None::<Refusal> <==> allowed && r == 0 && 2 <= n && unix_timestamp
                is Some && fits
        }),
{
    if 0 < amount_per_swap {
        deposits_are_whole_numbers_of_swaps(deposit_amount, amount_per_swap, n, r);
        range_of_first_deposits(deposit_amount, amount_per_swap, n, r);
    }
}

/// When a further deposit is refused, and why: here it is for `n` swaps and `r` tokens.
pub proof fn when_further_deposits_are_refused(
    accounts: AddFundsInputAccounts,
    deposit_amount: u64,
    unix_timestamp: Option<i64>,
    n: int,
    r: int,
)
    requires
        0 < accounts.ddca_account.data.amount_per_swap ==> {
            &&& 0 <= r < accounts.ddca_account.data.amount_per_swap
            &&& deposit_amount == n * accounts.ddca_account.data.amount_per_swap + r
        },
    ensures
        ({
            let ddca = accounts.ddca_account.data;
            let refusal = add_funds_refusal(accounts, deposit_amount, unix_timestamp);
            let allowed = {
                &&& deposit_amount <= accounts.owner_from_token_account.data.amount
                &&& accounts.owner_account == ddca.owner_acc_addr
            };
            let fits = {
                &&& n * 20000000 <= 18446744073709551615
                &&& ddca.total_deposits_amount + deposit_amount <= 18446744073709551615
            };
            let swaps_something = 1 <= ddca.amount_per_swap;
            &&& refusal == Some(Refusal::Constraint(ConstraintError::Raw)) <==> !allowed
            &&& refusal == Some(Refusal::OutOfRange) <==> allowed && (!swaps_something || r == 0
                && !fits)
            &&& refusal == Some(Refusal::Error(ErrorCode::InvalidAmounts)) <==> allowed
                && swaps_something && r != 0
            &&& refusal == Some(Refusal::NoClock) <==> allowed && swaps_something && r == 0 && fits
                && unix_timestamp is None
            &&& refusal == None::<Refusal> <==> allowed && swaps_something && r == 0 && fits
                && unix_timestamp is Some
        }),
{
    if 0 < accounts.ddca_account.data.amount_per_swap {
        deposits_are_whole_numbers_of_swaps(
            deposit_amount,
            accounts.ddca_account.data.amount_per_swap,
            n,
            r,
        );
        range_of_further_deposits(accounts.ddca_account.data, deposit_amount, n, r);
    }
}

/// When a swap is refused, and why; in particular, whenever all else is in order, it is made if and
/// only if some checkpoint is due.
pub proof fn when_wakes_are_refused(
    accounts: WakeAndSwapInputAccounts,
    hla_program_id: Pubkey,
    swap_slippage: u64,
    unix_timestamp: Option<i64>,
    t: int,
)
    ensures
        ({
            let ddca = accounts.ddca_account.data;
            let refusal = wake_refusal(accounts, hla_program_id, swap_slippage, unix_timestamp);
            let mints = ddca.from_mint == accounts.from_mint.key && ddca.to_mint
                == accounts.to_mint.key;
            let allowed = mints && accounts.hla_program == hla_program_id
                && accounts.hla_operating_account.bytes == HLA_OPS_ACCOUNT_ID;
            let slippage_is_fine = 1 <= swap_slippage <= 100;
            let funded = ddca.amount_per_swap <= accounts.from_token_account.data.amount;
            let open = allowed && !ddca.is_paused && slippage_is_fine && funded;
            let timed = open && unix_timestamp is Some;
            let fits = wake_in_range(accounts, swap_slippage, unix_timestamp->0);
            let now = clock_seconds(unix_timestamp->0);
            &&& refusal == Some(Refusal::Constraint(ConstraintError::Raw)) <==> !mints
            &&& refusal == Some(Refusal::Constraint(ConstraintError::Address)) <==> mints
                && !allowed
            &&& refusal == Some(Refusal::Error(ErrorCode::DdcaIsPaused)) <==> allowed
                && ddca.is_paused
            &&& refusal == Some(Refusal::Error(ErrorCode::InvalidSwapSlippage)) <==> allowed
                && !ddca.is_paused && !slippage_is_fine
            &&& refusal == Some(Refusal::Error(ErrorCode::InsufficientBalanceForSwap)) <==> allowed
                && !ddca.is_paused && slippage_is_fine && !funded
            &&& refusal == Some(Refusal::NoClock) <==> open && unix_timestamp is None
            &&& refusal == Some(Refusal::OutOfRange) <==> timed && !fits
            &&& refusal == Some(Refusal::Error(ErrorCode::InvalidSwapSchedule)) ==> !ddca.is_due(
                now,
                t,
            )
            &&& timed && fits && ddca.is_due(now, t) ==> refusal == None::<Refusal>
            &&& refusal == None::<Refusal> ==> timed && exists|u: int| ddca.is_due(now, u)
        }),
{
}

/// When a closing is refused, and why: anybody but the owner is refused.
pub proof fn when_closings_are_refused(accounts: CloseInputAccounts)
    ensures
        ({
            let refusal = close_refusal(accounts);
            let owned = accounts.owner_account == accounts.ddca_account.data.owner_acc_addr;
            let allowed = owned && accounts.operating_account.bytes == DDCA_OPERATING_ACCOUNT_ID;
            let fits = accounts.ddca_from_token_account.data.amount * 50 <= 18446744073709551615
                && accounts.ddca_to_token_account.data.amount * 50 <= 18446744073709551615;
            &&& refusal == Some(Refusal::Constraint(ConstraintError::Raw)) <==> !owned
            &&& refusal == Some(Refusal::Constraint(ConstraintError::Address)) <==> owned
                && !allowed
            &&& refusal == Some(Refusal::OutOfRange) <==> allowed && !fits
            &&& refusal == None::<Refusal> <==> allowed && fits
        }),
{
}

} // verus!
