//! The swaps themselves: when one is made, what it asks for, and what is kept of it.
use crate::accounts::{Account, WakeAndSwapInputAccounts};
use crate::constants::SWAP_MAX_PERCENT_SLIPPAGE;
use crate::cpi::{ddca_seeds, CpiContext, SignerSeeds, Swap};
use crate::error::ErrorCode;
use crate::schedule::{due, due_checkpoint, schedule_fits, schedule_in_range};
use crate::state::{clock_seconds, seconds_of_clock, DdcaAccount};
use crate::token::VaultBalances;
use vstd::arithmetic::div_mod::{lemma_div_nonincreasing, lemma_fundamental_div_mod};
use vstd::arithmetic::mul::{lemma_mul_is_commutative, lemma_mul_is_distributive_add_other_way};
use vstd::prelude::*;

verus! {

/// What the liquidity aggregator is asked to do, and the seeds with which the request is signed.
#[derive(Debug, PartialEq, Eq)]
pub struct SwapCall {
    pub context: CpiContext<Swap>,
    pub amount: u64,
    pub min_out_amount: u64,
    pub slippage: u64,
    pub seeds: SignerSeeds,
}

/// Why a swap is refused at any time: because swaps are paused, or else because of the slippage
/// asked for, or else because the vault does not hold enough for one swap.
pub open spec fn swap_refusal(accounts: WakeAndSwapInputAccounts, swap_slippage: u64) -> Option<
    ErrorCode,
> {
    if accounts.ddca_account.data.is_paused {
        Some(ErrorCode::DdcaIsPaused)
    } else if swap_slippage == 0 || SWAP_MAX_PERCENT_SLIPPAGE < swap_slippage {
        Some(ErrorCode::InvalidSwapSlippage)
    } else if accounts.from_token_account.data.amount
        < accounts.ddca_account.data.amount_per_swap {
        Some(ErrorCode::InsufficientBalanceForSwap)
    } else {
        None
    }
}

impl DdcaAccount {
    /// Whether a swap at time `now` would serve the checkpoint `t`.
    pub open spec fn is_due(self, now: u64, t: int) -> bool {
        due(
            self.start_ts as int,
            self.interval_in_seconds as int,
            self.last_completed_swap_ts as int,
            now as int,
            t,
        )
    }

    /// The state once the checkpoint `t` is served.
    pub open spec fn after_wake(self, t: u64) -> DdcaAccount {
        DdcaAccount {
            last_completed_swap_ts: t,
            swap_count: (self.swap_count + 1) as u64,
            ..self
        }
    }

    /// The average rate once a swap at `rate` is counted in.
    pub open spec fn average_with(self, rate: int) -> int {
        self.swap_avg_rate + (rate - self.swap_avg_rate) / (self.swap_count + 1)
    }

    /// The state once a swap between these balances of the vaults is counted in.
    pub open spec fn after_swap(self, before: VaultBalances, after: VaultBalances) -> DdcaAccount {
        DdcaAccount {
            swap_avg_rate: self.average_with(swap_rate(before, after)) as u64,
            ..self
        }
    }

    /// Whether the swap between these balances can be counted in: something was swapped, neither
    /// vault moved the wrong way, and the rate is not below the average.
    pub open spec fn swap_in_range(self, before: VaultBalances, after: VaultBalances) -> bool {
        &&& after.from_amount < before.from_amount
        &&& before.to_amount <= after.to_amount
        &&& self.swap_avg_rate <= swap_rate(before, after)
        &&& self.swap_count < u64::MAX
    }
}

/// The rate of a swap: the tokens that came in for each token that went out, rounded down.
pub open spec fn swap_rate(before: VaultBalances, after: VaultBalances) -> int {
    (after.to_amount - before.to_amount) / (before.from_amount - after.from_amount)
}

/// Whether the times and the count that a swap request has to look at fit in 64 bits.
pub open spec fn wake_in_range(
    accounts: WakeAndSwapInputAccounts,
    swap_slippage: u64,
    unix_timestamp: i64,
) -> bool {
    let ddca = accounts.ddca_account.data;
    let now = clock_seconds(unix_timestamp);
    swap_refusal(accounts, swap_slippage) is None ==> {
        &&& schedule_in_range(
            ddca.start_ts,
            ddca.interval_in_seconds,
            ddca.last_completed_swap_ts,
            now,
        )
        &&& ddca.swap_count < u64::MAX || forall|t: int| !ddca.is_due(now, t)
    }
}

/// Checks what a swap request must meet at any time; see [`swap_refusal`].
pub fn check_swap_request(accounts: &WakeAndSwapInputAccounts, swap_slippage: u64) -> (result:
    Result<(), ErrorCode>)
    ensures
        result == match swap_refusal(*accounts, swap_slippage) {
            Some(error) => Err::<(), ErrorCode>(error),
            None => Ok(()),
        },
{
    if accounts.ddca_account.data.is_paused {
        return Err(ErrorCode::DdcaIsPaused);
    }
    if swap_slippage == 0 || swap_slippage > SWAP_MAX_PERCENT_SLIPPAGE {
        return Err(ErrorCode::InvalidSwapSlippage);
    }
    if accounts.from_token_account.data.amount < accounts.ddca_account.data.amount_per_swap {
        return Err(ErrorCode::InsufficientBalanceForSwap);
    }
    Ok(())
}

/// Whether [`wake_and_swap`] can be called with these arguments.
pub fn can_wake(
    accounts: &WakeAndSwapInputAccounts,
    swap_slippage: u64,
    unix_timestamp: i64,
) -> (fits: bool)
    ensures
        fits == wake_in_range(*accounts, swap_slippage, unix_timestamp),
{
    let ddca = &accounts.ddca_account.data;
    let now: u64 = seconds_of_clock(unix_timestamp);
    match check_swap_request(accounts, swap_slippage) {
        Err(_) => true,
        Ok(()) => {
            if !schedule_fits(
                ddca.start_ts,
                ddca.interval_in_seconds,
                ddca.last_completed_swap_ts,
                now,
            ) {
                return false;
            }
            match due_checkpoint(
                ddca.start_ts,
                ddca.interval_in_seconds,
                ddca.last_completed_swap_ts,
                now,
            ) {
                Some(t) => {
                    assert(ddca.is_due(now, t as int));
                    ddca.swap_count < u64::MAX
                },
                None => true,
            }
        },
    }
}

impl WakeAndSwapInputAccounts {
    /// The accounts that the liquidity aggregator is handed.
    pub open spec fn swap_context(self) -> CpiContext<Swap> {
        CpiContext {
            program: self.hla_program,
            accounts: Swap {
                hla_ops_account: self.hla_operating_account,
                hla_ops_token_account: self.hla_operating_from_token_account.key,
                vault_account: self.ddca_account.key,
                from_token_account: self.from_token_account.key,
                from_token_mint: self.from_mint.key,
                to_token_account: self.to_token_account.key,
                to_token_mint: self.to_mint.key,
                token_program_account: self.token_program,
            },
        }
    }

    /// The accounts once the checkpoint `t` is served: only the state of the recurring swap is
    /// another.
    pub open spec fn after_wake(self, t: u64) -> WakeAndSwapInputAccounts {
        WakeAndSwapInputAccounts {
            ddca_account: Account {
                key: self.ddca_account.key,
                data: self.ddca_account.data.after_wake(t),
            },
            ..self
        }
    }

    /// Whether `call` asks for the agreed amount to be swapped on these accounts, within these
    /// limits, and is signed for the recurring swap.
    pub open spec fn is_swap_call(
        self,
        call: SwapCall,
        swap_min_out_amount: u64,
        swap_slippage: u64,
    ) -> bool {
        let ddca = self.ddca_account.data;
        &&& call.context == self.swap_context()
        &&& call.amount == ddca.amount_per_swap
        &&& call.min_out_amount == swap_min_out_amount
        &&& call.slippage == swap_slippage
        &&& call.seeds@ == ddca_seeds(ddca.owner_acc_addr, ddca.block_height, ddca.pda_bump)
    }
}

/// Serves the checkpoint that is due: counts the swap, and says what to ask of the liquidity
/// aggregator. Once that has been done, [`complete_swap`] takes note of the outcome. A request
/// that is refused changes nothing.
pub fn wake_and_swap(
    accounts: &mut WakeAndSwapInputAccounts,
    swap_min_out_amount: u64,
    swap_slippage: u64,
    unix_timestamp: i64,
) -> (result: Result<SwapCall, ErrorCode>)
    requires
        wake_in_range(*old(accounts), swap_slippage, unix_timestamp),
    ensures
        match result {
            Ok(call) => {
                let ddca = old(accounts).ddca_account.data;
                let t = final(accounts).ddca_account.data.last_completed_swap_ts;
                &&& swap_refusal(*old(accounts), swap_slippage) is None
                &&& ddca.is_due(clock_seconds(unix_timestamp), t as int)
                &&& *final(accounts) == old(accounts).after_wake(t)
                &&& old(accounts).is_swap_call(call, swap_min_out_amount, swap_slippage)
                &&& final(accounts).ddca_account.data.swap_count == ddca.swap_count + 1
                &&& call.amount == ddca.amount_per_swap
                &&& call.min_out_amount == swap_min_out_amount
                &&& call.slippage == swap_slippage
            },
            Err(error) => {
                &&& *final(accounts) == *old(accounts)
                &&& match swap_refusal(*old(accounts), swap_slippage) {
                    Some(refusal) => error == refusal,
                    None => {
                        &&& error == ErrorCode::InvalidSwapSchedule
                        &&& forall|t: int|
                            !old(accounts).ddca_account.data.is_due(
                                clock_seconds(unix_timestamp),
                                t,
                            )
                    },
                }
            },
        },
{
    match check_swap_request(accounts, swap_slippage) {
        Err(error) => {
            return Err(error);
        },
        Ok(()) => {},
    }
    let start_ts: u64 = accounts.ddca_account.data.start_ts;
    let interval: u64 = accounts.ddca_account.data.interval_in_seconds;
    let last_ts: u64 = accounts.ddca_account.data.last_completed_swap_ts;
    let now_ts: u64 = seconds_of_clock(unix_timestamp);
    let checkpoint_ts: u64 = match due_checkpoint(start_ts, interval, last_ts, now_ts) {
        Some(t) => t,
        None => {
            return Err(ErrorCode::InvalidSwapSchedule);
        },
    };
    assert(accounts.ddca_account.data.is_due(now_ts, checkpoint_ts as int));
    accounts.ddca_account.data.last_completed_swap_ts = checkpoint_ts;
    accounts.ddca_account.data.swap_count = accounts.ddca_account.data.swap_count + 1;

    let ddca = &accounts.ddca_account.data;
    Ok(
        SwapCall {
            context: CpiContext {
                program: accounts.hla_program,
                accounts: Swap {
                    hla_ops_account: accounts.hla_operating_account,
                    hla_ops_token_account: accounts.hla_operating_from_token_account.key,
                    vault_account: accounts.ddca_account.key,
                    from_token_account: accounts.from_token_account.key,
                    from_token_mint: accounts.from_mint.key,
                    to_token_account: accounts.to_token_account.key,
                    to_token_mint: accounts.to_mint.key,
                    token_program_account: accounts.token_program,
                },
            },
            amount: ddca.amount_per_swap,
            min_out_amount: swap_min_out_amount,
            slippage: swap_slippage,
            seeds: SignerSeeds::new(&ddca.owner_acc_addr, ddca.block_height, ddca.pda_bump),
        },
    )
}

/// Whether [`complete_swap`] can be called with these balances.
pub fn can_complete_swap(
    ddca: &DdcaAccount,
    before: &VaultBalances,
    after: &VaultBalances,
) -> (fits: bool)
    ensures
        fits == ddca.swap_in_range(*before, *after),
{
    if before.from_amount <= after.from_amount || after.to_amount < before.to_amount {
        return false;
    }
    let rate: u64 = (after.to_amount - before.to_amount) / (before.from_amount
        - after.from_amount);
    ddca.swap_avg_rate <= rate && ddca.swap_count < u64::MAX
}

/// Takes note of the outcome of a swap: moves the average rate towards the rate of this swap.
pub fn complete_swap(ddca: &mut DdcaAccount, before: &VaultBalances, after: &VaultBalances)
    requires
        old(ddca).swap_in_range(*before, *after),
    ensures
        *final(ddca) == old(ddca).after_swap(*before, *after),
        final(ddca).swap_avg_rate == old(ddca).average_with(swap_rate(*before, *after)),
        ({
            let gap = swap_rate(*before, *after) - old(ddca).swap_avg_rate;
            let step = final(ddca).swap_avg_rate - old(ddca).swap_avg_rate;
            step * (old(ddca).swap_count + 1) <= gap < (step + 1) * (old(ddca).swap_count + 1)
        }),
{
    let from_amount_delta: u64 = before.from_amount - after.from_amount;
    let to_amount_delta: u64 = after.to_amount - before.to_amount;
    let rate: u64 = to_amount_delta / from_amount_delta;
    let step: u64 = (rate - ddca.swap_avg_rate) / (ddca.swap_count + 1);
    proof {
        lemma_div_nonincreasing(rate - ddca.swap_avg_rate, ddca.swap_count + 1);
    }
    proof {
        lemma_fundamental_div_mod(rate - ddca.swap_avg_rate, ddca.swap_count + 1);
        lemma_mul_is_commutative(ddca.swap_count + 1, step as int);
        lemma_mul_is_distributive_add_other_way(ddca.swap_count + 1, step as int, 1);
    }
    ddca.swap_avg_rate = ddca.swap_avg_rate + step;
}

} // verus!
