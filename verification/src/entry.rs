//! The instructions as a caller meets them: the conditions on the accounts are checked first, and
//! what cannot be computed is refused.
use crate::accounts::{
    AddFundsInputAccounts, CloseInputAccounts, CreateInputAccounts, WakeAndSwapInputAccounts,
};
use crate::closing::{can_close, close, close_in_range, Closing};
use crate::error::{ConstraintError, ErrorCode};
use crate::funding::{
    add_funds, add_funds_in_range, can_add_funds, can_create, create, create_in_range,
    deposit_refusal, first_deposit_refusal, first_swaps_funded, is_deposit, swaps_funded, Deposit,
};
use crate::pubkey::Pubkey;
use crate::state::{clock_seconds, DdcaAccount};
use crate::swap::{
    can_complete_swap, can_wake, check_swap_request, complete_swap, swap_refusal, wake_and_swap,
    wake_in_range, SwapCall,
};
use crate::token::VaultBalances;
use vstd::prelude::*;

verus! {

/// Why an instruction came to nothing.
#[derive(Debug, Clone, Copy, PartialEq, Eq, Structural)]
pub enum Refusal {
    /// The accounts may not be used for it.
    Constraint(ConstraintError),
    /// It was refused on its terms.
    Error(ErrorCode),
    /// The clock is needed and could not be read.
    NoClock,
    /// A number that is needed cannot be computed.
    OutOfRange,
}

/// Why [`process_create`] refuses, if it does.
pub open spec fn create_refusal(
    accounts: CreateInputAccounts,
    deposit_amount: u64,
    amount_per_swap: u64,
    interval_in_seconds: u64,
    unix_timestamp: Option<i64>,
) -> Option<Refusal> {
    if !accounts.constraints(deposit_amount, amount_per_swap, interval_in_seconds) {
        Some(Refusal::Constraint(ConstraintError::Raw))
    } else if first_deposit_refusal(deposit_amount, amount_per_swap) is Some {
        Some(Refusal::Error(first_deposit_refusal(deposit_amount, amount_per_swap)->0))
    } else if unix_timestamp is None {
        Some(Refusal::NoClock)
    } else if !create_in_range(deposit_amount, amount_per_swap) {
        Some(Refusal::OutOfRange)
    } else {
        None
    }
}

/// Why [`process_wake_and_swap`] refuses, if it does.
pub open spec fn wake_refusal(
    accounts: WakeAndSwapInputAccounts,
    hla_program_id: Pubkey,
    swap_slippage: u64,
    unix_timestamp: Option<i64>,
) -> Option<Refusal> {
    if !accounts.mints_match() {
        Some(Refusal::Constraint(ConstraintError::Raw))
    } else if !accounts.addresses_match(hla_program_id) {
        Some(Refusal::Constraint(ConstraintError::Address))
    } else if swap_refusal(accounts, swap_slippage) is Some {
        Some(Refusal::Error(swap_refusal(accounts, swap_slippage)->0))
    } else if unix_timestamp is None {
        Some(Refusal::NoClock)
    } else if !wake_in_range(accounts, swap_slippage, unix_timestamp->0) {
        Some(Refusal::OutOfRange)
    } else if forall|t: int|
        !accounts.ddca_account.data.is_due(clock_seconds(unix_timestamp->0), t) {
        Some(Refusal::Error(ErrorCode::InvalidSwapSchedule))
    } else {
        None
    }
}

/// Why [`process_add_funds`] refuses, if it does.
pub open spec fn add_funds_refusal(
    accounts: AddFundsInputAccounts,
    deposit_amount: u64,
    unix_timestamp: Option<i64>,
) -> Option<Refusal> {
    let ddca = accounts.ddca_account.data;
    if !accounts.constraints(deposit_amount) {
        Some(Refusal::Constraint(ConstraintError::Raw))
    } else if !add_funds_in_range(ddca, deposit_amount) {
        Some(Refusal::OutOfRange)
    } else if deposit_refusal(deposit_amount, ddca.amount_per_swap) is Some {
        Some(Refusal::Error(deposit_refusal(deposit_amount, ddca.amount_per_swap)->0))
    } else if unix_timestamp is None {
        Some(Refusal::NoClock)
    } else {
        None
    }
}

/// Why [`process_close`] refuses, if it does.
pub open spec fn close_refusal(accounts: CloseInputAccounts) -> Option<Refusal> {
    if !accounts.owner_matches() {
        Some(Refusal::Constraint(ConstraintError::Raw))
    } else if !accounts.addresses_match() {
        Some(Refusal::Constraint(ConstraintError::Address))
    } else if !close_in_range(accounts) {
        Some(Refusal::OutOfRange)
    } else {
        None
    }
}

/// Starts a recurring swap on accounts that may be used for it; see [`create`]. The time is that
/// of the clock, if it could be read.
pub fn process_create(
    accounts: &mut CreateInputAccounts,
    block_height: u64,
    pda_bump: u8,
    deposit_amount: u64,
    amount_per_swap: u64,
    interval_in_seconds: u64,
    unix_timestamp: Option<i64>,
) -> (result: Result<Deposit, Refusal>)
    ensures
        match create_refusal(
            *old(accounts),
            deposit_amount,
            amount_per_swap,
            interval_in_seconds,
            unix_timestamp,
        ) {
            Some(refusal) => {
                &&& result == Err::<Deposit, Refusal>(refusal)
                &&& *final(accounts) == *old(accounts)
            },
            None => {
                &&& result is Ok
                &&& *final(accounts) == old(accounts).after_create(
                    block_height,
                    pda_bump,
                    deposit_amount,
                    amount_per_swap,
                    interval_in_seconds,
                    clock_seconds(unix_timestamp->0),
                )
                &&& is_deposit(
                    result->Ok_0,
                    old(accounts).owner_account,
                    old(accounts).ddca_account.key,
                    old(accounts).transfer_to_vault(),
                    deposit_amount,
                    amount_per_swap,
                )
            },
        },
{
    match accounts.check_constraints(deposit_amount, amount_per_swap, interval_in_seconds) {
        Err(error) => {
            return Err(Refusal::Constraint(error));
        },
        Ok(()) => {},
    }
    match first_swaps_funded(deposit_amount, amount_per_swap) {
        Err(error) => {
            return Err(Refusal::Error(error));
        },
        Ok(_) => {},
    }
    let now: i64 = match unix_timestamp {
        Some(now) => now,
        None => {
            return Err(Refusal::NoClock);
        },
    };
    if !can_create(deposit_amount, amount_per_swap) {
        return Err(Refusal::OutOfRange);
    }
    match create(
        accounts,
        block_height,
        pda_bump,
        deposit_amount,
        amount_per_swap,
        interval_in_seconds,
        now,
    ) {
        Ok(deposit) => Ok(deposit),
        Err(error) => Err(Refusal::Error(error)),
    }
}

/// Serves the checkpoint that is due, on accounts that may be used for it; see [`wake_and_swap`].
/// The time is that of the clock, if it could be read.
pub fn process_wake_and_swap(
    accounts: &mut WakeAndSwapInputAccounts,
    hla_program_id: &Pubkey,
    swap_min_out_amount: u64,
    swap_slippage: u64,
    unix_timestamp: Option<i64>,
) -> (result: Result<SwapCall, Refusal>)
    ensures
        match wake_refusal(*old(accounts), *hla_program_id, swap_slippage, unix_timestamp) {
            Some(refusal) => {
                &&& result == Err::<SwapCall, Refusal>(refusal)
                &&& *final(accounts) == *old(accounts)
            },
            None => {
                let t = final(accounts).ddca_account.data.last_completed_swap_ts;
                &&& result is Ok
                &&& old(accounts).ddca_account.data.is_due(
                    clock_seconds(unix_timestamp->0),
                    t as int,
                )
                &&& *final(accounts) == old(accounts).after_wake(t)
                &&& old(accounts).is_swap_call(result->Ok_0, swap_min_out_amount, swap_slippage)
            },
        },
{
    match accounts.check_constraints(hla_program_id) {
        Err(error) => {
            return Err(Refusal::Constraint(error));
        },
        Ok(()) => {},
    }
    match check_swap_request(accounts, swap_slippage) {
        Err(error) => {
            return Err(Refusal::Error(error));
        },
        Ok(()) => {},
    }
    let now: i64 = match unix_timestamp {
        Some(now) => now,
        None => {
            return Err(Refusal::NoClock);
        },
    };
    if !can_wake(accounts, swap_slippage, now) {
        return Err(Refusal::OutOfRange);
    }
    match wake_and_swap(accounts, swap_min_out_amount, swap_slippage, now) {
        Ok(call) => Ok(call),
        Err(error) => Err(Refusal::Error(error)),
    }
}

/// Takes note of the outcome of a swap, if it can be counted in; see [`complete_swap`].
pub fn process_outcome(
    ddca: &mut DdcaAccount,
    before: &VaultBalances,
    after: &VaultBalances,
) -> (result: Result<(), Refusal>)
    ensures
        if old(ddca).swap_in_range(*before, *after) {
            &&& result == Ok::<(), Refusal>(())
            &&& *final(ddca) == old(ddca).after_swap(*before, *after)
        } else {
            &&& result == Err::<(), Refusal>(Refusal::OutOfRange)
            &&& *final(ddca) == *old(ddca)
        },
{
    if !can_complete_swap(ddca, before, after) {
        return Err(Refusal::OutOfRange);
    }
    complete_swap(ddca, before, after);
    Ok(())
}

/// Prolongs a recurring swap, on accounts that may be used for it; see [`add_funds`]. The time is
/// that of the clock, if it could be read.
pub fn process_add_funds(
    accounts: &mut AddFundsInputAccounts,
    deposit_amount: u64,
    unix_timestamp: Option<i64>,
) -> (result: Result<Deposit, Refusal>)
    ensures
        match add_funds_refusal(*old(accounts), deposit_amount, unix_timestamp) {
            Some(refusal) => {
                &&& result == Err::<Deposit, Refusal>(refusal)
                &&& *final(accounts) == *old(accounts)
            },
            None => {
                &&& result is Ok
                &&& *final(accounts) == old(accounts).after_add_funds(
                    deposit_amount,
                    clock_seconds(unix_timestamp->0),
                )
                &&& is_deposit(
                    result->Ok_0,
                    old(accounts).owner_account,
                    old(accounts).ddca_account.key,
                    old(accounts).transfer_to_ddca(),
                    deposit_amount,
                    old(accounts).ddca_account.data.amount_per_swap,
                )
            },
        },
{
    match accounts.check_constraints(deposit_amount) {
        Err(error) => {
            return Err(Refusal::Constraint(error));
        },
        Ok(()) => {},
    }
    if !can_add_funds(&accounts.ddca_account.data, deposit_amount) {
        return Err(Refusal::OutOfRange);
    }
    match swaps_funded(deposit_amount, accounts.ddca_account.data.amount_per_swap) {
        Err(error) => {
            return Err(Refusal::Error(error));
        },
        Ok(_) => {},
    }
    let now: i64 = match unix_timestamp {
        Some(now) => now,
        None => {
            return Err(Refusal::NoClock);
        },
    };
    match add_funds(accounts, deposit_amount, now) {
        Ok(deposit) => Ok(deposit),
        Err(error) => Err(Refusal::Error(error)),
    }
}

/// Closes a recurring swap for its owner, and for nobody else; see [`close`].
pub fn process_close(accounts: &CloseInputAccounts) -> (result: Result<Closing, Refusal>)
    ensures
        match close_refusal(*accounts) {
            Some(refusal) => result == Err::<Closing, Refusal>(refusal),
            None => result is Ok && accounts.is_closing(result->Ok_0),
        },
        result is Ok ==> accounts.ddca_account.data.owner_acc_addr == accounts.owner_account,
{
    match accounts.check_constraints() {
        Err(error) => {
            return Err(Refusal::Constraint(error));
        },
        Ok(()) => {},
    }
    if !can_close(accounts) {
        return Err(Refusal::OutOfRange);
    }
    Ok(close(accounts))
}

} // verus!
