//! Deposits: the one that starts a recurring swap, and those that prolong it.
use crate::accounts::{Account, AddFundsInputAccounts, CreateInputAccounts};
use crate::constants::SINGLE_SWAP_MINIMUM_LAMPORT_GAS_FEE;
use crate::cpi::{is_system_transfer, system_transfer, CpiContext, Instruction, Transfer};
use crate::error::ErrorCode;
use crate::pubkey::Pubkey;
use crate::state::{clock_seconds, seconds_of_clock, DdcaAccount};
use vstd::arithmetic::div_mod::lemma_fundamental_div_mod;
use vstd::arithmetic::mul::lemma_mul_is_commutative;
use vstd::prelude::*;

verus! {

/// What a deposit moves: lamports for the fees of the swaps that it pays for, then the tokens.
#[derive(Debug, PartialEq, Eq)]
pub struct Deposit {
    /// The number of swaps that the deposit pays for.
    pub swap_count: u64,
    /// The lamports for their fees.
    pub lamports: u64,
    /// The transfer of the lamports.
    pub gas: Instruction,
    /// The transfer of the tokens.
    pub transfer: CpiContext<Transfer>,
    /// The tokens.
    pub amount: u64,
}

/// The lamports that the swaps paid for by a deposit are given for their fees.
pub open spec fn recurring_fees(deposit_amount: u64, amount_per_swap: u64) -> int {
    deposit_amount as int / amount_per_swap as int * SINGLE_SWAP_MINIMUM_LAMPORT_GAS_FEE
}

/// Whether `deposit` moves exactly what a deposit of `deposit_amount` tokens is to move: the fees
/// of the swaps that it pays for, from its owner to the account `ddca`, and the tokens, by
/// `transfer`.
pub open spec fn is_deposit(
    deposit: Deposit,
    owner: Pubkey,
    ddca: Pubkey,
    transfer: CpiContext<Transfer>,
    deposit_amount: u64,
    amount_per_swap: u64,
) -> bool {
    &&& deposit.swap_count == deposit_amount / amount_per_swap
    &&& deposit.lamports == recurring_fees(deposit_amount, amount_per_swap)
    &&& is_system_transfer(deposit.gas, owner, ddca, deposit.lamports)
    &&& deposit.transfer == transfer
    &&& deposit.amount == deposit_amount
}

/// Why a deposit is refused: because it is no whole number of swaps.
pub open spec fn deposit_refusal(deposit_amount: u64, amount_per_swap: u64) -> Option<ErrorCode> {
    if deposit_amount % amount_per_swap != 0 {
        Some(ErrorCode::InvalidAmounts)
    } else {
        None
    }
}

/// Why a first deposit is refused: as any deposit, or because it pays for fewer than two swaps.
pub open spec fn first_deposit_refusal(deposit_amount: u64, amount_per_swap: u64) -> Option<
    ErrorCode,
> {
    if deposit_amount % amount_per_swap != 0 {
        Some(ErrorCode::InvalidAmounts)
    } else if deposit_amount / amount_per_swap <= 1 {
        Some(ErrorCode::InvalidSwapsCount)
    } else {
        None
    }
}

/// The number of swaps that a deposit pays for.
pub fn swaps_funded(deposit_amount: u64, amount_per_swap: u64) -> (result: Result<u64, ErrorCode>)
    requires
        0 < amount_per_swap,
    ensures
        result == match deposit_refusal(deposit_amount, amount_per_swap) {
            Some(error) => Err::<u64, ErrorCode>(error),
            None => Ok(deposit_amount / amount_per_swap),
        },
{
    if deposit_amount % amount_per_swap != 0 {
        return Err(ErrorCode::InvalidAmounts);
    }
    Ok(deposit_amount / amount_per_swap)
}

/// The number of swaps that a first deposit pays for.
pub fn first_swaps_funded(deposit_amount: u64, amount_per_swap: u64) -> (result: Result<
    u64,
    ErrorCode,
>)
    requires
        0 < amount_per_swap,
    ensures
        result == match first_deposit_refusal(deposit_amount, amount_per_swap) {
            Some(error) => Err::<u64, ErrorCode>(error),
            None => Ok(deposit_amount / amount_per_swap),
        },
{
    match swaps_funded(deposit_amount, amount_per_swap) {
        Err(error) => Err(error),
        Ok(swap_count) => if swap_count <= 1 {
            Err(ErrorCode::InvalidSwapsCount)
        } else {
            Ok(swap_count)
        },
    }
}

/// Whether the lamports for the fees of the swaps that a deposit pays for fit in 64 bits.
fn fees_fit(deposit_amount: u64, amount_per_swap: u64) -> (fits: bool)
    requires
        0 < amount_per_swap,
    ensures
        fits == (recurring_fees(deposit_amount, amount_per_swap) <= u64::MAX),
{
    let swap_count: u64 = deposit_amount / amount_per_swap;
    swap_count <= u64::MAX / SINGLE_SWAP_MINIMUM_LAMPORT_GAS_FEE
}

/// Whether a recurring swap can be made with this deposit: each swap is of something, and the
/// lamports for the fees, if any are needed, fit in 64 bits.
pub open spec fn create_in_range(deposit_amount: u64, amount_per_swap: u64) -> bool {
    &&& 0 < amount_per_swap
    &&& first_deposit_refusal(deposit_amount, amount_per_swap) is None ==> recurring_fees(
        deposit_amount,
        amount_per_swap,
    ) <= u64::MAX
}

/// Whether this deposit can be added: each swap is of something, and the lamports for the fees and
/// the sum of all deposits, if they are needed, fit in 64 bits.
pub open spec fn add_funds_in_range(ddca: DdcaAccount, deposit_amount: u64) -> bool {
    &&& 0 < ddca.amount_per_swap
    &&& deposit_refusal(deposit_amount, ddca.amount_per_swap) is None ==> {
        &&& recurring_fees(deposit_amount, ddca.amount_per_swap) <= u64::MAX
        &&& ddca.total_deposits_amount + deposit_amount <= u64::MAX
    }
}

/// Whether [`create`] can be called with these amounts.
pub fn can_create(deposit_amount: u64, amount_per_swap: u64) -> (fits: bool)
    ensures
        fits == create_in_range(deposit_amount, amount_per_swap),
{
    if amount_per_swap == 0 {
        return false;
    }
    match first_swaps_funded(deposit_amount, amount_per_swap) {
        Err(_) => true,
        Ok(_) => fees_fit(deposit_amount, amount_per_swap),
    }
}

/// Whether [`add_funds`] can be called with this deposit.
pub fn can_add_funds(ddca: &DdcaAccount, deposit_amount: u64) -> (fits: bool)
    ensures
        fits == add_funds_in_range(*ddca, deposit_amount),
{
    if ddca.amount_per_swap == 0 {
        return false;
    }
    match swaps_funded(deposit_amount, ddca.amount_per_swap) {
        Err(_) => true,
        Ok(_) => fees_fit(deposit_amount, ddca.amount_per_swap) && deposit_amount <= u64::MAX
            - ddca.total_deposits_amount,
    }
}

impl CreateInputAccounts {
    /// The state of a recurring swap that is made at time `now`. What is not about its terms is
    /// left as it is.
    pub open spec fn created(
        self,
        block_height: u64,
        pda_bump: u8,
        deposit_amount: u64,
        amount_per_swap: u64,
        interval_in_seconds: u64,
        now: u64,
    ) -> DdcaAccount {
        DdcaAccount {
            owner_acc_addr: self.owner_account,
            from_mint: self.from_mint.key,
            from_mint_decimals: self.from_mint.data.decimals,
            from_tacc_addr: self.from_token_account.key,
            to_mint: self.to_mint.key,
            to_mint_decimals: self.to_mint.data.decimals,
            to_tacc_addr: self.to_token_account.key,
            block_height,
            pda_bump,
            total_deposits_amount: deposit_amount,
            amount_per_swap,
            interval_in_seconds,
            start_ts: now,
            last_deposit_ts: now,
            ..self.ddca_account.data
        }
    }

    /// The accounts once the recurring swap is made: only its own state is another.
    pub open spec fn after_create(
        self,
        block_height: u64,
        pda_bump: u8,
        deposit_amount: u64,
        amount_per_swap: u64,
        interval_in_seconds: u64,
        now: u64,
    ) -> CreateInputAccounts {
        CreateInputAccounts {
            ddca_account: Account {
                key: self.ddca_account.key,
                data: self.created(
                    block_height,
                    pda_bump,
                    deposit_amount,
                    amount_per_swap,
                    interval_in_seconds,
                    now,
                ),
            },
            ..self
        }
    }
}

impl AddFundsInputAccounts {
    /// The accounts once the deposit is added: only the state of the recurring swap is another.
    pub open spec fn after_add_funds(self, deposit_amount: u64, now: u64) -> AddFundsInputAccounts {
        AddFundsInputAccounts {
            ddca_account: Account {
                key: self.ddca_account.key,
                data: self.ddca_account.data.after_deposit(deposit_amount, now),
            },
            ..self
        }
    }
}

impl DdcaAccount {
    /// The state once `deposit_amount` was added at time `now`.
    pub open spec fn after_deposit(self, deposit_amount: u64, now: u64) -> DdcaAccount {
        DdcaAccount {
            total_deposits_amount: (self.total_deposits_amount + deposit_amount) as u64,
            last_deposit_ts: now,
            ..self
        }
    }
}

/// A deposit that leaves no rest is as many times the amount per swap as it pays for swaps.
proof fn lemma_whole_swaps(deposit_amount: u64, amount_per_swap: u64)
    requires
        0 < amount_per_swap,
        deposit_amount % amount_per_swap == 0,
    ensures
        (deposit_amount / amount_per_swap) * amount_per_swap == deposit_amount,
{
    lemma_fundamental_div_mod(deposit_amount as int, amount_per_swap as int);
    lemma_mul_is_commutative(
        deposit_amount as int / amount_per_swap as int,
        amount_per_swap as int,
    );
}

/// Starts a recurring swap: sets its terms, and says which lamports and tokens to move. A request
/// that is refused changes nothing.
pub fn create(
    accounts: &mut CreateInputAccounts,
    block_height: u64,
    pda_bump: u8,
    deposit_amount: u64,
    amount_per_swap: u64,
    interval_in_seconds: u64,
    unix_timestamp: i64,
) -> (result: Result<Deposit, ErrorCode>)
    requires
        create_in_range(deposit_amount, amount_per_swap),
    ensures
        match result {
            Ok(deposit) => {
                &&& first_deposit_refusal(deposit_amount, amount_per_swap) is None
                &&& *final(accounts) == old(accounts).after_create(
                    block_height,
                    pda_bump,
                    deposit_amount,
                    amount_per_swap,
                    interval_in_seconds,
                    clock_seconds(unix_timestamp),
                )
                &&& is_deposit(
                    deposit,
                    old(accounts).owner_account,
                    old(accounts).ddca_account.key,
                    old(accounts).transfer_to_vault(),
                    deposit_amount,
                    amount_per_swap,
                )
                &&& final(accounts).ddca_account.data.amount_per_swap == amount_per_swap
                &&& final(accounts).ddca_account.data.interval_in_seconds == interval_in_seconds
                &&& final(accounts).ddca_account.data.start_ts == clock_seconds(unix_timestamp)
                &&& final(accounts).ddca_account.data.total_deposits_amount == deposit_amount
                &&& deposit.swap_count * amount_per_swap == deposit_amount
                &&& deposit.lamports == deposit.swap_count * 20000000
            },
            Err(error) => {
                &&& first_deposit_refusal(deposit_amount, amount_per_swap) == Some(error)
                &&& *final(accounts) == *old(accounts)
            },
        },
{
    let swap_count: u64 = match first_swaps_funded(deposit_amount, amount_per_swap) {
        Ok(swap_count) => swap_count,
        Err(error) => {
            return Err(error);
        },
    };
    proof {
        lemma_whole_swaps(deposit_amount, amount_per_swap);
    }
    let start_ts: u64 = seconds_of_clock(unix_timestamp);

    accounts.ddca_account.data.owner_acc_addr = accounts.owner_account;
    accounts.ddca_account.data.from_mint = accounts.from_mint.key;
    accounts.ddca_account.data.from_mint_decimals = accounts.from_mint.data.decimals;
    accounts.ddca_account.data.from_tacc_addr = accounts.from_token_account.key;
    accounts.ddca_account.data.to_mint = accounts.to_mint.key;
    accounts.ddca_account.data.to_mint_decimals = accounts.to_mint.data.decimals;
    accounts.ddca_account.data.to_tacc_addr = accounts.to_token_account.key;
    accounts.ddca_account.data.block_height = block_height;
    accounts.ddca_account.data.pda_bump = pda_bump;
    accounts.ddca_account.data.total_deposits_amount = deposit_amount;
    accounts.ddca_account.data.amount_per_swap = amount_per_swap;
    accounts.ddca_account.data.interval_in_seconds = interval_in_seconds;
    accounts.ddca_account.data.start_ts = start_ts;
    accounts.ddca_account.data.last_deposit_ts = start_ts;

    let recurring_lamport_fees: u64 = swap_count * SINGLE_SWAP_MINIMUM_LAMPORT_GAS_FEE;
    Ok(
        Deposit {
            swap_count,
            lamports: recurring_lamport_fees,
            gas: system_transfer(
                &accounts.owner_account,
                &accounts.ddca_account.key,
                recurring_lamport_fees,
            ),
            transfer: accounts.into_transfer_to_vault_context(),
            amount: deposit_amount,
        },
    )
}

/// Prolongs a recurring swap: adds up the deposit, and says which lamports and tokens to move. A
/// request that is refused changes nothing.
pub fn add_funds(
    accounts: &mut AddFundsInputAccounts,
    deposit_amount: u64,
    unix_timestamp: i64,
) -> (result: Result<Deposit, ErrorCode>)
    requires
        add_funds_in_range(old(accounts).ddca_account.data, deposit_amount),
    ensures
        match result {
            Ok(deposit) => {
                let ddca = old(accounts).ddca_account.data;
                &&& deposit_refusal(deposit_amount, ddca.amount_per_swap) is None
                &&& *final(accounts) == old(accounts).after_add_funds(
                    deposit_amount,
                    clock_seconds(unix_timestamp),
                )
                &&& is_deposit(
                    deposit,
                    old(accounts).owner_account,
                    old(accounts).ddca_account.key,
                    old(accounts).transfer_to_ddca(),
                    deposit_amount,
                    ddca.amount_per_swap,
                )
                &&& final(accounts).ddca_account.data.total_deposits_amount
                    == ddca.total_deposits_amount + deposit_amount
                &&& deposit.swap_count * ddca.amount_per_swap == deposit_amount
                &&& deposit.lamports == deposit.swap_count * 20000000
            },
            Err(error) => {
                &&& deposit_refusal(
                    deposit_amount,
                    old(accounts).ddca_account.data.amount_per_swap,
                ) == Some(error)
                &&& *final(accounts) == *old(accounts)
            },
        },
{
    let swap_count: u64 = match swaps_funded(
        deposit_amount,
        accounts.ddca_account.data.amount_per_swap,
    ) {
        Ok(swap_count) => swap_count,
        Err(error) => {
            return Err(error);
        },
    };
    proof {
        lemma_whole_swaps(deposit_amount, accounts.ddca_account.data.amount_per_swap);
    }
    let recurring_lamport_fees: u64 = swap_count * SINGLE_SWAP_MINIMUM_LAMPORT_GAS_FEE;
    let deposit = Deposit {
        swap_count,
        lamports: recurring_lamport_fees,
        gas: system_transfer(
            &accounts.owner_account,
            &accounts.ddca_account.key,
            recurring_lamport_fees,
        ),
        transfer: accounts.into_transfer_to_ddca_context(),
        amount: deposit_amount,
    };
    let total: u64 = accounts.ddca_account.data.total_deposits_amount + deposit_amount;
    accounts.ddca_account.data.total_deposits_amount = total;
    accounts.ddca_account.data.last_deposit_ts = seconds_of_clock(unix_timestamp);
    Ok(deposit)
}

} // verus!
