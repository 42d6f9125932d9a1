use ddca::accounts::{Account, Mint, TokenAccount};
use ddca::constants::{DDCA_OPERATING_ACCOUNT_ID, HLA_OPS_ACCOUNT_ID};
use ddca::entry::{
    process_add_funds, process_close, process_create, process_outcome, process_wake_and_swap,
    Refusal,
};
use ddca::error::ConstraintError;
use ddca::pubkey::Pubkey;
use ddca::token::VaultBalances;
use ddca::{
    close, AddFundsInputAccounts, CloseInputAccounts, CreateInputAccounts, DdcaAccount, ErrorCode,
    WakeAndSwapInputAccounts,
};

const WEEK: u64 = 604800;
const START: u64 = 1640000000;
const NOW: Option<i64> = Some(1640000000);

fn key(n: u8) -> Pubkey {
    Pubkey { bytes: [n; 32] }
}

fn tokens(n: u8, amount: u64) -> Account<TokenAccount> {
    Account { key: key(n), data: TokenAccount { amount } }
}

fn mint(n: u8) -> Account<Mint> {
    Account { key: key(n), data: Mint { decimals: 6 } }
}

fn state() -> DdcaAccount {
    DdcaAccount {
        owner_acc_addr: key(1),
        from_mint: key(4),
        from_mint_decimals: 6,
        from_tacc_addr: key(5),
        to_mint: key(6),
        to_mint_decimals: 6,
        to_tacc_addr: key(7),
        block_height: 258,
        pda_bump: 253,
        total_deposits_amount: 300,
        amount_per_swap: 10,
        start_ts: START,
        interval_in_seconds: WEEK,
        last_completed_swap_ts: 0,
        is_paused: false,
        swap_count: 0,
        swap_avg_rate: 0,
        last_deposit_ts: START,
    }
}

fn create_accounts() -> CreateInputAccounts {
    CreateInputAccounts {
        owner_account: key(1),
        owner_from_token_account: tokens(2, u64::MAX),
        ddca_account: Account { key: key(3), data: state() },
        from_mint: mint(4),
        from_token_account: tokens(5, 0),
        to_mint: mint(6),
        to_token_account: tokens(7, 0),
        token_program: key(8),
    }
}

fn wake_accounts() -> WakeAndSwapInputAccounts {
    WakeAndSwapInputAccounts {
        owner_account: key(20),
        ddca_account: Account { key: key(3), data: state() },
        from_mint: mint(4),
        from_token_account: tokens(5, 300),
        to_mint: mint(6),
        to_token_account: tokens(7, 0),
        hla_program: key(10),
        hla_operating_account: Pubkey { bytes: HLA_OPS_ACCOUNT_ID },
        hla_operating_from_token_account: tokens(12, 0),
        token_program: key(8),
    }
}

fn add_accounts() -> AddFundsInputAccounts {
    AddFundsInputAccounts {
        owner_account: key(1),
        owner_from_token_account: tokens(2, u64::MAX),
        ddca_account: Account { key: key(3), data: state() },
        from_token_account: tokens(5, 0),
        token_program: key(8),
    }
}

fn close_accounts() -> CloseInputAccounts {
    CloseInputAccounts {
        owner_account: key(1),
        owner_from_token_account: tokens(21, 0),
        owner_to_token_account: tokens(22, 0),
        ddca_account: Account { key: key(3), data: state() },
        ddca_from_token_account: tokens(5, 10000),
        ddca_to_token_account: tokens(7, 777),
        operating_account: Pubkey { bytes: DDCA_OPERATING_ACCOUNT_ID },
        operating_from_token_account: tokens(31, 0),
        operating_to_token_account: tokens(32, 0),
        token_program: key(8),
    }
}

#[test]
fn guarded_creation() {
    let mut accounts = create_accounts();
    let raw = Err(Refusal::Constraint(ConstraintError::Raw));
    assert_eq!(process_create(&mut accounts, 1, 2, 35, 10, WEEK - 1, None), raw);
    assert_eq!(process_create(&mut accounts, 1, 2, 35, 0, WEEK, None), raw);
    assert_eq!(
        process_create(&mut accounts, 1, 2, 35, 10, WEEK, None),
        Err(Refusal::Error(ErrorCode::InvalidAmounts))
    );
    assert_eq!(
        process_create(&mut accounts, 1, 2, 0, 10, WEEK, None),
        Err(Refusal::Error(ErrorCode::InvalidSwapsCount))
    );
    assert_eq!(process_create(&mut accounts, 1, 2, 30, 10, WEEK, None), Err(Refusal::NoClock));
    assert_eq!(
        process_create(&mut accounts, 1, 2, 922337203686, 1, WEEK, NOW),
        Err(Refusal::OutOfRange)
    );
    assert_eq!(accounts, create_accounts());
    let deposit = process_create(&mut accounts, 1, 2, 30, 10, WEEK, NOW).unwrap();
    assert_eq!(deposit.lamports, 60000000);
    assert_eq!(accounts.ddca_account.data.total_deposits_amount, 30);
    assert_eq!(accounts.ddca_account.data.block_height, 1);
}

#[test]
fn guarded_swap() {
    let mut accounts = wake_accounts();
    assert_eq!(
        process_wake_and_swap(&mut accounts, &key(11), 1, 0, None),
        Err(Refusal::Constraint(ConstraintError::Address))
    );
    assert_eq!(
        process_wake_and_swap(&mut accounts, &key(10), 1, 0, None),
        Err(Refusal::Error(ErrorCode::InvalidSwapSlippage))
    );
    assert_eq!(
        process_wake_and_swap(&mut accounts, &key(10), 1, 50, None),
        Err(Refusal::NoClock)
    );
    assert_eq!(
        process_wake_and_swap(&mut accounts, &key(10), 1, 50, Some(0)),
        Err(Refusal::OutOfRange)
    );
    assert_eq!(
        process_wake_and_swap(&mut accounts, &key(10), 1, 50, Some(1640003601)),
        Err(Refusal::Error(ErrorCode::InvalidSwapSchedule))
    );
    assert_eq!(accounts, wake_accounts());
    let call = process_wake_and_swap(&mut accounts, &key(10), 1, 50, NOW).unwrap();
    assert_eq!(call.amount, 10);
    assert_eq!(accounts.ddca_account.data.last_completed_swap_ts, START);
    accounts.to_mint = mint(4);
    assert_eq!(
        process_wake_and_swap(&mut accounts, &key(11), 1, 50, NOW),
        Err(Refusal::Constraint(ConstraintError::Raw))
    );
}

#[test]
fn guarded_outcome() {
    let mut ddca = state();
    ddca.swap_count = 1;
    let before = VaultBalances { from_amount: 100, to_amount: 0 };
    let after = VaultBalances { from_amount: 90, to_amount: 300 };
    assert_eq!(process_outcome(&mut ddca, &after, &before), Err(Refusal::OutOfRange));
    assert_eq!(ddca.swap_avg_rate, 0);
    assert_eq!(process_outcome(&mut ddca, &before, &after), Ok(()));
    assert_eq!(ddca.swap_avg_rate, 15);
}

#[test]
fn guarded_deposit() {
    let mut accounts = add_accounts();
    accounts.owner_account = key(9);
    assert_eq!(
        process_add_funds(&mut accounts, 20, NOW),
        Err(Refusal::Constraint(ConstraintError::Raw))
    );
    accounts.owner_account = key(1);
    assert_eq!(
        process_add_funds(&mut accounts, 15, None),
        Err(Refusal::Error(ErrorCode::InvalidAmounts))
    );
    assert_eq!(process_add_funds(&mut accounts, 20, None), Err(Refusal::NoClock));
    assert_eq!(
        process_add_funds(&mut accounts, u64::MAX - 5, NOW),
        Err(Refusal::OutOfRange)
    );
    assert_eq!(accounts, add_accounts());
    assert_eq!(process_add_funds(&mut accounts, 20, NOW).unwrap().swap_count, 2);
    assert_eq!(accounts.ddca_account.data.total_deposits_amount, 320);
    accounts.ddca_account.data.amount_per_swap = 0;
    assert_eq!(process_add_funds(&mut accounts, 20, NOW), Err(Refusal::OutOfRange));
}

#[test]
fn only_the_owner_can_close() {
    let mut accounts = close_accounts();
    assert_eq!(process_close(&accounts), Ok(close(&accounts)));
    accounts.operating_account = key(9);
    assert_eq!(process_close(&accounts), Err(Refusal::Constraint(ConstraintError::Address)));
    accounts.owner_account = key(9);
    assert_eq!(process_close(&accounts), Err(Refusal::Constraint(ConstraintError::Raw)));
    let mut accounts = close_accounts();
    accounts.ddca_to_token_account = tokens(7, u64::MAX);
    assert_eq!(process_close(&accounts), Err(Refusal::OutOfRange));
}
