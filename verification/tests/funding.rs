use ddca::accounts::{Account, Mint, TokenAccount};
use ddca::cpi::{AccountMeta, CpiContext, Transfer};
use ddca::error::ConstraintError;
use ddca::funding::{can_add_funds, can_create, first_swaps_funded, swaps_funded};
use ddca::pubkey::Pubkey;
use ddca::{
    add_funds, create, AddFundsInputAccounts, CreateInputAccounts, DdcaAccount, ErrorCode,
};

const WEEK: u64 = 604800;

fn key(n: u8) -> Pubkey {
    Pubkey { bytes: [n; 32] }
}

fn tokens(n: u8, amount: u64) -> Account<TokenAccount> {
    Account { key: key(n), data: TokenAccount { amount } }
}

fn mint(n: u8, decimals: u8) -> Account<Mint> {
    Account { key: key(n), data: Mint { decimals } }
}

fn blank() -> DdcaAccount {
    DdcaAccount {
        owner_acc_addr: key(0),
        from_mint: key(0),
        from_mint_decimals: 0,
        from_tacc_addr: key(0),
        to_mint: key(0),
        to_mint_decimals: 0,
        to_tacc_addr: key(0),
        block_height: 0,
        pda_bump: 0,
        total_deposits_amount: 0,
        amount_per_swap: 0,
        start_ts: 0,
        interval_in_seconds: 0,
        last_completed_swap_ts: 0,
        is_paused: false,
        swap_count: 0,
        swap_avg_rate: 0,
        last_deposit_ts: 0,
    }
}

fn create_accounts() -> CreateInputAccounts {
    CreateInputAccounts {
        owner_account: key(1),
        owner_from_token_account: tokens(2, 1000),
        ddca_account: Account { key: key(3), data: blank() },
        from_mint: mint(4, 6),
        from_token_account: tokens(5, 0),
        to_mint: mint(6, 9),
        to_token_account: tokens(7, 0),
        token_program: key(8),
    }
}

fn add_accounts() -> AddFundsInputAccounts {
    let mut data = blank();
    data.owner_acc_addr = key(1);
    data.amount_per_swap = 10;
    data.total_deposits_amount = 30;
    data.swap_count = 2;
    AddFundsInputAccounts {
        owner_account: key(1),
        owner_from_token_account: tokens(2, 1000),
        ddca_account: Account { key: key(3), data },
        from_token_account: tokens(5, 0),
        token_program: key(8),
    }
}

#[test]
fn swaps_are_counted() {
    assert_eq!(swaps_funded(30, 10), Ok(3));
    assert_eq!(swaps_funded(10, 10), Ok(1));
    assert_eq!(swaps_funded(0, 10), Ok(0));
    assert_eq!(swaps_funded(31, 10), Err(ErrorCode::InvalidAmounts));
    assert_eq!(first_swaps_funded(30, 10), Ok(3));
    assert_eq!(first_swaps_funded(0, 10), Err(ErrorCode::InvalidSwapsCount));
    assert_eq!(first_swaps_funded(20, 10), Ok(2));
    assert_eq!(first_swaps_funded(10, 10), Err(ErrorCode::InvalidSwapsCount));
    assert_eq!(first_swaps_funded(15, 10), Err(ErrorCode::InvalidAmounts));
}

#[test]
fn creation_sets_the_terms() {
    let mut accounts = create_accounts();
    let deposit = create(&mut accounts, 77, 254, 30, 10, WEEK, 1640000000).unwrap();

    let mut expected = blank();
    expected.owner_acc_addr = key(1);
    expected.from_mint = key(4);
    expected.from_mint_decimals = 6;
    expected.from_tacc_addr = key(5);
    expected.to_mint = key(6);
    expected.to_mint_decimals = 9;
    expected.to_tacc_addr = key(7);
    expected.block_height = 77;
    expected.pda_bump = 254;
    expected.total_deposits_amount = 30;
    expected.amount_per_swap = 10;
    expected.interval_in_seconds = WEEK;
    expected.start_ts = 1640000000;
    expected.last_deposit_ts = 1640000000;
    assert_eq!(accounts.ddca_account.data, expected);
    assert_eq!(accounts.ddca_account.key, key(3));

    assert_eq!(deposit.swap_count, 3);
    assert_eq!(deposit.lamports, 60000000);
    assert_eq!(deposit.amount, 30);
    assert_eq!(
        deposit.transfer,
        CpiContext {
            program: key(8),
            accounts: Transfer { from: key(2), to: key(5), authority: key(1) },
        }
    );
}

#[test]
fn creation_moves_the_fees_of_all_swaps() {
    let mut accounts = create_accounts();
    let deposit = create(&mut accounts, 77, 254, 30, 10, WEEK, 1640000000).unwrap();
    // 60,000,000 lamports are 0x03938700.
    assert_eq!(deposit.gas.data, vec![2, 0, 0, 0, 0x00, 0x87, 0x93, 0x03, 0, 0, 0, 0]);
    assert_eq!(deposit.gas.program_id, key(0));
    assert_eq!(
        deposit.gas.accounts,
        vec![
            AccountMeta { pubkey: key(1), is_signer: true, is_writable: true },
            AccountMeta { pubkey: key(3), is_signer: false, is_writable: true },
        ]
    );
}

#[test]
fn the_fees_instruction_is_the_system_programs_transfer() {
    let mut accounts = create_accounts();
    let gas = create(&mut accounts, 77, 254, 30, 10, WEEK, 1640000000).unwrap().gas;
    let from = solana_program::pubkey::Pubkey::new_from_array([1; 32]);
    let to = solana_program::pubkey::Pubkey::new_from_array([3; 32]);
    let expected = solana_program::system_instruction::transfer(&from, &to, 60000000);
    assert_eq!(gas.data, expected.data);
    assert_eq!(gas.program_id.bytes, expected.program_id.to_bytes());
    assert_eq!(gas.accounts.len(), expected.accounts.len());
    for (ours, theirs) in gas.accounts.iter().zip(expected.accounts.iter()) {
        assert_eq!(ours.pubkey.bytes, theirs.pubkey.to_bytes());
        assert_eq!(ours.is_signer, theirs.is_signer);
        assert_eq!(ours.is_writable, theirs.is_writable);
    }
}

#[test]
fn a_refused_creation_changes_nothing() {
    let mut accounts = create_accounts();
    let result = create(&mut accounts, 77, 254, 35, 10, WEEK, 1640000000);
    assert_eq!(result, Err(ErrorCode::InvalidAmounts));
    assert_eq!(accounts, create_accounts());
    let result = create(&mut accounts, 77, 254, 10, 10, WEEK, 1640000000);
    assert_eq!(result, Err(ErrorCode::InvalidSwapsCount));
    assert_eq!(accounts, create_accounts());
}

#[test]
fn an_empty_first_deposit_is_refused() {
    let mut accounts = create_accounts();
    let result = create(&mut accounts, 77, 254, 0, 10, WEEK, 1640000000);
    assert_eq!(result, Err(ErrorCode::InvalidSwapsCount));
    assert_eq!(accounts, create_accounts());
}

#[test]
fn an_empty_further_deposit_moves_nothing() {
    let mut accounts = add_accounts();
    let deposit = add_funds(&mut accounts, 0, 1650000000).unwrap();
    assert_eq!(deposit.amount, 0);
    assert_eq!(deposit.gas.data, vec![2, 0, 0, 0, 0, 0, 0, 0, 0, 0, 0, 0]);
    assert_eq!(accounts.ddca_account.data.total_deposits_amount, 30);
}

#[test]
fn a_clock_before_the_epoch_wraps_around() {
    let mut accounts = create_accounts();
    create(&mut accounts, 77, 254, 30, 10, WEEK, -1).unwrap();
    assert_eq!(accounts.ddca_account.data.start_ts, u64::MAX);
}

#[test]
fn what_may_be_created() {
    let accounts = create_accounts();
    assert_eq!(accounts.check_constraints(1000, 10, WEEK), Ok(()));
    assert_eq!(accounts.check_constraints(1001, 10, WEEK), Err(ConstraintError::Raw));
    assert_eq!(accounts.check_constraints(1000, 0, WEEK), Err(ConstraintError::Raw));
    assert_eq!(accounts.check_constraints(1000, 10, WEEK - 1), Err(ConstraintError::Raw));
    let mut accounts = create_accounts();
    accounts.to_mint = mint(4, 9);
    assert_eq!(accounts.check_constraints(1000, 10, WEEK), Err(ConstraintError::Raw));
}

#[test]
fn the_range_of_first_deposits() {
    // 922,337,203,685 swaps are the most whose fees fit in 64 bits.
    assert!(can_create(922337203685, 1));
    assert!(!can_create(922337203686, 1));
    assert!(!can_create(10, 0));
    // Refused before any fee is computed.
    assert!(can_create(u64::MAX, 2));
}

#[test]
fn a_deposit_is_added_up() {
    let mut accounts = add_accounts();
    let deposit = add_funds(&mut accounts, 20, 1650000000).unwrap();
    let mut expected = add_accounts();
    expected.ddca_account.data.total_deposits_amount = 50;
    expected.ddca_account.data.last_deposit_ts = 1650000000;
    assert_eq!(accounts, expected);
    assert_eq!(deposit.swap_count, 2);
    assert_eq!(deposit.lamports, 40000000);
    assert_eq!(deposit.amount, 20);
    assert_eq!(
        deposit.transfer,
        CpiContext {
            program: key(8),
            accounts: Transfer { from: key(2), to: key(5), authority: key(1) },
        }
    );
    // 40,000,000 lamports are 0x02625a00.
    assert_eq!(deposit.gas.data, vec![2, 0, 0, 0, 0x00, 0x5a, 0x62, 0x02, 0, 0, 0, 0]);
}

#[test]
fn a_single_swap_can_be_added() {
    let mut accounts = add_accounts();
    assert!(add_funds(&mut accounts, 10, 1650000000).is_ok());
    assert_eq!(accounts.ddca_account.data.total_deposits_amount, 40);
}

#[test]
fn a_refused_deposit_changes_nothing() {
    let mut accounts = add_accounts();
    assert_eq!(add_funds(&mut accounts, 15, 1650000000), Err(ErrorCode::InvalidAmounts));
    assert_eq!(accounts, add_accounts());
}

#[test]
fn what_may_be_added() {
    let accounts = add_accounts();
    assert_eq!(accounts.check_constraints(1000), Ok(()));
    assert_eq!(accounts.check_constraints(1001), Err(ConstraintError::Raw));
    let mut accounts = add_accounts();
    accounts.owner_account = key(9);
    assert_eq!(accounts.check_constraints(10), Err(ConstraintError::Raw));
}

#[test]
fn the_range_of_further_deposits() {
    let mut ddca = add_accounts().ddca_account.data;
    assert!(can_add_funds(&ddca, 20));
    ddca.total_deposits_amount = u64::MAX - 20;
    assert!(can_add_funds(&ddca, 20));
    assert!(!can_add_funds(&ddca, 30));
    assert!(can_add_funds(&ddca, 35));
    ddca.amount_per_swap = 0;
    assert!(!can_add_funds(&ddca, 20));
}

#[test]
fn fees_of_two_deposits_add_up() {
    let fees = |amount: u64| {
        let mut accounts = add_accounts();
        let data = add_funds(&mut accounts, amount, 1650000000).unwrap().gas.data;
        let mut lamports = [0u8; 8];
        lamports.copy_from_slice(&data[4..12]);
        u64::from_le_bytes(lamports)
    };
    assert_eq!(fees(20) + fees(30), fees(50));
    assert_eq!(fees(50), 100000000);
}

#[test]
fn the_size_of_an_account() {
    assert_eq!(DdcaAccount::LEN, 236);
    // With the discriminator, an account fits in the space that is set aside for it.
    assert!(8 + DdcaAccount::LEN <= 500);
}

#[test]
fn texts_of_the_errors() {
    assert_eq!(
        ErrorCode::InvalidAmounts.message(),
        "Deposit amount must be a multiple of the amount per swap"
    );
    assert_eq!(
        ErrorCode::InvalidSwapsCount.message(),
        "The number of recurring swaps must be greater than 1"
    );
    assert_eq!(ErrorCode::DdcaIsPaused.message(), "This DDCA is paused");
    assert_eq!(ErrorCode::InsufficientBalanceForSwap.message(), "Insufficient balance for swap");
    assert_eq!(
        ErrorCode::InvalidSwapSchedule.message(),
        "This DDCA is not schedule for the provided time"
    );
    assert_eq!(ErrorCode::InvalidSwapSlippage.message(), "Invalid swap slippage");
}
