use ddca::accounts::{Account, Mint, TokenAccount};
use ddca::constants::HLA_OPS_ACCOUNT_ID;
use ddca::cpi::{CpiContext, Swap};
use ddca::error::ConstraintError;
use ddca::pubkey::Pubkey;
use ddca::schedule::{due_checkpoint, schedule_fits, tolerance_in_seconds};
use ddca::swap::{can_complete_swap, can_wake, check_swap_request, complete_swap};
use ddca::token::VaultBalances;
use ddca::{wake_and_swap, DdcaAccount, ErrorCode, WakeAndSwapInputAccounts};

const WEEK: u64 = 604800;
const START: u64 = 1640000000;

fn key(n: u8) -> Pubkey {
    Pubkey { bytes: [n; 32] }
}

fn tokens(n: u8, amount: u64) -> Account<TokenAccount> {
    Account { key: key(n), data: TokenAccount { amount } }
}

fn mint(n: u8, decimals: u8) -> Account<Mint> {
    Account { key: key(n), data: Mint { decimals } }
}

fn state() -> DdcaAccount {
    DdcaAccount {
        owner_acc_addr: key(1),
        from_mint: key(4),
        from_mint_decimals: 6,
        from_tacc_addr: key(5),
        to_mint: key(6),
        to_mint_decimals: 9,
        to_tacc_addr: key(7),
        block_height: 0x0102030405060708,
        pda_bump: 254,
        total_deposits_amount: 300,
        amount_per_swap: 10,
        start_ts: START,
        interval_in_seconds: WEEK,
        last_completed_swap_ts: 0,
        is_paused: false,
        swap_count: 0,
        swap_avg_rate: 0,
        last_deposit_ts: START,
    }
}

fn accounts() -> WakeAndSwapInputAccounts {
    WakeAndSwapInputAccounts {
        owner_account: key(20),
        ddca_account: Account { key: key(3), data: state() },
        from_mint: mint(4, 6),
        from_token_account: tokens(5, 300),
        to_mint: mint(6, 9),
        to_token_account: tokens(7, 0),
        hla_program: key(10),
        hla_operating_account: Pubkey { bytes: HLA_OPS_ACCOUNT_ID },
        hla_operating_from_token_account: tokens(12, 0),
        token_program: key(8),
    }
}

#[test]
fn tolerances() {
    assert_eq!(tolerance_in_seconds(0), 0);
    assert_eq!(tolerance_in_seconds(99), 0);
    assert_eq!(tolerance_in_seconds(300), 3);
    assert_eq!(tolerance_in_seconds(359999), 3599);
    assert_eq!(tolerance_in_seconds(360000), 3600);
    assert_eq!(tolerance_in_seconds(WEEK), 3600);
}

#[test]
fn windows_around_the_checkpoints() {
    assert_eq!(due_checkpoint(START, WEEK, 0, START), Some(START));
    assert_eq!(due_checkpoint(START, WEEK, 0, START + 3600), Some(START));
    assert_eq!(due_checkpoint(START, WEEK, 0, START + 3601), None);
    assert_eq!(due_checkpoint(START, WEEK, 0, START + WEEK - 3601), None);
    assert_eq!(due_checkpoint(START, WEEK, 0, START + WEEK - 3600), Some(START + WEEK));
    assert_eq!(due_checkpoint(START, WEEK, 0, START + WEEK + 3600), Some(START + WEEK));
    assert_eq!(due_checkpoint(START, WEEK, START + WEEK, START + WEEK - 3600), None);
    assert_eq!(due_checkpoint(START, WEEK, START + WEEK, START + WEEK + 3600), None);
    assert_eq!(
        due_checkpoint(START, WEEK, START + WEEK, START + 5 * WEEK + 1),
        Some(START + 5 * WEEK)
    );
}

#[test]
fn the_range_of_schedules() {
    assert!(schedule_fits(START, WEEK, 0, START));
    assert!(!schedule_fits(START, 0, 0, START));
    assert!(!schedule_fits(START, WEEK, 0, START - 1));
    // The next checkpoint does not fit.
    assert!(!schedule_fits(START, u64::MAX, 0, START));
    // The window around the checkpoint reaches below zero, unless that checkpoint was served.
    assert!(!schedule_fits(10, WEEK, 0, 20));
    assert!(schedule_fits(10, WEEK, 10, 20));
    // The window around the next checkpoint reaches beyond 64 bits.
    let start = u64::MAX - WEEK;
    assert!(schedule_fits(start, WEEK, 0, start));
    assert!(!schedule_fits(start, WEEK, 0, u64::MAX - 1));
    assert!(schedule_fits(start, WEEK, u64::MAX, u64::MAX - 1));
}

#[test]
fn a_due_swap_is_made() {
    let mut woken = accounts();
    let call = wake_and_swap(&mut woken, 17, 50, (START + WEEK + 5) as i64).unwrap();

    let mut expected = accounts();
    expected.ddca_account.data.last_completed_swap_ts = START + WEEK;
    expected.ddca_account.data.swap_count = 1;
    assert_eq!(woken, expected);

    assert_eq!(call.amount, 10);
    assert_eq!(call.min_out_amount, 17);
    assert_eq!(call.slippage, 50);
    assert_eq!(
        call.context,
        CpiContext {
            program: key(10),
            accounts: Swap {
                hla_ops_account: Pubkey { bytes: HLA_OPS_ACCOUNT_ID },
                hla_ops_token_account: key(12),
                vault_account: key(3),
                from_token_account: key(5),
                from_token_mint: key(4),
                to_token_account: key(7),
                to_token_mint: key(6),
                token_program_account: key(8),
            },
        }
    );
    assert_eq!(
        call.seeds.seeds,
        vec![vec![1u8; 32], vec![1, 2, 3, 4, 5, 6, 7, 8], b"ddca-seed".to_vec(), vec![254]]
    );
}

#[test]
fn a_checkpoint_is_served_once() {
    let mut woken = accounts();
    assert!(wake_and_swap(&mut woken, 17, 50, START as i64).is_ok());
    let served = woken.ddca_account.data;
    let again = wake_and_swap(&mut woken, 17, 50, START as i64 + 1);
    assert_eq!(again, Err(ErrorCode::InvalidSwapSchedule));
    assert_eq!(woken.ddca_account.data, served);
    assert!(wake_and_swap(&mut woken, 17, 50, (START + WEEK - 3600) as i64).is_ok());
    assert_eq!(woken.ddca_account.data.last_completed_swap_ts, START + WEEK);
    let again = wake_and_swap(&mut woken, 17, 50, (START + WEEK + 3600) as i64);
    assert_eq!(again, Err(ErrorCode::InvalidSwapSchedule));
    assert!(wake_and_swap(&mut woken, 17, 50, (START + 3 * WEEK) as i64).is_ok());
    assert_eq!(woken.ddca_account.data.swap_count, 3);
    assert_eq!(woken.ddca_account.data.last_completed_swap_ts, START + 3 * WEEK);
}

#[test]
fn refused_swaps_change_nothing() {
    let now = START as i64;

    let mut paused = accounts();
    paused.ddca_account.data.is_paused = true;
    paused.from_token_account = tokens(5, 0);
    let before = paused.ddca_account.data;
    assert_eq!(wake_and_swap(&mut paused, 17, 0, now), Err(ErrorCode::DdcaIsPaused));
    assert_eq!(paused.ddca_account.data, before);

    let mut woken = accounts();
    woken.from_token_account = tokens(5, 9);
    assert_eq!(wake_and_swap(&mut woken, 17, 0, now), Err(ErrorCode::InvalidSwapSlippage));
    assert_eq!(wake_and_swap(&mut woken, 17, 101, now), Err(ErrorCode::InvalidSwapSlippage));
    assert_eq!(
        wake_and_swap(&mut woken, 17, 100, now),
        Err(ErrorCode::InsufficientBalanceForSwap)
    );
    assert_eq!(woken.ddca_account.data, state());

    woken.from_token_account = tokens(5, 10);
    assert_eq!(
        wake_and_swap(&mut woken, 17, 100, now + 3601),
        Err(ErrorCode::InvalidSwapSchedule)
    );
    assert_eq!(woken.ddca_account.data, state());
    assert!(wake_and_swap(&mut woken, 17, 100, now + 3600).is_ok());
}

#[test]
fn requests_checked_before_the_clock() {
    assert_eq!(check_swap_request(&accounts(), 1), Ok(()));
    assert_eq!(check_swap_request(&accounts(), 0), Err(ErrorCode::InvalidSwapSlippage));
    let mut poor = accounts();
    poor.from_token_account = tokens(5, 9);
    assert_eq!(check_swap_request(&poor, 1), Err(ErrorCode::InsufficientBalanceForSwap));
}

#[test]
fn the_range_of_requests() {
    assert!(can_wake(&accounts(), 50, START as i64));
    assert!(!can_wake(&accounts(), 50, START as i64 - 1));
    // Refused before the clock is looked at.
    assert!(can_wake(&accounts(), 0, START as i64 - 1));
    let mut busy = accounts();
    busy.ddca_account.data.swap_count = u64::MAX;
    assert!(!can_wake(&busy, 50, START as i64));
    assert!(can_wake(&busy, 50, START as i64 + 3601));
}

#[test]
fn what_may_be_woken() {
    assert_eq!(accounts().check_constraints(&key(10)), Ok(()));
    assert_eq!(accounts().check_constraints(&key(11)), Err(ConstraintError::Address));
    let mut other = accounts();
    other.hla_operating_account = key(10);
    assert_eq!(other.check_constraints(&key(10)), Err(ConstraintError::Address));
    other.from_mint = mint(6, 6);
    assert_eq!(other.check_constraints(&key(10)), Err(ConstraintError::Raw));
    let mut other = accounts();
    other.to_mint = mint(4, 6);
    assert_eq!(other.check_constraints(&key(11)), Err(ConstraintError::Raw));
}

#[test]
fn the_average_rate_moves() {
    let mut ddca = state();
    ddca.swap_count = 1;
    ddca.swap_avg_rate = 10;
    let before = VaultBalances { from_amount: 100, to_amount: 7 };
    let after = VaultBalances { from_amount: 90, to_amount: 312 };
    assert!(can_complete_swap(&ddca, &before, &after));
    complete_swap(&mut ddca, &before, &after);
    // 305 for 10 is a rate of 30, and half of the way from 10 to 30 is gone.
    let mut expected = state();
    expected.swap_count = 1;
    expected.swap_avg_rate = 20;
    assert_eq!(ddca, expected);
}

#[test]
fn outcomes_that_cannot_be_counted_in() {
    let mut ddca = state();
    ddca.swap_count = 1;
    let balances = |from_amount, to_amount| VaultBalances { from_amount, to_amount };
    assert!(!can_complete_swap(&ddca, &balances(100, 0), &balances(100, 50)));
    assert!(!can_complete_swap(&ddca, &balances(100, 0), &balances(101, 50)));
    assert!(!can_complete_swap(&ddca, &balances(100, 51), &balances(90, 50)));
    assert!(can_complete_swap(&ddca, &balances(100, 50), &balances(90, 50)));
    ddca.swap_avg_rate = 1;
    assert!(!can_complete_swap(&ddca, &balances(100, 50), &balances(90, 59)));
    assert!(can_complete_swap(&ddca, &balances(100, 50), &balances(90, 60)));
    ddca.swap_count = u64::MAX;
    assert!(!can_complete_swap(&ddca, &balances(100, 50), &balances(90, 60)));
}

#[test]
fn balances_are_read_from_the_accounts() {
    let mut from = vec![0xffu8; 165];
    let mut to = vec![0xeeu8; 72];
    from[64..72].copy_from_slice(&[8, 7, 6, 5, 4, 3, 2, 1]);
    to[64..72].copy_from_slice(&300u64.to_le_bytes());
    assert_eq!(
        VaultBalances::read(&from, &to),
        VaultBalances { from_amount: 0x0102030405060708, to_amount: 300 }
    );
}
