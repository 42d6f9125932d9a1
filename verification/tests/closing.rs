use ddca::accounts::{Account, TokenAccount};
use ddca::bytes::u64_to_be_bytes;
use ddca::closing::{can_close, fee_on_withdrawal};
use ddca::constants::{DDCA_OPERATING_ACCOUNT_ID, DDCA_PROGRAM_ID, HLA_OPS_ACCOUNT_ID};
use ddca::cpi::{CloseAccount, CpiContext, SignerSeeds, TokenCall, Transfer};
use ddca::error::ConstraintError;
use ddca::pubkey::Pubkey;
use ddca::{close, CloseInputAccounts, DdcaAccount};
use std::str::FromStr;

fn key(n: u8) -> Pubkey {
    Pubkey { bytes: [n; 32] }
}

fn tokens(n: u8, amount: u64) -> Account<TokenAccount> {
    Account { key: key(n), data: TokenAccount { amount } }
}

fn state() -> DdcaAccount {
    DdcaAccount {
        owner_acc_addr: key(1),
        from_mint: key(4),
        from_mint_decimals: 6,
        from_tacc_addr: key(5),
        to_mint: key(6),
        to_mint_decimals: 9,
        to_tacc_addr: key(7),
        block_height: 258,
        pda_bump: 253,
        total_deposits_amount: 300,
        amount_per_swap: 10,
        start_ts: 1640000000,
        interval_in_seconds: 604800,
        last_completed_swap_ts: 0,
        is_paused: false,
        swap_count: 0,
        swap_avg_rate: 0,
        last_deposit_ts: 1640000000,
    }
}

fn accounts(from_amount: u64, to_amount: u64) -> CloseInputAccounts {
    CloseInputAccounts {
        owner_account: key(1),
        owner_from_token_account: tokens(21, 0),
        owner_to_token_account: tokens(22, 0),
        ddca_account: Account { key: key(3), data: state() },
        ddca_from_token_account: tokens(5, from_amount),
        ddca_to_token_account: tokens(7, to_amount),
        operating_account: Pubkey { bytes: DDCA_OPERATING_ACCOUNT_ID },
        operating_from_token_account: tokens(31, 0),
        operating_to_token_account: tokens(32, 0),
        token_program: key(8),
    }
}

fn transfer(from: u8, to: u8, amount: u64) -> TokenCall {
    TokenCall::Transfer(
        CpiContext {
            program: key(8),
            accounts: Transfer { from: key(from), to: key(to), authority: key(3) },
        },
        amount,
    )
}

fn closing(account: u8) -> TokenCall {
    TokenCall::CloseAccount(CpiContext {
        program: key(8),
        accounts: CloseAccount { account: key(account), destination: key(1), authority: key(3) },
    })
}

#[test]
fn both_vaults_are_emptied_and_closed() {
    let result = close(&accounts(10000, 777));
    assert_eq!(
        result.calls,
        vec![
            transfer(5, 31, 50),
            transfer(5, 21, 9950),
            closing(5),
            transfer(7, 32, 3),
            transfer(7, 22, 774),
            closing(7),
        ]
    );
}

#[test]
fn nothing_is_moved_where_there_is_nothing() {
    assert_eq!(
        close(&accounts(0, 199)).calls,
        vec![closing(5), transfer(7, 22, 199), closing(7)]
    );
    assert_eq!(close(&accounts(0, 0)).calls, vec![closing(5), closing(7)]);
}

#[test]
fn a_closing_is_signed_with_the_owners_seeds() {
    let result = close(&accounts(1, 1));
    assert_eq!(
        result.seeds.seeds,
        vec![vec![1u8; 32], vec![0, 0, 0, 0, 0, 0, 1, 2], b"ddca-seed".to_vec(), vec![253]]
    );
}

#[test]
fn fees() {
    assert_eq!(fee_on_withdrawal(0), 0);
    assert_eq!(fee_on_withdrawal(199), 0);
    assert_eq!(fee_on_withdrawal(200), 1);
    assert_eq!(fee_on_withdrawal(399), 1);
    assert_eq!(fee_on_withdrawal(1000000), 5000);
    assert_eq!(fee_on_withdrawal(368934881474191032), 1844674407370955);
}

#[test]
fn what_leaves_a_vault_is_what_it_held() {
    for amount in [0u64, 1, 199, 200, 201, 12345, 368934881474191032] {
        let mut sum: u64 = 0;
        for call in close(&accounts(amount, 0)).calls {
            if let TokenCall::Transfer(context, moved) = call {
                assert_eq!(context.accounts.from, key(5));
                sum += moved;
            }
        }
        assert_eq!(sum, amount);
    }
}

#[test]
fn the_range_of_closings() {
    assert!(can_close(&accounts(368934881474191032, 368934881474191032)));
    assert!(!can_close(&accounts(368934881474191033, 0)));
    assert!(!can_close(&accounts(0, 368934881474191033)));
}

#[test]
fn what_may_be_closed() {
    assert_eq!(accounts(1, 1).check_constraints(), Ok(()));
    let mut other = accounts(1, 1);
    other.operating_account = key(1);
    assert_eq!(other.check_constraints(), Err(ConstraintError::Address));
    other.owner_account = key(2);
    assert_eq!(other.check_constraints(), Err(ConstraintError::Raw));
}

#[test]
fn block_heights_as_bytes() {
    for height in [0u64, 1, 255, 256, 0x0102030405060708, u64::MAX] {
        assert_eq!(u64_to_be_bytes(height), height.to_be_bytes().to_vec());
    }
}

#[test]
fn seeds_tell_accounts_apart() {
    let flat = |seeds: SignerSeeds| seeds.seeds.concat();
    let base = flat(SignerSeeds::new(&key(1), 258, 253));
    assert_eq!(base.len(), 50);
    assert_ne!(base, flat(SignerSeeds::new(&key(2), 258, 253)));
    assert_ne!(base, flat(SignerSeeds::new(&key(1), 513, 253)));
    assert_ne!(base, flat(SignerSeeds::new(&key(1), 258, 254)));
}

#[test]
fn known_addresses() {
    let bytes = |text| solana_program::pubkey::Pubkey::from_str(text).unwrap().to_bytes();
    assert_eq!(DDCA_PROGRAM_ID, bytes("3nmm1awnyhABJdoA25MYVksxz1xnpUFeepJJyRTZfsyD"));
    assert_eq!(DDCA_OPERATING_ACCOUNT_ID, bytes("6u1Hc9AqC6AvpYDQcFjhMVqAwcQ83Kn5TVm6oWMjDDf1"));
    assert_eq!(HLA_OPS_ACCOUNT_ID, bytes("FZMd4pn9FsvMC55D4XQfaexJvKBtQpVuqMk5zuonLRDX"));
}

#[test]
fn addresses_compare_by_their_bytes() {
    let mut bytes = [9u8; 32];
    assert!(Pubkey { bytes } == key(9));
    bytes[31] = 8;
    assert!(Pubkey { bytes } != key(9));
}
