//! Balances of token accounts, read from what the accounts store.
use crate::bytes::{byte_range_of_u64, le_bytes, le_value, le_value_of_le_bytes};
use crate::effects::le_value_by_weight;
use anchor_spl::token::accessor;
use solana_program::account_info::AccountInfo;
use vstd::prelude::*;

verus! {

/// Calls `anchor_spl::token::accessor::amount` on an account that stores `data`. The address and
/// the other fields of the account are of no consequence to it, and its reading cannot fail on an
/// account that nothing else holds.
/// Trusted: the result is the number spelled by the eight bytes from the 64th on, lowest first.
#[verifier::external_body]
pub(crate) fn token_amount(data: &[u8]) -> (amount: u64)
    requires
        72 <= data@.len(),
    ensures
        amount == le_value(data@.subrange(64, 72)),
{
    let key = solana_program::pubkey::Pubkey::default();
    let mut lamports: u64 = 0;
    let mut data = data.to_vec();
    let account = AccountInfo::new(
        &key, false, false, &mut lamports, &mut data, &key, false, 0,
    );
    accessor::amount(&account).unwrap()
}

/// Whether a token account that stores `data` holds `amount` tokens: eight bytes from the 64th on
/// spell it, each weighing 256 times the one before it.
pub open spec fn stores_amount(data: Seq<u8>, amount: u64) -> bool {
    amount == data[64] + 0x100 * data[65] + 0x10000 * data[66] + 0x1000000 * data[67] + 0x100000000
        * data[68] + 0x10000000000 * data[69] + 0x1000000000000 * data[70] + 0x100000000000000
        * data[71]
}

/// The tokens in the two vaults of a recurring swap.
#[derive(Debug, Clone, Copy, PartialEq, Eq)]
pub struct VaultBalances {
    pub from_amount: u64,
    pub to_amount: u64,
}

impl VaultBalances {
    /// Reads the balances from what the two token accounts store.
    pub fn read(from_data: &[u8], to_data: &[u8]) -> (balances: VaultBalances)
        requires
            72 <= from_data@.len(),
            72 <= to_data@.len(),
        ensures
            balances.from_amount == le_value(from_data@.subrange(64, 72)),
            balances.to_amount == le_value(to_data@.subrange(64, 72)),
            stores_amount(from_data@, balances.from_amount),
            stores_amount(to_data@, balances.to_amount),
    {
        proof {
            le_value_by_weight(from_data@.subrange(64, 72));
            le_value_by_weight(to_data@.subrange(64, 72));
        }
        VaultBalances { from_amount: token_amount(from_data), to_amount: token_amount(to_data) }
    }
}

/// The balance that is read from a token account is the one that it stores: the eight bytes from
/// the 64th on are those of the amount, lowest first.
pub proof fn stored_amount_is_read(data: Seq<u8>, amount: u64)
    requires
        72 <= data.len(),
        data.subrange(64, 72) == le_bytes(amount as nat, 8),
    ensures
        le_value(data.subrange(64, 72)) == amount,
{
    byte_range_of_u64();
    le_value_of_le_bytes(amount as nat, 8);
}

} // verus!
