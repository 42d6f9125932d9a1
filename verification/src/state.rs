//! The state that the program keeps for one recurring swap.
use crate::constants::MINIMUM_INTERVAL_IN_SECONDS;
use crate::pubkey::Pubkey;
use crate::schedule::on_schedule;
use vstd::prelude::*;

verus! {

/// One recurring swap: whose it is, which tokens it swaps, when, and what was done so far.
#[derive(Debug, Clone, Copy, PartialEq, Eq)]
pub struct DdcaAccount {
    pub owner_acc_addr: Pubkey,
    pub from_mint: Pubkey,
    pub from_mint_decimals: u8,
    pub from_tacc_addr: Pubkey,
    pub to_mint: Pubkey,
    pub to_mint_decimals: u8,
    pub to_tacc_addr: Pubkey,
    /// The block height at which the account was made; one of its seeds.
    pub block_height: u64,
    pub pda_bump: u8,
    /// All tokens that were ever deposited.
    pub total_deposits_amount: u64,
    pub amount_per_swap: u64,
    /// The time of the first checkpoint.
    pub start_ts: u64,
    pub interval_in_seconds: u64,
    /// The checkpoint that was served last; zero before the first swap.
    pub last_completed_swap_ts: u64,
    pub is_paused: bool,
    pub swap_count: u64,
    pub swap_avg_rate: u64,
    pub last_deposit_ts: u64,
}

impl DdcaAccount {
    /// The size of the stored fields, in bytes.
    pub const LEN: usize = 32 + 32 + 1 + 32 + 32 + 1 + 32 + 8 + 1 + 8 + 8 + 8 + 8 + 8 + 1 + 8 + 8
        + 8;

    /// Whether no swap was made and nothing was paused: the state of the fields that are not set
    /// when the account is made.
    pub open spec fn is_new(self) -> bool {
        &&& self.last_completed_swap_ts == 0
        &&& !self.is_paused
        &&& self.swap_count == 0
        &&& self.swap_avg_rate == 0
    }

    /// What holds of every account of the program, at any time: swaps of a positive amount, at
    /// least a week apart, between two different tokens; deposits that are a whole number of swaps,
    /// more than one; and no more swaps than there were checkpoints up to the one served last.
    pub open spec fn well_formed(self) -> bool {
        &&& 0 < self.amount_per_swap
        &&& MINIMUM_INTERVAL_IN_SECONDS <= self.interval_in_seconds
        &&& self.from_mint != self.to_mint
        &&& self.total_deposits_amount % self.amount_per_swap == 0
        &&& 1 < self.total_deposits_amount / self.amount_per_swap
        &&& self.swap_count == 0 ==> self.last_completed_swap_ts == 0
        &&& 0 < self.swap_count ==> self.checkpoints_served_in_order()
    }

    /// Whether the checkpoint served last is on the schedule, and there are at least as many
    /// checkpoints up to it as there were swaps.
    pub open spec fn checkpoints_served_in_order(self) -> bool {
        let elapsed = self.last_completed_swap_ts - self.start_ts;
        &&& on_schedule(
            self.start_ts as int,
            self.interval_in_seconds as int,
            self.last_completed_swap_ts as int,
        )
        &&& self.swap_count <= elapsed / self.interval_in_seconds as int + 1
    }
}

/// The seconds since the Unix epoch that the clock shows, read as an unsigned number: a time
/// before the epoch wraps around.
pub open spec fn clock_seconds(unix_timestamp: i64) -> u64 {
    if unix_timestamp >= 0 {
        unix_timestamp as u64
    } else {
        (unix_timestamp + 0x1_0000_0000_0000_0000) as u64
    }
}

/// See the spec function [`clock_seconds`].
pub fn seconds_of_clock(unix_timestamp: i64) -> (seconds: u64)
    ensures
        seconds == clock_seconds(unix_timestamp),
{
    assert(unix_timestamp < 0 ==> (unix_timestamp as u64) == unix_timestamp
        + 0x1_0000_0000_0000_0000) by (bit_vector);
    unix_timestamp as u64
}

} // verus!
