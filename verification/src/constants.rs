//! The constants of the program.
use vstd::prelude::*;

verus! {

/// The part of a withdrawal that is kept as a fee, over
/// [`WITHDRAW_TOKEN_FEE_DENOMINATOR`].
pub const WITHDRAW_TOKEN_FEE_NUMERATOR: u64 = 50;

/// See [`WITHDRAW_TOKEN_FEE_NUMERATOR`].
pub const WITHDRAW_TOKEN_FEE_DENOMINATOR: u64 = 10000;

/// Lamports in one SOL.
pub const LAMPORTS_PER_SOL: u64 = 1000000000;

/// The lamports set aside for the fees of one swap: twenty million.
pub const SINGLE_SWAP_MINIMUM_LAMPORT_GAS_FEE: u64 = 20000000;

/// The largest slippage that a swap may ask for, in hundredths of a percent: one percent.
pub const SWAP_MAX_PERCENT_SLIPPAGE: u64 = 100;

/// The shortest time between two swaps: one week.
pub const MINIMUM_INTERVAL_IN_SECONDS: u64 = 7 * 24 * 60 * 60;

/// The bytes of `ddca-seed`, the label among the seeds of every account of the program.
pub const SEED_LABEL: [u8; 9] = [100, 100, 99, 97, 45, 115, 101, 101, 100];

/// The address of the program: `3nmm1awnyhABJdoA25MYVksxz1xnpUFeepJJyRTZfsyD`.
pub const DDCA_PROGRAM_ID: [u8; 32] = [
    41, 113, 30, 131, 86, 111, 167, 238, 88, 5, 243, 50, 96, 167, 172, 14, 68, 150, 234, 3, 112,
    147, 241, 10, 91, 38, 233, 111, 6, 139, 180, 244,
];

/// The address of the account that collects the withdrawal fees:
/// `6u1Hc9AqC6AvpYDQcFjhMVqAwcQ83Kn5TVm6oWMjDDf1`.
pub const DDCA_OPERATING_ACCOUNT_ID: [u8; 32] = [
    87, 156, 245, 222, 246, 158, 195, 60, 82, 20, 62, 158, 168, 36, 229, 206, 28, 76, 83, 187, 211,
    29, 98, 16, 64, 107, 152, 13, 162, 223, 234, 140,
];

/// The address of the operating account of the liquidity aggregator:
/// `FZMd4pn9FsvMC55D4XQfaexJvKBtQpVuqMk5zuonLRDX`.
pub const HLA_OPS_ACCOUNT_ID: [u8; 32] = [
    216, 77, 133, 32, 220, 234, 154, 47, 122, 106, 190, 91, 242, 170, 59, 224, 161, 153, 62, 79, 66,
    2, 102, 195, 96, 253, 210, 90, 136, 51, 235, 62,
];

} // verus!
