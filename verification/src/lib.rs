//! Recurring swaps of one token for another.
//!
//! An owner deposits tokens and says how many of them to swap, and how often. From then on anyone
//! may wake the account: whenever a checkpoint of its schedule is due, the program asks a liquidity
//! aggregator to swap the agreed amount. The owner may add tokens, and may close the account and
//! take out what is left, but for a fee.
//!
//! The library decides; it performs nothing. Each instruction takes the accounts it is about and
//! returns the calls to be made of other programs, with their accounts, amounts and signing seeds.
pub mod accounts;
pub mod bytes;
pub mod closing;
pub mod constants;
pub mod cpi;
pub mod effects;
pub mod entry;
pub mod error;
pub mod funding;
pub mod history;
pub mod laws;
pub mod pubkey;
pub mod schedule;
pub mod state;
pub mod swap;
pub mod token;

pub use accounts::{
    AddFundsInputAccounts, CloseInputAccounts, CreateInputAccounts, WakeAndSwapInputAccounts,
};
pub use closing::close;
pub use error::ErrorCode;
pub use funding::{add_funds, create};
pub use state::DdcaAccount;
pub use swap::wake_and_swap;
