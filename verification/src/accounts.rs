//! The accounts that each instruction is handed, and the conditions on them.
use crate::constants::{
    DDCA_OPERATING_ACCOUNT_ID, HLA_OPS_ACCOUNT_ID, MINIMUM_INTERVAL_IN_SECONDS,
};
use crate::cpi::{CloseAccount, CpiContext, Transfer};
use crate::error::ConstraintError;
use crate::pubkey::Pubkey;
use crate::state::DdcaAccount;
use vstd::prelude::*;

verus! {

/// An account: its address and what it holds.
#[derive(Debug, PartialEq, Eq)]
pub struct Account<T> {
    pub key: Pubkey,
    pub data: T,
}

/// What a token account holds, as far as the program looks at it.
#[derive(Debug, Clone, Copy, PartialEq, Eq)]
pub struct TokenAccount {
    pub amount: u64,
}

/// What a mint holds, as far as the program looks at it.
#[derive(Debug, Clone, Copy, PartialEq, Eq)]
pub struct Mint {
    pub decimals: u8,
}

/// The accounts of [`crate::create`].
#[derive(Debug, PartialEq, Eq)]
pub struct CreateInputAccounts {
    pub owner_account: Pubkey,
    pub owner_from_token_account: Account<TokenAccount>,
    pub ddca_account: Account<DdcaAccount>,
    pub from_mint: Account<Mint>,
    pub from_token_account: Account<TokenAccount>,
    pub to_mint: Account<Mint>,
    pub to_token_account: Account<TokenAccount>,
    pub token_program: Pubkey,
}

/// The accounts of [`crate::wake_and_swap`].
#[derive(Debug, PartialEq, Eq)]
pub struct WakeAndSwapInputAccounts {
    pub owner_account: Pubkey,
    pub ddca_account: Account<DdcaAccount>,
    pub from_mint: Account<Mint>,
    pub from_token_account: Account<TokenAccount>,
    pub to_mint: Account<Mint>,
    pub to_token_account: Account<TokenAccount>,
    pub hla_program: Pubkey,
    pub hla_operating_account: Pubkey,
    pub hla_operating_from_token_account: Account<TokenAccount>,
    pub token_program: Pubkey,
}

/// The accounts of [`crate::add_funds`].
#[derive(Debug, PartialEq, Eq)]
pub struct AddFundsInputAccounts {
    pub owner_account: Pubkey,
    pub owner_from_token_account: Account<TokenAccount>,
    pub ddca_account: Account<DdcaAccount>,
    pub from_token_account: Account<TokenAccount>,
    pub token_program: Pubkey,
}

/// The accounts of [`crate::close`].
#[derive(Debug, PartialEq, Eq)]
pub struct CloseInputAccounts {
    pub owner_account: Pubkey,
    pub owner_from_token_account: Account<TokenAccount>,
    pub owner_to_token_account: Account<TokenAccount>,
    pub ddca_account: Account<DdcaAccount>,
    pub ddca_from_token_account: Account<TokenAccount>,
    pub ddca_to_token_account: Account<TokenAccount>,
    pub operating_account: Pubkey,
    pub operating_from_token_account: Account<TokenAccount>,
    pub operating_to_token_account: Account<TokenAccount>,
    pub token_program: Pubkey,
}

impl CreateInputAccounts {
    /// The conditions under which a recurring swap may be made: the owner has the deposit, each
    /// swap is of something, swaps are at least a week apart, and the two tokens differ.
    pub open spec fn constraints(
        self,
        deposit_amount: u64,
        amount_per_swap: u64,
        interval_in_seconds: u64,
    ) -> bool {
        &&& self.owner_from_token_account.data.amount >= deposit_amount
        &&& amount_per_swap > 0
        &&& interval_in_seconds >= MINIMUM_INTERVAL_IN_SECONDS
        &&& self.from_mint.key != self.to_mint.key
    }

    /// Checks the conditions under which a recurring swap may be made.
    pub fn check_constraints(
        &self,
        deposit_amount: u64,
        amount_per_swap: u64,
        interval_in_seconds: u64,
    ) -> (result: Result<(), ConstraintError>)
        ensures
            result == if self.constraints(deposit_amount, amount_per_swap, interval_in_seconds) {
                Ok::<(), ConstraintError>(())
            } else {
                Err(ConstraintError::Raw)
            },
    {
        if self.owner_from_token_account.data.amount >= deposit_amount && amount_per_swap > 0
            && interval_in_seconds >= MINIMUM_INTERVAL_IN_SECONDS && self.from_mint.key
            != self.to_mint.key {
            Ok(())
        } else {
            Err(ConstraintError::Raw)
        }
    }

    /// The deposit: from the owner's tokens to the vault, on the owner's word.
    pub open spec fn transfer_to_vault(self) -> CpiContext<Transfer> {
        CpiContext {
            program: self.token_program,
            accounts: Transfer {
                from: self.owner_from_token_account.key,
                to: self.from_token_account.key,
                authority: self.owner_account,
            },
        }
    }

    /// The deposit: from the owner's tokens to the vault, on the owner's word.
    pub fn into_transfer_to_vault_context(&self) -> (context: CpiContext<Transfer>)
        ensures
            context == self.transfer_to_vault(),
    {
        CpiContext {
            program: self.token_program,
            accounts: Transfer {
                from: self.owner_from_token_account.key,
                to: self.from_token_account.key,
                authority: self.owner_account,
            },
        }
    }
}

impl WakeAndSwapInputAccounts {
    /// Whether the mints handed over are those that the recurring swap is about.
    pub open spec fn mints_match(self) -> bool {
        &&& self.from_mint.key == self.ddca_account.data.from_mint
        &&& self.to_mint.key == self.ddca_account.data.to_mint
    }

    /// Whether the liquidity aggregator and its operating account are the known ones.
    pub open spec fn addresses_match(self, hla_program_id: Pubkey) -> bool {
        &&& self.hla_program == hla_program_id
        &&& self.hla_operating_account == Pubkey { bytes: HLA_OPS_ACCOUNT_ID }
    }

    /// Checks the conditions under which a swap may be asked for, those on the mints first.
    pub fn check_constraints(&self, hla_program_id: &Pubkey) -> (result: Result<
        (),
        ConstraintError,
    >)
        ensures
            result == if !self.mints_match() {
                Err::<(), ConstraintError>(ConstraintError::Raw)
            } else if !self.addresses_match(*hla_program_id) {
                Err(ConstraintError::Address)
            } else {
                Ok(())
            },
    {
        if self.from_mint.key != self.ddca_account.data.from_mint || self.to_mint.key
            != self.ddca_account.data.to_mint {
            return Err(ConstraintError::Raw);
        }
        let hla_ops_account = Pubkey { bytes: HLA_OPS_ACCOUNT_ID };
        if self.hla_program != *hla_program_id || self.hla_operating_account != hla_ops_account {
            return Err(ConstraintError::Address);
        }
        Ok(())
    }
}

impl AddFundsInputAccounts {
    /// The conditions under which tokens may be added: the owner has them, and it is their own
    /// recurring swap that they are added to.
    pub open spec fn constraints(self, deposit_amount: u64) -> bool {
        &&& self.owner_from_token_account.data.amount >= deposit_amount
        &&& self.ddca_account.data.owner_acc_addr == self.owner_account
    }

    /// Checks the conditions under which tokens may be added.
    pub fn check_constraints(&self, deposit_amount: u64) -> (result: Result<(), ConstraintError>)
        ensures
            result == if self.constraints(deposit_amount) {
                Ok::<(), ConstraintError>(())
            } else {
                Err(ConstraintError::Raw)
            },
    {
        if self.owner_from_token_account.data.amount >= deposit_amount
            && self.ddca_account.data.owner_acc_addr == self.owner_account {
            Ok(())
        } else {
            Err(ConstraintError::Raw)
        }
    }

    /// The deposit: from the owner's tokens to the vault, on the owner's word.
    pub open spec fn transfer_to_ddca(self) -> CpiContext<Transfer> {
        CpiContext {
            program: self.token_program,
            accounts: Transfer {
                from: self.owner_from_token_account.key,
                to: self.from_token_account.key,
                authority: self.owner_account,
            },
        }
    }

    /// The deposit: from the owner's tokens to the vault, on the owner's word.
    pub fn into_transfer_to_ddca_context(&self) -> (context: CpiContext<Transfer>)
        ensures
            context == self.transfer_to_ddca(),
    {
        CpiContext {
            program: self.token_program,
            accounts: Transfer {
                from: self.owner_from_token_account.key,
                to: self.from_token_account.key,
                authority: self.owner_account,
            },
        }
    }
}

impl CloseInputAccounts {
    /// Whether the one who asks for the closing owns the recurring swap.
    pub open spec fn owner_matches(self) -> bool {
        self.ddca_account.data.owner_acc_addr == self.owner_account
    }

    /// Whether the account that collects the fees is the known one.
    pub open spec fn addresses_match(self) -> bool {
        self.operating_account == Pubkey { bytes: DDCA_OPERATING_ACCOUNT_ID }
    }

    /// Checks the conditions under which a recurring swap may be closed, that on the owner first.
    pub fn check_constraints(&self) -> (result: Result<(), ConstraintError>)
        ensures
            result == if !self.owner_matches() {
                Err::<(), ConstraintError>(ConstraintError::Raw)
            } else if !self.addresses_match() {
                Err(ConstraintError::Address)
            } else {
                Ok(())
            },
    {
        if self.ddca_account.data.owner_acc_addr != self.owner_account {
            return Err(ConstraintError::Raw);
        }
        let ddca_operating_account = Pubkey { bytes: DDCA_OPERATING_ACCOUNT_ID };
        if self.operating_account != ddca_operating_account {
            return Err(ConstraintError::Address);
        }
        Ok(())
    }

    /// A transfer out of a vault, on the word of the program's account.
    pub open spec fn vault_transfer(self, from: Pubkey, to: Pubkey) -> CpiContext<Transfer> {
        CpiContext {
            program: self.token_program,
            accounts: Transfer { from, to, authority: self.ddca_account.key },
        }
    }

    /// The closing of a vault, whose rent goes to the owner, on the word of the program's account.
    pub open spec fn vault_closing(self, account: Pubkey) -> CpiContext<CloseAccount> {
        CpiContext {
            program: self.token_program,
            accounts: CloseAccount {
                account,
                destination: self.owner_account,
                authority: self.ddca_account.key,
            },
        }
    }

    /// The fee on the tokens that were not swapped.
    pub fn into_transfer_from_fee_to_operating_context(&self) -> (context: CpiContext<Transfer>)
        ensures
            context == self.vault_transfer(
                self.ddca_from_token_account.key,
                self.operating_from_token_account.key,
            ),
    {
        CpiContext {
            program: self.token_program,
            accounts: Transfer {
                from: self.ddca_from_token_account.key,
                to: self.operating_from_token_account.key,
                authority: self.ddca_account.key,
            },
        }
    }

    /// The fee on the tokens that were swapped for.
    pub fn into_transfer_to_fee_to_operating_context(&self) -> (context: CpiContext<Transfer>)
        ensures
            context == self.vault_transfer(
                self.ddca_to_token_account.key,
                self.operating_to_token_account.key,
            ),
    {
        CpiContext {
            program: self.token_program,
            accounts: Transfer {
                from: self.ddca_to_token_account.key,
                to: self.operating_to_token_account.key,
                authority: self.ddca_account.key,
            },
        }
    }

    /// The tokens that were not swapped, to their owner.
    pub fn into_transfer_from_to_owner_context(&self) -> (context: CpiContext<Transfer>)
        ensures
            context == self.vault_transfer(
                self.ddca_from_token_account.key,
                self.owner_from_token_account.key,
            ),
    {
        CpiContext {
            program: self.token_program,
            accounts: Transfer {
                from: self.ddca_from_token_account.key,
                to: self.owner_from_token_account.key,
                authority: self.ddca_account.key,
            },
        }
    }

    /// The closing of the vault of the tokens that were not swapped.
    pub fn into_close_from_context(&self) -> (context: CpiContext<CloseAccount>)
        ensures
            context == self.vault_closing(self.ddca_from_token_account.key),
    {
        CpiContext {
            program: self.token_program,
            accounts: CloseAccount {
                account: self.ddca_from_token_account.key,
                destination: self.owner_account,
                authority: self.ddca_account.key,
            },
        }
    }

    /// The tokens that were swapped for, to their owner.
    pub fn into_transfer_to_to_owner_context(&self) -> (context: CpiContext<Transfer>)
        ensures
            context == self.vault_transfer(
                self.ddca_to_token_account.key,
                self.owner_to_token_account.key,
            ),
    {
        CpiContext {
            program: self.token_program,
            accounts: Transfer {
                from: self.ddca_to_token_account.key,
                to: self.owner_to_token_account.key,
                authority: self.ddca_account.key,
            },
        }
    }

    /// The closing of the vault of the tokens that were swapped for.
    pub fn into_close_to_context(&self) -> (context: CpiContext<CloseAccount>)
        ensures
            context == self.vault_closing(self.ddca_to_token_account.key),
    {
        CpiContext {
            program: self.token_program,
            accounts: CloseAccount {
                account: self.ddca_to_token_account.key,
                destination: self.owner_account,
                authority: self.ddca_account.key,
            },
        }
    }
}

} // verus!
