//! The closing of a recurring swap: what is left goes back to its owner, but for a fee.
use crate::accounts::CloseInputAccounts;
use crate::constants::{WITHDRAW_TOKEN_FEE_DENOMINATOR, WITHDRAW_TOKEN_FEE_NUMERATOR};
use crate::cpi::{ddca_seeds, CloseAccount, CpiContext, SignerSeeds, TokenCall, Transfer};
use vstd::prelude::*;

verus! {

/// The calls of the token program that close a recurring swap, in order, and the seeds with which
/// each of them is signed.
#[derive(Debug, PartialEq, Eq)]
pub struct Closing {
    pub calls: Vec<TokenCall>,
    pub seeds: SignerSeeds,
}

/// The fee on the withdrawal of `amount` tokens: half a percent, rounded down.
pub open spec fn withdraw_fee(amount: u64) -> int {
    amount * WITHDRAW_TOKEN_FEE_NUMERATOR / WITHDRAW_TOKEN_FEE_DENOMINATOR as int
}

/// Whether the fee on `amount` can be computed in 64 bits.
pub open spec fn fee_in_range(amount: u64) -> bool {
    amount * WITHDRAW_TOKEN_FEE_NUMERATOR <= u64::MAX
}

/// The transfer of `amount` tokens, unless there are none.
pub open spec fn transfer_unless_zero(context: CpiContext<Transfer>, amount: int) -> Seq<
    TokenCall,
> {
    if amount > 0 {
        seq![TokenCall::Transfer(context, amount as u64)]
    } else {
        Seq::empty()
    }
}

/// The calls that empty and close a vault of `amount` tokens: the fee, the rest, and the closing.
pub open spec fn settlement(
    amount: u64,
    fee: CpiContext<Transfer>,
    rest: CpiContext<Transfer>,
    closing: CpiContext<CloseAccount>,
) -> Seq<TokenCall> {
    transfer_unless_zero(fee, withdraw_fee(amount)) + transfer_unless_zero(
        rest,
        amount - withdraw_fee(amount),
    ) + seq![TokenCall::CloseAccount(closing)]
}

impl CloseInputAccounts {
    /// The calls that empty and close the vault of the tokens that were not swapped.
    pub open spec fn from_settlement(self) -> Seq<TokenCall> {
        settlement(
            self.ddca_from_token_account.data.amount,
            self.vault_transfer(
                self.ddca_from_token_account.key,
                self.operating_from_token_account.key,
            ),
            self.vault_transfer(
                self.ddca_from_token_account.key,
                self.owner_from_token_account.key,
            ),
            self.vault_closing(self.ddca_from_token_account.key),
        )
    }

    /// The calls that empty and close the vault of the tokens that were swapped for.
    pub open spec fn to_settlement(self) -> Seq<TokenCall> {
        settlement(
            self.ddca_to_token_account.data.amount,
            self.vault_transfer(
                self.ddca_to_token_account.key,
                self.operating_to_token_account.key,
            ),
            self.vault_transfer(
                self.ddca_to_token_account.key,
                self.owner_to_token_account.key,
            ),
            self.vault_closing(self.ddca_to_token_account.key),
        )
    }
}

impl CloseInputAccounts {
    /// Whether `closing` empties and closes both vaults, and is signed for the recurring swap of
    /// the one who asks for it.
    pub open spec fn is_closing(self, closing: Closing) -> bool {
        &&& closing.calls@ == self.from_settlement() + self.to_settlement()
        &&& closing.seeds@ == ddca_seeds(
            self.owner_account,
            self.ddca_account.data.block_height,
            self.ddca_account.data.pda_bump,
        )
    }
}

/// Whether the fees on the contents of both vaults can be computed in 64 bits.
pub open spec fn close_in_range(accounts: CloseInputAccounts) -> bool {
    &&& fee_in_range(accounts.ddca_from_token_account.data.amount)
    &&& fee_in_range(accounts.ddca_to_token_account.data.amount)
}

/// Whether [`close`] can be called with these accounts.
pub fn can_close(accounts: &CloseInputAccounts) -> (fits: bool)
    ensures
        fits == close_in_range(*accounts),
{
    let most: u64 = u64::MAX / WITHDRAW_TOKEN_FEE_NUMERATOR;
    accounts.ddca_from_token_account.data.amount <= most
        && accounts.ddca_to_token_account.data.amount <= most
}

/// The fee on the withdrawal of `amount` tokens.
pub fn fee_on_withdrawal(amount: u64) -> (fee: u64)
    requires
        fee_in_range(amount),
    ensures
        fee == withdraw_fee(amount),
        fee <= amount,
        200 * fee <= amount < 200 * (fee + 1),
{
    amount * WITHDRAW_TOKEN_FEE_NUMERATOR / WITHDRAW_TOKEN_FEE_DENOMINATOR
}

/// Appends the calls that empty and close a vault of `amount` tokens.
fn settle(
    calls: &mut Vec<TokenCall>,
    amount: u64,
    fee_context: CpiContext<Transfer>,
    rest_context: CpiContext<Transfer>,
    closing_context: CpiContext<CloseAccount>,
)
    requires
        fee_in_range(amount),
    ensures
        final(calls)@ == old(calls)@ + settlement(
            amount,
            fee_context,
            rest_context,
            closing_context,
        ),
{
    let fee: u64 = fee_on_withdrawal(amount);
    if fee > 0 {
        calls.push(TokenCall::Transfer(fee_context, fee));
    }
    let rest: u64 = amount - fee;
    if rest > 0 {
        calls.push(TokenCall::Transfer(rest_context, rest));
    }
    calls.push(TokenCall::CloseAccount(closing_context));
    assert(calls@ =~= old(calls)@ + settlement(amount, fee_context, rest_context, closing_context));
}

/// Closes a recurring swap: says which calls of the token program to make, and how to sign them.
pub fn close(accounts: &CloseInputAccounts) -> (closing: Closing)
    requires
        close_in_range(*accounts),
    ensures
        accounts.is_closing(closing),
{
    let seeds = SignerSeeds::new(
        &accounts.owner_account,
        accounts.ddca_account.data.block_height,
        accounts.ddca_account.data.pda_bump,
    );
    let mut calls: Vec<TokenCall> = Vec::new();
    settle(
        &mut calls,
        accounts.ddca_from_token_account.data.amount,
        accounts.into_transfer_from_fee_to_operating_context(),
        accounts.into_transfer_from_to_owner_context(),
        accounts.into_close_from_context(),
    );
    settle(
        &mut calls,
        accounts.ddca_to_token_account.data.amount,
        accounts.into_transfer_to_fee_to_operating_context(),
        accounts.into_transfer_to_to_owner_context(),
        accounts.into_close_to_context(),
    );
    assert(calls@ =~= accounts.from_settlement() + accounts.to_settlement());
    Closing { calls, seeds }
}

} // verus!
