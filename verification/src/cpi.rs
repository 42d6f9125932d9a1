//! The calls that the program asks other programs to make.
use crate::bytes::{be_bytes, le_bytes, u64_to_be_bytes};
use crate::constants::SEED_LABEL;
use crate::pubkey::Pubkey;
use solana_program::system_instruction;
use vstd::prelude::*;
use vstd::slice::slice_to_vec;

verus! {

/// How an instruction uses one account.
#[derive(Debug, Clone, Copy, PartialEq, Eq)]
pub struct AccountMeta {
    pub pubkey: Pubkey,
    pub is_signer: bool,
    pub is_writable: bool,
}

/// An instruction to another program.
#[derive(Debug, PartialEq, Eq)]
pub struct Instruction {
    pub program_id: Pubkey,
    pub accounts: Vec<AccountMeta>,
    pub data: Vec<u8>,
}

/// Whether `instruction` tells the system program to move `lamports` lamports from one account to
/// another: `from` signs, both accounts change, and the data are the number of the transfer among
/// the system program's instructions, in four bytes, and the lamports, in eight, lowest byte first.
pub open spec fn is_system_transfer(
    instruction: Instruction,
    from: Pubkey,
    to: Pubkey,
    lamports: u64,
) -> bool {
    &&& instruction.program_id@ == Seq::new(32, |i: int| 0u8)
    &&& instruction.accounts@ == seq![
        AccountMeta { pubkey: from, is_signer: true, is_writable: true },
        AccountMeta { pubkey: to, is_signer: false, is_writable: true },
    ]
    &&& instruction.data@ == le_bytes(2, 4) + le_bytes(lamports as nat, 8)
}

/// Calls `solana_program::system_instruction::transfer` and takes the instruction it builds apart.
/// Trusted: the result is the system program's transfer of exactly these lamports between exactly
/// these accounts, as [`is_system_transfer`] spells out.
#[verifier::external_body]
pub(crate) fn system_transfer(from: &Pubkey, to: &Pubkey, lamports: u64) -> (instruction:
    Instruction)
    ensures
        is_system_transfer(instruction, *from, *to, lamports),
{
    let from = solana_program::pubkey::Pubkey::new_from_array(from.bytes);
    let to = solana_program::pubkey::Pubkey::new_from_array(to.bytes);
    let built = system_instruction::transfer(&from, &to, lamports);
    let accounts = built.accounts.iter().map(
        |meta| AccountMeta {
            pubkey: Pubkey { bytes: meta.pubkey.to_bytes() },
            is_signer: meta.is_signer,
            is_writable: meta.is_writable,
        },
    ).collect();
    let program_id = Pubkey { bytes: built.program_id.to_bytes() };
    Instruction { program_id, accounts, data: built.data }
}

/// The accounts of a token transfer.
#[derive(Debug, Clone, Copy, PartialEq, Eq)]
pub struct Transfer {
    pub from: Pubkey,
    pub to: Pubkey,
    pub authority: Pubkey,
}

/// The accounts of the closing of a token account, whose rent goes to `destination`.
#[derive(Debug, Clone, Copy, PartialEq, Eq)]
pub struct CloseAccount {
    pub account: Pubkey,
    pub destination: Pubkey,
    pub authority: Pubkey,
}

/// The accounts of a swap at the liquidity aggregator.
#[derive(Debug, Clone, Copy, PartialEq, Eq)]
pub struct Swap {
    pub hla_ops_account: Pubkey,
    pub hla_ops_token_account: Pubkey,
    pub vault_account: Pubkey,
    pub from_token_account: Pubkey,
    pub from_token_mint: Pubkey,
    pub to_token_account: Pubkey,
    pub to_token_mint: Pubkey,
    pub token_program_account: Pubkey,
}

/// The program that is called, and the accounts that it is handed.
#[derive(Debug, PartialEq, Eq)]
pub struct CpiContext<T> {
    pub program: Pubkey,
    pub accounts: T,
}

/// A call of the token program.
#[derive(Debug, PartialEq, Eq)]
pub enum TokenCall {
    /// Moves this amount of tokens.
    Transfer(CpiContext<Transfer>, u64),
    /// Closes an empty token account.
    CloseAccount(CpiContext<CloseAccount>),
}

/// The seeds with which the program signs for one of its accounts.
#[derive(Debug, PartialEq, Eq)]
pub struct SignerSeeds {
    pub seeds: Vec<Vec<u8>>,
}

impl View for SignerSeeds {
    type V = Seq<Seq<u8>>;

    open spec fn view(&self) -> Seq<Seq<u8>> {
        self.seeds@.map_values(|seed: Vec<u8>| seed@)
    }
}

/// The seeds from which the address of an account of the program is derived: its owner, the block
/// height at which it was made, highest byte first, the label of the program, and the bump.
pub open spec fn ddca_seeds(owner: Pubkey, block_height: u64, pda_bump: u8) -> Seq<Seq<u8>> {
    seq![owner@, be_bytes(block_height as nat, 8), SEED_LABEL@, seq![pda_bump]]
}

impl SignerSeeds {
    /// The seeds of the account with this owner, block height and bump.
    pub fn new(owner: &Pubkey, block_height: u64, pda_bump: u8) -> (seeds: SignerSeeds)
        ensures
            seeds@ == ddca_seeds(*owner, block_height, pda_bump),
    {
        let label: [u8; 9] = SEED_LABEL;
        let bump: Vec<u8> = vec![pda_bump];
        assert(bump@ =~= seq![pda_bump]);
        let result = SignerSeeds {
            seeds: vec![
                slice_to_vec(owner.bytes.as_slice()),
                u64_to_be_bytes(block_height),
                slice_to_vec(label.as_slice()),
                bump,
            ],
        };
        assert(result@ =~= ddca_seeds(*owner, block_height, pda_bump));
        result
    }
}

} // verus!
