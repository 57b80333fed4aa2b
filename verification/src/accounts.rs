use vstd::prelude::*;

use crate::pda::{find_program_address, program_address};
use crate::pubkey::Pubkey;
use crate::seeds::{seeds_view, within_seed_limits};
use crate::state::ExchangeState;

verus! {

/// An account handed to an instruction as it stands in the transaction: its
/// address, whether it signed, and its balance in lamports.
#[derive(Clone, Copy, Debug, PartialEq, Eq)]
pub struct AccountRef {
    pub key: Pubkey,
    pub is_signer: bool,
    pub lamports: u64,
}

/// An SPL token account as an instruction reads it.
#[derive(Clone, Copy, Debug, PartialEq, Eq)]
pub struct TokenAccount {
    pub key: Pubkey,
    pub mint: Pubkey,
    pub owner: Pubkey,
    pub amount: u64,
}

/// An existing exchange state account: its address, balance and data.
#[derive(Clone, Copy, Debug, PartialEq, Eq)]
pub struct StateAccount {
    pub key: Pubkey,
    pub lamports: u64,
    pub data: ExchangeState,
}

/// What an account failed to satisfy.
#[derive(Clone, Copy, Debug, PartialEq, Eq, Structural)]
pub enum ErrorCode {
    /// An account that must sign did not.
    AccountNotSigner,
    /// An address stored in the state differs from the account handed in.
    ConstraintHasOne,
    /// A stated condition on an account does not hold.
    ConstraintRaw,
    /// An account is not at the address derived from its seeds.
    ConstraintSeeds,
    /// An account to be closed is also the destination of its lamports.
    ConstraintClose,
}

/// The account of an instruction that an error is about.
#[derive(Clone, Copy, Debug, PartialEq, Eq, Structural)]
pub enum AccountName {
    Initializer,
    Taker,
    InitializerWithdrawTokenAccount,
    InitializerReceiveTokenAccount,
    TakerWithdrawTokenAccount,
    TakerReceiveTokenAccount,
    ExchangeState,
    EscrowWallet,
}

/// An instruction refused because of one of its accounts.
#[derive(Clone, Copy, Debug, PartialEq, Eq, Structural)]
pub struct AccountError {
    pub code: ErrorCode,
    pub account: AccountName,
}

/// Why an instruction did not complete.
#[derive(Clone, Copy, Debug, PartialEq, Eq, Structural)]
pub enum InstructionError {
    /// An account broke one of the instruction's rules; nothing was done.
    Account(AccountError),
    /// The native mint's Base58 text did not decode to an address, where the
    /// instruction aborts.
    NativeMintUnavailable,
    /// Debiting the state account or crediting the recipient directly would
    /// leave the range of a lamport balance, where the instruction aborts.
    LamportsOutOfRange,
}

/// The bump seeds found for the program-derived accounts of an instruction.
#[derive(Clone, Copy, Debug, PartialEq, Eq)]
pub struct Bumps {
    pub exchange_state: u8,
    pub escrow_wallet: Option<u8>,
}

/// What an instruction handler is given: the program's address, its
/// accounts and the bumps found while checking them.
#[derive(Debug)]
pub struct Context<T> {
    pub program_id: Pubkey,
    pub accounts: T,
    pub bumps: Bumps,
}

/// One rule on the accounts of an instruction: whether it holds, and the
/// error it gives when it does not.
pub type Check = (bool, AccountError);

/// The error of the first rule that fails, in the order the rules are checked.
pub open spec fn first_failure(checks: Seq<Check>) -> Option<AccountError>
    decreases checks.len(),
{
    if checks.len() == 0 {
        None
    } else if !checks[0].0 {
        Some(checks[0].1)
    } else {
        first_failure(checks.drop_first())
    }
}

/// When no rule fails, every rule holds.
pub proof fn lemma_all_checks_hold(checks: Seq<Check>)
    requires
        first_failure(checks) is None,
    ensures
        forall|i: int| 0 <= i < checks.len() ==> #[trigger] checks[i].0,
    decreases checks.len(),
{
    if checks.len() > 0 {
        lemma_all_checks_hold(checks.drop_first());
        assert forall|i: int| 0 <= i < checks.len() implies #[trigger] checks[i].0 by {
            if i > 0 {
                assert(checks[i] == checks.drop_first()[i - 1]);
            }
        }
    }
}

/// Whether `key` is the program-derived address of `seeds` under `program_id`.
pub open spec fn at_derived_address(key: Seq<u8>, seeds: Seq<Seq<u8>>, program_id: Seq<u8>) -> bool {
    program_address(seeds, program_id) matches Some((address, _)) && address == key
}

/// The bump of the derived address of `seeds` (0 where there is none).
pub open spec fn derived_bump(seeds: Seq<Seq<u8>>, program_id: Seq<u8>) -> u8 {
    match program_address(seeds, program_id) {
        Some((_, bump)) => bump,
        None => 0,
    }
}

/// The error for `code` on `account`.
pub open spec fn error(code: ErrorCode, account: AccountName) -> AccountError {
    AccountError { code, account }
}

/// Derives the address of `seeds` and compares it with `key`; gives the bump
/// when they match.
pub fn check_derived_address(key: &Pubkey, seeds: &Vec<Vec<u8>>, program_id: &Pubkey) -> (bump: Option<u8>)
    requires
        within_seed_limits(seeds_view(seeds@)),
    ensures
        bump is Some <==> at_derived_address(key@, seeds_view(seeds@), program_id@),
        bump matches Some(b) ==> b == derived_bump(seeds_view(seeds@), program_id@),
{
    match find_program_address(seeds, program_id) {
        Some((address, bump)) => {
            if address.key_eq(key) {
                Some(bump)
            } else {
                None
            }
        },
        None => None,
    }
}

} // verus!
