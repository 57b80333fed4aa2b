use vstd::prelude::*;

use crate::pubkey::Pubkey;
use crate::seeds::seeds_view;
use crate::state::{ExchangeState, ExchangeStateView};

verus! {

/// One effect of an instruction on the ledger, in the order the instruction
/// performs it. Signer seeds are empty where the authority signed the
/// transaction itself, and hold the seeds and bump of a program-derived
/// authority otherwise.
#[derive(Clone, Debug, PartialEq, Eq)]
pub enum Action {
    /// Create the program-owned state account at its derived address, with
    /// `space` bytes, `payer` adding what it lacks for rent.
    CreateStateAccount { payer: Pubkey, account: Pubkey, space: usize, signer_seeds: Vec<Vec<u8>> },
    /// Create the escrow token account at its derived address, `payer`
    /// adding what it lacks for rent, holding tokens of `mint` under `authority`.
    CreateTokenAccount { payer: Pubkey, account: Pubkey, mint: Pubkey, authority: Pubkey, signer_seeds: Vec<Vec<u8>> },
    /// Move lamports through the system program.
    SystemTransfer { from: Pubkey, to: Pubkey, lamports: u64 },
    /// Move tokens through the token program.
    TokenTransfer { from: Pubkey, to: Pubkey, authority: Pubkey, amount: u64, signer_seeds: Vec<Vec<u8>> },
    /// Close a token account through the token program, its rent going to `destination`.
    CloseTokenAccount { account: Pubkey, destination: Pubkey, authority: Pubkey, signer_seeds: Vec<Vec<u8>> },
    /// Set the lamport balance of an account that the program may debit or credit directly.
    SetLamports { account: Pubkey, lamports: u64 },
    /// Store the exchange state in its account.
    WriteState { account: Pubkey, state: ExchangeState },
    /// Close the state account, all of its lamports going to `destination`.
    CloseStateAccount { account: Pubkey, destination: Pubkey },
}

/// An action with its addresses and seeds taken as byte sequences.
#[verifier::ext_equal]
pub enum ActionView {
    CreateStateAccount { payer: Seq<u8>, account: Seq<u8>, space: usize, signer_seeds: Seq<Seq<u8>> },
    CreateTokenAccount {
        payer: Seq<u8>,
        account: Seq<u8>,
        mint: Seq<u8>,
        authority: Seq<u8>,
        signer_seeds: Seq<Seq<u8>>,
    },
    SystemTransfer { from: Seq<u8>, to: Seq<u8>, lamports: u64 },
    TokenTransfer { from: Seq<u8>, to: Seq<u8>, authority: Seq<u8>, amount: u64, signer_seeds: Seq<Seq<u8>> },
    CloseTokenAccount { account: Seq<u8>, destination: Seq<u8>, authority: Seq<u8>, signer_seeds: Seq<Seq<u8>> },
    SetLamports { account: Seq<u8>, lamports: u64 },
    WriteState { account: Seq<u8>, state: ExchangeStateView },
    CloseStateAccount { account: Seq<u8>, destination: Seq<u8> },
}

impl View for Action {
    type V = ActionView;

    open spec fn view(&self) -> ActionView {
        match self {
            Action::CreateStateAccount { payer, account, space, signer_seeds } => ActionView::CreateStateAccount {
                payer: payer@,
                account: account@,
                space: *space,
                signer_seeds: seeds_view(signer_seeds@),
            },
            Action::CreateTokenAccount { payer, account, mint, authority, signer_seeds } => ActionView::CreateTokenAccount {
                payer: payer@,
                account: account@,
                mint: mint@,
                authority: authority@,
                signer_seeds: seeds_view(signer_seeds@),
            },
            Action::SystemTransfer { from, to, lamports } => ActionView::SystemTransfer {
                from: from@,
                to: to@,
                lamports: *lamports,
            },
            Action::TokenTransfer { from, to, authority, amount, signer_seeds } => ActionView::TokenTransfer {
                from: from@,
                to: to@,
                authority: authority@,
                amount: *amount,
                signer_seeds: seeds_view(signer_seeds@),
            },
            Action::CloseTokenAccount { account, destination, authority, signer_seeds } => ActionView::CloseTokenAccount {
                account: account@,
                destination: destination@,
                authority: authority@,
                signer_seeds: seeds_view(signer_seeds@),
            },
            Action::SetLamports { account, lamports } => ActionView::SetLamports {
                account: account@,
                lamports: *lamports,
            },
            Action::WriteState { account, state } => ActionView::WriteState { account: account@, state: state@ },
            Action::CloseStateAccount { account, destination } => ActionView::CloseStateAccount {
                account: account@,
                destination: destination@,
            },
        }
    }
}

/// The views of a list of actions.
pub open spec fn actions_view(actions: Seq<Action>) -> Seq<ActionView> {
    actions.map_values(|a: Action| a@)
}

/// The actions of `before`, then those of `middle`, then those of `after`.
pub fn chain(before: Vec<Action>, middle: Vec<Action>, after: Vec<Action>) -> (all: Vec<Action>)
    ensures
        actions_view(all@) == actions_view(before@) + actions_view(middle@) + actions_view(after@),
{
    let ghost (b, m, a) = (before@, middle@, after@);
    let mut all = before;
    let mut middle = middle;
    let mut after = after;
    all.append(&mut middle);
    all.append(&mut after);
    proof {
        assert(all@ =~= b + m + a);
        assert(actions_view(all@) =~= actions_view(b) + actions_view(m) + actions_view(a));
    }
    all
}

} // verus!
